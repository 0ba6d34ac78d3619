use md_viewer::bridge::{handle_opened, resolve_locator, Locator};
use md_viewer::slot::PendingOpenSlot;

fn file_locator(text: &str, path: Option<&str>) -> Locator {
    Locator {
        is_file: true,
        text: String::from(text),
        file_path: path.map(String::from),
    }
}

fn opaque_locator(text: &str) -> Locator {
    Locator {
        is_file: false,
        text: String::from(text),
        file_path: None,
    }
}

#[test]
fn file_locator_resolves_to_its_path() {
    let loc = file_locator("file:///tmp/doc.md", Some("/tmp/doc.md"));
    assert_eq!(resolve_locator(&loc), Some(String::from("/tmp/doc.md")));
}

#[test]
fn file_locator_without_path_resolves_to_nothing() {
    let loc = file_locator("file://host/odd", None);
    assert_eq!(resolve_locator(&loc), None);
}

#[test]
fn opaque_locator_resolves_to_its_text() {
    let loc = opaque_locator("mdviewer://open?doc=1");
    assert_eq!(resolve_locator(&loc), Some(String::from("mdviewer://open?doc=1")));
}

#[test]
fn single_locator_is_recorded_and_announced() {
    let mut slot = PendingOpenSlot::new();
    let locators = vec![file_locator("file:///tmp/doc.md", Some("/tmp/doc.md"))];
    let notes = handle_opened(&mut slot, &locators);
    assert_eq!(notes.len(), 1);
    assert_eq!(notes[0].name, "a file was opened");
    assert_eq!(notes[0].payload, Some(String::from("/tmp/doc.md")));
    assert_eq!(slot.take(), Some(String::from("/tmp/doc.md")));
}

#[test]
fn last_locator_of_a_batch_survives_but_each_is_announced() {
    let mut slot = PendingOpenSlot::new();
    let locators = vec![
        file_locator("file:///tmp/a.md", Some("/tmp/a.md")),
        file_locator("file:///tmp/b.md", Some("/tmp/b.md")),
    ];
    let notes = handle_opened(&mut slot, &locators);
    let payloads: Vec<Option<String>> = notes.iter().map(|n| n.payload.clone()).collect();
    assert_eq!(
        payloads,
        vec![Some(String::from("/tmp/a.md")), Some(String::from("/tmp/b.md"))]
    );
    assert_eq!(slot.take(), Some(String::from("/tmp/b.md")));
    assert_eq!(slot.take(), None);
}

#[test]
fn unresolvable_locator_is_skipped() {
    let mut slot = PendingOpenSlot::new();
    let locators = vec![
        file_locator("file:///tmp/a.md", Some("/tmp/a.md")),
        file_locator("file://host/odd", None),
    ];
    let notes = handle_opened(&mut slot, &locators);
    assert_eq!(notes.len(), 1);
    assert_eq!(notes[0].payload, Some(String::from("/tmp/a.md")));
    assert_eq!(slot.take(), Some(String::from("/tmp/a.md")));
}

#[test]
fn empty_batch_touches_nothing() {
    let mut slot = PendingOpenSlot::new();
    slot.write(String::from("/tmp/kept.md"));
    let notes = handle_opened(&mut slot, &Vec::new());
    assert!(notes.is_empty());
    assert_eq!(slot.take(), Some(String::from("/tmp/kept.md")));
}
