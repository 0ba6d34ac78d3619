use md_viewer::bridge::Locator;
use md_viewer::shared::{get_opened_file, get_opened_mutex};

#[test]
fn open_before_ready_is_delivered_exactly_once() {
    // The OS delivers open-with-file for /tmp/doc.md before the UI signals
    // ready; the first query after ready gets the path, a second gets empty.
    let slot = get_opened_mutex();
    let locators = vec![Locator {
        is_file: true,
        text: String::from("file:///tmp/doc.md"),
        file_path: Some(String::from("/tmp/doc.md")),
    }];
    let notes = slot.absorb_opened(&locators);
    assert_eq!(notes.len(), 1);
    assert_eq!(notes[0].name, "a file was opened");
    assert_eq!(notes[0].payload, Some(String::from("/tmp/doc.md")));
    assert_eq!(get_opened_file(&slot), Some(String::from("/tmp/doc.md")));
    assert_eq!(get_opened_file(&slot), None);
}

#[test]
fn query_on_ordinary_launch_returns_empty() {
    let slot = get_opened_mutex();
    assert_eq!(get_opened_file(&slot), None);
}

#[test]
fn shared_writes_obey_last_write_wins() {
    let slot = get_opened_mutex();
    slot.write(String::from("/tmp/one.md"));
    slot.write(String::from("/tmp/two.md"));
    assert_eq!(slot.take(), Some(String::from("/tmp/two.md")));
    assert_eq!(slot.take(), None);
}
