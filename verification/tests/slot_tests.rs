use md_viewer::slot::PendingOpenSlot;

#[test]
fn fresh_slot_take_returns_empty() {
    let mut slot = PendingOpenSlot::new();
    assert_eq!(slot.take(), None);
}

#[test]
fn take_once_first_full_second_empty() {
    let mut slot = PendingOpenSlot::new();
    slot.write(String::from("/tmp/a.md"));
    assert_eq!(slot.take(), Some(String::from("/tmp/a.md")));
    assert_eq!(slot.take(), None);
}

#[test]
fn last_write_wins() {
    let mut slot = PendingOpenSlot::new();
    slot.write(String::from("/tmp/first.md"));
    slot.write(String::from("/tmp/second.md"));
    assert_eq!(slot.take(), Some(String::from("/tmp/second.md")));
    assert_eq!(slot.take(), None);
}

#[test]
fn write_after_take_holds_new_value() {
    let mut slot = PendingOpenSlot::new();
    slot.write(String::from("one"));
    assert_eq!(slot.take(), Some(String::from("one")));
    slot.write(String::from("two"));
    assert_eq!(slot.take(), Some(String::from("two")));
}
