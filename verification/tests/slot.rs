use ffi_helpers::{get_last_error, update_last_error, ErrorSlot, ErrorValue};

fn error(payload: u32, message: &str) -> ErrorValue<u32> {
    ErrorValue::new(payload, message.to_string())
}

#[test]
fn new_slot_is_empty() {
    let mut slot: ErrorSlot<u32> = ErrorSlot::new();
    assert!(!slot.is_pending());
    assert!(get_last_error(&mut slot).is_none());
    assert!(!slot.is_pending());
}

#[test]
fn stored_error_is_taken_once() {
    let mut slot = ErrorSlot::new();
    update_last_error(&mut slot, error(1, "disk full"));
    assert!(slot.is_pending());

    let first = get_last_error(&mut slot).expect("an error was stored");
    assert_eq!(first.message(), "disk full");
    assert_eq!(first.payload, 1);
    assert!(!slot.is_pending());

    assert!(get_last_error(&mut slot).is_none());
}

#[test]
fn second_store_replaces_the_first() {
    let mut slot = ErrorSlot::new();
    update_last_error(&mut slot, error(1, "first"));
    update_last_error(&mut slot, error(2, "second"));

    let taken = get_last_error(&mut slot).expect("an error was stored");
    assert_eq!(taken.message(), "second");
    assert_eq!(taken.into_payload(), 2);
    assert!(get_last_error(&mut slot).is_none());
}

#[test]
fn store_after_take_is_seen_again() {
    let mut slot = ErrorSlot::new();
    update_last_error(&mut slot, error(1, "first"));
    assert!(get_last_error(&mut slot).is_some());
    update_last_error(&mut slot, error(2, "second"));
    let taken = get_last_error(&mut slot).expect("an error was stored");
    assert_eq!(taken.message(), "second");
}

#[test]
fn slots_do_not_share_errors() {
    let mut mine = ErrorSlot::new();
    let mut theirs: ErrorSlot<u32> = ErrorSlot::new();
    update_last_error(&mut mine, error(7, "only mine"));

    assert!(get_last_error(&mut theirs).is_none());

    let taken = get_last_error(&mut mine).expect("the error is still in its own slot");
    assert_eq!(taken.message(), "only mine");
    assert_eq!(taken.payload, 7);
}

#[test]
fn error_value_keeps_payload_and_message() {
    let value = ErrorValue::new(vec![1u8, 2, 3], String::from("bad input"));
    assert_eq!(value.message(), "bad input");
    assert_eq!(value.message, "bad input");
    assert_eq!(value.into_payload(), vec![1u8, 2, 3]);
}
