use faster_rs::read_slot::completes_at_once;
use faster_rs::status;
use faster_rs::{ReadError, ReadSlot};

#[test]
fn delivered_value_reaches_waiter() {
    let mut slot = ReadSlot::new();
    let value = 1337u64.to_le_bytes();
    slot.deliver(status::OK as u32, 8, Some(&value));
    assert!(!slot.mark_done());
    assert_eq!(slot.take(), Ok(value.to_vec()));
    assert_eq!(slot.take(), Err(ReadError::Empty));
    assert!(slot.mark_dropped());
}

#[test]
fn empty_value_is_delivered_as_empty() {
    let mut slot = ReadSlot::new();
    slot.deliver(status::OK as u32, 0, None);
    assert_eq!(slot.take(), Ok(vec![]));
}

#[test]
fn missing_value_aborts_read() {
    let mut slot = ReadSlot::new();
    slot.deliver(status::OK as u32, 4, None);
    assert_eq!(slot.take(), Err(ReadError::NotFound));
}

#[test]
fn failed_read_gives_not_found() {
    let mut slot = ReadSlot::new();
    slot.deliver(status::NOT_FOUND as u32, 0, None);
    assert_eq!(slot.take(), Err(ReadError::NotFound));
    let mut fresh = ReadSlot::new();
    assert_eq!(fresh.take(), Err(ReadError::NotFound));
}

#[test]
fn slot_released_by_second_party() {
    let mut a = ReadSlot::new();
    assert!(!a.mark_done());
    assert!(a.mark_dropped());
    let mut b = ReadSlot::new();
    assert!(!b.mark_dropped());
    assert!(b.mark_done());
}

#[test]
fn only_failures_complete_at_once() {
    assert!(!completes_at_once(status::OK));
    assert!(!completes_at_once(status::PENDING));
    for s in [status::NOT_FOUND, status::OUT_OF_MEMORY, status::IO_ERROR, status::CORRUPTION, status::ABORTED] {
        assert!(completes_at_once(s));
    }
}

#[test]
fn failed_delivery_ignores_value() {
    let mut slot = ReadSlot::new();
    let stray = [1u8, 2];
    slot.deliver(status::IO_ERROR as u32, 100, Some(&stray));
    assert_eq!(slot.take(), Err(ReadError::NotFound));
}
