use tuntap::error::TunError;
use tuntap::packet::{check_read_buffer, WriteCursor, WriteStep, MTU_SIZE};

#[test]
fn read_buffer_below_mtu_is_rejected() {
    assert_eq!(check_read_buffer(1499), Err(TunError::InvariantViolation));
    assert_eq!(check_read_buffer(0), Err(TunError::InvariantViolation));
}

#[test]
fn read_buffer_of_mtu_or_more_is_accepted() {
    assert_eq!(MTU_SIZE, 1500);
    assert_eq!(check_read_buffer(1500), Ok(()));
    assert_eq!(check_read_buffer(65536), Ok(()));
}

#[test]
fn partial_writes_reach_every_byte() {
    let mut c = WriteCursor::new(5000);
    assert_eq!(c.record(2048), WriteStep::Continue);
    assert_eq!(c.sent(), 2048);
    assert_eq!(c.record(2048), WriteStep::Continue);
    assert_eq!(c.record(904), WriteStep::Done);
    assert_eq!(c.sent(), 5000);
    assert_eq!(c.total(), 5000);
    assert!(c.is_done());
}

#[test]
fn single_full_write_is_done() {
    let mut c = WriteCursor::new(10);
    assert!(!c.is_done());
    assert_eq!(c.record(10), WriteStep::Done);
}

#[test]
fn zero_progress_write_stalls() {
    let mut c = WriteCursor::new(10);
    assert_eq!(c.record(3), WriteStep::Continue);
    assert_eq!(c.record(0), WriteStep::Stalled);
    assert_eq!(c.sent(), 3);
}

#[test]
fn empty_write_is_done_at_once() {
    let mut c = WriteCursor::new(0);
    assert!(c.is_done());
    assert_eq!(c.record(0), WriteStep::Done);
}

#[test]
fn interrupted_write_is_retried() {
    let mut c = WriteCursor::new(10);
    assert_eq!(c.record(4), WriteStep::Continue);
    assert_eq!(c.on_error(true), WriteStep::Continue);
    assert_eq!(c.sent(), 4);
}

#[test]
fn hard_write_error_ends_write() {
    let c = WriteCursor::new(10);
    assert_eq!(c.on_error(false), WriteStep::Failed);
    assert_eq!(c.sent(), 0);
}
