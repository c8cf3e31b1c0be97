use sslflash::debug::{DebugAction, DebugError, DebugEvent, DebugStream};
use sslflash::flash::RETRY_BUDGET;

fn stream_forwarding() -> DebugStream {
    let mut s = DebugStream::new(RETRY_BUDGET);
    assert_eq!(s.current_action(), DebugAction::TryOpen);
    assert_eq!(s.step(DebugEvent::OpenOk), DebugAction::AssertDtr);
    assert_eq!(s.step(DebugEvent::DtrOk), DebugAction::Poll);
    s
}

#[test]
fn raw_bytes_are_forwarded_in_order_with_nothing_added() {
    let mut s = stream_forwarding();
    let out = s.forward_all(&vec![0x41u8, 0x0D, 0x42]);
    assert_eq!(out, vec![0x41u8, 0x0D, 0x42]);
}

#[test]
fn each_byte_is_forwarded_as_it_is() {
    let mut s = stream_forwarding();
    assert_eq!(s.step(DebugEvent::ByteRead(0x41)), DebugAction::Forward(0x41));
    assert_eq!(s.step(DebugEvent::ByteRead(0x0D)), DebugAction::Forward(0x0D));
    assert_eq!(s.step(DebugEvent::ByteRead(0x42)), DebugAction::Forward(0x42));
}

#[test]
fn timeout_keeps_polling() {
    let mut s = stream_forwarding();
    assert_eq!(s.step(DebugEvent::Timeout), DebugAction::Poll);
    assert_eq!(s.step(DebugEvent::ByteRead(7)), DebugAction::Forward(7));
}

#[test]
fn read_failure_ends_the_stream() {
    let mut s = stream_forwarding();
    assert_eq!(
        s.step(DebugEvent::ReadFailed),
        DebugAction::Fail(DebugError::ReadError)
    );
}

#[test]
fn debug_dtr_failure_aborts() {
    let mut s = DebugStream::new(RETRY_BUDGET);
    s.step(DebugEvent::OpenOk);
    assert_eq!(
        s.step(DebugEvent::DtrFailed),
        DebugAction::Fail(DebugError::DTRError)
    );
}

#[test]
fn debug_open_retries_exhaust_exactly_at_budget() {
    let mut s = DebugStream::new(2);
    assert_eq!(s.step(DebugEvent::OpenFailed), DebugAction::TryOpen);
    assert_eq!(
        s.step(DebugEvent::OpenFailed),
        DebugAction::Fail(DebugError::PortOpenError)
    );
}
