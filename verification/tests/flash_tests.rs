use sslflash::flash::{
    BootError, FlashAction, FlashEngine, FlashEvent, ReportKind, RETRY_BUDGET,
};

fn line(s: &str) -> FlashEvent {
    FlashEvent::LineReceived(s.as_bytes().to_vec())
}

/// Brings a fresh engine through file open, port open, DTR and the BOOT
/// trigger, up to the first poll of the handshake loop.
fn engine_at_handshake() -> FlashEngine {
    let mut e = FlashEngine::new(RETRY_BUDGET);
    assert_eq!(e.current_action(), FlashAction::OpenFile);
    assert_eq!(e.step(FlashEvent::FileOpened), FlashAction::TryOpen);
    assert_eq!(e.step(FlashEvent::OpenOk), FlashAction::AssertDtr);
    assert_eq!(e.step(FlashEvent::DtrOk), FlashAction::SendOutbox);
    assert_eq!(e.outbox(), b"BOOT");
    assert_eq!(e.step(FlashEvent::WriteOk), FlashAction::Poll);
    e
}

#[test]
fn size_request_for_1000_byte_file_sends_literal_digits() {
    let mut e = engine_at_handshake();
    assert_eq!(e.step(line("SIZE")), FlashAction::QueryFileSize);
    assert_eq!(e.step(FlashEvent::FileSize(1000)), FlashAction::SendOutbox);
    assert_eq!(e.outbox(), b"1000");
    assert_eq!(e.file_size(), 1000);
    assert_eq!(e.step(FlashEvent::WriteOk), FlashAction::Poll);
}

#[test]
fn three_data_requests_then_done_send_three_full_chunks() {
    let mut e = engine_at_handshake();
    assert_eq!(e.step(line("SIZE")), FlashAction::QueryFileSize);
    assert_eq!(e.step(FlashEvent::FileSize(1000)), FlashAction::SendOutbox);
    assert_eq!(e.outbox(), b"1000");
    assert_eq!(e.step(FlashEvent::WriteOk), FlashAction::Poll);

    let mut chunks_written = 0u32;
    for round in 0..3u64 {
        let a = e.step(line("DATA"));
        // each chunk is requested at the current 256-byte offset
        assert_eq!(a, FlashAction::ReadFileChunk(256 * round));
        let fresh = vec![round as u8; 256];
        assert_eq!(e.chunk_read(&fresh), FlashAction::SendChunk);
        assert_eq!(e.chunk().len(), 256);
        assert_eq!(e.chunk(), &fresh);
        chunks_written += 1;
        assert_eq!(e.step(FlashEvent::WriteOk), FlashAction::Poll);
        assert_eq!(e.bytes_sent(), 256 * (round + 1));
    }
    assert_eq!(chunks_written, 3);
    assert_eq!(e.bytes_sent(), 768);
    assert_eq!(e.step(line("DONE")), FlashAction::Finished);
    assert_eq!(e.current_action(), FlashAction::Finished);
}

#[test]
fn short_final_read_sends_stale_tail_residue() {
    // a 300-byte file: the second read returns 44 fresh bytes and the
    // chunk sent keeps 212 stale bytes of the previous chunk behind them
    let mut e = engine_at_handshake();
    assert_eq!(e.step(line("SIZE")), FlashAction::QueryFileSize);
    assert_eq!(e.step(FlashEvent::FileSize(300)), FlashAction::SendOutbox);
    assert_eq!(e.outbox(), b"300");
    assert_eq!(e.step(FlashEvent::WriteOk), FlashAction::Poll);

    assert_eq!(e.step(line("DATA")), FlashAction::ReadFileChunk(0));
    assert_eq!(e.chunk_read(&vec![0xAAu8; 256]), FlashAction::SendChunk);
    assert_eq!(e.step(FlashEvent::WriteOk), FlashAction::Poll);

    assert_eq!(e.step(line("DATA")), FlashAction::ReadFileChunk(256));
    assert_eq!(e.chunk_read(&vec![0xBBu8; 44]), FlashAction::SendChunk);
    let sent = e.chunk().clone();
    assert_eq!(sent.len(), 256);
    assert!(sent[..44].iter().all(|&b| b == 0xBB));
    assert!(sent[44..].iter().all(|&b| b == 0xAA));
    assert_eq!(e.step(FlashEvent::WriteOk), FlashAction::Poll);

    // bytes_sent counts two full chunks: 256 * (300 / 256 rounded up)
    assert_eq!(e.bytes_sent(), 512);
    assert_eq!(e.step(line("DONE")), FlashAction::Finished);
}

#[test]
fn tolerated_chunk_write_failure_does_not_advance() {
    let mut e = engine_at_handshake();
    assert_eq!(e.step(line("DATA")), FlashAction::ReadFileChunk(0));
    assert_eq!(e.chunk_read(&vec![1u8; 256]), FlashAction::SendChunk);
    // a failed chunk write is tolerated: the session keeps polling
    assert_eq!(e.step(FlashEvent::WriteFailed), FlashAction::Poll);
    assert_eq!(e.bytes_sent(), 0);
    // the device asks again at the same offset
    assert_eq!(e.step(line("DATA")), FlashAction::ReadFileChunk(0));
}

#[test]
fn informational_lines_are_surfaced_without_state_change() {
    let mut e = engine_at_handshake();
    assert_eq!(e.step(line("log:booting")), FlashAction::Report(ReportKind::LogMsg));
    assert_eq!(e.report(), b"booting");
    assert_eq!(e.step(line("ICCID 898830")), FlashAction::Report(ReportKind::IdentityLine));
    assert_eq!(e.report(), b"ICCID 898830");
    assert_eq!(e.step(line("mystery")), FlashAction::Report(ReportKind::Unrecognized));
    assert_eq!(e.report(), b"mystery");
    assert_eq!(e.step(FlashEvent::NoLine), FlashAction::Poll);
    // none of it moved the handshake on
    assert_eq!(e.current_action(), FlashAction::Poll);
    assert_eq!(e.bytes_sent(), 0);
}

#[test]
fn log_prefix_strips_first_four_bytes_of_line() {
    let mut e = engine_at_handshake();
    assert_eq!(e.step(line("log:hello")), FlashAction::Report(ReportKind::LogMsg));
    assert_eq!(e.report(), b"hello");
    // the first four bytes of the line go, wherever the keyword stands
    assert_eq!(e.step(line("xxlog:hi")), FlashAction::Report(ReportKind::LogMsg));
    assert_eq!(e.report(), b"g:hi");
}

#[test]
fn file_open_failure_aborts() {
    let mut e = FlashEngine::new(RETRY_BUDGET);
    assert_eq!(
        e.step(FlashEvent::FileOpenFailed),
        FlashAction::Fail(BootError::FileOpenError)
    );
}

#[test]
fn dtr_failure_aborts() {
    let mut e = FlashEngine::new(RETRY_BUDGET);
    e.step(FlashEvent::FileOpened);
    e.step(FlashEvent::OpenOk);
    assert_eq!(e.step(FlashEvent::DtrFailed), FlashAction::Fail(BootError::DTRError));
}

#[test]
fn boot_write_failure_aborts() {
    let mut e = FlashEngine::new(RETRY_BUDGET);
    e.step(FlashEvent::FileOpened);
    e.step(FlashEvent::OpenOk);
    e.step(FlashEvent::DtrOk);
    assert_eq!(e.step(FlashEvent::WriteFailed), FlashAction::Fail(BootError::WriteError));
}

#[test]
fn size_write_failure_aborts() {
    let mut e = engine_at_handshake();
    e.step(line("SIZE"));
    e.step(FlashEvent::FileSize(10));
    assert_eq!(e.step(FlashEvent::WriteFailed), FlashAction::Fail(BootError::WriteError));
}

#[test]
fn file_metadata_failure_aborts() {
    let mut e = engine_at_handshake();
    e.step(line("SIZE"));
    assert_eq!(e.step(FlashEvent::FileFailed), FlashAction::Fail(BootError::FileReadError));
}

#[test]
fn file_chunk_read_failure_aborts() {
    let mut e = engine_at_handshake();
    e.step(line("DATA"));
    assert_eq!(e.step(FlashEvent::FileFailed), FlashAction::Fail(BootError::FileReadError));
}

#[test]
fn serial_read_failure_aborts() {
    let mut e = engine_at_handshake();
    assert_eq!(e.step(FlashEvent::ReadFailed), FlashAction::Fail(BootError::ReadError));
}

#[test]
fn open_retries_exhaust_exactly_at_budget() {
    let mut e = FlashEngine::new(3);
    e.step(FlashEvent::FileOpened);
    assert_eq!(e.step(FlashEvent::OpenFailed), FlashAction::TryOpen);
    assert_eq!(e.step(FlashEvent::OpenFailed), FlashAction::TryOpen);
    assert_eq!(
        e.step(FlashEvent::OpenFailed),
        FlashAction::Fail(BootError::PortOpenError)
    );
}

#[test]
fn open_succeeds_immediately_on_first_success() {
    let mut e = FlashEngine::new(3);
    e.step(FlashEvent::FileOpened);
    assert_eq!(e.step(FlashEvent::OpenFailed), FlashAction::TryOpen);
    assert_eq!(e.step(FlashEvent::OpenOk), FlashAction::AssertDtr);
}

#[test]
fn progress_is_permille_of_file_size() {
    let mut e = engine_at_handshake();
    assert_eq!(e.progress_permille(), 1000);  // no size negotiated yet
    e.step(line("SIZE"));
    e.step(FlashEvent::FileSize(1000));
    e.step(FlashEvent::WriteOk);
    assert_eq!(e.progress_permille(), 0);
    e.step(line("DATA"));
    e.chunk_read(&vec![0u8; 256]);
    e.step(FlashEvent::WriteOk);
    assert_eq!(e.progress_permille(), 256);
    // counted bytes may pass the file length; the bar is capped
    for _ in 0..3 {
        e.step(line("DATA"));
        e.chunk_read(&vec![0u8; 256]);
        e.step(FlashEvent::WriteOk);
    }
    assert_eq!(e.bytes_sent(), 1024);
    assert_eq!(e.progress_permille(), 1000);
}
