use shared_files::{CompleteWritingError, FileSize, WriteError, WriteState};

#[test]
fn initial_state_is_empty_pending() {
    let s = WriteState::initial();
    assert_eq!(s, WriteState::Pending { committed: 0, written: 0 });
    assert!(matches!(s.file_size(), FileSize::AtLeast(0)));
}

#[test]
fn write_advances_written_only() {
    let s = WriteState::initial();
    let (s, r) = s.apply_write(5);
    assert_eq!(r, Ok(5));
    assert_eq!(s, WriteState::Pending { committed: 0, written: 5 });
    let (s, r) = s.apply_write(7);
    assert_eq!(r, Ok(12));
    assert_eq!(s, WriteState::Pending { committed: 0, written: 12 });
    // nothing is readable until a sync promotes the frontier
    assert!(matches!(s.file_size(), FileSize::AtLeast(0)));
}

#[test]
fn sync_promotes_frontier() {
    let (s, _) = WriteState::initial().apply_write(100);
    let s = s.on_sync_success();
    assert_eq!(s, WriteState::Pending { committed: 100, written: 100 });
    assert!(matches!(s.file_size(), FileSize::AtLeast(100)));
}

#[test]
fn write_after_complete_fails() {
    let s = WriteState::Completed { size: 8 };
    let (s1, r) = s.apply_write(1);
    assert_eq!(r, Err(WriteError::FileClosed));
    assert_eq!(s1, s);
    // a zero-length write is tolerated
    let (s2, r) = s.apply_write(0);
    assert_eq!(r, Ok(8));
    assert_eq!(s2, s);
}

#[test]
fn write_after_failure_fails() {
    let (s, r) = WriteState::Failed.apply_write(4);
    assert_eq!(r, Err(WriteError::Io));
    assert_eq!(s, WriteState::Failed);
}

#[test]
fn finalize_completes_with_written_count() {
    // dropping the writer after writing but without syncing still completes,
    // with the written count as the final size
    let (s, _) = WriteState::initial().apply_write(42);
    let (s, r) = s.finalize();
    assert_eq!(r, Ok(()));
    assert_eq!(s, WriteState::Completed { size: 42 });
    assert!(matches!(s.file_size(), FileSize::Exactly(42)));
}

#[test]
fn finalize_twice_is_harmless() {
    let (s, _) = WriteState::initial().apply_write(3);
    let (s, _) = s.finalize();
    let (s2, r) = s.finalize();
    assert_eq!(r, Ok(()));
    assert_eq!(s2, s);
}

#[test]
fn finalize_after_failure_reports_error() {
    let (s, r) = WriteState::Failed.finalize();
    assert_eq!(r, Err(CompleteWritingError::FileWritingFailed));
    assert_eq!(s, WriteState::Failed);
    assert!(matches!(s.file_size(), FileSize::Error));
}

#[test]
fn shutdown_completes_pending() {
    let (s, _) = WriteState::initial().apply_write(9);
    let s = s.on_sync_success();
    let s = s.on_shutdown_success();
    assert_eq!(s, WriteState::Completed { size: 9 });
    // shutdown leaves a failed phase failed
    assert_eq!(WriteState::Failed.on_shutdown_success(), WriteState::Failed);
}

#[test]
fn writer_error_is_terminal_for_pending() {
    let (s, _) = WriteState::initial().apply_write(6);
    let s = s.on_writer_error();
    assert_eq!(s, WriteState::Failed);
    // and absorbing
    assert_eq!(s.on_writer_error(), WriteState::Failed);
    assert_eq!(s.on_sync_success(), WriteState::Failed);
}

#[test]
fn completed_keeps_its_size_on_error() {
    // a terminal success cannot be demoted to a failure
    let s = WriteState::Completed { size: 11 };
    assert_eq!(s.on_writer_error(), s);
    assert_eq!(s.on_sync_success(), s);
}

#[test]
fn error_messages() {
    assert_eq!(WriteError::FileClosed.message(), "The file was already closed");
    assert_eq!(WriteError::Io.message(), "An I/O error occurred");
    assert_eq!(
        CompleteWritingError::SyncError.message(),
        "Failed to synchronize the file with the underlying buffer"
    );
    assert_eq!(CompleteWritingError::FileWritingFailed.message(), "Writing to the file failed");
    assert_eq!(shared_files::ReadError::FileClosed.message(), "The file was already closed");
    assert_eq!(shared_files::ReadError::Io.message(), "An I/O error occurred");
}
