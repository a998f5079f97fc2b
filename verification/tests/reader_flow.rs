use shared_files::{ReadOutcome, ReadPlan, ReaderState, WriteState};

#[test]
fn fresh_and_forked_readers_start_at_zero() {
    let a = ReaderState::new(1);
    assert_eq!(a.id, 1);
    assert_eq!(a.bytes_read, 0);
    let b = a.fork(2);
    assert_eq!(b.id, 2);
    assert_eq!(b.bytes_read, 0);
}

#[test]
fn park_at_frontier() {
    // written but not yet flushed: the reader must not see those bytes
    let state = WriteState::Pending { committed: 0, written: 100 };
    let r = ReaderState::new(1);
    assert_eq!(r.plan_read(state, 1024), ReadPlan::Park);
}

#[test]
fn flush_unblocks_parked_reader() {
    // the frontier-block scenario: a read plan parks while bytes are only
    // written, and turns into a positive read once a flush promotes them
    let state = WriteState::Pending { committed: 0, written: 100 };
    let r = ReaderState::new(1);
    assert_eq!(r.plan_read(state, 1024), ReadPlan::Park);
    let state = state.on_sync_success();
    assert_eq!(r.plan_read(state, 1024), ReadPlan::Read { limit: 100 });
}

#[test]
fn clamp_to_committed() {
    let state = WriteState::Pending { committed: 10, written: 64 };
    let mut r = ReaderState::new(1);
    let _ = r.apply_read_result(state, 4);
    assert_eq!(r.bytes_read, 4);
    // only committed - bytes_read may be read, not written - bytes_read
    assert_eq!(r.plan_read(state, 1024), ReadPlan::Read { limit: 6 });
}

#[test]
fn clamp_to_buffer() {
    let state = WriteState::Pending { committed: 1000, written: 1000 };
    let r = ReaderState::new(1);
    assert_eq!(r.plan_read(state, 16), ReadPlan::Read { limit: 16 });
}

#[test]
fn eof_exactly_at_size() {
    let state = WriteState::Completed { size: 8 };
    let mut r = ReaderState::new(1);
    let _ = r.apply_read_result(state, 8);
    assert_eq!(r.plan_read(state, 1024), ReadPlan::Eof);
}

#[test]
fn failed_phase_plans_failure() {
    let r = ReaderState::new(1);
    assert_eq!(r.plan_read(WriteState::Failed, 1024), ReadPlan::Fail);
}

#[test]
fn no_spurious_eof_below_frontier() {
    // a reader strictly below the committed frontier never plans Eof or
    // Park: it always reads at least one byte when its buffer has room
    let state = WriteState::Pending { committed: 5, written: 9 };
    let r = ReaderState::new(1);
    match r.plan_read(state, 1) {
        ReadPlan::Read { limit } => assert!(limit >= 1),
        other => panic!("expected a read plan, got {:?}", other),
    }
    let state = WriteState::Completed { size: 5 };
    match r.plan_read(state, 1) {
        ReadPlan::Read { limit } => assert!(limit >= 1),
        other => panic!("expected a read plan, got {:?}", other),
    }
}

#[test]
fn seek_past_frontier_parks() {
    // a reader seeked beyond the committed frontier parks until the
    // frontier catches up with its offset
    let state = WriteState::Pending { committed: 10, written: 20 };
    let mut r = ReaderState::new(1);
    let _ = r.apply_read_result(state, 10);
    let seeked = ReaderState { id: r.id, bytes_read: 50 };
    assert_eq!(seeked.plan_read(state, 1024), ReadPlan::Park);
    // once completed past the offset, the remainder becomes readable
    let state = WriteState::Completed { size: 60 };
    assert_eq!(seeked.plan_read(state, 1024), ReadPlan::Read { limit: 10 });
}

#[test]
fn read_outcomes() {
    let mut r = ReaderState::new(1);
    let out = r.apply_read_result(WriteState::Pending { committed: 9, written: 9 }, 4);
    assert_eq!(out, ReadOutcome::Data { delivered: 4 });
    assert_eq!(r.bytes_read, 4);

    let out = r.apply_read_result(WriteState::Pending { committed: 9, written: 12 }, 0);
    assert_eq!(out, ReadOutcome::Park);
    assert_eq!(r.bytes_read, 4);

    let out = r.apply_read_result(WriteState::Completed { size: 4 }, 0);
    assert_eq!(out, ReadOutcome::Eof);

    let out = r.apply_read_result(WriteState::Failed, 0);
    assert_eq!(out, ReadOutcome::Fail);
}
