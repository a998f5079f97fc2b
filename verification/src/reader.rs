//! Reader-side flow control: what a single poll of a reader decides, given a
//! snapshot of the write phase and the reader's own progress.

use vstd::prelude::*;

use crate::errors::ReadError;
use crate::state::{writer_step, WriteState, WriterEvent};

verus! {

/// What a reader should do on a poll, decided from a snapshot of the write
/// phase and the reader's own progress — before any backing I/O is issued.
#[derive(Debug, Clone, Copy, PartialEq, Eq, Structural)]
pub enum ReadPlan {
    /// The reader is at the producer's frontier: register its waker under
    /// its identity and yield. No byte may be read on this poll.
    Park,
    /// End of stream: the phase is terminal and everything was delivered.
    Eof,
    /// The writer failed: surface a closed-file error.
    Fail,
    /// Issue a backing read of at most `limit` bytes. The limit clamps the
    /// caller's buffer so that no byte past the committed frontier — stale
    /// content of a pre-allocated or reused file — is ever returned.
    Read { limit: usize },
}

/// What a completed backing read amounts to, given the bytes it delivered
/// and a fresh snapshot of the write phase.
#[derive(Debug, Clone, Copy, PartialEq, Eq, Structural)]
pub enum ReadOutcome {
    /// `delivered` bytes were handed to the consumer; progress is recorded.
    /// The reader no longer needs a wake on this poll.
    Data { delivered: usize },
    /// The backing read delivered nothing and the phase completed: end of
    /// stream.
    Eof,
    /// The backing read delivered nothing and the writer failed: surface a
    /// closed-file error.
    Fail,
    /// The backing read delivered nothing while the writer is still active:
    /// re-register the waker and yield.
    Park,
}

/// The plain state a reader carries: its identity (the key it parks under in
/// the waker registry) and how many bytes it has already delivered.
#[derive(Debug, Clone, Copy, PartialEq, Eq, Structural)]
pub struct ReaderState {
    /// A process-unique identity, the reader's stable key into the waker
    /// registry.
    pub id: u128,
    /// The number of bytes this reader has already returned to its consumer.
    pub bytes_read: u64,
}

impl ReaderState {
    /// A fresh reader that has delivered nothing yet.
    pub fn new(id: u128) -> (r: Self)
        ensures
            r.id == id,
            r.bytes_read == 0,
    {
        ReaderState { id, bytes_read: 0 }
    }

    /// An independent reader over the same stream: fresh identity, progress
    /// reset to the start of the file.
    pub fn fork(&self, new_id: u128) -> (r: Self)
        ensures
            r.id == new_id,
            r.bytes_read == 0,
    {
        ReaderState { id: new_id, bytes_read: 0 }
    }

    /// Decides one poll from a snapshot of the write phase, before any
    /// backing I/O: park at the frontier, report end-of-stream or failure,
    /// or read — clamped so that no byte past the committed frontier is
    /// touched, however much backing file exists beyond it.
    ///
    /// A reader seeked past the frontier is governed by the same clamp: it
    /// parks until the frontier advances past its offset.
    pub fn plan_read(&self, state: WriteState, buf_remaining: usize) -> (p: ReadPlan)
        ensures
            p == read_plan(*self, state, buf_remaining),
            p matches ReadPlan::Read { limit } ==> (limit <= buf_remaining && self.bytes_read
                + limit <= state.committed() && (buf_remaining >= 1 ==> limit >= 1)),
    {
        match state {
            WriteState::Pending { committed, written: _ } => {
                if self.bytes_read >= committed {
                    ReadPlan::Park
                } else {
                    let available = committed - self.bytes_read;
                    ReadPlan::Read {
                        limit: if available < buf_remaining as u64 {
                            available as usize
                        } else {
                            buf_remaining
                        },
                    }
                }
            },
            WriteState::Completed { size } => {
                if self.bytes_read >= size {
                    ReadPlan::Eof
                } else {
                    let available = size - self.bytes_read;
                    ReadPlan::Read {
                        limit: if available < buf_remaining as u64 {
                            available as usize
                        } else {
                            buf_remaining
                        },
                    }
                }
            },
            WriteState::Failed => ReadPlan::Fail,
        }
    }

    /// Accounts for a completed backing read of `delivered` bytes and, when
    /// it delivered nothing, decides from a fresh phase snapshot whether
    /// that silence means end-of-stream, failure, or only that the reader
    /// must park again.
    pub fn apply_read_result(&mut self, state_now: WriteState, delivered: usize) -> (out:
        ReadOutcome)
        requires
            old(self).bytes_read + delivered <= u64::MAX,
        ensures
            final(self).id == old(self).id,
            final(self).bytes_read == old(self).bytes_read + delivered,
            out == read_outcome(state_now, delivered),
    {
        self.bytes_read = self.bytes_read + delivered as u64;
        if delivered > 0 {
            ReadOutcome::Data { delivered }
        } else {
            match state_now {
                WriteState::Pending { .. } => ReadOutcome::Park,
                WriteState::Completed { .. } => ReadOutcome::Eof,
                WriteState::Failed => ReadOutcome::Fail,
            }
        }
    }
}

/// The decision [`ReaderState::plan_read`] returns, as a function of the
/// phase snapshot and the reader's progress.
pub open spec fn read_plan(r: ReaderState, state: WriteState, buf_remaining: usize) -> ReadPlan {
    match state {
        WriteState::Pending { committed, .. } => if r.bytes_read >= committed {
            ReadPlan::Park
        } else {
            ReadPlan::Read { limit: clamped((committed - r.bytes_read) as u64, buf_remaining) }
        },
        WriteState::Completed { size } => if r.bytes_read >= size {
            ReadPlan::Eof
        } else {
            ReadPlan::Read { limit: clamped((size - r.bytes_read) as u64, buf_remaining) }
        },
        WriteState::Failed => ReadPlan::Fail,
    }
}

/// The smaller of the bytes available below the frontier and the room left
/// in the caller's buffer.
pub open spec fn clamped(available: u64, buf_remaining: usize) -> usize {
    if (available as int) < (buf_remaining as int) {
        available as usize
    } else {
        buf_remaining
    }
}

/// The verdict [`ReaderState::apply_read_result`] returns, as a function of
/// the delivered count and the fresh phase snapshot.
pub open spec fn read_outcome(state_now: WriteState, delivered: usize) -> ReadOutcome {
    if delivered > 0 {
        ReadOutcome::Data { delivered }
    } else {
        match state_now {
            WriteState::Pending { .. } => ReadOutcome::Park,
            WriteState::Completed { .. } => ReadOutcome::Eof,
            WriteState::Failed => ReadOutcome::Fail,
        }
    }
}

/// Reader clamping: whatever a poll delivers — at most the planned limit —
/// the reader's progress never passes the committed frontier (or final
/// size) observed at the start of that poll.
pub proof fn lemma_reader_clamped(
    r: ReaderState,
    state: WriteState,
    buf_remaining: usize,
    delivered: usize,
)
    requires
        read_plan(r, state, buf_remaining) matches ReadPlan::Read { limit } && delivered <= limit,
    ensures
        r.bytes_read + delivered <= state.committed(),
{
}

/// No spurious end-of-file: a reader strictly below the committed frontier
/// never returns a zero-byte success. With room in its buffer it plans a
/// read of at least one byte, and a backing file that delivers at least one
/// byte below the durable frontier — as a synced file does — yields data. A
/// backing read that delivers nothing makes the reader park or report the
/// terminal phase, never fabricate an empty success while bytes remain.
pub proof fn lemma_no_spurious_eof(
    r: ReaderState,
    state: WriteState,
    state_now: WriteState,
    buf_remaining: usize,
    delivered: usize,
)
    requires
        !(state is Failed),
        r.bytes_read < state.committed(),
        buf_remaining >= 1,
        delivered >= 1,
    ensures
        read_plan(r, state, buf_remaining) matches ReadPlan::Read { limit } && 1 <= limit
            <= buf_remaining,
        read_outcome(state_now, delivered) == (ReadOutcome::Data { delivered }),
        state_now is Pending ==> read_outcome(state_now, 0) is Park,
{
}

/// Eventual progress, decision side: a reader parked at the producer's
/// frontier while bytes are in flight plans a positive read as soon as a
/// flush or sync promotes them. The writer's promotion wakes every parked
/// reader (it drains the registry whole), so the woken reader's next poll
/// runs this plan; only the scheduling of that poll is the runtime's.
pub proof fn lemma_park_then_promote_progress(
    r: ReaderState,
    state: WriteState,
    buf_remaining: usize,
)
    requires
        state matches WriteState::Pending { committed, written } && r.bytes_read == committed
            && committed < written,
        buf_remaining >= 1,
    ensures
        read_plan(r, state, buf_remaining) is Park,
        read_plan(r, writer_step(state, WriterEvent::Sync), buf_remaining) matches ReadPlan::Read {
            limit,
        } && limit >= 1,
{
}

/// Reads everything at or below the committed frontier against a model of
/// the backing file's bytes, in chunks of at most `chunk` bytes — the read
/// algorithm with the backing I/O replaced by the file contents themselves.
/// The loop runs until the plan stops it: at the frontier of a pending
/// stream (where a real reader parks), at end-of-stream of a completed one,
/// or at the failure of a failed one.
///
/// A reader that follows the writer therefore receives exactly the bytes
/// between its own offset and the committed frontier — no byte past the
/// frontier, however much backing file exists beyond it, and no premature
/// end-of-file while the writer is still appending.
pub fn read_committed(
    file: &Vec<u8>,
    state: WriteState,
    reader: &mut ReaderState,
    chunk: usize,
) -> (r: Result<Vec<u8>, ReadError>)
    requires
        state.wf(),
        chunk >= 1,
        state.committed() <= file@.len(),
        old(reader).bytes_read <= state.committed(),
    ensures
        final(reader).id == old(reader).id,
        !(state is Failed) ==> (r matches Ok(out) && out@ == file@.subrange(
            old(reader).bytes_read as int,
            state.committed() as int,
        ) && final(reader).bytes_read == state.committed()),
        state is Failed ==> r == Err::<Vec<u8>, ReadError>(ReadError::FileClosed)
            && final(reader).bytes_read == old(reader).bytes_read,
{
    let ghost from = old(reader).bytes_read;
    let mut out: Vec<u8> = Vec::new();
    loop
        invariant
            state.wf(),
            chunk >= 1,
            state.committed() <= file@.len(),
            from <= reader.bytes_read <= state.committed(),
            out@ == file@.subrange(from as int, reader.bytes_read as int),
            reader.id == old(reader).id,
            from == old(reader).bytes_read,
        decreases state.committed() - reader.bytes_read,
    {
        match reader.plan_read(state, chunk) {
            ReadPlan::Park => {
                // at the frontier of a pending stream: everything committed
                // was delivered
                return Ok(out);
            },
            ReadPlan::Eof => {
                return Ok(out);
            },
            ReadPlan::Fail => {
                return Err(ReadError::FileClosed);
            },
            ReadPlan::Read { limit } => {
                let flen = file.len();
                assert(reader.bytes_read + limit <= flen);
                let start = reader.bytes_read as usize;
                let mut i: usize = 0;
                assert(out@ == file@.subrange(from as int, start as int));
                while i < limit
                    invariant
                        i <= limit,
                        0 <= from <= start,
                        start + limit <= file@.len(),
                        file@.len() <= usize::MAX,
                        out@ == file@.subrange(from as int, start + i),
                    decreases limit - i,
                {
                    out.push(file[start + i]);
                    proof {
                        assert(out@ =~= file@.subrange(from as int, start + i + 1));
                    }
                    i = i + 1;
                }
                let _ = reader.apply_read_result(state, limit);
                assert(reader.bytes_read as int == start + limit);
            },
        }
    }
}

/// Reads the terminal stream to end-of-stream: a completed stream yields
/// exactly its final size in bytes — the prefix of the backing file — even
/// when the file is longer than the stream, as a pre-allocated or reused
/// backing file is: the clamp keeps the stale tail out. A failed stream
/// yields the closed-file error.
pub fn read_to_end(file: &Vec<u8>, state: WriteState, reader: &mut ReaderState, chunk: usize) -> (r:
    Result<Vec<u8>, ReadError>)
    requires
        !(state is Pending),
        chunk >= 1,
        state matches WriteState::Completed { size } ==> size <= file@.len(),
        old(reader).bytes_read == 0,
    ensures
        final(reader).id == old(reader).id,
        state matches WriteState::Completed { size } ==> (r matches Ok(out) && out@ == file@.take(
            size as int,
        ) && final(reader).bytes_read == size),
        state is Failed ==> r == Err::<Vec<u8>, ReadError>(ReadError::FileClosed),
{
    let r = read_committed(file, state, reader, chunk);
    proof {
        match state {
            WriteState::Completed { size } => {
                assert(file@.subrange(0, size as int) =~= file@.take(size as int));
            },
            _ => {},
        }
    }
    r
}

/// Fork equivalence: a reader created by forking and observing the terminal
/// completed phase reads the same byte sequence as any other reader that
/// read from offset 0 — the committed prefix of the backing file — whatever
/// the two readers' identities or chunk sizes.
pub proof fn lemma_fork_equivalence(file: Seq<u8>, size: int, a: Seq<u8>, b: Seq<u8>)
    requires
        0 <= size <= file.len(),
        a == file.take(size),
        b == file.take(size),
    ensures
        a == b,
        a.len() == size,
{
}

} // verus!
