//! The write phase shared between the writer and all readers, and the
//! writer-side transitions that advance it.

use vstd::prelude::*;

use crate::errors::{CompleteWritingError, WriteError};

verus! {

/// The phase of the write operation. The writer publishes a fresh snapshot
/// after every operation; readers consult the latest snapshot on every poll.
#[derive(Debug, Clone, Copy, PartialEq, Eq, Structural)]
pub enum WriteState {
    /// Writing is in progress. `committed` bytes are durable and may be
    /// handed to readers; `written` bytes were accepted by the backing
    /// file's write path but not yet flushed.
    Pending { committed: u64, written: u64 },
    /// Writing terminated successfully; the stream holds exactly `size`
    /// readable bytes and no further bytes will appear.
    Completed { size: u64 },
    /// The writer observed an unrecoverable I/O failure; reads fail from
    /// here on and writes are rejected.
    Failed,
}

impl WriteState {
    /// Well-formedness: a pending phase never commits more than was written.
    pub open spec fn wf(self) -> bool {
        self matches WriteState::Pending { committed, written } ==> committed <= written
    }

    /// The number of bytes a reader may consume: the committed count while
    /// pending, the final size once completed. Meaningless for a failed
    /// phase, where reads do not consume bytes at all.
    pub open spec fn committed(self) -> u64 {
        match self {
            WriteState::Pending { committed, .. } => committed,
            WriteState::Completed { size } => size,
            WriteState::Failed => 0,
        }
    }

    /// The number of bytes accepted by the backing file's write path.
    pub open spec fn written(self) -> u64 {
        match self {
            WriteState::Pending { written, .. } => written,
            WriteState::Completed { size } => size,
            WriteState::Failed => 0,
        }
    }

    /// The phase a freshly shared file starts in: nothing written, nothing
    /// committed.
    pub fn initial() -> (s: Self)
        ensures
            s == (WriteState::Pending { committed: 0u64, written: 0u64 }),
    {
        WriteState::Pending { committed: 0, written: 0 }
    }

    /// Records that the backing file accepted `accepted` more bytes. Writes
    /// advance only `written`, never `committed`: the new bytes become
    /// visible to readers only at the next successful flush or sync.
    ///
    /// Returns the running total of written bytes, or the rejection: a
    /// non-empty write after completion finds the file closed, and a write
    /// after a failure reports the earlier I/O breakdown.
    pub fn apply_write(self, accepted: u64) -> (r: (WriteState, Result<u64, WriteError>))
        requires
            self matches WriteState::Pending { written, .. } ==> written + accepted <= u64::MAX,
        ensures
            r.0 == writer_step(self, WriterEvent::Write { accepted }),
            self matches WriteState::Pending { committed, written } ==> r.1 == Ok::<u64, WriteError>(
                (written + accepted) as u64,
            ),
            self matches WriteState::Completed { size } ==> r.1 == (if accepted == 0 {
                Ok::<u64, WriteError>(size)
            } else {
                Err::<u64, WriteError>(WriteError::FileClosed)
            }),
            self is Failed ==> r.1 == Err::<u64, WriteError>(WriteError::Io),
    {
        match self {
            WriteState::Pending { committed, written } => {
                let count = written + accepted;
                (WriteState::Pending { committed, written: count }, Ok(count))
            },
            WriteState::Completed { size } => {
                if accepted != 0 {
                    (self, Err(WriteError::FileClosed))
                } else {
                    (self, Ok(size))
                }
            },
            WriteState::Failed => (self, Err(WriteError::Io)),
        }
    }

    /// Promotes the frontier after a successful flush or sync: every written
    /// byte becomes committed. This is the single point at which readers
    /// become eligible to observe newly written bytes, so the caller must
    /// wake all parked readers right after publishing the result.
    pub fn on_sync_success(self) -> (s: Self)
        ensures
            s == writer_step(self, WriterEvent::Sync),
            s.committed() == self.written(),
            s.wf(),
    {
        match self {
            WriteState::Pending { committed: _, written } => WriteState::Pending {
                committed: written,
                written,
            },
            _ => self,
        }
    }

    /// Records an unrecoverable writer-side I/O error. Failure is terminal
    /// for a pending write; a phase that already terminated successfully is
    /// left as it is. The caller must wake all parked readers so they
    /// observe the failure.
    pub fn on_writer_error(self) -> (s: Self)
        ensures
            s == writer_step(self, WriterEvent::WriterError),
            self is Pending ==> s is Failed,
            !(self is Pending) ==> s == self,
    {
        match self {
            WriteState::Pending { .. } => WriteState::Failed,
            _ => self,
        }
    }

    /// Terminal completion, explicit or on drop of the writer. A pending
    /// phase completes with the current written count as the final size —
    /// promotion before completion, so the final size never hides written
    /// bytes. Completing twice is harmless; completing after a failure
    /// reports it. The caller must wake all parked readers.
    ///
    /// Completion cannot flush the backing file: bytes written but never
    /// synced may be missing from disk, which is the caller's bargain when
    /// dropping a writer without a sync.
    pub fn finalize(self) -> (r: (WriteState, Result<(), CompleteWritingError>))
        ensures
            r.0 == writer_step(self, WriterEvent::Finalize),
            self matches WriteState::Pending { written, .. } ==> r.0 == (WriteState::Completed {
                size: written,
            }) && r.1 == Ok::<(), CompleteWritingError>(()),
            self is Completed ==> r.0 == self && r.1 == Ok::<(), CompleteWritingError>(()),
            self is Failed ==> r.0 == self && r.1 == Err::<(), CompleteWritingError>(
                CompleteWritingError::FileWritingFailed,
            ),
    {
        match self {
            WriteState::Pending { committed: _, written } => (
                WriteState::Completed { size: written },
                Ok(()),
            ),
            WriteState::Completed { .. } => (self, Ok(())),
            WriteState::Failed => (self, Err(CompleteWritingError::FileWritingFailed)),
        }
    }

    /// Completion after the backing shutdown succeeded: like [`finalize`](Self::finalize),
    /// but a failed phase stays failed without reporting here — the shutdown
    /// itself succeeded, and reads keep surfacing the earlier error.
    pub fn on_shutdown_success(self) -> (s: Self)
        ensures
            s == writer_step(self, WriterEvent::Finalize),
            self matches WriteState::Pending { written, .. } ==> s == (WriteState::Completed {
                size: written,
            }),
            !(self is Pending) ==> s == self,
    {
        match self {
            WriteState::Pending { committed: _, written } => WriteState::Completed { size: written },
            _ => self,
        }
    }

    /// The size a reader should expect: a lower bound while the writer is
    /// active, the exact count once it completed, or the error marker.
    pub fn file_size(self) -> (r: FileSize)
        ensures
            r == (match self {
                WriteState::Pending { committed, .. } => FileSize::AtLeast(committed),
                WriteState::Completed { size } => FileSize::Exactly(size),
                WriteState::Failed => FileSize::Error,
            }),
    {
        match self {
            WriteState::Pending { committed, .. } => FileSize::AtLeast(committed),
            WriteState::Completed { size } => FileSize::Exactly(size),
            WriteState::Failed => FileSize::Error,
        }
    }
}

/// The expected size of the stream, as a reader sees it.
#[derive(Debug, Clone, Copy, PartialEq, Eq, Structural)]
pub enum FileSize {
    /// The stream is not entirely written yet; at least this many bytes
    /// exist and are readable.
    AtLeast(u64),
    /// The stream is completely written and holds exactly this many bytes.
    Exactly(u64),
    /// Writing failed; reading will not complete.
    Error,
}

/// What the writer did, as far as the shared phase is concerned. One event
/// per phase-changing outcome of a writer operation.
#[derive(Debug, Clone, Copy, PartialEq, Eq, Structural)]
pub enum WriterEvent {
    /// The backing file accepted this many bytes.
    Write { accepted: u64 },
    /// A flush or sync succeeded: the frontier is promoted.
    Sync,
    /// A write, flush, sync or shutdown failed.
    WriterError,
    /// Terminal completion: explicit, by shutdown, or on drop.
    Finalize,
}

/// How one writer event advances the phase. The executable transitions each
/// ensure they return exactly this; the laws below are stated once, here.
///
/// A write saturates at the integer bound in this model; the executable
/// transition requires the bound untouched, so the two agree on every state
/// it accepts.
pub open spec fn writer_step(s: WriteState, e: WriterEvent) -> WriteState {
    match e {
        WriterEvent::Write { accepted } => match s {
            WriteState::Pending { committed, written } => WriteState::Pending {
                committed,
                written: if written + accepted <= u64::MAX {
                    (written + accepted) as u64
                } else {
                    u64::MAX
                },
            },
            _ => s,
        },
        WriterEvent::Sync => match s {
            WriteState::Pending { committed: _, written } => WriteState::Pending {
                committed: written,
                written,
            },
            _ => s,
        },
        WriterEvent::WriterError => match s {
            WriteState::Pending { .. } => WriteState::Failed,
            _ => s,
        },
        WriterEvent::Finalize => match s {
            WriteState::Pending { committed: _, written } => WriteState::Completed { size: written },
            _ => s,
        },
    }
}

/// The phase after a whole sequence of writer events.
pub open spec fn apply_events(s: WriteState, evs: Seq<WriterEvent>) -> WriteState
    decreases evs.len(),
{
    if evs.len() == 0 {
        s
    } else {
        apply_events(writer_step(s, evs[0]), evs.drop_first())
    }
}

/// Monotonicity, one step: no writer event decreases `committed` or
/// `written`, and `committed` never overtakes `written`.
pub proof fn lemma_step_monotonic(s: WriteState, e: WriterEvent)
    requires
        s.wf(),
    ensures
        writer_step(s, e).wf(),
        !(s is Failed) && !(writer_step(s, e) is Failed) ==> writer_step(s, e).committed()
            >= s.committed() && writer_step(s, e).written() >= s.written(),
{
}

/// Terminality, one step: once the phase leaves `Pending` it never returns,
/// and a failure is absorbing.
pub proof fn lemma_step_terminal(s: WriteState, e: WriterEvent)
    ensures
        !(s is Pending) ==> !(writer_step(s, e) is Pending),
        s is Failed ==> writer_step(s, e) is Failed,
        s is Completed ==> writer_step(s, e) == s,
{
}

/// A failure is absorbing across any sequence of writer events.
pub proof fn lemma_trace_failed_absorbing(s: WriteState, evs: Seq<WriterEvent>)
    ensures
        s is Failed ==> apply_events(s, evs) is Failed,
        s is Completed ==> apply_events(s, evs) == s,
    decreases evs.len(),
{
    if evs.len() > 0 {
        lemma_trace_failed_absorbing(writer_step(s, evs[0]), evs.drop_first());
    }
}

/// Monotonicity across any sequence of writer events: well-formedness is
/// preserved, and as long as the writer has not failed, `committed` and
/// `written` never decrease.
pub proof fn lemma_trace_monotonic(s: WriteState, evs: Seq<WriterEvent>)
    requires
        s.wf(),
    ensures
        apply_events(s, evs).wf(),
        !(s is Failed) && !(apply_events(s, evs) is Failed) ==> apply_events(s, evs).committed()
            >= s.committed() && apply_events(s, evs).written() >= s.written(),
    decreases evs.len(),
{
    if evs.len() > 0 {
        let s1 = writer_step(s, evs[0]);
        lemma_step_monotonic(s, evs[0]);
        lemma_trace_monotonic(s1, evs.drop_first());
        if s1 is Failed {
            lemma_trace_failed_absorbing(s1, evs.drop_first());
        }
    }
}

/// Terminality across any sequence of writer events: once the phase leaves
/// `Pending`, it never re-enters `Pending`.
pub proof fn lemma_trace_terminal(s: WriteState, evs: Seq<WriterEvent>)
    ensures
        !(s is Pending) ==> !(apply_events(s, evs) is Pending),
    decreases evs.len(),
{
    if evs.len() > 0 {
        lemma_step_terminal(s, evs[0]);
        lemma_trace_terminal(writer_step(s, evs[0]), evs.drop_first());
    }
}

} // verus!
