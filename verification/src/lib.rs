//! Coordination core for a single-writer, multiple-reader shared file.
//!
//! One producer appends bytes to a backing file while several consumers in
//! the same process read it concurrently. Readers must never observe a
//! premature end-of-file while the writer is still appending, and must never
//! observe stale bytes past the writer's durable frontier.
//!
//! This crate holds the shared coordination logic, verified: the write phase
//! and its transitions ([`WriteState`]), the reader-side flow control that
//! clamps every read to the committed byte count, and the registry of parked
//! readers that a writer wakes after publishing a frontier advance
//! ([`WakerRegistry`]). The asynchronous I/O that drives these decisions —
//! the backing file, the task wakers, the scheduler — lives outside and
//! hands the core plain values: a phase snapshot, a byte count, an outcome.

pub mod errors;
pub mod reader;
pub mod registry;
pub mod state;
pub mod traits;

pub use errors::{CompleteWritingError, ReadError, WriteError};
pub use reader::{ReadOutcome, ReadPlan, ReaderState};
pub use registry::WakerRegistry;
pub use state::{FileSize, WriteState, WriterEvent};
pub use traits::{FilePath, NewFile};
