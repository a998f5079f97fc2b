//! Capability traits for the storage backends the core is wrapped around.

use vstd::prelude::*;

verus! {

/// Relies on std::path::PathBuf as an opaque owned filesystem path; the core
/// only passes such values through and never inspects them.
#[verifier::external_type_specification]
#[verifier::external_body]
pub struct ExPathBuf(std::path::PathBuf);

/// Backing files that can be newly created, synchronously.
pub trait NewFile {
    /// The type created on success.
    type Target;

    /// The error type.
    type Error;

    /// Creates a new instance of [`Target`](NewFile::Target).
    fn new() -> Result<Self::Target, Self::Error>;
}

/// Backing files that can report the filesystem path they live at.
pub trait FilePath {
    /// Obtains the path of the backing file.
    fn file_path(&self) -> &std::path::PathBuf;
}

} // verus!
