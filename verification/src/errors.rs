//! Error kinds of the packaging pipeline. Every error aborts the run; the
//! caller reports it and stops.

use vstd::prelude::*;

verus! {

/// The member field whose absence makes packaging fail.
#[derive(Clone, Copy, PartialEq, Eq, Structural, Debug)]
pub enum RequiredField {
    License,
    Description,
}

/// The first unrecovered error at any stage ends the whole run.
#[derive(Clone, PartialEq, Eq, Debug)]
pub enum PackError {
    /// The workspace metadata query failed or its output has the wrong shape.
    ManifestError,
    /// No parseable target triplet could be determined.
    TargetResolutionError,
    /// A member lacks a field that a package must carry.
    MissingField { member: String, field: RequiredField },
    /// The resolved architecture has no entry in the mapping table.
    UnsupportedArch { arch: String },
    /// An asset source is neither a regular file, a directory nor a symlink.
    InvalidFileType,
    /// A filesystem or process-level operation failed.
    IOError,
    /// Loading the signing key or signing failed.
    SigningError,
    /// The external build step exited with a nonzero status.
    BuildFailure,
}

} // verus!
