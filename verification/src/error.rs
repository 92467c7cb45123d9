use vstd::prelude::*;

verus! {

/// Failures of segment construction.
///
/// Construction-path failures are always surfaced as a value of this type;
/// release-path failures (unmap or close during teardown) are a fatal defect
/// of the process and are never represented here.
#[derive(Debug, Clone, PartialEq, Eq)]
pub enum Error {
    /// A system call failed: the OS error code, and a description rendered
    /// at the point of failure (errno is volatile, so both are captured
    /// together, immediately after the failing call).
    Errno(i32, String),
    /// Name bytes recovered from the backend are not valid UTF-8; carries
    /// the length of the longest valid prefix.
    Utf8(usize),
    /// A caller-supplied name holds an interior terminator byte and cannot
    /// be converted to the backend's null-terminated convention; carries
    /// the index of the first such byte.
    Null(usize),
}

} // verus!
