//! The failures that every operation of this crate can report.

use vstd::prelude::*;

verus! {

/// Why an operation was refused. A refused operation leaves its target
/// exactly as it found it.
#[derive(Clone, Copy, Debug, PartialEq, Eq, Structural)]
pub enum StoreError {
    /// An offset, a length or an index lies outside the valid range.
    OutOfBounds,
    /// A capacity below the current one was asked for.
    InvalidSize,
    /// More persisted space was asked for than the host grants at once.
    AllocationTooLarge,
    /// The access pattern needs more working memory than one operation has.
    TransientMemoryExceeded,
    /// Bytes that were to be read as text are not valid UTF-8.
    Utf8DecodeError,
}

} // verus!
