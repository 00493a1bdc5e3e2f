//! The faults that decoding and encoding can report.

use vstd::prelude::*;

verus! {

/// Why a payload was not turned into a record.
#[derive(Clone, Copy, Debug, PartialEq, Eq, Structural)]
pub enum DecodeFault {
    /// Fewer payload bytes were supplied than the record's layout requires.
    TruncatedInput,
    /// A byte-coded state field matches none of the enumerated patterns.
    InvalidEnumeratedValue,
}

/// Why a record was not turned into a payload.
#[derive(Clone, Copy, Debug, PartialEq, Eq, Structural)]
pub enum EncodeFault {
    /// The output buffer cannot hold the record's declared byte length.
    BufferTooSmall,
    /// The identifier to publish is not present in the catalog.
    UnmatchedIdentifier,
}

} // verus!
