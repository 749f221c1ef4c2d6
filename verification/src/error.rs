//! The closed set of failures that decoding can report.

use vstd::prelude::*;

verus! {

/// Why a byte buffer was rejected.
#[derive(Clone, Copy, Debug, PartialEq, Eq, Structural)]
pub enum AmmError {
    /// The instruction payload is empty, so there is no tag byte to dispatch on.
    MissingDiscriminant,
    /// The tag byte names no instruction.
    UnknownDiscriminant,
    /// Fewer bytes remain than the next fixed-width field needs.
    TruncatedInput,
    /// The payload of a strictly sized instruction has the wrong total length.
    MalformedPayload,
    /// An account-state buffer is shorter than the record's fixed length.
    BufferTooSmall,
    /// A boolean flag byte is neither 0 nor 1.
    InvalidFlagByte,
    /// The version byte of a versioned record names no known layout.
    UnsupportedVersion,
}

} // verus!
