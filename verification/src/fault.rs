//! The faults that the codec reports to the protocol layer.

use vstd::prelude::*;

verus! {

/// A recoverable fault, returned to the caller as a value.
#[derive(Clone, Copy, Debug, PartialEq, Eq, Structural)]
pub enum Fault {
    /// The requested wire width does not match the declared type.
    MetadataMismatch,
    /// The payload does not have the length that the type requires.
    TruncatedPayload,
    /// The value cannot be represented in the target epoch or unit.
    RangeOverflow,
    /// The wire format variant is not handled.
    UnsupportedVariant,
}

/// Tells whether an encoder wrote a value or reported SQL `NULL`.
#[derive(Clone, Copy, Debug, PartialEq, Eq, Structural)]
pub enum IsNull {
    /// The value is `NULL`; nothing was written.
    Yes,
    /// The value is not `NULL`; its bytes were written.
    No,
}

} // verus!
