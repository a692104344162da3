//! The reasons an operation on a bit collection can fail.

use vstd::prelude::*;

verus! {

/// Why an operation on a bit collection was refused.
#[derive(Debug, Clone, Copy, PartialEq, Eq, Structural)]
pub enum BitsError {
    /// A requested bit count cannot be represented.
    InvalidLength,
    /// A single-bit position lies outside the collection.
    IndexOutOfRange,
    /// A slice's bounds are inverted or lie past the end.
    InvalidRange,
    /// The two operands of a bitwise operation differ in length.
    LengthMismatch,
    /// Hexadecimal output asked of a length that is not a multiple of four.
    UnalignedLength,
    /// Text to decode holds a character outside its alphabet.
    InvalidCharacter,
    /// A chunk iterator was asked for with a width of zero.
    InvalidChunkWidth,
}

} // verus!
