//! The ways in which resolving a name or encoding a note can fail.

use vstd::prelude::*;

verus! {

/// Why an operation of this library gave no result.
#[derive(Clone, Copy, Debug, PartialEq, Eq, Structural)]
pub enum MidiError {
    /// A key number lies above [`crate::note::MAX_NOTE`].
    InvalidRange,
    /// A name is not the name of any note in the table.
    UnknownNoteName,
    /// A value of a message does not fit the bits that the wire gives it.
    EncodingError,
}

} // verus!
