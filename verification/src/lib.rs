//! Note names and note messages for a MIDI output.
//!
//! A [`NoteTable`] resolves the written name of a note, such as `"F#3"`, to
//! its key number. [`encode`] gives the three bytes that switch a key on or
//! off on the first channel. Both are verified against the mathematical
//! description that stands beside them.

pub mod codec;
pub mod error;
pub mod note;
pub mod table;

pub use codec::{encode, MidiMessage};
pub use error::MidiError;
pub use note::{Note, MAX_NOTE};
pub use table::NoteTable;
