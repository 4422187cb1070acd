//! The table that resolves the name of a note to the note.
//!
//! The table holds each key from 0 to [`MAX_NOTE`] under its name, and nothing
//! else. A name resolves only as it is written there: with a capital letter,
//! with a sharp and never a flat, and without spaces.

use crate::error::MidiError;
use crate::note::{
    is_name_char, lemma_name_alphabet, lemma_note_name_injective, note_name, Note, MAX_NOTE,
};
use vstd::hash_map::StringHashMap;
use vstd::prelude::*;

verus! {

/// Whether `name` is the name of a note.
pub open spec fn is_note_name(name: Seq<char>) -> bool {
    exists|number: int| 0 <= number <= MAX_NOTE && #[trigger] note_name(number) == name
}

/// The key that `name` is the name of, where it is the name of a note.
pub open spec fn named_key(name: Seq<char>) -> int {
    choose|number: int| 0 <= number <= MAX_NOTE && #[trigger] note_name(number) == name
}

/// What the table holds: the name of each note, with its key number.
pub open spec fn note_table() -> Map<Seq<char>, int> {
    Map::new(|name: Seq<char>| is_note_name(name), |name: Seq<char>| named_key(name))
}

/// What looking `name` up in `table` gives: the key that stands under it, or
/// the error for a name that the table lacks.
pub open spec fn lookup(table: Map<Seq<char>, int>, name: Seq<char>) -> Result<int, MidiError> {
    if table.contains_key(name) {
        Ok(table[name])
    } else {
        Err(MidiError::UnknownNoteName)
    }
}

/// The names in `entries`, each with the key number of its note.
spec fn key_numbers(entries: Map<Seq<char>, Note>) -> Map<Seq<char>, int> {
    Map::new(|name: Seq<char>| entries.contains_key(name), |name: Seq<char>| entries[name]@)
}

/// The part of the table that holds the keys below `limit`.
spec fn names_below(limit: int) -> Map<Seq<char>, int> {
    Map::new(
        |name: Seq<char>| is_note_name(name) && named_key(name) < limit,
        |name: Seq<char>| named_key(name),
    )
}

/// The name of a note names that note and no other.
proof fn lemma_named_key(number: int)
    requires
        0 <= number <= MAX_NOTE,
    ensures
        is_note_name(note_name(number)),
        named_key(note_name(number)) == number,
{
    lemma_note_name_injective(named_key(note_name(number)), number);
}

/// Putting the key `limit` under its name makes the part below `limit` into
/// the part below `limit + 1`.
proof fn lemma_names_below_grows(limit: int)
    requires
        0 <= limit <= MAX_NOTE,
    ensures
        names_below(limit + 1) == names_below(limit).insert(note_name(limit), limit),
{
    let grown = names_below(limit).insert(note_name(limit), limit);
    lemma_named_key(limit);
    assert forall|name: Seq<char>| is_note_name(name) && named_key(name) == limit implies name
        == note_name(limit) by {}
    assert(names_below(limit + 1) =~= grown);
}

/// The names of the notes, each with its note.
pub struct NoteTable {
    entries: StringHashMap<Note>,
}

impl View for NoteTable {
    type V = Map<Seq<char>, int>;

    /// The names in the table, each with the key number of its note.
    closed spec fn view(&self) -> Map<Seq<char>, int> {
        key_numbers(self.entries@)
    }
}

impl NoteTable {
    #[verifier::type_invariant]
    spec fn is_full(self) -> bool {
        self@ == note_table()
    }

    /// The table of all notes.
    pub fn build() -> (table: NoteTable)
        ensures
            table@ == note_table(),
    {
        let mut entries: StringHashMap<Note> = StringHashMap::new();
        let mut number: u8 = 0;
        proof {
            assert(key_numbers(entries@) =~= names_below(0));
        }
        while number <= MAX_NOTE
            invariant
                number <= MAX_NOTE + 1,
                key_numbers(entries@) == names_below(number as int),
            decreases MAX_NOTE + 1 - number,
        {
            if let Ok(note) = Note::new(number) {
                let name = note.name();
                let ghost before = entries@;
                entries.insert(name, note);
                proof {
                    lemma_names_below_grows(number as int);
                    assert(key_numbers(entries@) =~= key_numbers(before).insert(
                        note_name(number as int),
                        number as int,
                    ));
                }
            }
            number = number + 1;
        }
        proof {
            assert(names_below(MAX_NOTE + 1) =~= note_table());
        }
        NoteTable { entries }
    }

    /// The note that `name` is the name of.
    ///
    /// Fails with [`MidiError::UnknownNoteName`] where no note has that name,
    /// and in no other way.
    pub fn resolve(&self, name: &str) -> (found: Result<Note, MidiError>)
        ensures
            self@ == note_table(),
            match found {
                Ok(note) => lookup(self@, name@) == Ok::<int, MidiError>(note@),
                Err(e) => lookup(self@, name@) == Err::<int, MidiError>(e),
            },
    {
        proof {
            use_type_invariant(self);
        }
        match self.entries.get(name) {
            Some(note) => Ok(*note),
            None => Err(MidiError::UnknownNoteName),
        }
    }
}

/// The name of every note resolves to that note.
pub proof fn lemma_name_resolves(number: int)
    requires
        0 <= number <= MAX_NOTE,
    ensures
        lookup(note_table(), note_name(number)) == Ok::<int, MidiError>(number),
{
    lemma_named_key(number);
}

/// A name resolves only to a note that it is the name of.
pub proof fn lemma_resolved_name(name: Seq<char>, number: int)
    requires
        lookup(note_table(), name) == Ok::<int, MidiError>(number),
    ensures
        0 <= number <= MAX_NOTE,
        note_name(number) == name,
{
}

/// A name that is the name of no note resolves to nothing, and the error is
/// that of an unknown name.
pub proof fn lemma_other_name_unknown(name: Seq<char>)
    requires
        forall|number: int| 0 <= number <= MAX_NOTE ==> note_name(number) != name,
    ensures
        lookup(note_table(), name) == Err::<int, MidiError>(MidiError::UnknownNoteName),
{
}

/// A name that holds a character which no name is written with resolves to
/// nothing: so one with a small letter, with `b` for a flat, or with a space.
pub proof fn lemma_foreign_char_unknown(name: Seq<char>, at: int)
    requires
        0 <= at < name.len(),
        !is_name_char(name[at]),
    ensures
        lookup(note_table(), name) == Err::<int, MidiError>(MidiError::UnknownNoteName),
{
    assert forall|number: int| 0 <= number <= MAX_NOTE implies note_name(number) != name by {
        if note_name(number) == name {
            lemma_name_alphabet(number, at);
        }
    }
}

} // verus!
