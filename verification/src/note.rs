//! Notes and their written names.
//!
//! A note is a key number from 0 to [`MAX_NOTE`]. Its name is the pitch class
//! of the key, spelled with a sharp where the key is a black one, followed by
//! the number of its octave: key 60 is `"C4"`, key 0 is `"C-1"`.

use crate::error::MidiError;
use vstd::prelude::*;
use vstd::string::*;

verus! {

/// The highest key number that a [`Note`] holds.
pub const MAX_NOTE: u8 = 126;

/// The spelling of the pitch class that lies `step` half steps above C.
pub open spec fn pitch_class(step: int) -> Seq<char> {
    if step == 0 {
        seq!['C']
    } else if step == 1 {
        seq!['C', '#']
    } else if step == 2 {
        seq!['D']
    } else if step == 3 {
        seq!['D', '#']
    } else if step == 4 {
        seq!['E']
    } else if step == 5 {
        seq!['F']
    } else if step == 6 {
        seq!['F', '#']
    } else if step == 7 {
        seq!['G']
    } else if step == 8 {
        seq!['G', '#']
    } else if step == 9 {
        seq!['A']
    } else if step == 10 {
        seq!['A', '#']
    } else {
        seq!['B']
    }
}

/// The decimal digit that stands for `value`, for a value below ten.
pub open spec fn digit(value: int) -> char {
    if value == 0 {
        '0'
    } else if value == 1 {
        '1'
    } else if value == 2 {
        '2'
    } else if value == 3 {
        '3'
    } else if value == 4 {
        '4'
    } else if value == 5 {
        '5'
    } else if value == 6 {
        '6'
    } else if value == 7 {
        '7'
    } else if value == 8 {
        '8'
    } else {
        '9'
    }
}

/// The octave in which the key `number` lies: key 0 opens octave -1.
pub open spec fn octave(number: int) -> int {
    number / 12 - 1
}

/// An octave between -9 and 9 as it is written: a minus sign where it is
/// negative, then one digit.
pub open spec fn octave_text(octave: int) -> Seq<char> {
    if octave < 0 {
        seq!['-', digit(-octave)]
    } else {
        seq![digit(octave)]
    }
}

/// The name of the key `number`: its pitch class, then its octave.
pub open spec fn note_name(number: int) -> Seq<char> {
    pitch_class(number % 12) + octave_text(octave(number))
}

/// How many half steps above C the pitch class lies with which `name` begins.
spec fn read_step(name: Seq<char>) -> int {
    let sharp = name.len() > 1 && name[1] == '#';
    let raised: int = if sharp {
        1
    } else {
        0
    };
    if name[0] == 'C' {
        raised
    } else if name[0] == 'D' {
        2 + raised
    } else if name[0] == 'E' {
        4
    } else if name[0] == 'F' {
        5 + raised
    } else if name[0] == 'G' {
        7 + raised
    } else if name[0] == 'A' {
        9 + raised
    } else {
        11
    }
}

/// The value of a decimal digit.
spec fn digit_value(c: char) -> int {
    if c == '0' {
        0
    } else if c == '1' {
        1
    } else if c == '2' {
        2
    } else if c == '3' {
        3
    } else if c == '4' {
        4
    } else if c == '5' {
        5
    } else if c == '6' {
        6
    } else if c == '7' {
        7
    } else if c == '8' {
        8
    } else {
        9
    }
}

/// The octave that `name` ends with, read behind its pitch class.
spec fn read_octave(name: Seq<char>) -> int {
    let start: int = if name.len() > 1 && name[1] == '#' {
        2
    } else {
        1
    };
    if name[start] == '-' {
        -digit_value(name[start + 1])
    } else {
        digit_value(name[start])
    }
}

/// The key that a name stands for, read from its characters.
spec fn read_key(name: Seq<char>) -> int {
    12 * (read_octave(name) + 1) + read_step(name)
}

/// Reading the name of a key gives the key back.
proof fn lemma_read_key_of_name(number: int)
    requires
        0 <= number <= MAX_NOTE,
    ensures
        read_key(note_name(number)) == number,
{
    let step = number % 12;
    let pitch = pitch_class(step);
    let written = octave_text(octave(number));
    let name = note_name(number);
    assert(name.len() == pitch.len() + written.len());
    assert(name[0] == pitch[0]);
    if pitch.len() == 2 {
        assert(name[1] == pitch[1]);
        assert(name[2] == written[0]);
        if written.len() == 2 {
            assert(name[3] == written[1]);
        }
    } else {
        assert(name[1] == written[0]);
        if written.len() == 2 {
            assert(name[2] == written[1]);
        }
    }
}

/// Two keys with one name are the same key.
pub proof fn lemma_note_name_injective(first: int, second: int)
    requires
        0 <= first <= MAX_NOTE,
        0 <= second <= MAX_NOTE,
        note_name(first) == note_name(second),
    ensures
        first == second,
{
    lemma_read_key_of_name(first);
    lemma_read_key_of_name(second);
}

/// Whether `c` is one of the characters that names are written with: a
/// capital letter from A to G, the sharp sign, the minus sign, a digit.
pub open spec fn is_name_char(c: char) -> bool {
    ||| 'A' <= c <= 'G'
    ||| c == '#'
    ||| c == '-'
    ||| '0' <= c <= '9'
}

/// The name of a note holds no character but those of
/// [`is_name_char`]: no small letter, no `b` for a flat, no space.
pub proof fn lemma_name_alphabet(number: int, at: int)
    requires
        0 <= number <= MAX_NOTE,
        0 <= at < note_name(number).len(),
    ensures
        is_name_char(note_name(number)[at]),
{
    let pitch = pitch_class(number % 12);
    let written = octave_text(octave(number));
    if at < pitch.len() {
        assert(note_name(number)[at] == pitch[at]);
    } else {
        assert(note_name(number)[at] == written[at - pitch.len()]);
    }
}

/// A key number between 0 and [`MAX_NOTE`].
#[derive(Clone, Copy, Debug, PartialEq, Eq, Structural)]
pub struct Note {
    number: u8,
}

impl View for Note {
    type V = int;

    /// The key number.
    closed spec fn view(&self) -> int {
        self.number as int
    }
}

impl Note {
    #[verifier::type_invariant]
    spec fn in_range(self) -> bool {
        self.number <= MAX_NOTE
    }

    /// The note with the key number `number`, where there is one.
    pub fn new(number: u8) -> (made: Result<Note, MidiError>)
        ensures
            match made {
                Ok(note) => number <= MAX_NOTE && note@ == number,
                Err(e) => number > MAX_NOTE && e == MidiError::InvalidRange,
            },
    {
        if number <= MAX_NOTE {
            Ok(Note { number })
        } else {
            Err(MidiError::InvalidRange)
        }
    }

    /// The key number of this note.
    pub fn number(&self) -> (number: u8)
        ensures
            number == self@,
            number <= MAX_NOTE,
    {
        proof {
            use_type_invariant(self);
        }
        self.number
    }

    /// The name of this note.
    pub fn name(&self) -> (text: String)
        ensures
            text@ == note_name(self@),
    {
        proof {
            use_type_invariant(self);
        }
        let pitch = pitch_class_str(self.number % 12);
        let octave = octave_str(self.number / 12);
        String::from_str(pitch).concat(octave)
    }
}

/// The literal that spells the pitch class `step` half steps above C.
fn pitch_class_str(step: u8) -> (text: &'static str)
    requires
        step < 12,
    ensures
        text@ == pitch_class(step as int),
{
    let text = match step {
        0 => "C",
        1 => "C#",
        2 => "D",
        3 => "D#",
        4 => "E",
        5 => "F",
        6 => "F#",
        7 => "G",
        8 => "G#",
        9 => "A",
        10 => "A#",
        _ => "B",
    };
    proof {
        reveal_strlit("C");
        reveal_strlit("C#");
        reveal_strlit("D");
        reveal_strlit("D#");
        reveal_strlit("E");
        reveal_strlit("F");
        reveal_strlit("F#");
        reveal_strlit("G");
        reveal_strlit("G#");
        reveal_strlit("A");
        reveal_strlit("A#");
        reveal_strlit("B");
        assert(text@ =~= pitch_class(step as int));
    }
    text
}

/// The literal that writes the octave which begins at key `12 * index`.
fn octave_str(index: u8) -> (text: &'static str)
    requires
        index <= 10,
    ensures
        text@ == octave_text(index - 1),
{
    let text = match index {
        0 => "-1",
        1 => "0",
        2 => "1",
        3 => "2",
        4 => "3",
        5 => "4",
        6 => "5",
        7 => "6",
        8 => "7",
        9 => "8",
        _ => "9",
    };
    proof {
        reveal_strlit("-1");
        reveal_strlit("0");
        reveal_strlit("1");
        reveal_strlit("2");
        reveal_strlit("3");
        reveal_strlit("4");
        reveal_strlit("5");
        reveal_strlit("6");
        reveal_strlit("7");
        reveal_strlit("8");
        reveal_strlit("9");
        assert(text@ =~= octave_text(index - 1));
    }
    text
}

} // verus!
