use midi_notes::{MidiError, Note, NoteTable, MAX_NOTE};

fn note(number: u8) -> Note {
    Note::new(number).unwrap()
}

#[test]
fn every_name_resolves_to_its_note() {
    let table = NoteTable::build();
    for number in 0..=MAX_NOTE {
        let name = note(number).name();
        assert_eq!(table.resolve(&name), Ok(note(number)), "{}", name);
        assert_eq!(table.resolve(&name).unwrap().number(), number);
    }
}

#[test]
fn names_are_pitch_class_then_octave() {
    let classes = ["C", "C#", "D", "D#", "E", "F", "F#", "G", "G#", "A", "A#", "B"];
    for number in 0..=MAX_NOTE {
        let octave = i32::from(number / 12) - 1;
        let expected = format!("{}{}", classes[usize::from(number % 12)], octave);
        assert_eq!(note(number).name(), expected);
    }
}

#[test]
fn names_of_chosen_notes() {
    assert_eq!(note(0).name(), "C-1");
    assert_eq!(note(1).name(), "C#-1");
    assert_eq!(note(11).name(), "B-1");
    assert_eq!(note(12).name(), "C0");
    assert_eq!(note(22).name(), "A#0");
    assert_eq!(note(60).name(), "C4");
    assert_eq!(note(61).name(), "C#4");
    assert_eq!(note(69).name(), "A4");
    assert_eq!(note(119).name(), "B8");
    assert_eq!(note(120).name(), "C9");
    assert_eq!(note(126).name(), "F#9");
}

#[test]
fn names_are_all_different() {
    let mut names: Vec<String> = (0..=MAX_NOTE).map(|number| note(number).name()).collect();
    names.sort();
    names.dedup();
    assert_eq!(names.len(), 127);
}

#[test]
fn middle_c_resolves_to_sixty() {
    let table = NoteTable::build();
    assert_eq!(table.resolve("C4").map(|found| found.number()), Ok(60));
}

#[test]
fn sharps_resolve() {
    let table = NoteTable::build();
    assert_eq!(table.resolve("C#4").map(|found| found.number()), Ok(61));
    assert_eq!(table.resolve("F#3").map(|found| found.number()), Ok(54));
    assert_eq!(table.resolve("G#2").map(|found| found.number()), Ok(44));
}

#[test]
fn lowest_and_highest_names_resolve() {
    let table = NoteTable::build();
    assert_eq!(table.resolve("C-1").map(|found| found.number()), Ok(0));
    assert_eq!(table.resolve("A#-1").map(|found| found.number()), Ok(10));
    assert_eq!(table.resolve("F#9").map(|found| found.number()), Ok(126));
}

#[test]
fn flat_spelling_is_unknown() {
    let table = NoteTable::build();
    assert_eq!(table.resolve("Db4"), Err(MidiError::UnknownNoteName));
    assert_eq!(table.resolve("Bb2"), Err(MidiError::UnknownNoteName));
    assert_eq!(table.resolve("C#/Db4"), Err(MidiError::UnknownNoteName));
}

#[test]
fn wrong_case_is_unknown() {
    let table = NoteTable::build();
    assert_eq!(table.resolve("c4"), Err(MidiError::UnknownNoteName));
    assert_eq!(table.resolve("f#3"), Err(MidiError::UnknownNoteName));
}

#[test]
fn whitespace_is_unknown() {
    let table = NoteTable::build();
    assert_eq!(table.resolve(" C4"), Err(MidiError::UnknownNoteName));
    assert_eq!(table.resolve("C4 "), Err(MidiError::UnknownNoteName));
    assert_eq!(table.resolve("C 4"), Err(MidiError::UnknownNoteName));
    assert_eq!(table.resolve(""), Err(MidiError::UnknownNoteName));
}

#[test]
fn names_outside_the_table_are_unknown() {
    let table = NoteTable::build();
    assert_eq!(table.resolve("G9"), Err(MidiError::UnknownNoteName));
    assert_eq!(table.resolve("C10"), Err(MidiError::UnknownNoteName));
    assert_eq!(table.resolve("C-2"), Err(MidiError::UnknownNoteName));
    assert_eq!(table.resolve("H4"), Err(MidiError::UnknownNoteName));
    assert_eq!(table.resolve("E#4"), Err(MidiError::UnknownNoteName));
    assert_eq!(table.resolve("C"), Err(MidiError::UnknownNoteName));
    assert_eq!(table.resolve("60"), Err(MidiError::UnknownNoteName));
}

#[test]
fn note_numbers_end_at_the_limit() {
    assert_eq!(MAX_NOTE, 126);
    assert_eq!(Note::new(0).map(|made| made.number()), Ok(0));
    assert_eq!(Note::new(126).map(|made| made.number()), Ok(126));
    assert_eq!(Note::new(127), Err(MidiError::InvalidRange));
    assert_eq!(Note::new(255), Err(MidiError::InvalidRange));
}
