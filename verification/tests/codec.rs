use midi_notes::{encode, MidiError, MidiMessage, Note, NoteTable};

#[test]
fn middle_c_on() {
    assert_eq!(encode(60, true), Ok([0x90, 0x3C, 0x64]));
}

#[test]
fn middle_c_off() {
    assert_eq!(encode(60, false), Ok([0x80, 0x3C, 0x00]));
}

#[test]
fn concert_a_on() {
    assert_eq!(encode(69, true), Ok([0x90, 0x45, 0x64]));
}

#[test]
fn encoding_twice_gives_the_same_bytes() {
    for number in 0..=255u8 {
        assert_eq!(encode(number, true), encode(number, true));
        assert_eq!(encode(number, false), encode(number, false));
    }
}

#[test]
fn every_seven_bit_note_encodes() {
    for number in 0..=127u8 {
        assert_eq!(encode(number, true), Ok([0x90, number, 100]));
        assert_eq!(encode(number, false), Ok([0x80, number, 0]));
    }
}

#[test]
fn note_beyond_seven_bits_is_refused() {
    assert_eq!(encode(128, true), Err(MidiError::EncodingError));
    assert_eq!(encode(128, false), Err(MidiError::EncodingError));
    assert_eq!(encode(255, true), Err(MidiError::EncodingError));
}

#[test]
fn resolved_note_encodes() {
    let table = NoteTable::build();
    let found: Note = table.resolve("A4").unwrap();
    assert_eq!(encode(found.number(), true), Ok([0x90, 0x45, 0x64]));
    assert_eq!(encode(found.number(), false), Ok([0x80, 0x45, 0x00]));
}

#[test]
fn event_for_a_note_uses_first_channel() {
    assert_eq!(
        MidiMessage::note_event(60, true),
        MidiMessage::NoteOn { channel: 0, note: 60, velocity: 100 }
    );
    assert_eq!(
        MidiMessage::note_event(60, false),
        MidiMessage::NoteOff { channel: 0, note: 60, velocity: 0 }
    );
}

#[test]
fn status_byte_carries_the_channel() {
    let on = MidiMessage::NoteOn { channel: 5, note: 64, velocity: 1 };
    assert_eq!(on.to_bytes(), Ok([0x95, 64, 1]));
    let off = MidiMessage::NoteOff { channel: 15, note: 127, velocity: 127 };
    assert_eq!(off.to_bytes(), Ok([0x8F, 127, 127]));
}

#[test]
fn values_beyond_their_bits_are_refused() {
    let channel = MidiMessage::NoteOn { channel: 16, note: 60, velocity: 100 };
    assert!(!channel.is_encodable());
    assert_eq!(channel.to_bytes(), Err(MidiError::EncodingError));
    let note = MidiMessage::NoteOff { channel: 0, note: 128, velocity: 0 };
    assert!(!note.is_encodable());
    assert_eq!(note.to_bytes(), Err(MidiError::EncodingError));
    let velocity = MidiMessage::NoteOn { channel: 0, note: 60, velocity: 128 };
    assert!(!velocity.is_encodable());
    assert_eq!(velocity.to_bytes(), Err(MidiError::EncodingError));
    assert!(MidiMessage::NoteOn { channel: 15, note: 127, velocity: 127 }.is_encodable());
}
