//! Note messages and their bytes on the wire.
//!
//! A note message is three bytes long. The first is the status byte: its high
//! half says whether the key goes down or up, its low half names the channel.
//! The key number and the velocity follow, seven bits each. The bytes
//! themselves are laid out by the `wmidi` crate.

use crate::error::MidiError;
use vstd::prelude::*;

verus! {

/// The highest value of a data byte: seven bits.
pub const MAX_DATA: u8 = 127;

/// The highest channel index: four bits.
pub const MAX_CHANNEL: u8 = 15;

/// The channel on which [`encode`] sends: the first one.
pub const CHANNEL: u8 = 0;

/// The velocity with which [`encode`] presses a key.
pub const VELOCITY_ON: u8 = 100;

/// The velocity with which [`encode`] releases a key.
pub const VELOCITY_OFF: u8 = 0;

/// A message that presses or releases one key.
#[derive(Clone, Copy, Debug, PartialEq, Eq, Structural)]
pub enum MidiMessage {
    /// The key `note` goes up on `channel`.
    NoteOff { channel: u8, note: u8, velocity: u8 },
    /// The key `note` goes down on `channel`.
    NoteOn { channel: u8, note: u8, velocity: u8 },
}

/// `wmidi::ToSliceError`, the error with which `wmidi` refuses a buffer.
/// Nothing is read from it.
#[verifier::external_type_specification]
#[verifier::external_body]
pub struct ExToSliceError(wmidi::ToSliceError);

impl MidiMessage {
    /// The index of the channel, counted from 0.
    pub open spec fn channel(self) -> u8 {
        match self {
            MidiMessage::NoteOff { channel, .. } => channel,
            MidiMessage::NoteOn { channel, .. } => channel,
        }
    }

    /// The key number.
    pub open spec fn note(self) -> u8 {
        match self {
            MidiMessage::NoteOff { note, .. } => note,
            MidiMessage::NoteOn { note, .. } => note,
        }
    }

    /// The velocity of the key.
    pub open spec fn velocity(self) -> u8 {
        match self {
            MidiMessage::NoteOff { velocity, .. } => velocity,
            MidiMessage::NoteOn { velocity, .. } => velocity,
        }
    }

    /// Whether each value fits the bits that the wire gives it: four for the
    /// channel, seven for the key number and for the velocity.
    pub open spec fn fits(self) -> bool {
        &&& self.channel() <= MAX_CHANNEL
        &&& self.note() <= MAX_DATA
        &&& self.velocity() <= MAX_DATA
    }

    /// The status byte: the kind of the message in the high half, the channel
    /// in the low half.
    pub open spec fn status(self) -> u8 {
        match self {
            MidiMessage::NoteOff { channel, .. } => 0x80u8 | channel,
            MidiMessage::NoteOn { channel, .. } => 0x90u8 | channel,
        }
    }

    /// The bytes of the message as they go over the wire.
    pub open spec fn wire(self) -> Seq<u8> {
        seq![self.status(), self.note(), self.velocity()]
    }

    /// The message that [`encode`] sends for `note`: on the first channel, a
    /// press with velocity 100 or a release with velocity 0.
    pub open spec fn for_note(note: u8, on: bool) -> MidiMessage {
        if on {
            MidiMessage::NoteOn { channel: CHANNEL, note, velocity: VELOCITY_ON }
        } else {
            MidiMessage::NoteOff { channel: CHANNEL, note, velocity: VELOCITY_OFF }
        }
    }

    /// The message that presses (`on`) or releases the key `note` as
    /// [`encode`] does it.
    pub fn note_event(note: u8, on: bool) -> (message: MidiMessage)
        ensures
            message == MidiMessage::for_note(note, on),
    {
        if on {
            MidiMessage::NoteOn { channel: CHANNEL, note, velocity: VELOCITY_ON }
        } else {
            MidiMessage::NoteOff { channel: CHANNEL, note, velocity: VELOCITY_OFF }
        }
    }

    /// Whether each value fits the bits that the wire gives it.
    pub fn is_encodable(&self) -> (fits: bool)
        ensures
            fits == self.fits(),
    {
        match *self {
            MidiMessage::NoteOff { channel, note, velocity } => {
                channel <= MAX_CHANNEL && note <= MAX_DATA && velocity <= MAX_DATA
            },
            MidiMessage::NoteOn { channel, note, velocity } => {
                channel <= MAX_CHANNEL && note <= MAX_DATA && velocity <= MAX_DATA
            },
        }
    }

    /// The three bytes of this message.
    ///
    /// Fails with [`MidiError::EncodingError`] where a value does not fit its
    /// bits, and only there.
    pub fn to_bytes(&self) -> (encoded: Result<[u8; 3], MidiError>)
        ensures
            match encoded {
                Ok(bytes) => self.fits() && bytes@ == self.wire(),
                Err(e) => !self.fits() && e == MidiError::EncodingError,
            },
    {
        if !self.is_encodable() {
            return Err(MidiError::EncodingError);
        }
        let size = wire_size(self);
        let mut buffer: Vec<u8> = Vec::new();
        buffer.resize(size, 0);
        match copy_wire(self, &mut buffer) {
            Ok(_) => {
                let bytes = [buffer[0], buffer[1], buffer[2]];
                assert(bytes@ =~= self.wire());
                Ok(bytes)
            },
            Err(_) => Err(MidiError::EncodingError),
        }
    }
}

/// Calls `wmidi::MidiMessage::bytes_size` on the message that `wmidi` has for
/// `message`. Trusted: a note message takes three bytes.
#[verifier::external_body]
fn wire_size(message: &MidiMessage) -> (size: usize)
    requires
        message.fits(),
    ensures
        size == 3,
{
    let outside = match *message {
        MidiMessage::NoteOff { channel, note, velocity } => wmidi::MidiMessage::NoteOff(
            wmidi::Channel::from_index(channel).unwrap(),
            wmidi::Note::from_u8_lossy(note),
            wmidi::U7::from_u8_lossy(velocity),
        ),
        MidiMessage::NoteOn { channel, note, velocity } => wmidi::MidiMessage::NoteOn(
            wmidi::Channel::from_index(channel).unwrap(),
            wmidi::Note::from_u8_lossy(note),
            wmidi::U7::from_u8_lossy(velocity),
        ),
    };
    outside.bytes_size()
}

/// Calls `wmidi::MidiMessage::copy_to_slice` on the message that `wmidi` has
/// for `message`. Trusted: a buffer of fewer than three bytes is refused and
/// left as it was; in a longer one the first three bytes become the status
/// byte, the key number and the velocity, the rest stays, and the call
/// returns 3.
#[verifier::external_body]
fn copy_wire(message: &MidiMessage, buffer: &mut Vec<u8>) -> (written: Result<
    usize,
    wmidi::ToSliceError,
>)
    requires
        message.fits(),
    ensures
        old(buffer)@.len() < 3 ==> written is Err && final(buffer)@ == old(buffer)@,
        old(buffer)@.len() >= 3 ==> written is Ok && written->Ok_0 == 3 && final(buffer)@
            == message.wire() + old(buffer)@.skip(3),
{
    let outside = match *message {
        MidiMessage::NoteOff { channel, note, velocity } => wmidi::MidiMessage::NoteOff(
            wmidi::Channel::from_index(channel).unwrap(),
            wmidi::Note::from_u8_lossy(note),
            wmidi::U7::from_u8_lossy(velocity),
        ),
        MidiMessage::NoteOn { channel, note, velocity } => wmidi::MidiMessage::NoteOn(
            wmidi::Channel::from_index(channel).unwrap(),
            wmidi::Note::from_u8_lossy(note),
            wmidi::U7::from_u8_lossy(velocity),
        ),
    };
    outside.copy_to_slice(buffer.as_mut_slice())
}

/// What [`encode`] gives for `note`: the bytes of its message, or the error
/// for a key number beyond seven bits.
pub open spec fn encoding(note: u8, on: bool) -> Result<Seq<u8>, MidiError> {
    if note <= MAX_DATA {
        Ok(
            seq![
                if on { 0x90u8 } else { 0x80u8 },
                note,
                if on { VELOCITY_ON } else { VELOCITY_OFF },
            ],
        )
    } else {
        Err(MidiError::EncodingError)
    }
}

/// The result of an encoding with the bytes taken as a sequence.
pub open spec fn on_wire(encoded: Result<[u8; 3], MidiError>) -> Result<Seq<u8>, MidiError> {
    match encoded {
        Ok(bytes) => Ok(bytes@),
        Err(e) => Err(e),
    }
}

/// The three bytes that press (`on`) or release the key `note` on the first
/// channel: the status byte 0x90 or 0x80, the key number, and the velocity,
/// 100 for a press and 0 for a release.
///
/// Fails with [`MidiError::EncodingError`] where `note` is above 127, and
/// only there.
pub fn encode(note: u8, on: bool) -> (encoded: Result<[u8; 3], MidiError>)
    ensures
        on_wire(encoded) == encoding(note, on),
{
    let message = MidiMessage::note_event(note, on);
    assert(0x90u8 | 0u8 == 0x90u8 && 0x80u8 | 0u8 == 0x80u8) by (bit_vector);
    let encoded = message.to_bytes();
    proof {
        if note <= MAX_DATA {
            assert(message.wire() =~= encoding(note, on)->Ok_0);
        }
    }
    encoded
}

/// Encoding is a function of the key number and the state alone: two results
/// for the same note and state are the same result.
pub proof fn lemma_encode_deterministic(
    note: u8,
    on: bool,
    first: Result<[u8; 3], MidiError>,
    second: Result<[u8; 3], MidiError>,
)
    requires
        on_wire(first) == encoding(note, on),
        on_wire(second) == encoding(note, on),
    ensures
        first == second,
{
    if note <= MAX_DATA {
        assert(first->Ok_0 =~= second->Ok_0);
    }
}

} // verus!
