//! Decoding of raw MIDI voice messages.
use vstd::prelude::*;

verus! {

/// Status nibble of a note-off message.
pub const NOTE_OFF: u8 = 0b1000;

/// Status nibble of a note-on message.
pub const NOTE_ON: u8 = 0b1001;

/// Status nibble of a control change message.
pub const CONTROL_CHANGE: u8 = 0b1011;

/// Status nibble of a program change message.
pub const PROGRAM_CHANGE: u8 = 0b1100;

/// Status nibble of a pitch bend message.
pub const PITCH_BEND_CHANGE: u8 = 0b1110;

/// The highest controller number of an ordinary control change; the numbers
/// above it are channel mode messages.
pub const LAST_NORMAL_CONTROLLER: u8 = 119;

/// A note message: channel, note number, velocity.
#[derive(Clone, Copy, Debug, PartialEq, Eq)]
pub struct Note(pub u8, pub u8, pub u8);

impl Note {
    /// The channel the note is on.
    pub fn channel(&self) -> (r: u8)
        ensures
            r == self.0,
    {
        self.0
    }

    /// The note number (69 is A4, 440 Hz).
    pub fn number(&self) -> (r: u8)
        ensures
            r == self.1,
    {
        self.1
    }

    /// The velocity the note was struck with (0 to 127).
    pub fn velocity(&self) -> (r: u8)
        ensures
            r == self.2,
    {
        self.2
    }
}

/// A control change: channel, controller number, value.
#[derive(Clone, Copy, Debug, PartialEq, Eq)]
pub enum ControlChange {
    Normal(u8, u8, u8),
    ChannelMode(u8, u8, u8),
}

/// A decoded MIDI voice message.
#[derive(Clone, Copy, Debug, PartialEq, Eq)]
pub enum MidiMessage {
    NoteOn(Note),
    NoteOff(Note),
    /// Channel, program number.
    ProgramChange(u8, u8),
    ControlChange(ControlChange),
    /// Channel, 14-bit bend value centred at 8192.
    PitchBend(u8, u16),
}

/// The status nibble of a status byte.
pub open spec fn status_of(status_byte: u8) -> u8 {
    (status_byte / 16) as u8
}

/// The channel nibble of a status byte.
pub open spec fn channel_of(status_byte: u8) -> u8 {
    (status_byte % 16) as u8
}

/// How many bytes a message with this status byte takes: three for notes,
/// control changes and pitch bends, two for program changes, and one (the
/// status byte alone) for anything else.
pub open spec fn message_len(status_byte: u8) -> nat {
    let s = status_of(status_byte);
    if s == NOTE_OFF || s == NOTE_ON || s == CONTROL_CHANGE || s == PITCH_BEND_CHANGE {
        3
    } else if s == PROGRAM_CHANGE {
        2
    } else {
        1
    }
}

/// The 14-bit pitch bend value of two data bytes: `msb` gives the high seven
/// bits and `lsb` the low seven.
pub open spec fn bend_value(lsb: u8, msb: u8) -> u16 {
    ((msb as u16) << 7u16) | (lsb as u16)
}

/// The message that `raw` holds, or `None` where its status nibble is not
/// one of the supported ones.
pub open spec fn decode(raw: Seq<u8>) -> Option<MidiMessage> {
    let status = status_of(raw[0]);
    let channel = channel_of(raw[0]);
    if status == NOTE_OFF {
        Some(MidiMessage::NoteOff(Note(channel, raw[1], raw[2])))
    } else if status == NOTE_ON {
        Some(MidiMessage::NoteOn(Note(channel, raw[1], raw[2])))
    } else if status == CONTROL_CHANGE {
        if raw[1] <= LAST_NORMAL_CONTROLLER {
            Some(MidiMessage::ControlChange(ControlChange::Normal(channel, raw[1], raw[2])))
        } else {
            Some(MidiMessage::ControlChange(ControlChange::ChannelMode(channel, raw[1], raw[2])))
        }
    } else if status == PITCH_BEND_CHANGE {
        Some(MidiMessage::PitchBend(channel, bend_value(raw[1], raw[2])))
    } else if status == PROGRAM_CHANGE {
        Some(MidiMessage::ProgramChange(channel, raw[1]))
    } else {
        None
    }
}

/// With seven-bit data bytes, the bend value is `msb * 128 + lsb`, at most
/// 16383.
pub proof fn lemma_bend_value(lsb: u8, msb: u8)
    requires
        lsb < 128,
        msb < 128,
    ensures
        bend_value(lsb, msb) == msb as int * 128 + lsb as int,
        bend_value(lsb, msb) <= 16383,
{
    assert(((msb as u16) << 7u16) | (lsb as u16) == (msb as u16) * 128 + (lsb as u16))
        by (bit_vector)
        requires
            lsb < 128,
            msb < 128,
    ;
}

/// Splits a status byte into its status nibble (high four bits) and its
/// channel nibble (low four bits).
pub fn split_status_and_channel(status_byte: u8) -> (r: (u8, u8))
    ensures
        r.0 == status_of(status_byte),
        r.1 == channel_of(status_byte),
{
    let channel = status_byte & 0b00001111u8;
    let status = status_byte >> 4u8;
    assert(status_byte & 0b00001111u8 == status_byte % 16) by (bit_vector);
    assert(status_byte >> 4u8 == status_byte / 16) by (bit_vector);
    (status, channel)
}

/// How many bytes a message that starts with `status_byte` takes.
pub fn message_length(status_byte: u8) -> (r: usize)
    ensures
        r == message_len(status_byte),
{
    let (status, _channel) = split_status_and_channel(status_byte);
    if status == NOTE_OFF || status == NOTE_ON || status == CONTROL_CHANGE || status
        == PITCH_BEND_CHANGE {
        3
    } else if status == PROGRAM_CHANGE {
        2
    } else {
        1
    }
}

impl MidiMessage {
    /// Decodes a raw voice message. A status nibble outside the supported
    /// set is an error.
    pub fn try_new(raw_message: &[u8]) -> (r: Result<MidiMessage, &'static str>)
        requires
            raw_message@.len() >= 1,
            raw_message@.len() >= message_len(raw_message@[0]),
        ensures
            r is Ok <==> decode(raw_message@) is Some,
            r is Ok ==> decode(raw_message@) == Some(r->Ok_0),
            r is Err ==> r->Err_0@ == "Unrecognized message"@,
    {
        let (status, channel) = split_status_and_channel(raw_message[0]);
        if status == NOTE_OFF {
            Ok(MidiMessage::NoteOff(Note(channel, raw_message[1], raw_message[2])))
        } else if status == NOTE_ON {
            Ok(MidiMessage::NoteOn(Note(channel, raw_message[1], raw_message[2])))
        } else if status == CONTROL_CHANGE {
            let cc_number = raw_message[1];
            if cc_number <= LAST_NORMAL_CONTROLLER {
                Ok(
                    MidiMessage::ControlChange(
                        ControlChange::Normal(channel, cc_number, raw_message[2]),
                    ),
                )
            } else {
                Ok(
                    MidiMessage::ControlChange(
                        ControlChange::ChannelMode(channel, cc_number, raw_message[2]),
                    ),
                )
            }
        } else if status == PITCH_BEND_CHANGE {
            let msb = (raw_message[2] as u16) << 7u16;
            let lsb = raw_message[1] as u16;
            Ok(MidiMessage::PitchBend(channel, msb | lsb))
        } else if status == PROGRAM_CHANGE {
            Ok(MidiMessage::ProgramChange(channel, raw_message[1]))
        } else {
            Err("Unrecognized message")
        }
    }

    /// The name of the message's kind, for diagnostics.
    pub fn kind_name(&self) -> (r: &'static str)
        ensures
            r@ == kind_name_of(*self),
    {
        match self {
            MidiMessage::NoteOn(_) => "NoteOn",
            MidiMessage::NoteOff(_) => "NoteOff",
            MidiMessage::ProgramChange(_, _) => "ProgramChange",
            MidiMessage::ControlChange(_) => "ControlChange",
            MidiMessage::PitchBend(_, _) => "PitchBend",
        }
    }
}

/// The name of a message's kind.
pub open spec fn kind_name_of(m: MidiMessage) -> Seq<char> {
    match m {
        MidiMessage::NoteOn(_) => "NoteOn"@,
        MidiMessage::NoteOff(_) => "NoteOff"@,
        MidiMessage::ProgramChange(_, _) => "ProgramChange"@,
        MidiMessage::ControlChange(_) => "ControlChange"@,
        MidiMessage::PitchBend(_, _) => "PitchBend"@,
    }
}

} // verus!
