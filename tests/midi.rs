use rust_synth::midi::{message_length, split_status_and_channel, ControlChange, MidiMessage, Note};

#[test]
fn splits_status_and_channel() {
    assert_eq!(split_status_and_channel(0x93), (0b1001, 3));
    assert_eq!(split_status_and_channel(0xEF), (0b1110, 15));
    assert_eq!(split_status_and_channel(0x00), (0, 0));
}

#[test]
fn decodes_note_on() {
    let m = MidiMessage::try_new(&[0b1001_0011, 60, 100]).unwrap();
    assert_eq!(m, MidiMessage::NoteOn(Note(3, 60, 100)));
    if let MidiMessage::NoteOn(note) = m {
        assert_eq!(note.channel(), 3);
        assert_eq!(note.number(), 60);
        assert_eq!(note.velocity(), 100);
    }
}

#[test]
fn decodes_note_off() {
    let m = MidiMessage::try_new(&[0x81, 64, 0]).unwrap();
    assert_eq!(m, MidiMessage::NoteOff(Note(1, 64, 0)));
}

#[test]
fn decodes_control_changes_by_controller_number() {
    assert_eq!(
        MidiMessage::try_new(&[0xB2, 119, 5]).unwrap(),
        MidiMessage::ControlChange(ControlChange::Normal(2, 119, 5))
    );
    assert_eq!(
        MidiMessage::try_new(&[0xB2, 120, 0]).unwrap(),
        MidiMessage::ControlChange(ControlChange::ChannelMode(2, 120, 0))
    );
}

#[test]
fn decodes_pitch_bend_lsb_then_msb() {
    assert_eq!(MidiMessage::try_new(&[0xE0, 0x00, 0x40]).unwrap(), MidiMessage::PitchBend(0, 8192));
    assert_eq!(MidiMessage::try_new(&[0xE5, 0x7F, 0x7F]).unwrap(), MidiMessage::PitchBend(5, 16383));
    assert_eq!(MidiMessage::try_new(&[0xE0, 0x00, 0x00]).unwrap(), MidiMessage::PitchBend(0, 0));
    assert_eq!(MidiMessage::try_new(&[0xE0, 0x01, 0x02]).unwrap(), MidiMessage::PitchBend(0, 257));
}

#[test]
fn decodes_program_change_from_two_bytes() {
    assert_eq!(MidiMessage::try_new(&[0xC4, 7]).unwrap(), MidiMessage::ProgramChange(4, 7));
}

#[test]
fn rejects_unsupported_status() {
    assert_eq!(MidiMessage::try_new(&[0xA0, 60, 10]), Err("Unrecognized message"));
    assert_eq!(MidiMessage::try_new(&[0xD0, 10]), Err("Unrecognized message"));
    assert_eq!(MidiMessage::try_new(&[0xF8]), Err("Unrecognized message"));
}

#[test]
fn message_lengths() {
    assert_eq!(message_length(0x90), 3);
    assert_eq!(message_length(0x80), 3);
    assert_eq!(message_length(0xB0), 3);
    assert_eq!(message_length(0xE0), 3);
    assert_eq!(message_length(0xC0), 2);
    assert_eq!(message_length(0xF8), 1);
}

#[test]
fn names_message_kinds() {
    assert_eq!(MidiMessage::NoteOn(Note(0, 1, 2)).kind_name(), "NoteOn");
    assert_eq!(MidiMessage::NoteOff(Note(0, 1, 2)).kind_name(), "NoteOff");
    assert_eq!(MidiMessage::ProgramChange(0, 1).kind_name(), "ProgramChange");
    assert_eq!(
        MidiMessage::ControlChange(ControlChange::Normal(0, 1, 2)).kind_name(),
        "ControlChange"
    );
    assert_eq!(MidiMessage::PitchBend(0, 1).kind_name(), "PitchBend");
}
