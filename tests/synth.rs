use rust_synth::envelope::{Adsr, Message};
use rust_synth::fixed::UNITY;
use rust_synth::synth::{Synth, Tone};

const INSTANT: Adsr = Adsr { attack: 0, decay: 0, sustain: UNITY, release: 0 };

fn tones(n: usize) -> Vec<Tone> {
    vec![Tone { phase: 1, amplitude: 1 }; n]
}

#[test]
fn fresh_voice_is_silent_at_440_hz() {
    let mut s = Synth::new(48000, INSTANT);
    let mut buffer = tones(4);
    s.process(2, &mut buffer);
    assert_eq!(
        buffer,
        vec![
            Tone { phase: 0, amplitude: 0 },
            Tone { phase: 0, amplitude: 0 },
            Tone { phase: 39370533, amplitude: 0 },
            Tone { phase: 39370533, amplitude: 0 },
        ]
    );
}

#[test]
fn phase_advances_by_increment_per_frame_across_renders() {
    let mut s = Synth::new(48000, INSTANT);
    s.message_envelope(Message::On { velocity: UNITY });
    let mut first = tones(3);
    s.process(1, &mut first);
    let mut second = tones(2);
    s.process(1, &mut second);
    let phases: Vec<u32> = first.iter().chain(second.iter()).map(|t| t.phase).collect();
    assert_eq!(phases, vec![0, 39370533, 78741066, 118111599, 157482132]);
    assert!(first.iter().chain(second.iter()).all(|t| t.amplitude == UNITY));
}

#[test]
fn phase_wraps_at_a_full_cycle() {
    let mut s = Synth::new(1, INSTANT);
    s.frequency(999);
    let mut buffer = tones(3);
    s.process(1, &mut buffer);
    assert_eq!(buffer[1].phase, 4290672328);
    assert_eq!(buffer[2].phase, 4286377360);
}

#[test]
fn short_last_frame_counts_as_a_frame() {
    let mut s = Synth::new(48000, INSTANT);
    let mut buffer = tones(7);
    s.process(3, &mut buffer);
    let phases: Vec<u32> = buffer.iter().map(|t| t.phase).collect();
    assert_eq!(phases, vec![0, 0, 0, 39370533, 39370533, 39370533, 78741066]);
    let mut next = tones(1);
    s.process(3, &mut next);
    assert_eq!(next[0].phase, 118111599);
}

#[test]
fn gain_scales_amplitude() {
    let mut s = Synth::new(48000, INSTANT);
    s.gain(UNITY / 4);
    s.message_envelope(Message::On { velocity: UNITY });
    let mut buffer = tones(2);
    s.process(2, &mut buffer);
    assert_eq!(buffer[0].amplitude, UNITY / 4);
    assert_eq!(buffer[1].amplitude, UNITY / 4);
}

#[test]
fn frequency_sets_the_increment() {
    let mut s = Synth::new(48000, INSTANT);
    s.frequency(1_000_000);
    let mut buffer = tones(2);
    s.process(1, &mut buffer);
    assert_eq!(buffer[1].phase, 89478485);
}

#[test]
fn zero_bend_keeps_the_frequency_and_bends_do_not_accumulate() {
    let mut s = Synth::new(48000, INSTANT);
    s.frequency(1_000_000);
    s.pitchbend_cents(UNITY);
    let mut buffer = tones(2);
    s.process(1, &mut buffer);
    assert_eq!(buffer[1].phase - buffer[0].phase, 89478485);

    s.pitchbend_cents(2 * UNITY);
    s.pitchbend_cents(2 * UNITY);
    let mut buffer = tones(2);
    s.process(1, &mut buffer);
    assert_eq!(buffer[1].phase.wrapping_sub(buffer[0].phase), 178956970);
}

#[test]
fn release_silences_the_voice() {
    let mut s = Synth::new(48000, INSTANT);
    s.message_envelope(Message::On { velocity: UNITY });
    let mut buffer = tones(2);
    s.process(2, &mut buffer);
    assert_eq!(buffer[0].amplitude, UNITY);
    s.message_envelope(Message::Off);
    let mut buffer = tones(4);
    s.process(2, &mut buffer);
    assert!(buffer.iter().all(|t| t.amplitude == 0));
}

#[test]
fn advance_moves_the_phase_by_one_increment() {
    let mut s = Synth::new(48000, INSTANT);
    s.advance();
    s.advance();
    let mut buffer = tones(1);
    s.process(1, &mut buffer);
    assert_eq!(buffer[0].phase, 78741066);
}
