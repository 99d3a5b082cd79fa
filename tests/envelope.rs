use rust_synth::envelope::{Adsr, Envelope, Message, State, ATTACK_TOLERANCE};
use rust_synth::fixed::{mul_level, UNITY};

const HALF: u32 = UNITY / 2;

fn shape(attack: u32, decay: u32, sustain: u32, release: u32) -> Adsr {
    Adsr { attack, decay, sustain, release }
}

#[test]
fn rest_at_silence_stays_silent() {
    let mut e = Envelope::new(shape(HALF, HALF, HALF, HALF));
    for _ in 0..1000 {
        assert_eq!(e.process_sample(), 0);
        assert_eq!(e.state(), State::Rest);
    }
}

#[test]
fn attack_halves_the_distance_each_sample() {
    let mut e = Envelope::new(shape(HALF, HALF, HALF, HALF));
    e.message(Message::On { velocity: UNITY });
    assert_eq!(e.state(), State::Attack);
    let expected = [8388608, 12582912, 14680064, 15728640, 16252928];
    for want in expected {
        assert_eq!(e.process_sample(), want);
    }
}

#[test]
fn attack_rises_to_velocity_then_decays_to_sustain_and_rests() {
    let mut e = Envelope::new(shape(HALF, HALF, HALF, HALF));
    e.message(Message::On { velocity: UNITY });
    let mut last = 0;
    let mut steps = 0;
    while e.state() == State::Attack {
        let v = e.process_sample();
        assert!(v >= last);
        assert!(v <= UNITY);
        last = v;
        steps += 1;
        assert!(steps < 100);
    }
    assert_eq!(e.state(), State::Decay);
    assert_eq!(e.level(), UNITY);
    let mut last = UNITY;
    while e.state() == State::Decay {
        let v = e.process_sample();
        assert!(v <= last);
        assert!(v >= HALF);
        last = v;
        steps += 1;
        assert!(steps < 200);
    }
    assert_eq!(e.state(), State::Rest);
    assert_eq!(e.level(), HALF);
    assert_eq!(e.process_sample(), HALF);
}

#[test]
fn zero_time_stages_snap_to_target() {
    let mut e = Envelope::new(shape(0, 0, HALF, 0));
    e.message(Message::On { velocity: UNITY });
    assert_eq!(e.process_sample(), UNITY);
    assert_eq!(e.process_sample(), UNITY);
    assert_eq!(e.state(), State::Decay);
    assert_eq!(e.process_sample(), HALF);
    e.message(Message::Off);
    assert_eq!(e.process_sample(), 0);
    assert_eq!(e.process_sample(), 0);
    assert_eq!(e.state(), State::Rest);
}

#[test]
fn release_falls_to_silence() {
    let mut e = Envelope::new(shape(0, HALF, UNITY, HALF));
    e.message(Message::On { velocity: UNITY });
    e.process_sample();
    e.message(Message::Off);
    assert_eq!(e.state(), State::Release);
    let mut last = e.level();
    let mut steps = 0;
    while e.state() == State::Release {
        let v = e.process_sample();
        assert!(v <= last);
        last = v;
        steps += 1;
        assert!(steps < 100);
    }
    assert_eq!(e.level(), 0);
    assert_eq!(e.process_sample(), 0);
}

#[test]
fn retrigger_mid_release_does_not_jump() {
    let attack = HALF;
    let mut e = Envelope::new(shape(attack, HALF, HALF, HALF));
    e.message(Message::On { velocity: UNITY });
    for _ in 0..30 {
        e.process_sample();
    }
    e.message(Message::Off);
    e.process_sample();
    e.process_sample();
    let p = e.level();
    assert!(p > 0);
    let velocity = UNITY;
    e.message(Message::On { velocity });
    assert_eq!(e.level(), p);
    let next = e.process_sample();
    let d = (velocity as u64).abs_diff(p as u64);
    let bound = if d <= ATTACK_TOLERANCE as u64 { d } else { d - attack as u64 * d / UNITY as u64 };
    assert!((next as u64).abs_diff(p as u64) <= bound);
    assert!(next >= p);
}

#[test]
fn retrigger_with_lower_velocity_approaches_from_above() {
    let mut e = Envelope::new(shape(0, HALF, UNITY, HALF));
    e.message(Message::On { velocity: UNITY });
    e.process_sample();
    e.message(Message::On { velocity: HALF });
    assert_eq!(e.process_sample(), HALF);
}

#[test]
fn process_writes_successive_levels() {
    let mut e = Envelope::new(shape(HALF, HALF, HALF, HALF));
    e.message(Message::On { velocity: UNITY });
    let mut buffer = [7u32; 3];
    e.process(&mut buffer);
    assert_eq!(buffer, [8388608, 12582912, 14680064]);
    assert_eq!(e.level(), 14680064);
}

#[test]
fn process_apply_scales_stereo_frames() {
    let mut e = Envelope::new(shape(HALF, HALF, HALF, HALF));
    e.message(Message::On { velocity: UNITY });
    let mut buffer = [1000u32, 2000, 1000, 2000];
    e.process_apply(&mut buffer);
    assert_eq!(buffer, [500, 1000, 750, 1500]);
    assert_eq!(e.level(), 12582912);
}

#[test]
fn params_replace_the_shape_only() {
    let mut e = Envelope::new(shape(HALF, HALF, HALF, HALF));
    e.message(Message::On { velocity: UNITY });
    e.process_sample();
    e.params(shape(0, 0, HALF, 0));
    assert_eq!(e.state(), State::Attack);
    assert_eq!(e.level(), HALF);
    assert_eq!(e.process_sample(), UNITY);
}

#[test]
fn level_multiplication_rounds_down() {
    assert_eq!(mul_level(UNITY / 2, 1000), 500);
    assert_eq!(mul_level(UNITY, u32::MAX), u32::MAX);
    assert_eq!(mul_level(0, 12345), 0);
    assert_eq!(mul_level(UNITY / 3, 3), 0);
}

#[test]
fn release_rests_within_level_plus_one_samples() {
    let release = UNITY - 1;
    let mut e = Envelope::new(shape(0, 0, UNITY, release));
    e.message(Message::On { velocity: 5000 });
    e.process_sample();
    e.message(Message::Off);
    let start = e.level();
    assert_eq!(start, 5000);
    let mut taken: u32 = 0;
    while e.state() != State::Rest {
        e.process_sample();
        taken += 1;
        assert!(taken <= start + 1);
    }
    assert_eq!(e.level(), 0);
}
