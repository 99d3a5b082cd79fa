//! The single voice: a phase-accumulating oscillator shaped by an envelope.
//!
//! The phase is a 32-bit fraction of a full cycle (2 to the 32nd stands for
//! 2π), so wrapping at 2π is the wrap of a `u32`. Frequencies are in
//! millihertz.
use vstd::prelude::*;
use crate::envelope::{Adsr, Envelope, EnvelopeView, Message, State, run_samples, lemma_run_wf};
use crate::fixed::{UNITY, scaled, mul_level, lemma_scaled_bounds};

verus! {

/// A full cycle of the phase (2π).
pub const CYCLE: u64 = 0x1_0000_0000;

/// The frequency of a fresh voice: 440 Hz.
pub const DEFAULT_FREQUENCY: u32 = 440_000;

/// The per-sample phase step for `frequency` (in millihertz) at `sample_rate`
/// (in hertz): `2π * frequency / sample_rate`, in fractions of a cycle,
/// rounded down and taken modulo a full cycle.
pub open spec fn increment_for(frequency: int, sample_rate: int) -> int {
    (frequency * CYCLE / (1000 * sample_rate)) % (CYCLE as int)
}

/// The phase after `k` steps of `increment` from `phase`, wrapping at 2π.
pub open spec fn phase_after(phase: int, increment: int, k: int) -> int {
    (phase + k * increment) % (CYCLE as int)
}

/// The number of frames that a buffer of `len` samples holds with
/// `channels` interleaved channels; a short last frame counts.
pub open spec fn frame_count(len: int, channels: int) -> int {
    (len + channels - 1) / channels
}

/// What one output sample is made of: the oscillator phase, whose sine is
/// the waveform, and the amplitude that scales it.
#[derive(Clone, Copy, Debug, PartialEq, Eq)]
pub struct Tone {
    pub phase: u32,
    pub amplitude: u32,
}

/// What a voice is, seen from outside.
pub struct SynthView {
    /// The frequency that sounds, bend included (millihertz).
    pub frequency: int,
    /// The frequency last set, before any bend (millihertz).
    pub base_frequency: u32,
    pub gain: u32,
    pub phase: u32,
    pub increment: u32,
    pub sample_rate: u32,
    pub envelope: EnvelopeView,
}

impl SynthView {
    pub open spec fn wf(self) -> bool {
        &&& self.sample_rate > 0
        &&& self.gain <= UNITY
        &&& self.increment == increment_for(self.frequency, self.sample_rate as int)
        &&& self.envelope.wf()
    }

    /// The sample that slot `i` of a buffer with `channels` channels gets
    /// from a render that starts in this state.
    pub open spec fn tone_at(self, channels: int, i: int) -> Tone {
        let k = i / channels;
        Tone {
            phase: phase_after(self.phase as int, self.increment as int, k) as u32,
            amplitude: scaled(self.gain as int, run_samples(self.envelope, (k + 1) as nat).prev as int)
                as u32,
        }
    }
}

/// Each frame advances the phase by the increment, wrapping at 2π.
proof fn lemma_phase_step(phase: int, increment: int, k: int)
    requires
        0 <= phase,
        0 <= increment,
        0 <= k,
    ensures
        phase_after(phase, increment, k + 1) == (phase_after(phase, increment, k) + increment)
            % (CYCLE as int),
{
    let m = CYCLE as int;
    assert(phase + (k + 1) * increment == (phase + k * increment) + increment) by (nonlinear_arith);
    vstd::arithmetic::div_mod::lemma_add_mod_noop(phase + k * increment, increment, m);
    vstd::arithmetic::div_mod::lemma_mod_twice(increment, m);
    vstd::arithmetic::div_mod::lemma_mod_bound(increment, m);
    vstd::arithmetic::div_mod::lemma_add_mod_noop(phase_after(phase, increment, k), increment, m);
    vstd::arithmetic::div_mod::lemma_mod_twice(phase + k * increment, m);
}

/// Rendering `a` frames and then `b` more leaves the phase where rendering
/// `a + b` frames at once does: the phase moves by exactly one increment per
/// frame, wrapping at 2π.
pub proof fn lemma_phase_composes(phase: int, increment: int, a: int, b: int)
    requires
        0 <= phase,
        0 <= increment,
        0 <= a,
        0 <= b,
    ensures
        phase_after(phase_after(phase, increment, a), increment, b) == phase_after(
            phase,
            increment,
            a + b,
        ),
{
    let m = CYCLE as int;
    assert(phase + (a + b) * increment == (phase + a * increment) + b * increment)
        by (nonlinear_arith);
    vstd::arithmetic::div_mod::lemma_add_mod_noop(phase + a * increment, b * increment, m);
    vstd::arithmetic::div_mod::lemma_add_mod_noop(
        phase_after(phase, increment, a),
        b * increment,
        m,
    );
    vstd::arithmetic::div_mod::lemma_mod_twice(phase + a * increment, m);
}

/// A bend by the factor `UNITY` (zero cents) leaves the base frequency
/// sounding.
pub proof fn lemma_zero_bend(base_frequency: u32)
    ensures
        scaled(base_frequency as int, UNITY as int) == base_frequency,
{
    assert(scaled(base_frequency as int, UNITY as int) == scaled(
        UNITY as int,
        base_frequency as int,
    )) by (nonlinear_arith);
    lemma_scaled_bounds(UNITY as int, base_frequency as int);
}

/// Slot `j` of frame `k` is a slot of that frame.
proof fn lemma_slot_frame(j: int, k: int, channels: int)
    requires
        channels > 0,
        0 <= k,
        k * channels <= j < k * channels + channels,
    ensures
        j / channels == k,
{
    vstd::arithmetic::div_mod::lemma_fundamental_div_mod_converse(j, channels, k, j - k * channels);
}

/// The single active voice.
pub struct Synth {
    frequency: u64,
    base_frequency: u32,
    gain: u32,
    phase: u32,
    increment: u32,
    sample_rate: u32,
    envelope: Envelope,
}

impl View for Synth {
    type V = SynthView;

    closed spec fn view(&self) -> SynthView {
        SynthView {
            frequency: self.frequency as int,
            base_frequency: self.base_frequency,
            gain: self.gain,
            phase: self.phase,
            increment: self.increment,
            sample_rate: self.sample_rate,
            envelope: self.envelope@,
        }
    }
}

/// The phase step for `frequency` (millihertz) at `sample_rate` (hertz).
fn compute_increment(frequency: u64, sample_rate: u32) -> (r: u32)
    requires
        sample_rate > 0,
    ensures
        r == increment_for(frequency as int, sample_rate as int),
{
    let wide: u128 = (frequency as u128) * (CYCLE as u128);
    let per: u128 = 1000u128 * (sample_rate as u128);
    ((wide / per) % (CYCLE as u128)) as u32
}

impl Synth {
    /// A silent voice at 440 Hz and unity gain, with the envelope shape
    /// `params`.
    pub fn new(sample_rate: u32, params: Adsr) -> (r: Synth)
        requires
            sample_rate > 0,
            params.wf(),
        ensures
            r@.wf(),
            r@.frequency == DEFAULT_FREQUENCY,
            r@.base_frequency == DEFAULT_FREQUENCY,
            r@.gain == UNITY,
            r@.phase == 0,
            r@.sample_rate == sample_rate,
            r@.envelope == (EnvelopeView { params, state: State::Rest, velocity: 0, prev: 0 }),
    {
        let frequency: u32 = DEFAULT_FREQUENCY;
        let increment = compute_increment(frequency as u64, sample_rate);
        Synth {
            frequency: frequency as u64,
            base_frequency: frequency,
            gain: UNITY,
            phase: 0,
            increment,
            sample_rate,
            envelope: Envelope::new(params),
        }
    }

    /// Sets the static output gain; the envelope is untouched.
    pub fn gain(&mut self, gain: u32)
        requires
            old(self)@.wf(),
            gain <= UNITY,
        ensures
            final(self)@ == (SynthView { gain, ..old(self)@ }),
            final(self)@.wf(),
    {
        self.gain = gain;
    }

    /// Sets the frequency (millihertz) both as the base of later bends and as
    /// the one that sounds, and the phase step with it.
    pub fn frequency(&mut self, frequency: u32)
        requires
            old(self)@.wf(),
            frequency > 0,
        ensures
            final(self)@ == (SynthView {
                frequency: frequency as int,
                base_frequency: frequency,
                increment: increment_for(frequency as int, old(self)@.sample_rate as int) as u32,
                ..old(self)@
            }),
            final(self)@.wf(),
    {
        self.frequency = frequency as u64;
        self.base_frequency = frequency;
        self.set_increment();
    }

    /// Bends the sounding frequency to `factor` times the base frequency.
    /// `factor` is a level (`UNITY` is no bend), the ratio `2^(cents / 1200)`
    /// of the bend in cents. Bends are relative to the base frequency, so they
    /// never accumulate.
    pub fn pitchbend_cents(&mut self, factor: u32)
        requires
            old(self)@.wf(),
        ensures
            final(self)@ == (SynthView {
                frequency: scaled(old(self)@.base_frequency as int, factor as int),
                increment: increment_for(
                    scaled(old(self)@.base_frequency as int, factor as int),
                    old(self)@.sample_rate as int,
                ) as u32,
                ..old(self)@
            }),
            final(self)@.wf(),
    {
        assert((self.base_frequency as u64) * (factor as u64) <= 0xffff_ffff_ffff_ffffu64)
            by (nonlinear_arith)
            requires
                self.base_frequency <= 0xffff_ffffu64,
                factor <= 0xffff_ffffu64,
        ;
        let product: u64 = (self.base_frequency as u64) * (factor as u64);
        self.frequency = product / (UNITY as u64);
        self.set_increment();
    }

    /// Recomputes the phase step from the sounding frequency.
    fn set_increment(&mut self)
        requires
            old(self).sample_rate > 0,
        ensures
            *final(self) == (Synth {
                increment: increment_for(old(self).frequency as int, old(self).sample_rate as int)
                    as u32,
                ..*old(self)
            }),
    {
        self.increment = compute_increment(self.frequency, self.sample_rate);
    }

    /// Advances the oscillator by one sample: the phase moves by the
    /// increment, wrapping at 2π.
    pub fn advance(&mut self)
        requires
            old(self)@.wf(),
        ensures
            final(self)@ == (SynthView {
                phase: ((old(self)@.phase as int + old(self)@.increment as int) % (CYCLE as int))
                    as u32,
                ..old(self)@
            }),
            final(self)@.wf(),
    {
        self.phase = self.phase.wrapping_add(self.increment);
    }

    /// Renders `buffer`, `channels` interleaved samples per frame: every
    /// slot of a frame gets the same tone, whose phase is the oscillator's
    /// and whose amplitude is the gain times the envelope's next level; then
    /// the oscillator advances by one step. A short last frame is a frame.
    /// The envelope advances once per frame, whatever the number of channels.
    pub fn process(&mut self, channels: usize, buffer: &mut [Tone])
        requires
            old(self)@.wf(),
            channels > 0,
        ensures
            final(buffer)@.len() == old(buffer)@.len(),
            forall|i: int|
                0 <= i < final(buffer)@.len() ==> final(buffer)@[i] == old(self)@.tone_at(
                    channels as int,
                    i,
                ),
            final(self)@ == (SynthView {
                phase: phase_after(
                    old(self)@.phase as int,
                    old(self)@.increment as int,
                    frame_count(old(buffer)@.len() as int, channels as int),
                ) as u32,
                envelope: run_samples(
                    old(self)@.envelope,
                    frame_count(old(buffer)@.len() as int, channels as int) as nat,
                ),
                ..old(self)@
            }),
            final(self)@.wf(),
    {
        let ghost start_view = self@;
        let ghost ch = channels as int;
        let n = buffer.len();
        let mut start: usize = 0;
        let mut k: usize = 0;
        proof {
            vstd::arithmetic::div_mod::lemma_small_mod(self.phase as nat, CYCLE as nat);
        }
        while start < n
            invariant
                n == buffer@.len(),
                start <= n,
                start == k * ch || (start == n && (k - 1) * ch < n < k * ch),
                start < n ==> start == k * ch,
                self@ == (SynthView {
                    phase: phase_after(start_view.phase as int, start_view.increment as int, k as int)
                        as u32,
                    envelope: run_samples(start_view.envelope, k as nat),
                    ..start_view
                }),
                self@.wf(),
                start_view.wf(),
                channels > 0,
                ch == channels as int,
                forall|j: int| 0 <= j < start ==> buffer@[j] == start_view.tone_at(ch, j),
            decreases n - start,
        {
            proof {
                lemma_run_wf(start_view.envelope, k as nat);
            }
            let level = self.envelope.process_sample();
            let tone = Tone { phase: self.phase, amplitude: mul_level(self.gain, level) };
            let end: usize = if n - start < channels {
                n
            } else {
                start + channels
            };
            assert(start as int == k as int * ch);
            assert(end as int <= k as int * ch + ch);
            assert(k <= start) by (nonlinear_arith)
                requires start as int == k as int * ch, ch >= 1, k >= 0;
            proof {
                lemma_slot_frame(start as int, k as int, ch);
                assert(run_samples(start_view.envelope, (k + 1) as nat) == crate::envelope::step(
                    run_samples(start_view.envelope, k as nat),
                ));
            }
            let mut j: usize = start;
            while j < end
                invariant
                    n == buffer@.len(),
                    start <= j <= end <= n,
                    start == k * ch,
                    end <= k * ch + ch,
                    tone == start_view.tone_at(ch, start as int),
                    forall|i: int| 0 <= i < j ==> buffer@[i] == start_view.tone_at(ch, i),
                decreases end - j,
            {
                proof {
                    lemma_slot_frame(j as int, k as int, ch);
                    lemma_slot_frame(start as int, k as int, ch);
                }
                buffer[j] = tone;
                j = j + 1;
            }
            proof {
                lemma_phase_step(start_view.phase as int, start_view.increment as int, k as int);
            }
            self.advance();
            assert((k + 1) * ch == k * ch + ch) by (nonlinear_arith);
            start = end;
            k = k + 1;
        }
        proof {
            if n == 0 {
                assert(k == 0) by (nonlinear_arith)
                    requires start == k * ch || (start == n && (k - 1) * ch < n < k * ch),
                    n == 0, start == 0, ch > 0;
            } else {
                assert(k >= 1) by (nonlinear_arith)
                    requires start == k * ch || (start == n && (k - 1) * ch < n < k * ch),
                    n > 0, start == n, ch > 0;
            }
            assert((k - 1) * ch == k * ch - ch) by (nonlinear_arith);
            vstd::arithmetic::div_mod::lemma_fundamental_div_mod_converse(
                n + ch - 1,
                ch,
                k as int,
                n + ch - 1 - k * ch,
            );
        }
    }

    /// Sends `message` to the envelope: `On` starts the attack, `Off` the
    /// release.
    pub fn message_envelope(&mut self, message: Message)
        requires
            old(self)@.wf(),
            message.wf(),
        ensures
            final(self)@ == (SynthView {
                envelope: crate::envelope::receive(old(self)@.envelope, message),
                ..old(self)@
            }),
            final(self)@.wf(),
    {
        self.envelope.message(message);
    }
}

} // verus!
