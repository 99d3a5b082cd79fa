//! A logarithmic ADSR envelope with smooth retriggering.
//!
//! Each stage approaches its target exponentially: every sample the distance
//! to the target is multiplied by the stage's coefficient (a level below 1.0).
//! A distance under `SNAP_TOLERANCE` is closed at once, so no stage has an
//! endless tail.
use vstd::prelude::*;
use crate::fixed::{UNITY, scaled, mul_level, lemma_scaled_bounds};

verus! {

/// How far above its velocity an attacking envelope may be and still count
/// as having reached it (about 0.001 of unity).
pub const ATTACK_TOLERANCE: u32 = 16777;

/// A distance to the target below this is closed in one sample (about
/// 0.0001 of unity).
pub const SNAP_TOLERANCE: u32 = 1678;

/// The shape of an envelope, as the engine runs it.
///  - `attack`, `decay`, `release`: per-sample approach coefficients, as levels
///    (0 reaches the target at once; closer to `UNITY` is slower)
///  - `sustain`: the level held after decay, as a fraction of the velocity
#[derive(Clone, Copy, Debug, PartialEq, Eq)]
pub struct Adsr {
    pub attack: u32,
    pub decay: u32,
    pub sustain: u32,
    pub release: u32,
}

impl Adsr {
    /// Every coefficient and the sustain level are at most 1.0.
    pub open spec fn wf(&self) -> bool {
        &&& self.attack <= UNITY
        &&& self.decay <= UNITY
        &&& self.sustain <= UNITY
        &&& self.release <= UNITY
    }
}

/// A command to the envelope.
#[derive(Clone, Copy, Debug, PartialEq, Eq)]
pub enum Message {
    /// Start the attack towards `velocity`, from the current level.
    On { velocity: u32 },
    /// Start the release towards silence, from the current level.
    Off,
}

impl Message {
    /// The velocity, if any, is at most 1.0.
    pub open spec fn wf(&self) -> bool {
        match *self {
            Message::On { velocity } => velocity <= UNITY,
            Message::Off => true,
        }
    }
}

/// The stage an envelope is in.
#[derive(Clone, Copy, Debug, PartialEq, Eq)]
pub enum State {
    Rest,
    Attack,
    Decay,
    Release,
}

/// What an envelope is, seen from outside.
pub struct EnvelopeView {
    pub params: Adsr,
    pub state: State,
    pub velocity: u32,
    pub prev: u32,
}

impl EnvelopeView {
    pub open spec fn wf(self) -> bool {
        &&& self.params.wf()
        &&& self.velocity <= UNITY
        &&& self.prev <= UNITY
    }

    /// The level that the decay stage settles on.
    pub open spec fn sustain_level(self) -> int {
        scaled(self.params.sustain as int, self.velocity as int)
    }
}

/// The absolute difference of two levels.
pub open spec fn distance(a: u32, b: u32) -> int {
    if a >= b {
        a - b
    } else {
        b - a
    }
}

/// One sample of an exponential approach from `prev` to `target` with
/// coefficient `c`: the remaining distance is scaled by `c`, and closed at
/// once when it is under `SNAP_TOLERANCE`.
pub open spec fn approach(prev: u32, target: u32, c: u32) -> u32 {
    let d = distance(prev, target);
    if d < SNAP_TOLERANCE {
        target
    } else if prev < target {
        (target - scaled(c as int, d)) as u32
    } else {
        (target + scaled(c as int, d)) as u32
    }
}

/// The largest move that one attack sample makes from `prev` towards
/// `velocity`: one coefficient step, or the whole distance when it is within
/// the attack tolerance.
pub open spec fn attack_step_bound(prev: u32, velocity: u32, c: u32) -> int {
    let d = distance(prev, velocity);
    if d <= ATTACK_TOLERANCE {
        d
    } else {
        d - scaled(c as int, d)
    }
}

/// The envelope after one sample.
pub open spec fn step(e: EnvelopeView) -> EnvelopeView {
    match e.state {
        State::Rest => e,
        State::Attack => {
            if e.prev >= e.velocity && e.prev - e.velocity <= ATTACK_TOLERANCE {
                EnvelopeView { state: State::Decay, prev: e.velocity, ..e }
            } else {
                EnvelopeView { prev: approach(e.prev, e.velocity, e.params.attack), ..e }
            }
        },
        State::Decay => {
            if e.prev <= e.sustain_level() {
                EnvelopeView { state: State::Rest, prev: e.sustain_level() as u32, ..e }
            } else {
                EnvelopeView {
                    prev: approach(e.prev, e.sustain_level() as u32, e.params.decay),
                    ..e
                }
            }
        },
        State::Release => {
            if e.prev == 0 {
                EnvelopeView { state: State::Rest, ..e }
            } else {
                EnvelopeView { prev: approach(e.prev, 0, e.params.release), ..e }
            }
        },
    }
}

/// The envelope after `n` samples.
pub open spec fn run_samples(e: EnvelopeView, n: nat) -> EnvelopeView
    decreases n,
{
    if n == 0 {
        e
    } else {
        step(run_samples(e, (n - 1) as nat))
    }
}

/// The envelope after it receives `m`; its level is kept.
pub open spec fn receive(e: EnvelopeView, m: Message) -> EnvelopeView {
    match m {
        Message::On { velocity } => EnvelopeView { state: State::Attack, velocity, ..e },
        Message::Off => EnvelopeView { state: State::Release, ..e },
    }
}

/// An approach lands between its start and its target.
pub proof fn lemma_approach_between(prev: u32, target: u32, c: u32)
    requires
        c <= UNITY,
    ensures
        prev <= target ==> prev <= approach(prev, target, c) <= target,
        target <= prev ==> target <= approach(prev, target, c) <= prev,
        distance(approach(prev, target, c), prev) <= distance(prev, target),
{
    lemma_scaled_bounds(c as int, distance(prev, target));
}

/// One sample keeps an envelope well formed.
pub proof fn lemma_step_wf(e: EnvelopeView)
    requires
        e.wf(),
    ensures
        step(e).wf(),
        step(e).params == e.params,
        step(e).velocity == e.velocity,
{
    lemma_scaled_bounds(e.params.sustain as int, e.velocity as int);
    lemma_approach_between(e.prev, e.velocity, e.params.attack);
    lemma_approach_between(e.prev, e.sustain_level() as u32, e.params.decay);
    lemma_approach_between(e.prev, 0, e.params.release);
}

/// Any number of samples keeps an envelope well formed.
pub proof fn lemma_run_wf(e: EnvelopeView, n: nat)
    requires
        e.wf(),
    ensures
        run_samples(e, n).wf(),
        run_samples(e, n).params == e.params,
    decreases n,
{
    if n > 0 {
        lemma_run_wf(e, (n - 1) as nat);
        lemma_step_wf(run_samples(e, (n - 1) as nat));
    }
}

/// An envelope at rest at silence stays silent, however many samples are
/// taken from it.
pub proof fn lemma_rest_is_silent(e: EnvelopeView, n: nat)
    requires
        e.state == State::Rest,
        e.prev == 0,
    ensures
        run_samples(e, n) == e,
        run_samples(e, n).prev == 0,
    decreases n,
{
    if n > 0 {
        lemma_rest_is_silent(e, (n - 1) as nat);
    }
}

/// During the attack, a level at or below the velocity never falls and
/// never passes the velocity.
pub proof fn lemma_attack_rises(e: EnvelopeView)
    requires
        e.wf(),
        e.state == State::Attack,
        e.prev <= e.velocity,
    ensures
        e.prev <= step(e).prev <= e.velocity,
{
    lemma_approach_between(e.prev, e.velocity, e.params.attack);
}

/// During the release, the level never rises (and, unsigned, never falls
/// below silence).
pub proof fn lemma_release_falls(e: EnvelopeView)
    requires
        e.wf(),
        e.state == State::Release,
    ensures
        step(e).prev <= e.prev,
{
    lemma_approach_between(e.prev, 0, e.params.release);
}

/// Taking `a` samples and then `b` more is taking `a + b` samples.
pub proof fn lemma_run_samples_add(e: EnvelopeView, a: nat, b: nat)
    ensures
        run_samples(run_samples(e, a), b) == run_samples(e, a + b),
    decreases b,
{
    if b > 0 {
        lemma_run_samples_add(e, a, (b - 1) as nat);
        assert(run_samples(e, a + b) == step(run_samples(e, (a + b - 1) as nat)));
    }
}

/// A release whose coefficient is below 1.0 lowers a level above silence by
/// at least one unit each sample.
proof fn lemma_release_step_lowers(e: EnvelopeView)
    requires
        e.wf(),
        e.state == State::Release,
        e.params.release < UNITY,
        e.prev > 0,
    ensures
        step(e).state == State::Release,
        step(e).prev < e.prev,
        step(e).wf(),
        step(e).params == e.params,
{
    lemma_step_wf(e);
    let c = e.params.release as int;
    let d = e.prev as int;
    let u = UNITY as int;
    assert(c * d < u * d) by (nonlinear_arith)
        requires c < u, d > 0;
    vstd::arithmetic::div_mod::lemma_multiply_divide_lt(c * d, u, d);
}

/// A release whose coefficient is below 1.0 reaches silence and rests there
/// within one more sample than the level it starts from.
pub proof fn lemma_release_reaches_rest(e: EnvelopeView)
    requires
        e.wf(),
        e.state == State::Release,
        e.params.release < UNITY,
    ensures
        run_samples(e, (e.prev + 1) as nat).state == State::Rest,
        run_samples(e, (e.prev + 1) as nat).prev == 0,
    decreases e.prev,
{
    if e.prev == 0 {
        assert(run_samples(e, 1) == step(run_samples(e, 0)));
    } else {
        let next = step(e);
        lemma_release_step_lowers(e);
        lemma_release_reaches_rest(next);
        let p = e.prev as nat;
        let q = (next.prev + 1) as nat;
        assert(run_samples(e, 1) == step(run_samples(e, 0)));
        lemma_run_samples_add(e, 1, p);
        lemma_run_samples_add(next, q, (p - q) as nat);
        lemma_rest_is_silent(run_samples(next, q), (p - q) as nat);
    }
}

/// During the decay, a level between the sustain level and the velocity
/// stays there and never rises.
pub proof fn lemma_decay_stays_between(e: EnvelopeView)
    requires
        e.wf(),
        e.state == State::Decay,
        e.sustain_level() <= e.prev <= e.velocity,
    ensures
        step(e).state == State::Decay ==> e.sustain_level() <= step(e).prev <= e.velocity,
        step(e).prev <= e.prev,
{
    lemma_scaled_bounds(e.params.sustain as int, e.velocity as int);
    lemma_approach_between(e.prev, e.sustain_level() as u32, e.params.decay);
}

/// One attack sample moves the level by at most one attack step.
pub proof fn lemma_attack_step(e: EnvelopeView)
    requires
        e.wf(),
        e.state == State::Attack,
    ensures
        distance(step(e).prev, e.prev) <= attack_step_bound(e.prev, e.velocity, e.params.attack),
{
    lemma_scaled_bounds(e.params.attack as int, distance(e.prev, e.velocity));
}

/// Retriggering does not jump: after `On` arrives at level `p` (mid-release or
/// anywhere else), the next sample differs from `p` by at most one attack step.
pub proof fn lemma_retrigger_continuity(e: EnvelopeView, velocity: u32)
    requires
        e.wf(),
        velocity <= UNITY,
    ensures
        receive(e, Message::On { velocity }).prev == e.prev,
        distance(step(receive(e, Message::On { velocity })).prev, e.prev) <= attack_step_bound(
            e.prev,
            velocity,
            e.params.attack,
        ),
{
    lemma_attack_step(receive(e, Message::On { velocity }));
}

/// A logarithmic ADSR envelope with smooth retrigger operation.
pub struct Envelope {
    params: Adsr,
    state: State,
    velocity: u32,
    prev: u32,
}

impl View for Envelope {
    type V = EnvelopeView;

    closed spec fn view(&self) -> EnvelopeView {
        EnvelopeView {
            params: self.params,
            state: self.state,
            velocity: self.velocity,
            prev: self.prev,
        }
    }
}

impl Envelope {
    /// A silent envelope at rest with the shape `params`.
    pub fn new(params: Adsr) -> (r: Envelope)
        requires
            params.wf(),
        ensures
            r@ == (EnvelopeView { params, state: State::Rest, velocity: 0, prev: 0 }),
            r@.wf(),
    {
        Envelope { params, state: State::Rest, velocity: 0, prev: 0 }
    }

    /// The stage the envelope is in.
    pub fn state(&self) -> (r: State)
        ensures
            r == self@.state,
    {
        self.state
    }

    /// The last level the envelope gave.
    pub fn level(&self) -> (r: u32)
        ensures
            r == self@.prev,
    {
        self.prev
    }

    /// Writes the envelope's next levels to `buffer`, replacing all values.
    /// Use it as an envelope generator for several destinations; call it
    /// once per vector.
    pub fn process(&mut self, buffer: &mut [u32])
        requires
            old(self)@.wf(),
        ensures
            final(buffer)@.len() == old(buffer)@.len(),
            forall|i: int|
                0 <= i < final(buffer)@.len() ==> final(buffer)@[i] == run_samples(
                    old(self)@,
                    (i + 1) as nat,
                ).prev,
            final(self)@ == run_samples(old(self)@, old(buffer)@.len()),
    {
        let n = buffer.len();
        let mut i: usize = 0;
        while i < n
            invariant
                0 <= i <= n,
                n == buffer@.len(),
                self@ == run_samples(old(self)@, i as nat),
                self@.wf(),
                forall|j: int| 0 <= j < i ==> buffer@[j] == run_samples(old(self)@, (j + 1) as nat).prev,
            decreases n - i,
        {
            buffer[i] = self.process_sample();
            i = i + 1;
        }
    }

    /// Multiplies all values of an interleaved stereo `buffer` by the
    /// envelope: both values of a frame by the same, next, level.
    pub fn process_apply(&mut self, buffer: &mut [u32])
        requires
            old(self)@.wf(),
            old(buffer)@.len() % 2 == 0,
        ensures
            final(buffer)@.len() == old(buffer)@.len(),
            forall|i: int|
                0 <= i < final(buffer)@.len() ==> final(buffer)@[i] == scaled(
                    run_samples(old(self)@, (i / 2 + 1) as nat).prev as int,
                    old(buffer)@[i] as int,
                ),
            final(self)@ == run_samples(old(self)@, (old(buffer)@.len() / 2) as nat),
    {
        let n = buffer.len();
        let mut i: usize = 0;
        while i < n
            invariant
                0 <= i <= n,
                i % 2 == 0,
                n % 2 == 0,
                n == buffer@.len(),
                self@ == run_samples(old(self)@, (i / 2) as nat),
                self@.wf(),
                forall|j: int|
                    0 <= j < i ==> buffer@[j] == scaled(
                        run_samples(old(self)@, (j / 2 + 1) as nat).prev as int,
                        old(buffer)@[j] as int,
                    ),
                forall|j: int| i <= j < n ==> buffer@[j] == old(buffer)@[j],
            decreases n - i,
        {
            let level = self.process_sample();
            buffer[i] = mul_level(level, buffer[i]);
            buffer[i + 1] = mul_level(level, buffer[i + 1]);
            assert(i as int / 2 + 1 == (i as int + 2) / 2);
            assert((i as int + 1) / 2 + 1 == (i as int + 2) / 2);
            i = i + 2;
        }
    }

    /// Sends `message` to the envelope:
    ///  - `On { velocity }` begins the attack, from the current level
    ///  - `Off` begins the release, from the current level
    pub fn message(&mut self, message: Message)
        requires
            old(self)@.wf(),
            message.wf(),
        ensures
            final(self)@ == receive(old(self)@, message),
            final(self)@.wf(),
    {
        match message {
            Message::On { velocity } => {
                self.state = State::Attack;
                self.velocity = velocity;
            },
            Message::Off => {
                self.state = State::Release;
            },
        }
    }

    /// Replaces the envelope's shape; the stage and level are kept.
    pub fn params(&mut self, params: Adsr)
        requires
            old(self)@.wf(),
            params.wf(),
        ensures
            final(self)@ == (EnvelopeView { params, ..old(self)@ }),
            final(self)@.wf(),
    {
        self.params = params;
    }

    /// One sample of an exponential approach from `prev` to `target`.
    fn approach_exec(prev: u32, target: u32, c: u32) -> (r: u32)
        requires
            c <= UNITY,
        ensures
            r == approach(prev, target, c),
    {
        let d = if prev >= target {
            prev - target
        } else {
            target - prev
        };
        if d < SNAP_TOLERANCE {
            target
        } else if prev < target {
            target - mul_level(c, d)
        } else {
            proof {
                lemma_scaled_bounds(c as int, d as int);
            }
            target + mul_level(c, d)
        }
    }

    /// Advances the envelope by one sample and returns the new level:
    /// `Rest` holds its level, `Attack` approaches the velocity, `Decay` the
    /// sustain level, and `Release` silence.
    pub fn process_sample(&mut self) -> (r: u32)
        requires
            old(self)@.wf(),
        ensures
            final(self)@ == step(old(self)@),
            final(self)@.wf(),
            r == final(self)@.prev,
    {
        proof {
            lemma_step_wf(self@);
        }
        match self.state {
            State::Rest => {},
            State::Attack => {
                let velocity = self.velocity;
                if self.prev >= velocity && self.prev - velocity <= ATTACK_TOLERANCE {
                    self.state = State::Decay;
                    self.prev = velocity;
                } else {
                    self.prev = Self::approach_exec(self.prev, velocity, self.params.attack);
                }
            },
            State::Decay => {
                let sustain = mul_level(self.params.sustain, self.velocity);
                if self.prev <= sustain {
                    self.state = State::Rest;
                    self.prev = sustain;
                } else {
                    self.prev = Self::approach_exec(self.prev, sustain, self.params.decay);
                }
            },
            State::Release => {
                if self.prev == 0 {
                    self.state = State::Rest;
                } else {
                    self.prev = Self::approach_exec(self.prev, 0, self.params.release);
                }
            },
        }
        self.prev
    }
}

} // verus!
