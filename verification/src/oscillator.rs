use vstd::prelude::*;

use vstd::arithmetic::div_mod::{
    lemma_add_mod_noop, lemma_div_is_ordered, lemma_div_multiples_vanish, lemma_div_pos_is_pos,
    lemma_fundamental_div_mod, lemma_mod_multiples_vanish,
};
use vstd::arithmetic::mul::lemma_mul_inequality;

use crate::wavetable::{TableStore, AMPLITUDE, TABLE_SIZE, TABLE_SIZE_MASK};

verus! {

/// The five waveform kinds an oscillator can select.
#[derive(Clone, Copy, Debug, PartialEq, Eq, Structural)]
pub enum WavetableType {
    Sine,
    Triangle,
    Saw,
    Square,
    Noise,
}

impl Default for WavetableType {
    /// The default waveform is a sine.
    fn default() -> (r: Self)
        ensures
            r == WavetableType::Sine,
    {
        WavetableType::Sine
    }
}

/// Sub-index resolution of the oscillator's phase: one table position spans
/// this many phase units, so the low bits of a phase value are the fractional
/// position between two adjacent samples.
pub const PHASE_FRAC_ONE: u64 = 65536;

/// One full table traversal in phase units: TABLE_SIZE * PHASE_FRAC_ONE.
/// The phase always stays below this bound, wrapping by subtraction.
pub const PHASE_MOD: u64 = 2147483648;

/// The per-sample phase increment derived from a frequency and a sample rate
/// (both in millihertz): frequency * TABLE_SIZE / sample_rate table positions,
/// expressed on the fixed-point phase grid.
pub open spec fn delta_spec(frequency: int, sample_rate: int) -> int {
    frequency * (PHASE_MOD as int) / sample_rate
}

/// The phase increment never exceeds one full table traversal while the
/// frequency stays at or below the sample rate.
pub proof fn lemma_delta_bounded(frequency: int, sample_rate: int)
    requires
        1 <= frequency <= sample_rate,
    ensures
        0 <= delta_spec(frequency, sample_rate) <= PHASE_MOD,
{
    let m = PHASE_MOD as int;
    lemma_div_pos_is_pos(frequency * m, sample_rate);
    lemma_mul_inequality(frequency, sample_rate, m);
    lemma_div_is_ordered(frequency * m, sample_rate * m, sample_rate);
    lemma_div_multiples_vanish(m, sample_rate);
}

/// A wavetable oscillator: the selected waveform kind plus exclusive playback
/// state. `frequency` and `sample_rate` are in millihertz; `delta` and
/// `continuous_index` are fixed-point phase values. The oscillator only
/// selects a table in a shared store, it never owns or mutates one.
pub struct Wavetable {
    /// Which of the store's tables the oscillator reads.
    pub kind: WavetableType,
    /// Playback frequency in millihertz: positive, at most `sample_rate`.
    pub frequency: u64,
    /// Sample rate in millihertz: positive.
    pub sample_rate: u64,
    /// Phase increment per sample read, kept at
    /// `delta_spec(frequency, sample_rate)`.
    pub delta: u64,
    /// Current fractional read position, always in [0, PHASE_MOD).
    pub continuous_index: u64,
}

impl Wavetable {
    /// Playback state invariant: the frequency is positive and within the
    /// sample rate (so the phase increment is at most one table traversal),
    /// the increment matches the frequency and rate, and the phase is within
    /// the table span.
    pub open spec fn wf(&self) -> bool {
        &&& 1 <= self.frequency <= self.sample_rate
        &&& self.delta == delta_spec(self.frequency as int, self.sample_rate as int)
        &&& self.continuous_index < PHASE_MOD
    }

    /// Recompute the phase increment from the current frequency and rate.
    fn update_delta(&mut self)
        requires
            1 <= old(self).frequency <= old(self).sample_rate,
        ensures
            final(self).kind == old(self).kind,
            final(self).frequency == old(self).frequency,
            final(self).sample_rate == old(self).sample_rate,
            final(self).continuous_index == old(self).continuous_index,
            final(self).delta == delta_spec(
                old(self).frequency as int,
                old(self).sample_rate as int,
            ),
            final(self).delta <= PHASE_MOD,
    {
        proof {
            lemma_delta_bounded(self.frequency as int, self.sample_rate as int);
        }
        let num: u128 = (self.frequency as u128) * (PHASE_MOD as u128);
        let d: u128 = num / (self.sample_rate as u128);
        self.delta = d as u64;
    }

    /// A fresh oscillator: sine waveform, 440 Hz at a 44.1 kHz sample rate,
    /// phase at the start of the table.
    pub fn new() -> (r: Self)
        ensures
            r.wf(),
            r.kind == WavetableType::Sine,
            r.frequency == 440000,
            r.sample_rate == 44100000,
            r.delta == delta_spec(440000, 44100000),
            r.continuous_index == 0,
    {
        let mut r = Wavetable {
            kind: WavetableType::Sine,
            frequency: 440000,
            sample_rate: 44100000,
            delta: 0,
            continuous_index: 0,
        };
        r.update_delta();
        r
    }

    /// Select the waveform to oscillate over. The phase is deliberately left
    /// untouched: switching mid-stream changes what the very next read
    /// returns without resetting the playback position, so a sharp level
    /// difference between the tables is audible as-is.
    pub fn set_wavetable(&mut self, kind: &WavetableType)
        ensures
            final(self).kind == *kind,
            final(self).frequency == old(self).frequency,
            final(self).sample_rate == old(self).sample_rate,
            final(self).delta == old(self).delta,
            final(self).continuous_index == old(self).continuous_index,
            old(self).wf() ==> final(self).wf(),
    {
        self.kind = *kind;
    }

    /// Store a new sample rate (millihertz) and recompute the phase increment
    /// at once, so the very next sample read already advances at the new
    /// rate. The rate must stay at or above the current frequency.
    pub fn set_sample_rate(&mut self, sample_rate: u64)
        requires
            old(self).wf(),
            old(self).frequency <= sample_rate,
        ensures
            final(self).wf(),
            final(self).kind == old(self).kind,
            final(self).frequency == old(self).frequency,
            final(self).sample_rate == sample_rate,
            final(self).continuous_index == old(self).continuous_index,
            final(self).delta == delta_spec(old(self).frequency as int, sample_rate as int),
    {
        self.sample_rate = sample_rate;
        self.update_delta();
    }

    /// Store a new frequency (millihertz) and recompute the phase increment
    /// at once, so the very next sample read already advances at the new
    /// frequency. The frequency must be positive and within the sample rate.
    pub fn set_frequency(&mut self, frequency: u64)
        requires
            old(self).wf(),
            1 <= frequency <= old(self).sample_rate,
        ensures
            final(self).wf(),
            final(self).kind == old(self).kind,
            final(self).frequency == frequency,
            final(self).sample_rate == old(self).sample_rate,
            final(self).continuous_index == old(self).continuous_index,
            final(self).delta == delta_spec(frequency as int, old(self).sample_rate as int),
    {
        self.frequency = frequency;
        self.update_delta();
    }
}

/// Linear interpolation between adjacent samples `a` and `b` by `frac` of
/// PHASE_FRAC_ONE, rounded towards `a`.
pub open spec fn lerp_spec(a: int, b: int, frac: int) -> int {
    if b >= a {
        a + (b - a) * frac / (PHASE_FRAC_ONE as int)
    } else {
        a - (a - b) * frac / (PHASE_FRAC_ONE as int)
    }
}

/// The phase position after one sample read: advance by the increment, then
/// wrap by a single subtraction of the full table span.
pub open spec fn advance_spec(phase: int, delta: int) -> int {
    if phase + delta >= PHASE_MOD as int {
        phase + delta - PHASE_MOD as int
    } else {
        phase + delta
    }
}

/// The sample an oscillator in state `o` reads from store `s`: the entry of
/// the selected table at the integer part of the phase, interpolated with the
/// following entry (wrapping to the table start after the last index) by the
/// fractional part of the phase.
pub open spec fn sample_spec(o: Wavetable, s: TableStore) -> int {
    let t = s.spec_table_for(o.kind);
    let idx = o.continuous_index as int / (PHASE_FRAC_ONE as int);
    let frac = o.continuous_index as int % (PHASE_FRAC_ONE as int);
    let next = if idx == TABLE_SIZE_MASK {
        0
    } else {
        idx + 1
    };
    lerp_spec(t[idx] as int, t[next] as int, frac)
}

/// The oscillator state after one sample read: only the phase moves.
pub open spec fn step_spec(o: Wavetable) -> Wavetable {
    Wavetable {
        continuous_index: advance_spec(o.continuous_index as int, o.delta as int) as u64,
        ..o
    }
}

impl Default for Wavetable {
    /// The same configuration as `new`: a sine at 440 Hz, 44.1 kHz.
    fn default() -> (r: Self)
        ensures
            r.wf(),
            r.kind == WavetableType::Sine,
            r.frequency == 440000,
            r.sample_rate == 44100000,
            r.delta == delta_spec(440000, 44100000),
            r.continuous_index == 0,
    {
        Wavetable::new()
    }
}

/// Linear interpolation between adjacent samples `a` and `b` by `frac` of
/// PHASE_FRAC_ONE, rounded towards `a`. The result always stays between the
/// two samples.
fn lerp(a: i64, b: i64, frac: u64) -> (r: i64)
    requires
        -AMPLITUDE <= a <= AMPLITUDE,
        -AMPLITUDE <= b <= AMPLITUDE,
        frac < PHASE_FRAC_ONE,
    ensures
        r == lerp_spec(a as int, b as int, frac as int),
        -AMPLITUDE <= r <= AMPLITUDE,
{
    if b >= a {
        let d: i64 = b - a;
        assert(0 <= d * (frac as i64) <= d * 65536) by (nonlinear_arith)
            requires
                0 <= d,
                0 <= frac < 65536,
        ;
        let gap: i64 = (d * (frac as i64)) / 65536;
        assert(gap <= d) by (nonlinear_arith)
            requires
                0 <= d,
                gap == d * (frac as i64) / 65536,
                d * (frac as i64) <= d * 65536,
        ;
        a + gap
    } else {
        let d: i64 = a - b;
        assert(0 <= d * (frac as i64) <= d * 65536) by (nonlinear_arith)
            requires
                0 <= d,
                0 <= frac < 65536,
        ;
        let gap: i64 = (d * (frac as i64)) / 65536;
        assert(gap <= d) by (nonlinear_arith)
            requires
                0 <= d,
                gap == d * (frac as i64) / 65536,
                d * (frac as i64) <= d * 65536,
        ;
        a - gap
    }
}

impl Wavetable {
    /// Advance one sample: read the selected table at the integer phase
    /// position, interpolate with the following entry by the fractional
    /// position, then move the phase forward by `delta`, wrapping at the
    /// table end. This is the per-sample hot path: it allocates nothing and
    /// has no fallible case.
    pub fn get_next_sample(&mut self, tables: &TableStore) -> (r: i64)
        requires
            old(self).wf(),
            tables.wf(),
        ensures
            final(self).wf(),
            *final(self) == step_spec(*old(self)),
            r == sample_spec(*old(self), *tables),
            -AMPLITUDE <= r <= AMPLITUDE,
    {
        proof {
            lemma_delta_bounded(self.frequency as int, self.sample_rate as int);
        }
        let index: usize = (self.continuous_index / PHASE_FRAC_ONE) as usize;
        assert(index < TABLE_SIZE);
        let next_index: usize = if index == TABLE_SIZE_MASK {
            0
        } else {
            index + 1
        };
        let frac: u64 = self.continuous_index % PHASE_FRAC_ONE;
        let table = tables.table_for(&self.kind);
        let sample: i64 = table.index(index);
        let next_sample: i64 = table.index(next_index);
        assert(-AMPLITUDE <= sample <= AMPLITUDE);
        assert(-AMPLITUDE <= next_sample <= AMPLITUDE);
        let r: i64 = lerp(sample, next_sample, frac);
        let sum: u64 = self.continuous_index + self.delta;
        self.continuous_index = if sum >= PHASE_MOD {
            sum - PHASE_MOD
        } else {
            sum
        };
        r
    }
}

/// One sample read is a pure function of the oscillator state and the store:
/// equal states reading from the same store yield the same sample and the
/// same successor state, so a freshly configured oscillator replays a
/// deterministic, repeatable sequence.
pub proof fn lemma_oscillator_deterministic(o1: Wavetable, o2: Wavetable, s: TableStore)
    requires
        o1 == o2,
    ensures
        sample_spec(o1, s) == sample_spec(o2, s),
        step_spec(o1) == step_spec(o2),
{
}

/// The phase position after `k` consecutive sample reads at increment
/// `delta`.
pub open spec fn advance_k_spec(phase: int, delta: int, k: nat) -> int
    decreases k,
{
    if k == 0 {
        phase
    } else {
        advance_spec(advance_k_spec(phase, delta, (k - 1) as nat), delta)
    }
}

/// Advancing `k` samples lands on the start phase plus `k` increments, taken
/// modulo one full table traversal: the single-subtraction wraparound agrees
/// with true modular arithmetic.
pub proof fn lemma_advance_k_is_mod(phase: int, delta: int, k: nat)
    requires
        0 <= phase < PHASE_MOD,
        0 <= delta <= PHASE_MOD,
    ensures
        advance_k_spec(phase, delta, k) == (phase + k * delta) % (PHASE_MOD as int),
    decreases k,
{
    let m = PHASE_MOD as int;
    if k == 0 {
        assert(k * delta == 0) by (nonlinear_arith)
            requires
                k == 0,
        ;
    } else {
        lemma_advance_k_is_mod(phase, delta, (k - 1) as nat);
        let x = phase + (k - 1) * delta;
        lemma_add_mod_noop(x, delta, m);
        assert((k - 1) * delta + delta == k * delta) by (nonlinear_arith);
    }
}

/// Periodicity of the wraparound: after `k` reads whose combined phase
/// travel `k * delta` is a whole number of table traversals (for instance
/// k = span / delta when `delta` divides the span), the phase returns
/// exactly to its starting value.
pub proof fn lemma_advance_periodicity(phase: int, delta: int, k: nat)
    requires
        0 <= phase < PHASE_MOD,
        0 <= delta <= PHASE_MOD,
        (k * delta) % (PHASE_MOD as int) == 0,
    ensures
        advance_k_spec(phase, delta, k) == phase,
{
    let m = PHASE_MOD as int;
    lemma_advance_k_is_mod(phase, delta, k);
    lemma_fundamental_div_mod(k * delta, m);
    let q = (k * delta) / m;
    lemma_mod_multiples_vanish(q, phase, m);
    assert(phase + k * delta == m * q + phase);
}

/// The oscillator state after `k` consecutive sample reads.
pub open spec fn step_k_spec(o: Wavetable, k: nat) -> Wavetable
    decreases k,
{
    if k == 0 {
        o
    } else {
        step_spec(step_k_spec(o, (k - 1) as nat))
    }
}

/// Reading samples moves only the phase, and moves it exactly as
/// `advance_k_spec` says: the waveform kind and the playback parameters are
/// untouched, and the state stays well-formed.
pub proof fn lemma_step_k_unfolds(o: Wavetable, k: nat)
    requires
        o.wf(),
    ensures
        step_k_spec(o, k).wf(),
        step_k_spec(o, k).kind == o.kind,
        step_k_spec(o, k).frequency == o.frequency,
        step_k_spec(o, k).sample_rate == o.sample_rate,
        step_k_spec(o, k).delta == o.delta,
        step_k_spec(o, k).continuous_index == advance_k_spec(
            o.continuous_index as int,
            o.delta as int,
            k,
        ),
    decreases k,
{
    lemma_delta_bounded(o.frequency as int, o.sample_rate as int);
    if k > 0 {
        lemma_step_k_unfolds(o, (k - 1) as nat);
    }
}

/// Switching the waveform never resets or otherwise alters the phase: an
/// oscillator that differs only in its selected waveform kind follows exactly
/// the same phase trajectory, however many samples are read, so only which
/// table the reads consult changes.
pub proof fn lemma_waveform_switch_keeps_phase(o: Wavetable, kind: WavetableType, k: nat)
    requires
        o.wf(),
    ensures
        step_k_spec((Wavetable { kind: kind, ..o }), k).continuous_index == step_k_spec(
            o,
            k,
        ).continuous_index,
{
    let switched = Wavetable { kind: kind, ..o };
    lemma_step_k_unfolds(switched, k);
    lemma_step_k_unfolds(o, k);
}

/// Oscillator periodicity: after exactly `k` sample reads whose combined
/// phase travel `k * delta` is a whole number of full table traversals, the
/// oscillator is back in precisely its starting state.
pub proof fn lemma_oscillator_periodicity(o: Wavetable, k: nat)
    requires
        o.wf(),
        (k * o.delta) % (PHASE_MOD as int) == 0,
    ensures
        step_k_spec(o, k) == o,
{
    lemma_delta_bounded(o.frequency as int, o.sample_rate as int);
    lemma_step_k_unfolds(o, k);
    lemma_advance_periodicity(o.continuous_index as int, o.delta as int, k);
}

} // verus!
