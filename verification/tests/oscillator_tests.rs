use tone_generator::oscillator::{Wavetable, WavetableType, PHASE_FRAC_ONE, PHASE_MOD};
use tone_generator::wavetable::initialize_tables;

#[test]
fn test_default_oscillator() {
    let o = Wavetable::default();
    assert_eq!(o.kind, WavetableType::Sine);
    assert_eq!(o.frequency, 440_000);
    assert_eq!(o.sample_rate, 44_100_000);
    let expected_delta = (440_000u128 * PHASE_MOD as u128 / 44_100_000u128) as u64;
    assert_eq!(o.delta, expected_delta);
    assert_eq!(o.continuous_index, 0);
}

#[test]
fn test_oscillator_determinism() {
    let tables = initialize_tables();
    let mut a = Wavetable::new();
    let mut b = Wavetable::new();
    for _ in 0..1000 {
        assert_eq!(a.get_next_sample(&tables), b.get_next_sample(&tables));
    }
    assert_eq!(a.continuous_index, b.continuous_index);
}

#[test]
fn test_oscillator_periodicity() {
    let tables = initialize_tables();
    let mut o = Wavetable::new();
    // 1 Hz at a 64 Hz sample rate: the phase increment divides the table span
    // exactly, one traversal every 64 samples.
    o.set_frequency(1_000);
    o.set_sample_rate(64_000);
    assert_eq!(o.delta, PHASE_MOD / 64);
    let start = o.continuous_index;
    for _ in 0..64 {
        o.get_next_sample(&tables);
    }
    assert_eq!(o.continuous_index, start);
}

#[test]
fn test_waveform_switch_keeps_phase() {
    let tables = initialize_tables();
    let mut switched = Wavetable::new();
    let mut stayed = Wavetable::new();
    for _ in 0..10 {
        switched.get_next_sample(&tables);
        stayed.get_next_sample(&tables);
    }
    let phase = switched.continuous_index;
    switched.set_wavetable(&WavetableType::Square);
    // switching neither resets nor otherwise alters the phase...
    assert_eq!(switched.continuous_index, phase);
    // ...and the very next read already comes from the new table
    let s = switched.get_next_sample(&tables);
    let t = stayed.get_next_sample(&tables);
    assert_ne!(s, t);
    assert_eq!(switched.continuous_index, stayed.continuous_index);
}

#[test]
fn test_parameter_change_updates_delta_immediately() {
    let tables = initialize_tables();
    let mut o = Wavetable::new();
    // 22.05 kHz at 44.1 kHz: half a table traversal per sample
    o.set_frequency(22_050_000);
    assert_eq!(o.delta, PHASE_MOD / 2);
    o.get_next_sample(&tables);
    assert_eq!(o.continuous_index, PHASE_MOD / 2);
    // doubling the sample rate halves the increment on the very next read
    o.set_sample_rate(88_200_000);
    assert_eq!(o.delta, PHASE_MOD / 4);
    o.get_next_sample(&tables);
    assert_eq!(o.continuous_index, PHASE_MOD / 2 + PHASE_MOD / 4);
}

#[test]
fn test_interpolation_between_samples() {
    let tables = initialize_tables();
    let mut o = Wavetable::new();
    o.set_wavetable(&WavetableType::Square);
    // halfway between the last silent sample and the first full-amplitude
    // sample of the square table: exactly half the amplitude
    o.continuous_index = 16_383 * PHASE_FRAC_ONE + PHASE_FRAC_ONE / 2;
    let s = o.get_next_sample(&tables);
    assert_eq!(s, 16_384);
}

#[test]
fn test_interpolation_wraps_to_table_start() {
    let tables = initialize_tables();
    let mut o = Wavetable::new();
    o.set_wavetable(&WavetableType::Square);
    // at the last index the next sample is the table's first: interpolation
    // runs from 1.0 back down towards 0.0
    o.continuous_index = 32_767 * PHASE_FRAC_ONE + PHASE_FRAC_ONE / 2;
    let s = o.get_next_sample(&tables);
    assert_eq!(s, 16_384);
}
