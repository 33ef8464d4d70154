use kick_synth::lerp;
use kick_synth::OscillatorState;

const PHASE_SCALE: u64 = 0x1_0000_0000;

#[test]
fn advance_returns_phase_before_advancing() {
    let mut osc = OscillatorState { sample_rate: 48_000, phase: 12_345 };
    assert_eq!(osc.advance(480_000), 12_345);
}

#[test]
fn advance_accumulates_exact_increment() {
    // 480 Hz at 48 kHz is one hundredth of a cycle per sample.
    let mut osc = OscillatorState { sample_rate: 48_000, phase: 0 };
    osc.advance(480_000);
    assert_eq!(osc.phase, PHASE_SCALE / 100);
    osc.advance(480_000);
    assert_eq!(osc.phase, 2 * (PHASE_SCALE / 100));
}

#[test]
fn phase_wraps_within_one_cycle() {
    // 1.5 cycles per sample: the phase wraps rather than growing.
    let mut osc = OscillatorState { sample_rate: 1, phase: 0 };
    osc.advance(1_500);
    assert_eq!(osc.phase, PHASE_SCALE / 2);
    osc.advance(1_500);
    assert_eq!(osc.phase, 0);
}

#[test]
fn phase_stays_in_range_for_huge_ratios() {
    // Arbitrarily large frequency-to-sample-rate ratios over many calls
    // never push the phase out of [0, 1) cycles.
    let mut osc = OscillatorState { sample_rate: 1, phase: 0 };
    for _ in 0..1_000 {
        osc.advance(u64::MAX);
        assert!(osc.phase < PHASE_SCALE);
    }
    let mut audio = OscillatorState { sample_rate: 44_100, phase: 0 };
    for _ in 0..10_000 {
        audio.advance(20_000_000_000);
        assert!(audio.phase < PHASE_SCALE);
    }
}

#[test]
fn default_oscillator_is_at_rest() {
    let osc = OscillatorState::default();
    assert_eq!(osc.sample_rate, 0);
    assert_eq!(osc.phase, 0);
}

#[test]
fn pitch_mapper_hits_documented_points() {
    // start_freq = 1000 Hz, end_freq = 41 Hz, in thousandths of a hertz.
    let start: u64 = 1_000_000;
    let end: u64 = 41_000;
    assert_eq!(lerp(1_000_000, end, start), 1_000_000); // e = 1.0 -> 1000 Hz
    assert_eq!(lerp(0, end, start), 41_000); // e = 0.0 -> 41 Hz
    assert_eq!(lerp(500_000, end, start), 520_500); // e = 0.5 -> 520.5 Hz
}

#[test]
fn pitch_mapper_handles_rising_sweeps() {
    // Endpoints in either order stay within the endpoint interval.
    let f = lerp(250_000, 100_000, 200_000);
    assert_eq!(f, 125_000);
    let g = lerp(250_000, 200_000, 100_000);
    assert_eq!(g, 175_000);
}
