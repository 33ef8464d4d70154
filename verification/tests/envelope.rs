use kick_synth::AhdsrStage;
use kick_synth::AhdsrState;
use kick_synth::AhdsrValues;

const SCALE: u64 = 1_000_000;

fn fresh(values: AhdsrValues) -> AhdsrState {
    let mut env = AhdsrState::default();
    env.apply_params(values);
    env
}

#[test]
fn untriggered_envelope_is_silent() {
    let mut env = fresh(AhdsrValues::ahdsr(3, 3, 3, 500_000, 3));
    for _ in 0..10 {
        assert_eq!(env.advance(), 0);
        assert_eq!(env.current_stage, AhdsrStage::NotTriggered);
    }
}

#[test]
fn attack_follows_quadratic_ease_from_zero() {
    let mut env = fresh(AhdsrValues::ahdsr(5, 3, 3, 0, 3));
    env.trigger(true);
    // From a silent start the attack rises as SCALE * (k / 5)^2.
    assert_eq!(env.advance(), 0);
    assert_eq!(env.advance(), 40_000);
    assert_eq!(env.advance(), 160_000);
    assert_eq!(env.advance(), 360_000);
    assert_eq!(env.advance(), 640_000);
    assert_eq!(env.current_stage, AhdsrStage::Attack);
}

#[test]
fn stage_transition_never_early_and_lands_on_duration() {
    // Stage-timing scenario: an attack of 5 samples keeps the envelope in
    // Attack for exactly 5 calls; the 6th call moves to Hold.
    let mut env = fresh(AhdsrValues::ahdsr(5, 4, 3, 0, 3));
    env.trigger(true);
    for _ in 0..5 {
        env.advance();
        assert_eq!(env.current_stage, AhdsrStage::Attack);
    }
    let v = env.advance();
    assert_eq!(env.current_stage, AhdsrStage::Hold);
    // The first Hold sample sits at the shared boundary level of one.
    assert_eq!(v, SCALE);
}

#[test]
fn zero_length_stages_are_skipped() {
    // Triggering Attack with attack = hold = decay = 0 and sustain = 0.3
    // reaches Sustain, output 0.3, on the very first advance.
    let mut env = fresh(AhdsrValues::ahdsr(0, 0, 0, 300_000, 5));
    env.trigger(true);
    assert_eq!(env.advance(), 300_000);
    assert_eq!(env.current_stage, AhdsrStage::Sustain);
}

#[test]
fn decay_reaches_sustain_continuously() {
    // Natural Decay -> Sustain boundary: the decay segment heads to the
    // sustain level and the Sustain stage outputs exactly that level.
    let mut env = fresh(AhdsrValues::ahdsr(0, 0, 2, 400_000, 3));
    env.trigger(true);
    assert_eq!(env.advance(), SCALE); // decay starts at full level
    assert_eq!(env.advance(), 850_000); // SCALE - 600_000 * 1 / 4
    assert_eq!(env.advance(), 400_000); // boundary sample: exactly sustain
    assert_eq!(env.current_stage, AhdsrStage::Sustain);
    assert_eq!(env.advance(), 400_000);
}

#[test]
fn release_reaches_zero_continuously() {
    // Natural Release -> NotTriggered boundary: the release segment heads to
    // zero and the first NotTriggered sample is exactly zero.
    let mut env = fresh(AhdsrValues::ahdsr(0, 0, 0, 800_000, 2));
    env.trigger(true);
    assert_eq!(env.advance(), 800_000); // resting in Sustain
    env.trigger(false);
    assert_eq!(env.advance(), 800_000); // release starts from sustain level
    assert_eq!(env.advance(), 600_000); // 800_000 - 800_000 * 1 / 4
    assert_eq!(env.advance(), 0); // boundary sample: exactly zero
    assert_eq!(env.current_stage, AhdsrStage::NotTriggered);
}

#[test]
fn retrigger_restarts_from_current_value() {
    // Retrigger scenario: trigger(true) while mid-Decay restarts the attack
    // from the current level, not from zero, with no discontinuity.
    let mut env = fresh(AhdsrValues::ahdsr(4, 0, 10, 0, 3));
    env.trigger(true);
    let mut last: u64 = 0;
    for _ in 0..7 {
        last = env.advance();
    }
    assert_eq!(env.current_stage, AhdsrStage::Decay);
    assert!(last > 0 && last < SCALE);
    env.trigger(true);
    assert_eq!(env.current_stage, AhdsrStage::Attack);
    assert_eq!(env.current, last);
    // The first sample of the restarted attack equals the captured level.
    assert_eq!(env.advance(), last);
}

#[test]
fn release_from_idle_stays_silent() {
    let mut env = fresh(AhdsrValues::ahdsr(2, 2, 2, 700_000, 4));
    env.trigger(false);
    assert_eq!(env.current_stage, AhdsrStage::Release);
    // Release captured a level of zero, so every sample stays at zero.
    for _ in 0..6 {
        assert_eq!(env.advance(), 0);
    }
    assert_eq!(env.current_stage, AhdsrStage::NotTriggered);
}

#[test]
fn sustain_level_is_clamped() {
    let mut env = AhdsrState::default();
    env.apply_params(AhdsrValues::ahdsr(0, 0, 0, 2_000_000, 1));
    assert_eq!(env.params.sustain, SCALE);
    env.trigger(true);
    assert_eq!(env.advance(), SCALE);
}

#[test]
fn time_for_stage_reads_durations() {
    let v = AhdsrValues::ahdsr(1, 2, 3, 900_000, 4);
    assert_eq!(v.time_for_stage(AhdsrStage::NotTriggered), None);
    assert_eq!(v.time_for_stage(AhdsrStage::Attack), Some(1));
    assert_eq!(v.time_for_stage(AhdsrStage::Hold), Some(2));
    assert_eq!(v.time_for_stage(AhdsrStage::Decay), Some(3));
    assert_eq!(v.time_for_stage(AhdsrStage::Sustain), None);
    assert_eq!(v.time_for_stage(AhdsrStage::Release), Some(4));
}

#[test]
fn ahdr_constructors_fill_levels() {
    let all = AhdsrValues::ahdr_all(7);
    assert_eq!(all.attack, 7);
    assert_eq!(all.hold, 7);
    assert_eq!(all.decay, 7);
    assert_eq!(all.release, 7);
    assert_eq!(all.sustain, SCALE);
    let some = AhdsrValues::ahdr(1, 2, 3, 4);
    assert_eq!(some.sustain, SCALE);
    assert_eq!(some.decay, 3);
}

#[test]
fn next_cycles_through_all_stages() {
    let order = [
        AhdsrStage::NotTriggered,
        AhdsrStage::Attack,
        AhdsrStage::Hold,
        AhdsrStage::Decay,
        AhdsrStage::Sustain,
        AhdsrStage::Release,
        AhdsrStage::NotTriggered,
    ];
    for w in order.windows(2) {
        assert_eq!(w[0].next(), w[1]);
    }
}

#[test]
fn sustain_follows_parameter_changes() {
    let mut env = fresh(AhdsrValues::ahdsr(0, 0, 0, 250_000, 2));
    env.trigger(true);
    assert_eq!(env.advance(), 250_000);
    env.apply_params(AhdsrValues::ahdsr(0, 0, 0, 750_000, 2));
    assert_eq!(env.advance(), 750_000);
}
