//! AHDSR envelope engine: a six-stage state machine advanced one sample at a
//! time, with sample-accurate stage timing, zero-length-stage skipping, and
//! segments that restart from the level captured at each transition.
//!
//! Chosen curve shape: quadratic ease. Within a timed stage of `n` samples,
//! the output after `k` in-stage samples interpolates the segment endpoints
//! linearly in `t^2` with `t = k / n`, rounded toward the segment's start.

use vstd::prelude::*;
use vstd::arithmetic::div_mod::lemma_div_is_ordered;
use vstd::arithmetic::div_mod::lemma_div_multiples_vanish;
use vstd::arithmetic::div_mod::lemma_div_of0;
use vstd::arithmetic::div_mod::lemma_div_pos_is_pos;
use crate::LEVEL_SCALE;

verus! {

/// One stage of the envelope cycle
/// `NotTriggered -> Attack -> Hold -> Decay -> Sustain -> Release -> NotTriggered`.
/// `NotTriggered` and `Sustain` have no duration; the other four are timed.
#[derive(Copy, Clone, Debug, PartialEq, Eq, Hash)]
pub enum AhdsrStage {
    NotTriggered,
    Attack,
    Hold,
    Decay,
    Sustain,
    Release,
}

/// The stage that follows `s` in the fixed cycle.
pub open spec fn next_stage(s: AhdsrStage) -> AhdsrStage {
    match s {
        AhdsrStage::NotTriggered => AhdsrStage::Attack,
        AhdsrStage::Attack => AhdsrStage::Hold,
        AhdsrStage::Hold => AhdsrStage::Decay,
        AhdsrStage::Decay => AhdsrStage::Sustain,
        AhdsrStage::Sustain => AhdsrStage::Release,
        AhdsrStage::Release => AhdsrStage::NotTriggered,
    }
}

/// Whether `s` has a duration supplied by the working parameters.
pub open spec fn is_timed(s: AhdsrStage) -> bool {
    match s {
        AhdsrStage::NotTriggered => false,
        AhdsrStage::Sustain => false,
        _ => true,
    }
}

/// Level a segment in stage `s` starts from, given the level `captured` at
/// the last transition and the sustain level.
pub open spec fn stage_start(s: AhdsrStage, captured: int, sustain: int) -> int {
    match s {
        AhdsrStage::NotTriggered => 0,
        AhdsrStage::Attack => captured,
        AhdsrStage::Hold => LEVEL_SCALE as int,
        AhdsrStage::Decay => LEVEL_SCALE as int,
        AhdsrStage::Sustain => sustain,
        AhdsrStage::Release => captured,
    }
}

/// Level a segment in stage `s` heads toward.
pub open spec fn stage_end(s: AhdsrStage, captured: int, sustain: int) -> int {
    match s {
        AhdsrStage::NotTriggered => 0,
        AhdsrStage::Attack => LEVEL_SCALE as int,
        AhdsrStage::Hold => LEVEL_SCALE as int,
        AhdsrStage::Decay => sustain,
        AhdsrStage::Sustain => sustain,
        AhdsrStage::Release => 0,
    }
}

/// Steps until the stage cycle reaches a stage where `advance` stops
/// stepping; used as the termination measure of the skipping loop.
pub open spec fn stage_rank(s: AhdsrStage) -> nat {
    match s {
        AhdsrStage::NotTriggered => 0,
        AhdsrStage::Sustain => 1,
        AhdsrStage::Release => 1,
        AhdsrStage::Decay => 2,
        AhdsrStage::Hold => 3,
        AhdsrStage::Attack => 4,
    }
}

impl AhdsrStage {
    /// The stage that follows `self` in the fixed cycle.
    pub fn next(&self) -> (r: AhdsrStage)
        ensures
            r == next_stage(*self),
    {
        match self {
            AhdsrStage::NotTriggered => AhdsrStage::Attack,
            AhdsrStage::Attack => AhdsrStage::Hold,
            AhdsrStage::Hold => AhdsrStage::Decay,
            AhdsrStage::Decay => AhdsrStage::Sustain,
            AhdsrStage::Sustain => AhdsrStage::Release,
            AhdsrStage::Release => AhdsrStage::NotTriggered,
        }
    }

    /// The (start, end) level pair of a segment in stage `self`.
    pub fn endpoint_values(&self, current: u64, sustain: u64) -> (r: (u64, u64))
        requires
            current <= LEVEL_SCALE,
            sustain <= LEVEL_SCALE,
        ensures
            r.0 == stage_start(*self, current as int, sustain as int),
            r.1 == stage_end(*self, current as int, sustain as int),
            r.0 <= LEVEL_SCALE,
            r.1 <= LEVEL_SCALE,
    {
        match self {
            AhdsrStage::NotTriggered => (0, 0),
            AhdsrStage::Attack => (current, LEVEL_SCALE),
            AhdsrStage::Hold => (LEVEL_SCALE, LEVEL_SCALE),
            AhdsrStage::Decay => (LEVEL_SCALE, sustain),
            AhdsrStage::Sustain => (sustain, sustain),
            AhdsrStage::Release => (current, 0),
        }
    }
}

/// The envelope's working parameters: four stage durations in whole samples
/// and a sustain level in fixed-point units.
#[derive(Copy, Clone, Debug, PartialEq, Eq)]
pub struct AhdsrValues {
    pub attack: u32,
    pub hold: u32,
    pub decay: u32,
    pub sustain: u64,
    pub release: u32,
}

/// Duration of stage `s` under parameters `v`, `None` for the untimed stages.
pub open spec fn time_for_stage_spec(v: AhdsrValues, s: AhdsrStage) -> Option<u32> {
    match s {
        AhdsrStage::NotTriggered => None,
        AhdsrStage::Attack => Some(v.attack),
        AhdsrStage::Hold => Some(v.hold),
        AhdsrStage::Decay => Some(v.decay),
        AhdsrStage::Sustain => None,
        AhdsrStage::Release => Some(v.release),
    }
}

/// Duration of stage `s` in samples, taking the untimed stages as 0.
pub open spec fn stage_duration(v: AhdsrValues, s: AhdsrStage) -> u64 {
    match time_for_stage_spec(v, s) {
        Some(t) => t as u64,
        None => 0,
    }
}

/// `v` with its sustain level clamped into `[0, LEVEL_SCALE]`.
pub open spec fn clamp_values(v: AhdsrValues) -> AhdsrValues {
    AhdsrValues { sustain: if v.sustain <= LEVEL_SCALE { v.sustain } else { LEVEL_SCALE }, ..v }
}

impl AhdsrValues {
    /// Parameters with every stage duration equal to `time` and full sustain.
    pub fn ahdr_all(time: u32) -> (r: Self)
        ensures
            r == ahdr_all_spec(time),
    {
        Self::ahdr(time, time, time, time)
    }

    /// Parameters with the given durations and full sustain.
    pub fn ahdr(attack: u32, hold: u32, decay: u32, release: u32) -> (r: Self)
        ensures
            r == ahdr_spec(attack, hold, decay, release),
    {
        Self::ahdsr(attack, hold, decay, LEVEL_SCALE, release)
    }

    /// Parameters with the given durations and sustain level.
    pub fn ahdsr(attack: u32, hold: u32, decay: u32, sustain: u64, release: u32) -> (r: Self)
        ensures
            r == (AhdsrValues { attack, hold, decay, sustain, release }),
    {
        Self { attack, hold, decay, sustain, release }
    }

    /// Duration of stage `stage` in samples, `None` for the untimed stages.
    pub fn time_for_stage(&self, stage: AhdsrStage) -> (r: Option<u32>)
        ensures
            r == time_for_stage_spec(*self, stage),
    {
        match stage {
            AhdsrStage::NotTriggered => None,
            AhdsrStage::Attack => Some(self.attack),
            AhdsrStage::Hold => Some(self.hold),
            AhdsrStage::Decay => Some(self.decay),
            AhdsrStage::Sustain => None,
            AhdsrStage::Release => Some(self.release),
        }
    }
}

/// Value of `AhdsrValues::ahdsr(a, h, d, s, r)`.
pub open spec fn ahdsr_spec(attack: u32, hold: u32, decay: u32, sustain: u64, release: u32) -> AhdsrValues {
    AhdsrValues { attack, hold, decay, sustain, release }
}

/// Value of `AhdsrValues::ahdr(a, h, d, r)`.
pub open spec fn ahdr_spec(attack: u32, hold: u32, decay: u32, release: u32) -> AhdsrValues {
    ahdsr_spec(attack, hold, decay, LEVEL_SCALE, release)
}

/// Value of `AhdsrValues::ahdr_all(t)`.
pub open spec fn ahdr_all_spec(time: u32) -> AhdsrValues {
    ahdr_spec(time, time, time, time)
}

/// Quadratic-ease interpolation: the value `k / n` of the way from `s` to
/// `e`, with the fraction applied as `t^2`, rounded toward `s`.
pub open spec fn ease(s: int, e: int, k: int, n: int) -> int {
    if e >= s {
        s + (e - s) * (k * k) / (n * n)
    } else {
        s - (s - e) * (k * k) / (n * n)
    }
}

/// For `0 <= d` and `0 <= k <= n`, the eased fraction `d * k^2 / n^2` lies
/// in `[0, d]`, is `0` at `k == 0` and exactly `d` at `k == n`.
proof fn lemma_ease_fraction(d: int, k: int, n: int)
    requires
        0 <= d,
        0 <= k <= n,
        0 < n,
    ensures
        0 <= d * (k * k) / (n * n) <= d,
        k == 0 ==> d * (k * k) / (n * n) == 0,
        k == n ==> d * (k * k) / (n * n) == d,
{
    let kk = k * k;
    let nn = n * n;
    assert(0 <= kk && kk <= nn && 0 < nn) by (nonlinear_arith)
        requires
            0 <= k <= n,
            0 < n,
            kk == k * k,
            nn == n * n,
    ;
    assert(d * kk <= d * nn && 0 <= d * kk) by (nonlinear_arith)
        requires
            0 <= d,
            0 <= kk <= nn,
    ;
    lemma_div_is_ordered(d * kk, d * nn, nn);
    lemma_div_multiples_vanish(d, nn);
    assert(d * nn == nn * d) by (nonlinear_arith);
    lemma_div_pos_is_pos(d * kk, nn);
    if k == 0 {
        assert(kk == 0) by (nonlinear_arith)
            requires
                k == 0,
                kk == k * k,
        ;
        assert(d * kk == 0) by (nonlinear_arith)
            requires
                kk == 0,
        ;
        lemma_div_of0(nn);
    }
    if k == n {
        assert(d * kk == nn * d) by (nonlinear_arith)
            requires
                kk == nn,
                kk == k * k,
                nn == n * n,
        ;
    }
}

/// Arithmetic facts that let `curve` compute the eased fraction in 128-bit
/// integers without overflow.
proof fn lemma_curve_math(d: int, k: int, n: int)
    requires
        0 <= d <= LEVEL_SCALE,
        0 <= k < n,
        n <= 0xFFFF_FFFF,
    ensures
        d * k * k == d * (k * k),
        0 <= d * k <= 0x10_0000_0000_0000,
        0 <= d * k * k <= 0x1000_0000_0000_0000_0000_0000,
        0 < n * n <= 0xFFFF_FFFE_0000_0001,
        0 <= d * (k * k) / (n * n) <= d,
        k == 0 ==> d * (k * k) / (n * n) == 0,
{
    assert(d * k * k == d * (k * k)) by (nonlinear_arith);
    assert(0 <= d * k <= 0x10_0000_0000_0000 && 0 <= d * k * k <= 0x1000_0000_0000_0000_0000_0000)
        by (nonlinear_arith)
        requires
            0 <= d <= 0x100000,
            0 <= k < n,
            n <= 0x1_0000_0000,
    ;
    assert(0 < n * n <= 0xFFFF_FFFE_0000_0001) by (nonlinear_arith)
        requires
            0 < n <= 0xFFFF_FFFF,
    ;
    lemma_ease_fraction(d, k, n);
}

/// Fixed-point quadratic ease from `s` (at `k == 0`) toward `e`, `k / n` of
/// the way through a segment of `n` samples. The result always lies between
/// the two endpoints.
pub fn curve(s: u64, e: u64, k: u64, n: u64) -> (r: u64)
    requires
        s <= LEVEL_SCALE,
        e <= LEVEL_SCALE,
        k < n,
        n <= 0xFFFF_FFFF,
    ensures
        r == ease(s as int, e as int, k as int, n as int),
        s <= e ==> s <= r <= e,
        e <= s ==> e <= r <= s,
        r <= LEVEL_SCALE,
        k == 0 ==> r == s,
{
    if e >= s {
        proof {
            lemma_curve_math((e - s) as int, k as int, n as int);
        }
        let q: u128 = ((e - s) as u128) * (k as u128) * (k as u128) / ((n as u128) * (n as u128));
        s + (q as u64)
    } else {
        proof {
            lemma_curve_math((s - e) as int, k as int, n as int);
        }
        let q: u128 = ((s - e) as u128) * (k as u128) * (k as u128) / ((n as u128) * (n as u128));
        s - (q as u64)
    }
}

/// Per-instance envelope state: the current stage, how many samples of the
/// current segment have been rendered, the level captured at the last
/// transition, the most recent output level, and the working parameters.
#[derive(Copy, Clone, Debug)]
pub struct AhdsrState {
    pub current_stage: AhdsrStage,
    pub samples_since_stage_start: u64,
    pub last_value_at_transition: u64,
    pub current: u64,
    pub params: AhdsrValues,
}

/// State after forcing the envelope into `stage`: the elapsed-sample counter
/// restarts at zero and the current output level is captured as the new
/// segment's starting level.
pub open spec fn set_stage_spec(st: AhdsrState, stage: AhdsrStage) -> AhdsrState {
    let start = stage_start(stage, st.current as int, st.params.sustain as int);
    AhdsrState {
        current_stage: stage,
        samples_since_stage_start: 0,
        last_value_at_transition: start as u64,
        current: start as u64,
        ..st
    }
}

/// One sample step of the envelope: the next state and the output level.
///
/// `NotTriggered` and `Sustain` yield their constant level at once. A timed
/// stage whose duration is zero, or whose elapsed time has reached its
/// duration, transitions to the next stage in the cycle (capturing the
/// current level as the new segment's start) and the step is retried there,
/// so zero-length stages are skipped entirely. Otherwise the stage outputs
/// the eased interpolation at `t = k / n` and the counter moves to `k + 1`.
pub open spec fn env_step(st: AhdsrState) -> (AhdsrState, u64)
    decreases stage_rank(st.current_stage),
{
    match st.current_stage {
        AhdsrStage::NotTriggered => (st, 0u64),
        AhdsrStage::Sustain => (AhdsrState { current: st.params.sustain, ..st }, st.params.sustain),
        _ => {
            let n = stage_duration(st.params, st.current_stage);
            if n == 0 || st.samples_since_stage_start >= n {
                env_step(set_stage_spec(st, next_stage(st.current_stage)))
            } else {
                let k = st.samples_since_stage_start;
                let s0 = stage_start(st.current_stage, st.last_value_at_transition as int, st.params.sustain as int);
                let e0 = stage_end(st.current_stage, st.last_value_at_transition as int, st.params.sustain as int);
                let out = ease(s0, e0, k as int, n as int) as u64;
                (AhdsrState { samples_since_stage_start: (k + 1) as u64, current: out, ..st }, out)
            }
        },
    }
}

impl AhdsrState {
    /// The untriggered envelope state that `Default::default` returns.
    pub open spec fn default_spec() -> AhdsrState {
        AhdsrState {
            current_stage: AhdsrStage::NotTriggered,
            samples_since_stage_start: 0u64,
            last_value_at_transition: 0u64,
            current: 0u64,
            params: ahdsr_spec(0u32, 0u32, 0u32, 0u64, 0u32),
        }
    }

    /// All levels held by the state are valid fixed-point levels.
    pub open spec fn wf(self) -> bool {
        self.params.sustain <= LEVEL_SCALE
            && self.current <= LEVEL_SCALE
            && self.last_value_at_transition <= LEVEL_SCALE
    }

    /// Refreshes the working parameters, clamping the sustain level into
    /// `[0, LEVEL_SCALE]` so that the output-level invariant is kept
    /// whatever the parameter source hands over.
    pub fn apply_params(&mut self, values: AhdsrValues)
        ensures
            *final(self) == (AhdsrState { params: clamp_values(values), ..*old(self) }),
            old(self).wf() ==> final(self).wf(),
    {
        let sustain: u64 = if values.sustain <= LEVEL_SCALE {
            values.sustain
        } else {
            LEVEL_SCALE
        };
        self.params = AhdsrValues { sustain, ..values };
    }

    /// Forces the stage to Attack on a rising gate edge and to Release on a
    /// falling one. The segment restarts from the current output level, so a
    /// retrigger is free of discontinuity: the new segment's starting level
    /// equals the level the envelope had just before the trigger.
    pub fn trigger(&mut self, triggered: bool)
        requires
            old(self).wf(),
        ensures
            final(self).wf(),
            *final(self) == set_stage_spec(
                *old(self),
                if triggered { AhdsrStage::Attack } else { AhdsrStage::Release },
            ),
            final(self).current == old(self).current,
            final(self).last_value_at_transition == old(self).current,
            final(self).samples_since_stage_start == 0,
    {
        self.set_stage(if triggered { AhdsrStage::Attack } else { AhdsrStage::Release });
    }

    /// Forces the envelope into `stage`, restarting the elapsed-sample
    /// counter and capturing the current output level as the new segment's
    /// starting level.
    pub fn set_stage(&mut self, stage: AhdsrStage)
        requires
            old(self).wf(),
        ensures
            final(self).wf(),
            *final(self) == set_stage_spec(*old(self), stage),
    {
        self.current_stage = stage;
        self.samples_since_stage_start = 0;
        let (start, _end): (u64, u64) = stage.endpoint_values(self.current, self.params.sustain);
        self.current = start;
        self.last_value_at_transition = start;
    }

    /// Advances the state machine by exactly one sample period and returns
    /// the new output level; the step taken is exactly `env_step`.
    pub fn advance(&mut self) -> (r: u64)
        requires
            old(self).wf(),
        ensures
            final(self).wf(),
            *final(self) == env_step(*old(self)).0,
            r == env_step(*old(self)).1,
            r <= LEVEL_SCALE,
    {
        loop
            invariant
                self.wf(),
                env_step(*old(self)) == env_step(*self),
            decreases stage_rank(self.current_stage),
        {
            let stage = self.current_stage;
            match stage {
                AhdsrStage::NotTriggered => {
                    return 0u64;
                },
                AhdsrStage::Sustain => {
                    let out: u64 = self.params.sustain;
                    self.current = out;
                    return out;
                },
                _ => {
                    let n: u64 = match self.params.time_for_stage(stage) {
                        Some(t) => t as u64,
                        None => 0u64,
                    };
                    if n == 0 || self.samples_since_stage_start >= n {
                        let nx = stage.next();
                        self.set_stage(nx);
                    } else {
                        let k: u64 = self.samples_since_stage_start;
                        let (s0, e0): (u64, u64) = stage.endpoint_values(
                            self.last_value_at_transition,
                            self.params.sustain,
                        );
                        let out: u64 = curve(s0, e0, k, n);
                        self.samples_since_stage_start = k + 1;
                        self.current = out;
                        return out;
                    }
                },
            }
        }
    }
}

/// The interpolated level lies between the segment endpoints and meets them
/// exactly at the segment's first and last sample positions.
proof fn lemma_ease_bounds(s: int, e: int, k: int, n: int)
    requires
        0 <= s,
        0 <= e,
        0 <= k <= n,
        0 < n,
    ensures
        s <= e ==> s <= ease(s, e, k, n) <= e,
        e <= s ==> e <= ease(s, e, k, n) <= s,
        k == 0 ==> ease(s, e, k, n) == s,
        k == n ==> ease(s, e, k, n) == e,
{
    if e >= s {
        lemma_ease_fraction(e - s, k, n);
    } else {
        lemma_ease_fraction(s - e, k, n);
    }
}

/// One envelope step keeps every level a valid fixed-point level, outputs a
/// valid level, and leaves the working parameters untouched.
proof fn lemma_env_step_wf(st: AhdsrState)
    requires
        st.wf(),
    ensures
        env_step(st).0.wf(),
        env_step(st).1 <= LEVEL_SCALE,
        env_step(st).0.params == st.params,
    decreases stage_rank(st.current_stage),
{
    let stage = st.current_stage;
    if is_timed(stage) {
        let n = stage_duration(st.params, stage);
        if n == 0 || st.samples_since_stage_start >= n {
            lemma_env_step_wf(set_stage_spec(st, next_stage(stage)));
        } else {
            let k = st.samples_since_stage_start;
            let s0 = stage_start(stage, st.last_value_at_transition as int, st.params.sustain as int);
            let e0 = stage_end(stage, st.last_value_at_transition as int, st.params.sustain as int);
            lemma_ease_bounds(s0, e0, k as int, n as int);
        }
    }
}

/// The stage the envelope rests in after a step never exceeds the rank of
/// the stage it started from: stepping only moves along the fixed cycle.
proof fn lemma_env_step_rank(st: AhdsrState)
    ensures
        stage_rank(env_step(st).0.current_stage) <= stage_rank(st.current_stage),
    decreases stage_rank(st.current_stage),
{
    let stage = st.current_stage;
    if is_timed(stage) {
        let n = stage_duration(st.params, stage);
        if n == 0 || st.samples_since_stage_start >= n {
            lemma_env_step_rank(set_stage_spec(st, next_stage(stage)));
        }
    }
}

/// State after `i` consecutive envelope steps.
pub open spec fn env_iter(st: AhdsrState, i: nat) -> AhdsrState
    decreases i,
{
    if i == 0 {
        st
    } else {
        env_step(env_iter(st, (i - 1) as nat)).0
    }
}

/// Stage-timing law: from a fresh entry into a timed stage whose duration is
/// `n > 0` samples, each of the first `n` steps stays in that stage — the
/// transition never comes early — the `i`-th of them leaves the
/// elapsed-sample counter at exactly `i`, and its output is the eased
/// interpolation of the segment endpoints at `t = (i - 1) / n`.
pub proof fn lemma_stage_timing(st: AhdsrState, i: nat)
    requires
        st.wf(),
        is_timed(st.current_stage),
        stage_duration(st.params, st.current_stage) > 0,
        st.samples_since_stage_start == 0,
        i <= stage_duration(st.params, st.current_stage),
    ensures
        env_iter(st, i).wf(),
        env_iter(st, i).current_stage == st.current_stage,
        env_iter(st, i).samples_since_stage_start == i,
        env_iter(st, i).params == st.params,
        env_iter(st, i).last_value_at_transition == st.last_value_at_transition,
        i > 0 ==> env_iter(st, i).current == ease(
            stage_start(st.current_stage, st.last_value_at_transition as int, st.params.sustain as int),
            stage_end(st.current_stage, st.last_value_at_transition as int, st.params.sustain as int),
            i - 1,
            stage_duration(st.params, st.current_stage) as int,
        ),
    decreases i,
{
    if i > 0 {
        let j = (i - 1) as nat;
        lemma_stage_timing(st, j);
        let prev = env_iter(st, j);
        lemma_env_step_wf(prev);
        lemma_ease_bounds(
            stage_start(st.current_stage, st.last_value_at_transition as int, st.params.sustain as int),
            stage_end(st.current_stage, st.last_value_at_transition as int, st.params.sustain as int),
            j as int,
            stage_duration(st.params, st.current_stage) as int,
        );
    }
}

/// Stage-timing law, second half: once the elapsed samples of a positive-
/// duration stage have reached its duration, the very next step leaves the
/// stage.
pub proof fn lemma_stage_transition(st: AhdsrState)
    requires
        is_timed(st.current_stage),
        st.samples_since_stage_start >= stage_duration(st.params, st.current_stage),
    ensures
        env_step(st).0.current_stage != st.current_stage,
{
    let nx = set_stage_spec(st, next_stage(st.current_stage));
    lemma_env_step_rank(nx);
}

/// Zero-length-stage law: a step never leaves the envelope resting in a
/// timed stage of zero duration — such stages are skipped entirely, and no
/// output sample is ever produced from one.
pub proof fn lemma_zero_length_stages_skipped(st: AhdsrState)
    ensures
        is_timed(env_step(st).0.current_stage) ==> stage_duration(
            env_step(st).0.params,
            env_step(st).0.current_stage,
        ) > 0,
    decreases stage_rank(st.current_stage),
{
    let stage = st.current_stage;
    if is_timed(stage) {
        let n = stage_duration(st.params, stage);
        if n == 0 || st.samples_since_stage_start >= n {
            lemma_zero_length_stages_skipped(set_stage_spec(st, next_stage(stage)));
        }
    }
}

/// Boundary-continuity law: under the natural (non-forced) stage cycle, the
/// level a timed stage's segment ends at equals the level the next stage's
/// segment starts from when it captures that end level, so consecutive
/// segments share their boundary value and the envelope is continuous at
/// every natural stage boundary.
pub proof fn lemma_boundary_continuity(stage: AhdsrStage, captured: int, sustain: int)
    requires
        is_timed(stage),
    ensures
        stage_end(stage, captured, sustain) == stage_start(
            next_stage(stage),
            stage_end(stage, captured, sustain),
            sustain,
        ),
{
}

/// Per-sample form of the boundary-continuity law: the step that carries a
/// completed positive-duration stage over to its successor outputs exactly
/// the level the completed segment was heading toward — the successor's
/// first sample sits on the shared boundary value — provided the successor
/// is not itself skipped as zero-length.
pub proof fn lemma_transition_sample_continuity(st: AhdsrState)
    requires
        st.wf(),
        is_timed(st.current_stage),
        stage_duration(st.params, st.current_stage) > 0,
        st.samples_since_stage_start >= stage_duration(st.params, st.current_stage),
        is_timed(next_stage(st.current_stage)) ==> stage_duration(
            st.params,
            next_stage(st.current_stage),
        ) > 0,
    ensures
        env_step(st).1 == stage_end(
            st.current_stage,
            st.last_value_at_transition as int,
            st.params.sustain as int,
        ),
{
    reveal_with_fuel(env_step, 2);
    let nx = next_stage(st.current_stage);
    let skipped = set_stage_spec(st, nx);
    if is_timed(nx) {
        lemma_ease_bounds(
            stage_start(nx, skipped.last_value_at_transition as int, st.params.sustain as int),
            stage_end(nx, skipped.last_value_at_transition as int, st.params.sustain as int),
            0,
            stage_duration(st.params, nx) as int,
        );
    }
}

/// The eased segment meets its endpoints exactly: at the segment's start the
/// output is the captured starting level, and at a full segment's length it
/// is the segment's end level.
pub proof fn lemma_ease_endpoints(s: int, e: int, n: int)
    requires
        0 <= s,
        0 <= e,
        0 < n,
    ensures
        ease(s, e, 0, n) == s,
        ease(s, e, n, n) == e,
{
    lemma_ease_bounds(s, e, 0, n);
    lemma_ease_bounds(s, e, n, n);
}

impl Default for AhdsrState {
    /// The untriggered envelope: silent, with zeroed parameters.
    fn default() -> (r: Self)
        ensures
            r == AhdsrState::default_spec(),
            r.wf(),
    {
        AhdsrState {
            current_stage: AhdsrStage::NotTriggered,
            samples_since_stage_start: 0,
            last_value_at_transition: 0,
            current: 0,
            params: AhdsrValues { attack: 0, hold: 0, decay: 0, sustain: 0, release: 0 },
        }
    }
}

} // verus!
