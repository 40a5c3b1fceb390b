//! Recoil model: accumulates a vertical kick and a periodic horizontal sweep
//! on every shot and decays both axes multiplicatively once per tick.
//!
//! Scalars are in micro-units: the axis bound 0.03 is `30_000`, the vertical
//! kick 0.012 is `12_000`, the horizontal sweep amplitude 0.002 is `2_000`.
//! The decay factor 0.8 per tick is the exact integer map `v -> v * 4 / 5`
//! (rounded toward zero), so repeated decay moves each axis toward zero and
//! never crosses it.

use vstd::prelude::*;

verus! {

/// Saturation bound for both recoil axes (0.03 in micro-units).
pub const RECOIL_LIMIT: i64 = 30_000;

/// Vertical kick applied by one shot (0.012 in micro-units).
pub const RECOIL_KICK: i64 = 12_000;

/// Amplitude of the horizontal sweep pattern (0.002 in micro-units).
pub const RECOIL_SWEEP: i64 = 2_000;

#[derive(Clone, Copy, PartialEq, Eq, Structural, Debug)]
pub struct RecoilState {
    /// Vertical axis, micro-units, always within `[-RECOIL_LIMIT, RECOIL_LIMIT]`.
    pub vertical: i64,
    /// Horizontal axis, micro-units, always within `[-RECOIL_LIMIT, RECOIL_LIMIT]`.
    pub horizontal: i64,
    /// Monotonically increasing count of shots fired; phase of the sweep.
    pub shots_fired: u64,
}

/// Clamp a recoil axis to the saturation interval.
pub open spec fn spec_clamp_axis(v: int) -> int {
    if v < -30_000 {
        -30_000
    } else if v > 30_000 {
        30_000
    } else {
        v
    }
}

/// Horizontal sweep value for the `n`-th shot: an eight-step periodic
/// sine table scaled to the 0.002 amplitude, so sustained fire sweeps the
/// aim point side to side in phase with the shot count, not wall-clock time.
pub open spec fn spec_sweep(n: int) -> int {
    let k = n % 8;
    if k == 0 {
        0
    } else if k == 1 {
        1_414
    } else if k == 2 {
        2_000
    } else if k == 3 {
        1_414
    } else if k == 4 {
        0
    } else if k == 5 {
        -1_414
    } else if k == 6 {
        -2_000
    } else {
        -1_414
    }
}

/// One multiplicative decay step with factor 0.8, rounded toward zero.
pub open spec fn spec_decay_axis(v: int) -> int {
    if v >= 0 {
        v * 4 / 5
    } else {
        -((-v) * 4 / 5)
    }
}

/// The value of an axis after `n` decay steps with no intervening fire:
/// the fixed-point form of `v * 0.8^n`.
pub open spec fn spec_decay_iter(v: int, n: nat) -> int
    decreases n,
{
    if n == 0 {
        v
    } else {
        spec_decay_axis(spec_decay_iter(v, (n - 1) as nat))
    }
}

/// Functional model of one fire impulse.
pub open spec fn spec_after_fire(r: RecoilState) -> RecoilState {
    RecoilState {
        vertical: spec_clamp_axis(r.vertical - 12_000) as i64,
        horizontal: spec_clamp_axis(r.horizontal + spec_sweep(r.shots_fired as int)) as i64,
        shots_fired: (r.shots_fired + 1) as u64,
    }
}

impl RecoilState {
    /// Validity: both axes are saturated within `[-RECOIL_LIMIT, RECOIL_LIMIT]`.
    pub open spec fn wf(self) -> bool {
        &&& -30_000 <= self.vertical <= 30_000
        &&& -30_000 <= self.horizontal <= 30_000
    }

    pub fn new() -> (r: RecoilState)
        ensures
            r.wf(),
            r.vertical == 0,
            r.horizontal == 0,
            r.shots_fired == 0,
    {
        RecoilState { vertical: 0, horizontal: 0, shots_fired: 0 }
    }

    /// Perturbation of one shot: the vertical axis kicks down by
    /// `RECOIL_KICK`, the horizontal axis moves by the sweep value of the
    /// current shot count, both axes are clamped, and the shot count advances.
    pub fn apply_fire_impulse(&mut self)
        requires
            old(self).wf(),
            old(self).shots_fired < u64::MAX,
        ensures
            final(self).wf(),
            final(self).vertical == spec_clamp_axis(old(self).vertical - RECOIL_KICK),
            final(self).horizontal == spec_clamp_axis(
                old(self).horizontal + spec_sweep(old(self).shots_fired as int),
            ),
            final(self).shots_fired == old(self).shots_fired + 1,
            *final(self) == spec_after_fire(*old(self)),
    {
        let sweep = sweep_value(self.shots_fired);
        self.vertical = clamp_axis(self.vertical - RECOIL_KICK);
        self.horizontal = clamp_axis(self.horizontal + sweep);
        self.shots_fired = self.shots_fired + 1;
    }

    /// Per-tick decay with factor 0.8: both axes move toward zero by the
    /// exact integer map `v -> v * 4 / 5`, rounded toward zero. Called once
    /// per tick by the look controller whether or not there was any motion.
    pub fn decay(&mut self)
        requires
            old(self).wf(),
        ensures
            final(self).wf(),
            final(self).vertical == spec_decay_axis(old(self).vertical as int),
            final(self).horizontal == spec_decay_axis(old(self).horizontal as int),
            final(self).shots_fired == old(self).shots_fired,
    {
        self.vertical = decay_axis(self.vertical);
        self.horizontal = decay_axis(self.horizontal);
    }
}

/// Exact executable form of `spec_clamp_axis` for values one impulse away
/// from a saturated axis.
fn clamp_axis(v: i64) -> (r: i64)
    requires
        -100_000 <= v <= 100_000,
    ensures
        r == spec_clamp_axis(v as int),
        -30_000 <= r <= 30_000,
{
    if v < -RECOIL_LIMIT {
        -RECOIL_LIMIT
    } else if v > RECOIL_LIMIT {
        RECOIL_LIMIT
    } else {
        v
    }
}

/// Exact executable form of `spec_sweep`.
fn sweep_value(n: u64) -> (r: i64)
    ensures
        r == spec_sweep(n as int),
        -2_000 <= r <= 2_000,
{
    let k = n % 8;
    if k == 0 {
        0
    } else if k == 1 {
        1_414
    } else if k == 2 {
        2_000
    } else if k == 3 {
        1_414
    } else if k == 4 {
        0
    } else if k == 5 {
        -1_414
    } else if k == 6 {
        -2_000
    } else {
        -1_414
    }
}

/// Exact executable form of `spec_decay_axis` for a saturated axis.
fn decay_axis(v: i64) -> (r: i64)
    requires
        -30_000 <= v <= 30_000,
    ensures
        r == spec_decay_axis(v as int),
        -30_000 <= r <= 30_000,
{
    if v >= 0 {
        v * 4 / 5
    } else {
        -((-v) * 4 / 5)
    }
}

/// Law: every reachable recoil state keeps both axes within
/// `[-RECOIL_LIMIT, RECOIL_LIMIT]`. `new` establishes `wf`, and both
/// mutators (`apply_fire_impulse`, `decay`) preserve it, so the bound holds
/// after any sequence of fire and decay calls in any order.
pub proof fn lemma_recoil_axes_bounded(r: RecoilState)
    requires
        r.wf(),
    ensures
        -RECOIL_LIMIT <= r.vertical <= RECOIL_LIMIT,
        -RECOIL_LIMIT <= r.horizontal <= RECOIL_LIMIT,
{
}

/// One decay step never changes an axis's sign and never grows its
/// magnitude; on a non-zero axis it strictly shrinks the magnitude unless
/// the value is already within the rounding dead zone near zero.
pub proof fn lemma_decay_step_toward_zero(v: int)
    ensures
        v >= 0 ==> 0 <= spec_decay_axis(v) <= v,
        v <= 0 ==> v <= spec_decay_axis(v) <= 0,
        v >= 5 ==> spec_decay_axis(v) < v,
        v <= -5 ==> v < spec_decay_axis(v),
{
    if v >= 0 {
        assert(0 <= v * 4 / 5 <= v) by {
            vstd::arithmetic::div_mod::lemma_div_pos_is_pos(v * 4, 5);
            vstd::arithmetic::div_mod::lemma_div_is_ordered(v * 4, v * 5, 5);
            vstd::arithmetic::div_mod::lemma_div_by_multiple(v, 5);
        }
        if v >= 5 {
            assert(v * 4 / 5 < v) by {
                vstd::arithmetic::div_mod::lemma_div_is_ordered(v * 4, v * 5 - 5, 5);
                vstd::arithmetic::div_mod::lemma_div_by_multiple(v - 1, 5);
            }
        }
    } else {
        let w = -v;
        assert(0 <= w * 4 / 5 <= w) by {
            vstd::arithmetic::div_mod::lemma_div_pos_is_pos(w * 4, 5);
            vstd::arithmetic::div_mod::lemma_div_is_ordered(w * 4, w * 5, 5);
            vstd::arithmetic::div_mod::lemma_div_by_multiple(w, 5);
        }
        if w >= 5 {
            assert(w * 4 / 5 < w) by {
                vstd::arithmetic::div_mod::lemma_div_is_ordered(w * 4, w * 5 - 5, 5);
                vstd::arithmetic::div_mod::lemma_div_by_multiple(w - 1, 5);
            }
        }
    }
}

/// Law: with no intervening fire, repeated decay drives an axis
/// monotonically toward zero and never past it. After `n` decays from `v`
/// the axis holds exactly `spec_decay_iter(v, n)` — the fixed-point value of
/// `v * 0.8^n` — and one more decay never moves it away from zero or across
/// zero.
pub proof fn lemma_decay_monotone(v: int, n: nat)
    ensures
        v >= 0 ==> 0 <= spec_decay_iter(v, n + 1) <= spec_decay_iter(v, n) <= v,
        v <= 0 ==> v <= spec_decay_iter(v, n) <= spec_decay_iter(v, n + 1) <= 0,
    decreases n,
{
    assert(spec_decay_iter(v, n + 1) == spec_decay_axis(spec_decay_iter(v, (n + 1 - 1) as nat)));
    if n == 0 {
        lemma_decay_step_toward_zero(v);
    } else {
        lemma_decay_monotone(v, (n - 1) as nat);
        lemma_decay_step_toward_zero(spec_decay_iter(v, n));
    }
}

} // verus!
