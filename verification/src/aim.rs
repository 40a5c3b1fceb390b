//! Aim-down-sights state machine: an instantaneous `aiming` flag snapshot of
//! the input, and a continuous transition scalar in `[0, 1]` (micro-units,
//! `0 ..= 1_000_000`) that exponentially approaches the flag's target at rate
//! `5.0 * dt` per tick. Movement speed, camera field of view and the camera
//! offset all blend on this one scalar, so it is updated exactly once per
//! tick before those consumers run.

use vstd::prelude::*;

verus! {

/// Fixed-point one: the fully-aimed transition value.
pub const AIM_FULL: i64 = 1_000_000;

/// Approach rate: the transition covers `5 * dt` of the remaining gap per
/// second of elapsed time.
pub const AIM_RATE: i64 = 5;

/// Largest tick accepted by `AimState::update`, in microseconds; keeps the
/// fixed-point products within `i64`.
pub const AIM_MAX_TICK_US: u64 = 100_000_000_000;

#[derive(Clone, Copy, PartialEq, Eq, Structural, Debug)]
pub struct AimState {
    /// Per-frame snapshot of the aim input.
    pub aiming: bool,
    /// Continuous hipfire-to-aimed scalar, micro-units in `[0, AIM_FULL]`.
    pub transition: i64,
}

/// One integration step of the transition scalar: move toward the target
/// (one when aiming, zero otherwise) by `gap * 5 * dt_us / 1_000_000`,
/// clamped into `[0, 1_000_000]`.
pub open spec fn spec_aim_step(t: int, aiming: bool, dt_us: int) -> int {
    if aiming {
        let s = t + (1_000_000 - t) * 5 * dt_us / 1_000_000;
        if s > 1_000_000 {
            1_000_000
        } else {
            s
        }
    } else {
        let s = t - t * 5 * dt_us / 1_000_000;
        if s < 0 {
            0
        } else {
            s
        }
    }
}

/// The transition after `n` update ticks of constant `dt_us` with the aim
/// input held constant.
pub open spec fn spec_aim_iter(t: int, aiming: bool, dt_us: int, n: nat) -> int
    decreases n,
{
    if n == 0 {
        t
    } else {
        spec_aim_step(spec_aim_iter(t, aiming, dt_us, (n - 1) as nat), aiming, dt_us)
    }
}

/// Distance from the transition to its current target.
pub open spec fn spec_aim_gap(t: int, aiming: bool) -> int {
    if aiming {
        1_000_000 - t
    } else {
        t
    }
}

impl AimState {
    /// Validity: the transition scalar is clamped to `[0, AIM_FULL]`.
    pub open spec fn wf(self) -> bool {
        0 <= self.transition <= 1_000_000int
    }

    pub fn new() -> (a: AimState)
        ensures
            a.wf(),
            !a.aiming,
            a.transition == 0,
    {
        AimState { aiming: false, transition: 0 }
    }

    /// Per-tick update: snapshot the aim input, then move the transition
    /// toward the input's target by `gap * 5 * dt` (fixed point, clamped).
    /// The transition never decreases while the input is held and never
    /// increases while it is released.
    pub fn update(&mut self, aiming: bool, dt_us: u64)
        requires
            old(self).wf(),
            dt_us <= AIM_MAX_TICK_US,
        ensures
            final(self).wf(),
            final(self).aiming == aiming,
            final(self).transition == spec_aim_step(
                old(self).transition as int,
                aiming,
                dt_us as int,
            ),
            aiming ==> final(self).transition >= old(self).transition,
            !aiming ==> final(self).transition <= old(self).transition,
    {
        self.aiming = aiming;
        let dt = dt_us as i64;
        if aiming {
            let gap = AIM_FULL - self.transition;
            proof {
                assert(gap as int * 5 * dt as int <= 5_000_000 * 100_000_000_000int)
                    by (nonlinear_arith)
                    requires
                        0 <= gap <= 1_000_000,
                        0 <= dt <= 100_000_000_000,
                ;
                vstd::arithmetic::div_mod::lemma_div_pos_is_pos(
                    gap as int * 5 * dt as int,
                    1_000_000,
                );
                vstd::arithmetic::div_mod::lemma_div_is_ordered(
                    gap as int * 5 * dt as int,
                    5_000_000 * 100_000_000_000int,
                    1_000_000,
                );
            }
            let step = gap * AIM_RATE * dt / AIM_FULL;
            let s = self.transition + step;
            self.transition = if s > AIM_FULL {
                AIM_FULL
            } else {
                s
            };
        } else {
            proof {
                assert(self.transition as int * 5 * dt as int <= 5_000_000 * 100_000_000_000int)
                    by (nonlinear_arith)
                    requires
                        0 <= self.transition <= 1_000_000,
                        0 <= dt <= 100_000_000_000,
                ;
                vstd::arithmetic::div_mod::lemma_div_pos_is_pos(
                    self.transition as int * 5 * dt as int,
                    1_000_000,
                );
                vstd::arithmetic::div_mod::lemma_div_is_ordered(
                    self.transition as int * 5 * dt as int,
                    5_000_000 * 100_000_000_000int,
                    1_000_000,
                );
            }
            let step = self.transition * AIM_RATE * dt / AIM_FULL;
            let s = self.transition - step;
            self.transition = if s < 0 {
                0
            } else {
                s
            };
        }
    }
}

/// One step never widens the gap to the target, never overshoots it, and
/// while the gap is above the rounding threshold `1_000_000 / (5 * dt)` it
/// shrinks by at least one micro-unit.
pub proof fn lemma_aim_step_progress(t: int, aiming: bool, dt_us: int)
    requires
        0 <= t <= 1_000_000,
        1 <= dt_us,
    ensures
        0 <= spec_aim_step(t, aiming, dt_us) <= 1_000_000,
        spec_aim_gap(spec_aim_step(t, aiming, dt_us), aiming) <= spec_aim_gap(t, aiming),
        spec_aim_gap(t, aiming) > 1_000_000int / (5 * dt_us) ==> spec_aim_gap(
            spec_aim_step(t, aiming, dt_us),
            aiming,
        ) < spec_aim_gap(t, aiming),
{
    let gap = spec_aim_gap(t, aiming);
    let step = gap * 5 * dt_us / 1_000_000;
    assert((if aiming { (1_000_000 - t) * 5 * dt_us } else { t * 5 * dt_us }) == gap * 5 * dt_us);
    assert(0 <= step) by {
        vstd::arithmetic::div_mod::lemma_div_pos_is_pos(gap * 5 * dt_us, 1_000_000);
    }
    if gap > 1_000_000int / (5 * dt_us) {
        assert(step >= 1) by {
            let e = 1_000_000int / (5 * dt_us);
            assert((e + 1) * (5 * dt_us) > 1_000_000) by {
                vstd::arithmetic::div_mod::lemma_fundamental_div_mod(1_000_000, 5 * dt_us);
                vstd::arithmetic::div_mod::lemma_mod_bound(1_000_000, 5 * dt_us);
                assert((e + 1) * (5 * dt_us) == e * (5 * dt_us) + 5 * dt_us) by (nonlinear_arith);
            }
            assert(gap * 5 * dt_us >= (e + 1) * (5 * dt_us)) by {
                vstd::arithmetic::mul::lemma_mul_inequality(e + 1, gap, 5 * dt_us);
                assert(gap * (5 * dt_us) == gap * 5 * dt_us) by (nonlinear_arith);
            }
            vstd::arithmetic::div_mod::lemma_div_is_ordered(
                1_000_001,
                gap * 5 * dt_us,
                1_000_000,
            );
            assert(1_000_001int / 1_000_000 == 1);
        }
    }
}

/// Law: with the aim input held constant and a constant positive tick, the
/// transition converges: after at least 1_000_000 ticks (one per micro-unit
/// of the largest possible starting gap) the remaining distance to the
/// target is at most the rounding threshold `1_000_000 / (5 * dt_us)`. In
/// particular, for any tick longer than 200 ms the target is reached
/// exactly.
pub proof fn lemma_aim_converges(t: int, aiming: bool, dt_us: int, n: nat)
    requires
        0 <= t <= 1_000_000,
        1 <= dt_us,
    ensures
        0 <= spec_aim_iter(t, aiming, dt_us, n) <= 1_000_000,
        spec_aim_gap(spec_aim_iter(t, aiming, dt_us, n), aiming) <= spec_aim_gap(t, aiming),
        n >= 1_000_000 ==> spec_aim_gap(spec_aim_iter(t, aiming, dt_us, n), aiming) <= 1_000_000int
            / (5 * dt_us),
{
    lemma_aim_gap_bounded_descent(t, aiming, dt_us, n);
    vstd::arithmetic::div_mod::lemma_div_pos_is_pos(1_000_000, 5 * dt_us);
}

/// Induction core for `lemma_aim_converges`: after `n` steps the state is
/// still valid, the gap never widened, and it is at most
/// `max(threshold, starting gap - n)`.
proof fn lemma_aim_gap_bounded_descent(t: int, aiming: bool, dt_us: int, n: nat)
    requires
        0 <= t <= 1_000_000,
        1 <= dt_us,
    ensures
        0 <= spec_aim_iter(t, aiming, dt_us, n) <= 1_000_000,
        spec_aim_gap(spec_aim_iter(t, aiming, dt_us, n), aiming) <= spec_aim_gap(t, aiming),
        spec_aim_gap(spec_aim_iter(t, aiming, dt_us, n), aiming) <= 1_000_000int / (5 * dt_us)
            || spec_aim_gap(spec_aim_iter(t, aiming, dt_us, n), aiming) <= spec_aim_gap(t, aiming)
            - n,
    decreases n,
{
    if n == 0 {
    } else {
        let prev = spec_aim_iter(t, aiming, dt_us, (n - 1) as nat);
        lemma_aim_gap_bounded_descent(t, aiming, dt_us, (n - 1) as nat);
        lemma_aim_step_progress(prev, aiming, dt_us);
    }
}

} // verus!
