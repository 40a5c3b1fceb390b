//! Player movement: combine the held movement keys with the body's forward
//! and right vectors into a horizontal velocity command for the physics
//! service. Speed blends with the aim transition — full speed at hipfire,
//! 40% fully aimed, never immobile. The vertical axis is owned by the
//! physics service (gravity) and is never commanded here.

use vstd::prelude::*;
use crate::projectile::Vec3Fx;
use crate::vecfx;

verus! {

/// Walking speed at hipfire: 5.0 world units per second.
pub const MOVE_SPEED: i64 = 5;

/// Snapshot of the held movement keys.
#[derive(Clone, Copy, PartialEq, Eq, Structural, Debug)]
pub struct MoveKeys {
    pub forward: bool,
    pub back: bool,
    pub left: bool,
    pub right: bool,
}

/// The unnormalized horizontal move direction: the sum of the body's
/// forward and right vectors as selected by the held keys, with the vertical
/// component discarded.
pub open spec fn spec_move_dir(forward: Vec3Fx, right: Vec3Fx, keys: MoveKeys) -> Vec3Fx {
    Vec3Fx {
        x: ((if keys.forward {
            forward.x as int
        } else {
            0
        }) - (if keys.back {
            forward.x as int
        } else {
            0
        }) + (if keys.right {
            right.x as int
        } else {
            0
        }) - (if keys.left {
            right.x as int
        } else {
            0
        })) as i64,
        y: 0,
        z: ((if keys.forward {
            forward.z as int
        } else {
            0
        }) - (if keys.back {
            forward.z as int
        } else {
            0
        }) + (if keys.right {
            right.z as int
        } else {
            0
        }) - (if keys.left {
            right.z as int
        } else {
            0
        })) as i64,
    }
}

/// Speed multiplier for the current aim transition, micro-units:
/// `0.4 + 0.6 * (1 - transition)` — one at hipfire, 0.4 fully aimed.
pub open spec fn spec_speed_factor(transition: int) -> int {
    400_000 + (1_000_000 - transition) * 600_000 / 1_000_000
}

/// The horizontal velocity command `(x, z)` in micro-units per second: zero
/// when no key produces motion, otherwise the normalized move direction at
/// `5.0` units per second scaled by the aim speed factor.
pub open spec fn spec_movement_velocity(
    forward: Vec3Fx,
    right: Vec3Fx,
    keys: MoveKeys,
    transition: int,
) -> (int, int) {
    let dir = spec_move_dir(forward, right, keys);
    if dir == Vec3Fx::spec_zero() {
        (0, 0)
    } else {
        let n = vecfx::spec_normalized(dir);
        let f = spec_speed_factor(transition);
        (
            vecfx::spec_muldiv_trunc(n.x * 5, f, 1_000_000),
            vecfx::spec_muldiv_trunc(n.z * 5, f, 1_000_000),
        )
    }
}

/// Exact executable form of `spec_speed_factor`.
pub fn speed_factor(transition: i64) -> (f: i64)
    requires
        0 <= transition <= 1_000_000,
    ensures
        f == spec_speed_factor(transition as int),
        400_000 <= f <= 1_000_000,
{
    let blend = (1_000_000 - transition) * 600_000 / 1_000_000;
    proof {
        vstd::arithmetic::div_mod::lemma_div_pos_is_pos(
            (1_000_000 - transition as int) * 600_000,
            1_000_000,
        );
        vstd::arithmetic::div_mod::lemma_div_is_ordered(
            (1_000_000 - transition as int) * 600_000,
            600_000_000_000,
            1_000_000,
        );
    }
    400_000 + blend
}

/// One tick of the movement system: the `(x, z)` velocity command handed to
/// the physics service. The vertical velocity is left to gravity.
pub fn movement_velocity(
    forward: Vec3Fx,
    right: Vec3Fx,
    keys: MoveKeys,
    transition: i64,
) -> (v: (i64, i64))
    requires
        -1_000_000_000 <= forward.x <= 1_000_000_000,
        -1_000_000_000 <= forward.z <= 1_000_000_000,
        -1_000_000_000 <= right.x <= 1_000_000_000,
        -1_000_000_000 <= right.z <= 1_000_000_000,
        0 <= transition <= 1_000_000,
    ensures
        (v.0 as int, v.1 as int) == spec_movement_velocity(
            forward,
            right,
            keys,
            transition as int,
        ),
        -5_000_000 <= v.0 <= 5_000_000,
        -5_000_000 <= v.1 <= 5_000_000,
{
    let mut x: i64 = 0;
    let mut z: i64 = 0;
    if keys.forward {
        x = x + forward.x;
        z = z + forward.z;
    }
    if keys.back {
        x = x - forward.x;
        z = z - forward.z;
    }
    if keys.right {
        x = x + right.x;
        z = z + right.z;
    }
    if keys.left {
        x = x - right.x;
        z = z - right.z;
    }
    let dir = Vec3Fx { x, y: 0, z };
    proof {
        assert(dir == spec_move_dir(forward, right, keys));
    }
    if x == 0 && z == 0 {
        (0, 0)
    } else {
        let n = vecfx::normalized(dir);
        let f = speed_factor(transition);
        let vx = vecfx::muldiv_trunc(n.x * 5, f, 1_000_000);
        let vz = vecfx::muldiv_trunc(n.z * 5, f, 1_000_000);
        proof {
            lemma_velocity_component_bound(n.x as int, f as int);
            lemma_velocity_component_bound(n.z as int, f as int);
        }
        (vx, vz)
    }
}

/// A unit direction component at full scale stays within walking speed.
proof fn lemma_velocity_component_bound(c: int, f: int)
    requires
        -1_000_000 <= c <= 1_000_000,
        0 < f <= 1_000_000,
    ensures
        -5_000_000 <= vecfx::spec_muldiv_trunc(c * 5, f, 1_000_000) <= 5_000_000,
{
    if c >= 0 {
        assert(c * 5 * f <= 5_000_000_000_000) by (nonlinear_arith)
            requires
                0 <= c <= 1_000_000,
                0 < f <= 1_000_000,
        ;
        vstd::arithmetic::div_mod::lemma_div_pos_is_pos(c * 5 * f, 1_000_000);
        vstd::arithmetic::div_mod::lemma_div_is_ordered(
            c * 5 * f,
            5_000_000_000_000,
            1_000_000,
        );
    } else {
        assert((-(c * 5)) * f <= 5_000_000_000_000 && -(c * 5) >= 0) by (nonlinear_arith)
            requires
                -1_000_000 <= c < 0,
                0 < f <= 1_000_000,
        ;
        vstd::arithmetic::div_mod::lemma_div_pos_is_pos((-(c * 5)) * f, 1_000_000);
        vstd::arithmetic::div_mod::lemma_div_is_ordered(
            (-(c * 5)) * f,
            5_000_000_000_000,
            1_000_000,
        );
    }
}

} // verus!
