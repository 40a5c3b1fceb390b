//! Camera/look controller: folds the tick's accumulated pointer motion and
//! the current recoil into one look delta, decays the recoil (exactly once
//! per tick, even when there is no motion), and turns the delta into player
//! yaw and camera pitch. Also the projections read by the renderer: the
//! camera's hipfire-to-aimed local position blend, the field-of-view blend,
//! and the hit-marker flash alpha.
//!
//! Angles are micro-radians. Yaw lives on the player body and wraps around a
//! full turn; pitch lives on the camera and is clamped strictly inside a
//! quarter turn to prevent gimbal flip.

use vstd::prelude::*;
use crate::projectile::Vec3Fx;
use crate::recoil::{spec_decay_axis, RecoilState};
use crate::timer::Timer;
use crate::vecfx::{muldiv_trunc, spec_muldiv_trunc};

verus! {

/// One full turn in micro-radians.
pub const TURN_URAD: i64 = 6_283_185;

/// Pitch clamp bound: a quarter turn minus the 0.01 rad anti-flip margin.
pub const PITCH_LIMIT_URAD: i64 = 1_560_796;

/// Default horizontal sensitivity, micro-radians per pixel (0.0018 rad).
pub const SENS_H_URAD_PER_PX: i64 = 1_800;

/// Default vertical sensitivity, micro-radians per pixel (0.0015 rad).
pub const SENS_V_URAD_PER_PX: i64 = 1_500;

/// Camera local position at hipfire: at the player's eye.
pub const CAMERA_EYE_Y: i64 = 1_500_000;

/// Camera local forward offset when fully aimed: 0.3 units toward the gun.
pub const CAMERA_ADS_Z: i64 = -300_000;

/// Hipfire field of view: 60 degrees in micro-radians.
pub const FOV_BASE_URAD: i64 = 1_047_198;

/// Fully-aimed field of view: 30 degrees in micro-radians.
pub const FOV_ADS_URAD: i64 = 523_599;

/// Recoil-to-pointer coupling: one micro-unit of recoil reads as 1000
/// micro-pixels of implicit pointer motion.
pub const RECOIL_TO_UPX: i64 = 1_000;

/// Player yaw and camera pitch accumulators.
#[derive(Clone, Copy, PartialEq, Eq, Structural, Debug)]
pub struct LookState {
    /// Player body yaw, micro-radians, wrapped into `[0, TURN_URAD)`.
    pub yaw_urad: i64,
    /// Camera pitch, micro-radians, clamped to `[-PITCH_LIMIT_URAD, PITCH_LIMIT_URAD]`.
    pub pitch_urad: i64,
}

/// What the renderer applies to the camera after a tick with motion: the
/// rebuilt pitch rotation and the aim-blended local position.
#[derive(Clone, Copy, PartialEq, Eq, Structural, Debug)]
pub struct CameraUpdate {
    pub pitch_urad: i64,
    pub translation: Vec3Fx,
}

/// An angle wrapped into `[0, TURN_URAD)`.
pub open spec fn spec_wrap_urad(x: int) -> int {
    x % 6_283_185
}

/// Pitch clamped strictly inside the vertical poles.
pub open spec fn spec_clamp_pitch(v: int) -> int {
    if v < -1_560_796 {
        -1_560_796
    } else if v > 1_560_796 {
        1_560_796
    } else {
        v
    }
}

/// The tick's combined look delta on one axis, in micro-pixels: the raw
/// pointer motion plus the recoil axis read as implicit motion.
pub open spec fn spec_look_delta(motion_px: int, recoil_axis: int) -> int {
    motion_px * 1_000_000 + recoil_axis * 1_000
}

/// Camera local position: linear blend from the hipfire eye position to the
/// aim-down-sights position by the aim transition.
pub open spec fn spec_camera_translation(transition: int) -> Vec3Fx {
    Vec3Fx { x: 0, y: 1_500_000, z: (0 - 300_000 * transition / 1_000_000) as i64 }
}

/// Field of view: linear blend from 60 to 30 degrees by the aim transition.
pub open spec fn spec_fov_urad(transition: int) -> int {
    1_047_198 - 523_599 * transition / 1_000_000
}

impl LookState {
    pub open spec fn wf(self) -> bool {
        &&& 0 <= self.yaw_urad < 6_283_185
        &&& -1_560_796 <= self.pitch_urad <= 1_560_796
    }

    pub fn new() -> (l: LookState)
        ensures
            l.wf(),
            l.yaw_urad == 0,
            l.pitch_urad == 0,
    {
        LookState { yaw_urad: 0, pitch_urad: 0 }
    }
}

/// Wrap an angle into `[0, TURN_URAD)`.
fn wrap_urad(x: i64) -> (r: i64)
    requires
        -1_000_000_000_000_000 <= x <= 1_000_000_000_000_000,
    ensures
        r == spec_wrap_urad(x as int),
        0 <= r < TURN_URAD,
{
    if x >= 0 {
        x % TURN_URAD
    } else {
        let m = (-x) % TURN_URAD;
        proof {
            let q = (-x) as int / 6_283_185;
            vstd::arithmetic::div_mod::lemma_fundamental_div_mod((-x) as int, 6_283_185);
            vstd::arithmetic::div_mod::lemma_div_pos_is_pos((-x) as int, 6_283_185);
            if m == 0 {
                vstd::arithmetic::div_mod::lemma_fundamental_div_mod_converse(
                    x as int,
                    6_283_185,
                    -q,
                    0,
                );
            } else {
                vstd::arithmetic::div_mod::lemma_fundamental_div_mod_converse(
                    x as int,
                    6_283_185,
                    -q - 1,
                    6_283_185 - m,
                );
            }
        }
        if m == 0 {
            0
        } else {
            TURN_URAD - m
        }
    }
}

/// One tick of the look controller.
///
/// The pointer motion accumulated since the previous tick (pixels) is
/// combined with the recoil axes read as `1000` micro-pixels per micro-unit;
/// the recoil then decays, whether or not there was motion. With a zero
/// combined delta the orientation is untouched and no camera update is
/// issued. Otherwise the player yaw turns by `-delta.x * sensitivity`
/// (pointer right yaws the body by the negative angle), the camera pitch
/// accumulates `-delta.y * sensitivity` clamped inside the poles, and the
/// camera's local position is re-blended from the aim transition.
pub fn mouse_look(
    look: &mut LookState,
    recoil: &mut RecoilState,
    aim_transition: i64,
    motion_x_px: i64,
    motion_y_px: i64,
    sens_h_urad_per_px: i64,
    sens_v_urad_per_px: i64,
) -> (camera: Option<CameraUpdate>)
    requires
        old(look).wf(),
        old(recoil).wf(),
        0 <= aim_transition <= 1_000_000,
        -1_000_000 <= motion_x_px <= 1_000_000,
        -1_000_000 <= motion_y_px <= 1_000_000,
        0 < sens_h_urad_per_px <= 100_000,
        0 < sens_v_urad_per_px <= 100_000,
    ensures
        final(look).wf(),
        final(recoil).wf(),
        final(recoil).vertical == spec_decay_axis(old(recoil).vertical as int),
        final(recoil).horizontal == spec_decay_axis(old(recoil).horizontal as int),
        final(recoil).shots_fired == old(recoil).shots_fired,
        ({
            let dx = spec_look_delta(motion_x_px as int, old(recoil).horizontal as int);
            let dy = spec_look_delta(motion_y_px as int, old(recoil).vertical as int);
            if dx == 0 && dy == 0 {
                &&& *final(look) == *old(look)
                &&& camera is None
            } else {
                &&& final(look).yaw_urad == spec_wrap_urad(
                    old(look).yaw_urad - spec_muldiv_trunc(dx, sens_h_urad_per_px as int, 1_000_000),
                )
                &&& final(look).pitch_urad == spec_clamp_pitch(
                    old(look).pitch_urad - spec_muldiv_trunc(
                        dy,
                        sens_v_urad_per_px as int,
                        1_000_000,
                    ),
                )
                &&& camera == Some(
                    CameraUpdate {
                        pitch_urad: final(look).pitch_urad,
                        translation: spec_camera_translation(aim_transition as int),
                    },
                )
            }
        }),
{
    let dx = motion_x_px * 1_000_000 + recoil.horizontal * RECOIL_TO_UPX;
    let dy = motion_y_px * 1_000_000 + recoil.vertical * RECOIL_TO_UPX;
    recoil.decay();
    if dx == 0 && dy == 0 {
        return None;
    }
    let yaw_delta = muldiv_trunc(dx, sens_h_urad_per_px, 1_000_000);
    let pitch_delta = muldiv_trunc(dy, sens_v_urad_per_px, 1_000_000);
    proof {
        assert(-200_000_000_000 <= spec_muldiv_trunc(dx as int, sens_h_urad_per_px as int, 1_000_000)
            <= 200_000_000_000 && -200_000_000_000 <= spec_muldiv_trunc(
            dy as int,
            sens_v_urad_per_px as int,
            1_000_000,
        ) <= 200_000_000_000) by {
            lemma_muldiv_bound(dx as int, sens_h_urad_per_px as int);
            lemma_muldiv_bound(dy as int, sens_v_urad_per_px as int);
        }
    }
    look.yaw_urad = wrap_urad(look.yaw_urad - yaw_delta);
    let raw_pitch = look.pitch_urad - pitch_delta;
    look.pitch_urad = if raw_pitch < -PITCH_LIMIT_URAD {
        -PITCH_LIMIT_URAD
    } else if raw_pitch > PITCH_LIMIT_URAD {
        PITCH_LIMIT_URAD
    } else {
        raw_pitch
    };
    let translation = camera_translation(aim_transition);
    Some(CameraUpdate { pitch_urad: look.pitch_urad, translation })
}

/// A look delta of at most two million micro-pixels maps to a bounded angle.
proof fn lemma_muldiv_bound(d: int, sens: int)
    requires
        -2_000_000_000_000 <= d <= 2_000_000_000_000,
        0 < sens <= 100_000,
    ensures
        -200_000_000_000 <= spec_muldiv_trunc(d, sens, 1_000_000) <= 200_000_000_000,
{
    if d >= 0 {
        assert(d * sens <= 200_000_000_000_000_000) by (nonlinear_arith)
            requires
                0 <= d <= 2_000_000_000_000,
                0 < sens <= 100_000,
        ;
        vstd::arithmetic::div_mod::lemma_div_pos_is_pos(d * sens, 1_000_000);
        vstd::arithmetic::div_mod::lemma_div_is_ordered(
            d * sens,
            200_000_000_000_000_000,
            1_000_000,
        );
    } else {
        assert((-d) * sens <= 200_000_000_000_000_000) by (nonlinear_arith)
            requires
                -2_000_000_000_000 <= d < 0,
                0 < sens <= 100_000,
        ;
        vstd::arithmetic::div_mod::lemma_div_pos_is_pos((-d) * sens, 1_000_000);
        vstd::arithmetic::div_mod::lemma_div_is_ordered(
            (-d) * sens,
            200_000_000_000_000_000,
            1_000_000,
        );
    }
}

/// Camera local position for the current aim transition: a continuous blend
/// from the hipfire eye position toward the gun barrel, never a snap.
pub fn camera_translation(transition: i64) -> (r: Vec3Fx)
    requires
        0 <= transition <= 1_000_000,
    ensures
        r == spec_camera_translation(transition as int),
        r.y == CAMERA_EYE_Y,
        CAMERA_ADS_Z <= r.z <= 0,
{
    let shift = 300_000 * transition / 1_000_000;
    proof {
        vstd::arithmetic::div_mod::lemma_div_pos_is_pos(300_000 * transition as int, 1_000_000);
        vstd::arithmetic::div_mod::lemma_div_is_ordered(
            300_000 * transition as int,
            300_000_000_000,
            1_000_000,
        );
    }
    Vec3Fx { x: 0, y: CAMERA_EYE_Y, z: 0 - shift }
}

/// Field of view for the current aim transition, micro-radians: 60 degrees
/// at hipfire blending linearly to 30 degrees fully aimed.
pub fn fov_urad(transition: i64) -> (r: i64)
    requires
        0 <= transition <= 1_000_000,
    ensures
        r == spec_fov_urad(transition as int),
        FOV_ADS_URAD <= r <= FOV_BASE_URAD,
{
    let shift = 523_599 * transition / 1_000_000;
    proof {
        vstd::arithmetic::div_mod::lemma_div_pos_is_pos(523_599 * transition as int, 1_000_000);
        vstd::arithmetic::div_mod::lemma_div_is_ordered(
            523_599 * transition as int,
            523_599_000_000,
            1_000_000,
        );
    }
    FOV_BASE_URAD - shift
}

/// Per-tick hit-marker update: advance the flash timer and report the
/// overlay alpha — fully opaque while the flash timer has not finished
/// (freshly reset by a registered hit), fully transparent once it has. A
/// brief flash, not a fade.
pub fn update_hit_marker(marker: &mut Timer, dt_us: u64) -> (alpha: i64)
    requires
        old(marker).wf(),
        dt_us <= u64::MAX - old(marker).duration_us,
    ensures
        final(marker).wf(),
        *final(marker) == old(marker).spec_tick(dt_us as int),
        alpha == if final(marker).finished {
            0int
        } else {
            1_000_000int
        },
{
    marker.tick(dt_us);
    if marker.finished() {
        0
    } else {
        1_000_000
    }
}

} // verus!
