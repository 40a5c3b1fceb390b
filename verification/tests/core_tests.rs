use combat_core::aim::AimState;
use combat_core::camera::{
    camera_translation, fov_urad, mouse_look, update_hit_marker, LookState, SENS_H_URAD_PER_PX,
    SENS_V_URAD_PER_PX,
};
use combat_core::combat::{resolve_collisions, resolve_event, CollisionEvent};
use combat_core::movement::{movement_velocity, speed_factor, MoveKeys};
use combat_core::projectile::{Faction, ProjectileSet, Vec3Fx};
use combat_core::recoil::RecoilState;
use combat_core::session::CombatCore;
use combat_core::shooter::{enemy_fire_control, player_fire_control};
use combat_core::timer::{Timer, TimerMode};
use combat_core::vecfx::{isqrt, normalized};

fn origin() -> Vec3Fx {
    Vec3Fx { x: 0, y: 0, z: 0 }
}

fn forward_neg_z() -> Vec3Fx {
    Vec3Fx { x: 0, y: 0, z: -1_000_000 }
}

#[test]
fn timer_once_finishes_and_stays_finished() {
    let mut t = Timer::new(100_000, TimerMode::Once);
    t.tick(60_000);
    assert!(!t.finished);
    assert_eq!(t.elapsed_us, 60_000);
    t.tick(40_000);
    assert!(t.finished);
    assert_eq!(t.times_finished, 1);
    t.tick(10_000);
    assert!(t.finished);
    assert_eq!(t.times_finished, 0);
    t.reset();
    assert!(!t.finished);
    assert_eq!(t.elapsed_us, 0);
}

#[test]
fn timer_repeating_counts_boundaries() {
    let mut t = Timer::new(100_000, TimerMode::Repeating);
    t.tick(250_000);
    assert!(t.finished);
    assert_eq!(t.times_finished, 2);
    assert_eq!(t.elapsed_us, 50_000);
    t.tick(30_000);
    assert!(!t.finished);
    assert_eq!(t.times_finished, 0);
    assert_eq!(t.elapsed_us, 80_000);
}

#[test]
fn recoil_impulse_kicks_and_clamps() {
    let mut r = RecoilState::new();
    r.apply_fire_impulse();
    assert_eq!(r.vertical, -12_000);
    assert_eq!(r.horizontal, 0); // sweep phase 0
    assert_eq!(r.shots_fired, 1);
    r.apply_fire_impulse();
    assert_eq!(r.vertical, -24_000);
    assert_eq!(r.horizontal, 1_414); // sweep phase 1
    r.apply_fire_impulse();
    // vertical saturates at the -0.03 bound
    assert_eq!(r.vertical, -30_000);
    assert_eq!(r.horizontal, 1_414 + 2_000);
}

#[test]
fn recoil_bounded_under_sustained_fire_and_decay() {
    let mut r = RecoilState::new();
    for i in 0..1000 {
        r.apply_fire_impulse();
        if i % 3 == 0 {
            r.decay();
        }
        assert!(-30_000 <= r.vertical && r.vertical <= 30_000);
        assert!(-30_000 <= r.horizontal && r.horizontal <= 30_000);
    }
}

#[test]
fn recoil_decay_moves_toward_zero_and_never_past() {
    let mut r = RecoilState {
        vertical: -30_000,
        horizontal: 30_000,
        shots_fired: 0,
    };
    let mut prev_v = r.vertical;
    let mut prev_h = r.horizontal;
    for _ in 0..100 {
        r.decay();
        assert!(r.vertical >= prev_v && r.vertical <= 0);
        assert!(r.horizontal <= prev_h && r.horizontal >= 0);
        prev_v = r.vertical;
        prev_h = r.horizontal;
    }
    // exact 0.8-per-step values from 30_000
    let mut r = RecoilState {
        vertical: 0,
        horizontal: 30_000,
        shots_fired: 0,
    };
    r.decay();
    assert_eq!(r.horizontal, 24_000);
    r.decay();
    assert_eq!(r.horizontal, 19_200);
    r.decay();
    assert_eq!(r.horizontal, 15_360);
}

#[test]
fn aim_transition_rises_holds_clamp_and_falls() {
    let mut a = AimState::new();
    // dt = 0.1 s: each step covers half the remaining gap
    a.update(true, 100_000);
    assert_eq!(a.transition, 500_000);
    a.update(true, 100_000);
    assert_eq!(a.transition, 750_000);
    let mut last = a.transition;
    for _ in 0..100 {
        a.update(true, 100_000);
        assert!(a.transition >= last);
        assert!(a.transition <= 1_000_000);
        last = a.transition;
    }
    // releasing: monotonically non-increasing
    a.update(false, 100_000);
    let mut last = a.transition;
    for _ in 0..100 {
        a.update(false, 100_000);
        assert!(a.transition <= last);
        assert!(a.transition >= 0);
        last = a.transition;
    }
}

#[test]
fn aim_transition_clamps_on_oversized_tick() {
    let mut a = AimState::new();
    // 5 * dt covers more than the whole gap: clamped at exactly one
    a.update(true, 1_000_000);
    assert_eq!(a.transition, 1_000_000);
    a.update(false, 1_000_000);
    assert_eq!(a.transition, 0);
}

#[test]
fn projectile_expires_after_ceil_lifetime_over_dt_ticks() {
    // lifetime 3.0 s, dt 0.9 s: ceil(3.0 / 0.9) = 4 ticks
    let mut ps = ProjectileSet::new();
    ps.spawn(Faction::Player, origin(), forward_neg_z(), 3_000_000);
    for _ in 0..3 {
        ps.age_and_cull(900_000);
        assert_eq!(ps.len(), 1);
    }
    ps.age_and_cull(900_000);
    assert_eq!(ps.len(), 0);
}

#[test]
fn projectile_expiry_exact_division() {
    // lifetime 3.0 s, dt 1.0 s: removed on the 3rd tick, not the 4th
    let mut ps = ProjectileSet::new();
    ps.spawn(Faction::Enemy, origin(), forward_neg_z(), 3_000_000);
    ps.age_and_cull(1_000_000);
    ps.age_and_cull(1_000_000);
    assert_eq!(ps.len(), 1);
    ps.age_and_cull(1_000_000);
    assert_eq!(ps.len(), 0);
}

#[test]
fn self_hit_event_is_ignored_and_projectile_survives() {
    let mut core = CombatCore::new();
    let pid = core.projectiles.spawn(
        Faction::Player,
        origin(),
        forward_neg_z(),
        3_000_000,
    );
    let marker_before = core.hit_marker;
    resolve_event(
        &mut core.projectiles,
        &mut core.enemies,
        &mut core.hit_marker,
        core.player_id,
        CollisionEvent { a: pid, b: core.player_id },
    );
    // the whole event is ignored: no damage, no despawn, shot not consumed
    assert_eq!(core.projectiles.len(), 1);
    assert_eq!(core.enemies.units[0].health.current, 100_000_000);
    assert_eq!(core.hit_marker, marker_before);
}

#[test]
fn enemy_hit_event_always_consumes_projectile() {
    let mut core = CombatCore::new();
    let pid = core.projectiles.spawn(
        Faction::Player,
        origin(),
        forward_neg_z(),
        3_000_000,
    );
    let enemy_id = core.enemies.units[0].id;
    resolve_event(
        &mut core.projectiles,
        &mut core.enemies,
        &mut core.hit_marker,
        core.player_id,
        CollisionEvent { a: enemy_id, b: pid },
    );
    assert_eq!(core.projectiles.len(), 0);
    assert_eq!(core.enemies.units[0].health.current, 75_000_000);
}

#[test]
fn enemy_projectile_miss_is_ignored_hit_on_enemy_consumes_without_damage() {
    let mut core = CombatCore::new();
    let pid = core.projectiles.spawn(
        Faction::Enemy,
        origin(),
        forward_neg_z(),
        5_000_000,
    );
    // against the ground (an identity that is no live enemy): ignored, not consumed
    resolve_event(
        &mut core.projectiles,
        &mut core.enemies,
        &mut core.hit_marker,
        core.player_id,
        CollisionEvent { a: pid, b: 999 },
    );
    assert_eq!(core.projectiles.len(), 1);
    // against a live enemy: consumed, but no damage (only player shots damage)
    let enemy_id = core.enemies.units[0].id;
    resolve_event(
        &mut core.projectiles,
        &mut core.enemies,
        &mut core.hit_marker,
        core.player_id,
        CollisionEvent { a: pid, b: enemy_id },
    );
    assert_eq!(core.projectiles.len(), 0);
    assert_eq!(core.enemies.units[0].health.current, 100_000_000);
}

#[test]
fn event_without_projectile_is_physics_noise() {
    let mut core = CombatCore::new();
    core.projectiles.spawn(Faction::Player, origin(), forward_neg_z(), 3_000_000);
    let enemy_id = core.enemies.units[0].id;
    // terrain-vs-enemy contact: neither body is a projectile
    resolve_event(
        &mut core.projectiles,
        &mut core.enemies,
        &mut core.hit_marker,
        core.player_id,
        CollisionEvent { a: 999, b: enemy_id },
    );
    assert_eq!(core.projectiles.len(), 1);
    assert_eq!(core.enemies.units[0].health.current, 100_000_000);
}

#[test]
fn projectile_pair_event_consumes_first_named() {
    let mut core = CombatCore::new();
    let p1 = core.projectiles.spawn(Faction::Player, origin(), forward_neg_z(), 3_000_000);
    let p2 = core.projectiles.spawn(Faction::Enemy, origin(), forward_neg_z(), 5_000_000);
    // two shots meet mid-air: the first-named projectile is the one resolved;
    // a player shot against a non-enemy, non-player body is consumed silently
    resolve_event(
        &mut core.projectiles,
        &mut core.enemies,
        &mut core.hit_marker,
        core.player_id,
        CollisionEvent { a: p1, b: p2 },
    );
    assert_eq!(core.projectiles.len(), 1);
    assert_eq!(core.projectiles.items[0].id, p2);
    assert_eq!(core.enemies.units[0].health.current, 100_000_000);
}

#[test]
fn four_hits_reach_exactly_zero_and_remove_enemy() {
    let mut core = CombatCore::new();
    let enemy_id = core.enemies.units[0].id;
    for hit in 1..=4u32 {
        let pid = core.projectiles.spawn(
            Faction::Player,
            origin(),
            forward_neg_z(),
            3_000_000,
        );
        resolve_event(
            &mut core.projectiles,
            &mut core.enemies,
            &mut core.hit_marker,
            core.player_id,
            CollisionEvent { a: pid, b: enemy_id },
        );
        match hit {
            1 => assert_eq!(core.enemies.units[0].health.current, 75_000_000),
            2 => assert_eq!(core.enemies.units[0].health.current, 50_000_000),
            3 => assert_eq!(core.enemies.units[0].health.current, 25_000_000),
            // the 4th hit drives health exactly to zero and removes the
            // enemy in the same step: no negative leak survives
            _ => assert_eq!(core.enemies.len(), 0),
        }
    }
}

#[test]
fn stale_event_in_same_pass_is_ignored() {
    let mut core = CombatCore::new();
    let pid = core.projectiles.spawn(
        Faction::Player,
        origin(),
        forward_neg_z(),
        3_000_000,
    );
    let enemy_id = core.enemies.units[0].id;
    let events = vec![
        CollisionEvent { a: pid, b: enemy_id },
        // same projectile again: already consumed, must be stale
        CollisionEvent { a: pid, b: enemy_id },
    ];
    resolve_collisions(
        &mut core.projectiles,
        &mut core.enemies,
        &mut core.hit_marker,
        core.player_id,
        &events,
    );
    assert_eq!(core.projectiles.len(), 0);
    // exactly one hit registered
    assert_eq!(core.enemies.units[0].health.current, 75_000_000);
}

#[test]
fn fire_gate_spawns_on_second_tick_with_half_period_dt() {
    let mut core = CombatCore::new();
    let barrel = origin();
    let spawned = player_fire_control(
        true,
        50_000,
        &mut core.shoot_timer,
        &mut core.recoil,
        &mut core.projectiles,
        barrel,
        forward_neg_z(),
    );
    assert!(spawned.is_none());
    let spawned = player_fire_control(
        true,
        50_000,
        &mut core.shoot_timer,
        &mut core.recoil,
        &mut core.projectiles,
        barrel,
        forward_neg_z(),
    );
    assert!(spawned.is_some());
    assert_eq!(core.projectiles.len(), 1);
}

#[test]
fn releasing_fire_resets_gate_for_immediate_first_shot() {
    let mut core = CombatCore::new();
    let barrel = origin();
    player_fire_control(
        true,
        70_000,
        &mut core.shoot_timer,
        &mut core.recoil,
        &mut core.projectiles,
        barrel,
        forward_neg_z(),
    );
    assert_eq!(core.shoot_timer.elapsed_us, 70_000);
    // releasing clears any partial charge
    player_fire_control(
        false,
        50_000,
        &mut core.shoot_timer,
        &mut core.recoil,
        &mut core.projectiles,
        barrel,
        forward_neg_z(),
    );
    assert_eq!(core.shoot_timer.elapsed_us, 0);
    assert_eq!(core.projectiles.len(), 0);
}

#[test]
fn end_to_end_shot_flight_and_hit() {
    let mut core = CombatCore::new();
    // fire-rate timer finishes on this tick; barrel at origin facing -Z
    let spawned = player_fire_control(
        true,
        100_000,
        &mut core.shoot_timer,
        &mut core.recoil,
        &mut core.projectiles,
        origin(),
        forward_neg_z(),
    );
    let pid = spawned.expect("the finished gate must spawn");
    assert_eq!(core.projectiles.items[0].position, origin());
    // velocity (0, 0, -100) world units per second
    assert_eq!(
        core.projectiles.items[0].velocity,
        Vec3Fx { x: 0, y: 0, z: -100_000_000 }
    );
    // the shot kicked the recoil model
    assert_eq!(core.recoil.vertical, -12_000);
    // after 0.03 s of flight it still exists: 3.0 - 0.03 > 0
    core.projectiles.age_and_cull(30_000);
    assert_eq!(core.projectiles.len(), 1);
    assert_eq!(core.projectiles.items[0].lifetime_us, 2_970_000);
    // it pairs with the enemy: 100 -> 75 health, marker reset, shot consumed
    let enemy_id = core.enemies.units[0].id;
    let events = vec![CollisionEvent { a: pid, b: enemy_id }];
    resolve_collisions(
        &mut core.projectiles,
        &mut core.enemies,
        &mut core.hit_marker,
        core.player_id,
        &events,
    );
    assert_eq!(core.enemies.units[0].health.current, 75_000_000);
    assert_eq!(core.projectiles.len(), 0);
    assert_eq!(core.hit_marker.elapsed_us, 0);
    // freshly reset flash timer reads fully opaque
    let alpha = update_hit_marker(&mut core.hit_marker, 10_000);
    assert_eq!(alpha, 1_000_000);
    // and transparent once the 0.1 s flash has run out
    let alpha = update_hit_marker(&mut core.hit_marker, 100_000);
    assert_eq!(alpha, 0);
}

#[test]
fn enemy_volley_aims_at_player_snapshot() {
    let mut core = CombatCore::new();
    // enemy at (0, 1.5, -5); player straight ahead at (0, 1.5, 0):
    // direction (0, 0, 1), velocity (0, 0, 100)
    let player_pos = Vec3Fx { x: 0, y: 1_500_000, z: 0 };
    let spawned = enemy_fire_control(
        1_500_000,
        &mut core.enemy_timer,
        &mut core.projectiles,
        &core.enemies.units,
        player_pos,
    );
    assert_eq!(spawned, 1);
    assert_eq!(core.projectiles.len(), 1);
    let shot = core.projectiles.items[0];
    assert_eq!(shot.faction, Faction::Enemy);
    assert_eq!(shot.lifetime_us, 5_000_000);
    assert_eq!(shot.position, Vec3Fx { x: 0, y: 1_500_000, z: -5_000_000 });
    assert_eq!(shot.velocity, Vec3Fx { x: 0, y: 0, z: 100_000_000 });
}

#[test]
fn enemy_volley_waits_for_timer() {
    let mut core = CombatCore::new();
    let player_pos = Vec3Fx { x: 0, y: 1_500_000, z: 0 };
    let spawned = enemy_fire_control(
        1_000_000,
        &mut core.enemy_timer,
        &mut core.projectiles,
        &core.enemies.units,
        player_pos,
    );
    assert_eq!(spawned, 0);
    assert_eq!(core.projectiles.len(), 0);
}

#[test]
fn isqrt_exact_values() {
    assert_eq!(isqrt(0), 0);
    assert_eq!(isqrt(1), 1);
    assert_eq!(isqrt(24), 4);
    assert_eq!(isqrt(25), 5);
    assert_eq!(isqrt(26), 5);
    assert_eq!(isqrt(u64::MAX), 4_294_967_295);
}

#[test]
fn normalized_three_four_five() {
    let v = Vec3Fx { x: 3_000_000, y: 0, z: -4_000_000 };
    let n = normalized(v);
    assert_eq!(n, Vec3Fx { x: 600_000, y: 0, z: -800_000 });
}

#[test]
fn mouse_look_yaw_pitch_and_blend() {
    let mut look = LookState::new();
    let mut recoil = RecoilState::new();
    // pointer right and down by 100 px each at default sensitivities
    let cam = mouse_look(
        &mut look,
        &mut recoil,
        500_000,
        100,
        100,
        SENS_H_URAD_PER_PX,
        SENS_V_URAD_PER_PX,
    )
    .expect("non-zero delta must update the camera");
    // yaw turned by -100 * 0.0018 rad, wrapped into a full turn
    assert_eq!(look.yaw_urad, 6_283_185 - 180_000);
    // pitch accumulated -100 * 0.0015 rad
    assert_eq!(look.pitch_urad, -150_000);
    assert_eq!(cam.pitch_urad, -150_000);
    // halfway-aimed camera sits halfway toward the ADS offset
    assert_eq!(
        cam.translation,
        Vec3Fx { x: 0, y: 1_500_000, z: -150_000 }
    );
}

#[test]
fn mouse_look_no_motion_skips_but_still_decays_recoil() {
    let mut look = LookState::new();
    let mut recoil = RecoilState {
        vertical: -10_000,
        horizontal: 0,
        shots_fired: 1,
    };
    // vertical recoil reads as implicit motion, so delta is non-zero
    let cam = mouse_look(&mut look, &mut recoil, 0, 0, 0, 1_800, 1_500);
    assert!(cam.is_some());
    assert_eq!(recoil.vertical, -8_000);
    // pitch moved up: -(-10_000_000 upx) * 1500 / 1e6 = +15_000 urad
    assert_eq!(look.pitch_urad, 15_000);
    // with no recoil and no motion nothing is touched, but decay still ran
    let mut recoil = RecoilState { vertical: 0, horizontal: 0, shots_fired: 2 };
    let before = look;
    let cam = mouse_look(&mut look, &mut recoil, 0, 0, 0, 1_800, 1_500);
    assert!(cam.is_none());
    assert_eq!(look, before);
    assert_eq!(recoil.shots_fired, 2);
}

#[test]
fn pitch_clamps_inside_poles() {
    let mut look = LookState::new();
    let mut recoil = RecoilState::new();
    // an enormous downward delta pins the pitch at the clamp bound
    mouse_look(&mut look, &mut recoil, 0, 0, 1_000_000, 100_000, 100_000);
    assert_eq!(look.pitch_urad, -1_560_796);
    mouse_look(&mut look, &mut recoil, 0, 0, -1_000_000, 100_000, 100_000);
    assert_eq!(look.pitch_urad, 1_560_796);
}

#[test]
fn speed_factor_blend() {
    assert_eq!(speed_factor(0), 1_000_000);
    assert_eq!(speed_factor(500_000), 700_000);
    assert_eq!(speed_factor(1_000_000), 400_000);
}

#[test]
fn movement_velocity_forward_full_and_aimed() {
    let forward = Vec3Fx { x: 0, y: 0, z: -1_000_000 };
    let right = Vec3Fx { x: 1_000_000, y: 0, z: 0 };
    let keys = MoveKeys { forward: true, back: false, left: false, right: false };
    // hipfire: full 5.0 units per second
    assert_eq!(movement_velocity(forward, right, keys, 0), (0, -5_000_000));
    // fully aimed: 40% speed
    assert_eq!(movement_velocity(forward, right, keys, 1_000_000), (0, -2_000_000));
    // opposing keys cancel: no motion command
    let keys = MoveKeys { forward: true, back: true, left: false, right: false };
    assert_eq!(movement_velocity(forward, right, keys, 0), (0, 0));
}

#[test]
fn fov_blend_endpoints_and_midpoint() {
    assert_eq!(fov_urad(0), 1_047_198);
    assert_eq!(fov_urad(1_000_000), 523_599);
    assert_eq!(fov_urad(500_000), 1_047_198 - 261_799);
}

#[test]
fn camera_translation_blend() {
    assert_eq!(camera_translation(0), Vec3Fx { x: 0, y: 1_500_000, z: 0 });
    assert_eq!(
        camera_translation(1_000_000),
        Vec3Fx { x: 0, y: 1_500_000, z: -300_000 }
    );
}
