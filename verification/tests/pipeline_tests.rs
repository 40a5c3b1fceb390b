use combat_core::combat::CollisionEvent;
use combat_core::movement::MoveKeys;
use combat_core::projectile::Vec3Fx;
use combat_core::session::{CombatCore, TickInput};

fn quiet_input(dt_us: u64) -> TickInput {
    TickInput {
        dt_us,
        fire_held: false,
        aiming: false,
        motion_x_px: 0,
        motion_y_px: 0,
        keys: MoveKeys { forward: false, back: false, left: false, right: false },
        barrel_position: Vec3Fx { x: 0, y: 0, z: 0 },
        barrel_forward: Vec3Fx { x: 0, y: 0, z: -1_000_000 },
        player_position: Vec3Fx { x: 0, y: 1_500_000, z: 5_000_000 },
        body_forward: Vec3Fx { x: 0, y: 0, z: -1_000_000 },
        body_right: Vec3Fx { x: 1_000_000, y: 0, z: 0 },
        events: Vec::new(),
    }
}

#[test]
fn pipeline_fire_gate_spawns_on_second_half_period_tick() {
    let mut core = CombatCore::new();
    let mut input = quiet_input(50_000);
    input.fire_held = true;
    let out = core.tick(&input);
    assert!(out.spawned.is_none());
    let mut input = quiet_input(50_000);
    input.fire_held = true;
    let out = core.tick(&input);
    assert!(out.spawned.is_some());
    assert_eq!(core.projectiles.len(), 1);
    // the same-tick shot's recoil is already decayed once by the look phase:
    // (-12_000) * 4 / 5
    assert_eq!(core.recoil.vertical, -9_600);
}

#[test]
fn pipeline_end_to_end_hit_and_flash() {
    let mut core = CombatCore::new();
    // fire one shot: full fire period in one tick
    let mut input = quiet_input(100_000);
    input.fire_held = true;
    let out = core.tick(&input);
    let pid = out.spawned.expect("gate finished, must spawn");
    assert_eq!(
        core.projectiles.items[0].velocity,
        Vec3Fx { x: 0, y: 0, z: -100_000_000 }
    );
    // it aged one tick already: 3.0 s - 0.1 s
    assert_eq!(core.projectiles.items[0].lifetime_us, 2_900_000);
    // next tick the physics service reports the hit
    let enemy_id = core.enemies.units[0].id;
    let mut input = quiet_input(16_666);
    input.events = vec![CollisionEvent { a: pid, b: enemy_id }];
    let out = core.tick(&input);
    assert_eq!(core.enemies.units[0].health.current, 75_000_000);
    assert_eq!(core.projectiles.len(), 0);
    // the marker flash is visible on the hit tick
    assert_eq!(out.hit_marker_alpha, 1_000_000);
    // and gone once the 0.1 s flash has elapsed
    let out = core.tick(&quiet_input(100_000));
    assert_eq!(out.hit_marker_alpha, 0);
}

#[test]
fn pipeline_aim_drives_speed_fov_and_camera() {
    let mut core = CombatCore::new();
    let mut input = quiet_input(100_000);
    input.aiming = true;
    input.keys.forward = true;
    input.motion_x_px = 1;
    let out = core.tick(&input);
    // transition reached 0.5 this tick; every consumer reads that same value
    assert_eq!(core.aim.transition, 500_000);
    assert_eq!(out.velocity_cmd, (0, -3_500_000)); // 5.0 * 0.7 units/s
    assert_eq!(out.fov_urad, 1_047_198 - 261_799);
    let cam = out.camera.expect("pointer motion updates the camera");
    assert_eq!(cam.translation, Vec3Fx { x: 0, y: 1_500_000, z: -150_000 });
}

#[test]
fn pipeline_enemy_volley_fires_on_schedule() {
    let mut core = CombatCore::new();
    // 1.4 s: enemy timer not finished, nothing spawns
    let out = core.tick(&quiet_input(1_400_000));
    assert_eq!(out.enemy_shots, 0);
    assert_eq!(core.projectiles.len(), 0);
    // 0.1 s more: the 1.5 s boundary is crossed, one enemy fires
    let out = core.tick(&quiet_input(100_000));
    assert_eq!(out.enemy_shots, 1);
    assert_eq!(core.projectiles.len(), 1);
    let shot = core.projectiles.items[0];
    // aimed at the player snapshot from (0, 1.5, -5) to (0, 1.5, 5)
    assert_eq!(shot.velocity, Vec3Fx { x: 0, y: 0, z: 100_000_000 });
}
