//! The assembled combat core: every piece of shared per-tick state, with the
//! same initial configuration the game starts from. The surrounding shell
//! owns the window, input polling, rendering and the physics service; it
//! calls the library's systems against this state once per tick, in the
//! documented order: aim update first, then fire control, then movement and
//! the look controller, then collision resolution with the tick's reported
//! events, then projectile ageing, then the hit-marker update.

use vstd::prelude::*;
use crate::aim::{spec_aim_step, AimState};
use crate::camera::{
    fov_urad, mouse_look, spec_camera_translation, spec_clamp_pitch, spec_fov_urad,
    spec_look_delta, spec_wrap_urad, update_hit_marker, CameraUpdate, LookState,
};
use crate::combat::{
    lemma_resolve_all_enemy_ids, lemma_resolve_all_marker_config, resolve_collisions,
    spec_resolve_all, spec_unit_descends_from, CollisionEvent, CombatModel, EnemyRoster,
    EnemyUnit, Health,
};
use crate::movement::{movement_velocity, spec_movement_velocity, MoveKeys};
use crate::projectile::{spec_culled, ProjectileSet, Vec3Fx};
use crate::recoil::{spec_after_fire, spec_decay_axis, RecoilState};
use crate::shooter::{
    enemy_fire_control, player_fire_control, spec_player_shot, spec_volley_count,
    spec_volley_items,
};
use crate::timer::{Timer, TimerMode};
use crate::vecfx::spec_muldiv_trunc;

verus! {

/// Player fire-rate period: 0.1 s, repeating.
pub const FIRE_PERIOD_US: u64 = 100_000;

/// Enemy fire-rate period: 1.5 s, repeating.
pub const ENEMY_FIRE_PERIOD_US: u64 = 1_500_000;

/// Hit-marker flash length: 0.1 s, one-shot.
pub const HIT_MARKER_FLASH_US: u64 = 100_000;

/// Starting and maximum enemy health: 100.0 in micro-units.
pub const ENEMY_START_HEALTH: i64 = 100_000_000;

/// The player's entity identity.
pub const PLAYER_ID: u64 = 0;

/// The starting enemy's entity identity.
pub const FIRST_ENEMY_ID: u64 = 1;

/// First identity handed to a projectile. Combatant identities stay below
/// this value, so a collision event can never confuse a projectile with the
/// player or an enemy.
pub const FIRST_PROJECTILE_ID: u64 = 1_000;

/// All shared mutable per-tick state of the combat core.
pub struct CombatCore {
    /// Gate for the player's held-fire input.
    pub shoot_timer: Timer,
    /// Unconditional schedule for enemy volleys.
    pub enemy_timer: Timer,
    /// Flash timer backing the hit-marker overlay.
    pub hit_marker: Timer,
    pub recoil: RecoilState,
    pub aim: AimState,
    pub look: LookState,
    pub projectiles: ProjectileSet,
    pub enemies: EnemyRoster,
    pub player_id: u64,
    /// Horizontal look sensitivity, micro-radians per pixel.
    pub sens_h_urad_per_px: i64,
    /// Vertical look sensitivity, micro-radians per pixel.
    pub sens_v_urad_per_px: i64,
}

/// Everything the engine shell polls and reports for one simulation tick.
pub struct TickInput {
    /// Wall-clock time since the previous tick, microseconds.
    pub dt_us: u64,
    /// Left mouse button held.
    pub fire_held: bool,
    /// Right mouse button held.
    pub aiming: bool,
    /// Accumulated pointer motion since the previous tick, pixels.
    pub motion_x_px: i64,
    pub motion_y_px: i64,
    /// Held movement keys.
    pub keys: MoveKeys,
    /// Muzzle world transform, as the render hierarchy reports it.
    pub barrel_position: Vec3Fx,
    pub barrel_forward: Vec3Fx,
    /// Player body transform, as the physics service reports it.
    pub player_position: Vec3Fx,
    pub body_forward: Vec3Fx,
    pub body_right: Vec3Fx,
    /// Collision-start events the physics service reported for this tick.
    pub events: Vec<CollisionEvent>,
}

/// What the engine shell applies after one simulation tick.
pub struct TickOutput {
    /// Horizontal `(x, z)` velocity command for the physics service.
    pub velocity_cmd: (i64, i64),
    /// Identity of the player shot spawned this tick, if any.
    pub spawned: Option<u64>,
    /// Number of enemy shots spawned this tick.
    pub enemy_shots: usize,
    /// Camera pitch and local position, when the look delta was non-zero.
    pub camera: Option<CameraUpdate>,
    /// Camera field of view for this tick, micro-radians.
    pub fov_urad: i64,
    /// Hit-marker overlay alpha, micro-units.
    pub hit_marker_alpha: i64,
}

impl CombatCore {
    /// Validity of the assembled state: every component is well formed, the
    /// timers run at the configured periods and modes, and the identity
    /// spaces of combatants and projectiles never overlap.
    pub open spec fn wf(self) -> bool {
        &&& self.shoot_timer.wf()
        &&& self.shoot_timer.mode is Repeating
        &&& self.shoot_timer.duration_us <= 86_400_000_000
        &&& self.enemy_timer.wf()
        &&& self.enemy_timer.mode is Repeating
        &&& self.enemy_timer.duration_us <= 86_400_000_000
        &&& self.hit_marker.wf()
        &&& self.hit_marker.mode is Once
        &&& self.hit_marker.duration_us <= 86_400_000_000
        &&& self.recoil.wf()
        &&& self.aim.wf()
        &&& self.look.wf()
        &&& self.projectiles.wf()
        &&& self.enemies.wf()
        &&& self.projectiles.next_id >= 1_000
        &&& self.player_id < 1_000
        &&& forall|i: int|
            0 <= i < self.enemies.units@.len() ==> (#[trigger] self.enemies.units@[i]).id < 1_000
        &&& 0 < self.sens_h_urad_per_px <= 100_000
        &&& 0 < self.sens_v_urad_per_px <= 100_000
    }

    /// The scene the game opens on: one enemy at full health five units in
    /// front of the player's spawn point, all timers at zero, no recoil, no
    /// aim, no shots in flight.
    pub fn new() -> (core: CombatCore)
        ensures
            core.wf(),
            core.shoot_timer.duration_us == FIRE_PERIOD_US,
            core.shoot_timer.mode is Repeating,
            core.shoot_timer.elapsed_us == 0,
            !core.shoot_timer.finished,
            core.enemy_timer.duration_us == ENEMY_FIRE_PERIOD_US,
            core.enemy_timer.elapsed_us == 0,
            !core.enemy_timer.finished,
            core.hit_marker.duration_us == HIT_MARKER_FLASH_US,
            core.hit_marker.elapsed_us == 0,
            !core.hit_marker.finished,
            core.recoil.vertical == 0 && core.recoil.horizontal == 0 && core.recoil.shots_fired
                == 0,
            !core.aim.aiming && core.aim.transition == 0,
            core.look.yaw_urad == 0 && core.look.pitch_urad == 0,
            core.projectiles.items@.len() == 0,
            core.projectiles.next_id == FIRST_PROJECTILE_ID,
            core.enemies.units@ == seq![
                EnemyUnit {
                    id: FIRST_ENEMY_ID,
                    position: Vec3Fx { x: 0, y: 1_500_000, z: -5_000_000i64 },
                    health: Health { current: ENEMY_START_HEALTH, max: ENEMY_START_HEALTH },
                },
            ],
            core.player_id == PLAYER_ID,
            core.sens_h_urad_per_px == 1_800,
            core.sens_v_urad_per_px == 1_500,
    {
        let mut enemies = EnemyRoster::new();
        enemies.add(
            EnemyUnit {
                id: FIRST_ENEMY_ID,
                position: Vec3Fx { x: 0, y: 1_500_000, z: -5_000_000i64 },
                health: Health { current: ENEMY_START_HEALTH, max: ENEMY_START_HEALTH },
            },
        );
        proof {
            assert(enemies.units@ =~= seq![
                EnemyUnit {
                    id: FIRST_ENEMY_ID,
                    position: Vec3Fx { x: 0, y: 1_500_000, z: -5_000_000i64 },
                    health: Health { current: ENEMY_START_HEALTH, max: ENEMY_START_HEALTH },
                },
            ]);
        }
        CombatCore {
            shoot_timer: Timer::new(FIRE_PERIOD_US, TimerMode::Repeating),
            enemy_timer: Timer::new(ENEMY_FIRE_PERIOD_US, TimerMode::Repeating),
            hit_marker: Timer::new(HIT_MARKER_FLASH_US, TimerMode::Once),
            recoil: RecoilState::new(),
            aim: AimState::new(),
            look: LookState::new(),
            projectiles: ProjectileSet { items: Vec::new(), next_id: FIRST_PROJECTILE_ID },
            enemies,
            player_id: PLAYER_ID,
            sens_h_urad_per_px: 1_800,
            sens_v_urad_per_px: 1_500,
        }
    }

    /// One whole simulation tick, the systems run in the mandated order:
    /// aim state first (every consumer reads this tick's transition), then
    /// movement, then the player fire gate and the enemy fire schedule, then
    /// the look controller (which sees this tick's recoil and decays it),
    /// then collision resolution with the events the physics service
    /// reported, then projectile ageing, and last the hit-marker overlay.
    ///
    /// The contract is the composition of the per-system models, so the
    /// ordering invariants are part of what is proved: the velocity command,
    /// the field of view and the camera blend all read the post-update aim
    /// transition, the look delta reads the post-impulse recoil, and the
    /// ageing pass culls only what the resolver left alive.
    pub fn tick(&mut self, input: &TickInput) -> (out: TickOutput)
        requires
            old(self).wf(),
            input.dt_us <= 100_000_000_000,
            old(self).projectiles.next_id + 1 + old(self).enemies.units@.len() < u64::MAX,
            old(self).recoil.shots_fired < u64::MAX,
            -1_000_000 <= input.motion_x_px <= 1_000_000,
            -1_000_000 <= input.motion_y_px <= 1_000_000,
            -1_000_000_000 <= input.barrel_position.x <= 1_000_000_000,
            -1_000_000_000 <= input.barrel_position.y <= 1_000_000_000,
            -1_000_000_000 <= input.barrel_position.z <= 1_000_000_000,
            -1_000_000_000 <= input.barrel_forward.x <= 1_000_000_000,
            -1_000_000_000 <= input.barrel_forward.y <= 1_000_000_000,
            -1_000_000_000 <= input.barrel_forward.z <= 1_000_000_000,
            -1_000_000_000 <= input.player_position.x <= 1_000_000_000,
            -1_000_000_000 <= input.player_position.y <= 1_000_000_000,
            -1_000_000_000 <= input.player_position.z <= 1_000_000_000,
            -1_000_000_000 <= input.body_forward.x <= 1_000_000_000,
            -1_000_000_000 <= input.body_forward.z <= 1_000_000_000,
            -1_000_000_000 <= input.body_right.x <= 1_000_000_000,
            -1_000_000_000 <= input.body_right.z <= 1_000_000_000,
            forall|i: int|
                0 <= i < old(self).enemies.units@.len() ==> {
                    &&& -1_000_000_000 <= (#[trigger] old(self).enemies.units@[i]).position.x
                        <= 1_000_000_000
                    &&& -1_000_000_000 <= old(self).enemies.units@[i].position.y <= 1_000_000_000
                    &&& -1_000_000_000 <= old(self).enemies.units@[i].position.z <= 1_000_000_000
                },
        ensures
            final(self).wf(),
            final(self).player_id == old(self).player_id,
            final(self).sens_h_urad_per_px == old(self).sens_h_urad_per_px,
            final(self).sens_v_urad_per_px == old(self).sens_v_urad_per_px,
            ({
                let t1 = spec_aim_step(
                    old(self).aim.transition as int,
                    input.aiming,
                    input.dt_us as int,
                );
                let fire_ticked = old(self).shoot_timer.spec_tick(input.dt_us as int);
                let fired = input.fire_held && fire_ticked.finished;
                let recoil1 = if fired {
                    spec_after_fire(old(self).recoil)
                } else {
                    old(self).recoil
                };
                let items1 = if fired {
                    old(self).projectiles.items@.push(
                        spec_player_shot(
                            old(self).projectiles.next_id,
                            input.barrel_position,
                            input.barrel_forward,
                        ),
                    )
                } else {
                    old(self).projectiles.items@
                };
                let next1 = old(self).projectiles.next_id + if fired {
                    1int
                } else {
                    0int
                };
                let enemy_ticked = old(self).enemy_timer.spec_tick(input.dt_us as int);
                let items2 = if enemy_ticked.finished {
                    spec_volley_items(
                        items1,
                        next1,
                        old(self).enemies.units@,
                        input.player_position,
                    )
                } else {
                    items1
                };
                let shots = if enemy_ticked.finished {
                    spec_volley_count(old(self).enemies.units@, input.player_position)
                } else {
                    0int
                };
                let dx = spec_look_delta(input.motion_x_px as int, recoil1.horizontal as int);
                let dy = spec_look_delta(input.motion_y_px as int, recoil1.vertical as int);
                let m = spec_resolve_all(
                    CombatModel {
                        projectiles: items2,
                        enemies: old(self).enemies.units@,
                        hit_marker: old(self).hit_marker,
                    },
                    old(self).player_id,
                    input.events@,
                );
                &&& final(self).aim == (AimState { aiming: input.aiming, transition: t1 as i64 })
                &&& (out.velocity_cmd.0 as int, out.velocity_cmd.1 as int)
                    == spec_movement_velocity(
                    input.body_forward,
                    input.body_right,
                    input.keys,
                    t1,
                )
                &&& final(self).shoot_timer == if input.fire_held {
                    fire_ticked
                } else {
                    Timer {
                        elapsed_us: 0,
                        finished: false,
                        times_finished: 0,
                        ..old(self).shoot_timer
                    }
                }
                &&& out.spawned == if fired {
                    Some(old(self).projectiles.next_id)
                } else {
                    None::<u64>
                }
                &&& final(self).enemy_timer == enemy_ticked
                &&& out.enemy_shots == shots
                &&& final(self).recoil == (RecoilState {
                    vertical: spec_decay_axis(recoil1.vertical as int) as i64,
                    horizontal: spec_decay_axis(recoil1.horizontal as int) as i64,
                    shots_fired: recoil1.shots_fired,
                })
                &&& (dx == 0 && dy == 0 ==> final(self).look == old(self).look && out.camera
                    is None)
                &&& (!(dx == 0 && dy == 0) ==> {
                    &&& final(self).look.yaw_urad == spec_wrap_urad(
                        old(self).look.yaw_urad - spec_muldiv_trunc(
                            dx,
                            old(self).sens_h_urad_per_px as int,
                            1_000_000,
                        ),
                    )
                    &&& final(self).look.pitch_urad == spec_clamp_pitch(
                        old(self).look.pitch_urad - spec_muldiv_trunc(
                            dy,
                            old(self).sens_v_urad_per_px as int,
                            1_000_000,
                        ),
                    )
                    &&& out.camera == Some(
                        CameraUpdate {
                            pitch_urad: final(self).look.pitch_urad,
                            translation: spec_camera_translation(t1),
                        },
                    )
                })
                &&& out.fov_urad == spec_fov_urad(t1)
                &&& final(self).enemies.units@ == m.enemies
                &&& final(self).projectiles.items@ == spec_culled(
                    m.projectiles,
                    input.dt_us as int,
                )
                &&& final(self).projectiles.next_id == next1 + shots
                &&& final(self).hit_marker == m.hit_marker.spec_tick(input.dt_us as int)
                &&& out.hit_marker_alpha == if final(self).hit_marker.finished {
                    0int
                } else {
                    1_000_000int
                }
            }),
    {
        // aim state machine: every later system reads this tick's transition
        self.aim.update(input.aiming, input.dt_us);

        // movement: velocity command for the physics service
        let velocity_cmd = movement_velocity(
            input.body_forward,
            input.body_right,
            input.keys,
            self.aim.transition,
        );

        // shooter scheduler: the player's gate, then the enemy schedule
        let spawned = player_fire_control(
            input.fire_held,
            input.dt_us,
            &mut self.shoot_timer,
            &mut self.recoil,
            &mut self.projectiles,
            input.barrel_position,
            input.barrel_forward,
        );
        let enemy_shots = enemy_fire_control(
            input.dt_us,
            &mut self.enemy_timer,
            &mut self.projectiles,
            &self.enemies.units,
            input.player_position,
        );

        // look controller: reads this tick's recoil and decays it exactly once
        let camera = mouse_look(
            &mut self.look,
            &mut self.recoil,
            self.aim.transition,
            input.motion_x_px,
            input.motion_y_px,
            self.sens_h_urad_per_px,
            self.sens_v_urad_per_px,
        );
        let fov = fov_urad(self.aim.transition);

        // collision resolution with the physics service's reports
        let ghost pre_resolve = CombatModel {
            projectiles: self.projectiles.items@,
            enemies: self.enemies.units@,
            hit_marker: self.hit_marker,
        };
        let player_id = self.player_id;
        resolve_collisions(
            &mut self.projectiles,
            &mut self.enemies,
            &mut self.hit_marker,
            player_id,
            &input.events,
        );
        proof {
            lemma_resolve_all_enemy_ids(pre_resolve, player_id, input.events@);
            lemma_resolve_all_marker_config(pre_resolve, player_id, input.events@);
            assert forall|i: int|
                0 <= i < self.enemies.units@.len() implies (#[trigger] self.enemies.units@[i]).id
                < 1_000 by {
                let u = self.enemies.units@[i];
                assert(spec_unit_descends_from(u, pre_resolve.enemies));
                let j = choose|j: int|
                    0 <= j < pre_resolve.enemies.len() && (#[trigger] pre_resolve.enemies[j]).id
                        == u.id && pre_resolve.enemies[j].position == u.position
                        && pre_resolve.enemies[j].health.max == u.health.max && u.health.current
                        <= pre_resolve.enemies[j].health.current;
                assert(pre_resolve.enemies[j].id < 1_000);
            }
        }

        // projectile ageing, then the hit-marker overlay
        self.projectiles.age_and_cull(input.dt_us);
        let hit_marker_alpha = update_hit_marker(&mut self.hit_marker, input.dt_us);

        TickOutput { velocity_cmd, spawned, enemy_shots, camera, fov_urad: fov, hit_marker_alpha }
    }
}

} // verus!
