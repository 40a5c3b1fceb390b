//! Shooter scheduler: the player's input-gated, timer-limited fire control
//! and the enemies' unconditional timer-driven fire routine.
//!
//! Player: while the fire input is held the fire-rate timer ticks, and a
//! shot spawns only on a tick where the timer finishes; releasing the input
//! resets the timer immediately, so re-pressing always yields an immediate
//! first shot with no carried-over partial charge. A spawned shot starts at
//! the muzzle transform, flies at 100 world units per second along the
//! muzzle's forward direction, lives 3 seconds, and kicks the recoil model.
//!
//! Enemies: a repeating timer fires a volley; each enemy shoots one
//! projectile at the player's position as snapshotted at fire time (the shot
//! is not re-aimed in flight), at 100 units per second, living 5 seconds.

use vstd::prelude::*;
use crate::projectile::{
    Faction, Projectile, ProjectileSet, Vec3Fx, ENEMY_PROJECTILE_LIFETIME_US,
    PLAYER_PROJECTILE_LIFETIME_US,
};
use crate::combat::EnemyUnit;
use crate::recoil::{spec_after_fire, RecoilState};
use crate::timer::Timer;
use crate::vecfx;

verus! {

/// Muzzle speed of every projectile: 100 world units per second.
pub const PROJECTILE_SPEED: i64 = 100;

/// The player's shot as spawned from the muzzle transform.
pub open spec fn spec_player_shot(id: u64, position: Vec3Fx, forward: Vec3Fx) -> Projectile {
    Projectile {
        id,
        faction: Faction::Player,
        lifetime_us: PLAYER_PROJECTILE_LIFETIME_US,
        position,
        velocity: vecfx::spec_scale(forward, 100),
    }
}

/// One tick of the player's fire gate. Returns the identifier of the shot
/// spawned this tick, if any: exactly when the fire input is held and the
/// ticked fire-rate timer reports finished.
pub fn player_fire_control(
    fire_held: bool,
    dt_us: u64,
    shoot_timer: &mut Timer,
    recoil: &mut RecoilState,
    projectiles: &mut ProjectileSet,
    barrel_position: Vec3Fx,
    barrel_forward: Vec3Fx,
) -> (spawned: Option<u64>)
    requires
        old(shoot_timer).wf(),
        old(recoil).wf(),
        old(projectiles).wf(),
        dt_us <= u64::MAX - old(shoot_timer).duration_us,
        old(projectiles).next_id < u64::MAX,
        old(recoil).shots_fired < u64::MAX,
        -2_000_000_000 <= barrel_forward.x <= 2_000_000_000,
        -2_000_000_000 <= barrel_forward.y <= 2_000_000_000,
        -2_000_000_000 <= barrel_forward.z <= 2_000_000_000,
    ensures
        final(shoot_timer).wf(),
        final(recoil).wf(),
        final(projectiles).wf(),
        !fire_held ==> {
            &&& *final(shoot_timer) == (Timer {
                elapsed_us: 0,
                finished: false,
                times_finished: 0,
                ..*old(shoot_timer)
            })
            &&& *final(recoil) == *old(recoil)
            &&& final(projectiles).items@ == old(projectiles).items@
            &&& final(projectiles).next_id == old(projectiles).next_id
            &&& spawned is None
        },
        fire_held ==> {
            let ticked = old(shoot_timer).spec_tick(dt_us as int);
            &&& *final(shoot_timer) == ticked
            &&& (ticked.finished ==> {
                &&& spawned == Some(old(projectiles).next_id)
                &&& final(projectiles).items@ == old(projectiles).items@.push(
                    spec_player_shot(old(projectiles).next_id, barrel_position, barrel_forward),
                )
                &&& final(projectiles).next_id == old(projectiles).next_id + 1
                &&& *final(recoil) == spec_after_fire(*old(recoil))
            })
            &&& (!ticked.finished ==> {
                &&& spawned is None
                &&& final(projectiles).items@ == old(projectiles).items@
                &&& final(projectiles).next_id == old(projectiles).next_id
                &&& *final(recoil) == *old(recoil)
            })
        },
{
    if fire_held {
        shoot_timer.tick(dt_us);
        if shoot_timer.finished() {
            let velocity = vecfx::scale(barrel_forward, PROJECTILE_SPEED);
            let id = projectiles.spawn(
                Faction::Player,
                barrel_position,
                velocity,
                PLAYER_PROJECTILE_LIFETIME_US,
            );
            recoil.apply_fire_impulse();
            Some(id)
        } else {
            None
        }
    } else {
        shoot_timer.reset();
        None
    }
}

/// An enemy's shot: spawned at the enemy's position, aimed by the normalized
/// snapshot vector toward the player, at 100 units per second, living 5
/// seconds.
pub open spec fn spec_enemy_shot(id: u64, unit: EnemyUnit, player_position: Vec3Fx) -> Projectile {
    Projectile {
        id,
        faction: Faction::Enemy,
        lifetime_us: ENEMY_PROJECTILE_LIFETIME_US,
        position: unit.position,
        velocity: vecfx::spec_scale(
            vecfx::spec_normalized(vecfx::spec_sub(player_position, unit.position)),
            100,
        ),
    }
}

/// Whether an enemy has a well-defined direction to the player: a volley
/// skips an enemy standing exactly at the player's position, whose aim
/// vector would be zero.
pub open spec fn spec_can_aim(unit: EnemyUnit, player_position: Vec3Fx) -> bool {
    vecfx::spec_sub(player_position, unit.position) != Vec3Fx::spec_zero()
}

/// How many shots a volley by these enemies spawns.
pub open spec fn spec_volley_count(units: Seq<EnemyUnit>, player_position: Vec3Fx) -> int
    decreases units.len(),
{
    if units.len() == 0 {
        0
    } else {
        spec_volley_count(units.drop_last(), player_position) + if spec_can_aim(
            units.last(),
            player_position,
        ) {
            1int
        } else {
            0int
        }
    }
}

/// The projectile table contents after a volley: one shot per enemy that can
/// aim, in roster order, with consecutive fresh identifiers starting at
/// `next_id`.
pub open spec fn spec_volley_items(
    s: Seq<Projectile>,
    next_id: int,
    units: Seq<EnemyUnit>,
    player_position: Vec3Fx,
) -> Seq<Projectile>
    decreases units.len(),
{
    if units.len() == 0 {
        s
    } else {
        let front = spec_volley_items(s, next_id, units.drop_last(), player_position);
        let u = units.last();
        if spec_can_aim(u, player_position) {
            front.push(
                spec_enemy_shot(
                    (next_id + spec_volley_count(units.drop_last(), player_position)) as u64,
                    u,
                    player_position,
                ),
            )
        } else {
            front
        }
    }
}

/// A volley never spawns more shots than there are enemies.
pub proof fn lemma_volley_count_bounded(units: Seq<EnemyUnit>, player_position: Vec3Fx)
    ensures
        0 <= spec_volley_count(units, player_position) <= units.len(),
    decreases units.len(),
{
    if units.len() > 0 {
        lemma_volley_count_bounded(units.drop_last(), player_position);
    }
}

/// One tick of the enemies' fire schedule: tick the repeating fire timer,
/// and when it finishes every enemy that can aim fires one shot at the
/// player's current position.
pub fn enemy_fire_control(
    dt_us: u64,
    enemy_timer: &mut Timer,
    projectiles: &mut ProjectileSet,
    units: &Vec<EnemyUnit>,
    player_position: Vec3Fx,
) -> (spawned: usize)
    requires
        old(enemy_timer).wf(),
        old(projectiles).wf(),
        dt_us <= u64::MAX - old(enemy_timer).duration_us,
        old(projectiles).next_id + units@.len() < u64::MAX,
        -1_000_000_000 <= player_position.x <= 1_000_000_000,
        -1_000_000_000 <= player_position.y <= 1_000_000_000,
        -1_000_000_000 <= player_position.z <= 1_000_000_000,
        forall|i: int|
            0 <= i < units@.len() ==> {
                &&& -1_000_000_000 <= (#[trigger] units@[i]).position.x <= 1_000_000_000
                &&& -1_000_000_000 <= units@[i].position.y <= 1_000_000_000
                &&& -1_000_000_000 <= units@[i].position.z <= 1_000_000_000
            },
    ensures
        final(enemy_timer).wf(),
        final(projectiles).wf(),
        *final(enemy_timer) == old(enemy_timer).spec_tick(dt_us as int),
        old(enemy_timer).spec_tick(dt_us as int).finished ==> {
            &&& final(projectiles).items@ == spec_volley_items(
                old(projectiles).items@,
                old(projectiles).next_id as int,
                units@,
                player_position,
            )
            &&& final(projectiles).next_id == old(projectiles).next_id + spec_volley_count(
                units@,
                player_position,
            )
            &&& spawned == spec_volley_count(units@, player_position)
        },
        !old(enemy_timer).spec_tick(dt_us as int).finished ==> {
            &&& final(projectiles).items@ == old(projectiles).items@
            &&& final(projectiles).next_id == old(projectiles).next_id
            &&& spawned == 0
        },
{
    enemy_timer.tick(dt_us);
    if !enemy_timer.finished() {
        return 0;
    }
    let ghost orig = projectiles.items@;
    let ghost orig_next = projectiles.next_id as int;
    let mut spawned: usize = 0;
    let mut i: usize = 0;
    while i < units.len()
        invariant
            0 <= i <= units@.len(),
            projectiles.wf(),
            -1_000_000_000 <= player_position.x <= 1_000_000_000,
            -1_000_000_000 <= player_position.y <= 1_000_000_000,
            -1_000_000_000 <= player_position.z <= 1_000_000_000,
            forall|k: int|
                0 <= k < units@.len() ==> {
                    &&& -1_000_000_000 <= (#[trigger] units@[k]).position.x <= 1_000_000_000
                    &&& -1_000_000_000 <= units@[k].position.y <= 1_000_000_000
                    &&& -1_000_000_000 <= units@[k].position.z <= 1_000_000_000
                },
            orig_next + units@.len() < u64::MAX,
            spawned == spec_volley_count(units@.take(i as int), player_position),
            projectiles.next_id as int == orig_next + spawned,
            projectiles.items@ == spec_volley_items(
                orig,
                orig_next,
                units@.take(i as int),
                player_position,
            ),
        decreases units@.len() - i,
    {
        let u = units[i];
        proof {
            lemma_volley_count_bounded(units@.take(i as int), player_position);
            assert(units@.take(i + 1).drop_last() == units@.take(i as int));
            assert(units@.take(i + 1).last() == units@[i as int]);
        }
        let d = vecfx::sub(player_position, u.position);
        if d.x != 0 || d.y != 0 || d.z != 0 {
            let dir = vecfx::normalized(d);
            let velocity = vecfx::scale(dir, PROJECTILE_SPEED);
            projectiles.spawn(
                Faction::Enemy,
                u.position,
                velocity,
                ENEMY_PROJECTILE_LIFETIME_US,
            );
            spawned = spawned + 1;
        } else {
            proof {
                assert(!spec_can_aim(units@[i as int], player_position));
            }
        }
        i = i + 1;
    }
    proof {
        assert(units@.take(units@.len() as int) == units@);
    }
    spawned
}

} // verus!
