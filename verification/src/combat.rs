//! Collision resolver: consumes the collision-start events reported by the
//! physics service for one tick and applies the faction rules.
//!
//! Per event: find which of the two bodies is a live projectile (the first
//! named body wins if both are); events with no projectile are physics noise
//! and are ignored. A player-owned projectile touching the player itself is
//! ignored entirely — the shot is not consumed, or it would despawn at the
//! muzzle. An enemy-owned projectile touching anything that is not a live
//! enemy is likewise ignored entirely. Otherwise the projectile is consumed:
//! on a player-vs-enemy hit it deals fixed damage, resets the hit-marker
//! flash timer, and removes the enemy in the same pass when its health
//! reaches zero or less. A consumed identity is removed synchronously, so a
//! later event in the same pass that names it is stale and resolves to a
//! no-op.

use vstd::prelude::*;
use crate::projectile::{Faction, Projectile, ProjectileSet, Vec3Fx};
use crate::timer::Timer;

verus! {

/// Damage of one valid player hit: 25.0 health units in micro-units.
pub const DAMAGE_PER_HIT: i64 = 25_000_000;

/// Health pool of a combatant, micro-units. A live enemy always has
/// `0 < current <= max`; the resolver is the only writer and only ever
/// decreases `current`.
#[derive(Clone, Copy, PartialEq, Eq, Structural, Debug)]
pub struct Health {
    pub current: i64,
    pub max: i64,
}

impl Health {
    pub open spec fn wf(self) -> bool {
        0 < self.current <= self.max
    }
}

/// A live enemy combatant: fixed position, health pool, unique identity.
#[derive(Clone, Copy, PartialEq, Eq, Structural, Debug)]
pub struct EnemyUnit {
    pub id: u64,
    pub position: Vec3Fx,
    pub health: Health,
}

/// The entity table of live enemies. An enemy whose health is driven to
/// zero or less is removed on the same resolution step, so every entry is
/// live.
pub struct EnemyRoster {
    pub units: Vec<EnemyUnit>,
}

/// A collision-start event from the physics service: an unordered pair of
/// body identities, consumed exactly once.
#[derive(Clone, Copy, PartialEq, Eq, Structural, Debug)]
pub struct CollisionEvent {
    pub a: u64,
    pub b: u64,
}

/// Spec-level snapshot of everything the resolver may touch.
pub struct CombatModel {
    pub projectiles: Seq<Projectile>,
    pub enemies: Seq<EnemyUnit>,
    pub hit_marker: Timer,
}

pub open spec fn spec_proj_contains(s: Seq<Projectile>, id: u64) -> bool {
    exists|i: int| 0 <= i < s.len() && s[i].id == id
}

pub open spec fn spec_proj_index(s: Seq<Projectile>, id: u64) -> int {
    choose|i: int| 0 <= i < s.len() && s[i].id == id
}

pub open spec fn spec_enemy_contains(s: Seq<EnemyUnit>, id: u64) -> bool {
    exists|i: int| 0 <= i < s.len() && s[i].id == id
}

pub open spec fn spec_enemy_index(s: Seq<EnemyUnit>, id: u64) -> int {
    choose|i: int| 0 <= i < s.len() && s[i].id == id
}

/// The hit-marker timer the instant it is reset by a registered hit.
pub open spec fn spec_marker_reset(t: Timer) -> Timer {
    Timer { elapsed_us: 0, finished: false, times_finished: 0, ..t }
}

/// Functional model of resolving one collision-start event.
pub open spec fn spec_resolve_event(m: CombatModel, player_id: u64, ev: CollisionEvent) -> CombatModel {
    if !spec_proj_contains(m.projectiles, ev.a) && !spec_proj_contains(m.projectiles, ev.b) {
        // physics noise: neither body is a live projectile
        m
    } else {
        let proj_id = if spec_proj_contains(m.projectiles, ev.a) {
            ev.a
        } else {
            ev.b
        };
        let other = if spec_proj_contains(m.projectiles, ev.a) {
            ev.b
        } else {
            ev.a
        };
        let idx = spec_proj_index(m.projectiles, proj_id);
        let p = m.projectiles[idx];
        if p.faction is Player && other == player_id {
            // self-collision at the muzzle: the whole event is ignored and
            // the shot is not consumed
            m
        } else if p.faction is Enemy && !spec_enemy_contains(m.enemies, other) {
            // an enemy shot is only consumed against a live enemy-health
            // bearer; anything else is a silent miss
            m
        } else {
            let consumed = m.projectiles.remove(idx);
            if p.faction is Player && spec_enemy_contains(m.enemies, other) {
                let ei = spec_enemy_index(m.enemies, other);
                let e = m.enemies[ei];
                let hurt = (e.health.current - DAMAGE_PER_HIT) as i64;
                let enemies = if hurt <= 0 {
                    m.enemies.remove(ei)
                } else {
                    m.enemies.update(
                        ei,
                        EnemyUnit { health: Health { current: hurt, ..e.health }, ..e },
                    )
                };
                CombatModel {
                    projectiles: consumed,
                    enemies,
                    hit_marker: spec_marker_reset(m.hit_marker),
                }
            } else {
                CombatModel { projectiles: consumed, ..m }
            }
        }
    }
}

/// The model after a whole tick's event sequence, resolved in order.
pub open spec fn spec_resolve_all(m: CombatModel, player_id: u64, evs: Seq<CollisionEvent>) -> CombatModel
    decreases evs.len(),
{
    if evs.len() == 0 {
        m
    } else {
        spec_resolve_all(spec_resolve_event(m, player_id, evs[0]), player_id, evs.skip(1))
    }
}

impl EnemyRoster {
    /// Validity: identifiers are unique and every entry is live.
    pub open spec fn wf(self) -> bool {
        &&& forall|i: int, j: int|
            0 <= i < j < self.units@.len() ==> self.units@[i].id != self.units@[j].id
        &&& forall|i: int| 0 <= i < self.units@.len() ==> self.units@[i].health.wf()
    }

    pub fn new() -> (r: EnemyRoster)
        ensures
            r.wf(),
            r.units@.len() == 0,
    {
        EnemyRoster { units: Vec::new() }
    }

    /// Add an enemy with a fresh identifier and full health.
    pub fn add(&mut self, unit: EnemyUnit)
        requires
            old(self).wf(),
            unit.health.wf(),
            !old(self).spec_contains(unit.id),
        ensures
            final(self).wf(),
            final(self).units@ == old(self).units@.push(unit),
    {
        self.units.push(unit);
    }

    pub open spec fn spec_contains(self, id: u64) -> bool {
        spec_enemy_contains(self.units@, id)
    }

    pub fn len(&self) -> (n: usize)
        ensures
            n == self.units@.len(),
    {
        self.units.len()
    }

    /// Index of the live enemy with this identifier, if any.
    pub fn find(&self, id: u64) -> (r: Option<usize>)
        ensures
            match r {
                Some(i) => i < self.units@.len() && self.units@[i as int].id == id,
                None => !spec_enemy_contains(self.units@, id),
            },
    {
        let mut i: usize = 0;
        while i < self.units.len()
            invariant
                0 <= i <= self.units@.len(),
                forall|k: int| 0 <= k < i ==> self.units@[k].id != id,
            decreases self.units@.len() - i,
        {
            if self.units[i].id == id {
                return Some(i);
            }
            i = i + 1;
        }
        None
    }
}

/// Law: the self-hit filter ignores the whole event. A player-owned
/// projectile colliding with the player's own body deals no damage, despawns
/// nothing, and — because the event is ignored outright — the projectile is
/// *not* consumed: it may still collide with something else later.
pub proof fn lemma_self_hit_ignored(m: CombatModel, player_id: u64, ev: CollisionEvent)
    requires
        spec_proj_contains(m.projectiles, ev.a),
        m.projectiles[spec_proj_index(m.projectiles, ev.a)].faction is Player,
        ev.b == player_id,
    ensures
        spec_resolve_event(m, player_id, ev) == m,
{
}

/// Law: a valid player-vs-enemy hit always consumes the projectile and
/// registers the hit: the projectile's identity is gone from the table, the
/// struck enemy either survives with exactly `DAMAGE_PER_HIT` less health or
/// is removed in the same step when that would leave it at zero or less, and
/// the hit-marker timer is reset.
pub proof fn lemma_enemy_hit_consumes(m: CombatModel, player_id: u64, ev: CollisionEvent)
    requires
        forall|i: int, j: int|
            0 <= i < j < m.projectiles.len() ==> m.projectiles[i].id != m.projectiles[j].id,
        forall|i: int| 0 <= i < m.enemies.len() ==> (#[trigger] m.enemies[i]).health.wf(),
        spec_proj_contains(m.projectiles, ev.a),
        m.projectiles[spec_proj_index(m.projectiles, ev.a)].faction is Player,
        spec_enemy_contains(m.enemies, ev.b),
        ev.b != player_id,
    ensures
        ({
            let r = spec_resolve_event(m, player_id, ev);
            let ei = spec_enemy_index(m.enemies, ev.b);
            let e = m.enemies[ei];
            &&& !spec_proj_contains(r.projectiles, ev.a)
            &&& r.projectiles.len() == m.projectiles.len() - 1
            &&& r.hit_marker == spec_marker_reset(m.hit_marker)
            &&& (e.health.current > DAMAGE_PER_HIT ==> r.enemies == m.enemies.update(
                ei,
                EnemyUnit {
                    health: Health {
                        current: (e.health.current - DAMAGE_PER_HIT) as i64,
                        ..e.health
                    },
                    ..e
                },
            ))
            &&& (e.health.current <= DAMAGE_PER_HIT ==> r.enemies == m.enemies.remove(ei))
        }),
{
    let idx = spec_proj_index(m.projectiles, ev.a);
    let consumed = m.projectiles.remove(idx);
    assert forall|k: int| 0 <= k < consumed.len() implies consumed[k].id != ev.a by {
        if k < idx {
            assert(consumed[k] == m.projectiles[k]);
        } else {
            assert(consumed[k] == m.projectiles[k + 1]);
        }
    }
}

/// "This unit is what resolution can leave of one that was on the roster":
/// same identity, same position, the same maximum, and no more health — the
/// resolver never heals, never moves anyone, and never invents an enemy.
pub open spec fn spec_unit_descends_from(u: EnemyUnit, s: Seq<EnemyUnit>) -> bool {
    exists|j: int|
        0 <= j < s.len() && (#[trigger] s[j]).id == u.id && s[j].position == u.position
            && s[j].health.max == u.health.max && u.health.current <= s[j].health.current
}

/// Law: resolving one event only ever removes enemies or decreases one
/// enemy's health. Every unit still on the roster afterwards descends from a
/// unit that was on it before, and is still live.
pub proof fn lemma_resolve_event_enemy_ids(m: CombatModel, player_id: u64, ev: CollisionEvent)
    requires
        forall|i: int| 0 <= i < m.enemies.len() ==> (#[trigger] m.enemies[i]).health.wf(),
    ensures
        ({
            let r = spec_resolve_event(m, player_id, ev);
            forall|i: int|
                0 <= i < r.enemies.len() ==> spec_unit_descends_from(
                    #[trigger] r.enemies[i],
                    m.enemies,
                ) && r.enemies[i].health.wf()
        }),
{
    let r = spec_resolve_event(m, player_id, ev);
    assert forall|i: int| 0 <= i < r.enemies.len() implies spec_unit_descends_from(
        #[trigger] r.enemies[i],
        m.enemies,
    ) && r.enemies[i].health.wf() by {
        if r.enemies != m.enemies {
            let ei = spec_enemy_index(
                m.enemies,
                if spec_proj_contains(m.projectiles, ev.a) {
                    ev.b
                } else {
                    ev.a
                },
            );
            if r.enemies.len() < m.enemies.len() {
                // one unit was removed; the rest keep their places
                if i < ei {
                    assert(r.enemies[i] == m.enemies[i]);
                } else {
                    assert(r.enemies[i] == m.enemies[i + 1]);
                }
            } else {
                // one unit lost health in place, keeping identity and position
                assert(r.enemies[i].id == m.enemies[i].id);
            }
        } else {
            assert(r.enemies[i] == m.enemies[i]);
        }
    }
}

/// Resolution only ever resets the hit-marker timer: its period and mode
/// survive any event sequence.
pub proof fn lemma_resolve_all_marker_config(
    m: CombatModel,
    player_id: u64,
    evs: Seq<CollisionEvent>,
)
    ensures
        spec_resolve_all(m, player_id, evs).hit_marker.duration_us == m.hit_marker.duration_us,
        spec_resolve_all(m, player_id, evs).hit_marker.mode == m.hit_marker.mode,
    decreases evs.len(),
{
    if evs.len() > 0 {
        lemma_resolve_all_marker_config(
            spec_resolve_event(m, player_id, evs[0]),
            player_id,
            evs.skip(1),
        );
    }
}

/// `lemma_resolve_event_enemy_ids` lifted over a whole event sequence:
/// across a whole tick's resolution pass enemies are only removed or
/// drained, never healed, moved or invented.
pub proof fn lemma_resolve_all_enemy_ids(m: CombatModel, player_id: u64, evs: Seq<CollisionEvent>)
    requires
        forall|i: int| 0 <= i < m.enemies.len() ==> (#[trigger] m.enemies[i]).health.wf(),
    ensures
        ({
            let r = spec_resolve_all(m, player_id, evs);
            forall|i: int|
                0 <= i < r.enemies.len() ==> spec_unit_descends_from(
                    #[trigger] r.enemies[i],
                    m.enemies,
                )
        }),
    decreases evs.len(),
{
    if evs.len() > 0 {
        let m1 = spec_resolve_event(m, player_id, evs[0]);
        lemma_resolve_event_enemy_ids(m, player_id, evs[0]);
        lemma_resolve_all_enemy_ids(m1, player_id, evs.skip(1));
        let r = spec_resolve_all(m, player_id, evs);
        assert forall|i: int| 0 <= i < r.enemies.len() implies spec_unit_descends_from(
            #[trigger] r.enemies[i],
            m.enemies,
        ) by {
            assert(spec_unit_descends_from(r.enemies[i], m1.enemies));
            let j = choose|j: int|
                0 <= j < m1.enemies.len() && (#[trigger] m1.enemies[j]).id == r.enemies[i].id
                    && m1.enemies[j].position == r.enemies[i].position && m1.enemies[j].health.max
                    == r.enemies[i].health.max && r.enemies[i].health.current
                    <= m1.enemies[j].health.current;
            assert(spec_unit_descends_from(m1.enemies[j], m.enemies));
        }
    }
}

/// Resolve one collision-start event against the live entity tables.
/// The outcome is exactly `spec_resolve_event` of the starting state.
pub fn resolve_event(
    projectiles: &mut ProjectileSet,
    enemies: &mut EnemyRoster,
    hit_marker: &mut Timer,
    player_id: u64,
    ev: CollisionEvent,
)
    requires
        old(projectiles).wf(),
        old(enemies).wf(),
        old(hit_marker).wf(),
    ensures
        final(projectiles).wf(),
        final(enemies).wf(),
        final(hit_marker).wf(),
        final(projectiles).next_id == old(projectiles).next_id,
        ({
            let m = spec_resolve_event(
                CombatModel {
                    projectiles: old(projectiles).items@,
                    enemies: old(enemies).units@,
                    hit_marker: *old(hit_marker),
                },
                player_id,
                ev,
            );
            &&& final(projectiles).items@ == m.projectiles
            &&& final(enemies).units@ == m.enemies
            &&& *final(hit_marker) == m.hit_marker
        }),
{
    let found = match projectiles.find(ev.a) {
        Some(i) => Some((i, ev.b)),
        None => match projectiles.find(ev.b) {
            Some(i) => Some((i, ev.a)),
            None => None,
        },
    };
    match found {
        None => {},
        Some((idx, other)) => {
            proof {
                let s = projectiles.items@;
                let proj_id = if spec_proj_contains(s, ev.a) {
                    ev.a
                } else {
                    ev.b
                };
                let ci = spec_proj_index(s, proj_id);
                assert(s[idx as int].id == proj_id);
                assert(0 <= ci < s.len() && s[ci].id == proj_id);
                if ci < idx as int {
                    assert(s[ci].id != s[idx as int].id);
                } else if (idx as int) < ci {
                    assert(s[idx as int].id != s[ci].id);
                }
                assert(ci == idx as int);
            }
            let p = projectiles.items[idx];
            let ignore = match p.faction {
                Faction::Player => other == player_id,
                Faction::Enemy => enemies.find(other).is_none(),
            };
            if ignore {
                return;
            }
            if let Faction::Player = p.faction {
                if let Some(ei) = enemies.find(other) {
                    proof {
                        let es = enemies.units@;
                        let cei = spec_enemy_index(es, other);
                        assert(0 <= cei < es.len() && es[cei].id == other);
                        if cei < ei as int {
                            assert(es[cei].id != es[ei as int].id);
                        } else if (ei as int) < cei {
                            assert(es[ei as int].id != es[cei].id);
                        }
                        assert(cei == ei as int);
                    }
                    let e = enemies.units[ei];
                    let hurt = e.health.current - DAMAGE_PER_HIT;
                    hit_marker.reset();
                    if hurt <= 0 {
                        enemies.units.remove(ei);
                    } else {
                        enemies.units[ei] = EnemyUnit {
                            health: Health { current: hurt, ..e.health },
                            ..e
                        };
                    }
                }
            }
            projectiles.remove_at(idx);
        },
    }
}

/// Resolve a whole tick's collision-start events in the order the physics
/// service reported them. The outcome is exactly `spec_resolve_all` of the
/// starting state; in particular a projectile consumed by one event is
/// already gone when a later event of the same pass names it.
pub fn resolve_collisions(
    projectiles: &mut ProjectileSet,
    enemies: &mut EnemyRoster,
    hit_marker: &mut Timer,
    player_id: u64,
    events: &Vec<CollisionEvent>,
)
    requires
        old(projectiles).wf(),
        old(enemies).wf(),
        old(hit_marker).wf(),
    ensures
        final(projectiles).wf(),
        final(enemies).wf(),
        final(hit_marker).wf(),
        final(projectiles).next_id == old(projectiles).next_id,
        ({
            let m = spec_resolve_all(
                CombatModel {
                    projectiles: old(projectiles).items@,
                    enemies: old(enemies).units@,
                    hit_marker: *old(hit_marker),
                },
                player_id,
                events@,
            );
            &&& final(projectiles).items@ == m.projectiles
            &&& final(enemies).units@ == m.enemies
            &&& *final(hit_marker) == m.hit_marker
        }),
{
    let ghost m0 = CombatModel {
        projectiles: projectiles.items@,
        enemies: enemies.units@,
        hit_marker: *hit_marker,
    };
    proof {
        assert(events@.skip(0) =~= events@);
    }
    let mut i: usize = 0;
    while i < events.len()
        invariant
            0 <= i <= events@.len(),
            projectiles.wf(),
            enemies.wf(),
            hit_marker.wf(),
            projectiles.next_id == old(projectiles).next_id,
            spec_resolve_all(m0, player_id, events@) == spec_resolve_all(
                CombatModel {
                    projectiles: projectiles.items@,
                    enemies: enemies.units@,
                    hit_marker: *hit_marker,
                },
                player_id,
                events@.skip(i as int),
            ),
        decreases events@.len() - i,
    {
        let ghost pre = CombatModel {
            projectiles: projectiles.items@,
            enemies: enemies.units@,
            hit_marker: *hit_marker,
        };
        resolve_event(projectiles, enemies, hit_marker, player_id, events[i]);
        proof {
            assert(events@.skip(i as int)[0] == events@[i as int]);
            assert(events@.skip(i as int).skip(1) == events@.skip(i + 1));
        }
        i = i + 1;
    }
    proof {
        assert(events@.skip(events@.len() as int) =~= Seq::<CollisionEvent>::empty());
    }
}

} // verus!
