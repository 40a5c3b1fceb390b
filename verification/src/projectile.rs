//! Projectile lifecycle: an entity table of in-flight shots, each tagged
//! with the faction that fired it. Shots are spawned by the fire-control
//! routines, aged every tick, and removed when their lifetime runs out or
//! when the collision resolver consumes them.
//!
//! Identity is an arena-style monotonically increasing `u64`: a despawned
//! projectile's identifier is never reused, so a stale identifier in an
//! unprocessed collision event simply fails to resolve instead of touching a
//! new shot. Positions and velocities are fixed-point world units
//! (micro-units); lifetimes are microseconds.

use vstd::prelude::*;

verus! {

/// Ownership tag on a projectile: which side fired it. Immutable once set;
/// drives the friendly-fire and damage rules of the collision resolver.
#[derive(Clone, Copy, PartialEq, Eq, Structural, Debug)]
pub enum Faction {
    Player,
    Enemy,
}

/// A fixed-point 3-vector: one world unit is 1_000_000.
#[derive(Clone, Copy, PartialEq, Eq, Structural, Debug)]
pub struct Vec3Fx {
    pub x: i64,
    pub y: i64,
    pub z: i64,
}

impl Vec3Fx {
    pub open spec fn spec_zero() -> Vec3Fx {
        Vec3Fx { x: 0, y: 0, z: 0 }
    }
}

/// Lifetime of a player-fired shot: 3 seconds.
pub const PLAYER_PROJECTILE_LIFETIME_US: i64 = 3_000_000;

/// Lifetime of an enemy-fired shot: 5 seconds.
pub const ENEMY_PROJECTILE_LIFETIME_US: i64 = 5_000_000;

/// An in-flight shot. Exactly one live record exists per shot fired; a
/// record is never resurrected or reused.
#[derive(Clone, Copy, PartialEq, Eq, Structural, Debug)]
pub struct Projectile {
    pub id: u64,
    pub faction: Faction,
    /// Remaining lifetime in microseconds; positive for every live record.
    pub lifetime_us: i64,
    pub position: Vec3Fx,
    pub velocity: Vec3Fx,
}

/// The entity table of live projectiles.
pub struct ProjectileSet {
    pub items: Vec<Projectile>,
    pub next_id: u64,
}

/// One tick of ageing applied to a single record.
pub open spec fn spec_aged(p: Projectile, dt_us: int) -> Projectile {
    Projectile { lifetime_us: (p.lifetime_us - dt_us) as i64, ..p }
}

/// The table contents after one ageing pass: every record's lifetime is
/// decremented by `dt_us` and the records that reach zero or less are
/// dropped, preserving the order of the survivors.
pub open spec fn spec_culled(s: Seq<Projectile>, dt_us: int) -> Seq<Projectile>
    decreases s.len(),
{
    if s.len() == 0 {
        s
    } else {
        let front = spec_culled(s.drop_last(), dt_us);
        let aged = spec_aged(s.last(), dt_us);
        if aged.lifetime_us > 0 {
            front.push(aged)
        } else {
            front
        }
    }
}

impl ProjectileSet {
    /// Validity: identifiers are unique, all below the arena counter, and
    /// every live record has lifetime left.
    pub open spec fn wf(self) -> bool {
        &&& forall|i: int, j: int|
            0 <= i < j < self.items@.len() ==> self.items@[i].id != self.items@[j].id
        &&& forall|i: int| 0 <= i < self.items@.len() ==> self.items@[i].id < self.next_id
        &&& forall|i: int| 0 <= i < self.items@.len() ==> self.items@[i].lifetime_us > 0
    }

    /// Whether a record with this identifier is live.
    pub open spec fn spec_contains(self, id: u64) -> bool {
        exists|i: int| 0 <= i < self.items@.len() && self.items@[i].id == id
    }

    pub fn new() -> (s: ProjectileSet)
        ensures
            s.wf(),
            s.items@.len() == 0,
            s.next_id == 0,
    {
        ProjectileSet { items: Vec::new(), next_id: 0 }
    }

    pub fn len(&self) -> (n: usize)
        ensures
            n == self.items@.len(),
    {
        self.items.len()
    }

    /// Create one shot: a fresh identifier, the given faction, spawn
    /// transform and velocity, and a positive initial lifetime.
    pub fn spawn(
        &mut self,
        faction: Faction,
        position: Vec3Fx,
        velocity: Vec3Fx,
        lifetime_us: i64,
    ) -> (id: u64)
        requires
            old(self).wf(),
            old(self).next_id < u64::MAX,
            lifetime_us > 0,
        ensures
            final(self).wf(),
            id == old(self).next_id,
            final(self).next_id == old(self).next_id + 1,
            final(self).items@ == old(self).items@.push(
                Projectile { id, faction, lifetime_us, position, velocity },
            ),
    {
        let id = self.next_id;
        self.items.push(Projectile { id, faction, lifetime_us, position, velocity });
        self.next_id = self.next_id + 1;
        id
    }

    /// Age every live shot by `dt_us` and unconditionally remove the ones
    /// whose remaining lifetime reaches zero or less: an expiry is a silent
    /// miss, with no damage and no other effect. This pass is the only
    /// time-based removal of projectiles.
    pub fn age_and_cull(&mut self, dt_us: u64)
        requires
            old(self).wf(),
            dt_us <= i64::MAX,
        ensures
            final(self).wf(),
            final(self).next_id == old(self).next_id,
            final(self).items@ == spec_culled(old(self).items@, dt_us as int),
    {
        let ghost orig = self.items@;
        let mut out: Vec<Projectile> = Vec::new();
        let mut i: usize = 0;
        while i < self.items.len()
            invariant
                0 <= i <= orig.len(),
                self.items@ == orig,
                self.wf(),
                dt_us <= i64::MAX,
                out@ == spec_culled(orig.take(i as int), dt_us as int),
                forall|k: int| 0 <= k < out@.len() ==> out@[k].lifetime_us > 0,
                forall|k: int| 0 <= k < out@.len() ==> out@[k].id < self.next_id,
                forall|k: int, l: int|
                    0 <= k < l < out@.len() ==> out@[k].id != out@[l].id,
                forall|k: int|
                    0 <= k < out@.len() ==> exists|m: int|
                        0 <= m < i && (#[trigger] out@[k]) == spec_aged(
                            #[trigger] orig[m],
                            dt_us as int,
                        ),
            decreases self.items@.len() - i,
        {
            let p = self.items[i];
            let new_lifetime = p.lifetime_us - dt_us as i64;
            let aged = Projectile { lifetime_us: new_lifetime, ..p };
            proof {
                assert(orig.take(i + 1).drop_last() == orig.take(i as int));
                assert(orig.take(i + 1).last() == orig[i as int]);
            }
            if new_lifetime > 0 {
                out.push(aged);
                proof {
                    let k = out@.len() - 1;
                    assert(out@[k] == spec_aged(orig[i as int], dt_us as int));
                }
            }
            i = i + 1;
        }
        proof {
            assert(orig.take(orig.len() as int) == orig);
        }
        self.items = out;
    }

    /// Index of the live record with this identifier, if any.
    pub fn find(&self, id: u64) -> (r: Option<usize>)
        requires
            self.wf(),
        ensures
            match r {
                Some(i) => i < self.items@.len() && self.items@[i as int].id == id,
                None => !self.spec_contains(id),
            },
    {
        let mut i: usize = 0;
        while i < self.items.len()
            invariant
                0 <= i <= self.items@.len(),
                forall|k: int| 0 <= k < i ==> self.items@[k].id != id,
            decreases self.items@.len() - i,
        {
            if self.items[i].id == id {
                return Some(i);
            }
            i = i + 1;
        }
        None
    }

    /// Remove the record at a known index, preserving the order of the rest.
    pub fn remove_at(&mut self, i: usize)
        requires
            old(self).wf(),
            i < old(self).items@.len(),
        ensures
            final(self).wf(),
            final(self).next_id == old(self).next_id,
            final(self).items@ == old(self).items@.remove(i as int),
    {
        self.items.remove(i);
    }
}

/// Law: a projectile that never collides is removed by the ageing pass after
/// exactly `ceil(lifetime / dt)` ticks: with `k = (l + dt - 1) / dt`, the
/// remaining lifetime is still positive after every earlier tick and
/// non-positive after the `k`-th.
pub proof fn lemma_expiry_tick_count(l: int, dt: int)
    requires
        0 < l,
        0 < dt,
    ensures
        ({
            let k = (l + dt - 1) / dt;
            &&& k >= 1
            &&& forall|j: int| 0 <= j < k ==> l - #[trigger] (j * dt) > 0
            &&& l - k * dt <= 0
        }),
{
    let k = (l + dt - 1) / dt;
    assert(k >= 1) by {
        vstd::arithmetic::div_mod::lemma_div_is_ordered(dt, l + dt - 1, dt);
        vstd::arithmetic::div_mod::lemma_div_by_multiple(1, dt);
    }
    assert(l - k * dt <= 0) by {
        vstd::arithmetic::div_mod::lemma_fundamental_div_mod(l + dt - 1, dt);
        vstd::arithmetic::div_mod::lemma_mod_bound(l + dt - 1, dt);
        assert(k * dt == dt * k);
    }
    assert forall|j: int| 0 <= j < k implies l - #[trigger] (j * dt) > 0 by {
        assert(j <= k - 1);
        assert(j * dt <= (k - 1) * dt) by {
            vstd::arithmetic::mul::lemma_mul_inequality(j, k - 1, dt);
        }
        assert((k - 1) * dt <= l - 1) by {
            vstd::arithmetic::div_mod::lemma_fundamental_div_mod(l + dt - 1, dt);
            vstd::arithmetic::div_mod::lemma_mod_bound(l + dt - 1, dt);
            assert((k - 1) * dt == dt * k - dt) by (nonlinear_arith);
        }
    }
}

} // verus!
