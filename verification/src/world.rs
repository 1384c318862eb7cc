//! Enemy registry and projectile store: arenas of generation-tagged slots.
//!
//! A handle carries the generation its slot had when the entity was created,
//! so a handle kept across a despawn is told apart from a live one instead of
//! silently reaching whatever reused the slot.

use vstd::prelude::*;
use crate::enemy::{Archetype, Enemy};
use crate::geom::{Vec2i, SPEED_MAX};

verus! {

/// Stable handle of an enemy: slot index plus that slot's generation at
/// creation time.
#[derive(Clone, Copy, PartialEq, Eq, Structural, Debug)]
pub struct EnemyId {
    pub index: usize,
    pub generation: u64,
}

/// Stable handle of a projectile, built the same way.
#[derive(Clone, Copy, PartialEq, Eq, Structural, Debug)]
pub struct ProjectileId {
    pub index: usize,
    pub generation: u64,
}

/// A Shooter's projectile in flight.
#[derive(Clone, Copy, Debug)]
pub struct Projectile {
    /// The shooter the projectile belongs to; consulted again at hit time.
    pub owner: EnemyId,
    pub position: Vec2i,
    /// Fixed-point unit vector of travel.
    pub direction: Vec2i,
    /// Grid steps per second.
    pub speed: i64,
}

impl Projectile {
    pub open spec fn wf(self) -> bool {
        &&& self.position.in_world()
        &&& self.direction.is_unit_box()
        &&& 0 <= self.speed <= SPEED_MAX
    }
}

#[derive(Clone, Copy, Debug)]
pub struct EnemySlot {
    pub generation: u64,
    pub occupant: Option<Enemy>,
}

#[derive(Clone, Copy, Debug)]
pub struct ProjectileSlot {
    pub generation: u64,
    pub occupant: Option<Projectile>,
}

/// All state this subsystem owns: the enemy arena, the projectile arena, and
/// the cosmetic per-archetype spawn counters used for labels.
pub struct World {
    pub enemies: Vec<EnemySlot>,
    pub projectiles: Vec<ProjectileSlot>,
    pub walkers_spawned: u64,
    pub shooters_spawned: u64,
    pub sprinters_spawned: u64,
}

/// How many slots of `s` hold an enemy of archetype `a`.
pub open spec fn count_arch(s: Seq<EnemySlot>, a: Archetype) -> int
    decreases s.len(),
{
    if s.len() == 0 {
        0
    } else {
        count_arch(s.drop_last(), a) + (if s.last().occupant matches Some(e) && e.archetype == a {
            1int
        } else {
            0int
        })
    }
}

impl World {
    pub open spec fn enemy_live(self, id: EnemyId) -> bool {
        &&& id.index < self.enemies@.len()
        &&& self.enemies@[id.index as int].generation == id.generation
        &&& self.enemies@[id.index as int].occupant is Some
    }

    pub open spec fn enemy_at(self, id: EnemyId) -> Enemy {
        self.enemies@[id.index as int].occupant->Some_0
    }

    pub open spec fn proj_live(self, id: ProjectileId) -> bool {
        &&& id.index < self.projectiles@.len()
        &&& self.projectiles@[id.index as int].generation == id.generation
        &&& self.projectiles@[id.index as int].occupant is Some
    }

    pub open spec fn proj_at(self, id: ProjectileId) -> Projectile {
        self.projectiles@[id.index as int].occupant->Some_0
    }

    pub open spec fn wf(self) -> bool {
        &&& forall|i: int|
            0 <= i < self.enemies@.len() ==> ((#[trigger] self.enemies@[i]).occupant matches Some(
            e) ==> e.wf())
        &&& forall|i: int|
            0 <= i < self.projectiles@.len() ==> ((#[trigger] self.projectiles@[i]).occupant
                matches Some(p) ==> p.wf())
    }

    /// Every enemy live before is live after, unchanged.
    pub open spec fn keeps_enemies(self, post: World) -> bool {
        forall|oid: EnemyId|
            #[trigger] self.enemy_live(oid) ==> post.enemy_live(oid) && post.enemy_at(oid)
                == self.enemy_at(oid)
    }

    /// Every projectile live before is live after, unchanged.
    pub open spec fn keeps_projectiles(self, post: World) -> bool {
        forall|pid: ProjectileId|
            #[trigger] self.proj_live(pid) ==> post.proj_live(pid) && post.proj_at(pid)
                == self.proj_at(pid)
    }

    pub open spec fn same_counters(self, post: World) -> bool {
        &&& post.walkers_spawned == self.walkers_spawned
        &&& post.shooters_spawned == self.shooters_spawned
        &&& post.sprinters_spawned == self.sprinters_spawned
    }

    pub fn new() -> (w: World)
        ensures
            w.wf(),
            w.enemies@.len() == 0,
            w.projectiles@.len() == 0,
            w.walkers_spawned == 0 && w.shooters_spawned == 0 && w.sprinters_spawned == 0,
    {
        World {
            enemies: Vec::new(),
            projectiles: Vec::new(),
            walkers_spawned: 0,
            shooters_spawned: 0,
            sprinters_spawned: 0,
        }
    }

    fn find_vacant_enemy(&self) -> (r: Option<usize>)
        ensures
            r matches Some(i) ==> i < self.enemies@.len() && self.enemies@[i as int].occupant
                is None,
    {
        let n: usize = self.enemies.len();
        let mut i: usize = 0;
        while i < n
            invariant
                i <= n,
                n == self.enemies@.len(),
            decreases n - i,
        {
            if self.enemies[i].occupant.is_none() {
                return Some(i);
            }
            i += 1;
        }
        None
    }

    /// Places `e` in a vacant slot, bumping that slot's generation, or in a
    /// fresh slot at the end; every other entity is untouched.
    pub fn spawn_enemy(&mut self, e: Enemy) -> (id: EnemyId)
        requires
            old(self).wf(),
            e.wf(),
        ensures
            final(self).wf(),
            final(self).enemy_live(id),
            final(self).enemy_at(id) == e,
            !old(self).enemy_live(id),
            old(self).keeps_enemies(*final(self)),
            forall|oid: EnemyId|
                #[trigger] final(self).enemy_live(oid) ==> old(self).enemy_live(oid) || oid == id,
            final(self).projectiles == old(self).projectiles,
            old(self).same_counters(*final(self)),
    {
        match self.find_vacant_enemy() {
            Some(i) => {
                let g0: u64 = self.enemies[i].generation;
                let g: u64 = if g0 == u64::MAX {
                    0
                } else {
                    g0 + 1
                };
                self.enemies[i] = EnemySlot { generation: g, occupant: Some(e) };
                EnemyId { index: i, generation: g }
            },
            None => {
                let i: usize = self.enemies.len();
                self.enemies.push(EnemySlot { generation: 0, occupant: Some(e) });
                EnemyId { index: i, generation: 0 }
            },
        }
    }

    /// Empties the enemy's slot, if the handle is still live; stale handles
    /// change nothing. Returns whether an enemy was removed.
    pub fn despawn_enemy(&mut self, id: EnemyId) -> (removed: bool)
        requires
            old(self).wf(),
        ensures
            final(self).wf(),
            removed == old(self).enemy_live(id),
            !final(self).enemy_live(id),
            forall|oid: EnemyId|
                old(self).enemy_live(oid) && oid != id ==> #[trigger] final(self).enemy_live(oid)
                    && final(self).enemy_at(oid) == old(self).enemy_at(oid),
            forall|oid: EnemyId|
                #[trigger] final(self).enemy_live(oid) ==> old(self).enemy_live(oid) && oid != id,
            final(self).projectiles == old(self).projectiles,
            old(self).same_counters(*final(self)),
    {
        if id.index < self.enemies.len() {
            let slot_generation: u64 = self.enemies[id.index].generation;
            let occupied: bool = self.enemies[id.index].occupant.is_some();
            if slot_generation == id.generation && occupied {
                self.enemies[id.index] = EnemySlot { generation: slot_generation, occupant: None };
                return true;
            }
        }
        false
    }

    /// Looks the handle up: the enemy if it is live, `None` if stale.
    pub fn get_enemy(&self, id: EnemyId) -> (r: Option<&Enemy>)
        ensures
            self.enemy_live(id) <==> (r is Some),
            r matches Some(e) ==> *e == self.enemy_at(id),
    {
        if id.index < self.enemies.len() {
            let slot = &self.enemies[id.index];
            if slot.generation == id.generation {
                return slot.occupant.as_ref();
            }
        }
        None
    }

    /// How many enemies of archetype `a` are currently live.
    pub fn count_archetype(&self, a: Archetype) -> (c: usize)
        ensures
            c == count_arch(self.enemies@, a),
    {
        let n: usize = self.enemies.len();
        let mut i: usize = 0;
        let mut c: usize = 0;
        while i < n
            invariant
                i <= n,
                n == self.enemies@.len(),
                c <= i,
                c == count_arch(self.enemies@.take(i as int), a),
            decreases n - i,
        {
            let hit: bool = match &self.enemies[i].occupant {
                Some(e) => e.archetype == a,
                None => false,
            };
            proof {
                assert(self.enemies@.take(i + 1).drop_last() =~= self.enemies@.take(i as int));
                assert(self.enemies@.take(i + 1).last() == self.enemies@[i as int]);
            }
            if hit {
                c += 1;
            }
            i += 1;
        }
        proof {
            assert(self.enemies@.take(n as int) =~= self.enemies@);
        }
        c
    }

    /// The handles of every live enemy of archetype `a`: as many as
    /// `count_arch` counts, each of them live and of that archetype.
    pub fn ids_of_archetype(&self, a: Archetype) -> (r: Vec<EnemyId>)
        ensures
            r@.len() == count_arch(self.enemies@, a),
            forall|k: int|
                0 <= k < r@.len() ==> self.enemy_live(#[trigger] r@[k]) && self.enemy_at(
                    r@[k],
                ).archetype == a,
    {
        let n: usize = self.enemies.len();
        let mut i: usize = 0;
        let mut r: Vec<EnemyId> = Vec::new();
        while i < n
            invariant
                i <= n,
                n == self.enemies@.len(),
                r@.len() == count_arch(self.enemies@.take(i as int), a),
                forall|k: int|
                    0 <= k < r@.len() ==> self.enemy_live(#[trigger] r@[k]) && self.enemy_at(
                        r@[k],
                    ).archetype == a,
            decreases n - i,
        {
            let hit: bool = match &self.enemies[i].occupant {
                Some(e) => e.archetype == a,
                None => false,
            };
            proof {
                assert(self.enemies@.take(i + 1).drop_last() =~= self.enemies@.take(i as int));
                assert(self.enemies@.take(i + 1).last() == self.enemies@[i as int]);
            }
            if hit {
                let g: u64 = self.enemies[i].generation;
                r.push(EnemyId { index: i, generation: g });
            }
            i += 1;
        }
        proof {
            assert(self.enemies@.take(n as int) =~= self.enemies@);
        }
        r
    }

    fn find_vacant_projectile(&self) -> (r: Option<usize>)
        ensures
            r matches Some(i) ==> i < self.projectiles@.len() && self.projectiles@[i as int].occupant
                is None,
    {
        let n: usize = self.projectiles.len();
        let mut i: usize = 0;
        while i < n
            invariant
                i <= n,
                n == self.projectiles@.len(),
            decreases n - i,
        {
            if self.projectiles[i].occupant.is_none() {
                return Some(i);
            }
            i += 1;
        }
        None
    }

    /// Places `p` in a vacant projectile slot or a fresh one; every other
    /// entity is untouched.
    pub fn spawn_projectile(&mut self, p: Projectile) -> (id: ProjectileId)
        requires
            old(self).wf(),
            p.wf(),
        ensures
            final(self).wf(),
            final(self).proj_live(id),
            final(self).proj_at(id) == p,
            !old(self).proj_live(id),
            old(self).keeps_projectiles(*final(self)),
            forall|pid: ProjectileId|
                #[trigger] final(self).proj_live(pid) ==> old(self).proj_live(pid) || pid == id,
            final(self).enemies == old(self).enemies,
            old(self).same_counters(*final(self)),
    {
        match self.find_vacant_projectile() {
            Some(i) => {
                let g0: u64 = self.projectiles[i].generation;
                let g: u64 = if g0 == u64::MAX {
                    0
                } else {
                    g0 + 1
                };
                self.projectiles[i] = ProjectileSlot { generation: g, occupant: Some(p) };
                ProjectileId { index: i, generation: g }
            },
            None => {
                let i: usize = self.projectiles.len();
                self.projectiles.push(ProjectileSlot { generation: 0, occupant: Some(p) });
                ProjectileId { index: i, generation: 0 }
            },
        }
    }

    /// Empties the projectile's slot, if the handle is still live; stale
    /// handles change nothing. Returns whether a projectile was removed.
    pub fn despawn_projectile(&mut self, id: ProjectileId) -> (removed: bool)
        requires
            old(self).wf(),
        ensures
            final(self).wf(),
            removed == old(self).proj_live(id),
            !final(self).proj_live(id),
            forall|pid: ProjectileId|
                old(self).proj_live(pid) && pid != id ==> #[trigger] final(self).proj_live(pid)
                    && final(self).proj_at(pid) == old(self).proj_at(pid),
            forall|pid: ProjectileId|
                #[trigger] final(self).proj_live(pid) ==> old(self).proj_live(pid) && pid != id,
            final(self).enemies == old(self).enemies,
            old(self).same_counters(*final(self)),
    {
        if id.index < self.projectiles.len() {
            let slot_generation: u64 = self.projectiles[id.index].generation;
            let occupied: bool = self.projectiles[id.index].occupant.is_some();
            if slot_generation == id.generation && occupied {
                self.projectiles[id.index] = ProjectileSlot {
                    generation: slot_generation,
                    occupant: None,
                };
                return true;
            }
        }
        false
    }

    /// Looks the handle up: the projectile if it is live, `None` if stale.
    pub fn get_projectile(&self, id: ProjectileId) -> (r: Option<&Projectile>)
        ensures
            self.proj_live(id) <==> (r is Some),
            r matches Some(p) ==> *p == self.proj_at(id),
    {
        if id.index < self.projectiles.len() {
            let slot = &self.projectiles[id.index];
            if slot.generation == id.generation {
                return slot.occupant.as_ref();
            }
        }
        None
    }
}

/// Keeping every live enemy is transitive across successive states.
pub proof fn lemma_keeps_enemies_trans(a: World, b: World, c: World)
    requires
        a.keeps_enemies(b),
        b.keeps_enemies(c),
    ensures
        a.keeps_enemies(c),
{
    assert forall|oid: EnemyId| a.enemy_live(oid) implies #[trigger] c.enemy_live(oid)
        && c.enemy_at(oid) == a.enemy_at(oid) by {
        assert(b.enemy_live(oid) && b.enemy_at(oid) == a.enemy_at(oid));
    }
}

} // verus!
