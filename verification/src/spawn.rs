//! Spawning: annulus placement around the player and the periodic jobs that
//! create one enemy of each archetype.

use vstd::prelude::*;
use crate::enemy::{
    spec_shooter_bundle, spec_sprinter_bundle, spec_walker_bundle, shooter_bundle, sprinter_bundle,
    walker_bundle,
};
use crate::geom::{dist_sq, dist_sq_u64, sq, Vec2i, COORD_LIMIT};
use crate::rng::draw_i64;
use crate::timer::{Timer, TimerMode};
use crate::world::{EnemyId, World};

verus! {

/// Inner radius of the spawn annulus, in grid steps.
pub const SPAWN_RADIUS: i64 = 300000;

/// Width of the random radial band beyond the inner radius, in grid steps.
pub const SPAWN_JITTER: i64 = 10000;

/// How many rejection-sampling draws are tried before settling for a fixed
/// point of the annulus.
pub const SPAWN_ATTEMPTS: usize = 256;

/// Largest inner-plus-band radius the placement accepts, in grid steps:
/// keeps every square of the containment check inside a `u64`.
pub const ANNULUS_MAX: i64 = 1000000000;

/// The player position leaves room for the whole annulus inside the world
/// box.
pub open spec fn annulus_fits(player: Vec2i, inner: i64, jitter: i64) -> bool {
    &&& -COORD_LIMIT + inner + jitter <= player.x <= COORD_LIMIT - inner - jitter
    &&& -COORD_LIMIT + inner + jitter <= player.y <= COORD_LIMIT - inner - jitter
}

/// Draws a spawn point from the annulus of radii `[inner, inner + jitter)`
/// around `player`: offsets are drawn uniformly from the surrounding square
/// and rejected until one lands in the annulus. If every attempt misses, the
/// point at distance `inner` due east of the player is used; either way the
/// result lies on the annulus.
pub fn random_spawn_point(
    rng: &mut rand::rngs::StdRng,
    player: Vec2i,
    inner: i64,
    jitter: i64,
) -> (p: Vec2i)
    requires
        0 <= inner,
        1 <= jitter,
        inner + jitter <= ANNULUS_MAX,
        annulus_fits(player, inner, jitter),
    ensures
        sq(inner as int) <= dist_sq(player, p) < sq(inner + jitter),
        p.in_world(),
{
    let outer: i64 = inner + jitter;
    proof {
        assert(inner * inner <= outer * outer <= 1000000000000000000 && inner * inner < outer
            * outer) by (nonlinear_arith)
            requires
                0 <= inner < outer <= 1000000000,
        ;
    }
    let lo2: u64 = (inner as u64) * (inner as u64);
    let hi2: u64 = (outer as u64) * (outer as u64);
    let mut attempts: usize = 0;
    while attempts < SPAWN_ATTEMPTS
        invariant
            0 <= inner,
            1 <= jitter,
            outer == inner + jitter,
            outer <= ANNULUS_MAX,
            annulus_fits(player, inner, jitter),
            lo2 == sq(inner as int),
            hi2 == sq(outer as int),
        decreases SPAWN_ATTEMPTS - attempts,
    {
        let ox: i64 = draw_i64(rng, -outer + 1, outer);
        let oy: i64 = draw_i64(rng, -outer + 1, outer);
        let candidate = Vec2i { x: player.x + ox, y: player.y + oy };
        let d2: u64 = dist_sq_u64(player, candidate);
        if lo2 <= d2 && d2 < hi2 {
            return candidate;
        }
        attempts += 1;
    }
    let p = Vec2i { x: player.x + inner, y: player.y };
    proof {
        assert((p.x - player.x) * (p.x - player.x) == inner * inner && (p.y - player.y) * (p.y
            - player.y) == 0) by (nonlinear_arith)
            requires
                p.x - player.x == inner,
                p.y == player.y,
        ;
    }
    p
}

/// A fresh enemy stands in `post` but not in `pre`: a Walker bundle at a
/// point of the spawn annulus around `p`, labelled with the next serial.
pub open spec fn walker_added(pre: World, post: World, p: Vec2i) -> bool {
    exists|id: EnemyId|
        {
            &&& #[trigger] post.enemy_live(id)
            &&& !pre.enemy_live(id)
            &&& post.enemy_at(id) == spec_walker_bundle(
                post.enemy_at(id).position,
                (pre.walkers_spawned + 1) as u64,
            )
            &&& sq(SPAWN_RADIUS as int) <= dist_sq(p, post.enemy_at(id).position) < sq(
                SPAWN_RADIUS + SPAWN_JITTER,
            )
        }
}

/// As `walker_added`, for a Shooter bundle.
pub open spec fn shooter_added(pre: World, post: World, p: Vec2i) -> bool {
    exists|id: EnemyId|
        {
            &&& #[trigger] post.enemy_live(id)
            &&& !pre.enemy_live(id)
            &&& post.enemy_at(id) == spec_shooter_bundle(
                post.enemy_at(id).position,
                (pre.shooters_spawned + 1) as u64,
            )
            &&& sq(SPAWN_RADIUS as int) <= dist_sq(p, post.enemy_at(id).position) < sq(
                SPAWN_RADIUS + SPAWN_JITTER,
            )
        }
}

/// As `walker_added`, for a Sprinter bundle.
pub open spec fn sprinter_added(pre: World, post: World, p: Vec2i) -> bool {
    exists|id: EnemyId|
        {
            &&& #[trigger] post.enemy_live(id)
            &&& !pre.enemy_live(id)
            &&& post.enemy_at(id) == spec_sprinter_bundle(
                post.enemy_at(id).position,
                (pre.sprinters_spawned + 1) as u64,
            )
            &&& sq(SPAWN_RADIUS as int) <= dist_sq(p, post.enemy_at(id).position) < sq(
                SPAWN_RADIUS + SPAWN_JITTER,
            )
        }
}

/// Spawns one Walker on the annulus around the player and bumps the cosmetic
/// counter; a missing player skips the spawn for this round.
pub fn spawn_walker(world: &mut World, rng: &mut rand::rngs::StdRng, player: Option<Vec2i>) -> (r:
    Option<EnemyId>)
    requires
        old(world).wf(),
        old(world).walkers_spawned < u64::MAX,
        player matches Some(p) ==> annulus_fits(p, SPAWN_RADIUS, SPAWN_JITTER),
    ensures
        final(world).wf(),
        player is None ==> r is None && *final(world) == *old(world),
        player matches Some(p) ==> {
            &&& r matches Some(id)
            &&& final(world).enemy_live(id)
            &&& !old(world).enemy_live(id)
            &&& final(world).enemy_at(id) == spec_walker_bundle(
                final(world).enemy_at(id).position,
                (old(world).walkers_spawned + 1) as u64,
            )
            &&& sq(SPAWN_RADIUS as int) <= dist_sq(p, final(world).enemy_at(id).position) < sq(
                SPAWN_RADIUS + SPAWN_JITTER,
            )
            &&& walker_added(*old(world), *final(world), p)
            &&& old(world).keeps_enemies(*final(world))
            &&& forall|oid: EnemyId|
                #[trigger] final(world).enemy_live(oid) ==> old(world).enemy_live(oid) || Some(oid)
                    == r
            &&& final(world).projectiles == old(world).projectiles
            &&& final(world).walkers_spawned == old(world).walkers_spawned + 1
            &&& final(world).shooters_spawned == old(world).shooters_spawned
            &&& final(world).sprinters_spawned == old(world).sprinters_spawned
        },
{
    match player {
        None => None,
        Some(p) => {
            let pos = random_spawn_point(rng, p, SPAWN_RADIUS, SPAWN_JITTER);
            let serial: u64 = world.walkers_spawned + 1;
            let e = walker_bundle(pos, serial);
            let id = world.spawn_enemy(e);
            let ghost mid = *world;
            world.walkers_spawned = serial;
            proof {
                assert forall|oid: EnemyId| #[trigger] world.enemy_live(oid) implies mid.enemy_live(
                    oid,
                ) by {
                }
            }
            Some(id)
        },
    }
}

/// Spawns one Shooter, as `spawn_walker` does a Walker.
pub fn spawn_shooter(world: &mut World, rng: &mut rand::rngs::StdRng, player: Option<Vec2i>) -> (r:
    Option<EnemyId>)
    requires
        old(world).wf(),
        old(world).shooters_spawned < u64::MAX,
        player matches Some(p) ==> annulus_fits(p, SPAWN_RADIUS, SPAWN_JITTER),
    ensures
        final(world).wf(),
        player is None ==> r is None && *final(world) == *old(world),
        player matches Some(p) ==> {
            &&& r matches Some(id)
            &&& final(world).enemy_live(id)
            &&& !old(world).enemy_live(id)
            &&& final(world).enemy_at(id) == spec_shooter_bundle(
                final(world).enemy_at(id).position,
                (old(world).shooters_spawned + 1) as u64,
            )
            &&& sq(SPAWN_RADIUS as int) <= dist_sq(p, final(world).enemy_at(id).position) < sq(
                SPAWN_RADIUS + SPAWN_JITTER,
            )
            &&& shooter_added(*old(world), *final(world), p)
            &&& old(world).keeps_enemies(*final(world))
            &&& forall|oid: EnemyId|
                #[trigger] final(world).enemy_live(oid) ==> old(world).enemy_live(oid) || Some(oid)
                    == r
            &&& final(world).projectiles == old(world).projectiles
            &&& final(world).walkers_spawned == old(world).walkers_spawned
            &&& final(world).shooters_spawned == old(world).shooters_spawned + 1
            &&& final(world).sprinters_spawned == old(world).sprinters_spawned
        },
{
    match player {
        None => None,
        Some(p) => {
            let pos = random_spawn_point(rng, p, SPAWN_RADIUS, SPAWN_JITTER);
            let serial: u64 = world.shooters_spawned + 1;
            let e = shooter_bundle(pos, serial);
            let id = world.spawn_enemy(e);
            let ghost mid = *world;
            world.shooters_spawned = serial;
            proof {
                assert forall|oid: EnemyId| #[trigger] world.enemy_live(oid) implies mid.enemy_live(
                    oid,
                ) by {
                }
            }
            Some(id)
        },
    }
}

/// Spawns one Sprinter, as `spawn_walker` does a Walker.
pub fn spawn_sprinter(world: &mut World, rng: &mut rand::rngs::StdRng, player: Option<Vec2i>) -> (
    r: Option<EnemyId>)
    requires
        old(world).wf(),
        old(world).sprinters_spawned < u64::MAX,
        player matches Some(p) ==> annulus_fits(p, SPAWN_RADIUS, SPAWN_JITTER),
    ensures
        final(world).wf(),
        player is None ==> r is None && *final(world) == *old(world),
        player matches Some(p) ==> {
            &&& r matches Some(id)
            &&& final(world).enemy_live(id)
            &&& !old(world).enemy_live(id)
            &&& final(world).enemy_at(id) == spec_sprinter_bundle(
                final(world).enemy_at(id).position,
                (old(world).sprinters_spawned + 1) as u64,
            )
            &&& sq(SPAWN_RADIUS as int) <= dist_sq(p, final(world).enemy_at(id).position) < sq(
                SPAWN_RADIUS + SPAWN_JITTER,
            )
            &&& sprinter_added(*old(world), *final(world), p)
            &&& old(world).keeps_enemies(*final(world))
            &&& forall|oid: EnemyId|
                #[trigger] final(world).enemy_live(oid) ==> old(world).enemy_live(oid) || Some(oid)
                    == r
            &&& final(world).projectiles == old(world).projectiles
            &&& final(world).walkers_spawned == old(world).walkers_spawned
            &&& final(world).shooters_spawned == old(world).shooters_spawned
            &&& final(world).sprinters_spawned == old(world).sprinters_spawned + 1
        },
{
    match player {
        None => None,
        Some(p) => {
            let pos = random_spawn_point(rng, p, SPAWN_RADIUS, SPAWN_JITTER);
            let serial: u64 = world.sprinters_spawned + 1;
            let e = sprinter_bundle(pos, serial);
            let id = world.spawn_enemy(e);
            let ghost mid = *world;
            world.sprinters_spawned = serial;
            proof {
                assert forall|oid: EnemyId| #[trigger] world.enemy_live(oid) implies mid.enemy_live(
                    oid,
                ) by {
                }
            }
            Some(id)
        },
    }
}

/// The three periodic spawn jobs: one Walker and one Shooter every two
/// seconds, one Sprinter every five.
pub struct SpawnScheduler {
    pub walker_timer: Timer,
    pub shooter_timer: Timer,
    pub sprinter_timer: Timer,
}

impl SpawnScheduler {
    pub open spec fn wf(self) -> bool {
        &&& self.walker_timer.wf() && self.walker_timer.mode is Repeating
        &&& self.shooter_timer.wf() && self.shooter_timer.mode is Repeating
        &&& self.sprinter_timer.wf() && self.sprinter_timer.mode is Repeating
    }

    pub fn new() -> (s: SpawnScheduler)
        ensures
            s == (SpawnScheduler {
                walker_timer: Timer {
                    mode: TimerMode::Repeating,
                    duration_ms: 2000,
                    total_ms: 0,
                    fired_now: false,
                },
                shooter_timer: Timer {
                    mode: TimerMode::Repeating,
                    duration_ms: 2000,
                    total_ms: 0,
                    fired_now: false,
                },
                sprinter_timer: Timer {
                    mode: TimerMode::Repeating,
                    duration_ms: 5000,
                    total_ms: 0,
                    fired_now: false,
                },
            }),
            s.wf(),
    {
        SpawnScheduler {
            walker_timer: Timer::new(2000, TimerMode::Repeating),
            shooter_timer: Timer::new(2000, TimerMode::Repeating),
            sprinter_timer: Timer::new(5000, TimerMode::Repeating),
        }
    }

    /// One scheduling step. Outside active play nothing advances or spawns.
    /// During play each job's timer advances by `dt` and, where it fires,
    /// the job spawns one enemy of its archetype on the annulus around the
    /// player; a missing player skips the spawns but not the ticking.
    pub fn tick(
        &mut self,
        world: &mut World,
        rng: &mut rand::rngs::StdRng,
        player: Option<Vec2i>,
        active: bool,
        dt: u64,
    )
        requires
            old(self).wf(),
            old(world).wf(),
            old(self).walker_timer.total_ms + dt <= u64::MAX,
            old(self).shooter_timer.total_ms + dt <= u64::MAX,
            old(self).sprinter_timer.total_ms + dt <= u64::MAX,
            old(world).walkers_spawned < u64::MAX,
            old(world).shooters_spawned < u64::MAX,
            old(world).sprinters_spawned < u64::MAX,
            player matches Some(p) ==> annulus_fits(p, SPAWN_RADIUS, SPAWN_JITTER),
        ensures
            final(self).wf(),
            final(world).wf(),
            !active ==> *final(self) == *old(self) && *final(world) == *old(world),
            active ==> final(self).walker_timer == old(self).walker_timer.spec_advance(dt)
                && final(self).shooter_timer == old(self).shooter_timer.spec_advance(dt)
                && final(self).sprinter_timer == old(self).sprinter_timer.spec_advance(dt),
            active && player is None ==> *final(world) == *old(world),
            active ==> (player matches Some(p) ==> {
                &&& old(world).keeps_enemies(*final(world))
                &&& final(world).projectiles == old(world).projectiles
                &&& final(world).walkers_spawned == old(world).walkers_spawned + (
                if old(self).walker_timer.spec_advance(dt).fired_now {
                    1int
                } else {
                    0int
                })
                &&& final(world).shooters_spawned == old(world).shooters_spawned + (
                if old(self).shooter_timer.spec_advance(dt).fired_now {
                    1int
                } else {
                    0int
                })
                &&& final(world).sprinters_spawned == old(world).sprinters_spawned + (
                if old(self).sprinter_timer.spec_advance(dt).fired_now {
                    1int
                } else {
                    0int
                })
                &&& old(self).walker_timer.spec_advance(dt).fired_now ==> walker_added(
                    *old(world),
                    *final(world),
                    p,
                )
                &&& old(self).shooter_timer.spec_advance(dt).fired_now ==> shooter_added(
                    *old(world),
                    *final(world),
                    p,
                )
                &&& old(self).sprinter_timer.spec_advance(dt).fired_now ==> sprinter_added(
                    *old(world),
                    *final(world),
                    p,
                )
            }),
    {
        if !active {
            return ;
        }
        self.walker_timer.advance(dt);
        self.shooter_timer.advance(dt);
        self.sprinter_timer.advance(dt);
        let ghost w0 = *world;
        if self.walker_timer.just_finished() {
            let _ = spawn_walker(world, rng, player);
        }
        let ghost w1 = *world;
        if self.shooter_timer.just_finished() {
            let _ = spawn_shooter(world, rng, player);
        }
        let ghost w2 = *world;
        if self.sprinter_timer.just_finished() {
            let _ = spawn_sprinter(world, rng, player);
        }
        proof {
            let w3 = *world;
            crate::world::lemma_keeps_enemies_trans(w0, w1, w2);
            crate::world::lemma_keeps_enemies_trans(w0, w2, w3);
            if player is Some {
                let p = player->Some_0;
                if walker_added(w0, w1, p) {
                    let id = choose|id: crate::world::EnemyId|
                        {
                            &&& #[trigger] w1.enemy_live(id)
                            &&& !w0.enemy_live(id)
                            &&& w1.enemy_at(id) == spec_walker_bundle(
                                w1.enemy_at(id).position,
                                (w0.walkers_spawned + 1) as u64,
                            )
                            &&& sq(SPAWN_RADIUS as int) <= dist_sq(p, w1.enemy_at(id).position)
                                < sq(SPAWN_RADIUS + SPAWN_JITTER)
                        };
                    assert(w2.enemy_live(id) && w2.enemy_at(id) == w1.enemy_at(id));
                    assert(w3.enemy_live(id) && w3.enemy_at(id) == w1.enemy_at(id));
                }
                if shooter_added(w1, w2, p) {
                    let id = choose|id: crate::world::EnemyId|
                        {
                            &&& #[trigger] w2.enemy_live(id)
                            &&& !w1.enemy_live(id)
                            &&& w2.enemy_at(id) == spec_shooter_bundle(
                                w2.enemy_at(id).position,
                                (w1.shooters_spawned + 1) as u64,
                            )
                            &&& sq(SPAWN_RADIUS as int) <= dist_sq(p, w2.enemy_at(id).position)
                                < sq(SPAWN_RADIUS + SPAWN_JITTER)
                        };
                    assert(w3.enemy_live(id) && w3.enemy_at(id) == w2.enemy_at(id));
                    assert(!w0.enemy_live(id));
                }
                if sprinter_added(w2, w3, p) {
                    let id = choose|id: crate::world::EnemyId|
                        {
                            &&& #[trigger] w3.enemy_live(id)
                            &&& !w2.enemy_live(id)
                            &&& w3.enemy_at(id) == spec_sprinter_bundle(
                                w3.enemy_at(id).position,
                                (w2.sprinters_spawned + 1) as u64,
                            )
                            &&& sq(SPAWN_RADIUS as int) <= dist_sq(p, w3.enemy_at(id).position)
                                < sq(SPAWN_RADIUS + SPAWN_JITTER)
                        };
                    assert(!w1.enemy_live(id) && !w0.enemy_live(id));
                }
            }
        }
    }
}

} // verus!
