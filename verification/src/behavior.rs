//! Per-archetype behavior: the Shooter's ranged-attack and projectile flow,
//! the Sprinter's charge state machine, and the hit handlers that resolve
//! attacks into damage against the player.

use vstd::prelude::*;
use crate::enemy::{Archetype, ChargeState, Enemy};
use crate::geom::{
    dir_toward, dist_sq, dist_sq_u64, move_point, sq, step_coord, unit_x, unit_y, Vec2i, DT_MAX,
};
use crate::world::{EnemyId, EnemySlot, Projectile, ProjectileId, ProjectileSlot, World};

verus! {

/// Margin added to the travel range in the charge termination check, so that
/// a charge disengages a little before the exact boundary, in grid steps.
pub const RANGE_BUFFER: i64 = 30000;

/// A damage application handed to the outside player-health system, in the
/// fixed-point damage scale.
#[derive(Clone, Copy, PartialEq, Eq, Structural, Debug)]
pub struct PlayerDamage {
    pub amount: i64,
}

/// Handles an attack trigger of the shooter `id`: spawns a projectile at the
/// shooter's position flying toward the player at the shooter's ability
/// speed. The trigger is dropped without effect when the player is missing,
/// when the handle is stale or names no Shooter, or when shooter and player
/// overlap exactly (a zero-length direction cannot be normalized).
pub fn shooter_attack(world: &mut World, id: EnemyId, player: Option<Vec2i>) -> (r: Option<
    ProjectileId>)
    requires
        old(world).wf(),
        player matches Some(p) ==> p.in_world(),
    ensures
        final(world).wf(),
        final(world).enemies == old(world).enemies,
        old(world).same_counters(*final(world)),
        ({
            let blocked = player is None || !old(world).enemy_live(id) || !(old(world).enemy_at(
                id).archetype is Shooter) || old(world).enemy_at(id).position == player->Some_0;
            &&& blocked ==> r is None && *final(world) == *old(world)
            &&& !blocked ==> {
                let p = player->Some_0;
                let sh = old(world).enemy_at(id);
                &&& r matches Some(pid)
                &&& final(world).proj_live(pid)
                &&& !old(world).proj_live(pid)
                &&& final(world).proj_at(pid).owner == id
                &&& final(world).proj_at(pid).position == sh.position
                &&& final(world).proj_at(pid).direction.x == unit_x(sh.position, p)
                &&& final(world).proj_at(pid).direction.y == unit_y(sh.position, p)
                &&& final(world).proj_at(pid).speed == sh.ability_speed
                &&& old(world).keeps_projectiles(*final(world))
                &&& forall|q: ProjectileId|
                    #[trigger] final(world).proj_live(q) ==> old(world).proj_live(q) || Some(q)
                        == r
            }
        }),
{
    let p = match player {
        None => { return None },
        Some(p) => p,
    };
    let sh = match world.get_enemy(id) {
        None => { return None },
        Some(e) => *e,
    };
    if !(sh.archetype == Archetype::Shooter) {
        return None;
    }
    match dir_toward(sh.position, p) {
        None => None,
        Some(d) => {
            let proj = Projectile { owner: id, position: sh.position, direction: d, speed: sh.ability_speed };
            let pid = world.spawn_projectile(proj);
            Some(pid)
        },
    }
}

/// The state one constant-velocity step leads a projectile to.
pub open spec fn spec_projectile_step(p: Projectile, dt: u64) -> Projectile {
    Projectile {
        position: Vec2i {
            x: step_coord(
                p.position.x as int,
                p.direction.x as int,
                p.speed as int,
                dt as int,
            ) as i64,
            y: step_coord(
                p.position.y as int,
                p.direction.y as int,
                p.speed as int,
                dt as int,
            ) as i64,
        },
        ..p
    }
}

/// Advances every projectile in flight by one constant-velocity step.
pub fn move_projectiles(world: &mut World, dt: u64)
    requires
        old(world).wf(),
        dt <= DT_MAX,
    ensures
        final(world).wf(),
        final(world).enemies == old(world).enemies,
        old(world).same_counters(*final(world)),
        final(world).projectiles@.len() == old(world).projectiles@.len(),
        forall|i: int|
            0 <= i < old(world).projectiles@.len() ==> {
                let pre = old(world).projectiles@[i];
                let post = #[trigger] final(world).projectiles@[i];
                &&& post.generation == pre.generation
                &&& (pre.occupant is None ==> post.occupant is None)
                &&& (pre.occupant matches Some(p) ==> post.occupant == Some(
                    spec_projectile_step(p, dt),
                ))
            },
{
    let n: usize = world.projectiles.len();
    let mut i: usize = 0;
    while i < n
        invariant
            world.wf(),
            dt <= DT_MAX,
            i <= n,
            n == world.projectiles@.len(),
            n == old(world).projectiles@.len(),
            world.enemies == old(world).enemies,
            old(world).same_counters(*world),
            forall|j: int| i <= j < n ==> world.projectiles@[j] == old(world).projectiles@[j],
            forall|j: int|
                0 <= j < i ==> {
                    let pre = old(world).projectiles@[j];
                    let post = #[trigger] world.projectiles@[j];
                    &&& post.generation == pre.generation
                    &&& (pre.occupant is None ==> post.occupant is None)
                    &&& (pre.occupant matches Some(p) ==> post.occupant == Some(
                        spec_projectile_step(p, dt),
                    ))
                },
        decreases n - i,
    {
        let slot: ProjectileSlot = world.projectiles[i];
        match slot.occupant {
            Some(p) => {
                let npos = move_point(p.position, p.direction, p.speed, dt);
                let np = Projectile { position: npos, ..p };
                world.projectiles[i] = ProjectileSlot {
                    generation: slot.generation,
                    occupant: Some(np),
                };
            },
            None => {},
        }
        i += 1;
    }
}

/// Resolves a projectile hit: the player takes the owning Shooter's ability
/// damage as it stands at this moment, and the projectile is destroyed. The
/// event is dropped without effect — no damage, nothing destroyed — when the
/// shooter handle is stale or names no Shooter (the projectile is then left
/// for outside cleanup) or when the projectile handle itself is stale.
pub fn shooter_projectile_hit(world: &mut World, projectile: ProjectileId, source: EnemyId) -> (r:
    Option<PlayerDamage>)
    requires
        old(world).wf(),
    ensures
        final(world).wf(),
        final(world).enemies == old(world).enemies,
        old(world).same_counters(*final(world)),
        ({
            let dropped = !old(world).enemy_live(source) || !(old(world).enemy_at(
                source).archetype is Shooter) || !old(world).proj_live(projectile);
            &&& dropped ==> r is None && *final(world) == *old(world)
            &&& !dropped ==> {
                &&& r == Some(PlayerDamage { amount: old(world).enemy_at(source).ability_damage })
                &&& !final(world).proj_live(projectile)
                &&& forall|q: ProjectileId|
                    old(world).proj_live(q) && q != projectile ==> #[trigger] final(
                        world).proj_live(q) && final(world).proj_at(q) == old(world).proj_at(q)
                &&& forall|q: ProjectileId|
                    #[trigger] final(world).proj_live(q) ==> old(world).proj_live(q) && q
                        != projectile
            }
        }),
{
    let sh = match world.get_enemy(source) {
        None => { return None },
        Some(e) => *e,
    };
    if !(sh.archetype == Archetype::Shooter) {
        return None;
    }
    if world.get_projectile(projectile).is_none() {
        return None;
    }
    let _ = world.despawn_projectile(projectile);
    Some(PlayerDamage { amount: sh.ability_damage })
}

/// Handles an attack trigger of the sprinter `id`: captures the unit
/// direction toward the player's current position, clears any halted mark,
/// and attaches a fresh charge. The trigger is dropped without effect when
/// the player is missing, when the handle is stale or names no Sprinter, or
/// when sprinter and player overlap exactly.
pub fn sprinter_attack(world: &mut World, id: EnemyId, player: Option<Vec2i>) -> (started: bool)
    requires
        old(world).wf(),
        player matches Some(p) ==> p.in_world(),
    ensures
        final(world).wf(),
        final(world).projectiles == old(world).projectiles,
        old(world).same_counters(*final(world)),
        ({
            let blocked = player is None || !old(world).enemy_live(id) || !(old(world).enemy_at(
                id).archetype is Sprinter) || old(world).enemy_at(id).position == player->Some_0;
            &&& blocked ==> !started && *final(world) == *old(world)
            &&& !blocked ==> {
                let p = player->Some_0;
                let e0 = old(world).enemy_at(id);
                &&& started
                &&& final(world).enemy_live(id)
                &&& final(world).enemy_at(id) == (Enemy {
                    direction: Vec2i {
                        x: unit_x(e0.position, p) as i64,
                        y: unit_y(e0.position, p) as i64,
                    },
                    halted: false,
                    charge: Some(ChargeState { active: true, hit_target: false }),
                    ..e0
                })
                &&& forall|oid: EnemyId|
                    old(world).enemy_live(oid) && oid != id ==> #[trigger] final(
                        world).enemy_live(oid) && final(world).enemy_at(oid) == old(
                        world).enemy_at(oid)
                &&& forall|oid: EnemyId|
                    #[trigger] final(world).enemy_live(oid) ==> old(world).enemy_live(oid)
            }
        }),
{
    let p = match player {
        None => { return false },
        Some(p) => p,
    };
    let e = match world.get_enemy(id) {
        None => { return false },
        Some(e) => *e,
    };
    if !(e.archetype == Archetype::Sprinter) {
        return false;
    }
    match dir_toward(e.position, p) {
        None => false,
        Some(d) => {
            let ne = Enemy {
                direction: d,
                halted: false,
                charge: Some(ChargeState { active: true, hit_target: false }),
                ..e
            };
            let g: u64 = world.enemies[id.index].generation;
            world.enemies[id.index] = EnemySlot { generation: g, occupant: Some(ne) };
            true
        },
    }
}

/// Whether a charging sprinter disengages on a step that starts at this
/// state: the distance to the player's current position, less
/// `RANGE_BUFFER`, has reached the charge's travel range.
pub open spec fn charge_done(e: Enemy, p: Vec2i) -> bool {
    dist_sq(e.position, p) >= sq(e.ability_range + RANGE_BUFFER)
}

/// The state one fixed simulation step leads a charging sprinter to: it
/// travels along its stored direction at its ability speed, and sheds the
/// charge when `charge_done` held at the start of the step.
pub open spec fn spec_charge_step(e: Enemy, p: Vec2i, dt: u64) -> Enemy {
    Enemy {
        position: Vec2i {
            x: step_coord(
                e.position.x as int,
                e.direction.x as int,
                e.ability_speed as int,
                dt as int,
            ) as i64,
            y: step_coord(
                e.position.y as int,
                e.direction.y as int,
                e.ability_speed as int,
                dt as int,
            ) as i64,
        },
        charge: if charge_done(e, p) {
            None
        } else {
            e.charge
        },
        ..e
    }
}

/// One fixed simulation step of every charging Sprinter. A missing player
/// leaves the world unchanged: without a position to measure against,
/// neither the movement nor the termination check of this step can run.
pub fn move_charging_sprinter(world: &mut World, player: Option<Vec2i>, dt: u64)
    requires
        old(world).wf(),
        dt <= DT_MAX,
        player matches Some(p) ==> p.in_world(),
    ensures
        final(world).wf(),
        player is None ==> *final(world) == *old(world),
        player matches Some(p) ==> {
            &&& final(world).projectiles == old(world).projectiles
            &&& old(world).same_counters(*final(world))
            &&& final(world).enemies@.len() == old(world).enemies@.len()
            &&& forall|i: int|
                0 <= i < old(world).enemies@.len() ==> {
                    let pre = old(world).enemies@[i];
                    let post = #[trigger] final(world).enemies@[i];
                    &&& post.generation == pre.generation
                    &&& (pre.occupant is None ==> post.occupant is None)
                    &&& (pre.occupant matches Some(e) ==> post.occupant == Some(
                        if e.archetype is Sprinter && e.charge is Some {
                            spec_charge_step(e, p, dt)
                        } else {
                            e
                        },
                    ))
                }
        },
{
    let p = match player {
        None => { return },
        Some(p) => p,
    };
    let n: usize = world.enemies.len();
    let mut i: usize = 0;
    while i < n
        invariant
            world.wf(),
            dt <= DT_MAX,
            p.in_world(),
            i <= n,
            n == world.enemies@.len(),
            n == old(world).enemies@.len(),
            world.projectiles == old(world).projectiles,
            old(world).same_counters(*world),
            forall|j: int| i <= j < n ==> world.enemies@[j] == old(world).enemies@[j],
            forall|j: int|
                0 <= j < i ==> {
                    let pre = old(world).enemies@[j];
                    let post = #[trigger] world.enemies@[j];
                    &&& post.generation == pre.generation
                    &&& (pre.occupant is None ==> post.occupant is None)
                    &&& (pre.occupant matches Some(e) ==> post.occupant == Some(
                        if e.archetype is Sprinter && e.charge is Some {
                            spec_charge_step(e, p, dt)
                        } else {
                            e
                        },
                    ))
                },
        decreases n - i,
    {
        let slot: EnemySlot = world.enemies[i];
        match slot.occupant {
            Some(e) => {
                let charging: bool = e.archetype == Archetype::Sprinter && e.charge.is_some();
                if charging {
                    let d2: u64 = dist_sq_u64(e.position, p);
                    let threshold: i64 = e.ability_range + RANGE_BUFFER;
                    proof {
                        assert((threshold as u64) * (threshold as u64) == sq(threshold as int) && sq(
                            threshold as int) <= 0xffffffffffffffff) by (nonlinear_arith)
                            requires
                                0 <= threshold <= 1000030000,
                        ;
                    }
                    let done: bool = d2 >= (threshold as u64) * (threshold as u64);
                    let npos = move_point(e.position, e.direction, e.ability_speed, dt);
                    let ne = Enemy {
                        position: npos,
                        charge: if done {
                            None
                        } else {
                            e.charge
                        },
                        ..e
                    };
                    world.enemies[i] = EnemySlot {
                        generation: slot.generation,
                        occupant: Some(ne),
                    };
                }
            },
            None => {},
        }
        i += 1;
    }
}

/// Resolves a Sprinter's charge impact: the player takes the sprinter's
/// ability damage as it stands at this moment; nothing is destroyed. The
/// event is dropped when the handle is stale or names no Sprinter.
pub fn sprinter_ability_hit(world: &World, id: EnemyId) -> (r: Option<PlayerDamage>)
    requires
        world.wf(),
    ensures
        ({
            let dropped = !world.enemy_live(id) || !(world.enemy_at(id).archetype is Sprinter);
            &&& dropped ==> r is None
            &&& !dropped ==> r == Some(
                PlayerDamage { amount: world.enemy_at(id).ability_damage },
            )
        }),
{
    match world.get_enemy(id) {
        None => None,
        Some(e) => {
            if e.archetype == Archetype::Sprinter {
                Some(PlayerDamage { amount: e.ability_damage })
            } else {
                None
            }
        },
    }
}

/// Law: a charge step never alters the stored direction, the archetype or
/// the stats: the direction a charge captured at trigger time stays as it
/// is, wherever the player has moved meanwhile.
pub proof fn lemma_charge_keeps_direction(e: Enemy, p: Vec2i, dt: u64)
    ensures
        spec_charge_step(e, p, dt).direction == e.direction,
        spec_charge_step(e, p, dt).archetype == e.archetype,
        spec_charge_step(e, p, dt).ability_speed == e.ability_speed,
        spec_charge_step(e, p, dt).ability_range == e.ability_range,
{
}

/// Law: a charge step sheds the charge exactly when the distance to the
/// player at the start of the step, less `RANGE_BUFFER`, has reached the
/// travel range — so a charge ends on the first step whose starting state
/// satisfies that inequality, and on no earlier one.
pub proof fn lemma_charge_termination(e: Enemy, p: Vec2i, dt: u64)
    requires
        e.charge is Some,
    ensures
        spec_charge_step(e, p, dt).charge is None <==> dist_sq(e.position, p) >= sq(
            e.ability_range + RANGE_BUFFER,
        ),
{
}

/// The run of charge steps over successive ticks, against the player
/// position seen at each tick.
pub open spec fn spec_charge_run(e: Enemy, ps: Seq<Vec2i>, dt: u64) -> Enemy
    decreases ps.len(),
{
    if ps.len() == 0 {
        e
    } else {
        spec_charge_run(spec_charge_step(e, ps[0], dt), ps.drop_first(), dt)
    }
}

/// Law: over any run of charge steps, however the player moves from tick to
/// tick, the stored direction never changes.
pub proof fn lemma_charge_run_keeps_direction(e: Enemy, ps: Seq<Vec2i>, dt: u64)
    ensures
        spec_charge_run(e, ps, dt).direction == e.direction,
    decreases ps.len(),
{
    if ps.len() > 0 {
        lemma_charge_run_keeps_direction(spec_charge_step(e, ps[0], dt), ps.drop_first(), dt);
    }
}

} // verus!
