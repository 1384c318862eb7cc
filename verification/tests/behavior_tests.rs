use survivor_core::behavior::{
    move_charging_sprinter, move_projectiles, shooter_attack, shooter_projectile_hit,
    sprinter_ability_hit, sprinter_attack,
};
use survivor_core::enemy::{shooter_bundle, sprinter_bundle, walker_bundle};
use survivor_core::geom::Vec2i;
use survivor_core::world::{EnemyId, ProjectileId, World};

#[test]
fn shooter_attack_spawns_projectile_toward_player() {
    // Player at the origin, a Shooter 400 units due east: the projectile
    // starts at the shooter, flies due west at the shooter's ability speed.
    let mut world = World::new();
    let pos = Vec2i { x: 400000, y: 0 };
    let id = world.spawn_enemy(shooter_bundle(pos, 1));
    let player = Vec2i { x: 0, y: 0 };
    let pid = shooter_attack(&mut world, id, Some(player)).unwrap();
    let p = *world.get_projectile(pid).unwrap();
    assert_eq!(p.owner, id);
    assert_eq!(p.position, pos);
    assert_eq!(p.direction, Vec2i { x: -1000, y: 0 });
    assert_eq!(p.speed, 125000);
}

#[test]
fn shooter_attack_direction_is_a_unit_vector() {
    let mut world = World::new();
    let pos = Vec2i { x: 300000, y: 400000 };
    let id = world.spawn_enemy(shooter_bundle(pos, 1));
    let pid = shooter_attack(&mut world, id, Some(Vec2i { x: 0, y: 0 })).unwrap();
    let p = *world.get_projectile(pid).unwrap();
    // Offset (-300, -400) has length 500: the unit vector is (-600, -800).
    assert_eq!(p.direction, Vec2i { x: -600, y: -800 });
}

#[test]
fn shooter_attack_dropped_cases() {
    let mut world = World::new();
    let pos = Vec2i { x: 100000, y: 0 };
    let id = world.spawn_enemy(shooter_bundle(pos, 1));
    // Missing player.
    assert!(shooter_attack(&mut world, id, None).is_none());
    // Stale handle.
    let stale = EnemyId { index: id.index, generation: id.generation + 1 };
    assert!(shooter_attack(&mut world, stale, Some(Vec2i { x: 0, y: 0 })).is_none());
    // Not a shooter.
    let wid = world.spawn_enemy(walker_bundle(Vec2i { x: 0, y: 50000 }, 1));
    assert!(shooter_attack(&mut world, wid, Some(Vec2i { x: 0, y: 0 })).is_none());
    // Exact overlap: a zero-length direction is a no-op attack.
    assert!(shooter_attack(&mut world, id, Some(pos)).is_none());
    assert_eq!(world.projectiles.len(), 0);
}

#[test]
fn projectile_hit_applies_current_ability_damage_once() {
    let mut world = World::new();
    let id = world.spawn_enemy(shooter_bundle(Vec2i { x: 200000, y: 0 }, 1));
    let pid = shooter_attack(&mut world, id, Some(Vec2i { x: 0, y: 0 })).unwrap();
    // Damage is read at hit time, not at fire time.
    if let Some(slot) = world.enemies.get_mut(id.index) {
        if let Some(e) = slot.occupant.as_mut() {
            e.ability_damage = 7000;
        }
    }
    let dmg = shooter_projectile_hit(&mut world, pid, id).unwrap();
    assert_eq!(dmg.amount, 7000);
    // The projectile is removed exactly once: a replay of the event drops.
    assert!(world.get_projectile(pid).is_none());
    assert!(shooter_projectile_hit(&mut world, pid, id).is_none());
}

#[test]
fn projectile_hit_with_despawned_shooter_is_dropped() {
    // The owner despawned between fire and hit: no damage, and the
    // projectile is left for outside cleanup.
    let mut world = World::new();
    let id = world.spawn_enemy(shooter_bundle(Vec2i { x: 200000, y: 0 }, 1));
    let pid = shooter_attack(&mut world, id, Some(Vec2i { x: 0, y: 0 })).unwrap();
    assert!(world.despawn_enemy(id));
    assert!(shooter_projectile_hit(&mut world, pid, id).is_none());
    assert!(world.get_projectile(pid).is_some());
}

#[test]
fn projectile_hit_with_stale_projectile_is_dropped() {
    let mut world = World::new();
    let id = world.spawn_enemy(shooter_bundle(Vec2i { x: 200000, y: 0 }, 1));
    let stale = ProjectileId { index: 0, generation: 0 };
    assert!(shooter_projectile_hit(&mut world, stale, id).is_none());
}

#[test]
fn projectiles_travel_at_constant_velocity() {
    let mut world = World::new();
    let id = world.spawn_enemy(shooter_bundle(Vec2i { x: 400000, y: 0 }, 1));
    let pid = shooter_attack(&mut world, id, Some(Vec2i { x: 0, y: 0 })).unwrap();
    // 125 units per second due west: 12.5 units per 100 ms step.
    move_projectiles(&mut world, 100);
    assert_eq!(world.get_projectile(pid).unwrap().position, Vec2i { x: 387500, y: 0 });
    move_projectiles(&mut world, 100);
    assert_eq!(world.get_projectile(pid).unwrap().position, Vec2i { x: 375000, y: 0 });
}

#[test]
fn sprinter_charge_runs_straight_and_stops_by_the_range_check() {
    // Sprinter at (100, 0), player at the origin, range 500 and buffer 30:
    // the charge moves 50 units per 100 ms step along the captured
    // direction, and ends on the first step that starts at distance >= 530.
    let mut world = World::new();
    let id = world.spawn_enemy(sprinter_bundle(Vec2i { x: 100000, y: 0 }, 1));
    let player = Some(Vec2i { x: 0, y: 0 });
    assert!(sprinter_attack(&mut world, id, player));
    let e = *world.get_enemy(id).unwrap();
    assert_eq!(e.direction, Vec2i { x: -1000, y: 0 });
    let charge = e.charge.unwrap();
    assert!(charge.active);
    assert!(!charge.hit_target);

    let mut steps: u32 = 0;
    loop {
        let before = world.get_enemy(id).unwrap().position;
        move_charging_sprinter(&mut world, player, 100);
        steps += 1;
        let e = *world.get_enemy(id).unwrap();
        // Straight-line travel at 500 units per second, direction unchanged.
        assert_eq!(e.position, Vec2i { x: before.x - 50000, y: 0 });
        assert_eq!(e.direction, Vec2i { x: -1000, y: 0 });
        if e.charge.is_none() {
            break;
        }
        assert!(steps < 100);
    }
    // Steps start at x = 100 - 50 * (steps - 1); the first start position at
    // distance >= 530 from the origin is x = -550, on step 14.
    assert_eq!(steps, 14);
    let e = *world.get_enemy(id).unwrap();
    assert_eq!(e.position, Vec2i { x: -600000, y: 0 });

    // Once the charge is shed, further steps no longer move the sprinter.
    move_charging_sprinter(&mut world, player, 100);
    assert_eq!(world.get_enemy(id).unwrap().position, Vec2i { x: -600000, y: 0 });
}

#[test]
fn sprinter_attack_rearms_and_clears_halt() {
    let mut world = World::new();
    let id = world.spawn_enemy(sprinter_bundle(Vec2i { x: 100000, y: 0 }, 1));
    if let Some(slot) = world.enemies.get_mut(id.index) {
        if let Some(e) = slot.occupant.as_mut() {
            e.halted = true;
        }
    }
    assert!(sprinter_attack(&mut world, id, Some(Vec2i { x: 0, y: 0 })));
    let e = *world.get_enemy(id).unwrap();
    assert!(!e.halted);
    assert!(e.charge.is_some());
}

#[test]
fn sprinter_attack_dropped_cases() {
    let mut world = World::new();
    let pos = Vec2i { x: 100000, y: 0 };
    let id = world.spawn_enemy(sprinter_bundle(pos, 1));
    assert!(!sprinter_attack(&mut world, id, None));
    let stale = EnemyId { index: id.index, generation: id.generation + 1 };
    assert!(!sprinter_attack(&mut world, stale, Some(Vec2i { x: 0, y: 0 })));
    assert!(!sprinter_attack(&mut world, id, Some(pos)));
    assert!(world.get_enemy(id).unwrap().charge.is_none());
}

#[test]
fn sprinter_ability_hit_reads_current_damage() {
    let mut world = World::new();
    let id = world.spawn_enemy(sprinter_bundle(Vec2i { x: 100000, y: 0 }, 1));
    let dmg = sprinter_ability_hit(&world, id).unwrap();
    assert_eq!(dmg.amount, 5000);
    // Nothing is destroyed by a charge impact.
    assert!(world.get_enemy(id).is_some());
}

#[test]
fn sprinter_ability_hit_with_missing_sprinter_is_dropped() {
    let mut world = World::new();
    let id = world.spawn_enemy(sprinter_bundle(Vec2i { x: 100000, y: 0 }, 1));
    assert!(world.despawn_enemy(id));
    assert!(sprinter_ability_hit(&world, id).is_none());
    // A Walker id is no Sprinter either.
    let wid = world.spawn_enemy(walker_bundle(Vec2i { x: 0, y: 50000 }, 1));
    assert!(sprinter_ability_hit(&world, wid).is_none());
}
