use rand::SeedableRng;
use survivor_core::enemy::Archetype;
use survivor_core::geom::Vec2i;
use survivor_core::spawn::{
    random_spawn_point, spawn_shooter, spawn_sprinter, spawn_walker, SpawnScheduler, SPAWN_JITTER,
    SPAWN_RADIUS,
};
use survivor_core::timer::TimerMode;
use survivor_core::world::World;

fn rng_seeded(seed: u64) -> rand::rngs::StdRng {
    rand::rngs::StdRng::seed_from_u64(seed)
}

fn dist_sq(a: Vec2i, b: Vec2i) -> i128 {
    let dx = (b.x - a.x) as i128;
    let dy = (b.y - a.y) as i128;
    dx * dx + dy * dy
}

#[test]
fn spawn_point_lies_on_annulus() {
    let mut rng = rng_seeded(7);
    let player = Vec2i { x: 123000, y: -456000 };
    for _ in 0..50 {
        let p = random_spawn_point(&mut rng, player, SPAWN_RADIUS, SPAWN_JITTER);
        let d2 = dist_sq(player, p);
        let inner = SPAWN_RADIUS as i128;
        let outer = (SPAWN_RADIUS + SPAWN_JITTER) as i128;
        assert!(inner * inner <= d2);
        assert!(d2 < outer * outer);
    }
}

#[test]
fn spawn_points_vary_with_the_draw() {
    let mut rng = rng_seeded(11);
    let player = Vec2i { x: 0, y: 0 };
    let mut seen: Vec<(i64, i64)> = Vec::new();
    for _ in 0..5 {
        let p = random_spawn_point(&mut rng, player, SPAWN_RADIUS, SPAWN_JITTER);
        if !seen.contains(&(p.x, p.y)) {
            seen.push((p.x, p.y));
        }
    }
    assert!(seen.len() >= 2);
}

#[test]
fn spawn_walker_uses_the_stat_table() {
    let mut world = World::new();
    let mut rng = rng_seeded(1);
    let player = Vec2i { x: 0, y: 0 };
    let id = spawn_walker(&mut world, &mut rng, Some(player)).unwrap();
    let e = *world.get_enemy(id).unwrap();
    assert_eq!(e.archetype, Archetype::Walker);
    assert_eq!(e.health, 10000);
    assert_eq!(e.speed, 50000);
    assert_eq!(e.melee_cooldown.duration_ms, 500);
    assert_eq!(e.melee_cooldown.mode, TimerMode::Repeating);
    assert!(e.charge.is_none());
    assert_eq!(e.label_serial, 1);
    assert_eq!(world.walkers_spawned, 1);
    let inner = SPAWN_RADIUS as i128;
    let outer = (SPAWN_RADIUS + SPAWN_JITTER) as i128;
    let d2 = dist_sq(player, e.position);
    assert!(inner * inner <= d2 && d2 < outer * outer);
}

#[test]
fn spawn_shooter_uses_the_stat_table() {
    let mut world = World::new();
    let mut rng = rng_seeded(2);
    let id = spawn_shooter(&mut world, &mut rng, Some(Vec2i { x: 0, y: 0 })).unwrap();
    let e = *world.get_enemy(id).unwrap();
    assert_eq!(e.archetype, Archetype::Shooter);
    assert_eq!(e.health, 10000);
    assert_eq!(e.speed, 100000);
    assert_eq!(e.melee_damage, 1000);
    assert_eq!(e.ability_damage, 5000);
    assert_eq!(e.ability_speed, 125000);
    assert_eq!(e.ability_range, 200000);
    assert_eq!(e.ability_cooldown.duration_ms, 2000);
    assert_eq!(e.ability_cooldown.mode, TimerMode::Once);
    assert_eq!(e.melee_cooldown.duration_ms, 500);
    assert_eq!(world.shooters_spawned, 1);
}

#[test]
fn spawn_sprinter_uses_the_stat_table() {
    let mut world = World::new();
    let mut rng = rng_seeded(3);
    let id = spawn_sprinter(&mut world, &mut rng, Some(Vec2i { x: 0, y: 0 })).unwrap();
    let e = *world.get_enemy(id).unwrap();
    assert_eq!(e.archetype, Archetype::Sprinter);
    assert_eq!(e.health, 10000);
    assert_eq!(e.speed, 50000);
    assert_eq!(e.melee_damage, 1000);
    assert_eq!(e.ability_damage, 5000);
    assert_eq!(e.ability_speed, 500000);
    assert_eq!(e.ability_range, 500000);
    assert_eq!(e.ability_cooldown.duration_ms, 3000);
    assert_eq!(e.ability_cooldown.mode, TimerMode::Once);
    assert_eq!(world.sprinters_spawned, 1);
}

#[test]
fn spawn_skips_when_player_is_missing() {
    let mut world = World::new();
    let mut rng = rng_seeded(4);
    assert!(spawn_walker(&mut world, &mut rng, None).is_none());
    assert!(spawn_shooter(&mut world, &mut rng, None).is_none());
    assert!(spawn_sprinter(&mut world, &mut rng, None).is_none());
    assert_eq!(world.enemies.len(), 0);
    assert_eq!(world.walkers_spawned, 0);
}

#[test]
fn scheduler_spawns_on_its_intervals() {
    let mut world = World::new();
    let mut rng = rng_seeded(5);
    let mut sched = SpawnScheduler::new();
    let player = Some(Vec2i { x: 0, y: 0 });
    // 2000 ms: walker and shooter jobs fire, sprinter does not.
    sched.tick(&mut world, &mut rng, player, true, 2000);
    assert_eq!(world.walkers_spawned, 1);
    assert_eq!(world.shooters_spawned, 1);
    assert_eq!(world.sprinters_spawned, 0);
    // 3000 ms more: walker/shooter cross 4000, sprinter crosses 5000.
    sched.tick(&mut world, &mut rng, player, true, 3000);
    assert_eq!(world.walkers_spawned, 2);
    assert_eq!(world.shooters_spawned, 2);
    assert_eq!(world.sprinters_spawned, 1);
}

#[test]
fn scheduler_is_inert_outside_active_play() {
    let mut world = World::new();
    let mut rng = rng_seeded(6);
    let mut sched = SpawnScheduler::new();
    sched.tick(&mut world, &mut rng, Some(Vec2i { x: 0, y: 0 }), false, 10000);
    assert_eq!(world.enemies.len(), 0);
    assert_eq!(sched.walker_timer.total_ms, 0);
}

#[test]
fn scheduler_ticks_but_skips_spawns_without_player() {
    let mut world = World::new();
    let mut rng = rng_seeded(8);
    let mut sched = SpawnScheduler::new();
    sched.tick(&mut world, &mut rng, None, true, 2000);
    assert_eq!(world.enemies.len(), 0);
    assert_eq!(sched.walker_timer.total_ms, 2000);
}
