use survivor_core::animation::AnimationState;
use survivor_core::enemy::{shooter_bundle, sprinter_bundle, walker_bundle, Archetype};
use survivor_core::geom::{dir_toward, dist_sq_u64, isqrt, Vec2i};
use survivor_core::world::World;

#[test]
fn registry_counts_by_archetype() {
    let mut world = World::new();
    world.spawn_enemy(walker_bundle(Vec2i { x: 0, y: 0 }, 1));
    world.spawn_enemy(walker_bundle(Vec2i { x: 1000, y: 0 }, 2));
    world.spawn_enemy(shooter_bundle(Vec2i { x: 2000, y: 0 }, 1));
    let sid = world.spawn_enemy(sprinter_bundle(Vec2i { x: 3000, y: 0 }, 1));
    assert_eq!(world.count_archetype(Archetype::Walker), 2);
    assert_eq!(world.count_archetype(Archetype::Shooter), 1);
    assert_eq!(world.count_archetype(Archetype::Sprinter), 1);
    assert!(world.despawn_enemy(sid));
    assert_eq!(world.count_archetype(Archetype::Sprinter), 0);
}

#[test]
fn registry_looks_up_by_archetype() {
    let mut world = World::new();
    let w1 = world.spawn_enemy(walker_bundle(Vec2i { x: 0, y: 0 }, 1));
    let s1 = world.spawn_enemy(shooter_bundle(Vec2i { x: 1000, y: 0 }, 1));
    let w2 = world.spawn_enemy(walker_bundle(Vec2i { x: 2000, y: 0 }, 2));
    let walkers = world.ids_of_archetype(Archetype::Walker);
    assert_eq!(walkers, vec![w1, w2]);
    assert_eq!(world.ids_of_archetype(Archetype::Shooter), vec![s1]);
    assert!(world.ids_of_archetype(Archetype::Sprinter).is_empty());
}

#[test]
fn stale_handle_does_not_reach_a_reused_slot() {
    let mut world = World::new();
    let first = world.spawn_enemy(walker_bundle(Vec2i { x: 0, y: 0 }, 1));
    assert!(world.despawn_enemy(first));
    // The slot is reused with a bumped generation.
    let second = world.spawn_enemy(shooter_bundle(Vec2i { x: 0, y: 0 }, 1));
    assert_eq!(second.index, first.index);
    assert_ne!(second.generation, first.generation);
    assert!(world.get_enemy(first).is_none());
    assert!(world.get_enemy(second).is_some());
    // Despawning through the stale handle removes nothing.
    assert!(!world.despawn_enemy(first));
    assert!(world.get_enemy(second).is_some());
}

#[test]
fn despawn_is_idempotent() {
    let mut world = World::new();
    let id = world.spawn_enemy(walker_bundle(Vec2i { x: 0, y: 0 }, 1));
    assert!(world.despawn_enemy(id));
    assert!(!world.despawn_enemy(id));
    assert!(world.get_enemy(id).is_none());
}

#[test]
fn isqrt_matches_exact_roots_and_bounds() {
    assert_eq!(isqrt(0), 0);
    assert_eq!(isqrt(1), 1);
    assert_eq!(isqrt(2), 1);
    assert_eq!(isqrt(3), 1);
    assert_eq!(isqrt(4), 2);
    assert_eq!(isqrt(250000), 500);
    assert_eq!(isqrt(250001), 500);
    assert_eq!(isqrt(u64::MAX), 4294967295);
}

#[test]
fn dist_sq_and_direction() {
    let a = Vec2i { x: 0, y: 0 };
    let b = Vec2i { x: 3000, y: 4000 };
    assert_eq!(dist_sq_u64(a, b), 25000000);
    let d = dir_toward(a, b).unwrap();
    assert_eq!(d, Vec2i { x: 600, y: 800 });
    // A zero-length offset has no direction.
    assert!(dir_toward(a, a).is_none());
}

#[test]
fn animation_cycles_through_its_frame_range() {
    let mut s = AnimationState::new(0, 3, 100);
    let mut frames: Vec<usize> = Vec::new();
    for _ in 0..6 {
        s.advance(100);
        frames.push(s.index);
    }
    assert_eq!(frames, vec![1, 2, 3, 0, 1, 2]);
    // A short advance leaves the frame alone.
    s.advance(50);
    assert_eq!(s.index, 2);
}
