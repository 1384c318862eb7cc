//! Enemy records: archetype tags, stat bundles and cooldown timers.
//!
//! All magnitudes are in grid steps (thousandths of a world unit), so a
//! health of `10_000` is ten points and a speed of `50_000` is fifty world
//! units per second.

use vstd::prelude::*;
use crate::animation::AnimationState;
use crate::geom::{Vec2i, SPEED_MAX};
use crate::timer::{Timer, TimerMode};

verus! {

/// Largest ability range a stat may carry, in grid steps.
pub const RANGE_MAX: i64 = 1000000000;

/// The three enemy behavior profiles. Set once at spawn, never changed.
#[derive(Clone, Copy, PartialEq, Eq, Structural, Debug)]
pub enum Archetype {
    Walker,
    Shooter,
    Sprinter,
}

/// A Sprinter's dash, present only while one is under way. `hit_target` is
/// set by the outside collision logic once the dash has dealt its damage;
/// the charge logic here only carries it.
#[derive(Clone, Copy, PartialEq, Eq, Structural, Debug)]
pub struct ChargeState {
    pub active: bool,
    pub hit_target: bool,
}

/// One enemy record of the registry.
#[derive(Clone, Copy, Debug)]
pub struct Enemy {
    pub archetype: Archetype,
    pub position: Vec2i,
    /// Movement/facing direction: a fixed-point unit vector.
    pub direction: Vec2i,
    pub health: i64,
    /// Grid steps per second.
    pub speed: i64,
    pub knockback: i64,
    pub knockback_direction: Vec2i,
    /// Contact damage; gated by the repeating `melee_cooldown`.
    pub melee_damage: i64,
    pub melee_cooldown: Timer,
    /// A Shooter's projectile damage, a Sprinter's charge-impact damage.
    pub ability_damage: i64,
    /// One-shot; rearmed by the outside scheduler between ability uses.
    pub ability_cooldown: Timer,
    /// A Shooter's engagement range, a Sprinter's charge travel distance.
    pub ability_range: i64,
    /// A Shooter's projectile speed, a Sprinter's charge speed.
    pub ability_speed: i64,
    /// Set while an outside effect holds the enemy in place.
    pub halted: bool,
    pub charge: Option<ChargeState>,
    pub anim: AnimationState,
    /// Serial number for the spawn label; cosmetic only.
    pub label_serial: u64,
}

impl Enemy {
    pub open spec fn wf(self) -> bool {
        &&& self.position.in_world()
        &&& self.direction.is_unit_box()
        &&& 0 <= self.speed <= SPEED_MAX
        &&& 0 <= self.ability_speed <= SPEED_MAX
        &&& 0 <= self.ability_range <= RANGE_MAX
        &&& self.melee_cooldown.wf()
        &&& self.melee_cooldown.mode is Repeating
        &&& self.ability_cooldown.wf()
        &&& self.ability_cooldown.mode is Once
        &&& self.anim.wf()
        &&& self.charge is Some ==> self.archetype is Sprinter
    }
}

/// Frame range and cycling period shared by the three run animations.
pub open spec fn spec_run_anim() -> AnimationState {
    AnimationState {
        indices: crate::animation::AnimationIndices { first: 0, last: 3 },
        timer: Timer { mode: TimerMode::Repeating, duration_ms: 100, total_ms: 0, fired_now: false },
        index: 0,
    }
}

/// The record a freshly spawned Walker carries. A Walker fights by contact
/// alone: the shared melee-approach behavior supplies its damage, and the
/// ability fields are inert placeholders that nothing ever reads.
pub open spec fn spec_walker_bundle(position: Vec2i, serial: u64) -> Enemy {
    Enemy {
        archetype: Archetype::Walker,
        position,
        direction: Vec2i { x: 0, y: 0 },
        health: 10000,
        speed: 50000,
        knockback: 0,
        knockback_direction: Vec2i { x: 0, y: 0 },
        melee_damage: 0,
        melee_cooldown: Timer { mode: TimerMode::Repeating, duration_ms: 500, total_ms: 0, fired_now: false },
        ability_damage: 0,
        ability_cooldown: Timer { mode: TimerMode::Once, duration_ms: 1, total_ms: 0, fired_now: false },
        ability_range: 0,
        ability_speed: 0,
        halted: false,
        charge: None,
        anim: spec_run_anim(),
        label_serial: serial,
    }
}

/// The record a freshly spawned Shooter carries: a ranged attacker with a
/// two-second one-shot ability cooldown and a projectile of five points of
/// damage at 125 units per second, engaging out to 200 units.
pub open spec fn spec_shooter_bundle(position: Vec2i, serial: u64) -> Enemy {
    Enemy {
        archetype: Archetype::Shooter,
        position,
        direction: Vec2i { x: 0, y: 0 },
        health: 10000,
        speed: 100000,
        knockback: 0,
        knockback_direction: Vec2i { x: 0, y: 0 },
        melee_damage: 1000,
        melee_cooldown: Timer { mode: TimerMode::Repeating, duration_ms: 500, total_ms: 0, fired_now: false },
        ability_damage: 5000,
        ability_cooldown: Timer { mode: TimerMode::Once, duration_ms: 2000, total_ms: 0, fired_now: false },
        ability_range: 200000,
        ability_speed: 125000,
        halted: false,
        charge: None,
        anim: spec_run_anim(),
        label_serial: serial,
    }
}

/// The record a freshly spawned Sprinter carries: a melee charger with a
/// three-second one-shot ability cooldown, dashing at 500 units per second
/// over a travel distance of 500 units for five points of impact damage.
pub open spec fn spec_sprinter_bundle(position: Vec2i, serial: u64) -> Enemy {
    Enemy {
        archetype: Archetype::Sprinter,
        position,
        direction: Vec2i { x: 0, y: 0 },
        health: 10000,
        speed: 50000,
        knockback: 0,
        knockback_direction: Vec2i { x: 0, y: 0 },
        melee_damage: 1000,
        melee_cooldown: Timer { mode: TimerMode::Repeating, duration_ms: 500, total_ms: 0, fired_now: false },
        ability_damage: 5000,
        ability_cooldown: Timer { mode: TimerMode::Once, duration_ms: 3000, total_ms: 0, fired_now: false },
        ability_range: 500000,
        ability_speed: 500000,
        halted: false,
        charge: None,
        anim: spec_run_anim(),
        label_serial: serial,
    }
}

/// Builds a Walker record at `position`, labelled with `serial`.
pub fn walker_bundle(position: Vec2i, serial: u64) -> (e: Enemy)
    requires
        position.in_world(),
    ensures
        e == spec_walker_bundle(position, serial),
        e.wf(),
{
    Enemy {
        archetype: Archetype::Walker,
        position,
        direction: Vec2i { x: 0, y: 0 },
        health: 10000,
        speed: 50000,
        knockback: 0,
        knockback_direction: Vec2i { x: 0, y: 0 },
        melee_damage: 0,
        melee_cooldown: Timer::new(500, TimerMode::Repeating),
        ability_damage: 0,
        ability_cooldown: Timer::new(1, TimerMode::Once),
        ability_range: 0,
        ability_speed: 0,
        halted: false,
        charge: None,
        anim: AnimationState::new(0, 3, 100),
        label_serial: serial,
    }
}

/// Builds a Shooter record at `position`, labelled with `serial`.
pub fn shooter_bundle(position: Vec2i, serial: u64) -> (e: Enemy)
    requires
        position.in_world(),
    ensures
        e == spec_shooter_bundle(position, serial),
        e.wf(),
{
    Enemy {
        archetype: Archetype::Shooter,
        position,
        direction: Vec2i { x: 0, y: 0 },
        health: 10000,
        speed: 100000,
        knockback: 0,
        knockback_direction: Vec2i { x: 0, y: 0 },
        melee_damage: 1000,
        melee_cooldown: Timer::new(500, TimerMode::Repeating),
        ability_damage: 5000,
        ability_cooldown: Timer::new(2000, TimerMode::Once),
        ability_range: 200000,
        ability_speed: 125000,
        halted: false,
        charge: None,
        anim: AnimationState::new(0, 3, 100),
        label_serial: serial,
    }
}

/// Builds a Sprinter record at `position`, labelled with `serial`.
pub fn sprinter_bundle(position: Vec2i, serial: u64) -> (e: Enemy)
    requires
        position.in_world(),
    ensures
        e == spec_sprinter_bundle(position, serial),
        e.wf(),
{
    Enemy {
        archetype: Archetype::Sprinter,
        position,
        direction: Vec2i { x: 0, y: 0 },
        health: 10000,
        speed: 50000,
        knockback: 0,
        knockback_direction: Vec2i { x: 0, y: 0 },
        melee_damage: 1000,
        melee_cooldown: Timer::new(500, TimerMode::Repeating),
        ability_damage: 5000,
        ability_cooldown: Timer::new(3000, TimerMode::Once),
        ability_range: 500000,
        ability_speed: 500000,
        halted: false,
        charge: None,
        anim: AnimationState::new(0, 3, 100),
        label_serial: serial,
    }
}

} // verus!
