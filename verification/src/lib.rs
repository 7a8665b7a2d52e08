//! Simulation kernel of a top-down arena shooter.
//!
//! The kernel owns the moving actors (player ship, projectiles, meteors,
//! power-ups), advances their state each tick, detects and resolves
//! collisions (including the meteor split cascade and life accounting), and
//! drives the coarse game-phase state machine that gates which rules are
//! active.
//!
//! All quantities are integers: distances are measured in world units
//! (1000 units per on-screen pixel), angles in milliradians, and time in
//! milliseconds. Rendering, input polling, audio and window management are
//! outside collaborators; they exchange plain values with this crate.

use vstd::prelude::*;

pub mod collision;
pub mod common_systems;
pub mod cleanup;
pub mod components;
pub mod entity;
pub mod events;
pub mod geometry;
pub mod manager;
pub mod meteor;
pub mod object_pool;
pub mod player;
pub mod powerup;
pub mod projectile;
pub mod resources;
pub mod rng;
pub mod states;
pub mod timer;
pub mod utils;
pub mod world;

verus! {

/// Units per on-screen pixel: positions, velocities and sizes are stored in
/// thousandths of a pixel so fractional per-tick speeds stay exact.
pub const UNITS_PER_PIXEL: i64 = 1000;

/// Starting (and maximum) hit points of the player.
pub const PLAYER_START_HP: i32 = 3;

/// Cooldown between projectile shots, in milliseconds.
pub const PLAYER_SHOOT_COOLDOWN_MS: u64 = 150;

/// A projectile is removed this long after being fired, in milliseconds.
pub const PROJECTILE_DESPAWN_MS: u64 = 3000;

/// Projectile speed in pixels per tick.
pub const PROJECTILE_SPEED: i64 = 10;

/// Interval of the time-gated meteor spawner, in milliseconds.
pub const METEOR_SPAWN_MS: u64 = 3000;

/// Cap on simultaneously live meteors.
pub const METEOR_MAX_COUNT: usize = 10;

/// Interval of the time-gated power-up spawner, in milliseconds.
pub const POWERUP_SPAWN_MS: u64 = 5000;

/// Cap on simultaneously live power-ups.
pub const POWERUP_MAX_COUNT: usize = 3;

/// Extra margin past the window half-extent that forms the despawn border,
/// in world units (100 pixels).
pub const BORDER_EXTRA_SPACE: i64 = 100 * 1000;

/// Size tiers of a meteor; splitting strictly decreases the tier.
#[derive(Copy, Clone, Debug, PartialEq, Eq, Structural)]
pub enum MeteorSizeType {
    Small,
    Medium,
    Large,
}

/// The player's ship flavour; changed by picking up a power-up.
#[derive(Copy, Clone, Debug, PartialEq, Eq, Structural)]
pub enum ShipType {
    Normal,
    Shield,
    Attack,
}

/// The one effect a power-up can carry.
#[derive(Copy, Clone, Debug, PartialEq, Eq, Structural)]
pub enum PowerUpType {
    ChangeShipType,
}

/// Per-ship baseline statistics. `attack_cooldown_ms` is in milliseconds,
/// `shield` and `power` are abstract points.
#[derive(Copy, Clone, Debug, PartialEq, Eq, Structural)]
pub struct Stats {
    pub shield: i32,
    pub power: i32,
    pub attack_cooldown_ms: u64,
}

impl MeteorSizeType {
    /// The tier directly below this one; splitting a `Small` meteor yields
    /// no children, so it has no tier below and maps to itself here.
    pub open spec fn spec_below(self) -> MeteorSizeType {
        match self {
            MeteorSizeType::Large => MeteorSizeType::Medium,
            MeteorSizeType::Medium => MeteorSizeType::Small,
            MeteorSizeType::Small => MeteorSizeType::Small,
        }
    }

    /// Numeric rank of the tier, for stating that splits strictly decrease.
    pub open spec fn spec_rank(self) -> int {
        match self {
            MeteorSizeType::Small => 1,
            MeteorSizeType::Medium => 2,
            MeteorSizeType::Large => 3,
        }
    }

    /// Returns the tier directly below this one.
    pub fn below(self) -> (r: MeteorSizeType)
        ensures
            r == self.spec_below(),
    {
        match self {
            MeteorSizeType::Large => MeteorSizeType::Medium,
            MeteorSizeType::Medium => MeteorSizeType::Small,
            MeteorSizeType::Small => MeteorSizeType::Small,
        }
    }
}

/// Damage a meteor of the given tier inflicts on the player.
pub fn get_damage_from_type(size: MeteorSizeType) -> (d: i32)
    ensures
        d == spec_meteor_damage(size),
{
    match size {
        MeteorSizeType::Small => 1,
        MeteorSizeType::Medium => 2,
        MeteorSizeType::Large => 3,
    }
}

pub open spec fn spec_meteor_damage(size: MeteorSizeType) -> i32 {
    match size {
        MeteorSizeType::Small => 1,
        MeteorSizeType::Medium => 2,
        MeteorSizeType::Large => 3,
    }
}

/// Score awarded for destroying a meteor of the given tier.
pub fn get_score_from_type(size: MeteorSizeType) -> (s: i32)
    ensures
        s == spec_meteor_score(size),
{
    match size {
        MeteorSizeType::Small => 50,
        MeteorSizeType::Medium => 20,
        MeteorSizeType::Large => 5,
    }
}

pub open spec fn spec_meteor_score(size: MeteorSizeType) -> i32 {
    match size {
        MeteorSizeType::Small => 50,
        MeteorSizeType::Medium => 20,
        MeteorSizeType::Large => 5,
    }
}

} // verus!
