//! The components an entity may carry: kinematic state, hit box, bounds
//! policy, collision behaviour, category tags and per-entity timers.

use vstd::prelude::*;

use crate::geometry::Vec2i;
use crate::timer::GameTimer;
use crate::MeteorSizeType;
use crate::PowerUpType;
use crate::ShipType;
use crate::Stats;
use crate::PLAYER_SHOOT_COOLDOWN_MS;
use crate::PROJECTILE_DESPAWN_MS;

verus! {

/// Full extents of the axis-aligned hit box, in world units.
#[derive(Copy, Clone, Debug, PartialEq, Eq, Structural)]
pub struct HitBoxSize(pub Vec2i);

/// Velocity in world units per tick.
#[derive(Copy, Clone, Debug, PartialEq, Eq, Structural)]
pub struct Velocity(pub Vec2i);

/// Position in world units.
#[derive(Copy, Clone, Debug, PartialEq, Eq, Structural)]
pub struct Position(pub Vec2i);

/// Rotation angle in milliradians, kept in `[0, TAU_MRAD)`.
#[derive(Copy, Clone, Debug, PartialEq, Eq, Structural)]
pub struct RotationAngle(pub i64);

/// One full turn in milliradians.
pub const TAU_MRAD: i64 = 6283;

/// Bounds policy: remove the entity as soon as its projected next position
/// leaves the despawn border, widened per axis by the stored offset.
#[derive(Copy, Clone, Debug, PartialEq, Eq, Structural)]
pub struct BoundsDespawnable(pub Vec2i);

/// Bounds policy: wrap the entity to the opposite window edge.
#[derive(Copy, Clone, Debug, PartialEq, Eq, Structural)]
pub struct BoundsWarpable;

/// Bounds policy: after an initial grace period, leaving the despawn border
/// starts a countdown; the entity is removed when that countdown finishes,
/// whether or not it re-entered the border meanwhile.
#[derive(Copy, Clone, Debug, PartialEq, Eq, Structural)]
pub struct BoundsDespawnableWithTimer {
    pub bounds: BoundsDespawnable,
    pub initial_spawn_timer: GameTimer,
    pub despawn_timer: GameTimer,
    pub should_despawn: bool,
}

impl BoundsDespawnableWithTimer {
    pub open spec fn wf(self) -> bool {
        self.initial_spawn_timer.wf() && self.despawn_timer.wf()
    }

    /// A grace-timer bounds policy with the given per-axis offset, despawn
    /// countdown and initial grace period (both in milliseconds).
    pub fn new(bounds: Vec2i, despawn_delay_ms: u64, spawn_check_delay_ms: u64) -> (r:
        BoundsDespawnableWithTimer)
        ensures
            r.wf(),
            r == (BoundsDespawnableWithTimer {
                bounds: BoundsDespawnable(bounds),
                initial_spawn_timer: GameTimer::spec_new(spawn_check_delay_ms),
                despawn_timer: GameTimer::spec_new(despawn_delay_ms),
                should_despawn: false,
            }),
    {
        BoundsDespawnableWithTimer {
            bounds: BoundsDespawnable(bounds),
            initial_spawn_timer: GameTimer::new(spawn_check_delay_ms),
            despawn_timer: GameTimer::new(despawn_delay_ms),
            should_despawn: false,
        }
    }
}

/// Removed on collision with the player; when flagged, records a damage
/// event of the stored magnitude instead of mutating life directly.
#[derive(Copy, Clone, Debug, PartialEq, Eq, Structural)]
pub struct CollisionDespawnableWithDamage {
    pub should_damage: bool,
    pub damage: i32,
}

impl CollisionDespawnableWithDamage {
    pub fn new(should_damage: bool, damage: i32) -> (r: CollisionDespawnableWithDamage)
        ensures
            r.should_damage == should_damage,
            r.damage == damage,
    {
        CollisionDespawnableWithDamage { should_damage, damage }
    }
}

/// Transient split event: a destroyed meteor above the smallest tier asks
/// for three children of the carried tier at the carried position. Lives
/// for at most one tick.
#[derive(Copy, Clone, Debug, PartialEq, Eq, Structural)]
pub struct MeteorCollision {
    /// Tier of the children to spawn (one below the destroyed parent).
    pub size: MeteorSizeType,
    /// Position of the destroyed parent.
    pub translation: Vec2i,
}

/// Transient damage event carrying the magnitude to subtract from the
/// player's life. Lives for at most one tick.
#[derive(Copy, Clone, Debug, PartialEq, Eq, Structural)]
pub struct DamageCollision(pub i32);

/// Marks an entity for removal during end-of-run cleanup.
#[derive(Copy, Clone, Debug, PartialEq, Eq, Structural)]
pub struct CleanUpEndGame {
    pub despawn_entity: bool,
}

impl CleanUpEndGame {
    pub fn new(despawn_entity: bool) -> (r: CleanUpEndGame)
        ensures
            r.despawn_entity == despawn_entity,
    {
        CleanUpEndGame { despawn_entity }
    }
}

/// Category tag of a meteor, with its size tier and spin.
#[derive(Copy, Clone, Debug, PartialEq, Eq, Structural)]
pub struct MeteorComponent {
    pub size: MeteorSizeType,
    /// Milliradians added to the rotation angle each tick.
    pub rotation_speed: i64,
}

impl MeteorComponent {
    /// A fresh meteor always starts at the largest tier.
    pub fn new(rotation_speed: i64) -> (r: MeteorComponent)
        ensures
            r.size == MeteorSizeType::Large,
            r.rotation_speed == rotation_speed,
    {
        MeteorComponent { size: MeteorSizeType::Large, rotation_speed }
    }
}

/// Category tag of a power-up, carrying the ship type it awards.
#[derive(Copy, Clone, Debug, PartialEq, Eq, Structural)]
pub struct PowerUpComponent {
    /// Milliradians added to the rotation angle each tick.
    pub rotation_speed: i64,
    pub powerup_type: PowerUpType,
    pub change_target: ShipType,
}

impl PowerUpComponent {
    /// Builds a power-up with the given spin and a randomly drawn ship-type
    /// award; the award is fixed for the power-up's lifetime.
    pub fn new(rotation_speed: i64) -> (r: PowerUpComponent)
        ensures
            r.rotation_speed == rotation_speed,
            r.powerup_type == PowerUpType::ChangeShipType,
    {
        let change_target = random_ship_type();
        PowerUpComponent {
            rotation_speed,
            powerup_type: PowerUpType::ChangeShipType,
            change_target,
        }
    }

    pub open spec fn spec_ship_change_type(self) -> ShipType {
        self.change_target
    }

    /// The ship type this power-up awards on pickup.
    pub fn get_ship_change_type(&self) -> (r: ShipType)
        ensures
            r == self.spec_ship_change_type(),
    {
        self.change_target
    }
}

/// Draws one of the three ship flavours uniformly.
pub fn random_ship_type() -> ShipType {
    let pick = crate::rng::rand_in_range(0, 3);
    if pick == 0 {
        ShipType::Attack
    } else if pick == 1 {
        ShipType::Shield
    } else {
        ShipType::Normal
    }
}

/// Category tag of the player entity.
#[derive(Copy, Clone, Debug, PartialEq, Eq, Structural)]
pub struct PlayerComponent;

/// The cooldown gating the player's fire action.
#[derive(Copy, Clone, Debug, PartialEq, Eq, Structural)]
pub struct PlayerShootCooldownComponent(pub GameTimer);

impl PlayerShootCooldownComponent {
    /// A fresh, unstarted cooldown of the standard shoot period.
    pub fn new() -> (r: PlayerShootCooldownComponent)
        ensures
            r.0.wf(),
            r == PlayerShootCooldownComponent(GameTimer::spec_new(PLAYER_SHOOT_COOLDOWN_MS)),
    {
        PlayerShootCooldownComponent(GameTimer::new(PLAYER_SHOOT_COOLDOWN_MS))
    }
}

impl Default for PlayerShootCooldownComponent {
    /// The standard shoot cooldown, unstarted.
    fn default() -> (r: Self)
        ensures
            r == PlayerShootCooldownComponent(GameTimer::spec_new(PLAYER_SHOOT_COOLDOWN_MS)),
    {
        Self::new()
    }
}

/// Category tag of a projectile.
#[derive(Copy, Clone, Debug, PartialEq, Eq, Structural)]
pub struct ProjectileComponent;

/// The countdown after which a projectile expires on its own.
#[derive(Copy, Clone, Debug, PartialEq, Eq, Structural)]
pub struct ProjectileDespawnComponent(pub GameTimer);

impl ProjectileDespawnComponent {
    /// A fresh expiry countdown of the standard projectile lifetime.
    pub fn new() -> (r: ProjectileDespawnComponent)
        ensures
            r.0.wf(),
            r == ProjectileDespawnComponent(GameTimer::spec_new(PROJECTILE_DESPAWN_MS)),
    {
        ProjectileDespawnComponent(GameTimer::new(PROJECTILE_DESPAWN_MS))
    }
}

impl Default for ProjectileDespawnComponent {
    /// The standard projectile lifetime, unstarted.
    fn default() -> (r: Self)
        ensures
            r == ProjectileDespawnComponent(GameTimer::spec_new(PROJECTILE_DESPAWN_MS)),
    {
        Self::new()
    }
}

/// The ship flavour of the player with its baseline statistics.
#[derive(Copy, Clone, Debug, PartialEq, Eq, Structural)]
pub struct ShipComponent {
    pub ship_type: ShipType,
    pub stats: Stats,
}

impl ShipComponent {
    /// The baseline statistics each ship flavour starts with.
    pub open spec fn spec_stats_from_type(ship_type: ShipType) -> Stats {
        match ship_type {
            ShipType::Normal => Stats { shield: 75, power: 50, attack_cooldown_ms: 1000 },
            ShipType::Shield => Stats { shield: 100, power: 25, attack_cooldown_ms: 1000 },
            ShipType::Attack => Stats { shield: 50, power: 100, attack_cooldown_ms: 500 },
        }
    }

    pub fn get_stats_from_type(ship_type: ShipType) -> (r: Stats)
        ensures
            r == Self::spec_stats_from_type(ship_type),
    {
        match ship_type {
            ShipType::Normal => Stats { shield: 75, power: 50, attack_cooldown_ms: 1000 },
            ShipType::Shield => Stats { shield: 100, power: 25, attack_cooldown_ms: 1000 },
            ShipType::Attack => Stats { shield: 50, power: 100, attack_cooldown_ms: 500 },
        }
    }

    /// A ship of the given flavour with its matching baseline statistics.
    pub fn new_type(ship_type: ShipType) -> (r: ShipComponent)
        ensures
            r.ship_type == ship_type,
            r.stats == Self::spec_stats_from_type(ship_type),
    {
        ShipComponent { ship_type, stats: Self::get_stats_from_type(ship_type) }
    }

    /// A ship of a randomly drawn flavour; whatever flavour comes out, the
    /// statistics match it.
    pub fn new() -> (r: ShipComponent)
        ensures
            r.stats == Self::spec_stats_from_type(r.ship_type),
    {
        Self::new_type(random_ship_type())
    }
}

} // verus!
