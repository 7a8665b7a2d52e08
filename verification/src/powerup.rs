//! Power-ups: time-gated, population-capped spawning along the top or
//! bottom window edge, with inward-biased velocity and a randomized
//! ship-type reward fixed at creation.

use vstd::prelude::*;

use crate::components::BoundsDespawnable;
use crate::components::CleanUpEndGame;
use crate::components::HitBoxSize;
use crate::components::Position;
use crate::components::PowerUpComponent;
use crate::components::RotationAngle;
use crate::components::Velocity;
use crate::components::TAU_MRAD;
use crate::entity::count_matching;
use crate::entity::count_live_powerups;
use crate::entity::Entity;
use crate::geometry::Vec2i;
use crate::resources::WindowSize;
use crate::rng::rand_in_range;
use crate::PowerUpType;
use crate::POWERUP_MAX_COUNT;

verus! {

/// Hit-box extent of a power-up, in world units (33 pixels square).
pub const POWER_UP_EXTENT: i64 = 33000;

/// Vertical spawn margin past the window half-extent, in world units
/// (50 pixels).
pub const POWERUP_SPAWN_MARGIN: i64 = 50000;

/// Bounds offset of a power-up's immediate despawn policy, in world units
/// (10 pixels).
pub const POWERUP_BOUNDS_OFFSET: i64 = 10000;

/// The full record of a freshly spawned power-up: category tag with its
/// reward and spin, fixed hit box, immediate bounds-despawn policy and the
/// end-of-run cleanup flag.
pub open spec fn spec_powerup_entity(
    position: Vec2i,
    rotation: int,
    powerup: PowerUpComponent,
    velocity: Vec2i,
) -> Entity {
    Entity {
        position: Some(Position(position)),
        velocity: Some(Velocity(velocity)),
        rotation: Some(RotationAngle(rotation as i64)),
        hitbox: Some(HitBoxSize(Vec2i { x: POWER_UP_EXTENT, y: POWER_UP_EXTENT })),
        bounds_despawn: Some(
            BoundsDespawnable(Vec2i { x: POWERUP_BOUNDS_OFFSET, y: POWERUP_BOUNDS_OFFSET }),
        ),
        cleanup: Some(CleanUpEndGame { despawn_entity: true }),
        powerup: Some(powerup),
        ..Entity::spec_empty()
    }
}

/// Time-gated power-up spawn: when the live power-up count is below the
/// cap, one power-up appears at a random horizontal position just beyond
/// the top or bottom window edge, with random horizontal velocity,
/// inward-biased vertical velocity, a random spin and a randomly drawn
/// ship-type reward. At or above the cap nothing changes.
pub fn spawn_powerup_system(entities: &mut Vec<Entity>, wdw_size: &WindowSize)
    requires
        forall|i: int| 0 <= i < old(entities)@.len() ==> (#[trigger] old(entities)@[i]).wf(),
        wdw_size.wf(),
        old(entities)@.len() < usize::MAX,
    ensures
        count_matching(old(entities)@, |e: Entity| e.is_live_powerup()) >= POWERUP_MAX_COUNT
            ==> final(entities)@ == old(entities)@,
        count_matching(old(entities)@, |e: Entity| e.is_live_powerup()) < POWERUP_MAX_COUNT ==> {
            let e = final(entities)@.last();
            let cx = wdw_size.w / 2;
            let cy = wdw_size.h / 2;
            &&& final(entities)@.len() == old(entities)@.len() + 1
            &&& final(entities)@ == old(entities)@.push(e)
            &&& e == spec_powerup_entity(e.spec_pos(), e.spec_rot(), e.powerup->0, e.spec_vel())
            &&& -cx <= e.spec_pos().x < cx
            &&& (e.spec_pos().y == cy + POWERUP_SPAWN_MARGIN || e.spec_pos().y == -(cy
                + POWERUP_SPAWN_MARGIN))
            &&& -1500 <= e.spec_vel().x < 1500
            &&& (e.spec_pos().y > cy ==> -1500 <= e.spec_vel().y < -1000)
            &&& (e.spec_pos().y < cy ==> 1000 <= e.spec_vel().y < 1500)
            &&& (e.spec_rot() < 100 || e.spec_rot() >= TAU_MRAD - 100)
            &&& -100 <= (e.powerup->0).rotation_speed < 100
            &&& (e.powerup->0).powerup_type == PowerUpType::ChangeShipType
        },
        forall|i: int| 0 <= i < final(entities)@.len() ==> (#[trigger] final(entities)@[i]).wf(),
{
    let count = count_live_powerups(entities);
    if count < POWERUP_MAX_COUNT {
        let cx = wdw_size.w / 2;
        let cy = wdw_size.h / 2;
        let x = rand_in_range(-cx, cx);
        let top = rand_in_range(0, 2) == 1;
        let y = if top {
            cy + POWERUP_SPAWN_MARGIN
        } else {
            -(cy + POWERUP_SPAWN_MARGIN)
        };
        let jitter = rand_in_range(-100, 100);
        let rotation = if jitter < 0 {
            jitter + TAU_MRAD
        } else {
            jitter
        };
        let rot_speed = rand_in_range(-100, 100);
        let x_speed = rand_in_range(-1500, 1500);
        let y_speed = if y > cy {
            rand_in_range(-1500, -1000)
        } else {
            rand_in_range(1000, 1500)
        };
        let powerup = PowerUpComponent::new(rot_speed);
        let rec = Entity {
            position: Some(Position(Vec2i { x, y })),
            velocity: Some(Velocity(Vec2i { x: x_speed, y: y_speed })),
            rotation: Some(RotationAngle(rotation)),
            hitbox: Some(HitBoxSize(Vec2i { x: POWER_UP_EXTENT, y: POWER_UP_EXTENT })),
            bounds_despawn: Some(
                BoundsDespawnable(Vec2i { x: POWERUP_BOUNDS_OFFSET, y: POWERUP_BOUNDS_OFFSET }),
            ),
            cleanup: Some(CleanUpEndGame::new(true)),
            powerup: Some(powerup),
            ..Entity::empty()
        };
        entities.push(rec);
    }
}

} // verus!
