//! Projectiles: cooldown-gated firing and timer-based expiry.

use vstd::prelude::*;

use crate::collision::spec_has_live_player;
use crate::collision::spec_is_first_live_player;
use crate::components::BoundsDespawnable;
use crate::components::CleanUpEndGame;
use crate::components::HitBoxSize;
use crate::components::PlayerShootCooldownComponent;
use crate::components::Position;
use crate::components::ProjectileComponent;
use crate::components::ProjectileDespawnComponent;
use crate::components::RotationAngle;
use crate::components::Velocity;
use crate::entity::Entity;
use crate::geometry::Vec2i;
use crate::timer::GameTimer;
use crate::PROJECTILE_DESPAWN_MS;
use crate::PROJECTILE_SPEED;

verus! {

/// Hit-box extents of a projectile, in world units (9 by 54 pixels).
pub const PROJECTILE_EXTENT_X: i64 = 9000;

pub const PROJECTILE_EXTENT_Y: i64 = 54000;

/// Visual scale of a projectile sprite, in thousandths (one half).
pub const PROJECTILE_SCALE: i64 = 500;

/// Bounds offset of a projectile's immediate despawn policy, in world
/// units (10 pixels).
pub const PROJECTILE_BOUNDS_OFFSET: i64 = 10000;

/// A facing vector handed in by the input layer is a unit vector in
/// thousandths; allow a little slack.
pub const FACING_LIMIT: i64 = 2000;

/// The expiry pass on one entity: its despawn timer advances, and the
/// entity is removed on the tick the timer finishes.
pub open spec fn spec_projectile_despawn_step(e: Entity, delta_ms: u64) -> Entity {
    let t1 = (e.projectile_timer->0).0.spec_ticked(delta_ms);
    Entity {
        alive: !t1.just_finished_edge,
        projectile_timer: Some(ProjectileDespawnComponent(t1)),
        ..e
    }
}

/// Whether the expiry pass touches this entity.
pub open spec fn spec_projectile_despawn_applies(e: Entity) -> bool {
    e.alive && e.projectile_timer.is_some()
}

/// The whole store after the expiry pass.
pub open spec fn spec_projectile_despawn_pass(s: Seq<Entity>, delta_ms: u64) -> Seq<Entity> {
    Seq::new(
        s.len(),
        |i: int|
            if spec_projectile_despawn_applies(s[i]) {
                spec_projectile_despawn_step(s[i], delta_ms)
            } else {
                s[i]
            },
    )
}

/// Advances every live projectile's expiry timer by `delta_ms` and removes
/// the projectiles whose timer finishes on this tick.
pub fn projectile_despawn_system(entities: &mut Vec<Entity>, delta_ms: u64)
    requires
        forall|i: int| 0 <= i < old(entities)@.len() ==> (#[trigger] old(entities)@[i]).wf(),
    ensures
        final(entities)@.len() == old(entities)@.len(),
        forall|i: int|
            0 <= i < old(entities)@.len() ==> final(entities)@[i] == (
            if spec_projectile_despawn_applies(old(entities)@[i]) {
                spec_projectile_despawn_step(#[trigger] old(entities)@[i], delta_ms)
            } else {
                old(entities)@[i]
            }),
        final(entities)@ == spec_projectile_despawn_pass(old(entities)@, delta_ms),
        forall|i: int| 0 <= i < final(entities)@.len() ==> (#[trigger] final(entities)@[i]).wf(),
{
    let ghost s0 = entities@;
    let mut i: usize = 0;
    while i < entities.len()
        invariant
            i <= s0.len(),
            entities@.len() == s0.len(),
            forall|j: int|
                0 <= j < i ==> entities@[j] == (if spec_projectile_despawn_applies(s0[j]) {
                    spec_projectile_despawn_step(#[trigger] s0[j], delta_ms)
                } else {
                    s0[j]
                }),
            forall|j: int| i <= j < s0.len() ==> entities@[j] == s0[j],
            forall|j: int| 0 <= j < s0.len() ==> (#[trigger] s0[j]).wf(),
        decreases s0.len() - i,
    {
        proof {
            assert(entities@[i as int] == s0[i as int]);
            assert(s0[i as int].wf());
        }
        let e = entities[i];
        if e.alive && e.projectile_timer.is_some() {
            let mut t = e.projectile_timer.unwrap().0;
            t.tick(delta_ms);
            let expired = t.just_finished();
            entities.set(
                i,
                Entity { alive: !expired, projectile_timer: Some(ProjectileDespawnComponent(t)), ..e },
            );
        }
        i = i + 1;
    }
    proof {
        assert forall|j: int| 0 <= j < entities@.len() implies (#[trigger] entities@[j]).wf() by {
            assert(s0[j].wf());
        }
        assert(entities@ =~= spec_projectile_despawn_pass(s0, delta_ms));
    }
}

/// The full record of a freshly fired projectile: spawned at the player's
/// position along the player's facing, with an expiry countdown and an
/// immediate bounds-despawn policy.
pub open spec fn spec_projectile_entity(position: Vec2i, rotation: int, velocity: Vec2i) -> Entity {
    Entity {
        position: Some(Position(position)),
        velocity: Some(Velocity(velocity)),
        rotation: Some(RotationAngle(rotation as i64)),
        scale: PROJECTILE_SCALE,
        hitbox: Some(HitBoxSize(Vec2i { x: PROJECTILE_EXTENT_X, y: PROJECTILE_EXTENT_Y })),
        bounds_despawn: Some(
            BoundsDespawnable(Vec2i { x: PROJECTILE_BOUNDS_OFFSET, y: PROJECTILE_BOUNDS_OFFSET }),
        ),
        cleanup: Some(CleanUpEndGame { despawn_entity: true }),
        projectile: Some(ProjectileComponent),
        projectile_timer: Some(
            ProjectileDespawnComponent(GameTimer::spec_new(PROJECTILE_DESPAWN_MS)),
        ),
        ..Entity::spec_empty()
    }
}

/// Whether the player record can fire: it must carry a position, a
/// rotation and a shoot cooldown.
pub open spec fn spec_can_shoot(e: Entity) -> bool {
    e.position.is_some() && e.rotation.is_some() && e.shoot_cooldown.is_some()
}

/// The whole store after the firing pass: the first live player able to
/// shoot has its cooldown advanced, and a projectile is appended exactly
/// when the advanced cooldown has finished while the fire input is held
/// (which also restarts the cooldown).
pub open spec fn spec_shoot_pass(
    s: Seq<Entity>,
    fire: bool,
    facing: Vec2i,
    delta_ms: u64,
) -> Seq<Entity> {
    if !spec_has_live_player(s) {
        s
    } else {
        let p = crate::collision::spec_first_live_player_idx(s);
        if !spec_can_shoot(s[p]) {
            s
        } else {
            let cd1 = ((s[p].shoot_cooldown)->0).0.spec_ticked(delta_ms);
            if cd1.spec_finished() && fire {
                s.update(
                    p,
                    Entity {
                        shoot_cooldown: Some(
                            PlayerShootCooldownComponent(
                                ((s[p].shoot_cooldown)->0).0.spec_reset(),
                            ),
                        ),
                        ..s[p]
                    },
                ).push(
                    spec_projectile_entity(
                        s[p].spec_pos(),
                        s[p].spec_rot(),
                        Vec2i {
                            x: (facing.x * PROJECTILE_SPEED) as i64,
                            y: (facing.y * PROJECTILE_SPEED) as i64,
                        },
                    ),
                )
            } else {
                s.update(
                    p,
                    Entity { shoot_cooldown: Some(PlayerShootCooldownComponent(cd1)), ..s[p] },
                )
            }
        }
    }
}

/// The firing pass appends at most one entity.
pub proof fn lemma_shoot_pass_len(s: Seq<Entity>, fire: bool, facing: Vec2i, delta_ms: u64)
    ensures
        s.len() <= spec_shoot_pass(s, fire, facing, delta_ms).len() <= s.len() + 1,
{
    if spec_has_live_player(s) {
        crate::collision::lemma_has_first_live_player(s);
    }
}

/// Cooldown-gated firing: the player's shoot cooldown advances by
/// `delta_ms`; if it has then finished and the fire input is active,
/// exactly one projectile is spawned at the player's position along the
/// given facing vector (velocity is the facing scaled by the projectile
/// speed) and the cooldown restarts from zero. Otherwise only the cooldown
/// state changes. Without a live player able to fire, nothing changes.
pub fn projectile_shoot_system(
    entities: &mut Vec<Entity>,
    fire: bool,
    facing: Vec2i,
    delta_ms: u64,
)
    requires
        forall|i: int| 0 <= i < old(entities)@.len() ==> (#[trigger] old(entities)@[i]).wf(),
        -FACING_LIMIT <= facing.x <= FACING_LIMIT,
        -FACING_LIMIT <= facing.y <= FACING_LIMIT,
        old(entities)@.len() < usize::MAX,
    ensures
        !spec_has_live_player(old(entities)@) ==> final(entities)@ == old(entities)@,
        forall|p: int|
            spec_is_first_live_player(old(entities)@, p) ==> {
                let player = old(entities)@[p];
                let cd1 = (player.shoot_cooldown->0).0.spec_ticked(delta_ms);
                &&& !spec_can_shoot(player) ==> final(entities)@ == old(entities)@
                &&& spec_can_shoot(player) && cd1.spec_finished() && fire ==> final(entities)@
                    == old(entities)@.update(
                    p,
                    Entity {
                        shoot_cooldown: Some(
                            PlayerShootCooldownComponent((player.shoot_cooldown->0).0.spec_reset()),
                        ),
                        ..player
                    },
                ).push(
                    spec_projectile_entity(
                        player.spec_pos(),
                        player.spec_rot(),
                        Vec2i {
                            x: (facing.x * PROJECTILE_SPEED) as i64,
                            y: (facing.y * PROJECTILE_SPEED) as i64,
                        },
                    ),
                )
                &&& spec_can_shoot(player) && !(cd1.spec_finished() && fire) ==> final(entities)@
                    == old(entities)@.update(
                    p,
                    Entity { shoot_cooldown: Some(PlayerShootCooldownComponent(cd1)), ..player },
                )
            },
        final(entities)@ == spec_shoot_pass(old(entities)@, fire, facing, delta_ms),
        forall|i: int|
            0 <= i < old(entities)@.len() && (#[trigger] old(entities)@[i]).player.is_none()
                ==> final(entities)@[i] == old(entities)@[i],
        forall|i: int| 0 <= i < final(entities)@.len() ==> (#[trigger] final(entities)@[i]).wf(),
{
    let ghost s0 = entities@;
    let player_idx = crate::collision::find_first_live_player(entities);
    if player_idx.is_none() {
        return ;
    }
    let p = player_idx.unwrap();
    proof {
        crate::collision::lemma_first_live_player_idx(s0, p as int);
    }
    let player = entities[p];
    if player.position.is_some() && player.rotation.is_some() && player.shoot_cooldown.is_some() {
        let mut cd = player.shoot_cooldown.unwrap().0;
        cd.tick(delta_ms);
        if cd.finished() && fire {
            cd.reset();
            entities.set(
                p,
                Entity { shoot_cooldown: Some(PlayerShootCooldownComponent(cd)), ..player },
            );
            let rec = Entity {
                position: player.position,
                velocity: Some(
                    Velocity(
                        Vec2i { x: facing.x * PROJECTILE_SPEED, y: facing.y * PROJECTILE_SPEED },
                    ),
                ),
                rotation: player.rotation,
                scale: PROJECTILE_SCALE,
                hitbox: Some(HitBoxSize(Vec2i { x: PROJECTILE_EXTENT_X, y: PROJECTILE_EXTENT_Y })),
                bounds_despawn: Some(
                    BoundsDespawnable(
                        Vec2i { x: PROJECTILE_BOUNDS_OFFSET, y: PROJECTILE_BOUNDS_OFFSET },
                    ),
                ),
                cleanup: Some(CleanUpEndGame::new(true)),
                projectile: Some(ProjectileComponent),
                projectile_timer: Some(ProjectileDespawnComponent::new()),
                ..Entity::empty()
            };
            entities.push(rec);
        } else {
            entities.set(
                p,
                Entity { shoot_cooldown: Some(PlayerShootCooldownComponent(cd)), ..player },
            );
        }
    }
}

} // verus!
