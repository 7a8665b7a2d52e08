//! The player entity: creation at the start of a run, the death reaction,
//! and the life-watch that raises the player-dead notification.

use vstd::prelude::*;

use crate::collision::spec_has_live_player;
use crate::collision::spec_is_first_live_player;
use crate::components::CleanUpEndGame;
use crate::components::HitBoxSize;
use crate::components::BoundsWarpable;
use crate::components::PlayerComponent;
use crate::components::PlayerShootCooldownComponent;
use crate::components::Position;
use crate::components::RotationAngle;
use crate::components::ShipComponent;
use crate::components::Velocity;
use crate::entity::Entity;
use crate::events::PlayerDeadEvent;
use crate::events::PlayerSpawnEvent;
use crate::geometry::Vec2i;
use crate::resources::Life;
use crate::timer::GameTimer;
use crate::PLAYER_SHOOT_COOLDOWN_MS;

verus! {

/// Hit-box extent of the player ship, in world units (50 pixels square).
pub const PLAYER_EXTENT: i64 = 50000;

/// Visual scale of the player sprite, in thousandths (one half).
pub const PLAYER_SCALE: i64 = 500;

/// The full record of a freshly spawned player: warp bounds policy, fresh
/// shoot cooldown, the given ship, standing still at the origin and
/// facing up. (The off-screen entry is the presentation layer's animated
/// transform; the simulated position starts at the window center.)
pub open spec fn spec_player_entity(ship: ShipComponent) -> Entity {
    Entity {
        position: Some(Position(Vec2i { x: 0, y: 0 })),
        velocity: Some(Velocity(Vec2i { x: 0, y: 0 })),
        rotation: Some(RotationAngle(0)),
        scale: PLAYER_SCALE,
        hitbox: Some(HitBoxSize(Vec2i { x: PLAYER_EXTENT, y: PLAYER_EXTENT })),
        warpable: Some(BoundsWarpable),
        cleanup: Some(CleanUpEndGame { despawn_entity: true }),
        player: Some(PlayerComponent),
        ship: Some(ship),
        shoot_cooldown: Some(
            PlayerShootCooldownComponent(GameTimer::spec_new(PLAYER_SHOOT_COOLDOWN_MS)),
        ),
        ..Entity::spec_empty()
    }
}

/// Creates the player entity for a new run at the window center, with a
/// randomly drawn ship whose statistics match its type, and raises one
/// player-spawn notification.
pub fn player_spawn_system(entities: &mut Vec<Entity>, spawn_events: &mut Vec<PlayerSpawnEvent>)
    requires
        forall|i: int| 0 <= i < old(entities)@.len() ==> (#[trigger] old(entities)@[i]).wf(),
        old(entities)@.len() < usize::MAX,
    ensures
        final(entities)@.len() == old(entities)@.len() + 1,
        ({
            let e = final(entities)@.last();
            &&& final(entities)@ == old(entities)@.push(e)
            &&& e == spec_player_entity(e.ship->0)
            &&& (e.ship->0).stats == ShipComponent::spec_stats_from_type((e.ship->0).ship_type)
        }),
        final(spawn_events)@ == old(spawn_events)@.push(PlayerSpawnEvent),
        forall|i: int| 0 <= i < final(entities)@.len() ==> (#[trigger] final(entities)@[i]).wf(),
{
    spawn_events.push(PlayerSpawnEvent);
    let ship = ShipComponent::new();
    let rec = Entity {
        position: Some(Position(Vec2i { x: 0, y: 0 })),
        velocity: Some(Velocity(Vec2i { x: 0, y: 0 })),
        rotation: Some(RotationAngle(0)),
        scale: PLAYER_SCALE,
        hitbox: Some(HitBoxSize(Vec2i { x: PLAYER_EXTENT, y: PLAYER_EXTENT })),
        warpable: Some(BoundsWarpable),
        cleanup: Some(CleanUpEndGame::new(true)),
        player: Some(PlayerComponent),
        ship: Some(ship),
        shoot_cooldown: Some(PlayerShootCooldownComponent::new()),
        ..Entity::empty()
    };
    entities.push(rec);
}

/// How far the ship turns per tick while a turn input is held, in
/// milliradians.
pub const PLAYER_TURN_SPEED_MRAD: i64 = 70;

/// Thrust acceleration per tick, in world units (0.15 pixels).
pub const PLAYER_ACCELERATION_UNITS: i64 = 150;

/// The ship's speed cap, in world units per tick (5 pixels).
pub const PLAYER_MAX_SPEED_UNITS: i64 = 5000;

/// Without thrust the velocity decays to this many thousandths each tick
/// (a deceleration of one percent).
pub const PLAYER_DECAY_PER_MILLE: i64 = 990;

/// The ship's rotation after one tick of turn input: turning left takes
/// precedence over turning right, and the angle stays within one turn.
pub open spec fn spec_steered_rotation(rot: int, turn_left: bool, turn_right: bool) -> int {
    if turn_left {
        crate::common_systems::spec_wrap_angle(rot + PLAYER_TURN_SPEED_MRAD)
    } else if turn_right {
        crate::common_systems::spec_wrap_angle(rot - PLAYER_TURN_SPEED_MRAD)
    } else {
        rot
    }
}

/// The ship's velocity after one tick of thrust input: thrust accelerates
/// along the facing vector and the speed is clamped to the cap by an
/// integer normalization; without thrust the velocity decays by one
/// percent.
pub open spec fn spec_steered_velocity(v: Vec2i, thrust: bool, facing: Vec2i) -> Vec2i {
    if thrust {
        let v1x = v.x + crate::geometry::spec_scale(
            facing.x as int,
            PLAYER_ACCELERATION_UNITS as int,
            1000,
        );
        let v1y = v.y + crate::geometry::spec_scale(
            facing.y as int,
            PLAYER_ACCELERATION_UNITS as int,
            1000,
        );
        let nsq = v1x * v1x + v1y * v1y;
        if nsq > PLAYER_MAX_SPEED_UNITS * PLAYER_MAX_SPEED_UNITS {
            let n = crate::geometry::spec_isqrt(nsq);
            Vec2i {
                x: crate::geometry::spec_scale(v1x, PLAYER_MAX_SPEED_UNITS as int, n) as i64,
                y: crate::geometry::spec_scale(v1y, PLAYER_MAX_SPEED_UNITS as int, n) as i64,
            }
        } else {
            Vec2i { x: v1x as i64, y: v1y as i64 }
        }
    } else {
        Vec2i {
            x: crate::geometry::spec_scale(v.x as int, PLAYER_DECAY_PER_MILLE as int, 1000) as i64,
            y: crate::geometry::spec_scale(v.y as int, PLAYER_DECAY_PER_MILLE as int, 1000) as i64,
        }
    }
}

/// The whole store after the steering pass.
pub open spec fn spec_steer_pass(
    s: Seq<Entity>,
    turn_left: bool,
    turn_right: bool,
    thrust: bool,
    facing: Vec2i,
) -> Seq<Entity> {
    if !spec_has_live_player(s) {
        s
    } else {
        let p = crate::collision::spec_first_live_player_idx(s);
        if s[p].velocity.is_some() && s[p].rotation.is_some() {
            s.update(
                p,
                Entity {
                    velocity: Some(
                        Velocity(spec_steered_velocity(s[p].spec_vel(), thrust, facing)),
                    ),
                    rotation: Some(
                        RotationAngle(
                            spec_steered_rotation(s[p].spec_rot(), turn_left, turn_right) as i64,
                        ),
                    ),
                    ..s[p]
                },
            )
        } else {
            s
        }
    }
}

/// Steers the player from this tick's input snapshot: turn inputs rotate
/// the ship, thrust accelerates it along its facing (speed capped), and
/// coasting decays the velocity. Without a live player carrying velocity
/// and rotation, nothing changes.
pub fn player_movement_system(
    entities: &mut Vec<Entity>,
    turn_left: bool,
    turn_right: bool,
    thrust: bool,
    facing: Vec2i,
)
    requires
        forall|i: int| 0 <= i < old(entities)@.len() ==> (#[trigger] old(entities)@[i]).wf(),
        -crate::projectile::FACING_LIMIT <= facing.x <= crate::projectile::FACING_LIMIT,
        -crate::projectile::FACING_LIMIT <= facing.y <= crate::projectile::FACING_LIMIT,
    ensures
        final(entities)@.len() == old(entities)@.len(),
        !spec_has_live_player(old(entities)@) ==> final(entities)@ == old(entities)@,
        forall|p: int|
            spec_is_first_live_player(old(entities)@, p) ==> {
                let player = old(entities)@[p];
                &&& !(player.velocity.is_some() && player.rotation.is_some())
                    ==> final(entities)@ == old(entities)@
                &&& player.velocity.is_some() && player.rotation.is_some() ==> final(entities)@
                    == old(entities)@.update(
                    p,
                    Entity {
                        velocity: Some(
                            Velocity(
                                spec_steered_velocity(player.spec_vel(), thrust, facing),
                            ),
                        ),
                        rotation: Some(
                            RotationAngle(
                                spec_steered_rotation(
                                    player.spec_rot(),
                                    turn_left,
                                    turn_right,
                                ) as i64,
                            ),
                        ),
                        ..player
                    },
                )
            },
        final(entities)@ == spec_steer_pass(
            old(entities)@,
            turn_left,
            turn_right,
            thrust,
            facing,
        ),
        forall|i: int| 0 <= i < final(entities)@.len() ==> (#[trigger] final(entities)@[i]).wf(),
{
    let ghost s0 = entities@;
    let player_idx = crate::collision::find_first_live_player(entities);
    if player_idx.is_none() {
        return ;
    }
    let p = player_idx.unwrap();
    proof {
        crate::collision::lemma_first_live_player_idx(s0, p as int);
    }
    let player = entities[p];
    if player.velocity.is_some() && player.rotation.is_some() {
        proof {
            assert(s0[p as int].wf());
        }
        let v = player.velocity.unwrap().0;
        let rot = player.rotation.unwrap().0;
        let new_rot = if turn_left {
            crate::common_systems::wrap_angle(rot + PLAYER_TURN_SPEED_MRAD)
        } else if turn_right {
            crate::common_systems::wrap_angle(rot - PLAYER_TURN_SPEED_MRAD)
        } else {
            rot
        };
        let new_v = if thrust {
            let ax = crate::geometry::scale_magnitude(facing.x, PLAYER_ACCELERATION_UNITS, 1000);
            let ay = crate::geometry::scale_magnitude(facing.y, PLAYER_ACCELERATION_UNITS, 1000);
            let v1x = v.x + ax;
            let v1y = v.y + ay;
            proof {
                assert(v1x * v1x + v1y * v1y <= 3_000_000_000_000_000_000) by (nonlinear_arith)
                    requires
                        -1_000_000_400i64 <= v1x <= 1_000_000_400i64,
                        -1_000_000_400i64 <= v1y <= 1_000_000_400i64,
                ;
                assert(v1x * v1x >= 0 && v1y * v1y >= 0) by (nonlinear_arith);
            }
            let nsq = v1x * v1x + v1y * v1y;
            if nsq > PLAYER_MAX_SPEED_UNITS * PLAYER_MAX_SPEED_UNITS {
                let n_u = crate::geometry::isqrt(nsq as u64);
                proof {
                    assert(nsq as u64 as int == nsq as int);
                    assert(n_u <= 2_000_000_000u64) by (nonlinear_arith)
                        requires
                            crate::geometry::spec_is_isqrt(nsq as int, n_u as int),
                            nsq <= 3_000_000_000_000_000_000i64,
                    ;
                }
                let n = n_u as i64;
                proof {
                    assert(n >= PLAYER_MAX_SPEED_UNITS && n * n <= nsq) by (nonlinear_arith)
                        requires
                            crate::geometry::spec_is_isqrt(nsq as int, n as int),
                            nsq > PLAYER_MAX_SPEED_UNITS * PLAYER_MAX_SPEED_UNITS,
                            PLAYER_MAX_SPEED_UNITS == 5000i64,
                    ;
                    assert(crate::geometry::spec_abs(v1x as int) <= n && crate::geometry::spec_abs(
                        v1y as int,
                    ) <= n) by (nonlinear_arith)
                        requires
                            crate::geometry::spec_is_isqrt(nsq as int, n as int),
                            nsq == v1x * v1x + v1y * v1y,
                    ;
                    assert(forall|a: int, nn: int|
                        0 <= a <= nn && nn >= 5000 ==> #[trigger] (a * 5000 / nn) <= 5000)
                        by (nonlinear_arith);
                }
                Vec2i {
                    x: crate::geometry::scale_magnitude(v1x, PLAYER_MAX_SPEED_UNITS, n),
                    y: crate::geometry::scale_magnitude(v1y, PLAYER_MAX_SPEED_UNITS, n),
                }
            } else {
                proof {
                    assert(-5000 <= v1x <= 5000 && -5000 <= v1y <= 5000) by (nonlinear_arith)
                        requires
                            v1x * v1x + v1y * v1y <= 25_000_000,
                    ;
                }
                Vec2i { x: v1x, y: v1y }
            }
        } else {
            proof {
                assert(forall|a: int| 0 <= a <= 100_000_000 ==> #[trigger] (a * 990 / 1000) <= a)
                    by (nonlinear_arith);
            }
            crate::geometry::Vec2i {
                x: crate::geometry::scale_magnitude(v.x, PLAYER_DECAY_PER_MILLE, 1000),
                y: crate::geometry::scale_magnitude(v.y, PLAYER_DECAY_PER_MILLE, 1000),
            }
        };
        entities.set(
            p,
            Entity { velocity: Some(Velocity(new_v)), rotation: Some(RotationAngle(new_rot)), ..player },
        );
        proof {
            assert forall|j: int| 0 <= j < entities@.len() implies (#[trigger] entities@[j]).wf()
                by {
                assert(s0[j].wf());
            }
        }
    }
}

/// The whole store after retiring the player: every live player slot is
/// killed, nothing else changes.
pub open spec fn spec_retire_pass(s: Seq<Entity>) -> Seq<Entity> {
    Seq::new(
        s.len(),
        |i: int|
            if s[i].is_live_player() {
                s[i].spec_killed()
            } else {
                s[i]
            },
    )
}

/// Retires the player of a finished run: the husk that survived end-of-run
/// cleanup for the presentation layer is removed before a fresh player is
/// created, so the new entity is the one every player-scoped system binds
/// to.
pub fn retire_player_system(entities: &mut Vec<Entity>)
    requires
        forall|i: int| 0 <= i < old(entities)@.len() ==> (#[trigger] old(entities)@[i]).wf(),
    ensures
        final(entities)@.len() == old(entities)@.len(),
        forall|i: int|
            0 <= i < old(entities)@.len() ==> final(entities)@[i] == (if (#[trigger] old(
                entities,
            )@[i]).is_live_player() {
                old(entities)@[i].spec_killed()
            } else {
                old(entities)@[i]
            }),
        final(entities)@ == spec_retire_pass(old(entities)@),
        !spec_has_live_player(final(entities)@),
        forall|i: int| 0 <= i < final(entities)@.len() ==> (#[trigger] final(entities)@[i]).wf(),
{
    let ghost s0 = entities@;
    let mut i: usize = 0;
    while i < entities.len()
        invariant
            i <= s0.len(),
            entities@.len() == s0.len(),
            forall|j: int|
                0 <= j < i ==> entities@[j] == (if (#[trigger] s0[j]).is_live_player() {
                    s0[j].spec_killed()
                } else {
                    s0[j]
                }),
            forall|j: int| i <= j < s0.len() ==> entities@[j] == s0[j],
            forall|j: int| 0 <= j < s0.len() ==> (#[trigger] s0[j]).wf(),
        decreases s0.len() - i,
    {
        proof {
            assert(entities@[i as int] == s0[i as int]);
            assert(s0[i as int].wf());
        }
        let e = entities[i];
        if e.alive && e.player.is_some() {
            entities.set(i, Entity { alive: false, ..e });
        }
        i = i + 1;
    }
    proof {
        assert forall|j: int| 0 <= j < entities@.len() implies (#[trigger] entities@[j]).wf() by {
            assert(s0[j].wf());
        }
        assert(entities@ =~= spec_retire_pass(s0));
    }
}

/// The player's reaction to death: the per-entity gameplay components
/// (velocity, rotation, position) are removed, so no further system moves
/// or matches the player; the entity itself persists as a husk for the
/// presentation layer.
pub fn player_died_system(entities: &mut Vec<Entity>)
    requires
        forall|i: int| 0 <= i < old(entities)@.len() ==> (#[trigger] old(entities)@[i]).wf(),
    ensures
        final(entities)@.len() == old(entities)@.len(),
        !spec_has_live_player(old(entities)@) ==> final(entities)@ == old(entities)@,
        forall|p: int|
            spec_is_first_live_player(old(entities)@, p) ==> final(entities)@ == old(
                entities,
            )@.update(
                p,
                Entity { position: None, velocity: None, rotation: None, ..old(entities)@[p] },
            ),
        forall|i: int| 0 <= i < final(entities)@.len() ==> (#[trigger] final(entities)@[i]).wf(),
{
    let ghost s0 = entities@;
    let player_idx = crate::collision::find_first_live_player(entities);
    if player_idx.is_none() {
        return ;
    }
    let p = player_idx.unwrap();
    let player = entities[p];
    entities.set(p, Entity { position: None, velocity: None, rotation: None, ..player });
    proof {
        assert(s0[p as int].wf());
        assert forall|j: int| 0 <= j < entities@.len() implies (#[trigger] entities@[j]).wf() by {
            assert(s0[j].wf());
        }
    }
}

/// Watches the life pool and raises one player-dead notification when it
/// is exhausted.
pub fn check_player_dead_event(life: &Life, dead_events: &mut Vec<PlayerDeadEvent>)
    ensures
        final(dead_events)@ == (if life.current_life <= 0 {
            old(dead_events)@.push(PlayerDeadEvent)
        } else {
            old(dead_events)@
        }),
{
    if life.current_life <= 0 {
        dead_events.push(PlayerDeadEvent);
    }
}

} // verus!
