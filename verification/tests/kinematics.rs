//! Movement integration, window warp and the bounds-despawn policies.

use asteroid_defender::common_systems::despawn_if_reached_bounds_system;
use asteroid_defender::common_systems::despawn_if_reached_bounds_timer_system;
use asteroid_defender::common_systems::movement_system;
use asteroid_defender::common_systems::update_rotation_system;
use asteroid_defender::common_systems::warp_if_reached_window_bounds_system;
use asteroid_defender::components::BoundsDespawnable;
use asteroid_defender::components::BoundsDespawnableWithTimer;
use asteroid_defender::components::BoundsWarpable;
use asteroid_defender::components::MeteorComponent;
use asteroid_defender::components::Position;
use asteroid_defender::components::RotationAngle;
use asteroid_defender::components::Velocity;
use asteroid_defender::entity::Entity;
use asteroid_defender::geometry::Vec2i;
use asteroid_defender::resources::WindowDespawnBorder;
use asteroid_defender::resources::WindowSize;
use asteroid_defender::MeteorSizeType;

fn moving_entity(x: i64, y: i64, vx: i64, vy: i64) -> Entity {
    Entity {
        position: Some(Position(Vec2i { x, y })),
        velocity: Some(Velocity(Vec2i { x: vx, y: vy })),
        ..Entity::empty()
    }
}

fn test_border() -> WindowDespawnBorder {
    WindowDespawnBorder { top: 460000, bottom: -460000, left: -740000, right: 740000 }
}

#[test]
fn movement_adds_velocity_once() {
    let mut entities = vec![moving_entity(1000, -2000, 30, 40)];
    movement_system(&mut entities);
    assert_eq!(entities[0].position.unwrap().0, Vec2i { x: 1030, y: -1960 });
    // an entity without velocity stays put
    let mut still = vec![Entity {
        position: Some(Position(Vec2i { x: 5, y: 5 })),
        ..Entity::empty()
    }];
    movement_system(&mut still);
    assert_eq!(still[0].position.unwrap().0, Vec2i { x: 5, y: 5 });
}

#[test]
fn warp_right_overshoot_reappears_left() {
    // window 1280x720 px; half extent 640000 units; scale margin 1000
    let window = WindowSize { w: 1280000, h: 720000 };
    let mut entities = vec![Entity {
        position: Some(Position(Vec2i { x: 641007, y: 0 })),
        warpable: Some(BoundsWarpable),
        ..Entity::empty()
    }];
    // right edge is 640000 + 1000; overshoot 7 lands 7 outside the left edge
    warp_if_reached_window_bounds_system(&mut entities, &window);
    assert_eq!(entities[0].position.unwrap().0, Vec2i { x: -641007, y: 0 });
}

#[test]
fn warp_exactly_at_edge_does_not_wrap() {
    let window = WindowSize { w: 1280000, h: 720000 };
    let mut entities = vec![Entity {
        position: Some(Position(Vec2i { x: 641000, y: -361000 })),
        warpable: Some(BoundsWarpable),
        ..Entity::empty()
    }];
    warp_if_reached_window_bounds_system(&mut entities, &window);
    assert_eq!(entities[0].position.unwrap().0, Vec2i { x: 641000, y: -361000 });
}

#[test]
fn warp_bottom_overshoot_reappears_top() {
    let window = WindowSize { w: 1280000, h: 720000 };
    let mut entities = vec![Entity {
        position: Some(Position(Vec2i { x: 0, y: -361003 })),
        warpable: Some(BoundsWarpable),
        ..Entity::empty()
    }];
    warp_if_reached_window_bounds_system(&mut entities, &window);
    assert_eq!(entities[0].position.unwrap().0, Vec2i { x: 0, y: 361003 });
}

#[test]
fn bounds_despawn_removes_projected_leavers() {
    let border = test_border();
    let mut entities = vec![
        // projected next position crosses the right border plus offset
        Entity {
            bounds_despawn: Some(BoundsDespawnable(Vec2i { x: 10000, y: 10000 })),
            ..moving_entity(749000, 0, 2000, 0)
        },
        // stays inside
        Entity {
            bounds_despawn: Some(BoundsDespawnable(Vec2i { x: 10000, y: 10000 })),
            ..moving_entity(0, 0, 2000, 0)
        },
    ];
    despawn_if_reached_bounds_system(&mut entities, &border);
    assert!(!entities[0].alive);
    assert!(entities[1].alive);
}

#[test]
fn despawn_grace_protects_fresh_spawns() {
    let border = test_border();
    // spawned far out of bounds, grace 1000 ms, despawn delay 200 ms
    let mut entities = vec![Entity {
        bounds_despawn_timer: Some(BoundsDespawnableWithTimer::new(
            Vec2i { x: 0, y: 0 },
            200,
            1000,
        )),
        ..moving_entity(5000000, 0, 0, 0)
    }];
    // well below the grace duration: never removed, however long out of bounds
    for _ in 0..9 {
        despawn_if_reached_bounds_timer_system(&mut entities, 100, &border);
        assert!(entities[0].alive);
    }
    // grace elapses at 1000 ms; the countdown then runs 200 ms to removal
    despawn_if_reached_bounds_timer_system(&mut entities, 100, &border);
    assert!(entities[0].alive);
    despawn_if_reached_bounds_timer_system(&mut entities, 100, &border);
    assert!(!entities[0].alive);
}

#[test]
fn despawn_countdown_survives_re_entry() {
    let border = test_border();
    let mut entities = vec![Entity {
        bounds_despawn_timer: Some(BoundsDespawnableWithTimer::new(
            Vec2i { x: 0, y: 0 },
            300,
            0,
        )),
        ..moving_entity(5000000, 0, 0, 0)
    }];
    // zero grace: the first pass latches the countdown
    despawn_if_reached_bounds_timer_system(&mut entities, 100, &border);
    assert!(entities[0].alive);
    assert!(entities[0].bounds_despawn_timer.unwrap().should_despawn);
    // bring the entity back inside the border: the latch is not cleared
    entities[0].position = Some(Position(Vec2i { x: 0, y: 0 }));
    despawn_if_reached_bounds_timer_system(&mut entities, 100, &border);
    assert!(entities[0].alive);
    despawn_if_reached_bounds_timer_system(&mut entities, 100, &border);
    assert!(!entities[0].alive);
}

#[test]
fn rotation_advances_by_spin_and_wraps() {
    let mut entities = vec![Entity {
        rotation: Some(RotationAngle(6280)),
        meteor: Some(MeteorComponent { size: MeteorSizeType::Large, rotation_speed: 10 }),
        ..Entity::empty()
    }];
    update_rotation_system(&mut entities);
    // 6280 + 10 wraps past one full turn (6283 milliradians)
    assert_eq!(entities[0].rotation.unwrap().0, 7);
}

fn steerable_player(vx: i64, vy: i64, rot: i64) -> Entity {
    Entity {
        position: Some(Position(Vec2i { x: 0, y: 0 })),
        velocity: Some(Velocity(Vec2i { x: vx, y: vy })),
        rotation: Some(RotationAngle(rot)),
        player: Some(asteroid_defender::components::PlayerComponent),
        ..Entity::empty()
    }
}

#[test]
fn steering_turn_rotates_by_fixed_step() {
    let mut entities = vec![steerable_player(0, 0, 0)];
    asteroid_defender::player::player_movement_system(
        &mut entities,
        true,
        false,
        false,
        Vec2i { x: 0, y: 1000 },
    );
    assert_eq!(entities[0].rotation.unwrap().0, 70);
    // turning right from angle zero wraps below one full turn
    let mut entities = vec![steerable_player(0, 0, 0)];
    asteroid_defender::player::player_movement_system(
        &mut entities,
        false,
        true,
        false,
        Vec2i { x: 0, y: 1000 },
    );
    assert_eq!(entities[0].rotation.unwrap().0, 6213);
}

#[test]
fn thrust_accelerates_along_facing() {
    let mut entities = vec![steerable_player(0, 0, 0)];
    asteroid_defender::player::player_movement_system(
        &mut entities,
        false,
        false,
        true,
        Vec2i { x: 0, y: 1000 },
    );
    assert_eq!(entities[0].velocity.unwrap().0, Vec2i { x: 0, y: 150 });
}

#[test]
fn thrust_speed_is_clamped_to_cap() {
    let mut entities = vec![steerable_player(0, 4950, 0)];
    asteroid_defender::player::player_movement_system(
        &mut entities,
        false,
        false,
        true,
        Vec2i { x: 0, y: 1000 },
    );
    // 4950 + 150 = 5100 exceeds the 5000 cap and is normalized back onto it
    assert_eq!(entities[0].velocity.unwrap().0, Vec2i { x: 0, y: 5000 });
}

#[test]
fn coasting_decays_velocity() {
    let mut entities = vec![steerable_player(1000, -1000, 0)];
    asteroid_defender::player::player_movement_system(
        &mut entities,
        false,
        false,
        false,
        Vec2i { x: 0, y: 1000 },
    );
    assert_eq!(entities[0].velocity.unwrap().0, Vec2i { x: 990, y: -990 });
}

#[test]
fn warp_left_and_top_edges_are_symmetric() {
    let window = WindowSize { w: 1280000, h: 720000 };
    let mut entities = vec![
        // past the left edge by 5
        Entity {
            position: Some(Position(Vec2i { x: -641005, y: 0 })),
            warpable: Some(BoundsWarpable),
            ..Entity::empty()
        },
        // past the top edge by 12
        Entity {
            position: Some(Position(Vec2i { x: 0, y: 361012 })),
            warpable: Some(BoundsWarpable),
            ..Entity::empty()
        },
    ];
    warp_if_reached_window_bounds_system(&mut entities, &window);
    assert_eq!(entities[0].position.unwrap().0, Vec2i { x: 641005, y: 0 });
    assert_eq!(entities[1].position.unwrap().0, Vec2i { x: 0, y: -361012 });
}
