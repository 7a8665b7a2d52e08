//! The spawn director: meteor spawns, the split cascade, power-up spawns
//! and cooldown-gated firing.

use asteroid_defender::components::HitBoxSize;
use asteroid_defender::components::MeteorCollision;
use asteroid_defender::components::PlayerComponent;
use asteroid_defender::components::PlayerShootCooldownComponent;
use asteroid_defender::components::Position;
use asteroid_defender::components::RotationAngle;
use asteroid_defender::components::Velocity;
use asteroid_defender::entity::Entity;
use asteroid_defender::geometry::Vec2i;
use asteroid_defender::meteor::meteor_collision_spawn_system;
use asteroid_defender::meteor::spawn_meteor;
use asteroid_defender::meteor::spawn_meteor_system;
use asteroid_defender::powerup::spawn_powerup_system;
use asteroid_defender::projectile::projectile_despawn_system;
use asteroid_defender::projectile::projectile_shoot_system;
use asteroid_defender::resources::WindowSize;
use asteroid_defender::timer::GameTimer;
use asteroid_defender::MeteorSizeType;
use asteroid_defender::PowerUpType;

fn test_window() -> WindowSize {
    WindowSize { w: 1280000, h: 720000 }
}

fn live_player_marker() -> Entity {
    Entity {
        position: Some(Position(Vec2i { x: 0, y: 0 })),
        hitbox: Some(HitBoxSize(Vec2i { x: 50000, y: 50000 })),
        player: Some(PlayerComponent),
        ..Entity::empty()
    }
}

fn shooter_at_origin() -> Entity {
    Entity {
        position: Some(Position(Vec2i { x: 0, y: 0 })),
        rotation: Some(RotationAngle(0)),
        player: Some(PlayerComponent),
        shoot_cooldown: Some(PlayerShootCooldownComponent::new()),
        ..Entity::empty()
    }
}

#[test]
fn fresh_meteors_start_large_with_grace_policy() {
    let mut entities = vec![live_player_marker()];
    spawn_meteor_system(
        &mut entities,
        &test_window(),
        Vec2i { x: 500000, y: 0 },
        Vec2i { x: -1000, y: 0 },
    );
    assert_eq!(entities.len(), 2);
    let m = entities[1].meteor.unwrap();
    assert_eq!(m.size, MeteorSizeType::Large);
    assert_eq!(entities[1].position.unwrap().0, Vec2i { x: 500000, y: 0 });
    assert_eq!(entities[1].velocity.unwrap().0, Vec2i { x: -1000, y: 0 });
    let policy = entities[1].bounds_despawn_timer.unwrap();
    assert_eq!(policy.initial_spawn_timer.duration_ms, 1000);
    assert_eq!(policy.despawn_timer.duration_ms, 3000);
    // the bounds offset is half the window height on both axes
    assert_eq!(policy.bounds.0, Vec2i { x: 360000, y: 360000 });
    let dmg = entities[1].collision_damage.unwrap();
    assert!(dmg.should_damage);
    assert_eq!(dmg.damage, 3);
}

#[test]
fn meteor_spawn_skips_tick_without_player() {
    // the spawn velocity aims at the player: with no live player present
    // the time-gated spawn is a no-op for the tick
    let mut entities = Vec::new();
    spawn_meteor_system(
        &mut entities,
        &test_window(),
        Vec2i { x: 500000, y: 0 },
        Vec2i { x: -1000, y: 0 },
    );
    assert!(entities.is_empty());
    // a dead player does not count either
    let mut husk = live_player_marker();
    husk.alive = false;
    let mut entities = vec![husk];
    spawn_meteor_system(
        &mut entities,
        &test_window(),
        Vec2i { x: 500000, y: 0 },
        Vec2i { x: -1000, y: 0 },
    );
    assert_eq!(entities.len(), 1);
}

#[test]
fn meteor_spawn_respects_population_cap() {
    let mut entities = vec![live_player_marker()];
    for _ in 0..10 {
        spawn_meteor(
            &mut entities,
            MeteorSizeType::Large,
            Vec2i { x: 0, y: 0 },
            0,
            0,
            Vec2i { x: 0, y: 0 },
            Vec2i { x: 0, y: 0 },
        );
    }
    spawn_meteor_system(
        &mut entities,
        &test_window(),
        Vec2i { x: 500000, y: 0 },
        Vec2i { x: -1000, y: 0 },
    );
    // ten live meteors already: the time-gated spawn is skipped
    assert_eq!(entities.len(), 11);
    // a dead meteor no longer counts toward the cap
    entities[1].alive = false;
    spawn_meteor_system(
        &mut entities,
        &test_window(),
        Vec2i { x: 500000, y: 0 },
        Vec2i { x: -1000, y: 0 },
    );
    assert_eq!(entities.len(), 12);
}

#[test]
fn split_event_spawns_exactly_three_children() {
    let mut entities = Vec::new();
    let mut split_events = vec![MeteorCollision {
        size: MeteorSizeType::Medium,
        translation: Vec2i { x: 7000, y: -3000 },
    }];
    meteor_collision_spawn_system(&mut entities, &mut split_events);
    assert_eq!(entities.len(), 3);
    assert!(split_events.is_empty());
    for (idx, child) in entities.iter().enumerate() {
        let m = child.meteor.unwrap();
        assert_eq!(m.size, MeteorSizeType::Medium);
        assert_eq!(child.position.unwrap().0, Vec2i { x: 7000, y: -3000 });
        // velocity was drawn from the child's symmetric range
        let bound = (idx as i64 + 1) * 750;
        let v = child.velocity.unwrap().0;
        assert!(-bound <= v.x && v.x < bound);
        assert!(-bound <= v.y && v.y < bound);
        // children use the grace-timer despawn policy
        let policy = child.bounds_despawn_timer.unwrap();
        assert_eq!(policy.initial_spawn_timer.duration_ms, 1000);
        assert_eq!(policy.despawn_timer.duration_ms, 3000);
        assert!(!policy.should_despawn);
    }
}

#[test]
fn each_split_event_is_consumed_once() {
    let mut entities = Vec::new();
    let mut split_events = vec![
        MeteorCollision { size: MeteorSizeType::Medium, translation: Vec2i { x: 0, y: 0 } },
        MeteorCollision { size: MeteorSizeType::Small, translation: Vec2i { x: 100, y: 100 } },
    ];
    meteor_collision_spawn_system(&mut entities, &mut split_events);
    assert_eq!(entities.len(), 6);
    assert_eq!(entities[0].meteor.unwrap().size, MeteorSizeType::Medium);
    assert_eq!(entities[3].meteor.unwrap().size, MeteorSizeType::Small);
    assert!(split_events.is_empty());
    // a second pass with the drained queue spawns nothing
    meteor_collision_spawn_system(&mut entities, &mut split_events);
    assert_eq!(entities.len(), 6);
}

#[test]
fn powerup_spawn_is_edge_biased_and_capped() {
    let window = test_window();
    let mut entities = Vec::new();
    spawn_powerup_system(&mut entities, &window);
    assert_eq!(entities.len(), 1);
    let e = &entities[0];
    let p = e.position.unwrap().0;
    // horizontal position inside the half extent; vertical on an edge
    assert!(-640000 <= p.x && p.x < 640000);
    assert!(p.y == 410000 || p.y == -410000);
    let v = e.velocity.unwrap().0;
    assert!(-1500 <= v.x && v.x < 1500);
    if p.y > 0 {
        assert!(-1500 <= v.y && v.y < -999);
    } else {
        assert!(1000 <= v.y && v.y < 1500);
    }
    let pu = e.powerup.unwrap();
    assert!(matches!(pu.powerup_type, PowerUpType::ChangeShipType));
    // cap: after three live power-ups the spawner skips
    spawn_powerup_system(&mut entities, &window);
    spawn_powerup_system(&mut entities, &window);
    spawn_powerup_system(&mut entities, &window);
    assert_eq!(entities.len(), 3);
}

#[test]
fn cooldown_blocks_firing_until_elapsed() {
    // cooldown period 150 ms with 100 ms already accumulated: 50 ms remain
    let mut player = shooter_at_origin();
    let mut cd = player.shoot_cooldown.unwrap();
    cd.0.tick(100);
    player.shoot_cooldown = Some(cd);
    let mut entities = vec![player];
    // one 16 ms frame: the cooldown still has time to run, no projectile
    projectile_shoot_system(&mut entities, true, Vec2i { x: 0, y: 1000 }, 16);
    assert_eq!(entities.len(), 1);
    // enough frames for the cooldown to finish: exactly one projectile
    projectile_shoot_system(&mut entities, true, Vec2i { x: 0, y: 1000 }, 40);
    assert_eq!(entities.len(), 2);
    // the cooldown was reset to the full period
    let cd_after = entities[0].shoot_cooldown.unwrap().0;
    assert_eq!(cd_after.elapsed_ms, 0);
    assert_eq!(cd_after.duration_ms, 150);
    let proj = &entities[1];
    assert!(proj.projectile.is_some());
    assert_eq!(proj.position.unwrap().0, Vec2i { x: 0, y: 0 });
    // velocity is the facing scaled by the projectile speed
    assert_eq!(proj.velocity.unwrap().0, Vec2i { x: 0, y: 10000 });
    // an immediate next frame is gated again
    projectile_shoot_system(&mut entities, true, Vec2i { x: 0, y: 1000 }, 16);
    assert_eq!(entities.len(), 2);
}

#[test]
fn no_fire_input_means_no_projectile() {
    let mut entities = vec![shooter_at_origin()];
    projectile_shoot_system(&mut entities, false, Vec2i { x: 0, y: 1000 }, 1000);
    assert_eq!(entities.len(), 1);
}

#[test]
fn projectiles_expire_on_their_timer_edge() {
    let mut entities = vec![shooter_at_origin()];
    projectile_shoot_system(&mut entities, true, Vec2i { x: 0, y: 1000 }, 150);
    assert_eq!(entities.len(), 2);
    projectile_despawn_system(&mut entities, 2999);
    assert!(entities[1].alive);
    projectile_despawn_system(&mut entities, 1);
    assert!(!entities[1].alive);
}

#[test]
fn timer_partial_tick_keeps_cooldown_running() {
    let mut t = GameTimer::new(150);
    t.tick(149);
    assert!(!t.finished());
    t.tick(1);
    assert!(t.finished());
}
