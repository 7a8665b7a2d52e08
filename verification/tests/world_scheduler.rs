//! The scheduler: phase progression, life handling across runs, and the
//! end-to-end split scenario.

use asteroid_defender::collision::player_projectile_hit_meteor_system;
use asteroid_defender::components::CollisionDespawnableWithDamage;
use asteroid_defender::components::HitBoxSize;
use asteroid_defender::components::MeteorComponent;
use asteroid_defender::components::Position;
use asteroid_defender::components::ProjectileComponent;
use asteroid_defender::components::ProjectileDespawnComponent;
use asteroid_defender::components::Velocity;
use asteroid_defender::entity::Entity;
use asteroid_defender::events::send_state_end_event;
use asteroid_defender::events::send_state_start_event;
use asteroid_defender::geometry::Vec2i;
use asteroid_defender::manager::game_end;
use asteroid_defender::manager::game_restart;
use asteroid_defender::manager::game_start;
use asteroid_defender::manager::intro_start;
use asteroid_defender::manager::menu_start;
use asteroid_defender::manager::start_progression;
use asteroid_defender::meteor::meteor_collision_spawn_system;
use asteroid_defender::player::check_player_dead_event;
use asteroid_defender::resources::Life;
use asteroid_defender::resources::WindowSize;
use asteroid_defender::states::GameStates;
use asteroid_defender::world::GameWorld;
use asteroid_defender::world::TickInput;
use asteroid_defender::MeteorSizeType;

fn idle_input(delta_ms: u64) -> TickInput {
    TickInput {
        delta_ms,
        turn_left: false,
        turn_right: false,
        thrust: false,
        fire: false,
        facing: Vec2i { x: 0, y: 1000 },
        meteor_spawn_pos: Vec2i { x: 700000, y: 0 },
        meteor_spawn_vel: Vec2i { x: -1000, y: 0 },
    }
}

#[test]
fn new_world_enters_start_game_with_player() {
    let w = GameWorld::new(WindowSize { w: 1280000, h: 720000 });
    assert_eq!(w.phase, GameStates::StartGame);
    assert_eq!(w.life.current_life, 3);
    assert_eq!(w.entities.len(), 1);
    assert!(w.entities[0].player.is_some());
    assert!(w.entities[0].alive);
    // the simulated position starts at the window center (the off-screen
    // entry is only the presentation layer's animation)
    assert_eq!(w.entities[0].position.unwrap().0, Vec2i { x: 0, y: 0 });
    assert_eq!(w.player_spawn_events.len(), 1);
    assert_eq!(w.border.right, 740000);
    assert_eq!(w.border.top, 460000);
}

#[test]
fn start_game_delay_leads_into_gameplay() {
    let mut w = GameWorld::new(WindowSize { w: 1280000, h: 720000 });
    w.tick(idle_input(1000));
    assert_eq!(w.phase, GameStates::StartGame);
    w.tick(idle_input(500));
    assert_eq!(w.phase, GameStates::InGame);
    // the transition announced the phase change
    assert!(w.state_end_events.iter().any(|e| e.0 == GameStates::StartGame));
    assert!(w.state_start_events.iter().any(|e| e.0 == GameStates::InGame));
    // transient collision buffers are drained at every tick boundary
    assert!(w.split_events.is_empty());
    assert!(w.damage_events.is_empty());
}

#[test]
fn player_death_ends_the_run_and_restarts() {
    let mut w = GameWorld::new(WindowSize { w: 1280000, h: 720000 });
    w.tick(idle_input(1500));
    assert_eq!(w.phase, GameStates::InGame);
    // park the player at the origin so the warp rule leaves it in place
    w.entities[0].position = Some(Position(Vec2i { x: 0, y: 0 }));
    // drop a damaging hazard straight onto the player and let three ticks
    // of collisions burn the three hit points down to zero
    for _ in 0..3 {
        w.entities.push(Entity {
            position: Some(Position(Vec2i { x: 0, y: 0 })),
            hitbox: Some(HitBoxSize(Vec2i { x: 10000, y: 10000 })),
            collision_damage: Some(CollisionDespawnableWithDamage::new(true, 1)),
            meteor: Some(MeteorComponent { size: MeteorSizeType::Small, rotation_speed: 0 }),
            ..Entity::empty()
        });
        w.tick(idle_input(16));
    }
    assert_eq!(w.life.current_life, 0);
    assert_eq!(w.phase, GameStates::EndGame);
    // exactly one player-dead notification stands on the death tick
    assert_eq!(w.player_dead_events.len(), 1);
    // entering the end-of-run phase already cleaned the flagged leftovers
    assert!(w.entities.iter().all(|e| !e.alive || e.meteor.is_none()));
    // the dead player is halted: gameplay components removed, husk kept
    assert!(w.entities[0].alive);
    assert!(w.entities[0].velocity.is_none());
    assert!(w.entities[0].position.is_none());
    // after the end-of-run delay a fresh run starts with full life
    w.tick(idle_input(1500));
    assert_eq!(w.phase, GameStates::StartGame);
    assert_eq!(w.life.current_life, 3);
    // the old player husk was retired at the restart, and the fresh
    // player is the only (and hence first) live one
    assert!(!w.entities[0].alive);
    assert!(w.entities.last().unwrap().player.is_some());
    assert!(w.entities.last().unwrap().alive);
    assert_eq!(
        w.entities.iter().filter(|e| e.alive && e.player.is_some()).count(),
        1
    );
}

#[test]
fn second_run_is_playable() {
    let mut w = GameWorld::new(WindowSize { w: 1280000, h: 720000 });
    // first run: enter gameplay and die
    w.tick(idle_input(1500));
    for _ in 0..3 {
        w.entities.push(Entity {
            position: Some(Position(Vec2i { x: 0, y: 0 })),
            hitbox: Some(HitBoxSize(Vec2i { x: 10000, y: 10000 })),
            collision_damage: Some(CollisionDespawnableWithDamage::new(true, 1)),
            meteor: Some(MeteorComponent { size: MeteorSizeType::Small, rotation_speed: 0 }),
            ..Entity::empty()
        });
        w.tick(idle_input(16));
    }
    assert_eq!(w.phase, GameStates::EndGame);
    // restart and enter gameplay again
    w.tick(idle_input(1500));
    w.tick(idle_input(1500));
    assert_eq!(w.phase, GameStates::InGame);
    assert_eq!(w.life.current_life, 3);
    // the fresh player (not the retired husk) takes hits: life drops
    w.entities.push(Entity {
        position: Some(Position(Vec2i { x: 0, y: 0 })),
        hitbox: Some(HitBoxSize(Vec2i { x: 10000, y: 10000 })),
        collision_damage: Some(CollisionDespawnableWithDamage::new(true, 1)),
        meteor: Some(MeteorComponent { size: MeteorSizeType::Small, rotation_speed: 0 }),
        ..Entity::empty()
    });
    w.tick(idle_input(16));
    assert_eq!(w.life.current_life, 2);
}

#[test]
fn time_gated_spawns_fire_in_game() {
    let mut w = GameWorld::new(WindowSize { w: 1280000, h: 720000 });
    w.tick(idle_input(1500));
    assert_eq!(w.phase, GameStates::InGame);
    // the meteor gate fires after its interval: one fresh Large meteor
    // appears on the handed-in spawn ray
    w.tick(idle_input(3000));
    let meteor = w
        .entities
        .iter()
        .find(|e| e.alive && e.meteor.is_some())
        .expect("the fired meteor gate spawns a meteor");
    assert_eq!(meteor.meteor.unwrap().size, MeteorSizeType::Large);
    assert_eq!(meteor.position.unwrap().0, Vec2i { x: 700000, y: 0 });
    assert_eq!(meteor.velocity.unwrap().0, Vec2i { x: -1000, y: 0 });
    // the power-up gate (a longer interval) has not fired yet
    assert!(w.entities.iter().all(|e| e.powerup.is_none()));
    // after its interval elapses a power-up appears as well
    w.tick(idle_input(2000));
    assert!(w.entities.iter().any(|e| e.alive && e.powerup.is_some()));
}

#[test]
fn menu_idles_until_triggered() {
    let mut w = GameWorld::new(WindowSize { w: 1280000, h: 720000 });
    w.phase = GameStates::Menu;
    w.tick(idle_input(5000));
    assert_eq!(w.phase, GameStates::Menu);
}

#[test]
fn phase_triggers_set_their_targets() {
    let mut s = GameStates::Menu;
    intro_start(&mut s);
    assert_eq!(s, GameStates::StartGame);
    game_start(&mut s);
    assert_eq!(s, GameStates::InGame);
    start_progression(&mut s);
    assert_eq!(s, GameStates::Progression);
    game_end(&mut s);
    assert_eq!(s, GameStates::EndGame);
    game_restart(&mut s);
    assert_eq!(s, GameStates::StartGame);
    menu_start(&mut s);
    assert_eq!(s, GameStates::Menu);
}

#[test]
fn state_events_carry_their_phase() {
    let mut starts = Vec::new();
    let mut ends = Vec::new();
    send_state_start_event(GameStates::InGame, &mut starts);
    send_state_end_event(GameStates::StartGame, &mut ends);
    assert_eq!(starts.len(), 1);
    assert_eq!(starts[0].0, GameStates::InGame);
    assert_eq!(ends.len(), 1);
    assert_eq!(ends[0].0, GameStates::StartGame);
}

#[test]
fn dead_event_raised_only_at_zero_life() {
    let mut dead = Vec::new();
    check_player_dead_event(&Life::new(3), &mut dead);
    assert!(dead.is_empty());
    let exhausted = Life { max_life: 3, current_life: 0 };
    check_player_dead_event(&exhausted, &mut dead);
    assert_eq!(dead.len(), 1);
}

#[test]
fn large_meteor_split_end_to_end() {
    // player at the origin, one Large meteor and one projectile overlapping
    // it in the same tick
    let meteor_pos = Vec2i { x: 200000, y: 100000 };
    let mut entities = vec![
        Entity {
            position: Some(Position(Vec2i { x: 0, y: 0 })),
            hitbox: Some(HitBoxSize(Vec2i { x: 50000, y: 50000 })),
            player: Some(asteroid_defender::components::PlayerComponent),
            ..Entity::empty()
        },
        Entity {
            position: Some(Position(meteor_pos)),
            hitbox: Some(HitBoxSize(Vec2i { x: 120000, y: 98000 })),
            meteor: Some(MeteorComponent { size: MeteorSizeType::Large, rotation_speed: 10 }),
            ..Entity::empty()
        },
        Entity {
            position: Some(Position(Vec2i { x: 210000, y: 110000 })),
            hitbox: Some(HitBoxSize(Vec2i { x: 9000, y: 54000 })),
            velocity: Some(Velocity(Vec2i { x: 0, y: 10000 })),
            projectile: Some(ProjectileComponent),
            projectile_timer: Some(ProjectileDespawnComponent::new()),
            ..Entity::empty()
        },
    ];
    let mut split_events = Vec::new();
    player_projectile_hit_meteor_system(&mut entities, &mut split_events);
    // exactly one split event, one tier down, at the meteor's position
    assert_eq!(split_events.len(), 1);
    assert_eq!(split_events[0].size, MeteorSizeType::Medium);
    assert_eq!(split_events[0].translation, meteor_pos);
    assert!(!entities[1].alive);
    assert!(!entities[2].alive);
    assert!(entities[0].alive);
    // the next tick's spawn pass produces exactly three Medium meteors at
    // that position, each with a grace-timer despawn policy
    meteor_collision_spawn_system(&mut entities, &mut split_events);
    assert!(split_events.is_empty());
    assert_eq!(entities.len(), 6);
    for child in &entities[3..] {
        assert!(child.alive);
        assert_eq!(child.meteor.unwrap().size, MeteorSizeType::Medium);
        assert_eq!(child.position.unwrap().0, meteor_pos);
        assert!(child.bounds_despawn_timer.is_some());
        let policy = child.bounds_despawn_timer.unwrap();
        assert_eq!(policy.initial_spawn_timer.duration_ms, 1000);
        assert!(!policy.should_despawn);
        assert!(child.velocity.is_some());
    }
}
