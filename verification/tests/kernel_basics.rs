//! Timers, phases, resources, lookup tables and the object pool.

use asteroid_defender::components::PlayerShootCooldownComponent;
use asteroid_defender::components::ProjectileDespawnComponent;
use asteroid_defender::geometry::aabb_collide;
use asteroid_defender::geometry::Vec2i;
use asteroid_defender::get_damage_from_type;
use asteroid_defender::get_score_from_type;
use asteroid_defender::meteor::get_size_from_type;
use asteroid_defender::object_pool::ObjectPool;
use asteroid_defender::resources::Life;
use asteroid_defender::states::GameStates;
use asteroid_defender::timer::GameTimer;
use asteroid_defender::MeteorSizeType;

#[test]
fn timer_counts_up_and_saturates() {
    let mut t = GameTimer::new(150);
    assert!(!t.finished());
    t.tick(100);
    assert!(!t.finished());
    assert!(!t.just_finished());
    assert_eq!(t.elapsed_ms, 100);
    t.tick(100);
    assert!(t.finished());
    assert!(t.just_finished());
    assert_eq!(t.elapsed_ms, 150);
    t.tick(10);
    assert!(t.finished());
    assert!(!t.just_finished());
    assert_eq!(t.elapsed_ms, 150);
}

#[test]
fn timer_reset_restarts_countdown() {
    let mut t = GameTimer::new(50);
    t.tick(80);
    assert!(t.finished());
    t.reset();
    assert!(!t.finished());
    assert_eq!(t.elapsed_ms, 0);
    t.tick(50);
    assert!(t.just_finished());
}

#[test]
fn timer_zero_duration_finishes_immediately() {
    let mut t = GameTimer::new(0);
    assert!(t.finished());
    t.tick(1);
    assert!(t.finished());
    assert!(!t.just_finished());
}

#[test]
fn phase_cycle_is_linear() {
    assert_eq!(GameStates::Menu.next(), GameStates::StartGame);
    assert_eq!(GameStates::StartGame.next(), GameStates::InGame);
    assert_eq!(GameStates::InGame.next(), GameStates::Progression);
    assert_eq!(GameStates::Progression.next(), GameStates::EndGame);
    assert_eq!(GameStates::EndGame.next(), GameStates::Menu);
}

#[test]
fn meteor_tier_below() {
    assert_eq!(MeteorSizeType::Large.below(), MeteorSizeType::Medium);
    assert_eq!(MeteorSizeType::Medium.below(), MeteorSizeType::Small);
    assert_eq!(MeteorSizeType::Small.below(), MeteorSizeType::Small);
}

#[test]
fn meteor_damage_table() {
    assert_eq!(get_damage_from_type(MeteorSizeType::Small), 1);
    assert_eq!(get_damage_from_type(MeteorSizeType::Medium), 2);
    assert_eq!(get_damage_from_type(MeteorSizeType::Large), 3);
}

#[test]
fn meteor_score_table() {
    assert_eq!(get_score_from_type(MeteorSizeType::Small), 50);
    assert_eq!(get_score_from_type(MeteorSizeType::Medium), 20);
    assert_eq!(get_score_from_type(MeteorSizeType::Large), 5);
}

#[test]
fn meteor_hitbox_table() {
    assert_eq!(get_size_from_type(MeteorSizeType::Large), Vec2i { x: 120000, y: 98000 });
    assert_eq!(get_size_from_type(MeteorSizeType::Medium), Vec2i { x: 43000, y: 43000 });
    assert_eq!(get_size_from_type(MeteorSizeType::Small), Vec2i { x: 28000, y: 28000 });
}

#[test]
fn life_new_and_reset() {
    let mut life = Life::new(3);
    assert_eq!(life.current_life, 3);
    assert_eq!(life.max_life, 3);
    life.current_life = 1;
    life.reset();
    assert_eq!(life.current_life, 3);
}

#[test]
fn cooldown_components_start_unstarted() {
    let cd = PlayerShootCooldownComponent::new();
    assert_eq!(cd.0.duration_ms, 150);
    assert_eq!(cd.0.elapsed_ms, 0);
    let t = ProjectileDespawnComponent::new();
    assert_eq!(t.0.duration_ms, 3000);
    assert_eq!(t.0.elapsed_ms, 0);
    assert_eq!(PlayerShootCooldownComponent::default(), cd);
    assert_eq!(ProjectileDespawnComponent::default(), t);
}

#[test]
fn aabb_overlap_is_strict() {
    let a = Vec2i { x: 0, y: 0 };
    let size = Vec2i { x: 10, y: 10 };
    // boxes that merely touch (distance equals sum of half extents) miss
    let touching = Vec2i { x: 10, y: 0 };
    assert!(!aabb_collide(a, size, touching, size));
    // a hair closer and they overlap
    let close = Vec2i { x: 9, y: 0 };
    assert!(aabb_collide(a, size, close, size));
    // overlap must hold on both axes simultaneously
    let diagonal = Vec2i { x: 9, y: 11 };
    assert!(!aabb_collide(a, size, diagonal, size));
}

#[test]
fn object_pool_round_trip() {
    let mut pool: ObjectPool<u32> = ObjectPool::new();
    assert_eq!(pool.acquire(), None);
    pool.release(7);
    pool.release(8);
    assert_eq!(pool.acquire(), Some(8));
    assert_eq!(pool.acquire(), Some(7));
    assert_eq!(pool.acquire(), None);
}
