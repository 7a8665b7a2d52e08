//! Collision pair rules: power-up pickup, hazard damage, damage
//! application, and projectile versus meteor resolution.

use asteroid_defender::collision::collision_damage_system;
use asteroid_defender::collision::entities_collide;
use asteroid_defender::collision::player_collide_despawnable_system;
use asteroid_defender::collision::player_collide_powerup_system;
use asteroid_defender::collision::player_projectile_hit_meteor_system;
use asteroid_defender::components::CollisionDespawnableWithDamage;
use asteroid_defender::components::DamageCollision;
use asteroid_defender::components::HitBoxSize;
use asteroid_defender::components::MeteorComponent;
use asteroid_defender::components::PlayerComponent;
use asteroid_defender::components::Position;
use asteroid_defender::components::PowerUpComponent;
use asteroid_defender::components::ProjectileComponent;
use asteroid_defender::components::ProjectileDespawnComponent;
use asteroid_defender::components::ShipComponent;
use asteroid_defender::entity::Entity;
use asteroid_defender::geometry::Vec2i;
use asteroid_defender::resources::Life;
use asteroid_defender::MeteorSizeType;
use asteroid_defender::ShipType;

fn player_at(x: i64, y: i64) -> Entity {
    Entity {
        position: Some(Position(Vec2i { x, y })),
        hitbox: Some(HitBoxSize(Vec2i { x: 50000, y: 50000 })),
        player: Some(PlayerComponent),
        ship: Some(ShipComponent::new_type(ShipType::Normal)),
        ..Entity::empty()
    }
}

fn meteor_at(x: i64, y: i64, size: MeteorSizeType) -> Entity {
    Entity {
        position: Some(Position(Vec2i { x, y })),
        hitbox: Some(HitBoxSize(asteroid_defender::meteor::get_size_from_type(size))),
        meteor: Some(MeteorComponent { size, rotation_speed: 0 }),
        collision_damage: Some(CollisionDespawnableWithDamage::new(
            true,
            asteroid_defender::get_damage_from_type(size),
        )),
        ..Entity::empty()
    }
}

fn projectile_at(x: i64, y: i64) -> Entity {
    Entity {
        position: Some(Position(Vec2i { x, y })),
        hitbox: Some(HitBoxSize(Vec2i { x: 9000, y: 54000 })),
        projectile: Some(ProjectileComponent),
        projectile_timer: Some(ProjectileDespawnComponent::new()),
        ..Entity::empty()
    }
}

fn powerup_at(x: i64, y: i64) -> Entity {
    Entity {
        position: Some(Position(Vec2i { x, y })),
        hitbox: Some(HitBoxSize(Vec2i { x: 33000, y: 33000 })),
        powerup: Some(PowerUpComponent::new(0)),
        ..Entity::empty()
    }
}

#[test]
fn entities_collide_uses_scaled_boxes() {
    let a = player_at(0, 0);
    let b = meteor_at(80000, 0, MeteorSizeType::Large);
    // full extents 50 + 120 pixels: centers 80 px apart overlap strictly
    assert!(entities_collide(&a, &b));
    let far = meteor_at(85000, 0, MeteorSizeType::Large);
    // centers exactly at the touching distance: no overlap
    assert!(!entities_collide(&a, &far));
}

#[test]
fn powerup_pickup_changes_ship_and_removes_powerup() {
    let powerup = powerup_at(10000, 0);
    let award = powerup.powerup.unwrap().get_ship_change_type();
    let mut entities = vec![player_at(0, 0), powerup, powerup_at(800000, 0)];
    player_collide_powerup_system(&mut entities);
    assert_eq!(entities[0].ship.unwrap().ship_type, award);
    assert_eq!(
        entities[0].ship.unwrap().stats,
        ShipComponent::get_stats_from_type(award)
    );
    assert!(!entities[1].alive);
    // the distant power-up is untouched
    assert!(entities[2].alive);
}

#[test]
fn hazard_overlap_records_damage_event_and_removes_hazard() {
    let mut entities = vec![player_at(0, 0), meteor_at(10000, 0, MeteorSizeType::Medium)];
    let mut damage_events: Vec<DamageCollision> = Vec::new();
    player_collide_despawnable_system(&mut entities, &mut damage_events);
    assert!(!entities[1].alive);
    // the player is not removed by the hazard pass
    assert!(entities[0].alive);
    assert_eq!(damage_events.len(), 1);
    assert_eq!(damage_events[0].0, 2);
}

#[test]
fn damage_overkill_clamps_to_zero_and_raises_one_death() {
    let mut life = Life::new(3);
    let mut damage_events = vec![DamageCollision(5), DamageCollision(2), DamageCollision(1)];
    let mut dead_events = Vec::new();
    collision_damage_system(&mut life, &mut damage_events, &mut dead_events);
    assert_eq!(life.current_life, 0);
    assert_eq!(dead_events.len(), 1);
    assert!(damage_events.is_empty());
}

#[test]
fn damage_applies_in_insertion_order() {
    let mut life = Life::new(5);
    let mut damage_events = vec![DamageCollision(1), DamageCollision(2)];
    let mut dead_events = Vec::new();
    collision_damage_system(&mut life, &mut damage_events, &mut dead_events);
    assert_eq!(life.current_life, 2);
    assert!(dead_events.is_empty());
    assert!(damage_events.is_empty());
}

#[test]
fn damage_exact_kill_raises_death() {
    let mut life = Life::new(3);
    let mut damage_events = vec![DamageCollision(1), DamageCollision(2)];
    let mut dead_events = Vec::new();
    collision_damage_system(&mut life, &mut damage_events, &mut dead_events);
    assert_eq!(life.current_life, 0);
    assert_eq!(dead_events.len(), 1);
}

#[test]
fn projectile_removes_meteor_and_records_split() {
    let mut entities = vec![
        projectile_at(0, 0),
        meteor_at(20000, 0, MeteorSizeType::Large),
    ];
    let mut split_events = Vec::new();
    player_projectile_hit_meteor_system(&mut entities, &mut split_events);
    assert!(!entities[0].alive);
    assert!(!entities[1].alive);
    assert_eq!(split_events.len(), 1);
    assert_eq!(split_events[0].size, MeteorSizeType::Medium);
    assert_eq!(split_events[0].translation, Vec2i { x: 20000, y: 0 });
}

#[test]
fn smallest_meteor_leaves_no_split_event() {
    let mut entities = vec![projectile_at(0, 0), meteor_at(5000, 0, MeteorSizeType::Small)];
    let mut split_events = Vec::new();
    player_projectile_hit_meteor_system(&mut entities, &mut split_events);
    assert!(!entities[0].alive);
    assert!(!entities[1].alive);
    assert!(split_events.is_empty());
}

#[test]
fn expired_projectile_is_excluded_from_matching() {
    let mut proj = projectile_at(0, 0);
    let mut timer = proj.projectile_timer.unwrap();
    // drive the expiry timer to its just-finished edge
    timer.0.tick(3000);
    assert!(timer.0.just_finished());
    proj.projectile_timer = Some(timer);
    let mut entities = vec![proj, meteor_at(5000, 0, MeteorSizeType::Large)];
    let mut split_events = Vec::new();
    player_projectile_hit_meteor_system(&mut entities, &mut split_events);
    // no match: the meteor survives and no split event is recorded
    assert!(entities[1].alive);
    assert!(split_events.is_empty());
}

#[test]
fn at_most_one_resolution_per_entity() {
    // two projectiles, three overlapping meteors: each projectile removes
    // exactly one meteor, no entity is resolved twice
    let mut entities = vec![
        projectile_at(0, 0),
        projectile_at(1000, 0),
        meteor_at(10000, 0, MeteorSizeType::Large),
        meteor_at(12000, 0, MeteorSizeType::Large),
        meteor_at(14000, 0, MeteorSizeType::Small),
    ];
    let mut split_events = Vec::new();
    player_projectile_hit_meteor_system(&mut entities, &mut split_events);
    let removed_projectiles =
        entities.iter().filter(|e| e.projectile.is_some() && !e.alive).count();
    let removed_meteors = entities.iter().filter(|e| e.meteor.is_some() && !e.alive).count();
    assert_eq!(removed_projectiles, 2);
    assert_eq!(removed_meteors, 2);
    // first-match order: the two lowest meteor slots were taken
    assert!(!entities[2].alive);
    assert!(!entities[3].alive);
    assert!(entities[4].alive);
    assert_eq!(split_events.len(), 2);
}

#[test]
fn no_player_means_no_pickup() {
    let mut entities = vec![powerup_at(0, 0)];
    player_collide_powerup_system(&mut entities);
    assert!(entities[0].alive);
    let mut damage_events = Vec::new();
    player_collide_despawnable_system(&mut entities, &mut damage_events);
    assert!(entities[0].alive);
    assert!(damage_events.is_empty());
}
