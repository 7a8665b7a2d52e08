//! Meteors: fresh time-gated spawns and the split cascade.
//!
//! A destroyed meteor above the smallest tier leaves a split event; this
//! module consumes each event exactly once and spawns three children of
//! the tier below at the parent's last position, with independently
//! randomized velocities and spins and a grace-timer despawn policy, so
//! children can move away from the origin before bounds-checking begins.

use vstd::prelude::*;

use crate::components::BoundsDespawnableWithTimer;
use crate::components::CleanUpEndGame;
use crate::components::CollisionDespawnableWithDamage;
use crate::components::HitBoxSize;
use crate::components::MeteorCollision;
use crate::components::MeteorComponent;
use crate::components::Position;
use crate::components::RotationAngle;
use crate::components::Velocity;
use crate::components::TAU_MRAD;
use crate::entity::count_matching;
use crate::entity::count_live_meteors;
use crate::entity::Entity;
use crate::geometry::Vec2i;
use crate::resources::WindowSize;
use crate::rng::rand_in_range;
use crate::MeteorSizeType;
use crate::METEOR_MAX_COUNT;

verus! {

/// Grace period before a meteor's bounds check starts, in milliseconds.
pub const METEOR_GRACE_MS: u64 = 1000;

/// Despawn countdown once a meteor is found out of bounds, in
/// milliseconds.
pub const METEOR_DESPAWN_DELAY_MS: u64 = 3000;

/// Bounds offset of split children, in world units (50 pixels).
pub const SPLIT_BOUNDS_OFFSET: i64 = 50 * 1000;

/// Split children of index `c` (0-based) draw each velocity component from
/// a symmetric range this wide, in world units per tick (0.75 pixels per
/// child index).
pub const SPLIT_SPEED_STEP: i64 = 750;

/// The hit-box extents of a meteor of the given tier, in world units.
pub open spec fn spec_meteor_hitbox(size: MeteorSizeType) -> Vec2i {
    match size {
        MeteorSizeType::Large => Vec2i { x: 120000, y: 98000 },
        MeteorSizeType::Medium => Vec2i { x: 43000, y: 43000 },
        MeteorSizeType::Small => Vec2i { x: 28000, y: 28000 },
    }
}

/// Returns the hit-box extents of a meteor of the given tier.
pub fn get_size_from_type(size: MeteorSizeType) -> (r: Vec2i)
    ensures
        r == spec_meteor_hitbox(size),
{
    match size {
        MeteorSizeType::Large => Vec2i { x: 120000, y: 98000 },
        MeteorSizeType::Medium => Vec2i { x: 43000, y: 43000 },
        MeteorSizeType::Small => Vec2i { x: 28000, y: 28000 },
    }
}

/// The full record of a freshly spawned meteor: category tag with its spin,
/// tier-dependent hit box and damage, a grace-timer despawn policy and the
/// end-of-run cleanup flag.
pub open spec fn spec_meteor_entity(
    size: MeteorSizeType,
    position: Vec2i,
    rotation: int,
    rotation_speed: int,
    velocity: Vec2i,
    bounds_offset: Vec2i,
) -> Entity {
    Entity {
        position: Some(Position(position)),
        velocity: Some(Velocity(velocity)),
        rotation: Some(RotationAngle(rotation as i64)),
        hitbox: Some(HitBoxSize(spec_meteor_hitbox(size))),
        bounds_despawn_timer: Some(
            BoundsDespawnableWithTimer {
                bounds: crate::components::BoundsDespawnable(bounds_offset),
                initial_spawn_timer: crate::timer::GameTimer::spec_new(METEOR_GRACE_MS),
                despawn_timer: crate::timer::GameTimer::spec_new(METEOR_DESPAWN_DELAY_MS),
                should_despawn: false,
            },
        ),
        collision_damage: Some(
            CollisionDespawnableWithDamage {
                should_damage: true,
                damage: crate::spec_meteor_damage(size),
            },
        ),
        cleanup: Some(CleanUpEndGame { despawn_entity: true }),
        meteor: Some(MeteorComponent { size, rotation_speed: rotation_speed as i64 }),
        ..Entity::spec_empty()
    }
}

/// Appends one meteor entity with the given tier, pose and policy to the
/// store.
pub fn spawn_meteor(
    entities: &mut Vec<Entity>,
    size: MeteorSizeType,
    position: Vec2i,
    rotation: i64,
    rotation_speed: i64,
    velocity: Vec2i,
    bounds_offset: Vec2i,
)
    requires
        position.in_pos_range(),
        velocity.in_vel_range(),
        0 <= rotation < TAU_MRAD,
        -TAU_MRAD < rotation_speed < TAU_MRAD,
        bounds_offset.in_size_range(),
    ensures
        final(entities)@ == old(entities)@.push(
            spec_meteor_entity(
                size,
                position,
                rotation as int,
                rotation_speed as int,
                velocity,
                bounds_offset,
            ),
        ),
        final(entities)@.last().wf(),
{
    let rec = Entity {
        position: Some(Position(position)),
        velocity: Some(Velocity(velocity)),
        rotation: Some(RotationAngle(rotation)),
        hitbox: Some(HitBoxSize(get_size_from_type(size))),
        bounds_despawn_timer: Some(
            BoundsDespawnableWithTimer::new(
                bounds_offset,
                METEOR_DESPAWN_DELAY_MS,
                METEOR_GRACE_MS,
            ),
        ),
        collision_damage: Some(
            CollisionDespawnableWithDamage::new(true, crate::get_damage_from_type(size)),
        ),
        cleanup: Some(CleanUpEndGame::new(true)),
        meteor: Some(MeteorComponent { size, rotation_speed }),
        ..Entity::empty()
    };
    proof {
        assert(rec == spec_meteor_entity(
            size,
            position,
            rotation as int,
            rotation_speed as int,
            velocity,
            bounds_offset,
        ));
    }
    entities.push(rec);
}

/// Draws a small rotation jitter from the given symmetric range (in
/// milliradians) and normalizes it into `[0, TAU_MRAD)`.
fn random_angle_jitter(half_range: i64) -> (r: i64)
    requires
        0 < half_range <= TAU_MRAD,
    ensures
        0 <= r < TAU_MRAD,
        r < half_range || r >= TAU_MRAD - half_range,
{
    let jitter = rand_in_range(-half_range, half_range);
    if jitter < 0 {
        jitter + TAU_MRAD
    } else {
        jitter
    }
}

/// Time-gated meteor spawn: when a live player exists (the spawn velocity
/// aims at the player, so the system is player-scoped and skips the tick
/// without one) and the live meteor count is below the cap, one fresh
/// meteor of the largest tier is created at the given off-screen position
/// with the given homing-at-spawn velocity, a small random rotation jitter
/// and spin, and a bounds offset of half the window height on both axes.
/// Without a live player, or at or above the cap, nothing changes.
pub fn spawn_meteor_system(
    entities: &mut Vec<Entity>,
    wdw_size: &WindowSize,
    spawn_position: Vec2i,
    velocity: Vec2i,
)
    requires
        forall|i: int| 0 <= i < old(entities)@.len() ==> (#[trigger] old(entities)@[i]).wf(),
        wdw_size.wf(),
        spawn_position.in_pos_range(),
        velocity.in_vel_range(),
        old(entities)@.len() < usize::MAX,
    ensures
        !crate::collision::spec_has_live_player(old(entities)@) ==> final(entities)@ == old(entities)@,
        count_matching(old(entities)@, |e: Entity| e.is_live_meteor()) >= METEOR_MAX_COUNT
            ==> final(entities)@ == old(entities)@,
        crate::collision::spec_has_live_player(old(entities)@) && count_matching(
            old(entities)@,
            |e: Entity| e.is_live_meteor(),
        ) < METEOR_MAX_COUNT ==> {
            let e = final(entities)@.last();
            &&& final(entities)@.len() == old(entities)@.len() + 1
            &&& final(entities)@ == old(entities)@.push(e)
            &&& e == spec_meteor_entity(
                MeteorSizeType::Large,
                spawn_position,
                e.spec_rot(),
                crate::common_systems::spec_spin_of(e),
                velocity,
                Vec2i { x: (wdw_size.h / 2) as i64, y: (wdw_size.h / 2) as i64 },
            )
            &&& (e.spec_rot() < 50 || e.spec_rot() >= TAU_MRAD - 50)
            &&& -50 <= crate::common_systems::spec_spin_of(e) < 50
        },
        forall|i: int| 0 <= i < final(entities)@.len() ==> (#[trigger] final(entities)@[i]).wf(),
{
    if crate::collision::find_first_live_player(entities).is_none() {
        return ;
    }
    let count = count_live_meteors(entities);
    if count < METEOR_MAX_COUNT {
        let max_dist = crate::utils::calculate_max_spawn_distance(
            Vec2i { x: wdw_size.w, y: wdw_size.h },
        );
        let rotation = random_angle_jitter(50);
        let rot_speed = rand_in_range(-50, 50);
        spawn_meteor(
            entities,
            MeteorSizeType::Large,
            spawn_position,
            rotation,
            rot_speed,
            velocity,
            Vec2i { x: max_dist, y: max_dist },
        );
    }
}

/// Split law, detection side: resolving a projectile at slot `i` against
/// the meteor it first overlaps at slot `j` removes the parent, records
/// exactly one split event — carrying the tier directly below the parent's
/// and the parent's position — when the parent sits above the smallest
/// tier, and records none for a smallest-tier parent. Together with the
/// cascade pass, which spawns exactly three children per event, a Large
/// parent yields three Medium children, a Medium parent three Small ones,
/// and a Small parent none.
pub proof fn lemma_split_invariant(
    s: Seq<Entity>,
    ev: Seq<MeteorCollision>,
    i: int,
    j: int,
)
    requires
        0 <= i < s.len(),
        0 <= j < s.len(),
        crate::collision::spec_proj_ready(s[i]),
        crate::collision::spec_first_meteor_hit_from(s, s[i], 0) == Some(j),
        s[j].is_live_meteor(),
    ensures
        crate::collision::spec_hit_step(s, ev, i).0[j] == s[j].spec_killed(),
        (s[j].meteor->0).size == MeteorSizeType::Small ==> crate::collision::spec_hit_step(
            s,
            ev,
            i,
        ).1 == ev,
        (s[j].meteor->0).size != MeteorSizeType::Small ==> crate::collision::spec_hit_step(
            s,
            ev,
            i,
        ).1 == ev.push(
            MeteorCollision { size: (s[j].meteor->0).size.spec_below(), translation: s[j].spec_pos() },
        ),
{
}

/// Each meteor's size strictly decreases across successive split events;
/// it never increases.
pub proof fn lemma_split_strictly_decreases(size: MeteorSizeType)
    requires
        size != MeteorSizeType::Small,
    ensures
        size.spec_below().spec_rank() < size.spec_rank(),
{
}

/// A child record produced by consuming a split event: a meteor of the
/// event's tier at the event's position, whose velocity components were
/// drawn from the symmetric range of child index `c` (0-based).
pub open spec fn spec_is_split_child(e: Entity, ev: MeteorCollision, c: int) -> bool {
    &&& e == spec_meteor_entity(
        ev.size,
        ev.translation,
        e.spec_rot(),
        crate::common_systems::spec_spin_of(e),
        e.spec_vel(),
        Vec2i { x: SPLIT_BOUNDS_OFFSET, y: SPLIT_BOUNDS_OFFSET },
    )
    &&& -(c + 1) * SPLIT_SPEED_STEP <= e.spec_vel().x < (c + 1) * SPLIT_SPEED_STEP
    &&& -(c + 1) * SPLIT_SPEED_STEP <= e.spec_vel().y < (c + 1) * SPLIT_SPEED_STEP
    &&& 0 <= e.spec_rot() < TAU_MRAD
    &&& -50 <= crate::common_systems::spec_spin_of(e) < 50
}

/// Split cascade: consumes every pending split event exactly once, in
/// order, spawning exactly three children per event — of the event's tier,
/// at the event's position, each with independently randomized velocity
/// (range widening with the child index) and spin, and a grace-timer
/// despawn policy. The event queue is cleared.
pub fn meteor_collision_spawn_system(
    entities: &mut Vec<Entity>,
    split_events: &mut Vec<MeteorCollision>,
)
    requires
        forall|i: int| 0 <= i < old(entities)@.len() ==> (#[trigger] old(entities)@[i]).wf(),
        forall|i: int|
            0 <= i < old(split_events)@.len() ==> (#[trigger] old(
                split_events,
            )@[i]).translation.in_pos_range(),
        old(entities)@.len() + 3 * old(split_events)@.len() < usize::MAX,
    ensures
        final(entities)@.len() == old(entities)@.len() + 3 * old(split_events)@.len(),
        forall|i: int|
            0 <= i < old(entities)@.len() ==> final(entities)@[i] == #[trigger] old(entities)@[i],
        forall|k: int, c: int|
            0 <= k < old(split_events)@.len() && 0 <= c < 3 ==> spec_is_split_child(
                #[trigger] final(entities)@[old(entities)@.len() + 3 * k + c],
                old(split_events)@[k],
                c,
            ),
        final(split_events)@.len() == 0,
        forall|i: int|
            old(entities)@.len() <= i < final(entities)@.len() ==> (#[trigger] final(entities)@[i]).is_live_meteor() && final(entities)@[i].projectile.is_none() && final(entities)@[i].player.is_none() && final(entities)@[i].powerup.is_none() && final(entities)@[i].projectile_timer.is_none(),
        forall|i: int| 0 <= i < final(entities)@.len() ==> (#[trigger] final(entities)@[i]).wf(),
{
    let ghost s0 = entities@;
    let ghost ev0 = split_events@;
    let mut k: usize = 0;
    while k < split_events.len()
        invariant
            k <= ev0.len(),
            split_events@ == ev0,
            s0.len() + 3 * ev0.len() < usize::MAX,
            entities@.len() == s0.len() + 3 * k,
            forall|i: int| 0 <= i < s0.len() ==> entities@[i] == #[trigger] s0[i],
            forall|i: int| 0 <= i < s0.len() ==> (#[trigger] s0[i]).wf(),
            forall|i: int| 0 <= i < ev0.len() ==> (#[trigger] ev0[i]).translation.in_pos_range(),
            forall|k2: int, c: int|
                0 <= k2 < k && 0 <= c < 3 ==> spec_is_split_child(
                    #[trigger] entities@[s0.len() + 3 * k2 + c],
                    ev0[k2],
                    c,
                ),
            forall|i: int|
                s0.len() <= i < entities@.len() ==> (#[trigger] entities@[i]).is_live_meteor()
                    && entities@[i].projectile.is_none() && entities@[i].player.is_none()
                    && entities@[i].powerup.is_none() && entities@[i].projectile_timer.is_none(),
            forall|i: int| 0 <= i < entities@.len() ==> (#[trigger] entities@[i]).wf(),
        decreases ev0.len() - k,
    {
        let ev = split_events[k];
        let mut c: usize = 0;
        while c < 3
            invariant
                c <= 3,
                k < ev0.len(),
                split_events@ == ev0,
                ev == ev0[k as int],
                s0.len() + 3 * ev0.len() < usize::MAX,
                entities@.len() == s0.len() + 3 * k + c,
                forall|i: int| 0 <= i < s0.len() ==> entities@[i] == #[trigger] s0[i],
                forall|i: int| 0 <= i < s0.len() ==> (#[trigger] s0[i]).wf(),
                forall|i: int|
                    0 <= i < ev0.len() ==> (#[trigger] ev0[i]).translation.in_pos_range(),
                forall|k2: int, c2: int|
                    0 <= k2 < k && 0 <= c2 < 3 ==> spec_is_split_child(
                        #[trigger] entities@[s0.len() + 3 * k2 + c2],
                        ev0[k2],
                        c2,
                    ),
                forall|c2: int|
                    0 <= c2 < c ==> spec_is_split_child(
                        #[trigger] entities@[s0.len() + 3 * (k as int) + c2],
                        ev0[k as int],
                        c2,
                    ),
                forall|i: int|
                    s0.len() <= i < entities@.len() ==> (#[trigger] entities@[i]).is_live_meteor()
                        && entities@[i].projectile.is_none() && entities@[i].player.is_none()
                        && entities@[i].powerup.is_none() && entities@[i].projectile_timer.is_none(),
                forall|i: int| 0 <= i < entities@.len() ==> (#[trigger] entities@[i]).wf(),
            decreases 3 - c,
        {
            let speed_bound = (c as i64 + 1) * SPLIT_SPEED_STEP;
            let vx = rand_in_range(-speed_bound, speed_bound);
            let vy = rand_in_range(-speed_bound, speed_bound);
            let rotation = random_angle_jitter(1000);
            let rot_speed = rand_in_range(-50, 50);
            spawn_meteor(
                entities,
                ev.size,
                ev.translation,
                rotation,
                rot_speed,
                Vec2i { x: vx, y: vy },
                Vec2i { x: SPLIT_BOUNDS_OFFSET, y: SPLIT_BOUNDS_OFFSET },
            );
            c = c + 1;
        }
        k = k + 1;
    }
    split_events.clear();
}

} // verus!
