//! Kinematics: per-tick position integration, window warp, bounds despawn
//! (immediate and grace-timer) and rotation advance.
//!
//! Each system is one pass over the entity store. Removals flip the `alive`
//! flag only; no slot ever moves, so handles stay valid.

use vstd::prelude::*;

use crate::components::Position;
use crate::components::RotationAngle;
use crate::components::TAU_MRAD;
use crate::entity::Entity;
use crate::geometry::Vec2i;
use crate::geometry::POS_LIMIT;
use crate::resources::WindowDespawnBorder;
use crate::resources::WindowSize;

verus! {

/// Clamps a coordinate into the representable position range.
pub open spec fn spec_clamp_coord(v: int) -> int {
    if v > POS_LIMIT {
        POS_LIMIT as int
    } else if v < -POS_LIMIT {
        -POS_LIMIT as int
    } else {
        v
    }
}

/// The projected next position of an entity: current position plus
/// velocity, exact (no clamp). Only meaningful when both are present.
pub open spec fn spec_projected(e: Entity) -> Vec2i {
    Vec2i {
        x: (e.spec_pos().x + e.spec_vel().x) as i64,
        y: (e.spec_pos().y + e.spec_vel().y) as i64,
    }
}

/// Whether the movement pass updates this entity.
pub open spec fn spec_moves(e: Entity) -> bool {
    e.alive && e.position.is_some() && e.velocity.is_some()
}

/// The movement pass on one entity: position becomes position plus
/// velocity, clamped into the representable range; nothing else changes.
pub open spec fn spec_moved(e: Entity) -> Entity {
    if spec_moves(e) {
        Entity {
            position: Some(
                Position(
                    Vec2i {
                        x: spec_clamp_coord(e.spec_pos().x + e.spec_vel().x) as i64,
                        y: spec_clamp_coord(e.spec_pos().y + e.spec_vel().y) as i64,
                    },
                ),
            ),
            ..e
        }
    } else {
        e
    }
}

fn clamp_coord(v: i64) -> (r: i64)
    requires
        -4 * POS_LIMIT <= v <= 4 * POS_LIMIT,
    ensures
        r == spec_clamp_coord(v as int),
{
    if v > POS_LIMIT {
        POS_LIMIT
    } else if v < -POS_LIMIT {
        -POS_LIMIT
    } else {
        v
    }
}

/// The whole store after the movement pass.
pub open spec fn spec_move_pass(s: Seq<Entity>) -> Seq<Entity> {
    Seq::new(s.len(), |i: int| spec_moved(s[i]))
}

/// Integrates `next_position = position + velocity` once for every live
/// entity that has both components.
pub fn movement_system(entities: &mut Vec<Entity>)
    requires
        forall|i: int| 0 <= i < old(entities)@.len() ==> (#[trigger] old(entities)@[i]).wf(),
    ensures
        final(entities)@.len() == old(entities)@.len(),
        forall|i: int|
            0 <= i < old(entities)@.len() ==> final(entities)@[i] == spec_moved(
                #[trigger] old(entities)@[i],
            ),
        final(entities)@ == spec_move_pass(old(entities)@),
        forall|i: int| 0 <= i < final(entities)@.len() ==> (#[trigger] final(entities)@[i]).wf(),
{
    let ghost s0 = entities@;
    let mut i: usize = 0;
    while i < entities.len()
        invariant
            i <= s0.len(),
            entities@.len() == s0.len(),
            forall|j: int| 0 <= j < i ==> entities@[j] == spec_moved(#[trigger] s0[j]),
            forall|j: int| i <= j < s0.len() ==> entities@[j] == s0[j],
            forall|j: int| 0 <= j < s0.len() ==> (#[trigger] s0[j]).wf(),
        decreases s0.len() - i,
    {
        proof {
            assert(entities@[i as int] == s0[i as int]);
            assert(s0[i as int].wf());
        }
        let e = entities[i];
        if e.alive && e.position.is_some() && e.velocity.is_some() {
            let p = e.position.unwrap().0;
            let v = e.velocity.unwrap().0;
            let moved = Entity {
                position: Some(Position(Vec2i { x: clamp_coord(p.x + v.x), y: clamp_coord(p.y + v.y) })),
                ..e
            };
            entities.set(i, moved);
        }
        i = i + 1;
    }
    proof {
        assert forall|j: int| 0 <= j < entities@.len() implies (#[trigger] entities@[j]).wf() by {
            assert(s0[j].wf());
        }
        assert(entities@ =~= spec_move_pass(s0));
    }
}

/// One axis of the warp rule: a position that exceeds the high edge by
/// some distance reappears the same distance below the low edge, and
/// symmetrically; a position exactly at an edge does not wrap.
pub open spec fn spec_warp_axis(x: int, edge_lo: int, edge_hi: int) -> int {
    if x > edge_hi {
        edge_lo - (x - edge_hi)
    } else if x < edge_lo {
        edge_hi + (edge_lo - x)
    } else {
        x
    }
}

/// Whether the warp pass updates this entity.
pub open spec fn spec_warps(e: Entity) -> bool {
    e.alive && e.position.is_some() && e.warpable.is_some()
}

/// The warp pass on one entity: both axes wrapped independently across the
/// window half-extent widened by the entity's visual scale, then clamped
/// into the representable range.
pub open spec fn spec_warped(e: Entity, window: WindowSize) -> Entity {
    if spec_warps(e) {
        Entity {
            position: Some(
                Position(
                    Vec2i {
                        x: spec_clamp_coord(
                            spec_warp_axis(
                                e.spec_pos().x as int,
                                -(window.w / 2) - e.scale,
                                (window.w / 2) + e.scale,
                            ),
                        ) as i64,
                        y: spec_clamp_coord(
                            spec_warp_axis(
                                e.spec_pos().y as int,
                                -(window.h / 2) - e.scale,
                                (window.h / 2) + e.scale,
                            ),
                        ) as i64,
                    },
                ),
            ),
            ..e
        }
    } else {
        e
    }
}

fn warp_axis(x: i64, edge_lo: i64, edge_hi: i64) -> (r: i64)
    requires
        -4 * POS_LIMIT <= x <= 4 * POS_LIMIT,
        -2 * POS_LIMIT <= edge_lo <= edge_hi <= 2 * POS_LIMIT,
    ensures
        r == spec_warp_axis(x as int, edge_lo as int, edge_hi as int),
{
    if x > edge_hi {
        edge_lo - (x - edge_hi)
    } else if x < edge_lo {
        edge_hi + (edge_lo - x)
    } else {
        x
    }
}

/// The whole store after the warp pass.
pub open spec fn spec_warp_pass(s: Seq<Entity>, window: WindowSize) -> Seq<Entity> {
    Seq::new(s.len(), |i: int| spec_warped(s[i], window))
}

/// Wraps every live warp-policy entity whose position left the window
/// half-extent (widened by its visual scale) to the opposite edge,
/// independently per axis.
pub fn warp_if_reached_window_bounds_system(entities: &mut Vec<Entity>, wdw_size: &WindowSize)
    requires
        forall|i: int| 0 <= i < old(entities)@.len() ==> (#[trigger] old(entities)@[i]).wf(),
        wdw_size.wf(),
    ensures
        final(entities)@.len() == old(entities)@.len(),
        forall|i: int|
            0 <= i < old(entities)@.len() ==> final(entities)@[i] == spec_warped(
                #[trigger] old(entities)@[i],
                *wdw_size,
            ),
        final(entities)@ == spec_warp_pass(old(entities)@, *wdw_size),
        forall|i: int| 0 <= i < final(entities)@.len() ==> (#[trigger] final(entities)@[i]).wf(),
{
    let ghost s0 = entities@;
    let right_side = wdw_size.w / 2;
    let top = wdw_size.h / 2;
    let mut i: usize = 0;
    while i < entities.len()
        invariant
            i <= s0.len(),
            entities@.len() == s0.len(),
            right_side == wdw_size.w / 2,
            top == wdw_size.h / 2,
            wdw_size.wf(),
            forall|j: int| 0 <= j < i ==> entities@[j] == spec_warped(#[trigger] s0[j], *wdw_size),
            forall|j: int| i <= j < s0.len() ==> entities@[j] == s0[j],
            forall|j: int| 0 <= j < s0.len() ==> (#[trigger] s0[j]).wf(),
        decreases s0.len() - i,
    {
        proof {
            assert(entities@[i as int] == s0[i as int]);
            assert(s0[i as int].wf());
        }
        let e = entities[i];
        if e.alive && e.position.is_some() && e.warpable.is_some() {
            let p = e.position.unwrap().0;
            let x = warp_axis(p.x, -right_side - e.scale, right_side + e.scale);
            let y = warp_axis(p.y, -top - e.scale, top + e.scale);
            let warped = Entity {
                position: Some(Position(Vec2i { x: clamp_coord(x), y: clamp_coord(y) })),
                ..e
            };
            entities.set(i, warped);
        }
        i = i + 1;
    }
    proof {
        assert forall|j: int| 0 <= j < entities@.len() implies (#[trigger] entities@[j]).wf() by {
            assert(s0[j].wf());
        }
        assert(entities@ =~= spec_warp_pass(s0, *wdw_size));
    }
}

/// Whether the projected next position of this entity lies beyond the
/// despawn border, widened per axis by the given offset.
pub open spec fn spec_out_of_border(
    projected: Vec2i,
    offset: Vec2i,
    border: WindowDespawnBorder,
) -> bool {
    ||| projected.x > border.right + offset.x
    ||| projected.x < border.left - offset.x
    ||| projected.y > border.top + offset.y
    ||| projected.y < border.bottom - offset.y
}

/// Whether the immediate-despawn pass removes this entity.
pub open spec fn spec_despawns_now(e: Entity, border: WindowDespawnBorder) -> bool {
    &&& e.alive
    &&& e.position.is_some()
    &&& e.velocity.is_some()
    &&& e.bounds_despawn.is_some()
    &&& spec_out_of_border(spec_projected(e), (e.bounds_despawn->0).0, border)
}

/// The whole store after the immediate bounds-despawn pass.
pub open spec fn spec_bounds_pass(s: Seq<Entity>, border: WindowDespawnBorder) -> Seq<Entity> {
    Seq::new(
        s.len(),
        |i: int|
            if spec_despawns_now(s[i], border) {
                s[i].spec_killed()
            } else {
                s[i]
            },
    )
}

/// Removes every live immediate-despawn entity whose projected next
/// position lies beyond the despawn border. All entities are checked each
/// tick.
pub fn despawn_if_reached_bounds_system(entities: &mut Vec<Entity>, border: &WindowDespawnBorder)
    requires
        forall|i: int| 0 <= i < old(entities)@.len() ==> (#[trigger] old(entities)@[i]).wf(),
        border.wf(),
    ensures
        final(entities)@.len() == old(entities)@.len(),
        forall|i: int|
            0 <= i < old(entities)@.len() ==> final(entities)@[i] == (if spec_despawns_now(
                old(entities)@[i],
                *border,
            ) {
                (#[trigger] old(entities)@[i]).spec_killed()
            } else {
                old(entities)@[i]
            }),
        final(entities)@ == spec_bounds_pass(old(entities)@, *border),
        forall|i: int| 0 <= i < final(entities)@.len() ==> (#[trigger] final(entities)@[i]).wf(),
{
    let ghost s0 = entities@;
    let mut i: usize = 0;
    while i < entities.len()
        invariant
            i <= s0.len(),
            entities@.len() == s0.len(),
            border.wf(),
            forall|j: int|
                0 <= j < i ==> entities@[j] == (if spec_despawns_now(s0[j], *border) {
                    (#[trigger] s0[j]).spec_killed()
                } else {
                    s0[j]
                }),
            forall|j: int| i <= j < s0.len() ==> entities@[j] == s0[j],
            forall|j: int| 0 <= j < s0.len() ==> (#[trigger] s0[j]).wf(),
        decreases s0.len() - i,
    {
        proof {
            assert(entities@[i as int] == s0[i as int]);
            assert(s0[i as int].wf());
        }
        let e = entities[i];
        if e.alive && e.position.is_some() && e.velocity.is_some() && e.bounds_despawn.is_some() {
            let p = e.position.unwrap().0;
            let v = e.velocity.unwrap().0;
            let off = e.bounds_despawn.unwrap().0;
            let nx = p.x + v.x;
            let ny = p.y + v.y;
            let out = nx > border.right + off.x || nx < border.left - off.x || ny > border.top
                + off.y || ny < border.bottom - off.y;
            if out {
                entities.set(i, Entity { alive: false, ..e });
            }
        }
        i = i + 1;
    }
    proof {
        assert forall|j: int| 0 <= j < entities@.len() implies (#[trigger] entities@[j]).wf() by {
            assert(s0[j].wf());
        }
        assert(entities@ =~= spec_bounds_pass(s0, *border));
    }
}

/// One step of the grace-timer despawn policy applied to an entity that
/// carries it: the grace timer advances; once it has finished, leaving the
/// border latches the despawn flag and restarts the countdown; while the
/// flag is latched the countdown advances and removes the entity when it
/// finishes. The latch is never cleared, so re-entering the border does
/// not cancel the countdown.
pub open spec fn spec_bounds_timer_step(
    e: Entity,
    delta_ms: u64,
    border: WindowDespawnBorder,
) -> Entity {
    let t = e.bounds_despawn_timer->0;
    let grace = t.initial_spawn_timer.spec_ticked(delta_ms);
    let out = spec_out_of_border(spec_projected(e), t.bounds.0, border);
    let latch_now = grace.spec_finished() && out && !t.should_despawn;
    let latched = t.should_despawn || latch_now;
    let countdown0 = if latch_now {
        t.despawn_timer.spec_reset()
    } else {
        t.despawn_timer
    };
    let countdown = if latched {
        countdown0.spec_ticked(delta_ms)
    } else {
        countdown0
    };
    let dies = latched && countdown.spec_finished();
    Entity {
        alive: !dies,
        bounds_despawn_timer: Some(
            crate::components::BoundsDespawnableWithTimer {
                bounds: t.bounds,
                initial_spawn_timer: grace,
                despawn_timer: countdown,
                should_despawn: latched,
            },
        ),
        ..e
    }
}

/// Whether the grace-timer despawn pass touches this entity.
pub open spec fn spec_bounds_timer_applies(e: Entity) -> bool {
    e.alive && e.position.is_some() && e.velocity.is_some() && e.bounds_despawn_timer.is_some()
}

/// The whole store after the grace-timer despawn pass.
pub open spec fn spec_bounds_timer_pass(
    s: Seq<Entity>,
    delta_ms: u64,
    border: WindowDespawnBorder,
) -> Seq<Entity> {
    Seq::new(
        s.len(),
        |i: int|
            if spec_bounds_timer_applies(s[i]) {
                spec_bounds_timer_step(s[i], delta_ms, border)
            } else {
                s[i]
            },
    )
}

/// Advances the grace-timer despawn policy of every live entity that
/// carries one: the bounds check is suppressed until the grace timer has
/// elapsed; once the entity is found beyond the border the despawn
/// countdown starts and always runs to completion.
pub fn despawn_if_reached_bounds_timer_system(
    entities: &mut Vec<Entity>,
    delta_ms: u64,
    border: &WindowDespawnBorder,
)
    requires
        forall|i: int| 0 <= i < old(entities)@.len() ==> (#[trigger] old(entities)@[i]).wf(),
        border.wf(),
    ensures
        final(entities)@.len() == old(entities)@.len(),
        forall|i: int|
            0 <= i < old(entities)@.len() ==> final(entities)@[i] == (
            if spec_bounds_timer_applies(old(entities)@[i]) {
                spec_bounds_timer_step(#[trigger] old(entities)@[i], delta_ms, *border)
            } else {
                old(entities)@[i]
            }),
        final(entities)@ == spec_bounds_timer_pass(old(entities)@, delta_ms, *border),
        forall|i: int| 0 <= i < final(entities)@.len() ==> (#[trigger] final(entities)@[i]).wf(),
{
    let ghost s0 = entities@;
    let mut i: usize = 0;
    while i < entities.len()
        invariant
            i <= s0.len(),
            entities@.len() == s0.len(),
            border.wf(),
            forall|j: int|
                0 <= j < i ==> entities@[j] == (if spec_bounds_timer_applies(s0[j]) {
                    spec_bounds_timer_step(#[trigger] s0[j], delta_ms, *border)
                } else {
                    s0[j]
                }),
            forall|j: int| i <= j < s0.len() ==> entities@[j] == s0[j],
            forall|j: int| 0 <= j < s0.len() ==> (#[trigger] s0[j]).wf(),
        decreases s0.len() - i,
    {
        proof {
            assert(entities@[i as int] == s0[i as int]);
            assert(s0[i as int].wf());
        }
        let e = entities[i];
        if e.alive && e.position.is_some() && e.velocity.is_some()
            && e.bounds_despawn_timer.is_some() {
            let mut t = e.bounds_despawn_timer.unwrap();
            t.initial_spawn_timer.tick(delta_ms);
            if t.initial_spawn_timer.finished() {
                let p = e.position.unwrap().0;
                let v = e.velocity.unwrap().0;
                let off = t.bounds.0;
                let nx = p.x + v.x;
                let ny = p.y + v.y;
                let out = nx > border.right + off.x || nx < border.left - off.x || ny > border.top
                    + off.y || ny < border.bottom - off.y;
                if out && !t.should_despawn {
                    t.should_despawn = true;
                    t.despawn_timer.reset();
                }
            }
            let mut still_alive = true;
            if t.should_despawn {
                t.despawn_timer.tick(delta_ms);
                if t.despawn_timer.finished() {
                    still_alive = false;
                }
            }
            entities.set(i, Entity { alive: still_alive, bounds_despawn_timer: Some(t), ..e });
        }
        i = i + 1;
    }
    proof {
        assert forall|j: int| 0 <= j < entities@.len() implies (#[trigger] entities@[j]).wf() by {
            assert(s0[j].wf());
        }
        assert(entities@ =~= spec_bounds_timer_pass(s0, delta_ms, *border));
    }
}

/// Bounds-wrap law: a position exceeding the high edge by some distance
/// reappears the same distance outside the low edge, and symmetrically;
/// a position exactly at an edge does not wrap (strict inequality).
pub proof fn lemma_bounds_wrap(edge_lo: int, edge_hi: int, d: int)
    requires
        edge_lo <= edge_hi,
        d > 0,
    ensures
        spec_warp_axis(edge_hi + d, edge_lo, edge_hi) == edge_lo - d,
        spec_warp_axis(edge_lo - d, edge_lo, edge_hi) == edge_hi + d,
        spec_warp_axis(edge_hi, edge_lo, edge_hi) == edge_hi,
        spec_warp_axis(edge_lo, edge_lo, edge_hi) == edge_lo,
{
}

/// Despawn-grace law: while the initial grace timer has not yet elapsed,
/// the grace-timer pass never removes the entity — even one that has sat
/// out of bounds since it spawned — and does not latch its countdown, so
/// applying the pass tick after tick cannot remove the entity until the
/// accumulated time reaches the grace duration.
pub proof fn lemma_despawn_grace(e: Entity, delta_ms: u64, border: WindowDespawnBorder)
    requires
        spec_bounds_timer_applies(e),
        !(e.bounds_despawn_timer->0).should_despawn,
        !(e.bounds_despawn_timer->0).initial_spawn_timer.spec_ticked(delta_ms).spec_finished(),
    ensures
        spec_bounds_timer_step(e, delta_ms, border).alive,
        !(spec_bounds_timer_step(e, delta_ms, border).bounds_despawn_timer->0).should_despawn,
        (spec_bounds_timer_step(e, delta_ms, border).bounds_despawn_timer->0).initial_spawn_timer
            == (e.bounds_despawn_timer->0).initial_spawn_timer.spec_ticked(delta_ms),
        (spec_bounds_timer_step(e, delta_ms, border).bounds_despawn_timer->0).bounds == (
        e.bounds_despawn_timer->0).bounds,
{
}

/// Wraps a rotation angle back into `[0, TAU_MRAD)` after one additive
/// step.
pub open spec fn spec_wrap_angle(a: int) -> int {
    if a >= TAU_MRAD {
        a - TAU_MRAD
    } else if a < 0 {
        a + TAU_MRAD
    } else {
        a
    }
}

/// Wraps an angle that is off by at most one turn back into
/// `[0, TAU_MRAD)`.
pub fn wrap_angle(a: i64) -> (r: i64)
    requires
        -TAU_MRAD <= a < 2 * TAU_MRAD,
    ensures
        r == spec_wrap_angle(a as int),
        0 <= r < TAU_MRAD,
{
    if a >= TAU_MRAD {
        a - TAU_MRAD
    } else if a < 0 {
        a + TAU_MRAD
    } else {
        a
    }
}

/// The spin carried by an entity's category tag, if any.
pub open spec fn spec_spin_of(e: Entity) -> int {
    if e.meteor.is_some() {
        e.meteor->0.rotation_speed as int
    } else if e.powerup.is_some() {
        e.powerup->0.rotation_speed as int
    } else {
        0
    }
}

/// Whether the rotation pass updates this entity.
pub open spec fn spec_rotates(e: Entity) -> bool {
    e.alive && e.rotation.is_some() && (e.meteor.is_some() || e.powerup.is_some())
}

/// The rotation pass on one entity.
pub open spec fn spec_rotated(e: Entity) -> Entity {
    if spec_rotates(e) {
        Entity {
            rotation: Some(
                RotationAngle(spec_wrap_angle(e.spec_rot() + spec_spin_of(e)) as i64),
            ),
            ..e
        }
    } else {
        e
    }
}

/// The whole store after the rotation pass.
pub open spec fn spec_rotate_pass(s: Seq<Entity>) -> Seq<Entity> {
    Seq::new(s.len(), |i: int| spec_rotated(s[i]))
}

/// Adds each meteor's and power-up's rotation speed to its rotation angle,
/// keeping angles within one full turn.
pub fn update_rotation_system(entities: &mut Vec<Entity>)
    requires
        forall|i: int| 0 <= i < old(entities)@.len() ==> (#[trigger] old(entities)@[i]).wf(),
    ensures
        final(entities)@.len() == old(entities)@.len(),
        forall|i: int|
            0 <= i < old(entities)@.len() ==> final(entities)@[i] == spec_rotated(
                #[trigger] old(entities)@[i],
            ),
        final(entities)@ == spec_rotate_pass(old(entities)@),
        forall|i: int| 0 <= i < final(entities)@.len() ==> (#[trigger] final(entities)@[i]).wf(),
{
    let ghost s0 = entities@;
    let mut i: usize = 0;
    while i < entities.len()
        invariant
            i <= s0.len(),
            entities@.len() == s0.len(),
            forall|j: int| 0 <= j < i ==> entities@[j] == spec_rotated(#[trigger] s0[j]),
            forall|j: int| i <= j < s0.len() ==> entities@[j] == s0[j],
            forall|j: int| 0 <= j < s0.len() ==> (#[trigger] s0[j]).wf(),
        decreases s0.len() - i,
    {
        proof {
            assert(entities@[i as int] == s0[i as int]);
            assert(s0[i as int].wf());
        }
        let e = entities[i];
        if e.alive && e.rotation.is_some() && (e.meteor.is_some() || e.powerup.is_some()) {
            let spin = if e.meteor.is_some() {
                e.meteor.unwrap().rotation_speed
            } else {
                e.powerup.unwrap().rotation_speed
            };
            let sum = e.rotation.unwrap().0 + spin;
            let wrapped = if sum >= TAU_MRAD {
                sum - TAU_MRAD
            } else if sum < 0 {
                sum + TAU_MRAD
            } else {
                sum
            };
            entities.set(i, Entity { rotation: Some(RotationAngle(wrapped)), ..e });
        }
        i = i + 1;
    }
    proof {
        assert forall|j: int| 0 <= j < entities@.len() implies (#[trigger] entities@[j]).wf() by {
            assert(s0[j].wf());
        }
        assert(entities@ =~= spec_rotate_pass(s0));
    }
}

} // verus!
