//! The collision engine: pairwise AABB overlap scans between actor
//! categories and the state changes they trigger.
//!
//! The engine runs after kinematics, so all tests use this tick's
//! positions. Detection is decoupled from damage application: hazard
//! overlaps record damage events, and one authoritative application step
//! consumes them in insertion order. An entity removed during a pass is
//! skipped by every later check of the same tick.

use vstd::prelude::*;

use crate::components::DamageCollision;
use crate::components::MeteorCollision;
use crate::components::ShipComponent;
use crate::entity::Entity;
use crate::events::PlayerDeadEvent;
use crate::geometry::scaled_extent;
use crate::geometry::spec_abs;
use crate::geometry::spec_scaled;
use crate::geometry::Vec2i;
use crate::geometry::aabb_collide;
use crate::resources::Life;

verus! {

/// Effective width of an entity's hit box: the stored extent scaled by the
/// entity's visual scale.
pub open spec fn spec_hitbox_w(e: Entity) -> int {
    spec_scaled((e.hitbox->0).0.x as int, e.scale as int)
}

/// Effective height of an entity's hit box.
pub open spec fn spec_hitbox_h(e: Entity) -> int {
    spec_scaled((e.hitbox->0).0.y as int, e.scale as int)
}

/// Whether two entities overlap: both must carry a position and a hit box,
/// and their scaled boxes must overlap on both axes simultaneously
/// (strict). Only position, hit box and scale enter the test.
pub open spec fn spec_hit(a: Entity, b: Entity) -> bool {
    &&& a.position.is_some() && a.hitbox.is_some()
    &&& b.position.is_some() && b.hitbox.is_some()
    &&& 2 * spec_abs(a.spec_pos().x - b.spec_pos().x) < spec_hitbox_w(a) + spec_hitbox_w(b)
    &&& 2 * spec_abs(a.spec_pos().y - b.spec_pos().y) < spec_hitbox_h(a) + spec_hitbox_h(b)
}

/// The AABB overlap test between two entities, over their scaled hit
/// boxes.
pub fn entities_collide(a: &Entity, b: &Entity) -> (r: bool)
    requires
        a.wf(),
        b.wf(),
    ensures
        r == spec_hit(*a, *b),
{
    if a.position.is_some() && a.hitbox.is_some() && b.position.is_some() && b.hitbox.is_some() {
        let pa = a.position.unwrap().0;
        let pb = b.position.unwrap().0;
        let ba = a.hitbox.unwrap().0;
        let bb = b.hitbox.unwrap().0;
        let sa = Vec2i { x: scaled_extent(ba.x, a.scale), y: scaled_extent(ba.y, a.scale) };
        let sb = Vec2i { x: scaled_extent(bb.x, b.scale), y: scaled_extent(bb.y, b.scale) };
        aabb_collide(pa, sa, pb, sb)
    } else {
        false
    }
}

/// Whether `p` is the first live player slot of the store: the one every
/// player-scoped system acts on.
pub open spec fn spec_is_first_live_player(s: Seq<Entity>, p: int) -> bool {
    &&& 0 <= p < s.len()
    &&& s[p].is_live_player()
    &&& forall|k: int| 0 <= k < p ==> !(#[trigger] s[k]).is_live_player()
}

/// Whether the store holds any live player.
pub open spec fn spec_has_live_player(s: Seq<Entity>) -> bool {
    exists|i: int| 0 <= i < s.len() && (#[trigger] s[i]).is_live_player()
}

/// The first live player slot, as a spec value; unique by
/// `lemma_first_live_player_idx`. Meaningful only when a live player
/// exists.
pub open spec fn spec_first_live_player_idx(s: Seq<Entity>) -> int {
    choose|p: int| spec_is_first_live_player(s, p)
}

/// Any slot satisfying the first-live-player description is the one the
/// choice picks.
pub proof fn lemma_first_live_player_idx(s: Seq<Entity>, p: int)
    requires
        spec_is_first_live_player(s, p),
    ensures
        spec_first_live_player_idx(s) == p,
{
    assert(exists|r: int| spec_is_first_live_player(s, r));
    let q = spec_first_live_player_idx(s);
    assert(spec_is_first_live_player(s, q));
    if q < p {
        assert(!s[q].is_live_player());
    } else if p < q {
        assert(!s[p].is_live_player());
    }
}

/// A store with a live player has a first one, and the choice picks it.
pub proof fn lemma_has_first_live_player(s: Seq<Entity>)
    requires
        spec_has_live_player(s),
    ensures
        spec_is_first_live_player(s, spec_first_live_player_idx(s)),
        0 <= spec_first_live_player_idx(s) < s.len(),
    decreases s.len(),
{
    let w = choose|i: int| 0 <= i < s.len() && (#[trigger] s[i]).is_live_player();
    assert(s[w].is_live_player());
    if s[0].is_live_player() {
        lemma_first_live_player_idx(s, 0);
    } else {
        let t = s.subrange(1, s.len() as int);
        assert(w >= 1);
        assert(t[w - 1] == s[w]);
        assert(spec_has_live_player(t));
        lemma_has_first_live_player(t);
        let q = spec_first_live_player_idx(t);
        assert(spec_is_first_live_player(s, q + 1)) by {
            assert(s[q + 1] == t[q]);
            assert forall|k: int| 0 <= k < q + 1 implies !(#[trigger] s[k]).is_live_player() by {
                if k >= 1 {
                    assert(s[k] == t[k - 1]);
                }
            }
        }
        lemma_first_live_player_idx(s, q + 1);
    }
}

/// Finds the first live player, if any. Player-scoped systems degrade to a
/// no-op when none exists.
pub fn find_first_live_player(entities: &Vec<Entity>) -> (r: Option<usize>)
    ensures
        match r {
            Some(p) => spec_is_first_live_player(entities@, p as int),
            None => !spec_has_live_player(entities@),
        },
{
    let mut i: usize = 0;
    while i < entities.len()
        invariant
            i <= entities@.len(),
            forall|k: int| 0 <= k < i ==> !(#[trigger] entities@[k]).is_live_player(),
        decreases entities@.len() - i,
    {
        let e = entities[i];
        if e.alive && e.player.is_some() {
            return Some(i);
        }
        i = i + 1;
    }
    None
}

/// The ship type awarded by the last live power-up among the first `upto`
/// slots that overlaps the player record `player`, if any: with several
/// simultaneous pickups, later slots overwrite earlier ones.
pub open spec fn spec_last_hit_target(s: Seq<Entity>, player: Entity, upto: int) -> Option<
    crate::ShipType,
>
    decreases upto,
{
    if upto <= 0 {
        None
    } else if s[upto - 1].is_live_powerup() && spec_hit(player, s[upto - 1]) {
        Some((s[upto - 1].powerup->0).spec_ship_change_type())
    } else {
        spec_last_hit_target(s, player, upto - 1)
    }
}

/// How the power-up pickup pass leaves the player's ship component.
pub open spec fn spec_picked_ship(s: Seq<Entity>, player: Entity) -> Option<ShipComponent> {
    match spec_last_hit_target(s, player, s.len() as int) {
        Some(t) => Some(
            ShipComponent { ship_type: t, stats: ShipComponent::spec_stats_from_type(t) },
        ),
        None => player.ship,
    }
}

/// The whole store after the power-up pickup pass.
pub open spec fn spec_pickup_pass(s: Seq<Entity>) -> Seq<Entity> {
    if !spec_has_live_player(s) {
        s
    } else {
        let p = spec_first_live_player_idx(s);
        Seq::new(
            s.len(),
            |u: int|
                if u == p {
                    Entity { ship: spec_picked_ship(s, s[p]), ..s[p] }
                } else if s[u].is_live_powerup() && spec_hit(s[p], s[u]) {
                    s[u].spec_killed()
                } else {
                    s[u]
                },
        )
    }
}

/// Player picks up power-ups: every live power-up overlapping the player
/// is removed, and the player's ship type becomes the award of the last
/// one picked (its statistics re-selected to match). Without a live player
/// nothing changes.
pub fn player_collide_powerup_system(entities: &mut Vec<Entity>)
    requires
        forall|i: int| 0 <= i < old(entities)@.len() ==> (#[trigger] old(entities)@[i]).wf(),
    ensures
        final(entities)@.len() == old(entities)@.len(),
        !spec_has_live_player(old(entities)@) ==> final(entities)@ == old(entities)@,
        forall|p: int|
            spec_is_first_live_player(old(entities)@, p) ==> {
                &&& final(entities)@[p] == (Entity {
                    ship: spec_picked_ship(old(entities)@, old(entities)@[p]),
                    ..old(entities)@[p]
                })
                &&& forall|u: int|
                    0 <= u < old(entities)@.len() && u != p ==> final(entities)@[u] == (
                    if (#[trigger] old(entities)@[u]).is_live_powerup() && spec_hit(
                        old(entities)@[p],
                        old(entities)@[u],
                    ) {
                        old(entities)@[u].spec_killed()
                    } else {
                        old(entities)@[u]
                    })
            },
        final(entities)@ == spec_pickup_pass(old(entities)@),
        forall|i: int| 0 <= i < final(entities)@.len() ==> (#[trigger] final(entities)@[i]).wf(),
{
    let ghost s0 = entities@;
    let player_idx = find_first_live_player(entities);
    if player_idx.is_none() {
        return ;
    }
    let p = player_idx.unwrap();
    let ghost player0 = s0[p as int];
    let mut u: usize = 0;
    while u < entities.len()
        invariant
            u <= s0.len(),
            entities@.len() == s0.len(),
            p < s0.len(),
            spec_is_first_live_player(s0, p as int),
            player0 == s0[p as int],
            forall|j: int| 0 <= j < s0.len() ==> (#[trigger] s0[j]).wf(),
            entities@[p as int] == (Entity {
                ship: match spec_last_hit_target(s0, player0, u as int) {
                    Some(t) => Some(
                        ShipComponent {
                            ship_type: t,
                            stats: ShipComponent::spec_stats_from_type(t),
                        },
                    ),
                    None => player0.ship,
                },
                ..player0
            }),
            forall|j: int|
                0 <= j < u && j != p ==> entities@[j] == (if (
                #[trigger] s0[j]).is_live_powerup() && spec_hit(player0, s0[j]) {
                    s0[j].spec_killed()
                } else {
                    s0[j]
                }),
            forall|j: int| u <= j < s0.len() && j != p ==> entities@[j] == s0[j],
        decreases s0.len() - u,
    {
        proof {
            assert(s0[u as int].wf());
            assert(s0[p as int].wf());
        }
        let player = entities[p];
        if u != p {
            let e = entities[u];
            if e.alive && e.powerup.is_some() {
                proof {
                    assert(entities@[u as int] == s0[u as int]);
                    // the hit test ignores the ship field, which is the
                    // only field of the player record this pass changes
                    assert(spec_hit(player, e) == spec_hit(player0, s0[u as int]));
                }
                if entities_collide(&player, &e) {
                    let target = e.powerup.unwrap().get_ship_change_type();
                    entities.set(u, Entity { alive: false, ..e });
                    let p_rec = entities[p];
                    entities.set(
                        p,
                        Entity { ship: Some(ShipComponent::new_type(target)), ..p_rec },
                    );
                }
            }
        }
        u = u + 1;
    }
    proof {
        assert(entities@[p as int] == (Entity {
            ship: spec_picked_ship(s0, player0),
            ..player0
        }));
        assert forall|j: int| 0 <= j < entities@.len() implies (#[trigger] entities@[j]).wf() by {
            assert(s0[j].wf());
        }
        lemma_first_live_player_idx(s0, p as int);
        assert forall|u2: int|
            0 <= u2 < entities@.len() implies entities@[u2] == spec_pickup_pass(s0)[u2] by {}
        assert(entities@ =~= spec_pickup_pass(s0));
    }
}

/// Whether the hazard pass removes slot entity `e` on account of the given
/// player record: `e` is live, carries collision-despawn behaviour and
/// overlaps the player.
pub open spec fn spec_hazard_hit(player: Entity, e: Entity) -> bool {
    e.alive && e.collision_damage.is_some() && spec_hit(player, e)
}

/// The damage events the hazard pass appends while scanning the first
/// `upto` slots, in slot order: one event per removed hazard that is
/// flagged to inflict damage, carrying its magnitude.
pub open spec fn spec_damage_emitted(s: Seq<Entity>, player: Entity, upto: int) -> Seq<
    DamageCollision,
>
    decreases upto,
{
    if upto <= 0 {
        Seq::empty()
    } else {
        let rest = spec_damage_emitted(s, player, upto - 1);
        let e = s[upto - 1];
        if spec_hazard_hit(player, e) && (e.collision_damage->0).should_damage {
            rest.push(DamageCollision((e.collision_damage->0).damage))
        } else {
            rest
        }
    }
}

/// The whole store after the hazard pass.
pub open spec fn spec_hazard_pass(s: Seq<Entity>) -> Seq<Entity> {
    if !spec_has_live_player(s) {
        s
    } else {
        let p = spec_first_live_player_idx(s);
        Seq::new(
            s.len(),
            |u: int|
                if spec_hazard_hit(s[p], s[u]) {
                    s[u].spec_killed()
                } else {
                    s[u]
                },
        )
    }
}

/// The damage events the hazard pass appends, in slot order.
pub open spec fn spec_hazard_damage(s: Seq<Entity>) -> Seq<DamageCollision> {
    if !spec_has_live_player(s) {
        Seq::empty()
    } else {
        spec_damage_emitted(s, s[spec_first_live_player_idx(s)], s.len() as int)
    }
}

/// Player versus damage-capable entities: every live hazard overlapping
/// the player is removed, and each removed hazard that is flagged to
/// inflict damage appends a damage event (in slot order) instead of
/// mutating life directly. Without a live player nothing changes.
pub fn player_collide_despawnable_system(
    entities: &mut Vec<Entity>,
    damage_events: &mut Vec<DamageCollision>,
)
    requires
        forall|i: int| 0 <= i < old(entities)@.len() ==> (#[trigger] old(entities)@[i]).wf(),
        forall|i: int|
            0 <= i < old(damage_events)@.len() ==> (#[trigger] old(damage_events)@[i]).0 >= 0,
    ensures
        final(entities)@.len() == old(entities)@.len(),
        !spec_has_live_player(old(entities)@) ==> final(entities)@ == old(entities)@
            && final(damage_events)@ == old(damage_events)@,
        forall|p: int|
            spec_is_first_live_player(old(entities)@, p) ==> {
                &&& forall|u: int|
                    0 <= u < old(entities)@.len() ==> final(entities)@[u] == (
                    if spec_hazard_hit(old(entities)@[p], #[trigger] old(entities)@[u]) {
                        old(entities)@[u].spec_killed()
                    } else {
                        old(entities)@[u]
                    })
                &&& final(damage_events)@ == old(damage_events)@ + spec_damage_emitted(
                    old(entities)@,
                    old(entities)@[p],
                    old(entities)@.len() as int,
                )
            },
        final(entities)@ == spec_hazard_pass(old(entities)@),
        final(damage_events)@ == old(damage_events)@ + spec_hazard_damage(old(entities)@),
        forall|i: int| 0 <= i < final(entities)@.len() ==> (#[trigger] final(entities)@[i]).wf(),
        forall|i: int|
            0 <= i < final(damage_events)@.len() ==> (#[trigger] final(damage_events)@[i]).0 >= 0,
{
    let ghost s0 = entities@;
    let ghost ev0 = damage_events@;
    let player_idx = find_first_live_player(entities);
    if player_idx.is_none() {
        proof {
            assert(damage_events@ =~= ev0 + spec_hazard_damage(s0));
        }
        return ;
    }
    let p = player_idx.unwrap();
    let player = entities[p];
    let ghost player0 = s0[p as int];
    let mut u: usize = 0;
    while u < entities.len()
        invariant
            u <= s0.len(),
            entities@.len() == s0.len(),
            p < s0.len(),
            player == player0,
            player0 == s0[p as int],
            forall|j: int| 0 <= j < s0.len() ==> (#[trigger] s0[j]).wf(),
            forall|j: int|
                0 <= j < u ==> entities@[j] == (if spec_hazard_hit(player0, #[trigger] s0[j]) {
                    s0[j].spec_killed()
                } else {
                    s0[j]
                }),
            forall|j: int| u <= j < s0.len() ==> entities@[j] == s0[j],
            damage_events@ == ev0 + spec_damage_emitted(s0, player0, u as int),
        decreases s0.len() - u,
    {
        proof {
            assert(s0[u as int].wf());
            assert(s0[p as int].wf());
        }
        let e = entities[u];
        if e.alive && e.collision_damage.is_some() {
            if entities_collide(&player, &e) {
                entities.set(u, Entity { alive: false, ..e });
                let cd = e.collision_damage.unwrap();
                if cd.should_damage {
                    damage_events.push(DamageCollision(cd.damage));
                }
            }
        }
        u = u + 1;
    }
    proof {
        assert forall|j: int| 0 <= j < entities@.len() implies (#[trigger] entities@[j]).wf() by {
            assert(s0[j].wf());
        }
        lemma_damage_emitted_nonneg(s0, player0, s0.len() as int);
        assert forall|j: int|
            0 <= j < damage_events@.len() implies (#[trigger] damage_events@[j]).0 >= 0 by {
            let emitted = spec_damage_emitted(s0, player0, s0.len() as int);
            if j < ev0.len() {
                assert(damage_events@[j] == ev0[j]);
            } else {
                assert(damage_events@[j] == emitted[j - ev0.len()]);
            }
        }
        lemma_first_live_player_idx(s0, p as int);
        assert forall|u2: int|
            0 <= u2 < entities@.len() implies entities@[u2] == spec_hazard_pass(s0)[u2] by {}
        assert(entities@ =~= spec_hazard_pass(s0));
    }
}

/// Every event the hazard pass emits carries a non-negative magnitude,
/// because well-formed hazards store non-negative damage.
proof fn lemma_damage_emitted_nonneg(s: Seq<Entity>, player: Entity, upto: int)
    requires
        upto <= s.len(),
        forall|i: int| 0 <= i < s.len() ==> (#[trigger] s[i]).wf(),
    ensures
        forall|i: int|
            0 <= i < spec_damage_emitted(s, player, upto).len() ==> (#[trigger] spec_damage_emitted(
                s,
                player,
                upto,
            )[i]).0 >= 0,
    decreases upto,
{
    if upto > 0 {
        lemma_damage_emitted_nonneg(s, player, upto - 1);
        let cur = spec_damage_emitted(s, player, upto);
        let rest = spec_damage_emitted(s, player, upto - 1);
        if 0 <= upto - 1 < s.len() {
            assert(s[upto - 1].wf());
        }
        assert forall|i: int| 0 <= i < cur.len() implies (#[trigger] cur[i]).0 >= 0 by {
            if i < rest.len() {
                assert(cur[i] == rest[i]);
            }
        }
    }
}

/// The life pool after consuming a queue of damage events in insertion
/// order, clamping at zero; zero is absorbing.
pub open spec fn spec_apply_damage(life: int, events: Seq<DamageCollision>) -> int
    decreases events.len(),
{
    if events.len() == 0 {
        life
    } else {
        let after = if life - events[0].0 <= 0 {
            0int
        } else {
            life - events[0].0
        };
        spec_apply_damage(after, events.skip(1))
    }
}

/// Once the pool is empty it stays empty, whatever non-negative damage is
/// still pending.
pub proof fn lemma_apply_damage_zero(events: Seq<DamageCollision>)
    requires
        forall|i: int| 0 <= i < events.len() ==> (#[trigger] events[i]).0 >= 0,
    ensures
        spec_apply_damage(0, events) == 0,
    decreases events.len(),
{
    if events.len() > 0 {
        assert(events[0].0 >= 0);
        assert forall|i: int|
            0 <= i < events.skip(1).len() implies (#[trigger] events.skip(1)[i]).0 >= 0 by {
            assert(events.skip(1)[i] == events[i + 1]);
        }
        lemma_apply_damage_zero(events.skip(1));
    }
}

/// Damage-clamp law: applying any queue of non-negative damage events
/// leaves the life pool between zero and its starting value — stored life
/// never goes negative.
pub proof fn lemma_damage_clamp(life: int, events: Seq<DamageCollision>)
    requires
        life >= 0,
        forall|i: int| 0 <= i < events.len() ==> (#[trigger] events[i]).0 >= 0,
    ensures
        0 <= spec_apply_damage(life, events) <= life,
    decreases events.len(),
{
    if events.len() > 0 {
        let after = if life - events[0].0 <= 0 {
            0int
        } else {
            life - events[0].0
        };
        assert forall|i: int|
            0 <= i < events.skip(1).len() implies (#[trigger] events.skip(1)[i]).0 >= 0 by {
            assert(events.skip(1)[i] == events[i + 1]);
        }
        lemma_damage_clamp(after, events.skip(1));
    }
}

/// Damage application: consumes all pending damage events in insertion
/// order, subtracting each magnitude from the player's life and clamping
/// at zero. The moment life reaches zero one player-dead event is raised
/// and the remaining pending damage is discarded; the queue is cleared
/// either way.
pub fn collision_damage_system(
    life: &mut Life,
    damage_events: &mut Vec<DamageCollision>,
    dead_events: &mut Vec<PlayerDeadEvent>,
)
    requires
        old(life).wf(),
        forall|i: int| 0 <= i < old(damage_events)@.len() ==> (#[trigger] old(damage_events)@[i]).0
            >= 0,
    ensures
        final(life).wf(),
        final(life).max_life == old(life).max_life,
        final(life).current_life == spec_apply_damage(
            old(life).current_life as int,
            old(damage_events)@,
        ),
        final(damage_events)@.len() == 0,
        final(dead_events)@ == (if spec_apply_damage(
            old(life).current_life as int,
            old(damage_events)@,
        ) == 0 && old(damage_events)@.len() > 0 {
            old(dead_events)@.push(PlayerDeadEvent)
        } else {
            old(dead_events)@
        }),
{
    let ghost ev = damage_events@;
    let ghost life0 = life.current_life as int;
    let ghost dead0 = dead_events@;
    proof {
        assert(ev.skip(0) =~= ev);
    }
    let mut i: usize = 0;
    let mut raised = false;
    while i < damage_events.len() && !raised
        invariant
            i <= ev.len(),
            damage_events@ == ev,
            life.wf(),
            life.max_life == old(life).max_life,
            forall|j: int| 0 <= j < ev.len() ==> (#[trigger] ev[j]).0 >= 0,
            spec_apply_damage(life0, ev) == spec_apply_damage(
                life.current_life as int,
                ev.skip(i as int),
            ),
            raised ==> life.current_life == 0 && i > 0,
            !raised ==> life.current_life > 0 || (life0 == 0 && i == 0),
            dead_events@ == (if raised {
                dead0.push(PlayerDeadEvent)
            } else {
                dead0
            }),
            dead0 == old(dead_events)@,
        decreases ev.len() - i,
    {
        let d = damage_events[i].0;
        proof {
            assert(ev.skip(i as int)[0] == ev[i as int]);
            assert(ev.skip(i as int).skip(1) =~= ev.skip(i as int + 1));
        }
        if d >= life.current_life {
            life.current_life = 0;
            i = i + 1;
            dead_events.push(PlayerDeadEvent);
            raised = true;
        } else {
            life.current_life = life.current_life - d;
            i = i + 1;
        }
    }
    proof {
        if i == ev.len() {
            assert(ev.skip(i as int) =~= Seq::<DamageCollision>::empty());
        } else {
            lemma_apply_damage_zero(ev.skip(i as int));
        }
    }
    damage_events.clear();
}

/// Whether a projectile takes part in meteor matching this tick: it must
/// be live and not just past its expiry ("just finished" projectiles are
/// excluded even before they are physically removed, to avoid a same-tick
/// double removal).
pub open spec fn spec_proj_ready(e: Entity) -> bool {
    &&& e.is_live_projectile()
    &&& !(e.projectile_timer matches Some(t) && t.0.just_finished_edge)
}

/// The first live meteor at slot `j` or later that overlaps `proj`, if
/// any.
pub open spec fn spec_first_meteor_hit_from(s: Seq<Entity>, proj: Entity, j: int) -> Option<int>
    decreases s.len() - j,
{
    if j < 0 || j >= s.len() {
        None
    } else if s[j].is_live_meteor() && spec_hit(proj, s[j]) {
        Some(j)
    } else {
        spec_first_meteor_hit_from(s, proj, j + 1)
    }
}

/// One step of the projectile pass: if slot `i` holds a ready projectile
/// and some live meteor overlaps it, both are removed (the lowest meteor
/// slot wins) and, if the meteor sat above the smallest tier, a split
/// event carrying the tier below and the meteor's position is recorded.
pub open spec fn spec_hit_step(s: Seq<Entity>, ev: Seq<MeteorCollision>, i: int) -> (
    Seq<Entity>,
    Seq<MeteorCollision>,
) {
    if spec_proj_ready(s[i]) {
        match spec_first_meteor_hit_from(s, s[i], 0) {
            Some(j) => {
                let s1 = s.update(i, s[i].spec_killed()).update(j, s[j].spec_killed());
                let ev1 = if (s[j].meteor->0).size != crate::MeteorSizeType::Small {
                    ev.push(
                        MeteorCollision {
                            size: (s[j].meteor->0).size.spec_below(),
                            translation: s[j].spec_pos(),
                        },
                    )
                } else {
                    ev
                };
                (s1, ev1)
            },
            None => (s, ev),
        }
    } else {
        (s, ev)
    }
}

/// The store and split-event queue after the projectile pass has handled
/// the first `i` slots, in slot order, each step seeing the effects of the
/// previous ones.
pub open spec fn spec_hit_pass(s0: Seq<Entity>, ev0: Seq<MeteorCollision>, i: int) -> (
    Seq<Entity>,
    Seq<MeteorCollision>,
)
    decreases i,
{
    if i <= 0 {
        (s0, ev0)
    } else {
        let prev = spec_hit_pass(s0, ev0, i - 1);
        spec_hit_step(prev.0, prev.1, i - 1)
    }
}

/// Finds the first live meteor overlapping `proj`, scanning slots in
/// order.
fn find_first_overlapping_meteor(entities: &Vec<Entity>, proj: &Entity) -> (r: Option<usize>)
    requires
        forall|i: int| 0 <= i < entities@.len() ==> (#[trigger] entities@[i]).wf(),
        proj.wf(),
    ensures
        match r {
            Some(j) => j < entities@.len() && spec_first_meteor_hit_from(entities@, *proj, 0)
                == Some(j as int) && entities@[j as int].is_live_meteor() && spec_hit(
                *proj,
                entities@[j as int],
            ),
            None => spec_first_meteor_hit_from(entities@, *proj, 0) is None,
        },
{
    let mut j: usize = 0;
    while j < entities.len()
        invariant
            j <= entities@.len(),
            proj.wf(),
            forall|i: int| 0 <= i < entities@.len() ==> (#[trigger] entities@[i]).wf(),
            spec_first_meteor_hit_from(entities@, *proj, 0) == spec_first_meteor_hit_from(
                entities@,
                *proj,
                j as int,
            ),
        decreases entities@.len() - j,
    {
        let e = entities[j];
        if e.alive && e.meteor.is_some() {
            if entities_collide(proj, &e) {
                return Some(j);
            }
        }
        j = j + 1;
    }
    None
}

/// Projectiles versus meteors: each ready projectile is matched with the
/// first live meteor it overlaps; on a match both are removed, at most
/// once each, and a meteor above the smallest tier records one split
/// event carrying the tier below it and its position. No entity removed
/// earlier in the pass is matched again, and the pass removes exactly as
/// many projectiles as meteors.
pub fn player_projectile_hit_meteor_system(
    entities: &mut Vec<Entity>,
    split_events: &mut Vec<MeteorCollision>,
)
    requires
        forall|i: int| 0 <= i < old(entities)@.len() ==> (#[trigger] old(entities)@[i]).wf(),
        forall|i: int|
            0 <= i < old(split_events)@.len() ==> (#[trigger] old(split_events)@[i]).translation.in_pos_range(),
    ensures
        final(entities)@.len() == old(entities)@.len(),
        final(entities)@ == spec_hit_pass(
            old(entities)@,
            old(split_events)@,
            old(entities)@.len() as int,
        ).0,
        final(split_events)@ == spec_hit_pass(
            old(entities)@,
            old(split_events)@,
            old(entities)@.len() as int,
        ).1,
        // at-most-once resolution: a slot is left alone or removed, never
        // otherwise changed
        forall|i: int|
            0 <= i < old(entities)@.len() ==> final(entities)@[i] == old(entities)@[i] || final(entities)@[i] == (#[trigger] old(entities)@[i]).spec_killed(),
        // the pass removes exactly as many projectiles as meteors, and
        // records at most one split event per removed meteor
        crate::entity::count_matching(old(entities)@, |e: Entity| e.is_live_projectile())
            - crate::entity::count_matching(final(entities)@, |e: Entity| e.is_live_projectile())
            == crate::entity::count_matching(old(entities)@, |e: Entity| e.is_live_meteor())
            - crate::entity::count_matching(final(entities)@, |e: Entity| e.is_live_meteor()),
        crate::entity::count_matching(final(entities)@, |e: Entity| e.is_live_meteor())
            <= crate::entity::count_matching(old(entities)@, |e: Entity| e.is_live_meteor()),
        crate::entity::count_matching(final(entities)@, |e: Entity| e.is_live_projectile())
            <= crate::entity::count_matching(old(entities)@, |e: Entity| e.is_live_projectile()),
        final(split_events)@.len() - old(split_events)@.len() <= crate::entity::count_matching(
            old(entities)@,
            |e: Entity| e.is_live_meteor(),
        ) - crate::entity::count_matching(final(entities)@, |e: Entity| e.is_live_meteor()),
        final(split_events)@.len() <= old(split_events)@.len() + old(entities)@.len(),
        forall|i: int| 0 <= i < final(entities)@.len() ==> (#[trigger] final(entities)@[i]).wf(),
        forall|i: int|
            0 <= i < final(split_events)@.len() ==> (#[trigger] final(split_events)@[i]).translation.in_pos_range(),
{
    let ghost s0 = entities@;
    let ghost ev0 = split_events@;
    let ghost fp = |e: Entity| e.is_live_projectile();
    let ghost fm = |e: Entity| e.is_live_meteor();
    let mut i: usize = 0;
    while i < entities.len()
        invariant
            i <= s0.len(),
            entities@.len() == s0.len(),
            entities@ == spec_hit_pass(s0, ev0, i as int).0,
            split_events@ == spec_hit_pass(s0, ev0, i as int).1,
            fp == (|e: Entity| e.is_live_projectile()),
            fm == (|e: Entity| e.is_live_meteor()),
            forall|j: int| 0 <= j < s0.len() ==> (#[trigger] s0[j]).wf(),
            forall|j: int| 0 <= j < s0.len() ==> (#[trigger] entities@[j]).wf(),
            forall|j: int|
                0 <= j < s0.len() ==> entities@[j] == s0[j] || entities@[j] == (
                #[trigger] s0[j]).spec_killed(),
            crate::entity::count_matching(s0, fp) - crate::entity::count_matching(entities@, fp)
                == crate::entity::count_matching(s0, fm) - crate::entity::count_matching(
                entities@,
                fm,
            ),
            crate::entity::count_matching(entities@, fm) <= crate::entity::count_matching(s0, fm),
            crate::entity::count_matching(entities@, fp) <= crate::entity::count_matching(s0, fp),
            split_events@.len() - ev0.len() <= crate::entity::count_matching(s0, fm)
                - crate::entity::count_matching(entities@, fm),
            forall|j: int|
                0 <= j < split_events@.len() ==> (#[trigger] split_events@[j]).translation.in_pos_range(),
        decreases s0.len() - i,
    {
        let e = entities[i];
        let expired = e.projectile_timer.is_some() && e.projectile_timer.unwrap().0.just_finished();
        if e.alive && e.projectile.is_some() && !expired {
            assert(spec_proj_ready(entities@[i as int]));
            let hit = find_first_overlapping_meteor(entities, &e);
            if hit.is_some() {
                let j = hit.unwrap();
                let m = entities[j];
                proof {
                    assert(entities@[i as int].wf());
                    assert(entities@[j as int].wf());
                    assert(i != j);
                    assert(fp(entities@[i as int]));
                    assert(!fp(entities@[i as int].spec_killed()));
                    assert(!fm(entities@[i as int]));
                    assert(!fm(entities@[i as int].spec_killed()));
                    assert(fm(entities@[j as int]));
                    assert(!fm(entities@[j as int].spec_killed()));
                    assert(!fp(entities@[j as int]));
                    assert(!fp(entities@[j as int].spec_killed()));
                    crate::entity::lemma_count_matching_update(
                        entities@,
                        fp,
                        i as int,
                        entities@[i as int].spec_killed(),
                    );
                    crate::entity::lemma_count_matching_update(
                        entities@,
                        fm,
                        i as int,
                        entities@[i as int].spec_killed(),
                    );
                    crate::entity::lemma_count_matching_update(
                        entities@.update(i as int, entities@[i as int].spec_killed()),
                        fp,
                        j as int,
                        entities@[j as int].spec_killed(),
                    );
                    crate::entity::lemma_count_matching_update(
                        entities@.update(i as int, entities@[i as int].spec_killed()),
                        fm,
                        j as int,
                        entities@[j as int].spec_killed(),
                    );
                }
                entities.set(i, Entity { alive: false, ..e });
                entities.set(j, Entity { alive: false, ..m });
                if !matches!(m.meteor.unwrap().size, crate::MeteorSizeType::Small) {
                    let child = m.meteor.unwrap().size.below();
                    split_events.push(
                        MeteorCollision { size: child, translation: m.position.unwrap().0 },
                    );
                }
            }
        }
        i = i + 1;
        proof {
            assert(entities@ == spec_hit_pass(s0, ev0, i as int).0);
            assert(split_events@ == spec_hit_pass(s0, ev0, i as int).1);
        }
    }
    proof {
        crate::entity::lemma_count_matching_bounds(entities@, fm);
        crate::entity::lemma_count_matching_bounds(entities@, fp);
        crate::entity::lemma_count_matching_bounds(s0, fm);
        crate::entity::lemma_count_matching_bounds(s0, fp);
    }
}

} // verus!
