//! The entity record and the counting lemmas over sequences of entities.
//!
//! An entity is a fixed record of optional components. Entities live in a
//! store (`Vec<Entity>`) and are addressed by their index, which stays
//! valid for the whole run: removal flips the `alive` flag and never moves
//! other entities, so a handle can outlive any number of removals.

use vstd::prelude::*;

use crate::components::BoundsDespawnable;
use crate::components::BoundsDespawnableWithTimer;
use crate::components::BoundsWarpable;
use crate::components::CleanUpEndGame;
use crate::components::CollisionDespawnableWithDamage;
use crate::components::HitBoxSize;
use crate::components::MeteorComponent;
use crate::components::PlayerComponent;
use crate::components::PlayerShootCooldownComponent;
use crate::components::Position;
use crate::components::PowerUpComponent;
use crate::components::ProjectileComponent;
use crate::components::ProjectileDespawnComponent;
use crate::components::RotationAngle;
use crate::components::ShipComponent;
use crate::components::Velocity;
use crate::components::TAU_MRAD;
use crate::geometry::SCALE_LIMIT;

verus! {

/// One simulation entity: a record of optional components. An entity whose
/// `alive` flag is cleared has been removed; its slot is never reused, so
/// indices remain valid handles across removals.
#[derive(Copy, Clone, Debug, PartialEq, Eq, Structural)]
pub struct Entity {
    pub alive: bool,
    pub position: Option<Position>,
    pub velocity: Option<Velocity>,
    pub rotation: Option<RotationAngle>,
    /// Visual scale in thousandths (1000 is unscaled); widens the window
    /// edge for the warp policy and scales the hit box at collision time.
    pub scale: i64,
    pub hitbox: Option<HitBoxSize>,
    pub warpable: Option<BoundsWarpable>,
    pub bounds_despawn: Option<BoundsDespawnable>,
    pub bounds_despawn_timer: Option<BoundsDespawnableWithTimer>,
    pub collision_damage: Option<CollisionDespawnableWithDamage>,
    pub cleanup: Option<CleanUpEndGame>,
    pub player: Option<PlayerComponent>,
    pub ship: Option<ShipComponent>,
    pub shoot_cooldown: Option<PlayerShootCooldownComponent>,
    pub projectile: Option<ProjectileComponent>,
    pub projectile_timer: Option<ProjectileDespawnComponent>,
    pub meteor: Option<MeteorComponent>,
    pub powerup: Option<PowerUpComponent>,
}

impl Entity {
    /// Exactly one category tag may be present, and an entity that can take
    /// part in collision checks (hit box and position) must carry one.
    pub open spec fn wf_category(self) -> bool {
        &&& self.player.is_some() ==> self.projectile.is_none() && self.meteor.is_none()
            && self.powerup.is_none()
        &&& self.projectile.is_some() ==> self.meteor.is_none() && self.powerup.is_none()
        &&& self.meteor.is_some() ==> self.powerup.is_none()
        &&& self.hitbox.is_some() && self.position.is_some() ==> self.player.is_some()
            || self.projectile.is_some() || self.meteor.is_some() || self.powerup.is_some()
    }

    /// Numeric fields within their limits, timers well formed, damage
    /// magnitudes non-negative.
    pub open spec fn wf(self) -> bool {
        &&& self.position matches Some(p) ==> p.0.in_pos_range()
        &&& self.velocity matches Some(v) ==> v.0.in_vel_range()
        &&& self.rotation matches Some(r) ==> 0 <= r.0 < TAU_MRAD
        &&& 0 <= self.scale <= SCALE_LIMIT
        &&& self.hitbox matches Some(h) ==> h.0.in_size_range()
        &&& self.bounds_despawn matches Some(b) ==> b.0.in_size_range()
        &&& self.bounds_despawn_timer matches Some(t) ==> t.wf() && t.bounds.0.in_size_range()
        &&& self.collision_damage matches Some(c) ==> c.damage >= 0
        &&& self.shoot_cooldown matches Some(c) ==> c.0.wf()
        &&& self.projectile_timer matches Some(t) ==> t.0.wf()
        &&& self.meteor matches Some(m) ==> -TAU_MRAD < m.rotation_speed < TAU_MRAD
        &&& self.powerup matches Some(p) ==> -TAU_MRAD < p.rotation_speed < TAU_MRAD
        &&& self.wf_category()
    }

    /// A blank record: alive, unscaled, with no components attached.
    pub fn empty() -> (e: Entity)
        ensures
            e == Entity::spec_empty(),
    {
        Entity {
            alive: true,
            position: None,
            velocity: None,
            rotation: None,
            scale: 1000,
            hitbox: None,
            warpable: None,
            bounds_despawn: None,
            bounds_despawn_timer: None,
            collision_damage: None,
            cleanup: None,
            player: None,
            ship: None,
            shoot_cooldown: None,
            projectile: None,
            projectile_timer: None,
            meteor: None,
            powerup: None,
        }
    }

    pub open spec fn spec_empty() -> Entity {
        Entity {
            alive: true,
            position: None,
            velocity: None,
            rotation: None,
            scale: 1000,
            hitbox: None,
            warpable: None,
            bounds_despawn: None,
            bounds_despawn_timer: None,
            collision_damage: None,
            cleanup: None,
            player: None,
            ship: None,
            shoot_cooldown: None,
            projectile: None,
            projectile_timer: None,
            meteor: None,
            powerup: None,
        }
    }

    /// The same entity with its `alive` flag cleared: how a removal leaves
    /// a slot.
    pub open spec fn spec_killed(self) -> Entity {
        Entity { alive: false, ..self }
    }

    /// The position vector, when the component is present.
    pub open spec fn spec_pos(self) -> crate::geometry::Vec2i {
        (self.position->0).0
    }

    /// The velocity vector, when the component is present.
    pub open spec fn spec_vel(self) -> crate::geometry::Vec2i {
        (self.velocity->0).0
    }

    /// The rotation angle in milliradians, when the component is present.
    pub open spec fn spec_rot(self) -> int {
        (self.rotation->0).0 as int
    }

    pub open spec fn is_live_player(self) -> bool {
        self.alive && self.player.is_some()
    }

    pub open spec fn is_live_meteor(self) -> bool {
        self.alive && self.meteor.is_some()
    }

    pub open spec fn is_live_powerup(self) -> bool {
        self.alive && self.powerup.is_some()
    }

    pub open spec fn is_live_projectile(self) -> bool {
        self.alive && self.projectile.is_some()
    }
}

/// How many entities of a sequence satisfy `f`.
pub open spec fn count_matching(s: Seq<Entity>, f: spec_fn(Entity) -> bool) -> int
    decreases s.len(),
{
    if s.len() == 0 {
        0
    } else {
        count_matching(s.drop_last(), f) + if f(s.last()) {
            1int
        } else {
            0int
        }
    }
}

pub proof fn lemma_count_matching_bounds(s: Seq<Entity>, f: spec_fn(Entity) -> bool)
    ensures
        0 <= count_matching(s, f) <= s.len(),
    decreases s.len(),
{
    if s.len() > 0 {
        lemma_count_matching_bounds(s.drop_last(), f);
    }
}

/// Counting distributes over concatenation.
pub proof fn lemma_count_matching_append(s: Seq<Entity>, t: Seq<Entity>, f: spec_fn(Entity) -> bool)
    ensures
        count_matching(s + t, f) == count_matching(s, f) + count_matching(t, f),
    decreases t.len(),
{
    if t.len() == 0 {
        assert(s + t =~= s);
    } else {
        lemma_count_matching_append(s, t.drop_last(), f);
        assert((s + t).drop_last() =~= s + t.drop_last());
        assert((s + t).last() == t.last());
    }
}

/// A block whose members all satisfy `f` counts as its whole length.
pub proof fn lemma_count_matching_full(t: Seq<Entity>, f: spec_fn(Entity) -> bool)
    requires
        forall|i: int| 0 <= i < t.len() ==> f(#[trigger] t[i]),
    ensures
        count_matching(t, f) == t.len(),
    decreases t.len(),
{
    if t.len() > 0 {
        lemma_count_matching_full(t.drop_last(), f);
    }
}

/// A block whose members all fail `f` counts zero.
pub proof fn lemma_count_matching_none(t: Seq<Entity>, f: spec_fn(Entity) -> bool)
    requires
        forall|i: int| 0 <= i < t.len() ==> !f(#[trigger] t[i]),
    ensures
        count_matching(t, f) == 0,
    decreases t.len(),
{
    if t.len() > 0 {
        lemma_count_matching_none(t.drop_last(), f);
    }
}

pub proof fn lemma_count_matching_update(
    s: Seq<Entity>,
    f: spec_fn(Entity) -> bool,
    i: int,
    e: Entity,
)
    requires
        0 <= i < s.len(),
    ensures
        count_matching(s.update(i, e), f) == count_matching(s, f) - (if f(s[i]) {
            1int
        } else {
            0int
        }) + (if f(e) {
            1int
        } else {
            0int
        }),
    decreases s.len(),
{
    let t = s.update(i, e);
    if i == s.len() - 1 {
        assert(t.drop_last() =~= s.drop_last());
        assert(t.last() == e);
    } else {
        assert(t.drop_last() =~= s.drop_last().update(i, e));
        lemma_count_matching_update(s.drop_last(), f, i, e);
        assert(t.last() == s.last());
    }
}

pub proof fn lemma_count_matching_take_step(s: Seq<Entity>, f: spec_fn(Entity) -> bool, i: int)
    requires
        0 <= i < s.len(),
    ensures
        count_matching(s.take(i + 1), f) == count_matching(s.take(i), f) + if f(s[i]) {
            1int
        } else {
            0int
        },
{
    assert(s.take(i + 1).drop_last() =~= s.take(i));
    assert(s.take(i + 1).last() == s[i]);
}

pub proof fn lemma_count_matching_take_all(s: Seq<Entity>, f: spec_fn(Entity) -> bool)
    ensures
        count_matching(s.take(s.len() as int), f) == count_matching(s, f),
{
    assert(s.take(s.len() as int) =~= s);
}

/// Counts the live meteors in the store.
pub fn count_live_meteors(entities: &Vec<Entity>) -> (n: usize)
    ensures
        n == count_matching(entities@, |e: Entity| e.is_live_meteor()),
{
    let ghost f = |e: Entity| e.is_live_meteor();
    let mut n: usize = 0;
    let mut i: usize = 0;
    proof {
        lemma_count_matching_bounds(entities@, f);
    }
    while i < entities.len()
        invariant
            0 <= i <= entities@.len(),
            n == count_matching(entities@.take(i as int), f),
            n <= i,
            f == (|e: Entity| e.is_live_meteor()),
        decreases entities@.len() - i,
    {
        proof {
            lemma_count_matching_take_step(entities@, f, i as int);
            lemma_count_matching_bounds(entities@.take(i as int), f);
        }
        let e = entities[i];
        if e.alive && e.meteor.is_some() {
            n = n + 1;
        }
        i = i + 1;
    }
    proof {
        lemma_count_matching_take_all(entities@, f);
    }
    n
}

/// Counts the live power-ups in the store.
pub fn count_live_powerups(entities: &Vec<Entity>) -> (n: usize)
    ensures
        n == count_matching(entities@, |e: Entity| e.is_live_powerup()),
{
    let ghost f = |e: Entity| e.is_live_powerup();
    let mut n: usize = 0;
    let mut i: usize = 0;
    while i < entities.len()
        invariant
            0 <= i <= entities@.len(),
            n == count_matching(entities@.take(i as int), f),
            n <= i,
            f == (|e: Entity| e.is_live_powerup()),
        decreases entities@.len() - i,
    {
        proof {
            lemma_count_matching_take_step(entities@, f, i as int);
            lemma_count_matching_bounds(entities@.take(i as int), f);
        }
        let e = entities[i];
        if e.alive && e.powerup.is_some() {
            n = n + 1;
        }
        i = i + 1;
    }
    proof {
        lemma_count_matching_take_all(entities@, f);
    }
    n
}

} // verus!
