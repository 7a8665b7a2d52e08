//! The simulation context and the fixed-order scheduler.
//!
//! One `GameWorld` value holds the entity store, the run-wide resources,
//! the per-tick transient event buffers and the phase machine. `tick`
//! advances the whole simulation by one frame, running the systems of the
//! current phase in their declared order: kinematics first, then the
//! collision engine, then damage application, then the spawn director,
//! then timers and phase transitions.

use vstd::prelude::*;

use crate::cleanup::cleanup_system;
use crate::collision::collision_damage_system;
use crate::collision::player_collide_despawnable_system;
use crate::collision::player_collide_powerup_system;
use crate::collision::player_projectile_hit_meteor_system;
use crate::common_systems::despawn_if_reached_bounds_system;
use crate::common_systems::despawn_if_reached_bounds_timer_system;
use crate::common_systems::movement_system;
use crate::common_systems::update_rotation_system;
use crate::common_systems::warp_if_reached_window_bounds_system;
use crate::components::DamageCollision;
use crate::components::MeteorCollision;
use crate::entity::Entity;
use crate::events::send_state_end_event;
use crate::events::send_state_start_event;
use crate::events::PlayerDeadEvent;
use crate::events::PlayerSpawnEvent;
use crate::events::StateEndEvent;
use crate::events::StateStartEvent;
use crate::geometry::Vec2i;
use crate::meteor::meteor_collision_spawn_system;
use crate::meteor::spawn_meteor_system;
use crate::player::player_died_system;
use crate::player::player_spawn_system;
use crate::powerup::spawn_powerup_system;
use crate::projectile::projectile_despawn_system;
use crate::projectile::projectile_shoot_system;
use crate::projectile::FACING_LIMIT;
use crate::resources::Life;
use crate::resources::Score;
use crate::resources::WindowDespawnBorder;
use crate::resources::WindowSize;
use crate::states::GameStates;
use crate::timer::GameTimer;
use crate::BORDER_EXTRA_SPACE;
use crate::METEOR_SPAWN_MS;
use crate::PLAYER_START_HP;
use crate::POWERUP_SPAWN_MS;

verus! {

/// Milliseconds spent in the start-of-run and end-of-run phases before
/// the automatic transition.
pub const PHASE_DELAY_MS: u64 = 1500;

/// The store may not grow past this many slots; the caller checks
/// `can_tick` before each frame.
pub const ENTITY_CAP: usize = 1000000;

/// The per-tick input vector: the frame time, the input snapshot, and the
/// spawn ray the layout provider computed for a fresh meteor this frame
/// (position on the ray and homing-at-spawn velocity toward the player).
#[derive(Copy, Clone, Debug, PartialEq, Eq, Structural)]
pub struct TickInput {
    pub delta_ms: u64,
    pub turn_left: bool,
    pub turn_right: bool,
    pub thrust: bool,
    pub fire: bool,
    pub facing: Vec2i,
    pub meteor_spawn_pos: Vec2i,
    pub meteor_spawn_vel: Vec2i,
}

impl TickInput {
    pub open spec fn wf(self) -> bool {
        &&& -FACING_LIMIT <= self.facing.x <= FACING_LIMIT
        &&& -FACING_LIMIT <= self.facing.y <= FACING_LIMIT
        &&& self.meteor_spawn_pos.in_pos_range()
        &&& self.meteor_spawn_vel.in_vel_range()
    }
}

/// The whole simulation state: entity store, resources, transient event
/// buffers and the phase machine.
pub struct GameWorld {
    pub entities: Vec<Entity>,
    pub life: Life,
    pub score: Score,
    pub window: WindowSize,
    pub border: WindowDespawnBorder,
    pub phase: GameStates,
    /// Counts down the start-of-run and end-of-run delays.
    pub phase_timer: GameTimer,
    pub meteor_spawn_timer: GameTimer,
    pub powerup_spawn_timer: GameTimer,
    pub split_events: Vec<MeteorCollision>,
    pub damage_events: Vec<DamageCollision>,
    pub player_dead_events: Vec<PlayerDeadEvent>,
    pub player_spawn_events: Vec<PlayerSpawnEvent>,
    pub state_start_events: Vec<StateStartEvent>,
    pub state_end_events: Vec<StateEndEvent>,
}

impl GameWorld {
    /// The tick-boundary invariant: every entity and resource is well
    /// formed and the transient collision buffers have been drained.
    pub open spec fn wf(self) -> bool {
        &&& forall|i: int| 0 <= i < self.entities@.len() ==> (#[trigger] self.entities@[i]).wf()
        &&& self.life.wf()
        &&& self.window.wf()
        &&& self.border.wf()
        &&& self.phase_timer.wf()
        &&& self.meteor_spawn_timer.wf()
        &&& self.powerup_spawn_timer.wf()
        &&& self.split_events@.len() == 0
        &&& self.damage_events@.len() == 0
    }

    /// A fresh world for the given window: full life, empty store, the
    /// despawn border at the window half-extent plus the fixed margin, and
    /// the phase machine entering the start-of-run phase (which spawns the
    /// player).
    pub fn new(window: WindowSize) -> (w: GameWorld)
        requires
            window.wf(),
        ensures
            w.wf(),
            w.window == window,
            w.phase == GameStates::StartGame,
            w.life.max_life == PLAYER_START_HP,
            w.life.current_life == PLAYER_START_HP,
            w.border == (WindowDespawnBorder {
                top: (window.h / 2 + BORDER_EXTRA_SPACE) as i64,
                bottom: (-(window.h / 2) - BORDER_EXTRA_SPACE) as i64,
                left: (-(window.w / 2) - BORDER_EXTRA_SPACE) as i64,
                right: (window.w / 2 + BORDER_EXTRA_SPACE) as i64,
            }),
            w.entities@.len() == 1,
            w.entities@[0].is_live_player(),
            w.entities@[0] == crate::player::spec_player_entity((w.entities@[0].ship)->0),
            ((w.entities@[0].ship)->0).stats
                == crate::components::ShipComponent::spec_stats_from_type(
                ((w.entities@[0].ship)->0).ship_type,
            ),
    {
        let cx = window.w / 2;
        let cy = window.h / 2;
        let border = WindowDespawnBorder {
            top: cy + BORDER_EXTRA_SPACE,
            bottom: -cy - BORDER_EXTRA_SPACE,
            left: -cx - BORDER_EXTRA_SPACE,
            right: cx + BORDER_EXTRA_SPACE,
        };
        let mut w = GameWorld {
            entities: Vec::new(),
            life: Life::new(PLAYER_START_HP),
            score: Score { current: 0, max: 0 },
            window,
            border,
            phase: GameStates::StartGame,
            phase_timer: GameTimer::new(PHASE_DELAY_MS),
            meteor_spawn_timer: GameTimer::new(METEOR_SPAWN_MS),
            powerup_spawn_timer: GameTimer::new(POWERUP_SPAWN_MS),
            split_events: Vec::new(),
            damage_events: Vec::new(),
            player_dead_events: Vec::new(),
            player_spawn_events: Vec::new(),
            state_start_events: Vec::new(),
            state_end_events: Vec::new(),
        };
        w.enter_start_game();
        w
    }

    /// Whether another frame may run without exhausting the store.
    pub fn can_tick(&self) -> (r: bool)
        ensures
            r == (self.entities@.len() <= ENTITY_CAP),
    {
        self.entities.len() <= ENTITY_CAP
    }

    /// Entry work of the start-of-run phase: the run before leaves a dead
    /// player husk behind for the presentation layer, so any remaining
    /// player slot is retired first; then the life pool refills, a fresh
    /// player entity is created — the one every player-scoped system now
    /// binds to — the phase delay restarts, and a phase-started
    /// notification is raised.
    fn enter_start_game(&mut self)
        requires
            old(self).wf(),
            old(self).entities@.len() < usize::MAX,
        ensures
            final(self).wf(),
            final(self).phase == GameStates::StartGame,
            final(self).life.max_life == old(self).life.max_life,
            final(self).life.current_life == old(self).life.max_life,
            final(self).window == old(self).window,
            final(self).border == old(self).border,
            final(self).entities@.len() == old(self).entities@.len() + 1,
            final(self).entities@.last().is_live_player(),
            final(self).entities@.last() == crate::player::spec_player_entity(
                (final(self).entities@.last().ship)->0,
            ),
            ((final(self).entities@.last().ship)->0).stats
                == crate::components::ShipComponent::spec_stats_from_type(
                ((final(self).entities@.last().ship)->0).ship_type,
            ),
            forall|i: int|
                0 <= i < old(self).entities@.len() ==> final(self).entities@[i] == (if (
                #[trigger] old(self).entities@[i]).is_live_player() {
                    old(self).entities@[i].spec_killed()
                } else {
                    old(self).entities@[i]
                }),
            // the fresh player is the first live one: no stale slot
            // shadows it
            crate::collision::spec_is_first_live_player(
                final(self).entities@,
                old(self).entities@.len() as int,
            ),
            final(self).phase_timer == old(self).phase_timer.spec_reset(),
            final(self).meteor_spawn_timer == old(self).meteor_spawn_timer,
            final(self).powerup_spawn_timer == old(self).powerup_spawn_timer,
            final(self).score == old(self).score,
            final(self).player_spawn_events@ == old(self).player_spawn_events@.push(
                PlayerSpawnEvent,
            ),
            final(self).state_start_events@ == old(self).state_start_events@.push(
                StateStartEvent(GameStates::StartGame),
            ),
            final(self).state_end_events@ == old(self).state_end_events@,
            final(self).player_dead_events@ == old(self).player_dead_events@,
            final(self).split_events@ == old(self).split_events@,
            final(self).damage_events@ == old(self).damage_events@,
    {
        self.phase = GameStates::StartGame;
        crate::player::retire_player_system(&mut self.entities);
        crate::resources::reset_life(&mut self.life);
        player_spawn_system(&mut self.entities, &mut self.player_spawn_events);
        self.phase_timer.reset();
        send_state_start_event(GameStates::StartGame, &mut self.state_start_events);
    }

    /// The store after the deterministic detection prefix of a gameplay
    /// tick: integration and rotation, steering, warp, both bounds rules
    /// and the power-up pickup, in scheduler order. The projectile-meteor
    /// resolution and everything after it build on this state.
    pub open spec fn spec_pre_collision(
        s0: Seq<Entity>,
        window: WindowSize,
        border: WindowDespawnBorder,
        input: TickInput,
    ) -> Seq<Entity> {
        let s1 = crate::common_systems::spec_move_pass(s0);
        let s2 = crate::common_systems::spec_rotate_pass(s1);
        let s3 = crate::player::spec_steer_pass(
            s2,
            input.turn_left,
            input.turn_right,
            input.thrust,
            input.facing,
        );
        let s4 = crate::common_systems::spec_warp_pass(s3, window);
        let s5 = crate::common_systems::spec_bounds_pass(s4, border);
        let s6 = crate::common_systems::spec_bounds_timer_pass(s5, input.delta_ms, border);
        crate::collision::spec_pickup_pass(s6)
    }

    /// One gameplay frame, from notification drain and kinematics through
    /// collisions, damage, the spawn director, firing and the death
    /// transition; carries the full InGame contract of `tick`.
    #[verifier::rlimit(100)]
    fn in_game_step(&mut self, input: TickInput)
        requires
            old(self).wf(),
            input.wf(),
            old(self).entities@.len() <= ENTITY_CAP,
            old(self).phase == GameStates::InGame,
        ensures
            final(self).wf(),
            final(self).window == old(self).window,
            final(self).border == old(self).border,
            final(self).phase == GameStates::InGame || final(self).phase == GameStates::EndGame,
            ({
                let pre = Self::spec_pre_collision(
                    old(self).entities@,
                    old(self).window,
                    old(self).border,
                    input,
                );
                let hit = crate::collision::spec_hit_pass(pre, Seq::empty(), pre.len() as int);
                let dmg = crate::collision::spec_hazard_damage(hit.0);
                let new_life = crate::collision::spec_apply_damage(
                    old(self).life.current_life as int,
                    dmg,
                );
                &&& final(self).life.max_life == old(self).life.max_life
                &&& final(self).life.current_life == new_life
                &&& (final(self).phase == GameStates::EndGame <==> new_life == 0)
                &&& final(self).player_dead_events@.len() == (if new_life == 0 && dmg.len() > 0 {
                    1int
                } else {
                    0int
                })
                &&& ({
                    // the time gates are owed behavior: the store length
                    // accounts exactly for the split children and each
                    // gated spawn, and when a gate fires on a survival
                    // tick the appended record stands at a fixed slot
                    // (a spawner skips only without a live player or at
                    // its population cap)
                    let s9 = crate::collision::spec_hazard_pass(hit.0);
                    let d0 = hit.0.len() + 3 * hit.1.len();
                    let m_spawned = old(self).meteor_spawn_timer.spec_ticked(
                        input.delta_ms,
                    ).spec_finished() && crate::collision::spec_has_live_player(s9)
                        && crate::entity::count_matching(s9, |e: Entity| e.is_live_meteor()) + 3
                        * hit.1.len() < crate::METEOR_MAX_COUNT as int;
                    let p_spawned = old(self).powerup_spawn_timer.spec_ticked(
                        input.delta_ms,
                    ).spec_finished() && crate::entity::count_matching(
                        s9,
                        |e: Entity| e.is_live_powerup(),
                    ) < crate::POWERUP_MAX_COUNT as int;
                    let shot = crate::collision::spec_has_live_player(s9)
                        && crate::projectile::spec_can_shoot(
                        s9[crate::collision::spec_first_live_player_idx(s9)],
                    ) && ((s9[crate::collision::spec_first_live_player_idx(
                        s9,
                    )].shoot_cooldown)->0).0.spec_ticked(input.delta_ms).spec_finished()
                        && input.fire;
                    &&& final(self).entities@.len() == d0 + (if m_spawned {
                        1int
                    } else {
                        0int
                    }) + (if p_spawned {
                        1int
                    } else {
                        0int
                    }) + (if shot {
                        1int
                    } else {
                        0int
                    })
                    &&& m_spawned && new_life != 0 ==> ({
                        let e = final(self).entities@[d0 as int];
                        &&& e == crate::meteor::spec_meteor_entity(
                            crate::MeteorSizeType::Large,
                            input.meteor_spawn_pos,
                            e.spec_rot(),
                            crate::common_systems::spec_spin_of(e),
                            input.meteor_spawn_vel,
                            Vec2i {
                                x: (old(self).window.h / 2) as i64,
                                y: (old(self).window.h / 2) as i64,
                            },
                        )
                        &&& (e.spec_rot() < 50 || e.spec_rot()
                            >= crate::components::TAU_MRAD - 50)
                        &&& -50 <= crate::common_systems::spec_spin_of(e) < 50
                    })
                    &&& p_spawned && new_life != 0 ==> ({
                        let e = final(self).entities@[d0 + (if m_spawned {
                            1int
                        } else {
                            0int
                        })];
                        let cx = old(self).window.w / 2;
                        let cy = old(self).window.h / 2;
                        &&& e == crate::powerup::spec_powerup_entity(
                            e.spec_pos(),
                            e.spec_rot(),
                            e.powerup->0,
                            e.spec_vel(),
                        )
                        &&& -cx <= e.spec_pos().x < cx
                        &&& (e.spec_pos().y == cy + crate::powerup::POWERUP_SPAWN_MARGIN
                            || e.spec_pos().y == -(cy + crate::powerup::POWERUP_SPAWN_MARGIN))
                        &&& -1500 <= e.spec_vel().x < 1500
                        &&& (e.spec_pos().y > cy ==> -1500 <= e.spec_vel().y < -1000)
                        &&& (e.spec_pos().y < cy ==> 1000 <= e.spec_vel().y < 1500)
                    })
                })
                &&& final(self).meteor_spawn_timer == (if old(self).meteor_spawn_timer.spec_ticked(
                    input.delta_ms,
                ).spec_finished() {
                    old(self).meteor_spawn_timer.spec_ticked(input.delta_ms).spec_reset()
                } else {
                    old(self).meteor_spawn_timer.spec_ticked(input.delta_ms)
                })
                &&& final(self).powerup_spawn_timer == (if old(self).powerup_spawn_timer.spec_ticked(input.delta_ms).spec_finished() {
                    old(self).powerup_spawn_timer.spec_ticked(input.delta_ms).spec_reset()
                } else {
                    old(self).powerup_spawn_timer.spec_ticked(input.delta_ms)
                })
                &&& new_life == 0 ==> final(self).state_end_events@ == seq![
                    StateEndEvent(GameStates::InGame),
                ] && final(self).state_start_events@ == seq![StateStartEvent(GameStates::EndGame)]
                &&& new_life != 0 ==> final(self).state_end_events@.len() == 0 && final(self).state_start_events@.len() == 0
                &&& final(self).player_spawn_events@.len() == 0
                &&& ({
                    // firing: on a survival tick with a player able to
                    // shoot, the ticked cooldown and the fire input decide
                    // exactly whether one projectile was appended and the
                    // cooldown restarted
                    let s9 = crate::collision::spec_hazard_pass(hit.0);
                    new_life != 0 && crate::collision::spec_has_live_player(s9) ==> ({
                        let pd = crate::collision::spec_first_live_player_idx(s9);
                        crate::projectile::spec_can_shoot(s9[pd]) ==> ({
                            let cd0 = ((s9[pd].shoot_cooldown)->0).0;
                            let cd1 = cd0.spec_ticked(input.delta_ms);
                            let fired = cd1.spec_finished() && input.fire;
                            &&& final(self).entities@[pd].shoot_cooldown == Some(
                                crate::components::PlayerShootCooldownComponent(
                                    if fired {
                                        cd0.spec_reset()
                                    } else {
                                        cd1
                                    },
                                ),
                            )
                            &&& fired ==> final(self).entities@.last()
                                == crate::projectile::spec_projectile_despawn_step(
                                crate::projectile::spec_projectile_entity(
                                    s9[pd].spec_pos(),
                                    s9[pd].spec_rot(),
                                    Vec2i {
                                        x: (input.facing.x * crate::PROJECTILE_SPEED) as i64,
                                        y: (input.facing.y * crate::PROJECTILE_SPEED) as i64,
                                    },
                                ),
                                input.delta_ms,
                            )
                            &&& !fired ==> forall|i: int|
                                hit.0.len() <= i < final(self).entities@.len() ==> (
                                #[trigger] final(self).entities@[i]).projectile.is_none()
                        })
                    })
                })
            }),
    {
        // last tick's notifications are stale now; drain them first
        crate::cleanup::event_cleanup(&mut self.player_dead_events);
        crate::cleanup::event_cleanup(&mut self.player_spawn_events);
        crate::cleanup::event_cleanup(&mut self.state_start_events);
        crate::cleanup::event_cleanup(&mut self.state_end_events);

        // kinematics: integration and rotation run in every phase
        movement_system(&mut self.entities);
        update_rotation_system(&mut self.entities);

                let ghost pre = Self::spec_pre_collision(
                    old(self).entities@,
                    old(self).window,
                    old(self).border,
                    input,
                );
                // steering first: the input snapshot shapes this tick's velocity
                crate::player::player_movement_system(
                    &mut self.entities,
                    input.turn_left,
                    input.turn_right,
                    input.thrust,
                    input.facing,
                );
                // bounds rules against this tick's authoritative positions
                warp_if_reached_window_bounds_system(&mut self.entities, &self.window);
                despawn_if_reached_bounds_system(&mut self.entities, &self.border);
                despawn_if_reached_bounds_timer_system(
                    &mut self.entities,
                    input.delta_ms,
                    &self.border,
                );
                // collision detection before unified damage application
                player_collide_powerup_system(&mut self.entities);
                proof {
                    assert(self.entities@ == pre);
                    assert(self.split_events@ =~= Seq::<MeteorCollision>::empty());
                }
                player_projectile_hit_meteor_system(&mut self.entities, &mut self.split_events);
                let ghost hit = crate::collision::spec_hit_pass(
                    pre,
                    Seq::empty(),
                    pre.len() as int,
                );
                proof {
                    assert(self.entities@ == hit.0);
                    assert(self.split_events@ == hit.1);
                }
                player_collide_despawnable_system(&mut self.entities, &mut self.damage_events);
                let ghost dmg = crate::collision::spec_hazard_damage(hit.0);
                let ghost s9 = crate::collision::spec_hazard_pass(hit.0);
                proof {
                    assert(self.damage_events@ =~= dmg);
                    assert(self.entities@ == s9);
                    assert(self.entities@.len() == hit.0.len());
                }
                collision_damage_system(
                    &mut self.life,
                    &mut self.damage_events,
                    &mut self.player_dead_events,
                );
                // the spawn director consumes what collision produced
                meteor_collision_spawn_system(&mut self.entities, &mut self.split_events);
                let ghost post_cascade = self.entities@;
                let ghost fm = |e: Entity| e.is_live_meteor();
                let ghost fpu = |e: Entity| e.is_live_powerup();
                proof {
                    assert(post_cascade.len() == hit.0.len() + 3 * hit.1.len());
                    // the cascade only appends live meteors, so the meteor
                    // and power-up counts relate exactly to the
                    // deterministic post-hazard store
                    let tail = post_cascade.subrange(s9.len() as int, post_cascade.len() as int);
                    assert(post_cascade =~= s9 + tail);
                    assert forall|i: int|
                        0 <= i < tail.len() implies (#[trigger] tail[i]).is_live_meteor()
                            && tail[i].player.is_none() && tail[i].powerup.is_none() by {
                        assert(tail[i] == post_cascade[s9.len() + i]);
                    }
                    crate::entity::lemma_count_matching_append(s9, tail, fm);
                    crate::entity::lemma_count_matching_full(tail, fm);
                    crate::entity::lemma_count_matching_append(s9, tail, fpu);
                    crate::entity::lemma_count_matching_none(tail, fpu);
                    // live players are exactly those of the post-hazard store
                    if crate::collision::spec_has_live_player(post_cascade) {
                        let w = choose|i: int|
                            0 <= i < post_cascade.len() && (
                            #[trigger] post_cascade[i]).is_live_player();
                        assert(post_cascade[w].is_live_player());
                        if w >= s9.len() {
                            assert(post_cascade[w].player.is_none());
                        }
                        assert(s9[w].is_live_player());
                    }
                    if crate::collision::spec_has_live_player(s9) {
                        let w = choose|i: int|
                            0 <= i < s9.len() && (#[trigger] s9[i]).is_live_player();
                        assert(post_cascade[w] == s9[w]);
                        assert(post_cascade[w].is_live_player());
                    }
                }
                self.meteor_spawn_timer.tick(input.delta_ms);
                if self.meteor_spawn_timer.finished() {
                    self.meteor_spawn_timer.reset();
                    spawn_meteor_system(
                        &mut self.entities,
                        &self.window,
                        input.meteor_spawn_pos,
                        input.meteor_spawn_vel,
                    );
                }
                let ghost post_mspawn = self.entities@;
                proof {
                    // whatever the meteor gate did, the power-up count is
                    // untouched (an appended meteor is no power-up)
                    if post_mspawn.len() > post_cascade.len() {
                        let tail2 = post_mspawn.subrange(
                            post_cascade.len() as int,
                            post_mspawn.len() as int,
                        );
                        assert(post_mspawn =~= post_cascade + tail2);
                        assert forall|i: int| 0 <= i < tail2.len() implies !fpu(#[trigger] tail2[i])
                            by {
                            assert(tail2[i] == post_mspawn[post_cascade.len() + i]);
                        }
                        crate::entity::lemma_count_matching_append(post_cascade, tail2, fpu);
                        crate::entity::lemma_count_matching_none(tail2, fpu);
                    } else {
                        assert(post_mspawn == post_cascade);
                    }
                }
                self.powerup_spawn_timer.tick(input.delta_ms);
                if self.powerup_spawn_timer.finished() {
                    self.powerup_spawn_timer.reset();
                    spawn_powerup_system(&mut self.entities, &self.window);
                }
                let ghost before_shoot = self.entities@;
                proof {
                    // every record appended since the hazard pass carries no
                    // player tag, so the first live player of the store at
                    // the firing pass is the one of the post-hazard store
                    assert forall|k: int|
                        s9.len() <= k < before_shoot.len() implies (
                    #[trigger] before_shoot[k]).player.is_none() && before_shoot[k].projectile_timer.is_none() by {
                        if k < post_cascade.len() {
                            assert(before_shoot[k] == post_cascade[k]);
                        } else if k < post_mspawn.len() {
                            assert(before_shoot[k] == post_mspawn[k]);
                        }
                    }
                    if crate::collision::spec_has_live_player(s9) {
                        crate::collision::lemma_has_first_live_player(s9);
                        let pd = crate::collision::spec_first_live_player_idx(s9);
                        assert forall|k: int| 0 <= k < s9.len() implies before_shoot[k] == s9[k]
                            by {}
                        assert(crate::collision::spec_is_first_live_player(before_shoot, pd));
                        crate::collision::lemma_first_live_player_idx(before_shoot, pd);
                    }
                    if crate::collision::spec_has_live_player(before_shoot) {
                        let w = choose|i: int|
                            0 <= i < before_shoot.len() && (
                            #[trigger] before_shoot[i]).is_live_player();
                        assert(before_shoot[w].is_live_player());
                        assert(s9[w].is_live_player());
                    }
                }
                projectile_shoot_system(&mut self.entities, input.fire, input.facing, input.delta_ms);
                let ghost after_shoot = self.entities@;
                proof {
                    crate::projectile::lemma_shoot_pass_len(
                        before_shoot,
                        input.fire,
                        input.facing,
                        input.delta_ms,
                    );
                    assert(hit.0.len() + 3 * hit.1.len() <= self.entities@.len() <= hit.0.len() + 3
                        * hit.1.len() + 3);
                }
                projectile_despawn_system(&mut self.entities, input.delta_ms);
                proof {
                    // the gated records, once appended, pass unchanged
                    // through the firing pass (which touches the player
                    // slot and the new projectile only) and the expiry
                    // pass (they carry no expiry timer)
                    if self.life.current_life != 0 {
                        assert forall|k: int|
                            hit.0.len() <= k < before_shoot.len() implies (
                        #[trigger] self.entities@[k]) == before_shoot[k] by {
                            assert(s9.len() == hit.0.len());
                            assert(before_shoot[k].player.is_none());
                            assert(after_shoot[k] == before_shoot[k]);
                            assert(before_shoot[k].projectile_timer.is_none());
                        }
                    }
                    if self.life.current_life != 0 && crate::collision::spec_has_live_player(s9) {
                        let pd = crate::collision::spec_first_live_player_idx(s9);
                        if crate::projectile::spec_can_shoot(s9[pd]) {
                            assert(before_shoot[pd] == s9[pd]);
                            let cd0 = ((s9[pd].shoot_cooldown)->0).0;
                            let cd1 = cd0.spec_ticked(input.delta_ms);
                            let fired = cd1.spec_finished() && input.fire;
                            if fired {
                                assert(after_shoot[pd].shoot_cooldown == Some(
                                    crate::components::PlayerShootCooldownComponent(
                                        cd0.spec_reset(),
                                    ),
                                ));
                                assert(self.entities@[pd].shoot_cooldown
                                    == after_shoot[pd].shoot_cooldown);
                                assert(self.entities@.last()
                                    == crate::projectile::spec_projectile_despawn_step(
                                    after_shoot.last(),
                                    input.delta_ms,
                                ));
                            } else {
                                assert(after_shoot[pd].shoot_cooldown == Some(
                                    crate::components::PlayerShootCooldownComponent(cd1),
                                ));
                                assert(self.entities@[pd].shoot_cooldown
                                    == after_shoot[pd].shoot_cooldown);
                                assert forall|i: int|
                                    hit.0.len() <= i < self.entities@.len() implies (
                                #[trigger] self.entities@[i]).projectile.is_none() by {
                                    assert(before_shoot[i].projectile.is_none());
                                    assert(after_shoot[i] == before_shoot[i]);
                                }
                            }
                        }
                    }
                }
                // phase transition last: the player's death ends the run
                // (damage application already raised the one player-dead
                // notification the moment life reached zero)
                if self.life.current_life == 0 {
                    player_died_system(&mut self.entities);
                    send_state_end_event(GameStates::InGame, &mut self.state_end_events);
                    let mut next = self.phase;
                    crate::manager::game_end(&mut next);
                    self.phase = next;
                    self.phase_timer.reset();
                    send_state_start_event(GameStates::EndGame, &mut self.state_start_events);
                    // entering the end-of-run phase despawns every entity
                    // flagged for cleanup; the player husk stays
                    cleanup_system(&mut self.entities);
                    proof {
                        assert(self.state_end_events@ =~= seq![StateEndEvent(GameStates::InGame)]);
                        assert(self.state_start_events@ =~= seq![
                            StateStartEvent(GameStates::EndGame),
                        ]);
                    }
                }
                }

    /// One frame of the simulation. The systems of the current phase run
    /// to completion in their fixed order; phase transitions are evaluated
    /// last, so a phase exit never truncates a tick's applied effects.
    ///
    /// The phase machine only ever steps along its cycle: the menu idles,
    /// the start-of-run phase leads into gameplay once its delay elapses,
    /// gameplay ends when the player dies, and the end-of-run phase loops
    /// back to a fresh start-of-run.
    #[verifier::rlimit(100)]
    pub fn tick(&mut self, input: TickInput)
        requires
            old(self).wf(),
            input.wf(),
            old(self).entities@.len() <= ENTITY_CAP,
        ensures
            final(self).wf(),
            final(self).window == old(self).window,
            final(self).border == old(self).border,
            old(self).phase == GameStates::Menu ==> final(self).phase == GameStates::Menu,
            old(self).phase == GameStates::StartGame ==> final(self).phase
                == GameStates::StartGame || final(self).phase == GameStates::InGame,
            old(self).phase == GameStates::InGame ==> final(self).phase == GameStates::InGame
                || final(self).phase == GameStates::EndGame,
            old(self).phase == GameStates::Progression ==> final(self).phase
                == GameStates::Progression,
            old(self).phase == GameStates::EndGame ==> final(self).phase == GameStates::EndGame
                || final(self).phase == GameStates::StartGame,
            old(self).phase == GameStates::InGame && final(self).phase == GameStates::EndGame
                ==> final(self).life.current_life == 0,
            old(self).phase == GameStates::Menu || old(self).phase == GameStates::StartGame
                || old(self).phase == GameStates::Progression ==> final(self).life == old(self).life,
            // the menu and the placeholder phase run kinematics and nothing
            // else: the store is exactly the rotated, moved old store
            old(self).phase == GameStates::Menu || old(self).phase == GameStates::Progression
                ==> final(self).entities@ == crate::common_systems::spec_rotate_pass(
                crate::common_systems::spec_move_pass(old(self).entities@),
            ) && final(self).phase_timer == old(self).phase_timer && final(self).meteor_spawn_timer == old(self).meteor_spawn_timer && final(self).powerup_spawn_timer == old(self).powerup_spawn_timer && final(self).player_dead_events@.len() == 0 && final(self).player_spawn_events@.len() == 0
                && final(self).state_start_events@.len() == 0 && final(self).state_end_events@.len() == 0,
            // start-of-run: kinematics runs, and the ticked phase delay
            // alone decides the transition into gameplay
            old(self).phase == GameStates::StartGame ==> ({
                let ticked = old(self).phase_timer.spec_ticked(input.delta_ms);
                &&& final(self).entities@ == crate::common_systems::spec_rotate_pass(
                    crate::common_systems::spec_move_pass(old(self).entities@),
                )
                &&& (final(self).phase == GameStates::InGame <==> ticked.spec_finished())
                &&& final(self).phase_timer == (if ticked.spec_finished() {
                    ticked.spec_reset()
                } else {
                    ticked
                })
                &&& final(self).meteor_spawn_timer == old(self).meteor_spawn_timer
                &&& final(self).powerup_spawn_timer == old(self).powerup_spawn_timer
                &&& ticked.spec_finished() ==> final(self).state_end_events@ == seq![
                    StateEndEvent(GameStates::StartGame),
                ] && final(self).state_start_events@ == seq![StateStartEvent(GameStates::InGame)]
                &&& !ticked.spec_finished() ==> final(self).state_end_events@.len() == 0 && final(self).state_start_events@.len() == 0
                &&& final(self).player_dead_events@.len() == 0
                &&& final(self).player_spawn_events@.len() == 0
            }),
            // gameplay: the detection prefix is deterministic, so the tick
            // pins life to the damage fold over what the hazard pass
            // emitted, raises exactly one player-dead notification on the
            // death tick, leaves gameplay exactly when life is exhausted,
            // and the split cascade grows the store by three children per
            // recorded event (plus at most one meteor, one power-up and
            // one projectile from the gated spawners)
            old(self).phase == GameStates::InGame ==> ({
                let pre = Self::spec_pre_collision(
                    old(self).entities@,
                    old(self).window,
                    old(self).border,
                    input,
                );
                let hit = crate::collision::spec_hit_pass(pre, Seq::empty(), pre.len() as int);
                let dmg = crate::collision::spec_hazard_damage(hit.0);
                let new_life = crate::collision::spec_apply_damage(
                    old(self).life.current_life as int,
                    dmg,
                );
                &&& final(self).life.max_life == old(self).life.max_life
                &&& final(self).life.current_life == new_life
                &&& (final(self).phase == GameStates::EndGame <==> new_life == 0)
                &&& final(self).player_dead_events@.len() == (if new_life == 0 && dmg.len() > 0 {
                    1int
                } else {
                    0int
                })
                &&& ({
                    // the time gates are owed behavior: the store length
                    // accounts exactly for the split children and each
                    // gated spawn, and when a gate fires on a survival
                    // tick the appended record stands at a fixed slot
                    // (a spawner skips only without a live player or at
                    // its population cap)
                    let s9 = crate::collision::spec_hazard_pass(hit.0);
                    let d0 = hit.0.len() + 3 * hit.1.len();
                    let m_spawned = old(self).meteor_spawn_timer.spec_ticked(
                        input.delta_ms,
                    ).spec_finished() && crate::collision::spec_has_live_player(s9)
                        && crate::entity::count_matching(s9, |e: Entity| e.is_live_meteor()) + 3
                        * hit.1.len() < crate::METEOR_MAX_COUNT as int;
                    let p_spawned = old(self).powerup_spawn_timer.spec_ticked(
                        input.delta_ms,
                    ).spec_finished() && crate::entity::count_matching(
                        s9,
                        |e: Entity| e.is_live_powerup(),
                    ) < crate::POWERUP_MAX_COUNT as int;
                    let shot = crate::collision::spec_has_live_player(s9)
                        && crate::projectile::spec_can_shoot(
                        s9[crate::collision::spec_first_live_player_idx(s9)],
                    ) && ((s9[crate::collision::spec_first_live_player_idx(
                        s9,
                    )].shoot_cooldown)->0).0.spec_ticked(input.delta_ms).spec_finished()
                        && input.fire;
                    &&& final(self).entities@.len() == d0 + (if m_spawned {
                        1int
                    } else {
                        0int
                    }) + (if p_spawned {
                        1int
                    } else {
                        0int
                    }) + (if shot {
                        1int
                    } else {
                        0int
                    })
                    &&& m_spawned && new_life != 0 ==> ({
                        let e = final(self).entities@[d0 as int];
                        &&& e == crate::meteor::spec_meteor_entity(
                            crate::MeteorSizeType::Large,
                            input.meteor_spawn_pos,
                            e.spec_rot(),
                            crate::common_systems::spec_spin_of(e),
                            input.meteor_spawn_vel,
                            Vec2i {
                                x: (old(self).window.h / 2) as i64,
                                y: (old(self).window.h / 2) as i64,
                            },
                        )
                        &&& (e.spec_rot() < 50 || e.spec_rot()
                            >= crate::components::TAU_MRAD - 50)
                        &&& -50 <= crate::common_systems::spec_spin_of(e) < 50
                    })
                    &&& p_spawned && new_life != 0 ==> ({
                        let e = final(self).entities@[d0 + (if m_spawned {
                            1int
                        } else {
                            0int
                        })];
                        let cx = old(self).window.w / 2;
                        let cy = old(self).window.h / 2;
                        &&& e == crate::powerup::spec_powerup_entity(
                            e.spec_pos(),
                            e.spec_rot(),
                            e.powerup->0,
                            e.spec_vel(),
                        )
                        &&& -cx <= e.spec_pos().x < cx
                        &&& (e.spec_pos().y == cy + crate::powerup::POWERUP_SPAWN_MARGIN
                            || e.spec_pos().y == -(cy + crate::powerup::POWERUP_SPAWN_MARGIN))
                        &&& -1500 <= e.spec_vel().x < 1500
                        &&& (e.spec_pos().y > cy ==> -1500 <= e.spec_vel().y < -1000)
                        &&& (e.spec_pos().y < cy ==> 1000 <= e.spec_vel().y < 1500)
                    })
                })
                &&& final(self).meteor_spawn_timer == (if old(self).meteor_spawn_timer.spec_ticked(
                    input.delta_ms,
                ).spec_finished() {
                    old(self).meteor_spawn_timer.spec_ticked(input.delta_ms).spec_reset()
                } else {
                    old(self).meteor_spawn_timer.spec_ticked(input.delta_ms)
                })
                &&& final(self).powerup_spawn_timer == (if old(self).powerup_spawn_timer.spec_ticked(input.delta_ms).spec_finished() {
                    old(self).powerup_spawn_timer.spec_ticked(input.delta_ms).spec_reset()
                } else {
                    old(self).powerup_spawn_timer.spec_ticked(input.delta_ms)
                })
                &&& new_life == 0 ==> final(self).state_end_events@ == seq![
                    StateEndEvent(GameStates::InGame),
                ] && final(self).state_start_events@ == seq![StateStartEvent(GameStates::EndGame)]
                &&& new_life != 0 ==> final(self).state_end_events@.len() == 0 && final(self).state_start_events@.len() == 0
                &&& final(self).player_spawn_events@.len() == 0
                &&& ({
                    // firing: on a survival tick with a player able to
                    // shoot, the ticked cooldown and the fire input decide
                    // exactly whether one projectile was appended and the
                    // cooldown restarted
                    let s9 = crate::collision::spec_hazard_pass(hit.0);
                    new_life != 0 && crate::collision::spec_has_live_player(s9) ==> ({
                        let pd = crate::collision::spec_first_live_player_idx(s9);
                        crate::projectile::spec_can_shoot(s9[pd]) ==> ({
                            let cd0 = ((s9[pd].shoot_cooldown)->0).0;
                            let cd1 = cd0.spec_ticked(input.delta_ms);
                            let fired = cd1.spec_finished() && input.fire;
                            &&& final(self).entities@[pd].shoot_cooldown == Some(
                                crate::components::PlayerShootCooldownComponent(
                                    if fired {
                                        cd0.spec_reset()
                                    } else {
                                        cd1
                                    },
                                ),
                            )
                            &&& fired ==> final(self).entities@.last()
                                == crate::projectile::spec_projectile_despawn_step(
                                crate::projectile::spec_projectile_entity(
                                    s9[pd].spec_pos(),
                                    s9[pd].spec_rot(),
                                    Vec2i {
                                        x: (input.facing.x * crate::PROJECTILE_SPEED) as i64,
                                        y: (input.facing.y * crate::PROJECTILE_SPEED) as i64,
                                    },
                                ),
                                input.delta_ms,
                            )
                            &&& !fired ==> forall|i: int|
                                hit.0.len() <= i < final(self).entities@.len() ==> (
                                #[trigger] final(self).entities@[i]).projectile.is_none()
                        })
                    })
                })
            }),
            // end of run: the ticked phase delay alone decides the restart,
            // which refills life and spawns a fresh player after the store
            // has only run kinematics
            old(self).phase == GameStates::EndGame ==> ({
                let ticked = old(self).phase_timer.spec_ticked(input.delta_ms);
                let kin = crate::common_systems::spec_rotate_pass(
                    crate::common_systems::spec_move_pass(old(self).entities@),
                );
                &&& (final(self).phase == GameStates::StartGame <==> ticked.spec_finished())
                &&& !ticked.spec_finished() ==> final(self).entities@ == kin && final(self).phase_timer == ticked && final(self).life == old(self).life && final(self).player_spawn_events@.len() == 0 && final(self).state_start_events@.len() == 0
                    && final(self).state_end_events@.len() == 0
                &&& ticked.spec_finished() ==> ({
                    &&& final(self).entities@.len() == old(self).entities@.len() + 1
                    &&& forall|i: int|
                        0 <= i < old(self).entities@.len() ==> (#[trigger] final(self).entities@[i]) == (if kin[i].is_live_player() {
                            kin[i].spec_killed()
                        } else {
                            kin[i]
                        })
                    &&& crate::collision::spec_is_first_live_player(
                        final(self).entities@,
                        old(self).entities@.len() as int,
                    )
                    &&& final(self).entities@.last() == crate::player::spec_player_entity(
                        (final(self).entities@.last().ship)->0,
                    )
                    &&& final(self).life.current_life == old(self).life.max_life
                    &&& final(self).life.max_life == old(self).life.max_life
                    &&& final(self).phase_timer == ticked.spec_reset()
                    &&& final(self).player_spawn_events@ == seq![PlayerSpawnEvent]
                    &&& final(self).state_start_events@ == seq![
                        StateStartEvent(GameStates::StartGame),
                    ]
                    &&& final(self).state_end_events@ == seq![StateEndEvent(GameStates::EndGame)]
                })
                &&& final(self).player_dead_events@.len() == 0
                &&& final(self).meteor_spawn_timer == old(self).meteor_spawn_timer
                &&& final(self).powerup_spawn_timer == old(self).powerup_spawn_timer
            }),
    {
        match self.phase {
            GameStates::Menu => {
                // last tick's notifications are stale now; drain them
                // first, then kinematics: integration and rotation run in
                // every phase
                crate::cleanup::event_cleanup(&mut self.player_dead_events);
                crate::cleanup::event_cleanup(&mut self.player_spawn_events);
                crate::cleanup::event_cleanup(&mut self.state_start_events);
                crate::cleanup::event_cleanup(&mut self.state_end_events);
                movement_system(&mut self.entities);
                update_rotation_system(&mut self.entities);
            },
            GameStates::StartGame => {
                // last tick's notifications are stale now; drain them
                // first, then kinematics: integration and rotation run in
                // every phase
                crate::cleanup::event_cleanup(&mut self.player_dead_events);
                crate::cleanup::event_cleanup(&mut self.player_spawn_events);
                crate::cleanup::event_cleanup(&mut self.state_start_events);
                crate::cleanup::event_cleanup(&mut self.state_end_events);
                movement_system(&mut self.entities);
                update_rotation_system(&mut self.entities);
                self.phase_timer.tick(input.delta_ms);
                if self.phase_timer.finished() {
                    send_state_end_event(GameStates::StartGame, &mut self.state_end_events);
                    let mut next = self.phase;
                    crate::manager::game_start(&mut next);
                    self.phase = next;
                    self.phase_timer.reset();
                    send_state_start_event(GameStates::InGame, &mut self.state_start_events);
                    proof {
                        assert(self.state_end_events@ =~= seq![
                            StateEndEvent(GameStates::StartGame),
                        ]);
                        assert(self.state_start_events@ =~= seq![
                            StateStartEvent(GameStates::InGame),
                        ]);
                    }
                }
            },
            GameStates::InGame => {
                self.in_game_step(input);
            },
            GameStates::Progression => {
                // last tick's notifications are stale now; drain them
                // first, then kinematics: integration and rotation run in
                // every phase
                crate::cleanup::event_cleanup(&mut self.player_dead_events);
                crate::cleanup::event_cleanup(&mut self.player_spawn_events);
                crate::cleanup::event_cleanup(&mut self.state_start_events);
                crate::cleanup::event_cleanup(&mut self.state_end_events);
                movement_system(&mut self.entities);
                update_rotation_system(&mut self.entities);
            },
            GameStates::EndGame => {
                // last tick's notifications are stale now; drain them
                // first, then kinematics: integration and rotation run in
                // every phase
                crate::cleanup::event_cleanup(&mut self.player_dead_events);
                crate::cleanup::event_cleanup(&mut self.player_spawn_events);
                crate::cleanup::event_cleanup(&mut self.state_start_events);
                crate::cleanup::event_cleanup(&mut self.state_end_events);
                movement_system(&mut self.entities);
                update_rotation_system(&mut self.entities);
                self.phase_timer.tick(input.delta_ms);
                if self.phase_timer.finished() {
                    send_state_end_event(GameStates::EndGame, &mut self.state_end_events);
                    self.enter_start_game();
                    proof {
                        assert(self.player_spawn_events@ =~= seq![PlayerSpawnEvent]);
                        assert(self.state_start_events@ =~= seq![
                            StateStartEvent(GameStates::StartGame),
                        ]);
                        assert(self.state_end_events@ =~= seq![StateEndEvent(GameStates::EndGame)]);
                    }
                }
            },
        }
    }
}

} // verus!
