//! End-of-run cleanup and per-tick event buffers.

use vstd::prelude::*;

use crate::entity::Entity;

verus! {

/// Whether end-of-run cleanup removes this entity: it is live, flagged for
/// cleanup, and not the player (the player husk is handled separately by
/// the phase machine).
pub open spec fn spec_cleanup_removes(e: Entity) -> bool {
    &&& e.alive
    &&& e.cleanup matches Some(c) && c.despawn_entity
    &&& e.player.is_none()
}

/// Removes every live entity flagged for end-of-run cleanup — meteors,
/// power-ups and projectiles, but never the player.
pub fn cleanup_system(entities: &mut Vec<Entity>)
    requires
        forall|i: int| 0 <= i < old(entities)@.len() ==> (#[trigger] old(entities)@[i]).wf(),
    ensures
        final(entities)@.len() == old(entities)@.len(),
        forall|i: int|
            0 <= i < old(entities)@.len() ==> final(entities)@[i] == (if spec_cleanup_removes(
                old(entities)@[i],
            ) {
                (#[trigger] old(entities)@[i]).spec_killed()
            } else {
                old(entities)@[i]
            }),
        forall|i: int| 0 <= i < final(entities)@.len() ==> (#[trigger] final(entities)@[i]).wf(),
{
    let ghost s0 = entities@;
    let mut i: usize = 0;
    while i < entities.len()
        invariant
            i <= s0.len(),
            entities@.len() == s0.len(),
            forall|j: int|
                0 <= j < i ==> entities@[j] == (if spec_cleanup_removes(s0[j]) {
                    (#[trigger] s0[j]).spec_killed()
                } else {
                    s0[j]
                }),
            forall|j: int| i <= j < s0.len() ==> entities@[j] == s0[j],
            forall|j: int| 0 <= j < s0.len() ==> (#[trigger] s0[j]).wf(),
        decreases s0.len() - i,
    {
        proof {
            assert(entities@[i as int] == s0[i as int]);
            assert(s0[i as int].wf());
        }
        let e = entities[i];
        if e.alive && e.cleanup.is_some() && e.cleanup.unwrap().despawn_entity
            && e.player.is_none() {
            entities.set(i, Entity { alive: false, ..e });
        }
        i = i + 1;
    }
    proof {
        assert forall|j: int| 0 <= j < entities@.len() implies (#[trigger] entities@[j]).wf() by {
            assert(s0[j].wf());
        }
    }
}

/// Clears a per-tick event buffer; every buffer is emptied before the tick
/// ends so no event survives into the next collision pass.
pub fn event_cleanup<T>(events: &mut Vec<T>)
    ensures
        final(events)@.len() == 0,
{
    events.clear();
}

} // verus!
