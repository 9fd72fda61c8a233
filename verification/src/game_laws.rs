//! Properties of moving objects between zones.

use vstd::prelude::*;
use crate::ids::ObjectId;
use crate::types::Zone;
use crate::game::{GameObject, GameState, moved_to, moved_all, move_chain, relocated, object_index_from};
use crate::combat_state::lemma_object_index_same_ids;

verus! {

/// After a move, the object is found under the same id, in its new zone,
/// with no imprinted cards, and otherwise unchanged.
pub proof fn law_moved_object_is_in_new_zone(before: GameState, after: GameState, id: ObjectId, to: Zone)
    requires
        moved_to(before, after, id, to),
        before.object_of(id) is Some,
    ensures
        after.object_of(id) matches Some(o) && o == (GameObject {
            zone: to,
            imprinted: o.imprinted,
            ..before.object_of(id)->0
        }) && o.imprinted@.len() == 0,
{
    crate::game::lemma_object_index_from(before.objects@, id, 0);
    let k = object_index_from(before.objects@, id, 0)->0;
    let o = before.objects@[k];
    let moved = GameObject { zone: to, imprinted: after.objects@[k].imprinted, ..o };
    assert(after.objects@ == before.objects@.update(k, moved));
    assert forall|j: int| 0 <= j < before.objects@.len() implies #[trigger] before.objects@[j].id
        == after.objects@[j].id by {
        if j == k {
            assert(after.objects@[j] == moved);
        } else {
            assert(after.objects@[j] == before.objects@[j]);
        }
    }
    lemma_object_index_same_ids(before.objects@, after.objects@, id, 0);
}

/// A zone list ends with the object that entered it, and keeps no copy of
/// an object that left it (unless it re-entered).
pub proof fn law_relocated_list(s: Seq<ObjectId>, id: ObjectId, leaving: bool, entering: bool)
    ensures
        entering ==> relocated(s, id, leaving, entering).last() == id,
        leaving && !entering ==> !relocated(s, id, leaving, entering).contains(id),
        !leaving && !entering ==> relocated(s, id, leaving, entering) == s,
{
    if leaving {
        lemma_without_excludes(s, id);
    }
}

/// `without(s, id)` holds no `id`.
pub proof fn lemma_without_excludes(s: Seq<ObjectId>, id: ObjectId)
    ensures
        !crate::game::without(s, id).contains(id),
    decreases s.len(),
{
    if s.len() > 0 {
        lemma_without_excludes(s.drop_last(), id);
        let rest = crate::game::without(s.drop_last(), id);
        if s.last() != id {
            assert forall|k: int| 0 <= k < rest.push(s.last()).len() implies rest.push(s.last())[k] != id by {
                if k < rest.len() {
                    assert(rest.push(s.last())[k] == rest[k]);
                }
            }
        }
    }
}

/// Moving no objects changes nothing: milling from an empty library, or
/// exiling no chosen cards, leaves the game as it was.
pub proof fn law_moving_nothing_changes_nothing(before: GameState, after: GameState, to: Zone)
    requires
        moved_all(before, after, Seq::empty(), to),
    ensures
        after == before,
{
    let states = choose|states: Seq<GameState>|
        #[trigger] move_chain(states, Seq::empty(), to) && states[0] == before && states.last() == after;
    assert(states.len() == 1);
}

} // verus!
