//! Properties of combat that hold across several operations.

use vstd::prelude::*;
use crate::ids::ObjectId;
use crate::types::{CardType, Zone};
use crate::game::GameState;
use crate::combat_state::{
    AttackTarget, CombatError, CombatState, attackers_declared, blockers_declared, order_set, declares,
    blockers_for, infos_of, same_elements, entry_index_from, lemma_entry_index_from, attack_declaration_error,
    attack_outcome, first_attack_error_from, block_declaration_error, block_outcome, first_block_error_from,
    defending_player_of, occurrences, block_capacity, block_forbidden,
};

verus! {

/// A blocker declared against attacker `a` among the first `n` declarations
/// is in the list of blockers gathered for `a`.
pub proof fn lemma_blockers_for_contains(decls: Seq<(ObjectId, ObjectId)>, a: ObjectId, n: int, i: int)
    requires
        0 <= i < n <= decls.len(),
        decls[i].1 == a,
    ensures
        blockers_for(decls, a, n).contains(decls[i].0),
    decreases n,
{
    if i < n - 1 {
        lemma_blockers_for_contains(decls, a, n - 1, i);
        let rest = blockers_for(decls, a, n - 1);
        let k = choose|k: int| 0 <= k < rest.len() && rest[k] == decls[i].0;
        if decls[n - 1].1 == a {
            assert(rest.push(decls[n - 1].0)[k] == decls[i].0);
        }
    } else {
        assert(blockers_for(decls, a, n) == blockers_for(decls, a, n - 1).push(decls[i].0));
        assert(blockers_for(decls, a, n)[blockers_for(decls, a, n - 1).len() as int] == decls[i].0);
    }
}

/// A fresh or cleared combat has no participants: no creature attacks or
/// blocks, and no attacker has blockers or a damage assignment order.
pub proof fn law_empty_combat_has_no_participants(combat: CombatState)
    requires
        combat.empty(),
    ensures
        forall|c: ObjectId| !#[trigger] combat.attacking(c),
        forall|c: ObjectId| !#[trigger] combat.blocking(c),
        forall|a: ObjectId| #[trigger] combat.blockers_of(a) is None,
        forall|a: ObjectId| #[trigger] combat.order_of(a) is None,
{
}

/// After a successful declaration of attackers, every declared creature is
/// attacking and unblocked, and every creature that was already attacking
/// still is.
pub proof fn law_declared_attackers_attack_unblocked(
    before: CombatState,
    after: CombatState,
    decls: Seq<(ObjectId, AttackTarget)>,
)
    requires
        attackers_declared(before, after, decls),
    ensures
        forall|c: ObjectId| declares(decls, c) ==> #[trigger] after.attacking(c) && !after.blocked(c),
        forall|c: ObjectId| before.attacking(c) ==> #[trigger] after.attacking(c),
{
    assert forall|c: ObjectId| declares(decls, c) implies #[trigger] after.attacking(c) && !after.blocked(c) by {
        let j = choose|j: int| 0 <= j < decls.len() && (#[trigger] decls[j]).0 == c;
        let k = before.attackers@.len() + j;
        assert(infos_of(decls)[j].creature == c);
        assert(after.attackers@[k].creature == c);
        assert(after.blockers_of(c) == Some(Seq::<ObjectId>::empty()));
    }
    assert forall|c: ObjectId| before.attacking(c) implies #[trigger] after.attacking(c) by {
        let j = choose|j: int| 0 <= j < before.attackers@.len() && (#[trigger] before.attackers@[j]).creature == c;
        assert(after.attackers@[j] == before.attackers@[j]);
    }
}

/// After a successful declaration of blockers, every declared blocker is
/// blocking and every attacker it was declared against is blocked; the
/// attackers are unchanged.
pub proof fn law_declared_blockers_block(
    before: CombatState,
    after: CombatState,
    decls: Seq<(ObjectId, ObjectId)>,
)
    requires
        blockers_declared(before, after, decls),
    ensures
        forall|i: int| 0 <= i < decls.len() ==> #[trigger] after.blocking(decls[i].0) && after.blocked(decls[i].1),
        forall|c: ObjectId| #[trigger] after.attacking(c) == before.attacking(c),
{
    assert forall|i: int| 0 <= i < decls.len() implies #[trigger] after.blocking(decls[i].0) && after.blocked(
        decls[i].1,
    ) by {
        let a = decls[i].1;
        let n = decls.len() as int;
        lemma_blockers_for_contains(decls, a, n, i);
        let bs = blockers_for(decls, a, n);
        assert(after.blockers_of(a) == Some(bs));
        lemma_entry_index_from(after.blockers@, a, 0);
        let e = entry_index_from(after.blockers@, a, 0)->0;
        assert(after.blockers@[e].blockers@ == bs);
        let k = choose|k: int| 0 <= k < bs.len() && bs[k] == decls[i].0;
        assert(after.blockers@[e].blockers@[k] == decls[i].0);
    }
}

/// After a successful choice of damage assignment order, the order recorded
/// for the attacker holds exactly its blockers, each as often, and the
/// blockers themselves are unchanged.
pub proof fn law_damage_order_is_reordering_of_blockers(
    before: CombatState,
    after: CombatState,
    attacker: ObjectId,
    order: Seq<ObjectId>,
)
    requires
        order_set(before, after, attacker, order),
    ensures
        after.blockers_of(attacker) matches Some(bs) && after.order_of(attacker) matches Some(o)
            && same_elements(bs, o),
        forall|a: ObjectId| #[trigger] after.blockers_of(a) == before.blockers_of(a),
{
}

/// If one block declaration is refused, so is the whole declaration.
proof fn lemma_block_error_propagates(
    game: GameState,
    combat: CombatState,
    decls: Seq<(ObjectId, ObjectId)>,
    j: int,
    i: int,
)
    requires
        0 <= j <= i < decls.len(),
        block_declaration_error(game, combat, decls, i) is Some,
    ensures
        first_block_error_from(game, combat, decls, j) is Some,
    decreases i - j,
{
    if j < i && block_declaration_error(game, combat, decls, j) is None {
        lemma_block_error_propagates(game, combat, decls, j + 1, i);
    }
}

/// An attacker that can't be blocked can't be blocked: a declaration of
/// blockers that names such an attacker is refused as a whole (so
/// `declare_blockers` records nothing), and a lone declaration of an
/// untapped creature on the battlefield against it is refused with
/// `CreatureCannotBlock`.
pub proof fn law_unblockable_attacker_cannot_be_blocked(
    game: GameState,
    combat: CombatState,
    decls: Seq<(ObjectId, ObjectId)>,
    i: int,
)
    requires
        0 <= i < decls.len(),
        game.cant_effects.cant_be_blocked@.contains(decls[i].1),
    ensures
        block_outcome(game, combat, decls) is Some,
        ({
            let b = decls[i].0;
            let a = decls[i].1;
            (decls.len() == 1 && game.object_of(b) is Some && game.object_of(b)->0.zone == Zone::Battlefield
                && game.has_card_type(b, CardType::Creature) && !game.tapped_spec(b) && combat.attacking(a)
                && game.object_of(a) is Some) ==> block_outcome(game, combat, decls) == Some(
                CombatError::CreatureCannotBlock { blocker: b, attacker: a },
            )
        }),
{
    assert(block_declaration_error(game, combat, decls, i) is Some);
    lemma_block_error_propagates(game, combat, decls, 0, i);
    if decls.len() == 1 {
        let b = decls[0].0;
        assert(occurrences(decls, b, 0) == 0);
        assert(occurrences(decls, b, 1) == 1);
        if game.object_of(b) is Some {
            assert(block_capacity(game.object_of(b)->0) >= 1);
        }
        assert(block_forbidden(game, b, decls[0].1));
        assert(first_block_error_from(game, combat, decls, 1) is None);
    }
}

/// If one attack declaration is refused, so is the whole declaration.
proof fn lemma_attack_error_propagates(game: GameState, decls: Seq<(ObjectId, AttackTarget)>, j: int, i: int)
    requires
        0 <= j <= i < decls.len(),
        attack_declaration_error(game, decls, i) is Some,
    ensures
        first_attack_error_from(game, decls, j) is Some,
    decreases i - j,
{
    if j < i && attack_declaration_error(game, decls, j) is None {
        lemma_attack_error_propagates(game, decls, j + 1, i);
    }
}

/// A creature that can't attack doesn't attack: a declaration of attackers
/// that names it is refused as a whole (so `declare_attackers` adds no
/// attacker and taps nothing), and a lone declaration of it, untapped, on
/// the battlefield, controlled by the active player, at a valid target, is
/// refused with `CreatureCannotAttack`.
pub proof fn law_creature_that_cant_attack_does_not_attack(
    game: GameState,
    decls: Seq<(ObjectId, AttackTarget)>,
    i: int,
)
    requires
        0 <= i < decls.len(),
        game.cant_effects.cant_attack@.contains(decls[i].0),
    ensures
        attack_outcome(game, decls) is Some,
        ({
            let c = decls[i].0;
            (decls.len() == 1 && game.object_of(c) is Some && game.object_of(c)->0.zone == Zone::Battlefield
                && game.has_card_type(c, CardType::Creature) && game.object_of(c)->0.controller == game.active_player
                && !game.tapped_spec(c) && defending_player_of(game, decls[i].1) is Some) ==> attack_outcome(
                game,
                decls,
            ) == Some(CombatError::CreatureCannotAttack(c))
        }),
{
    assert(attack_declaration_error(game, decls, i) is Some);
    lemma_attack_error_propagates(game, decls, 0, i);
    if decls.len() == 1 {
        assert(first_attack_error_from(game, decls, 1) is None);
    }
}

} // verus!
