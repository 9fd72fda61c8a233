//! Properties of the continuous effects of static abilities.

use vstd::prelude::*;
use crate::types::{CardType, Zone};
use crate::statics::StaticAbility;
use crate::game::{GameObject, GameState};
use crate::continuous::{anthem_from, anthems, granted, grants_from, same_but_statics, statics_current};

verus! {

/// Whether an ability of `source` could reach `target` at all.
pub open spec fn could_reach(source: GameObject, target: GameObject) -> bool {
    &&& source.zone == Zone::Battlefield
    &&& target.zone == Zone::Battlefield
    &&& target.card_types@.contains(CardType::Creature)
    &&& target.controller == source.controller
}

/// Abilities that cannot reach `target` grant it nothing and add nothing to it.
proof fn lemma_unreached_abilities(
    game: GameState,
    abs: Seq<StaticAbility>,
    source: GameObject,
    target: GameObject,
    toughness: bool,
    acc: int,
)
    requires
        !could_reach(source, target),
    ensures
        grants_from(game, abs, source, target) == Seq::<StaticAbility>::empty(),
        anthem_from(game, abs, source, target, toughness, acc) == acc,
    decreases abs.len(),
{
    if abs.len() > 0 {
        lemma_unreached_abilities(game, abs.drop_first(), source, target, toughness, acc);
        assert(grants_from(game, abs, source, target) =~= Seq::<StaticAbility>::empty());
    }
}

/// Objects none of which can reach `target` grant it nothing and add nothing to it.
proof fn lemma_unreached_objects(game: GameState, objs: Seq<GameObject>, target: GameObject, toughness: bool, acc: int)
    requires
        forall|j: int| 0 <= j < objs.len() ==> !could_reach(#[trigger] objs[j], target),
    ensures
        granted(game, objs, target) == Seq::<StaticAbility>::empty(),
        anthems(game, objs, target, toughness, acc) == acc,
    decreases objs.len(),
{
    if objs.len() > 0 {
        lemma_unreached_abilities(game, objs[0].base_static_abilities@, objs[0], target, toughness, acc);
        assert forall|j: int| 0 <= j < objs.drop_first().len() implies !could_reach(
            #[trigger] objs.drop_first()[j],
            target,
        ) by {
            assert(!could_reach(objs[j + 1], target));
        }
        lemma_unreached_objects(game, objs.drop_first(), target, toughness, acc);
        assert(granted(game, objs, target) =~= Seq::<StaticAbility>::empty());
    }
}

/// Continuous effects of static abilities reach only creatures on the
/// battlefield: any other object is granted nothing, and its power and
/// toughness get no bonus.
pub proof fn law_only_creatures_on_the_battlefield_are_affected(
    game: GameState,
    target: GameObject,
    toughness: bool,
    acc: int,
)
    requires
        !(target.zone == Zone::Battlefield && target.card_types@.contains(CardType::Creature)),
    ensures
        granted(game, game.objects@, target) == Seq::<StaticAbility>::empty(),
        anthems(game, game.objects@, target, toughness, acc) == acc,
{
    lemma_unreached_objects(game, game.objects@, target, toughness, acc);
}

/// A permanent's static abilities affect only creatures its controller
/// controls: a creature whose controller controls none of the permanents
/// is granted nothing and gets no bonus.
pub proof fn law_effects_stay_with_their_controller(game: GameState, target: GameObject, toughness: bool, acc: int)
    requires
        forall|j: int| 0 <= j < game.objects@.len() ==> (#[trigger] game.objects@[j]).controller != target.controller,
    ensures
        granted(game, game.objects@, target) == Seq::<StaticAbility>::empty(),
        anthems(game, game.objects@, target, toughness, acc) == acc,
{
    lemma_unreached_objects(game, game.objects@, target, toughness, acc);
}

/// Once the abilities of every object are up to date, bringing them up to
/// date again changes nothing.
pub proof fn law_update_is_idempotent(before: GameState, after: GameState)
    requires
        statics_current(before),
        same_but_statics(before, after),
        forall|k: int|
            0 <= k < before.objects@.len() ==> (#[trigger] after.objects@[k]).static_abilities@
                == before.objects@[k].base_static_abilities@ + granted(before, before.objects@, before.objects@[k]),
    ensures
        forall|k: int|
            0 <= k < before.objects@.len() ==> (#[trigger] after.objects@[k]).static_abilities@
                == before.objects@[k].static_abilities@,
{
    assert forall|k: int| 0 <= k < before.objects@.len() implies (#[trigger] after.objects@[k]).static_abilities@
        == before.objects@[k].static_abilities@ by {
        assert(before.objects@[k].static_abilities@ == before.objects@[k].base_static_abilities@ + granted(
            before,
            before.objects@,
            before.objects@[k],
        ));
    }
}

} // verus!
