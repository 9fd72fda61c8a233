//! Properties of library searches.

use vstd::prelude::*;
use crate::ids::{ObjectId, PlayerId};
use crate::game::GameState;
use crate::cards::ability::CardFilter;
use crate::types::CardType;
use crate::card::permanent_types;
use crate::executor::{accepted, filter_accepts, first_n, searched_by, without_all};

verus! {

/// Recording a search: the player is then recorded, a player is never
/// recorded twice, and recording the same player again changes nothing.
pub proof fn law_search_is_recorded_once(searches: Seq<PlayerId>, p: PlayerId)
    ensures
        searched_by(searches, p).contains(p),
        searches.no_duplicates() ==> searched_by(searches, p).no_duplicates(),
        searched_by(searched_by(searches, p), p) == searched_by(searches, p),
{
    if !searches.contains(p) {
        assert(searches.push(p)[searches.len() as int] == p);
    }
    assert(searched_by(searches, p).contains(p));
}

/// The accepted cards are cards of the list that the filter accepts, in order.
proof fn lemma_accepted(game: GameState, cards: Seq<ObjectId>, f: CardFilter)
    ensures
        accepted(game, cards, f).len() <= cards.len(),
        forall|k: int|
            0 <= k < accepted(game, cards, f).len() ==> cards.contains(#[trigger] accepted(game, cards, f)[k])
                && filter_accepts(game, accepted(game, cards, f)[k], f),
    decreases cards.len(),
{
    if cards.len() > 0 {
        lemma_accepted(game, cards.drop_last(), f);
        let rest = accepted(game, cards.drop_last(), f);
        assert forall|k: int| 0 <= k < accepted(game, cards, f).len() implies cards.contains(
            #[trigger] accepted(game, cards, f)[k],
        ) && filter_accepts(game, accepted(game, cards, f)[k], f) by {
            if k < rest.len() {
                let x = rest[k];
                let i = choose|i: int| 0 <= i < cards.drop_last().len() && cards.drop_last()[i] == x;
                assert(cards[i] == x);
            } else {
                assert(cards[cards.len() - 1] == cards.last());
            }
        }
    }
}

/// A search finds no more cards than it allows, and only cards of the
/// library that the filter accepts.
pub proof fn law_search_finds_only_matching_cards(game: GameState, library: Seq<ObjectId>, f: CardFilter, max_count: u32)
    ensures
        first_n(accepted(game, library, f), max_count).len() <= max_count,
        forall|k: int|
            0 <= k < first_n(accepted(game, library, f), max_count).len() ==> library.contains(
                #[trigger] first_n(accepted(game, library, f), max_count)[k],
            ) && filter_accepts(game, first_n(accepted(game, library, f), max_count)[k], f),
{
    lemma_accepted(game, library, f);
    let a = accepted(game, library, f);
    assert forall|k: int| 0 <= k < first_n(a, max_count).len() implies library.contains(
        #[trigger] first_n(a, max_count)[k],
    ) && filter_accepts(game, first_n(a, max_count)[k], f) by {
        assert(first_n(a, max_count)[k] == a[k]);
    }
}

/// A card stays in `without_all(s, removed)` exactly when it is in `s` and
/// not in `removed`.
proof fn lemma_without_all(s: Seq<ObjectId>, removed: Seq<ObjectId>, x: ObjectId)
    ensures
        without_all(s, removed).contains(x) <==> s.contains(x) && !removed.contains(x),
    decreases s.len(),
{
    if s.len() > 0 {
        let init = s.drop_last();
        let last = s.last();
        lemma_without_all(init, removed, x);
        let rest = without_all(init, removed);
        let w = without_all(s, removed);
        assert(w == if removed.contains(last) { rest } else { rest.push(last) });
        if s.contains(x) && !removed.contains(x) {
            let i = choose|i: int| 0 <= i < s.len() && s[i] == x;
            if i < s.len() - 1 {
                assert(init[i] == x);
                let j = choose|j: int| 0 <= j < rest.len() && rest[j] == x;
                if !removed.contains(last) {
                    assert(rest.push(last)[j] == x);
                }
                assert(w[j] == x);
            } else {
                assert(last == x);
                assert(rest.push(last)[rest.len() as int] == x);
            }
        }
        if w.contains(x) {
            let j = choose|j: int| 0 <= j < w.len() && w[j] == x;
            if !removed.contains(last) && j == rest.len() {
                assert(s[s.len() - 1] == x);
            } else {
                assert(rest[j] == x);
                let i = choose|i: int| 0 <= i < init.len() && init[i] == x;
                assert(s[i] == x);
            }
        }
    }
}

/// Putting the found cards on top keeps the library's cards: a card is in
/// the new library exactly when it was in the old one.
pub proof fn law_top_of_library_keeps_the_cards(game: GameState, library: Seq<ObjectId>, f: CardFilter, max_count: u32)
    ensures
        forall|x: ObjectId|
            #![trigger library.contains(x)]
            (first_n(accepted(game, library, f), max_count) + without_all(
                library,
                first_n(accepted(game, library, f), max_count),
            )).contains(x) <==> library.contains(x),
{
    let chosen = first_n(accepted(game, library, f), max_count);
    law_search_finds_only_matching_cards(game, library, f, max_count);
    assert forall|x: ObjectId| #![trigger library.contains(x)] (chosen + without_all(library, chosen)).contains(x)
        <==> library.contains(x) by {
        lemma_without_all(library, chosen, x);
        let all = chosen + without_all(library, chosen);
        if all.contains(x) {
            let j = choose|j: int| 0 <= j < all.len() && all[j] == x;
            if j < chosen.len() {
                assert(chosen[j] == x);
            } else {
                assert(without_all(library, chosen)[j - chosen.len()] == x);
            }
        }
        if library.contains(x) {
            if chosen.contains(x) {
                let j = choose|j: int| 0 <= j < chosen.len() && chosen[j] == x;
                assert(all[j] == x);
            } else {
                let w = without_all(library, chosen);
                let j = choose|j: int| 0 <= j < w.len() && w[j] == x;
                assert(all[chosen.len() + j] == x);
            }
        }
    }
}

/// A card filter's list of card types asks for any one of them, in
/// whatever order they are listed: a card of one of the listed types that
/// meets the filter's other conditions is accepted, and a card the filter
/// accepts has at least one of the listed types (if any are listed).
pub proof fn law_filter_accepts_any_listed_type(game: GameState, id: ObjectId, f: CardFilter, t: CardType)
    ensures
        (game.object_of(id) is Some && f.card_types@.contains(t) && game.object_of(id)->0.card_types@.contains(t)
            && (forall|x: CardType| f.excluded_card_types@.contains(x) ==> !game.object_of(id)->0.card_types@.contains(x))
            && (f.permanent ==> permanent_types(game.object_of(id)->0.card_types@))
            && (f.max_mana_value is Some ==> game.object_of(id)->0.mana_value <= f.max_mana_value->0))
            ==> filter_accepts(game, id, f),
        (filter_accepts(game, id, f) && f.card_types@.len() > 0) ==> exists|x: CardType|
            f.card_types@.contains(x) && game.object_of(id)->0.card_types@.contains(x),
{
    if game.object_of(id) is Some {
        let o = game.object_of(id)->0;
        if f.card_types@.contains(t) && o.card_types@.contains(t) {
            let i = choose|i: int| 0 <= i < f.card_types@.len() && f.card_types@[i] == t;
            assert(o.card_types@.contains(f.card_types@[i]));
        }
        assert forall|i: int| 0 <= i < f.excluded_card_types@.len() && (forall|x: CardType|
            f.excluded_card_types@.contains(x) ==> !o.card_types@.contains(x)) implies !o.card_types@.contains(
            f.excluded_card_types@[i],
        ) by {
            assert(f.excluded_card_types@.contains(f.excluded_card_types@[i]));
        }
        if filter_accepts(game, id, f) && f.card_types@.len() > 0 {
            let i = choose|i: int|
                0 <= i < f.card_types@.len() && o.card_types@.contains(#[trigger] f.card_types@[i]);
            assert(f.card_types@.contains(f.card_types@[i]));
        }
    }
}

} // verus!
