//! Mill cost.

use vstd::prelude::*;
use crate::cost::CostPaymentError;
use crate::costs::{Cost, CostContext, CostPaymentResult};
use crate::game::GameState;
use crate::game::moved_all;
use crate::types::Zone;
use crate::text::{decimal, push_decimal, push_str, string_of};

verus! {

/// A mill cost (put cards from library into graveyard).
///
/// The player mills cards from the top of their library.
/// Milling from an empty library is legal (just does nothing).
#[derive(Debug, Clone, Copy, PartialEq, Eq, Structural)]
pub struct MillCost {
    /// The number of cards to mill.
    pub count: u32,
}

/// The text of a mill cost.
pub open spec fn mill_text(count: u32) -> Seq<char> {
    if count == 1 {
        "Mill a card"@
    } else {
        "Mill "@ + decimal(count as nat) + " cards"@
    }
}

/// The cards that milling `count` takes: the top `count` of the library, or
/// all of it if it is smaller.
pub open spec fn milled_cards(library: Seq<crate::ids::ObjectId>, count: u32) -> Seq<crate::ids::ObjectId> {
    if count as int <= library.len() {
        library.take(count as int)
    } else {
        library
    }
}

impl MillCost {
    /// Create a new mill cost.
    pub fn new(count: u32) -> (c: MillCost)
        ensures
            c.count == count,
    {
        MillCost { count }
    }

    /// Milling can always be paid, even from an empty library.
    pub fn can_pay(&self, game: &GameState, ctx: &CostContext) -> (r: Result<(), CostPaymentError>)
        ensures
            r == Ok::<(), CostPaymentError>(()),
    {
        Ok(())
    }

    /// Puts the top cards of the payer's library into the graveyard, one after
    /// another (fewer if the library is smaller); an unknown payer mills nothing.
    pub fn pay(&self, game: &mut GameState, ctx: &mut CostContext) -> (r: Result<CostPaymentResult, CostPaymentError>)
        ensures
            r == Ok::<CostPaymentResult, CostPaymentError>(CostPaymentResult::Paid),
            *final(ctx) == *old(ctx),
            match old(game).player_of(old(ctx).payer) {
                Some(p) => moved_all(*old(game), *final(game), milled_cards(p.library@, self.count), Zone::Graveyard),
                None => *final(game) == *old(game),
            },
    {
        let i = ctx.payer.0 as usize;
        if i < game.players.len() {
            let n = self.count as usize;
            let library = &game.players[i].library;
            let mut cards: Vec<crate::ids::ObjectId> = Vec::new();
            let mut j: usize = 0;
            while j < library.len() && j < n
                invariant
                    j <= library@.len(),
                    j <= n,
                    cards@ == library@.take(j as int),
                decreases library.len() - j,
            {
                cards.push(library[j]);
                j = j + 1;
            }
            proof {
                if n <= library@.len() {
                    assert(j == n);
                } else {
                    assert(library@.take(library@.len() as int) == library@);
                }
            }
            game.move_objects(&cards, Zone::Graveyard);
        }
        Ok(CostPaymentResult::Paid)
    }

    /// This cost as a cost component.
    pub fn clone_box(&self) -> (c: Cost)
        ensures
            c == Cost::Mill(*self),
    {
        Cost::Mill(*self)
    }

    /// `Mill a card` or `Mill N cards`.
    pub fn display(&self) -> (t: String)
        ensures
            t@ == mill_text(self.count),
    {
        if self.count == 1 {
            string_of("Mill a card")
        } else {
            let mut t = string_of("Mill ");
            push_decimal(&mut t, self.count as u64);
            push_str(&mut t, " cards");
            t
        }
    }
}

/// Milling from an empty library is legal and does nothing: the game after
/// paying is the game before.
pub proof fn law_milling_empty_library_changes_nothing(
    before: GameState,
    after: GameState,
    payer: crate::ids::PlayerId,
    count: u32,
)
    requires
        before.player_of(payer) matches Some(p) && p.library@.len() == 0 && moved_all(
            before,
            after,
            milled_cards(p.library@, count),
            Zone::Graveyard,
        ),
    ensures
        after == before,
{
    let p = before.player_of(payer)->0;
    assert(milled_cards(p.library@, count) =~= Seq::<crate::ids::ObjectId>::empty());
    crate::game_laws::law_moving_nothing_changes_nothing(before, after, Zone::Graveyard);
}

} // verus!
