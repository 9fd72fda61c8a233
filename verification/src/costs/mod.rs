//! The individual cost components and how each is checked and paid.

pub mod energy;
pub mod exile;
pub mod mill;

use vstd::prelude::*;
use crate::ids::{ObjectId, PlayerId};
use crate::mana::ManaCost;
use crate::game::GameState;
use crate::cost::CostPaymentError;
use crate::costs::energy::{EnergyCost, energy_error};
use crate::costs::exile::{
    ExileSelfCost, ExileFromGraveyardCost, ExileFromHandCost, exile_self_error, graveyard_exile_error,
    hand_exile_error,
};
use crate::costs::mill::MillCost;

verus! {

/// Who pays a cost, for what source, and which cards were chosen ahead of
/// time for costs that ask for a choice.
#[derive(Debug, Clone)]
pub struct CostContext {
    /// The object whose cost is paid (the spell or the permanent).
    pub source: ObjectId,
    /// The player paying.
    pub payer: PlayerId,
    /// Cards chosen before payment began, used in order by costs that need them.
    pub pre_chosen_cards: Vec<ObjectId>,
}

impl CostContext {
    /// A context with no cards chosen ahead of time.
    pub fn new(source: ObjectId, payer: PlayerId) -> (ctx: CostContext)
        ensures
            ctx.source == source,
            ctx.payer == payer,
            ctx.pre_chosen_cards@.len() == 0,
    {
        CostContext { source, payer, pre_chosen_cards: Vec::new() }
    }
}

/// The outcome of paying a cost component.
#[derive(Debug, Clone, PartialEq)]
pub enum CostPaymentResult {
    /// The cost was paid.
    Paid,
    /// The player still has to choose; the text describes the choice.
    NeedsChoice(String),
}

/// One component of a cost.
#[derive(Debug, Clone, PartialEq)]
pub enum Cost {
    /// A mana payment.
    Mana(ManaCost),
    /// Paying energy.
    Energy(EnergyCost),
    /// Exiling the source.
    ExileSelf(ExileSelfCost),
    /// Exiling cards from the graveyard.
    ExileFromGraveyard(ExileFromGraveyardCost),
    /// Exiling cards from the hand.
    ExileFromHand(ExileFromHandCost),
    /// Milling cards.
    Mill(MillCost),
}

/// Why component `c` cannot be paid by `payer` for `source`, if it cannot.
/// Mana is paid from the mana pool when the cost is paid, so this check
/// never refuses it.
pub open spec fn component_error(game: GameState, source: ObjectId, payer: PlayerId, c: Cost) -> Option<
    CostPaymentError,
> {
    match c {
        Cost::Mana(_) => None,
        Cost::Energy(e) => energy_error(game, payer, e.amount),
        Cost::ExileSelf(_) => exile_self_error(game, source),
        Cost::ExileFromGraveyard(e) => graveyard_exile_error(game, payer, e),
        Cost::ExileFromHand(e) => hand_exile_error(game, payer, source, e),
        Cost::Mill(_) => None,
    }
}

impl Cost {
    /// A mana cost component.
    pub fn mana(mana_cost: ManaCost) -> (c: Cost)
        ensures
            c == Cost::Mana(mana_cost),
    {
        Cost::Mana(mana_cost)
    }

    /// The mana cost, if this is a mana component.
    pub fn mana_cost_ref(&self) -> (r: Option<&ManaCost>)
        ensures
            match *self {
                Cost::Mana(m) => r == Some(&m),
                _ => r is None,
            },
    {
        match self {
            Cost::Mana(m) => Some(m),
            _ => None,
        }
    }

    /// Checks whether `payer` can pay this component for `source`.
    pub fn can_pay_for(&self, game: &GameState, source: ObjectId, payer: PlayerId) -> (r: Result<(), CostPaymentError>)
        ensures
            r == match component_error(*game, source, payer, *self) {
                Some(e) => Err::<(), CostPaymentError>(e),
                None => Ok(()),
            },
    {
        let ctx = CostContext::new(source, payer);
        match self {
            Cost::Mana(_) => Ok(()),
            Cost::Energy(e) => e.can_pay(game, &ctx),
            Cost::ExileSelf(e) => e.can_pay(game, &ctx),
            Cost::ExileFromGraveyard(e) => e.can_pay(game, &ctx),
            Cost::ExileFromHand(e) => e.can_pay(game, &ctx),
            Cost::Mill(e) => e.can_pay(game, &ctx),
        }
    }

    /// Text describing this component.
    pub fn display(&self) -> (t: String)
        ensures
            t@ == component_text(*self),
    {
        match self {
            Cost::Mana(m) => m.to_oracle(),
            Cost::Energy(e) => e.display(),
            Cost::ExileSelf(e) => e.display(),
            Cost::ExileFromGraveyard(e) => e.display(),
            Cost::ExileFromHand(e) => e.display(),
            Cost::Mill(e) => e.display(),
        }
    }
}

/// The text of a component.
pub open spec fn component_text(c: Cost) -> Seq<char> {
    match c {
        Cost::Mana(m) => crate::mana::mana_cost_text(m),
        Cost::Energy(e) => crate::costs::energy::energy_text(e.amount),
        Cost::ExileSelf(_) => "Exile ~"@,
        Cost::ExileFromGraveyard(e) => crate::costs::exile::graveyard_exile_text(e),
        Cost::ExileFromHand(e) => crate::costs::exile::hand_exile_text(e),
        Cost::Mill(e) => crate::costs::mill::mill_text(e.count),
    }
}

} // verus!
