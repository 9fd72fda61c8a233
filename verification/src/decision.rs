//! The player-facing side of decisions: who decides, and what happens when
//! nobody does.

use vstd::prelude::*;
use crate::ids::ObjectId;
use crate::types::Color;
use crate::game::GameState;
use crate::decisions::context::{BooleanContext, ColorsContext, SelectObjectsContext, SelectOptionsContext};

verus! {

/// What to answer when no decision maker gives an answer.
#[derive(Debug, Clone, Copy, PartialEq, Eq, Structural)]
pub enum FallbackStrategy {
    /// Say yes to optional actions.
    Accept,
    /// Say no to optional actions.
    Decline,
    /// Take the first option offered.
    FirstOption,
    /// Do as little as allowed.
    Minimum,
    /// Do as much as allowed.
    Maximum,
}

/// An action a player may take when given priority.
#[derive(Debug, Clone, Copy, PartialEq, Eq, Structural)]
pub enum LegalAction {
    /// Pass priority.
    PassPriority,
    /// Play a land from hand.
    PlayLand(ObjectId),
    /// Cast a spell.
    CastSpell(ObjectId),
    /// Activate the ability with the given index of a permanent.
    ActivateAbility(ObjectId, usize),
}

/// Makes choices for a player. Each method returns the player's answer, or
/// `None` when it gives none, in which case the caller falls back to a
/// default.
pub trait DecisionMaker {
    /// A yes/no choice.
    fn decide_boolean(&mut self, game: &GameState, ctx: &BooleanContext) -> Option<bool>;

    /// A choice of objects, by id.
    fn decide_objects(&mut self, game: &GameState, ctx: &SelectObjectsContext) -> Option<Vec<ObjectId>>;

    /// A choice of options, by index.
    fn decide_options(&mut self, game: &GameState, ctx: &SelectOptionsContext) -> Option<Vec<usize>>;

    /// A choice of colors.
    fn decide_colors(&mut self, game: &GameState, ctx: &ColorsContext) -> Option<Vec<Color>>;
}

/// A decision maker that never answers, so every decision takes its fallback.
#[derive(Debug, Clone, Copy)]
pub struct AutoPassDecisionMaker;

impl DecisionMaker for AutoPassDecisionMaker {
    fn decide_boolean(&mut self, game: &GameState, ctx: &BooleanContext) -> (r: Option<bool>)
        ensures
            r is None,
    {
        None
    }

    fn decide_objects(&mut self, game: &GameState, ctx: &SelectObjectsContext) -> (r: Option<Vec<ObjectId>>)
        ensures
            r is None,
    {
        None
    }

    fn decide_options(&mut self, game: &GameState, ctx: &SelectOptionsContext) -> (r: Option<Vec<usize>>)
        ensures
            r is None,
    {
        None
    }

    fn decide_colors(&mut self, game: &GameState, ctx: &ColorsContext) -> (r: Option<Vec<Color>>)
        ensures
            r is None,
    {
        None
    }
}

} // verus!
