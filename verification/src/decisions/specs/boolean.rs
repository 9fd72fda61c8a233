//! Boolean (yes/no) decision specifications.
//!
//! These specs are for decisions where the player chooses yes or no,
//! such as "may" effects, paying ward costs, casting with miracle, etc.
//! Declining is the answer unless the fallback strategy is to accept.

use vstd::prelude::*;
use crate::ids::{ObjectId, PlayerId};
use crate::mana::ManaCost;
use crate::game::GameState;
use crate::decision::FallbackStrategy;
use crate::decisions::context::{BooleanContext, DecisionContext};
use crate::decisions::spec::{DecisionPrimitive, DecisionSpec};
use crate::text::{push_str, string_of};

verus! {

/// What a ward ability asks to be paid.
#[derive(Debug, Clone, PartialEq)]
pub enum WardCost {
    /// A mana payment.
    Mana(ManaCost),
    /// A life payment.
    Life(u32),
}

// ============================================================================
// MaySpec - Optional "may" actions
// ============================================================================

/// An optional "you may" action.
#[derive(Debug, Clone)]
pub struct MaySpec {
    /// What the player may do.
    pub description: String,
    /// The source of the effect.
    pub source: ObjectId,
}

impl MaySpec {
    /// Create a new MaySpec.
    pub fn new(source: ObjectId, description: &str) -> (s: MaySpec)
        ensures
            s.source == source,
            s.description@ == description@,
    {
        MaySpec { description: string_of(description), source }
    }
}

impl DecisionSpec for MaySpec {
    type Response = bool;

    fn description(&self) -> (t: String)
        ensures
            t@ == "You may "@ + self.description@,
    {
        let mut t = string_of("You may ");
        push_str(&mut t, self.description.as_str());
        t
    }

    fn primitive(&self) -> (p: DecisionPrimitive)
        ensures
            p == DecisionPrimitive::Boolean,
    {
        DecisionPrimitive::Boolean
    }

    fn default_response(&self, strategy: FallbackStrategy) -> (b: bool)
        ensures
            b == (strategy == FallbackStrategy::Accept),
    {
        strategy == FallbackStrategy::Accept
    }

    fn build_context(&self, player: PlayerId, source: Option<ObjectId>, game: &GameState) -> (c: DecisionContext)
        ensures
            c matches DecisionContext::Boolean(b) && b.player == player && b.source == Some(self.source)
                && b.description@ == self.description@ && b.source_name is None,
    {
        DecisionContext::Boolean(BooleanContext::new(player, Some(self.source), self.description.as_str()))
    }
}

// ============================================================================
// WardSpec - Ward cost payment
// ============================================================================

/// Whether to pay a ward cost (declining counters the spell).
#[derive(Debug, Clone)]
pub struct WardSpec {
    /// The spell or ability that targeted.
    pub source: ObjectId,
    /// The permanent with ward.
    pub target: ObjectId,
    /// The ward cost.
    pub cost: WardCost,
    /// Text describing the cost.
    pub description: String,
}

impl WardSpec {
    /// Create a new WardSpec.
    pub fn new(source: ObjectId, target: ObjectId, cost: WardCost, description: &str) -> (s: WardSpec)
        ensures
            s.source == source,
            s.target == target,
            s.cost == cost,
            s.description@ == description@,
    {
        WardSpec { source, target, cost, description: string_of(description) }
    }

    /// `Pay ward cost: ` and the cost's text.
    fn ward_text(&self) -> (t: String)
        ensures
            t@ == "Pay ward cost: "@ + self.description@,
    {
        let mut t = string_of("Pay ward cost: ");
        push_str(&mut t, self.description.as_str());
        t
    }
}

impl DecisionSpec for WardSpec {
    type Response = bool;

    fn description(&self) -> (t: String)
        ensures
            t@ == "Pay ward cost: "@ + self.description@,
    {
        self.ward_text()
    }

    fn primitive(&self) -> (p: DecisionPrimitive)
        ensures
            p == DecisionPrimitive::Boolean,
    {
        DecisionPrimitive::Boolean
    }

    fn default_response(&self, strategy: FallbackStrategy) -> (b: bool)
        ensures
            b == (strategy == FallbackStrategy::Accept),
    {
        strategy == FallbackStrategy::Accept
    }

    fn build_context(&self, player: PlayerId, source: Option<ObjectId>, game: &GameState) -> (c: DecisionContext)
        ensures
            c matches DecisionContext::Boolean(b) && b.player == player && b.source == Some(self.source)
                && b.description@ == "Pay ward cost: "@ + self.description@ && b.source_name is None,
    {
        let text = self.ward_text();
        DecisionContext::Boolean(BooleanContext::new(player, Some(self.source), text.as_str()))
    }
}

// ============================================================================
// MiracleSpec - Miracle trigger
// ============================================================================

/// Whether to cast a card for its miracle cost.
#[derive(Debug, Clone)]
pub struct MiracleSpec {
    /// The card revealed.
    pub card: ObjectId,
    /// Its miracle cost.
    pub miracle_cost: ManaCost,
}

impl MiracleSpec {
    /// Create a new MiracleSpec.
    pub fn new(card: ObjectId, miracle_cost: ManaCost) -> (s: MiracleSpec)
        ensures
            s.card == card,
            s.miracle_cost == miracle_cost,
    {
        MiracleSpec { card, miracle_cost }
    }
}

impl DecisionSpec for MiracleSpec {
    type Response = bool;

    fn description(&self) -> (t: String)
        ensures
            t@ == "Cast with Miracle cost?"@,
    {
        string_of("Cast with Miracle cost?")
    }

    fn primitive(&self) -> (p: DecisionPrimitive)
        ensures
            p == DecisionPrimitive::Boolean,
    {
        DecisionPrimitive::Boolean
    }

    fn default_response(&self, strategy: FallbackStrategy) -> (b: bool)
        ensures
            b == (strategy == FallbackStrategy::Accept),
    {
        strategy == FallbackStrategy::Accept
    }

    fn build_context(&self, player: PlayerId, source: Option<ObjectId>, game: &GameState) -> (c: DecisionContext)
        ensures
            c matches DecisionContext::Boolean(b) && b.player == player && b.source == Some(self.card)
                && b.description@ == "Cast with Miracle cost?"@ && b.source_name is None,
    {
        DecisionContext::Boolean(BooleanContext::new(player, Some(self.card), "Cast with Miracle cost?"))
    }
}

// ============================================================================
// MadnessSpec - Madness trigger
// ============================================================================

/// Whether to cast a discarded card for its madness cost.
#[derive(Debug, Clone)]
pub struct MadnessSpec {
    /// The card discarded.
    pub card: ObjectId,
    /// Its madness cost.
    pub madness_cost: ManaCost,
}

impl MadnessSpec {
    /// Create a new MadnessSpec.
    pub fn new(card: ObjectId, madness_cost: ManaCost) -> (s: MadnessSpec)
        ensures
            s.card == card,
            s.madness_cost == madness_cost,
    {
        MadnessSpec { card, madness_cost }
    }
}

impl DecisionSpec for MadnessSpec {
    type Response = bool;

    fn description(&self) -> (t: String)
        ensures
            t@ == "Cast with Madness cost?"@,
    {
        string_of("Cast with Madness cost?")
    }

    fn primitive(&self) -> (p: DecisionPrimitive)
        ensures
            p == DecisionPrimitive::Boolean,
    {
        DecisionPrimitive::Boolean
    }

    fn default_response(&self, strategy: FallbackStrategy) -> (b: bool)
        ensures
            b == (strategy == FallbackStrategy::Accept),
    {
        strategy == FallbackStrategy::Accept
    }

    fn build_context(&self, player: PlayerId, source: Option<ObjectId>, game: &GameState) -> (c: DecisionContext)
        ensures
            c matches DecisionContext::Boolean(b) && b.player == player && b.source == Some(self.card)
                && b.description@ == "Cast with Madness cost?"@ && b.source_name is None,
    {
        DecisionContext::Boolean(BooleanContext::new(player, Some(self.card), "Cast with Madness cost?"))
    }
}

// ============================================================================
// AssignDamageAsUnblockedSpec - Thorn Elemental-style damage assignment
// ============================================================================

/// Whether a blocked attacker assigns its damage as though it were unblocked.
#[derive(Debug, Clone)]
pub struct AssignDamageAsUnblockedSpec {
    /// The attacker.
    pub attacker: ObjectId,
    /// Its name.
    pub attacker_name: String,
}

/// The question asked for an attacker with the given name.
pub open spec fn unblocked_damage_question(name: Seq<char>) -> Seq<char> {
    "Assign "@ + name + "'s damage to defending player instead of blockers?"@
}

impl AssignDamageAsUnblockedSpec {
    /// Create a new AssignDamageAsUnblockedSpec.
    pub fn new(attacker: ObjectId, attacker_name: &str) -> (s: AssignDamageAsUnblockedSpec)
        ensures
            s.attacker == attacker,
            s.attacker_name@ == attacker_name@,
    {
        AssignDamageAsUnblockedSpec { attacker, attacker_name: string_of(attacker_name) }
    }

    /// The question text.
    fn question(&self) -> (t: String)
        ensures
            t@ == unblocked_damage_question(self.attacker_name@),
    {
        let mut t = string_of("Assign ");
        push_str(&mut t, self.attacker_name.as_str());
        push_str(&mut t, "'s damage to defending player instead of blockers?");
        t
    }
}

impl DecisionSpec for AssignDamageAsUnblockedSpec {
    type Response = bool;

    fn description(&self) -> (t: String)
        ensures
            t@ == unblocked_damage_question(self.attacker_name@),
    {
        self.question()
    }

    fn primitive(&self) -> (p: DecisionPrimitive)
        ensures
            p == DecisionPrimitive::Boolean,
    {
        DecisionPrimitive::Boolean
    }

    fn default_response(&self, strategy: FallbackStrategy) -> (b: bool)
        ensures
            b == (strategy == FallbackStrategy::Accept),
    {
        strategy == FallbackStrategy::Accept
    }

    fn build_context(&self, player: PlayerId, source: Option<ObjectId>, game: &GameState) -> (c: DecisionContext)
        ensures
            c matches DecisionContext::Boolean(b) && b.player == player && b.source == Some(self.attacker)
                && b.description@ == unblocked_damage_question(self.attacker_name@)
                && (b.source_name matches Some(n) && n@ == self.attacker_name@),
    {
        let text = self.question();
        DecisionContext::Boolean(
            BooleanContext::new(player, Some(self.attacker), text.as_str()).with_source_name(
                self.attacker_name.as_str(),
            ),
        )
    }
}

} // verus!
