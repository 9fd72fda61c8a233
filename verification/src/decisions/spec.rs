//! Decision specification traits and primitives.
//!
//! This module provides the core abstractions for the player decision system:
//! - `DecisionSpec`: A trait that all decision specifications implement
//! - `DecisionPrimitive`: Enum describing the primitive response shape for UI dispatch
//!
//! While there are many different decision *types* (sacrifice, discard,
//! choose targets, etc.), they all map to a small number of primitive *shapes*
//! (select objects, select options, pick a number, yes/no, etc.).

use vstd::prelude::*;
use crate::ids::{ObjectId, PlayerId};
use crate::combat_state::AttackTarget;
use crate::decision::FallbackStrategy;
use crate::game::GameState;
use crate::decisions::context::DecisionContext;
use crate::text::string_of;

verus! {

// ============================================================================
// Decision Primitive
// ============================================================================

/// The shape of the response a decision asks for.
#[derive(Debug, Clone, Copy, PartialEq, Eq, Structural)]
pub enum DecisionPrimitive {
    /// Select between `min` and `max` objects.
    SelectObjects { min: usize, max: Option<usize> },
    /// Select between `min` and `max` options.
    SelectOptions { min: usize, max: usize },
    /// Pick a number in a range.
    SelectNumber { min: u32, max: u32 },
    /// Yes or no.
    Boolean,
    /// Put items in order.
    Order,
    /// Declare attackers.
    DeclareAttackers,
    /// Declare blockers.
    DeclareBlockers,
    /// Distribute an amount among targets.
    Distribute { total: u32, min_per_target: u32 },
    /// Choose colors.
    SelectColors { count: u32, same_color: bool },
    /// Choose counters.
    SelectCounters { max_total: u32 },
    /// Split cards into two groups.
    Partition,
    /// A mix of the above.
    SelectMixed,
}

// ============================================================================
// Decision Spec Trait
// ============================================================================

/// A typed decision: what is asked, its response shape, the answer taken
/// when nobody answers, and the context shown to the decision maker.
pub trait DecisionSpec {
    /// The type of the answer.
    type Response;

    /// Text describing the decision.
    fn description(&self) -> String;

    /// The shape of the response.
    fn primitive(&self) -> DecisionPrimitive;

    /// The answer taken under the given fallback strategy.
    fn default_response(&self, strategy: FallbackStrategy) -> Self::Response;

    /// The context shown to the decision maker.
    fn build_context(&self, player: PlayerId, source: Option<ObjectId>, game: &GameState) -> DecisionContext;
}

// ============================================================================
// Supporting Types
// ============================================================================

/// A creature that may attack, and what it may attack.
#[derive(Debug, Clone)]
pub struct AttackerOption {
    /// The creature.
    pub creature: ObjectId,
    /// What it may attack.
    pub valid_targets: Vec<AttackTarget>,
    /// Whether it must attack if able.
    pub must_attack: bool,
}

/// A declared attack.
#[derive(Debug, Clone, Copy, PartialEq, Eq, Structural)]
pub struct AttackerDeclaration {
    /// The attacking creature.
    pub creature: ObjectId,
    /// What it attacks.
    pub target: AttackTarget,
}

/// An attacker and the creatures that may block it.
#[derive(Debug, Clone)]
pub struct BlockerOption {
    /// The attacker.
    pub attacker: ObjectId,
    /// The creatures that may block it.
    pub valid_blockers: Vec<ObjectId>,
    /// Fewest blockers it may have if blocked.
    pub min_blockers: usize,
}

/// A declared block.
#[derive(Debug, Clone, Copy, PartialEq, Eq, Structural)]
pub struct BlockerDeclaration {
    /// The blocking creature.
    pub blocker: ObjectId,
    /// The attacker it blocks.
    pub blocking: ObjectId,
}

/// An option shown to a player.
#[derive(Debug, Clone)]
pub struct DisplayOption {
    /// Its index.
    pub index: usize,
    /// Its text.
    pub description: String,
    /// Whether it may be chosen.
    pub legal: bool,
}

impl DisplayOption {
    /// A legal option.
    pub fn new(index: usize, description: &str) -> (o: DisplayOption)
        ensures
            o.index == index,
            o.description@ == description@,
            o.legal,
    {
        DisplayOption { index, description: string_of(description), legal: true }
    }

    /// An option with explicit legality.
    pub fn with_legality(index: usize, description: &str, legal: bool) -> (o: DisplayOption)
        ensures
            o.index == index,
            o.description@ == description@,
            o.legal == legal,
    {
        DisplayOption { index, description: string_of(description), legal }
    }
}

} // verus!
