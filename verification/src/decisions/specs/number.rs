//! Numeric decision specifications.
//!
//! These specs are for decisions where the player chooses a number within a range,
//! such as X value for spells or "choose a number" effects.

use vstd::prelude::*;
use crate::ids::{ObjectId, PlayerId};
use crate::game::GameState;
use crate::decision::FallbackStrategy;
use crate::decisions::context::{DecisionContext, NumberContext};
use crate::decisions::spec::{DecisionPrimitive, DecisionSpec};
use crate::text::{decimal, push_decimal, push_str, string_of};

verus! {

// ============================================================================
// XValueSpec - X value for spells
// ============================================================================

/// The value of X for a spell, from 0 to `max_x`.
#[derive(Debug, Clone, Copy, PartialEq, Eq, Structural)]
pub struct XValueSpec {
    /// The spell.
    pub source: ObjectId,
    /// The largest X allowed.
    pub max_x: u32,
}

/// The text of an X choice.
pub open spec fn x_value_text(max_x: u32) -> Seq<char> {
    "Choose value for X (0-"@ + decimal(max_x as nat) + ")"@
}

impl XValueSpec {
    /// Create a new XValueSpec.
    pub fn new(source: ObjectId, max_x: u32) -> (s: XValueSpec)
        ensures
            s.source == source,
            s.max_x == max_x,
    {
        XValueSpec { source, max_x }
    }

    /// The text of the choice.
    fn text(&self) -> (t: String)
        ensures
            t@ == x_value_text(self.max_x),
    {
        let mut t = string_of("Choose value for X (0-");
        push_decimal(&mut t, self.max_x as u64);
        push_str(&mut t, ")");
        t
    }
}

impl DecisionSpec for XValueSpec {
    type Response = u32;

    fn description(&self) -> (t: String)
        ensures
            t@ == x_value_text(self.max_x),
    {
        self.text()
    }

    fn primitive(&self) -> (p: DecisionPrimitive)
        ensures
            p == (DecisionPrimitive::SelectNumber { min: 0, max: self.max_x }),
    {
        DecisionPrimitive::SelectNumber { min: 0, max: self.max_x }
    }

    /// The largest X under `Maximum`, else 0.
    fn default_response(&self, strategy: FallbackStrategy) -> (n: u32)
        ensures
            n == if strategy == FallbackStrategy::Maximum { self.max_x } else { 0 },
    {
        match strategy {
            FallbackStrategy::Minimum => 0,
            FallbackStrategy::Maximum => self.max_x,
            _ => 0,
        }
    }

    fn build_context(&self, player: PlayerId, source: Option<ObjectId>, game: &GameState) -> (c: DecisionContext)
        ensures
            c matches DecisionContext::Number(n) && n.player == player && n.source == Some(self.source) && n.min
                == 0 && n.max == self.max_x && n.description@ == x_value_text(self.max_x) && !n.is_x_value,
    {
        let text = self.text();
        DecisionContext::Number(NumberContext::new(player, Some(self.source), 0, self.max_x, text.as_str()))
    }
}

// ============================================================================
// NumberSpec - General number selection
// ============================================================================

/// A number between `min` and `max`.
#[derive(Debug, Clone)]
pub struct NumberSpec {
    /// The source of the effect.
    pub source: ObjectId,
    /// Smallest allowed.
    pub min: u32,
    /// Largest allowed.
    pub max: u32,
    /// What the number is for.
    pub description: String,
}

/// The text of a number choice: `… (up to max)` from zero, else `… (min-max)`.
pub open spec fn number_text(description: Seq<char>, min: u32, max: u32) -> Seq<char> {
    if min == 0 {
        description + " (up to "@ + decimal(max as nat) + ")"@
    } else {
        description + " ("@ + decimal(min as nat) + "-"@ + decimal(max as nat) + ")"@
    }
}

impl NumberSpec {
    /// Create a new NumberSpec.
    pub fn new(source: ObjectId, min: u32, max: u32, description: &str) -> (s: NumberSpec)
        ensures
            s.source == source,
            s.min == min,
            s.max == max,
            s.description@ == description@,
    {
        NumberSpec { source, min, max, description: string_of(description) }
    }

    /// A number from 0 to `max`.
    pub fn up_to(source: ObjectId, max: u32, description: &str) -> (s: NumberSpec)
        ensures
            s.source == source,
            s.min == 0,
            s.max == max,
            s.description@ == description@,
    {
        NumberSpec::new(source, 0, max, description)
    }

    /// A number from `min` to `max`.
    pub fn range(source: ObjectId, min: u32, max: u32, description: &str) -> (s: NumberSpec)
        ensures
            s.source == source,
            s.min == min,
            s.max == max,
            s.description@ == description@,
    {
        NumberSpec::new(source, min, max, description)
    }
}

impl DecisionSpec for NumberSpec {
    type Response = u32;

    fn description(&self) -> (t: String)
        ensures
            t@ == number_text(self.description@, self.min, self.max),
    {
        let mut t = string_of(self.description.as_str());
        if self.min == 0 {
            push_str(&mut t, " (up to ");
            push_decimal(&mut t, self.max as u64);
            push_str(&mut t, ")");
        } else {
            push_str(&mut t, " (");
            push_decimal(&mut t, self.min as u64);
            push_str(&mut t, "-");
            push_decimal(&mut t, self.max as u64);
            push_str(&mut t, ")");
        }
        t
    }

    fn primitive(&self) -> (p: DecisionPrimitive)
        ensures
            p == (DecisionPrimitive::SelectNumber { min: self.min, max: self.max }),
    {
        DecisionPrimitive::SelectNumber { min: self.min, max: self.max }
    }

    /// `min` under `Minimum` and `FirstOption`, otherwise `max` ("up to"
    /// effects take as much as they can).
    fn default_response(&self, strategy: FallbackStrategy) -> (n: u32)
        ensures
            n == if strategy == FallbackStrategy::Minimum || strategy == FallbackStrategy::FirstOption {
                self.min
            } else {
                self.max
            },
    {
        match strategy {
            FallbackStrategy::Minimum => self.min,
            FallbackStrategy::Maximum => self.max,
            FallbackStrategy::FirstOption => self.min,
            _ => self.max,
        }
    }

    fn build_context(&self, player: PlayerId, source: Option<ObjectId>, game: &GameState) -> (c: DecisionContext)
        ensures
            c matches DecisionContext::Number(n) && n.player == player && n.source == Some(self.source) && n.min
                == self.min && n.max == self.max && n.description@ == self.description@ && !n.is_x_value,
    {
        DecisionContext::Number(
            NumberContext::new(player, Some(self.source), self.min, self.max, self.description.as_str()),
        )
    }
}

} // verus!
