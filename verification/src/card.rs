//! Printed card characteristics and a builder for them.

use vstd::prelude::*;
use crate::ids::CardId;
use crate::mana::ManaCost;
use crate::types::{CardType, Color, ColorSet, Subtype, Supertype, contains_card_type, contains_subtype,
    contains_supertype};

verus! {

/// A power or toughness value as printed.
#[derive(Debug, Clone, Copy, PartialEq, Eq, Structural)]
pub enum PtValue {
    /// A fixed number.
    Fixed(i32),
    /// `*`, defined by an ability.
    Star,
    /// `*+n`.
    StarPlus(i32),
}

impl PtValue {
    /// The printed number (0 for `*`).
    pub fn base_value(&self) -> (v: i32)
        ensures
            v == match *self {
                PtValue::Fixed(n) => n,
                PtValue::Star => 0,
                PtValue::StarPlus(n) => n,
            },
    {
        match *self {
            PtValue::Fixed(n) => n,
            PtValue::Star => 0,
            PtValue::StarPlus(n) => n,
        }
    }
}

/// Printed power and toughness.
#[derive(Debug, Clone, Copy, PartialEq, Eq, Structural)]
pub struct PowerToughness {
    pub power: PtValue,
    pub toughness: PtValue,
}

impl PowerToughness {
    /// A fixed power and toughness.
    pub fn fixed(power: i32, toughness: i32) -> (pt: PowerToughness)
        ensures
            pt.power == PtValue::Fixed(power),
            pt.toughness == PtValue::Fixed(toughness),
    {
        PowerToughness { power: PtValue::Fixed(power), toughness: PtValue::Fixed(toughness) }
    }
}

/// The characteristics of a card.
#[derive(Debug, Clone)]
pub struct Card {
    pub id: CardId,
    pub name: String,
    pub mana_cost: Option<ManaCost>,
    /// A color indicator, which overrides the colors of the mana cost.
    pub color_indicator: Option<ColorSet>,
    pub supertypes: Vec<Supertype>,
    pub card_types: Vec<CardType>,
    pub subtypes: Vec<Subtype>,
    pub oracle_text: String,
    pub power_toughness: Option<PowerToughness>,
    pub is_token: bool,
}

/// Whether a list of card types makes a permanent.
pub open spec fn permanent_types(types: Seq<CardType>) -> bool {
    ||| types.contains(CardType::Artifact)
    ||| types.contains(CardType::Creature)
    ||| types.contains(CardType::Enchantment)
    ||| types.contains(CardType::Land)
    ||| types.contains(CardType::Planeswalker)
    ||| types.contains(CardType::Battle)
}

impl Card {
    /// Whether the card has color `c`: by its color indicator if it has one,
    /// else by the symbols of its mana cost.
    pub open spec fn has_color(self, c: Color) -> bool {
        match self.color_indicator {
            Some(ci) => ci.has(c),
            None => match self.mana_cost {
                Some(m) => m.has_color(c),
                None => false,
            },
        }
    }

    /// The mana value of the card (0 without a mana cost).
    pub open spec fn value(self) -> nat {
        match self.mana_cost {
            Some(m) => m.value(),
            None => 0,
        }
    }

    /// The colors of the card.
    pub fn colors(&self) -> (s: ColorSet)
        ensures
            forall|c: Color| s.has(c) == self.has_color(c),
    {
        match self.color_indicator {
            Some(ci) => ci,
            None => match &self.mana_cost {
                Some(m) => m.colors(),
                None => ColorSet::colorless(),
            },
        }
    }

    /// The mana value of the card (saturating at `u32::MAX`).
    pub fn mana_value(&self) -> (v: u32)
        ensures
            v == (if self.value() <= u32::MAX { self.value() } else { u32::MAX as nat }),
    {
        match &self.mana_cost {
            Some(m) => m.mana_value(),
            None => 0,
        }
    }

    /// Whether the card has the given card type.
    pub fn has_card_type(&self, t: CardType) -> (b: bool)
        ensures
            b == self.card_types@.contains(t),
    {
        contains_card_type(&self.card_types, t)
    }

    /// Whether the card has the given subtype.
    pub fn has_subtype(&self, t: Subtype) -> (b: bool)
        ensures
            b == self.subtypes@.contains(t),
    {
        contains_subtype(&self.subtypes, t)
    }

    /// Whether the card has the given supertype.
    pub fn has_supertype(&self, t: Supertype) -> (b: bool)
        ensures
            b == self.supertypes@.contains(t),
    {
        contains_supertype(&self.supertypes, t)
    }

    /// Whether the card is a creature.
    pub fn is_creature(&self) -> (b: bool)
        ensures
            b == self.card_types@.contains(CardType::Creature),
    {
        self.has_card_type(CardType::Creature)
    }

    /// Whether the card is a land.
    pub fn is_land(&self) -> (b: bool)
        ensures
            b == self.card_types@.contains(CardType::Land),
    {
        self.has_card_type(CardType::Land)
    }

    /// Whether the card is an artifact.
    pub fn is_artifact(&self) -> (b: bool)
        ensures
            b == self.card_types@.contains(CardType::Artifact),
    {
        self.has_card_type(CardType::Artifact)
    }

    /// Whether the card is a sorcery.
    pub fn is_sorcery(&self) -> (b: bool)
        ensures
            b == self.card_types@.contains(CardType::Sorcery),
    {
        self.has_card_type(CardType::Sorcery)
    }

    /// Whether the card is an instant.
    pub fn is_instant(&self) -> (b: bool)
        ensures
            b == self.card_types@.contains(CardType::Instant),
    {
        self.has_card_type(CardType::Instant)
    }

    /// Whether the card is a permanent card.
    pub fn is_permanent(&self) -> (b: bool)
        ensures
            b == permanent_types(self.card_types@),
    {
        self.has_card_type(CardType::Artifact) || self.has_card_type(CardType::Creature)
            || self.has_card_type(CardType::Enchantment) || self.has_card_type(CardType::Land)
            || self.has_card_type(CardType::Planeswalker) || self.has_card_type(CardType::Battle)
    }
}

/// `c` is a card with the given id and name and no other characteristics.
pub open spec fn blank_card(c: Card, id: CardId, name: Seq<char>) -> bool {
    &&& c.id == id
    &&& c.name@ == name
    &&& c.mana_cost is None
    &&& c.color_indicator is None
    &&& c.supertypes@.len() == 0
    &&& c.card_types@.len() == 0
    &&& c.subtypes@.len() == 0
    &&& c.oracle_text@.len() == 0
    &&& c.power_toughness is None
    &&& !c.is_token
}

/// Builds a `Card` field by field.
#[derive(Debug, Clone)]
pub struct CardBuilder {
    pub card: Card,
}

impl CardBuilder {
    /// A builder for a card with the given id and name and no other characteristics.
    pub fn new(id: CardId, name: &str) -> (b: CardBuilder)
        ensures
            blank_card(b.card, id, name@),
    {
        CardBuilder {
            card: Card {
                id,
                name: String::from_str(name),
                mana_cost: None,
                color_indicator: None,
                supertypes: Vec::new(),
                card_types: Vec::new(),
                subtypes: Vec::new(),
                oracle_text: String::new(),
                power_toughness: None,
                is_token: false,
            },
        }
    }

    /// Sets the mana cost.
    pub fn mana_cost(self, cost: ManaCost) -> (b: CardBuilder)
        ensures
            b.card == (Card { mana_cost: Some(cost), ..self.card }),
    {
        CardBuilder { card: Card { mana_cost: Some(cost), ..self.card } }
    }

    /// Sets the color indicator.
    pub fn color_indicator(self, colors: ColorSet) -> (b: CardBuilder)
        ensures
            b.card == (Card { color_indicator: Some(colors), ..self.card }),
    {
        CardBuilder { card: Card { color_indicator: Some(colors), ..self.card } }
    }

    /// Sets the supertypes.
    pub fn supertypes(self, supertypes: Vec<Supertype>) -> (b: CardBuilder)
        ensures
            b.card == (Card { supertypes, ..self.card }),
    {
        CardBuilder { card: Card { supertypes, ..self.card } }
    }

    /// Sets the card types.
    pub fn card_types(self, card_types: Vec<CardType>) -> (b: CardBuilder)
        ensures
            b.card == (Card { card_types, ..self.card }),
    {
        CardBuilder { card: Card { card_types, ..self.card } }
    }

    /// Sets the subtypes.
    pub fn subtypes(self, subtypes: Vec<Subtype>) -> (b: CardBuilder)
        ensures
            b.card == (Card { subtypes, ..self.card }),
    {
        CardBuilder { card: Card { subtypes, ..self.card } }
    }

    /// Sets the rules text.
    pub fn oracle_text(self, text: &str) -> (b: CardBuilder)
        ensures
            b.card.oracle_text@ == text@,
            b.card == (Card { oracle_text: b.card.oracle_text, ..self.card }),
    {
        CardBuilder { card: Card { oracle_text: String::from_str(text), ..self.card } }
    }

    /// Sets power and toughness.
    pub fn power_toughness(self, pt: PowerToughness) -> (b: CardBuilder)
        ensures
            b.card == (Card { power_toughness: Some(pt), ..self.card }),
    {
        CardBuilder { card: Card { power_toughness: Some(pt), ..self.card } }
    }

    /// Marks the card as a token.
    pub fn token(self) -> (b: CardBuilder)
        ensures
            b.card == (Card { is_token: true, ..self.card }),
    {
        CardBuilder { card: Card { is_token: true, ..self.card } }
    }

    /// The finished card.
    pub fn build(self) -> (c: Card)
        ensures
            c == self.card,
    {
        self.card
    }
}

} // verus!
