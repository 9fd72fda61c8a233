//! Card definitions: a card's characteristics together with its abilities,
//! spell effects and extra costs.

pub mod ability;
pub mod definitions;
pub mod tokens;

use vstd::prelude::*;
use crate::ids::CardId;
use crate::mana::ManaCost;
use crate::types::{CardType, ColorSet, Subtype, Supertype, Zone};
use crate::card::{Card, CardBuilder, PowerToughness, blank_card, permanent_types};
use crate::cost::OptionalCost;
use crate::cards::ability::{Ability, AbilityKind, AlternativeCastingMethod, Effect, Trigger, TriggeredAbility};

verus! {

/// A card together with what it does.
#[derive(Debug, Clone)]
pub struct CardDefinition {
    /// The card's characteristics.
    pub card: Card,
    /// Its abilities, in printed order.
    pub abilities: Vec<Ability>,
    /// What it does when it resolves, for instants and sorceries.
    pub spell_effect: Option<Vec<Effect>>,
    /// Optional additional costs (kicker, buyback, ...).
    pub optional_costs: Vec<OptionalCost>,
    /// Other ways to cast it.
    pub alternative_casts: Vec<AlternativeCastingMethod>,
}

impl CardDefinition {
    /// The card's name.
    pub fn name(&self) -> (n: &str)
        ensures
            n@ == self.card.name@,
    {
        self.card.name.as_str()
    }

    /// Whether the card is an instant or sorcery.
    pub fn is_spell(&self) -> (b: bool)
        ensures
            b == (self.card.card_types@.contains(CardType::Instant) || self.card.card_types@.contains(
                CardType::Sorcery,
            )),
    {
        self.card.is_instant() || self.card.is_sorcery()
    }

    /// Whether the card is a permanent card.
    pub fn is_permanent(&self) -> (b: bool)
        ensures
            b == permanent_types(self.card.card_types@),
    {
        self.card.is_permanent()
    }

    /// Whether the card is a creature.
    pub fn is_creature(&self) -> (b: bool)
        ensures
            b == self.card.card_types@.contains(CardType::Creature),
    {
        self.card.is_creature()
    }
}

/// Whether `definition` says anything beyond the card's printed
/// characteristics: abilities, a spell effect with at least one effect,
/// alternative ways to cast it, or optional costs.
pub fn definition_has_semantics(definition: &CardDefinition) -> (b: bool)
    ensures
        b == (definition.abilities@.len() > 0 || (definition.spell_effect matches Some(e) && e@.len() > 0)
            || definition.alternative_casts@.len() > 0 || definition.optional_costs@.len() > 0),
{
    definition.abilities.len() > 0 || match &definition.spell_effect {
        Some(e) => e.len() > 0,
        None => false,
    } || definition.alternative_casts.len() > 0 || definition.optional_costs.len() > 0
}

/// Builds a `CardDefinition`.
#[derive(Debug, Clone)]
pub struct CardDefinitionBuilder {
    pub definition: CardDefinition,
}

impl CardDefinitionBuilder {
    /// A definition of a card with the given id and name and nothing else.
    pub fn new(id: CardId, name: &str) -> (b: CardDefinitionBuilder)
        ensures
            blank_card(b.definition.card, id, name@),
            b.definition.abilities@.len() == 0,
            b.definition.spell_effect is None,
            b.definition.optional_costs@.len() == 0,
            b.definition.alternative_casts@.len() == 0,
    {
        CardDefinitionBuilder {
            definition: CardDefinition {
                card: CardBuilder::new(id, name).build(),
                abilities: Vec::new(),
                spell_effect: None,
                optional_costs: Vec::new(),
                alternative_casts: Vec::new(),
            },
        }
    }

    /// Sets the mana cost.
    pub fn mana_cost(self, cost: ManaCost) -> (b: CardDefinitionBuilder)
        ensures
            b.definition == (CardDefinition { card: Card { mana_cost: Some(cost), ..self.definition.card }, ..self.definition }),
    {
        let d = self.definition;
        CardDefinitionBuilder { definition: CardDefinition { card: Card { mana_cost: Some(cost), ..d.card }, ..d } }
    }

    /// Sets the supertypes.
    pub fn supertypes(self, supertypes: Vec<Supertype>) -> (b: CardDefinitionBuilder)
        ensures
            b.definition == (CardDefinition { card: Card { supertypes, ..self.definition.card }, ..self.definition }),
    {
        let d = self.definition;
        CardDefinitionBuilder { definition: CardDefinition { card: Card { supertypes, ..d.card }, ..d } }
    }

    /// Sets the card types.
    pub fn card_types(self, card_types: Vec<CardType>) -> (b: CardDefinitionBuilder)
        ensures
            b.definition == (CardDefinition { card: Card { card_types, ..self.definition.card }, ..self.definition }),
    {
        let d = self.definition;
        CardDefinitionBuilder { definition: CardDefinition { card: Card { card_types, ..d.card }, ..d } }
    }

    /// Sets the subtypes.
    pub fn subtypes(self, subtypes: Vec<Subtype>) -> (b: CardDefinitionBuilder)
        ensures
            b.definition == (CardDefinition { card: Card { subtypes, ..self.definition.card }, ..self.definition }),
    {
        let d = self.definition;
        CardDefinitionBuilder { definition: CardDefinition { card: Card { subtypes, ..d.card }, ..d } }
    }

    /// Sets power and toughness.
    pub fn power_toughness(self, pt: PowerToughness) -> (b: CardDefinitionBuilder)
        ensures
            b.definition == (CardDefinition {
                card: Card { power_toughness: Some(pt), ..self.definition.card },
                ..self.definition
            }),
    {
        let d = self.definition;
        CardDefinitionBuilder { definition: CardDefinition { card: Card { power_toughness: Some(pt), ..d.card }, ..d } }
    }

    /// Sets the color indicator.
    pub fn color_indicator(self, colors: ColorSet) -> (b: CardDefinitionBuilder)
        ensures
            b.definition == (CardDefinition {
                card: Card { color_indicator: Some(colors), ..self.definition.card },
                ..self.definition
            }),
    {
        let d = self.definition;
        CardDefinitionBuilder {
            definition: CardDefinition { card: Card { color_indicator: Some(colors), ..d.card }, ..d },
        }
    }

    /// Marks the card as a token.
    pub fn token(self) -> (b: CardDefinitionBuilder)
        ensures
            b.definition == (CardDefinition { card: Card { is_token: true, ..self.definition.card }, ..self.definition }),
    {
        let d = self.definition;
        CardDefinitionBuilder { definition: CardDefinition { card: Card { is_token: true, ..d.card }, ..d } }
    }

    /// Sets the rules text.
    pub fn oracle_text(self, text: &str) -> (b: CardDefinitionBuilder)
        ensures
            b.definition.card.oracle_text@ == text@,
            b.definition == (CardDefinition {
                card: Card { oracle_text: b.definition.card.oracle_text, ..self.definition.card },
                ..self.definition
            }),
    {
        let d = self.definition;
        CardDefinitionBuilder {
            definition: CardDefinition { card: Card { oracle_text: String::from_str(text), ..d.card }, ..d },
        }
    }

    /// Adds an ability.
    pub fn with_ability(self, ability: Ability) -> (b: CardDefinitionBuilder)
        ensures
            b.definition.abilities@ == self.definition.abilities@.push(ability),
            b.definition == (CardDefinition { abilities: b.definition.abilities, ..self.definition }),
    {
        let mut d = self.definition;
        d.abilities.push(ability);
        CardDefinitionBuilder { definition: d }
    }

    /// Adds a triggered ability that works on the battlefield.
    pub fn with_trigger(self, trigger: Trigger, effects: Vec<Effect>, text: &str) -> (b: CardDefinitionBuilder)
        ensures
            b.definition.abilities@.len() == self.definition.abilities@.len() + 1,
            b.definition.abilities@.drop_last() == self.definition.abilities@,
            b.definition.abilities@.last().kind == AbilityKind::Triggered(TriggeredAbility { trigger, effects }),
            b.definition.abilities@.last().functional_zones@ == seq![Zone::Battlefield],
            b.definition.abilities@.last().text matches Some(t) && t@ == text@,
            b.definition == (CardDefinition { abilities: b.definition.abilities, ..self.definition }),
    {
        let ability = Ability::on_battlefield(AbilityKind::Triggered(TriggeredAbility { trigger, effects }), text);
        self.with_ability(ability)
    }

    /// Sets what the spell does.
    pub fn with_spell_effect(self, effects: Vec<Effect>) -> (b: CardDefinitionBuilder)
        ensures
            b.definition == (CardDefinition { spell_effect: Some(effects), ..self.definition }),
    {
        CardDefinitionBuilder { definition: CardDefinition { spell_effect: Some(effects), ..self.definition } }
    }

    /// Adds an optional cost.
    pub fn optional_cost(self, cost: OptionalCost) -> (b: CardDefinitionBuilder)
        ensures
            b.definition.optional_costs@ == self.definition.optional_costs@.push(cost),
            b.definition == (CardDefinition { optional_costs: b.definition.optional_costs, ..self.definition }),
    {
        let mut d = self.definition;
        d.optional_costs.push(cost);
        CardDefinitionBuilder { definition: d }
    }

    /// The finished definition.
    pub fn build(self) -> (d: CardDefinition)
        ensures
            d == self.definition,
    {
        self.definition
    }
}

} // verus!
