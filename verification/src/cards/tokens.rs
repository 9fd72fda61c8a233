//! Token definitions.

use vstd::prelude::*;
use crate::ids::CardId;
use crate::types::{CardType, Color, ColorSet, Subtype, Zone};
use crate::card::{PowerToughness, PtValue};
use crate::cost::TotalCost;
use crate::cards::{CardDefinition, CardDefinitionBuilder};
use crate::cards::ability::{Ability, AbilityKind, CostEffect, Effect, ManaAbility};

verus! {

/// Creates a Treasure token.
/// A Treasure is an artifact token with "{T}, Sacrifice this artifact: Add one mana of any color."
pub fn treasure_token_definition() -> (d: CardDefinition)
    ensures
        d.card.name@ == "Treasure"@,
        d.card.is_token,
        d.card.mana_cost is None,
        d.card.card_types@ == seq![CardType::Artifact],
        d.card.subtypes@ == seq![Subtype::Treasure],
        d.card.supertypes@.len() == 0,
        d.card.power_toughness is None,
        d.abilities@.len() == 1,
        d.abilities@[0].functional_zones@ == seq![Zone::Battlefield],
        d.abilities@[0].kind matches AbilityKind::Mana(m) && m.mana_cost@.len() == 0 && m.cost_effects@ == seq![
            CostEffect::Tap,
            CostEffect::SacrificeSource,
        ] && m.mana@.len() == 0 && (m.effects matches Some(e) && e@.len() == 1 && e@[0] matches Effect::AddManaOfAnyColor {
            available_colors: None,
        }),
        d.spell_effect is None,
{
    let mana_ability = ManaAbility {
        mana_cost: TotalCost::free(),
        cost_effects: vec![CostEffect::Tap, CostEffect::SacrificeSource],
        mana: Vec::new(),
        effects: Some(vec![Effect::AddManaOfAnyColor { available_colors: None }]),
    };
    let ability = Ability::on_battlefield(
        AbilityKind::Mana(mana_ability),
        "{T}, Sacrifice this artifact: Add one mana of any color.",
    );
    CardDefinitionBuilder::new(CardId::from_raw(0), "Treasure")
        .token()
        .card_types(vec![CardType::Artifact])
        .subtypes(vec![Subtype::Treasure])
        .with_ability(ability)
        .build()
}

/// Creates a Walker token.
///
/// A Walker is a 2/2 black Zombie creature token.
pub fn walker_token_definition() -> (d: CardDefinition)
    ensures
        d.card.name@ == "Walker"@,
        d.card.is_token,
        d.card.mana_cost is None,
        d.card.card_types@ == seq![CardType::Creature],
        d.card.subtypes@ == seq![Subtype::Zombie],
        d.card.supertypes@.len() == 0,
        d.card.color_indicator matches Some(c) && forall|x: Color| c.has(x) <==> x == Color::Black,
        d.card.power_toughness == Some(PowerToughness { power: PtValue::Fixed(2), toughness: PtValue::Fixed(2) }),
        d.abilities@.len() == 0,
        d.spell_effect is None,
{
    CardDefinitionBuilder::new(CardId::from_raw(0), "Walker")
        .token()
        .card_types(vec![CardType::Creature])
        .subtypes(vec![Subtype::Zombie])
        .color_indicator(ColorSet::from_color(Color::Black))
        .power_toughness(PowerToughness::fixed(2, 2))
        .build()
}

} // verus!
