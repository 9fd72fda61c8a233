//! The cards of this library.

use vstd::prelude::*;
use crate::ids::CardId;
use crate::mana::{ManaCost, ManaSymbol};
use crate::types::{CardType, Color, Subtype, Supertype, Zone};
use crate::card::{Card, PowerToughness, PtValue};
use crate::statics::{CreatureGroup, Keyword, StaticAbility};
use crate::game::CounterType;
use crate::cost::{OptionalCost, PermanentFilter, TotalCost};
use crate::cards::{CardDefinition, CardDefinitionBuilder};
use crate::cards::ability::{
    Ability, AbilityKind, ActivatedAbility, CardFilter, CostEffect, Effect, ImprintFromHandEffect, ManaAbility,
    PlayerFilter, SearchDestination, Trigger, TriggeredAbility, Value,
};

verus! {

/// `c` has exactly these printed characteristics (no color indicator, not a token).
pub open spec fn printed(
    c: Card,
    name: Seq<char>,
    cost: Option<Seq<Seq<ManaSymbol>>>,
    supertypes: Seq<Supertype>,
    types: Seq<CardType>,
    subtypes: Seq<Subtype>,
    pt: Option<(i32, i32)>,
    text: Seq<char>,
) -> bool {
    &&& c.name@ == name
    &&& match cost {
        Some(p) => c.mana_cost matches Some(m) && m.pip_seqs() =~~= p,
        None => c.mana_cost is None,
    }
    &&& c.color_indicator is None
    &&& c.supertypes@ =~= supertypes
    &&& c.card_types@ =~= types
    &&& c.subtypes@ =~= subtypes
    &&& match pt {
        Some((p, t)) => c.power_toughness == Some(
            PowerToughness { power: PtValue::Fixed(p), toughness: PtValue::Fixed(t) },
        ),
        None => c.power_toughness is None,
    }
    &&& c.oracle_text@ =~= text
    &&& !c.is_token
}

/// A definition with no abilities, spell effect, optional or alternative costs
/// beyond those stated by its function.
pub open spec fn no_extras(d: CardDefinition) -> bool {
    &&& d.optional_costs@.len() == 0
    &&& d.alternative_casts@.len() == 0
}

/// A cost of one pip per symbol.
fn cost_of(symbols: Vec<ManaSymbol>) -> (m: ManaCost)
    ensures
        m.pip_seqs() == symbols@.map_values(|s: ManaSymbol| seq![s]),
{
    let m = ManaCost::from_symbols(symbols);
    assert(m.pip_seqs() =~= symbols@.map_values(|s: ManaSymbol| seq![s]));
    m
}

/// A {T} ability that adds fixed mana.
fn tap_for(mana: Vec<ManaSymbol>) -> (a: ManaAbility)
    ensures
        a.mana_cost@.len() == 0,
        a.cost_effects@ == seq![CostEffect::Tap],
        a.mana == mana,
        a.effects is None,
{
    ManaAbility { mana_cost: TotalCost::free(), cost_effects: vec![CostEffect::Tap], mana, effects: None }
}

/// Island
/// Basic Land — Island
/// {T}: Add {U}.
pub fn basic_island() -> (d: CardDefinition)
    ensures
        printed(d.card, "Island"@, None, seq![Supertype::Basic], seq![CardType::Land], seq![Subtype::Island], None,
            "{T}: Add {U}."@),
        d.abilities@.len() == 1,
        d.abilities@[0].kind matches AbilityKind::Mana(m) && m.cost_effects@ == seq![CostEffect::Tap] && m.mana@
            == seq![ManaSymbol::Blue] && m.effects is None && m.mana_cost@.len() == 0,
        d.spell_effect is None,
        no_extras(d),
{
    let ability = Ability::on_battlefield(AbilityKind::Mana(tap_for(vec![ManaSymbol::Blue])), "{T}: Add {U}.");
    CardDefinitionBuilder::new(CardId::from_raw(0), "Island")
        .supertypes(vec![Supertype::Basic])
        .card_types(vec![CardType::Land])
        .subtypes(vec![Subtype::Island])
        .oracle_text("{T}: Add {U}.")
        .with_ability(ability)
        .build()
}

/// Bastion Protector - {2}{W}
/// Creature — Human Soldier
/// 3/3
/// Commander creatures you control get +2/+2 and have indestructible.
pub fn bastion_protector() -> (d: CardDefinition)
    ensures
        printed(
            d.card,
            "Bastion Protector"@,
            Some(seq![seq![ManaSymbol::Generic(2)], seq![ManaSymbol::White]]),
            seq![],
            seq![CardType::Creature],
            seq![Subtype::Human, Subtype::Soldier],
            Some((3i32, 3i32)),
            "Commander creatures you control get +2/+2 and have indestructible."@,
        ),
        d.abilities@.len() == 2,
        d.abilities@[0].kind == AbilityKind::Static(
            StaticAbility::Anthem { power: 2, toughness: 2, affected: CreatureGroup::CommanderCreaturesYouControl },
        ),
        d.abilities@[1].kind == AbilityKind::Static(
            StaticAbility::GrantAbility {
                keyword: Keyword::Indestructible,
                affected: CreatureGroup::CommanderCreaturesYouControl,
            },
        ),
        d.spell_effect is None,
        no_extras(d),
{
    let text = "Commander creatures you control get +2/+2 and have indestructible.";
    let anthem = StaticAbility::Anthem {
        power: 2,
        toughness: 2,
        affected: CreatureGroup::CommanderCreaturesYouControl,
    };
    let grant = StaticAbility::GrantAbility {
        keyword: Keyword::Indestructible,
        affected: CreatureGroup::CommanderCreaturesYouControl,
    };
    CardDefinitionBuilder::new(CardId::from_raw(0), "Bastion Protector")
        .mana_cost(ManaCost::from_pips(vec![vec![ManaSymbol::Generic(2)], vec![ManaSymbol::White]]))
        .card_types(vec![CardType::Creature])
        .subtypes(vec![Subtype::Human, Subtype::Soldier])
        .power_toughness(PowerToughness::fixed(3, 3))
        .oracle_text(text)
        .with_ability(Ability::on_battlefield(AbilityKind::Static(anthem), "Commander creatures you control get +2/+2."))
        .with_ability(
            Ability::on_battlefield(AbilityKind::Static(grant), "Commander creatures you control have indestructible."),
        )
        .build()
}

/// A library search that keeps nothing hidden: `filter` is given by its card
/// types (any card if empty).
pub open spec fn is_search(e: Effect, types: Seq<CardType>, max_count: u32, destination: SearchDestination, reveal: bool) -> bool {
    e matches Effect::SearchLibrary { filter, max_count: n, destination: d, reveal: r } && filter.card_types@ =~= types
        && filter.excluded_card_types@.len() == 0 && !filter.permanent && filter.max_mana_value is None && n
        == max_count && d == destination && r == reveal
}

/// Blacksmith's Skill - {W}
/// Instant
/// Target permanent gains hexproof and indestructible until end of turn.
/// If it's an artifact creature, it gets +2/+2 until end of turn.
pub fn blacksmiths_skill() -> (d: CardDefinition)
    ensures
        printed(
            d.card,
            "Blacksmith's Skill"@,
            Some(seq![seq![ManaSymbol::White]]),
            seq![],
            seq![CardType::Instant],
            seq![],
            None,
            "Target permanent gains hexproof and indestructible until end of turn. If it's an artifact creature, it gets +2/+2 until end of turn."@,
        ),
        d.abilities@.len() == 0,
        d.spell_effect matches Some(e) && e@.len() == 2 && (e@[0] matches Effect::GrantToTargetUntilEndOfTurn(k)
            && k@ =~= seq![Keyword::Hexproof, Keyword::Indestructible]) && e@[1] == (Effect::PumpTargetIfArtifactCreature {
            power: 2,
            toughness: 2,
        }),
        no_extras(d),
{
    let grant = Effect::GrantToTargetUntilEndOfTurn(vec![Keyword::Hexproof, Keyword::Indestructible]);
    let pump = Effect::PumpTargetIfArtifactCreature { power: 2, toughness: 2 };
    CardDefinitionBuilder::new(CardId::from_raw(0), "Blacksmith's Skill")
        .mana_cost(ManaCost::from_pips(vec![vec![ManaSymbol::White]]))
        .card_types(vec![CardType::Instant])
        .with_spell_effect(vec![grant, pump])
        .oracle_text(
            "Target permanent gains hexproof and indestructible until end of turn. If it's an artifact creature, it gets +2/+2 until end of turn.",
        )
        .build()
}

/// Buried Alive
/// {2}{B}
/// Sorcery
/// Search your library for up to three creature cards, put them into your graveyard, then shuffle.
pub fn buried_alive() -> (d: CardDefinition)
    ensures
        printed(
            d.card,
            "Buried Alive"@,
            Some(seq![seq![ManaSymbol::Generic(2)], seq![ManaSymbol::Black]]),
            seq![],
            seq![CardType::Sorcery],
            seq![],
            None,
            "Search your library for up to three creature cards, put them into your graveyard, then shuffle."@,
        ),
        d.abilities@.len() == 0,
        d.spell_effect matches Some(e) && e@.len() == 1 && is_search(
            e@[0],
            seq![CardType::Creature],
            3,
            SearchDestination::Graveyard,
            false,
        ),
        no_extras(d),
{
    let search = Effect::SearchLibrary {
        filter: CardFilter::of_types(vec![CardType::Creature]),
        max_count: 3,
        destination: SearchDestination::Graveyard,
        reveal: false,
    };
    CardDefinitionBuilder::new(CardId::from_raw(0), "Buried Alive")
        .mana_cost(ManaCost::from_pips(vec![vec![ManaSymbol::Generic(2)], vec![ManaSymbol::Black]]))
        .card_types(vec![CardType::Sorcery])
        .oracle_text("Search your library for up to three creature cards, put them into your graveyard, then shuffle.")
        .with_spell_effect(vec![search])
        .build()
}

/// Chrome Mox {0}
/// Artifact
/// Imprint — When Chrome Mox enters the battlefield, you may exile a nonartifact,
/// nonland card from your hand.
/// {T}: Add one mana of any of the exiled card's colors.
pub fn chrome_mox() -> (d: CardDefinition)
    ensures
        printed(
            d.card,
            "Chrome Mox"@,
            Some(seq![]),
            seq![],
            seq![CardType::Artifact],
            seq![],
            None,
            "Imprint — When Chrome Mox enters the battlefield, you may exile a nonartifact, nonland card from your hand.\n{T}: Add one mana of any of the exiled card's colors."@,
        ),
        d.abilities@.len() == 2,
        d.abilities@[0].kind matches AbilityKind::Triggered(t) && t.trigger == Trigger::ThisEntersBattlefield
            && t.effects@.len() == 1 && (t.effects@[0] matches Effect::ImprintFromHand(i) && i.optional
            && i.filter.excluded_card_types@ =~= seq![CardType::Artifact, CardType::Land]),
        d.abilities@[1].kind matches AbilityKind::Mana(m) && m.cost_effects@ =~= seq![CostEffect::Tap]
            && m.mana_cost@.len() == 0 && m.mana@.len() == 0 && (m.effects matches Some(e) && e@.len() == 1 && e@[0]
            == Effect::AddManaOfImprintedColor),
        d.spell_effect is None,
        no_extras(d),
{
    let imprint = Effect::ImprintFromHand(ImprintFromHandEffect::nonartifact_nonland());
    let mana = ManaAbility {
        mana_cost: TotalCost::free(),
        cost_effects: vec![CostEffect::Tap],
        mana: Vec::new(),
        effects: Some(vec![Effect::AddManaOfImprintedColor]),
    };
    CardDefinitionBuilder::new(CardId::from_raw(0), "Chrome Mox")
        .mana_cost(ManaCost::new())
        .card_types(vec![CardType::Artifact])
        .oracle_text(
            "Imprint — When Chrome Mox enters the battlefield, you may exile a nonartifact, nonland card from your hand.\n{T}: Add one mana of any of the exiled card's colors.",
        )
        .with_trigger(
            Trigger::ThisEntersBattlefield,
            vec![imprint],
            "Imprint — When Chrome Mox enters the battlefield, you may exile a nonartifact, nonland card from your hand.",
        )
        .with_ability(
            Ability::on_battlefield(AbilityKind::Mana(mana), "{T}: Add one mana of any of the exiled card's colors."),
        )
        .build()
}

/// Demonic Tutor
/// {1}{B}
/// Sorcery
/// Search your library for a card, put that card into your hand, then shuffle.
pub fn demonic_tutor() -> (d: CardDefinition)
    ensures
        printed(
            d.card,
            "Demonic Tutor"@,
            Some(seq![seq![ManaSymbol::Generic(1)], seq![ManaSymbol::Black]]),
            seq![],
            seq![CardType::Sorcery],
            seq![],
            None,
            "Search your library for a card, put that card into your hand, then shuffle."@,
        ),
        d.abilities@.len() == 0,
        d.spell_effect matches Some(e) && e@.len() == 1 && is_search(e@[0], seq![], 1, SearchDestination::Hand, false),
        no_extras(d),
{
    let search = Effect::SearchLibrary {
        filter: CardFilter::any(),
        max_count: 1,
        destination: SearchDestination::Hand,
        reveal: false,
    };
    CardDefinitionBuilder::new(CardId::from_raw(0), "Demonic Tutor")
        .mana_cost(ManaCost::from_pips(vec![vec![ManaSymbol::Generic(1)], vec![ManaSymbol::Black]]))
        .card_types(vec![CardType::Sorcery])
        .oracle_text("Search your library for a card, put that card into your hand, then shuffle.")
        .with_spell_effect(vec![search])
        .build()
}

/// Descent into Avernus - {2}{R}
/// Enchantment
/// At the beginning of your upkeep, put two descent counters on this
/// enchantment. Then each player creates X Treasure tokens and this enchantment
/// deals X damage to each player, where X is the number of descent counters on
/// this enchantment.
pub fn descent_into_avernus() -> (d: CardDefinition)
    ensures
        printed(
            d.card,
            "Descent into Avernus"@,
            Some(seq![seq![ManaSymbol::Generic(2)], seq![ManaSymbol::Red]]),
            seq![],
            seq![CardType::Enchantment],
            seq![],
            None,
            "At the beginning of your upkeep, put two descent counters on this enchantment. Then each player creates X Treasure tokens and this enchantment deals X damage to each player, where X is the number of descent counters on this enchantment."@,
        ),
        d.abilities@.len() == 1,
        d.abilities@[0].kind matches AbilityKind::Triggered(t) && t.trigger == Trigger::BeginningOfUpkeep(
            PlayerFilter::You,
        ) && t.effects@ =~= seq![
            (Effect::PutCountersOnSource { counter: CounterType::Descent, amount: Value::Fixed(2) }),
            Effect::EachPlayerCreatesTreasures(Value::CountersOnSource(CounterType::Descent)),
            Effect::DamageEachPlayer(Value::CountersOnSource(CounterType::Descent)),
        ],
        d.spell_effect is None,
        no_extras(d),
{
    let x = Value::CountersOnSource(CounterType::Descent);
    let text = "At the beginning of your upkeep, put two descent counters on this enchantment. Then each player creates X Treasure tokens and this enchantment deals X damage to each player, where X is the number of descent counters on this enchantment.";
    CardDefinitionBuilder::new(CardId::from_raw(0), "Descent into Avernus")
        .mana_cost(ManaCost::from_pips(vec![vec![ManaSymbol::Generic(2)], vec![ManaSymbol::Red]]))
        .card_types(vec![CardType::Enchantment])
        .oracle_text(text)
        .with_trigger(
            Trigger::BeginningOfUpkeep(PlayerFilter::You),
            vec![
                Effect::PutCountersOnSource { counter: CounterType::Descent, amount: Value::Fixed(2) },
                Effect::EachPlayerCreatesTreasures(x),
                Effect::DamageEachPlayer(x),
            ],
            text,
        )
        .build()
}

/// Emrakul, the Promised End - Legendary Creature — Eldrazi
/// {13}
/// 13/13
/// This spell costs {1} less to cast for each card type among cards in your graveyard.
/// When you cast this spell, gain control of target opponent during that player's next turn.
/// After that turn, that player takes an extra turn.
/// Flying, trample, protection from instants.
pub fn emrakul_the_promised_end() -> (d: CardDefinition)
    ensures
        printed(
            d.card,
            "Emrakul, the Promised End"@,
            Some(seq![seq![ManaSymbol::Generic(13)]]),
            seq![Supertype::Legendary],
            seq![CardType::Creature],
            seq![Subtype::Eldrazi],
            Some((13i32, 13i32)),
            "This spell costs {1} less to cast for each card type among cards in your graveyard.\nWhen you cast this spell, gain control of target opponent during that player's next turn. After that turn, that player takes an extra turn.\nFlying, trample, protection from instants."@,
        ),
        d.abilities@.len() == 5,
        d.abilities@[0].kind == AbilityKind::Static(StaticAbility::CostReductionPerCardTypeInGraveyard),
        d.abilities@[1].kind matches AbilityKind::Triggered(t) && t.trigger == Trigger::ThisIsCast && t.effects@
            =~= seq![Effect::ControlOpponentNextTurn, Effect::ExtraTurnForThatPlayer],
        d.abilities@[2].kind == AbilityKind::Static(StaticAbility::Flying),
        d.abilities@[3].kind == AbilityKind::Static(StaticAbility::Trample),
        d.abilities@[4].kind == AbilityKind::Static(StaticAbility::ProtectionFromCardType(CardType::Instant)),
        d.spell_effect is None,
        no_extras(d),
{
    let while_casting = vec![Zone::Hand, Zone::Stack];
    let reduction = Ability::new(
        AbilityKind::Static(StaticAbility::CostReductionPerCardTypeInGraveyard),
        while_casting,
        "This spell costs {1} less to cast for each card type among cards in your graveyard.",
    );
    let cast_trigger = Ability::new(
        AbilityKind::Triggered(
            TriggeredAbility {
                trigger: Trigger::ThisIsCast,
                effects: vec![Effect::ControlOpponentNextTurn, Effect::ExtraTurnForThatPlayer],
            },
        ),
        vec![Zone::Stack],
        "When you cast this spell, gain control of target opponent during that player's next turn. After that turn, that player takes an extra turn.",
    );
    CardDefinitionBuilder::new(CardId::from_raw(0), "Emrakul, the Promised End")
        .mana_cost(ManaCost::from_pips(vec![vec![ManaSymbol::Generic(13)]]))
        .supertypes(vec![Supertype::Legendary])
        .card_types(vec![CardType::Creature])
        .subtypes(vec![Subtype::Eldrazi])
        .power_toughness(PowerToughness::fixed(13, 13))
        .oracle_text(
            "This spell costs {1} less to cast for each card type among cards in your graveyard.\nWhen you cast this spell, gain control of target opponent during that player's next turn. After that turn, that player takes an extra turn.\nFlying, trample, protection from instants.",
        )
        .with_ability(reduction)
        .with_ability(cast_trigger)
        .with_ability(Ability::on_battlefield(AbilityKind::Static(StaticAbility::Flying), "Flying"))
        .with_ability(Ability::on_battlefield(AbilityKind::Static(StaticAbility::Trample), "Trample"))
        .with_ability(
            Ability::on_battlefield(
                AbilityKind::Static(StaticAbility::ProtectionFromCardType(CardType::Instant)),
                "Protection from instants",
            ),
        )
        .build()
}

/// Enlightened Tutor
/// {W}
/// Instant
/// Search your library for an artifact or enchantment card, reveal it, then shuffle and put that card on top.
pub fn enlightened_tutor() -> (d: CardDefinition)
    ensures
        printed(
            d.card,
            "Enlightened Tutor"@,
            Some(seq![seq![ManaSymbol::White]]),
            seq![],
            seq![CardType::Instant],
            seq![],
            None,
            "Search your library for an artifact or enchantment card, reveal it, then shuffle and put that card on top."@,
        ),
        d.abilities@.len() == 0,
        d.spell_effect matches Some(e) && e@.len() == 1 && is_search(
            e@[0],
            seq![CardType::Artifact, CardType::Enchantment],
            1,
            SearchDestination::TopOfLibrary,
            true,
        ),
        no_extras(d),
{
    let search = Effect::SearchLibrary {
        filter: CardFilter::of_types(vec![CardType::Artifact, CardType::Enchantment]),
        max_count: 1,
        destination: SearchDestination::TopOfLibrary,
        reveal: true,
    };
    CardDefinitionBuilder::new(CardId::from_raw(0), "Enlightened Tutor")
        .mana_cost(ManaCost::from_pips(vec![vec![ManaSymbol::White]]))
        .card_types(vec![CardType::Instant])
        .oracle_text(
            "Search your library for an artifact or enchantment card, reveal it, then shuffle and put that card on top.",
        )
        .with_spell_effect(vec![search])
        .build()
}

/// Everflowing Chalice {0}
/// Artifact
/// Multikicker {2}
/// Everflowing Chalice enters the battlefield with a charge counter on it
/// for each time it was kicked.
/// {T}: Add {C} for each charge counter on Everflowing Chalice.
pub fn everflowing_chalice() -> (d: CardDefinition)
    ensures
        printed(d.card, "Everflowing Chalice"@, Some(seq![]), seq![], seq![CardType::Artifact], seq![], None, seq![]),
        d.optional_costs@.len() == 1,
        d.optional_costs@[0].label@ == "Multikicker"@,
        d.optional_costs@[0].repeatable,
        !d.optional_costs@[0].returns_to_hand,
        d.optional_costs@[0].cost@.len() == 1,
        d.optional_costs@[0].cost@[0] matches crate::costs::Cost::Mana(m) && m.pip_seqs() =~~= seq![
            seq![ManaSymbol::Generic(2)],
        ],
        d.abilities@.len() == 2,
        d.abilities@[0].kind matches AbilityKind::Triggered(t) && t.trigger == Trigger::ThisEntersBattlefield
            && t.effects@ =~= seq![(Effect::PutCountersOnSource { counter: CounterType::Charge, amount: Value::KickCount })],
        d.abilities@[1].kind matches AbilityKind::Mana(m) && m.cost_effects@ =~= seq![CostEffect::Tap]
            && m.mana_cost@.len() == 0 && m.mana@.len() == 0 && (m.effects matches Some(e) && e@ =~= seq![
            Effect::AddColorlessMana(Value::CountersOnSource(CounterType::Charge)),
        ]),
        d.spell_effect is None,
        d.alternative_casts@.len() == 0,
{
    let kicker = OptionalCost::multikicker(TotalCost::mana(ManaCost::from_pips(vec![vec![ManaSymbol::Generic(2)]])));
    let mana = ManaAbility {
        mana_cost: TotalCost::free(),
        cost_effects: vec![CostEffect::Tap],
        mana: Vec::new(),
        effects: Some(vec![Effect::AddColorlessMana(Value::CountersOnSource(CounterType::Charge))]),
    };
    CardDefinitionBuilder::new(CardId::from_raw(0), "Everflowing Chalice")
        .mana_cost(ManaCost::new())
        .card_types(vec![CardType::Artifact])
        .optional_cost(kicker)
        .with_trigger(
            Trigger::ThisEntersBattlefield,
            vec![Effect::PutCountersOnSource { counter: CounterType::Charge, amount: Value::KickCount }],
            "Everflowing Chalice enters the battlefield with a charge counter on it for each time it was kicked.",
        )
        .with_ability(
            Ability::on_battlefield(AbilityKind::Mana(mana), "{T}: Add {C} for each charge counter on Everflowing Chalice."),
        )
        .build()
}

/// Marvin, Murderous Mimic {2}
/// Legendary Artifact Creature — Toy
/// Marvin has all activated abilities of creatures you control that don't have the same name as this creature.
/// 2/2
pub fn marvin_murderous_mimic() -> (d: CardDefinition)
    ensures
        printed(
            d.card,
            "Marvin, Murderous Mimic"@,
            Some(seq![seq![ManaSymbol::Generic(2)]]),
            seq![Supertype::Legendary],
            seq![CardType::Artifact, CardType::Creature],
            seq![Subtype::Toy],
            Some((2i32, 2i32)),
            "Marvin has all activated abilities of creatures you control that don't have the same name as this creature."@,
        ),
        d.abilities@.len() == 1,
        d.abilities@[0].kind == AbilityKind::Static(StaticAbility::HasActivatedAbilitiesOfCreatures),
        d.spell_effect is None,
        no_extras(d),
{
    let text = "Marvin has all activated abilities of creatures you control that don't have the same name as this creature.";
    CardDefinitionBuilder::new(CardId::from_raw(0), "Marvin, Murderous Mimic")
        .mana_cost(ManaCost::from_pips(vec![vec![ManaSymbol::Generic(2)]]))
        .supertypes(vec![Supertype::Legendary])
        .card_types(vec![CardType::Artifact, CardType::Creature])
        .subtypes(vec![Subtype::Toy])
        .power_toughness(PowerToughness::fixed(2, 2))
        .oracle_text(text)
        .with_ability(Ability::on_battlefield(AbilityKind::Static(StaticAbility::HasActivatedAbilitiesOfCreatures), text))
        .build()
}

/// Shattered Sanctum
/// Land
/// Shattered Sanctum enters the battlefield tapped unless you control two or more other lands.
/// {T}: Add {W} or {B}.
pub fn shattered_sanctum() -> (d: CardDefinition)
    ensures
        printed(
            d.card,
            "Shattered Sanctum"@,
            None,
            seq![],
            seq![CardType::Land],
            seq![],
            None,
            "Shattered Sanctum enters the battlefield tapped unless you control two or more other lands.\n{T}: Add {W} or {B}."@,
        ),
        d.abilities@.len() == 2,
        d.abilities@[0].kind == AbilityKind::Static(StaticAbility::EntersTappedUnlessControlOtherLands(2)),
        d.abilities@[1].kind matches AbilityKind::Activated(a) && a.mana_ability && a.cost_effects@ =~= seq![
            CostEffect::Tap,
        ] && a.mana_cost@.len() == 0 && a.effects@.len() == 1 && (a.effects@[0] matches Effect::AddManaOfAnyColor {
            available_colors: Some(c),
        } && c@ =~= seq![Color::White, Color::Black]),
        d.spell_effect is None,
        no_extras(d),
{
    let mana = ActivatedAbility {
        mana_cost: TotalCost::free(),
        cost_effects: vec![CostEffect::Tap],
        effects: vec![Effect::AddManaOfAnyColor { available_colors: Some(vec![Color::White, Color::Black]) }],
        mana_ability: true,
    };
    CardDefinitionBuilder::new(CardId::from_raw(0), "Shattered Sanctum")
        .card_types(vec![CardType::Land])
        .oracle_text(
            "Shattered Sanctum enters the battlefield tapped unless you control two or more other lands.\n{T}: Add {W} or {B}.",
        )
        .with_ability(
            Ability::on_battlefield(
                AbilityKind::Static(StaticAbility::EntersTappedUnlessControlOtherLands(2)),
                "Shattered Sanctum enters the battlefield tapped unless you control two or more other lands.",
            ),
        )
        .with_ability(Ability::on_battlefield(AbilityKind::Activated(mana), "{T}: Add {W} or {B}."))
        .build()
}

/// Tayam, Luminous Enigma - {1}{W}{B}{G}
/// Legendary Creature — Nightmare Beast (3/3)
/// Each other creature you control enters the battlefield with an additional vigilance counter on it.
/// {3}, Remove three counters from among creatures you control:
/// Mill three cards, then return a permanent card with mana value 3 or less from your graveyard
/// to the battlefield.
pub fn tayam_luminous_enigma() -> (d: CardDefinition)
    ensures
        printed(
            d.card,
            "Tayam, Luminous Enigma"@,
            Some(seq![seq![ManaSymbol::Generic(1)], seq![ManaSymbol::White], seq![ManaSymbol::Black], seq![ManaSymbol::Green]]),
            seq![Supertype::Legendary],
            seq![CardType::Creature],
            seq![Subtype::Nightmare, Subtype::Beast],
            Some((3i32, 3i32)),
            "Each other creature you control enters the battlefield with an additional vigilance counter on it.\n{3}, Remove three counters from among creatures you control: Mill three cards, then return a permanent card with mana value 3 or less from your graveyard to the battlefield."@,
        ),
        d.abilities@.len() == 2,
        d.abilities@[0].kind == AbilityKind::Static(
            StaticAbility::EnterWithCounters {
                counter: CounterType::Vigilance,
                count: 1,
                affected: CreatureGroup::OtherCreaturesYouControl,
            },
        ),
        d.abilities@[1].kind matches AbilityKind::Activated(a) && !a.mana_ability && a.cost_effects@ =~= seq![
            CostEffect::RemoveCountersFromCreaturesYouControl(3),
        ] && a.mana_cost@.len() == 1 && a.effects@.len() == 2 && a.effects@[0] == Effect::Mill(3) && (a.effects@[1] matches Effect::ReturnFromGraveyardToBattlefield(f)
            && f.permanent && f.max_mana_value == Some(3u32) && f.card_types@.len() == 0
            && f.excluded_card_types@.len() == 0),
        d.spell_effect is None,
        no_extras(d),
{
    let enter = StaticAbility::EnterWithCounters {
        counter: CounterType::Vigilance,
        count: 1,
        affected: CreatureGroup::OtherCreaturesYouControl,
    };
    let mut returnable = CardFilter::any();
    returnable.permanent = true;
    returnable.max_mana_value = Some(3);
    let activated = ActivatedAbility {
        mana_cost: TotalCost::mana(ManaCost::from_pips(vec![vec![ManaSymbol::Generic(3)]])),
        cost_effects: vec![CostEffect::RemoveCountersFromCreaturesYouControl(3)],
        effects: vec![Effect::Mill(3), Effect::ReturnFromGraveyardToBattlefield(returnable)],
        mana_ability: false,
    };
    CardDefinitionBuilder::new(CardId::from_raw(0), "Tayam, Luminous Enigma")
        .mana_cost(
            ManaCost::from_pips(
                vec![
                    vec![ManaSymbol::Generic(1)],
                    vec![ManaSymbol::White],
                    vec![ManaSymbol::Black],
                    vec![ManaSymbol::Green],
                ],
            ),
        )
        .supertypes(vec![Supertype::Legendary])
        .card_types(vec![CardType::Creature])
        .subtypes(vec![Subtype::Nightmare, Subtype::Beast])
        .power_toughness(PowerToughness::fixed(3, 3))
        .oracle_text(
            "Each other creature you control enters the battlefield with an additional vigilance counter on it.\n{3}, Remove three counters from among creatures you control: Mill three cards, then return a permanent card with mana value 3 or less from your graveyard to the battlefield.",
        )
        .with_ability(
            Ability::on_battlefield(
                AbilityKind::Static(enter),
                "Each other creature you control enters the battlefield with an additional vigilance counter on it.",
            ),
        )
        .with_ability(
            Ability::on_battlefield(
                AbilityKind::Activated(activated),
                "{3}, Remove three counters from among creatures you control: Mill three cards, then return a permanent card with mana value 3 or less from your graveyard to the battlefield.",
            ),
        )
        .build()
}

/// Ugin's Insight - {3}{U}{U}
/// Sorcery
/// Scry X, where X is the greatest mana value among permanents you control,
/// then draw three cards.
pub fn ugins_insight() -> (d: CardDefinition)
    ensures
        printed(
            d.card,
            "Ugin's Insight"@,
            Some(seq![seq![ManaSymbol::Generic(3)], seq![ManaSymbol::Blue], seq![ManaSymbol::Blue]]),
            seq![],
            seq![CardType::Sorcery],
            seq![],
            None,
            "Scry X, where X is the greatest mana value among permanents you control, then draw three cards."@,
        ),
        d.abilities@.len() == 0,
        d.spell_effect matches Some(e) && e@ =~= seq![
            Effect::Scry(Value::GreatestManaValueAmongPermanentsYouControl),
            Effect::Draw(3),
        ],
        no_extras(d),
{
    CardDefinitionBuilder::new(CardId::from_raw(0), "Ugin's Insight")
        .mana_cost(
            ManaCost::from_pips(vec![vec![ManaSymbol::Generic(3)], vec![ManaSymbol::Blue], vec![ManaSymbol::Blue]]),
        )
        .card_types(vec![CardType::Sorcery])
        .with_spell_effect(vec![Effect::Scry(Value::GreatestManaValueAmongPermanentsYouControl), Effect::Draw(3)])
        .oracle_text("Scry X, where X is the greatest mana value among permanents you control, then draw three cards.")
        .build()
}

/// Underworld Breach {1}{R}
/// Enchantment
/// Each nonland card in your graveyard has escape. The escape cost is equal to
/// the card's mana cost plus exile three other cards from your graveyard.
/// At the beginning of the end step, sacrifice Underworld Breach.
pub fn underworld_breach() -> (d: CardDefinition)
    ensures
        printed(
            d.card,
            "Underworld Breach"@,
            Some(seq![seq![ManaSymbol::Generic(1)], seq![ManaSymbol::Red]]),
            seq![],
            seq![CardType::Enchantment],
            seq![],
            None,
            seq![],
        ),
        d.abilities@.len() == 2,
        d.abilities@[0].kind == AbilityKind::Static(StaticAbility::GrantEscapeToNonland { exile_count: 3 }),
        d.abilities@[1].kind matches AbilityKind::Triggered(t) && t.trigger == Trigger::BeginningOfEndStep(
            PlayerFilter::You,
        ) && t.effects@ =~= seq![Effect::SacrificeSource],
        d.spell_effect is None,
        no_extras(d),
{
    let b = CardDefinitionBuilder::new(CardId::from_raw(0), "Underworld Breach")
        .mana_cost(ManaCost::from_pips(vec![vec![ManaSymbol::Generic(1)], vec![ManaSymbol::Red]]))
        .card_types(vec![CardType::Enchantment])
        .with_ability(
            Ability::on_battlefield(
                AbilityKind::Static(StaticAbility::GrantEscapeToNonland { exile_count: 3 }),
                "Each nonland card in your graveyard has escape. The escape cost is equal to the card's mana cost plus exile three other cards from your graveyard.",
            ),
        );
    let b = b.with_trigger(
        Trigger::BeginningOfEndStep(PlayerFilter::You),
        vec![Effect::SacrificeSource],
        "At the beginning of the end step, sacrifice Underworld Breach.",
    );
    proof {
        assert(b.definition.abilities@[0] == b.definition.abilities@.drop_last()[0]);
    }
    b.build()
}

/// Vampiric Tutor
/// {B}
/// Instant
/// Search your library for a card, then shuffle and put that card on top. You lose 2 life.
pub fn vampiric_tutor() -> (d: CardDefinition)
    ensures
        printed(
            d.card,
            "Vampiric Tutor"@,
            Some(seq![seq![ManaSymbol::Black]]),
            seq![],
            seq![CardType::Instant],
            seq![],
            None,
            "Search your library for a card, then shuffle and put that card on top. You lose 2 life."@,
        ),
        d.abilities@.len() == 0,
        d.spell_effect matches Some(e) && e@.len() == 2 && is_search(
            e@[0],
            seq![],
            1,
            SearchDestination::TopOfLibrary,
            false,
        ) && e@[1] == Effect::LoseLife(2),
        no_extras(d),
{
    let search = Effect::SearchLibrary {
        filter: CardFilter::any(),
        max_count: 1,
        destination: SearchDestination::TopOfLibrary,
        reveal: false,
    };
    CardDefinitionBuilder::new(CardId::from_raw(0), "Vampiric Tutor")
        .mana_cost(ManaCost::from_pips(vec![vec![ManaSymbol::Black]]))
        .card_types(vec![CardType::Instant])
        .with_spell_effect(vec![search, Effect::LoseLife(2)])
        .oracle_text("Search your library for a card, then shuffle and put that card on top. You lose 2 life.")
        .build()
}

/// Yawgmoth, Thran Physician - {2}{B}{B}
/// Legendary Creature — Human Cleric (2/4)
/// Protection from Humans
/// Pay 1 life, Sacrifice another creature: Put a -1/-1 counter on up to one target creature
/// and draw a card.
/// {B}{B}, Discard a card: Proliferate.
pub fn yawgmoth_thran_physician() -> (d: CardDefinition)
    ensures
        printed(
            d.card,
            "Yawgmoth, Thran Physician"@,
            Some(seq![seq![ManaSymbol::Generic(2)], seq![ManaSymbol::Black], seq![ManaSymbol::Black]]),
            seq![Supertype::Legendary],
            seq![CardType::Creature],
            seq![Subtype::Human, Subtype::Cleric],
            Some((2i32, 4i32)),
            "Protection from Humans\nPay 1 life, Sacrifice another creature: Put a -1/-1 counter on up to one target creature and draw a card.\n{B}{B}, Discard a card: Proliferate."@,
        ),
        d.abilities@.len() == 3,
        d.abilities@[0].kind == AbilityKind::Static(StaticAbility::ProtectionFromSubtype(Subtype::Human)),
        d.abilities@[1].kind matches AbilityKind::Activated(a) && !a.mana_ability && a.mana_cost@.len() == 0
            && a.cost_effects@.len() == 2 && a.cost_effects@[0] == CostEffect::PayLife(1) && (a.cost_effects@[1] matches CostEffect::SacrificeAnother(f)
            && f.card_types@ =~= seq![CardType::Creature] && f.other) && a.effects@ =~= seq![
            Effect::PutCounterOnUpToOneTargetCreature(CounterType::MinusOneMinusOne),
            Effect::Draw(1),
        ],
        d.abilities@[2].kind matches AbilityKind::Activated(a) && !a.mana_ability && a.mana_cost@.len() == 1
            && a.cost_effects@ =~= seq![CostEffect::Discard(1)] && a.effects@ =~= seq![Effect::Proliferate],
        d.spell_effect is None,
        no_extras(d),
{
    let sacrifice = ActivatedAbility {
        mana_cost: TotalCost::free(),
        cost_effects: vec![CostEffect::PayLife(1), CostEffect::SacrificeAnother(PermanentFilter::creature().other())],
        effects: vec![Effect::PutCounterOnUpToOneTargetCreature(CounterType::MinusOneMinusOne), Effect::Draw(1)],
        mana_ability: false,
    };
    let proliferate = ActivatedAbility {
        mana_cost: TotalCost::mana(ManaCost::from_pips(vec![vec![ManaSymbol::Black], vec![ManaSymbol::Black]])),
        cost_effects: vec![CostEffect::Discard(1)],
        effects: vec![Effect::Proliferate],
        mana_ability: false,
    };
    CardDefinitionBuilder::new(CardId::from_raw(0), "Yawgmoth, Thran Physician")
        .mana_cost(
            ManaCost::from_pips(vec![vec![ManaSymbol::Generic(2)], vec![ManaSymbol::Black], vec![ManaSymbol::Black]]),
        )
        .supertypes(vec![Supertype::Legendary])
        .card_types(vec![CardType::Creature])
        .subtypes(vec![Subtype::Human, Subtype::Cleric])
        .power_toughness(PowerToughness::fixed(2, 4))
        .oracle_text(
            "Protection from Humans\nPay 1 life, Sacrifice another creature: Put a -1/-1 counter on up to one target creature and draw a card.\n{B}{B}, Discard a card: Proliferate.",
        )
        .with_ability(
            Ability::on_battlefield(
                AbilityKind::Static(StaticAbility::ProtectionFromSubtype(Subtype::Human)),
                "Protection from Humans",
            ),
        )
        .with_ability(
            Ability::on_battlefield(
                AbilityKind::Activated(sacrifice),
                "Pay 1 life, Sacrifice another creature: Put a -1/-1 counter on up to one target creature and draw a card.",
            ),
        )
        .with_ability(
            Ability::on_battlefield(AbilityKind::Activated(proliferate), "{B}{B}, Discard a card: Proliferate."),
        )
        .build()
}

} // verus!
