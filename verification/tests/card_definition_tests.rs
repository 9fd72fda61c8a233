use maigus::card::PowerToughness;
use maigus::cards::ability::{AbilityKind, AlternativeCastingMethod, CostEffect, Effect, Grantable, ImprintFromHandEffect, TriggeredAbility};
use maigus::cards::definitions::{
    basic_island, bastion_protector, blacksmiths_skill, buried_alive, chrome_mox, demonic_tutor, descent_into_avernus,
    emrakul_the_promised_end, enlightened_tutor, everflowing_chalice, marvin_murderous_mimic, shattered_sanctum,
    tayam_luminous_enigma, ugins_insight, underworld_breach, vampiric_tutor, yawgmoth_thran_physician,
};
use maigus::cards::tokens::{treasure_token_definition, walker_token_definition};
use maigus::statics::{ProtectionFrom, StaticAbilityId};
use maigus::game::CounterType;
use maigus::types::{CardType, Color, Subtype, Supertype};

// ---- Island ----

#[test]
fn test_basic_island() {
    let def = basic_island();
    assert!(def.card.is_land());
    assert!(def.card.has_supertype(Supertype::Basic));
    assert!(def.abilities.iter().any(|a| a.is_mana_ability()));
}

// ---- Bastion Protector ----

#[test]
fn test_bastion_protector_basic_properties() {
    let def = bastion_protector();
    assert_eq!(def.name(), "Bastion Protector");
    assert!(def.is_creature());
    assert_eq!(def.card.mana_value(), 3);
    assert!(def.card.colors().contains(Color::White));
    assert_eq!(def.card.colors().count(), 1);
    assert!(def.card.has_subtype(Subtype::Human));
    assert!(def.card.has_subtype(Subtype::Soldier));
    let pt = def.card.power_toughness.unwrap();
    assert_eq!(pt.power.base_value(), 3);
    assert_eq!(pt.toughness.base_value(), 3);
}

#[test]
fn test_bastion_protector_has_anthem_ability() {
    let def = bastion_protector();
    assert_eq!(def.abilities.len(), 2);
    let has_anthem = def.abilities.iter().any(|a| {
        if let AbilityKind::Static(s) = &a.kind {
            s.id() == StaticAbilityId::Anthem
        } else {
            false
        }
    });
    assert!(has_anthem, "Should have an Anthem ability");
}

#[test]
fn test_bastion_protector_has_grant_indestructible() {
    let def = bastion_protector();
    let has_grant_ability = def.abilities.iter().any(|a| {
        if let AbilityKind::Static(s) = &a.kind {
            s.id() == StaticAbilityId::GrantAbility
        } else {
            false
        }
    });
    assert!(has_grant_ability, "Should have a GrantAbility ability");
}

// ---- Buried Alive ----

#[test]
fn test_buried_alive_basic_properties() {
    let def = buried_alive();
    assert_eq!(def.name(), "Buried Alive");
    assert!(def.is_spell());
    assert!(def.card.is_sorcery());
    assert!(!def.card.is_instant());
    assert_eq!(def.card.mana_value(), 3);
}

#[test]
fn test_buried_alive_is_black() {
    let def = buried_alive();
    assert!(def.card.colors().contains(Color::Black));
    assert!(!def.card.colors().contains(Color::White));
    assert_eq!(def.card.colors().count(), 1);
}

#[test]
fn test_buried_alive_mana_cost() {
    let def = buried_alive();
    assert_eq!(def.card.mana_value(), 3);
}

#[test]
fn test_buried_alive_has_spell_effect() {
    let def = buried_alive();
    assert!(def.spell_effect.is_some());
    assert_eq!(def.spell_effect.as_ref().unwrap().len(), 1);
}

#[test]
fn test_buried_alive_no_abilities() {
    let def = buried_alive();
    assert!(def.abilities.is_empty());
}

#[test]
fn test_buried_alive_creature_cards_only() {
    let def = buried_alive();
    assert!(def.card.oracle_text.contains("creature cards"));
}

#[test]
fn test_buried_alive_is_sorcery() {
    let def = buried_alive();
    assert!(def.card.is_sorcery());
    assert!(!def.card.is_instant());
}

#[test]
fn test_buried_alive_doesnt_reveal() {
    let def = buried_alive();
    assert!(!def.card.oracle_text.contains("reveal"));
}

// ---- Chrome Mox ----

#[test]
fn test_chrome_mox_basic_properties() {
    let def = chrome_mox();
    assert_eq!(def.name(), "Chrome Mox");
    assert!(def.card.is_artifact());
    assert!(def.card.card_types.contains(&CardType::Artifact));
    assert_eq!(def.card.mana_value(), 0);
    assert_eq!(def.card.colors().count(), 0);
}

#[test]
fn test_chrome_mox_has_two_abilities() {
    let def = chrome_mox();
    assert_eq!(def.abilities.len(), 2);
}

#[test]
fn test_chrome_mox_has_etb_trigger() {
    let def = chrome_mox();
    assert!(matches!(def.abilities[0].kind, AbilityKind::Triggered(_)));
    if let AbilityKind::Triggered(triggered) = &def.abilities[0].kind {
        assert!(triggered.trigger.display().contains("enters"), "Should trigger on entering battlefield");
    }
}

#[test]
fn test_chrome_mox_has_mana_ability() {
    let def = chrome_mox();
    assert!(def.abilities[1].is_mana_ability());
    if let AbilityKind::Mana(mana_ability) = &def.abilities[1].kind {
        assert!(mana_ability.has_tap_cost());
        assert!(mana_ability.effects.is_some());
    }
}

#[test]
fn test_imprint_filter_excludes_artifacts() {
    let filter = ImprintFromHandEffect::nonartifact_nonland().filter;
    assert!(filter.excluded_card_types.contains(&CardType::Artifact));
}

#[test]
fn test_imprint_filter_excludes_lands() {
    let filter = ImprintFromHandEffect::nonartifact_nonland().filter;
    assert!(filter.excluded_card_types.contains(&CardType::Land));
}

#[test]
fn test_chrome_mox_oracle_text() {
    let def = chrome_mox();
    assert!(def.card.oracle_text.contains("Imprint"));
    assert!(def.card.oracle_text.contains("nonartifact"));
    assert!(def.card.oracle_text.contains("nonland"));
    assert!(def.card.oracle_text.contains("exile"));
    assert!(def.card.oracle_text.contains("colors"));
}

// ---- Demonic Tutor ----

#[test]
fn test_demonic_tutor_basic_properties() {
    let def = demonic_tutor();
    assert_eq!(def.name(), "Demonic Tutor");
    assert!(def.is_spell());
    assert!(def.card.is_sorcery());
    assert!(!def.card.is_instant());
    assert_eq!(def.card.mana_value(), 2);
}

#[test]
fn test_demonic_tutor_is_black() {
    let def = demonic_tutor();
    assert!(def.card.colors().contains(Color::Black));
    assert!(!def.card.colors().contains(Color::White));
    assert!(!def.card.colors().contains(Color::Blue));
    assert!(!def.card.colors().contains(Color::Red));
    assert!(!def.card.colors().contains(Color::Green));
    assert_eq!(def.card.colors().count(), 1);
}

#[test]
fn test_demonic_tutor_mana_cost() {
    let def = demonic_tutor();
    assert_eq!(def.card.mana_value(), 2);
}

#[test]
fn test_demonic_tutor_has_spell_effect() {
    let def = demonic_tutor();
    assert!(def.spell_effect.is_some());
    assert_eq!(def.spell_effect.as_ref().unwrap().len(), 1);
}

#[test]
fn test_demonic_tutor_no_abilities() {
    let def = demonic_tutor();
    assert!(def.abilities.is_empty());
}

#[test]
fn test_demonic_tutor_is_not_permanent() {
    let def = demonic_tutor();
    assert!(!def.is_permanent());
}

#[test]
fn test_demonic_tutor_oracle_text() {
    let def = demonic_tutor();
    assert!(def.card.oracle_text.contains("Search your library"));
    assert!(def.card.oracle_text.contains("put that card into your hand"));
    assert!(def.card.oracle_text.contains("shuffle"));
}

#[test]
fn test_demonic_tutor_no_reveal() {
    let def = demonic_tutor();
    assert!(!def.card.oracle_text.contains("reveal"));
}

#[test]
fn test_demonic_tutor_is_sorcery_speed() {
    let def = demonic_tutor();
    assert!(def.card.is_sorcery());
    assert!(!def.card.is_instant());
}

#[test]
fn test_demonic_tutor_has_no_subtypes() {
    let def = demonic_tutor();
    assert!(def.card.subtypes.is_empty());
}

#[test]
fn test_demonic_tutor_has_no_supertypes() {
    let def = demonic_tutor();
    assert!(def.card.supertypes.is_empty());
}

#[test]
fn test_demonic_tutor_is_not_creature() {
    let def = demonic_tutor();
    assert!(!def.card.is_creature());
    assert!(def.card.power_toughness.is_none());
}

#[test]
fn test_demonic_tutor_no_alternative_costs() {
    let def = demonic_tutor();
    assert!(def.alternative_casts.is_empty());
}

#[test]
fn test_demonic_tutor_no_optional_costs() {
    let def = demonic_tutor();
    assert!(def.optional_costs.is_empty());
}

// ---- Everflowing Chalice ----

#[test]
fn test_everflowing_chalice() {
    let card = everflowing_chalice();
    assert_eq!(card.card.name, "Everflowing Chalice");
    assert_eq!(card.card.mana_cost.as_ref().unwrap().mana_value(), 0);
    assert!(card.card.card_types.contains(&CardType::Artifact));
    assert_eq!(card.optional_costs.len(), 1);
    assert_eq!(card.optional_costs[0].label, "Multikicker");
    assert!(card.optional_costs[0].repeatable);
    assert_eq!(card.abilities.len(), 2);
    assert!(matches!(
        &card.abilities[0].kind,
        AbilityKind::Triggered(t) if t.trigger.display().contains("enters")
    ));
    assert!(matches!(&card.abilities[1].kind, AbilityKind::Mana(_)));
}

// ---- Shattered Sanctum ----

#[test]
fn test_shattered_sanctum_basic_properties() {
    let def = shattered_sanctum();
    assert_eq!(def.name(), "Shattered Sanctum");
    assert!(def.card.is_land());
    assert!(!def.card.is_creature());
    assert_eq!(def.card.mana_value(), 0);
}

#[test]
fn test_shattered_sanctum_is_not_basic() {
    let def = shattered_sanctum();
    assert!(!def.card.has_supertype(Supertype::Basic));
}

#[test]
fn test_shattered_sanctum_has_two_abilities() {
    let def = shattered_sanctum();
    assert_eq!(def.abilities.len(), 2);
}

#[test]
fn test_first_ability_offers_white_and_black() {
    let def = shattered_sanctum();
    let mana_abilities: Vec<_> = def
        .abilities
        .iter()
        .filter_map(|ability| match &ability.kind {
            AbilityKind::Activated(mana_ability) if mana_ability.is_mana_ability() => Some(mana_ability),
            _ => None,
        })
        .collect();
    assert_eq!(mana_abilities.len(), 1);

    let colors = mana_abilities[0]
        .effects
        .iter()
        .find_map(|effect| match effect {
            Effect::AddManaOfAnyColor { available_colors } => Some(available_colors),
            _ => None,
        })
        .expect("Should use restricted color-choice mana effect")
        .as_ref()
        .expect("Should expose restricted colors");
    assert_eq!(colors.len(), 2);
    assert!(colors.contains(&Color::White));
    assert!(colors.contains(&Color::Black));
    assert!(mana_abilities[0].has_tap_cost());
}

#[test]
fn test_shattered_sanctum_oracle_text() {
    let def = shattered_sanctum();
    assert!(def.card.oracle_text.contains("two or more other lands"));
    assert!(def.card.oracle_text.contains("enters the battlefield tapped"));
}

// ---- Tayam ----

#[test]
fn test_tayam_basic_properties() {
    let def = tayam_luminous_enigma();
    assert_eq!(def.name(), "Tayam, Luminous Enigma");
    assert!(def.card.supertypes.contains(&Supertype::Legendary));
    assert!(def.card.card_types.contains(&CardType::Creature));
    assert!(def.card.subtypes.contains(&Subtype::Nightmare));
    assert!(def.card.subtypes.contains(&Subtype::Beast));
    assert_eq!(def.card.mana_value(), 4);
}

#[test]
fn test_tayam_has_etb_counter_static_and_activated_ability() {
    let def = tayam_luminous_enigma();
    assert!(
        def.abilities.iter().any(|ability| {
            matches!(
                &ability.kind,
                AbilityKind::Static(static_ability)
                    if static_ability.id() == StaticAbilityId::EnterWithCountersForFilter
            )
        }),
        "expected ETB replacement static ability"
    );
    assert!(def.abilities.iter().any(|ability| matches!(ability.kind, AbilityKind::Activated(_))));
}

// ---- Underworld Breach ----

#[test]
fn test_underworld_breach() {
    let card = underworld_breach();
    assert_eq!(card.card.name, "Underworld Breach");
    assert_eq!(card.card.mana_cost.as_ref().unwrap().mana_value(), 2);
    assert!(card.card.card_types.contains(&CardType::Enchantment));
    assert_eq!(card.abilities.len(), 2);

    let grant_ability = &card.abilities[0];
    if let AbilityKind::Static(s) = &grant_ability.kind {
        assert_eq!(s.id(), StaticAbilityId::Grants);
        if let Some(spec) = s.grant_spec() {
            match &spec.grantable {
                Grantable::AlternativeCast(AlternativeCastingMethod::Escape { exile_count }) => {
                    assert_eq!(*exile_count, 3);
                }
            }
            assert!(spec.filter.excluded_card_types.contains(&CardType::Land));
        } else {
            panic!("Expected grant_spec to return Some");
        }
    } else {
        panic!("Expected Grants static ability");
    }

    let sacrifice_trigger = &card.abilities[1];
    if let AbilityKind::Triggered(TriggeredAbility { trigger, effects, .. }) = &sacrifice_trigger.kind {
        assert!(trigger.display().contains("end step"), "Should trigger on end step");
        assert_eq!(effects.len(), 1);
        let debug_str = format!("{:?}", &effects[0]);
        assert!(!debug_str.is_empty());
    } else {
        panic!("Expected triggered ability for sacrifice");
    }
}

// ---- Yawgmoth ----

#[test]
fn test_yawgmoth_basic_properties() {
    let def = yawgmoth_thran_physician();
    assert_eq!(def.name(), "Yawgmoth, Thran Physician");
    assert!(def.card.supertypes.contains(&Supertype::Legendary));
    assert!(def.card.card_types.contains(&CardType::Creature));
    assert!(def.card.subtypes.contains(&Subtype::Human));
    assert!(def.card.subtypes.contains(&Subtype::Cleric));
    assert_eq!(def.card.power_toughness.as_ref().unwrap().power.base_value(), 2);
    assert_eq!(def.card.power_toughness.as_ref().unwrap().toughness.base_value(), 4);
    assert_eq!(def.card.mana_value(), 4);
}

#[test]
fn test_yawgmoth_has_protection_from_humans() {
    let def = yawgmoth_thran_physician();
    let protection = def.abilities.iter().find_map(|a| {
        if let AbilityKind::Static(s) = &a.kind {
            s.protection_from()
        } else {
            None
        }
    });
    assert!(protection.is_some(), "Should have protection ability");
    if let Some(ProtectionFrom::Subtype(subtype)) = protection {
        assert_eq!(subtype, Subtype::Human, "Protection should be from Humans");
    } else {
        panic!("Expected protection from permanents");
    }
}

#[test]
fn test_yawgmoth_sacrifice_ability_requires_life_payment() {
    let def = yawgmoth_thran_physician();
    let sacrifice_ability = def
        .abilities
        .iter()
        .find(|a| {
            if let AbilityKind::Activated(act) = &a.kind {
                act.life_cost_amount().is_some()
            } else {
                false
            }
        })
        .expect("Should have sacrifice ability");
    if let AbilityKind::Activated(act) = &sacrifice_ability.kind {
        assert_eq!(act.life_cost_amount(), Some(1), "Sacrifice ability should cost 1 life");
    }
}

#[test]
fn test_yawgmoth_has_two_activated_abilities() {
    let def = yawgmoth_thran_physician();
    let activated_count = def.abilities.iter().filter(|a| matches!(a.kind, AbilityKind::Activated(_))).count();
    assert_eq!(activated_count, 2, "Should have exactly 2 activated abilities");
}

fn yawgmoth_sacrifice_ability() -> maigus::cards::ability::ActivatedAbility {
    let def = yawgmoth_thran_physician();
    let ability = def
        .abilities
        .iter()
        .find(|a| if let AbilityKind::Activated(act) = &a.kind { act.life_cost_amount().is_some() } else { false })
        .expect("Should have sacrifice ability");
    match &ability.kind {
        AbilityKind::Activated(act) => act.clone(),
        _ => unreachable!(),
    }
}

// The sacrifice ability's costs are paying 1 life and sacrificing another
// creature. Choosing the creature and sacrificing it are one cost effect
// here (a sacrifice of another permanent matching a filter whose `other`
// flag is set), so there are 2 cost effects: pay life, then sacrifice.
#[test]
fn test_yawgmoth_sacrifice_ability_requires_another_creature() {
    let act = yawgmoth_sacrifice_ability();
    assert_eq!(act.cost_effects.len(), 2, "Should have 2 cost effects (pay life + sacrifice another)");
    assert_eq!(act.cost_effects[0], CostEffect::PayLife(1), "First cost effect should be pay life");
    match &act.cost_effects[1] {
        CostEffect::SacrificeAnother(filter) => {
            assert!(filter.other, "Should require 'another' creature");
            assert_eq!(filter.card_types, vec![CardType::Creature]);
        },
        other => panic!("Second cost effect should be sacrifice, got {:?}", other),
    }
}

#[test]
fn test_yawgmoth_sacrifice_ability_draws_card() {
    let act = yawgmoth_sacrifice_ability();
    let has_draw = act.effects.iter().any(|e| *e == Effect::Draw(1));
    assert!(has_draw, "Sacrifice ability should draw a card");
}

#[test]
fn test_yawgmoth_sacrifice_ability_puts_counter() {
    let act = yawgmoth_sacrifice_ability();
    let has_counter_effect = act
        .effects
        .iter()
        .any(|e| *e == Effect::PutCounterOnUpToOneTargetCreature(CounterType::MinusOneMinusOne));
    assert!(has_counter_effect, "Should have put counters effect");
}

// The {B}{B} is the mana part of the cost and the discard is a cost effect:
// 2 costs in all.
#[test]
fn test_yawgmoth_proliferate_ability_requires_bb_and_discard() {
    let def = yawgmoth_thran_physician();
    let ability = def
        .abilities
        .iter()
        .find(|a| {
            if let AbilityKind::Activated(act) = &a.kind {
                act.mana_cost.mana_cost().is_some() && act.life_cost_amount().is_none()
            } else {
                false
            }
        })
        .expect("Should have proliferate ability");
    if let AbilityKind::Activated(act) = &ability.kind {
        let mana_cost = act.mana_cost.mana_cost().expect("Should have mana cost");
        assert_eq!(mana_cost.mana_value(), 2, "Should cost 2 mana");
        assert_eq!(
            act.mana_cost.costs().len() + act.cost_effects.len(),
            2,
            "Should have 2 costs: mana (BB) and discard"
        );
        assert!(act.cost_effects.contains(&CostEffect::Discard(1)), "Costs should contain discard effect");
        assert_eq!(act.effects, vec![Effect::Proliferate]);
    }
}

// ---- Tokens ----

#[test]
fn walker_token_has_expected_base_characteristics() {
    let walker = walker_token_definition();
    assert!(walker.card.is_token);
    assert!(walker.card.card_types.contains(&CardType::Creature));
    assert!(walker.card.subtypes.contains(&Subtype::Zombie));
    assert_eq!(walker.card.power_toughness, Some(PowerToughness::fixed(2, 2)));
}

#[test]
fn treasure_token_is_an_artifact_with_a_mana_ability() {
    let t = treasure_token_definition();
    assert!(t.card.is_token);
    assert_eq!(t.card.card_types, vec![CardType::Artifact]);
    assert_eq!(t.card.subtypes, vec![Subtype::Treasure]);
    assert!(t.abilities[0].is_mana_ability());
    assert_eq!(t.card.colors().count(), 0);
    assert!(walker_token_definition().card.colors().contains(Color::Black));
}

// ---- Other cards ----

#[test]
fn other_cards_have_their_printed_characteristics() {
    let skill = blacksmiths_skill();
    assert_eq!(skill.card.mana_value(), 1);
    assert_eq!(skill.spell_effect.as_ref().unwrap().len(), 2);
    let descent = descent_into_avernus();
    assert_eq!(descent.card.mana_value(), 3);
    assert!(matches!(&descent.abilities[0].kind, AbilityKind::Triggered(t) if t.trigger.display().contains("upkeep")));
    let emrakul = emrakul_the_promised_end();
    assert_eq!(emrakul.card.mana_value(), 13);
    assert_eq!(emrakul.card.colors().count(), 0);
    assert_eq!(emrakul.abilities.len(), 5);
    let tutor = enlightened_tutor();
    assert!(tutor.card.is_instant());
    assert!(tutor.card.oracle_text.contains("reveal"));
    let marvin = marvin_murderous_mimic();
    assert!(marvin.card.is_artifact() && marvin.card.is_creature());
    assert!(marvin.is_permanent());
    let insight = ugins_insight();
    assert_eq!(insight.card.mana_value(), 5);
    assert_eq!(insight.spell_effect.as_ref().unwrap()[1], Effect::Draw(3));
    let vampiric = vampiric_tutor();
    assert_eq!(vampiric.spell_effect.as_ref().unwrap()[1], Effect::LoseLife(2));
    assert!(vampiric.is_spell());
}
