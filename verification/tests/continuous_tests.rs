use maigus::card::{CardBuilder, PowerToughness};
use maigus::cards::ability::Effect;
use maigus::cards::definitions::{bastion_protector, chrome_mox, shattered_sanctum};
use maigus::executor::{EffectResult, ExecutionContext};
use maigus::game::GameState;
use maigus::ids::{CardId, ObjectId, PlayerId};
use maigus::mana::{ManaCost, ManaSymbol};
use maigus::statics::{CreatureGroup, Keyword, StaticAbility};
use maigus::types::{CardType, Supertype, Zone};

fn setup_game() -> GameState {
    GameState::new(vec!["Alice".to_string(), "Bob".to_string()], 20)
}

fn create_red_instant(game: &mut GameState, owner: PlayerId) -> ObjectId {
    let card = CardBuilder::new(CardId::from_raw(0), "Lightning Bolt")
        .mana_cost(ManaCost::from_pips(vec![vec![ManaSymbol::Red]]))
        .card_types(vec![CardType::Instant])
        .build();
    game.create_object_from_card(&card, owner, Zone::Hand)
}

fn create_blue_creature(game: &mut GameState, owner: PlayerId) -> ObjectId {
    let card = CardBuilder::new(CardId::from_raw(0), "Delver of Secrets")
        .mana_cost(ManaCost::from_pips(vec![vec![ManaSymbol::Blue]]))
        .card_types(vec![CardType::Creature])
        .power_toughness(PowerToughness::fixed(1, 1))
        .build();
    game.create_object_from_card(&card, owner, Zone::Hand)
}

fn create_multicolor_card(game: &mut GameState, owner: PlayerId) -> ObjectId {
    let card = CardBuilder::new(CardId::from_raw(0), "Electrolyze")
        .mana_cost(ManaCost::from_pips(vec![
            vec![ManaSymbol::Blue],
            vec![ManaSymbol::Red],
            vec![ManaSymbol::Generic(1)],
        ]))
        .card_types(vec![CardType::Instant])
        .build();
    game.create_object_from_card(&card, owner, Zone::Hand)
}

fn create_colorless_spell(game: &mut GameState, owner: PlayerId) -> ObjectId {
    let card = CardBuilder::new(CardId::from_raw(0), "Karn Liberated")
        .mana_cost(ManaCost::from_pips(vec![vec![ManaSymbol::Generic(7)]]))
        .card_types(vec![CardType::Planeswalker])
        .build();
    game.create_object_from_card(&card, owner, Zone::Hand)
}

#[test]
fn test_chrome_mox_imprint_tracks_exiled_card() {
    let mut game = setup_game();
    let alice = PlayerId::from_index(0);
    let def = chrome_mox();
    let mox_id = game.create_object_from_definition(&def, alice, Zone::Battlefield);
    let bolt = create_red_instant(&mut game, alice);
    let exiled_id = game.move_object(bolt, Zone::Exile).unwrap();
    game.imprint_card(mox_id, exiled_id);
    assert!(game.has_imprinted_cards(mox_id));
    let imprinted = game.get_imprinted_cards(mox_id);
    assert_eq!(imprinted.len(), 1);
    assert_eq!(imprinted[0], exiled_id);
}

#[test]
fn test_chrome_mox_no_imprint_no_mana() {
    let mut game = setup_game();
    let alice = PlayerId::from_index(0);
    let def = chrome_mox();
    let mox_id = game.create_object_from_definition(&def, alice, Zone::Battlefield);
    assert!(!game.has_imprinted_cards(mox_id));
    let mut ctx = ExecutionContext::new_default(mox_id, alice);
    let effect = Effect::AddManaOfImprintedColor;
    let result = effect.execute(&mut game, &mut ctx).unwrap();
    assert_eq!(result.result, EffectResult::Count(0));
    assert_eq!(game.player(alice).unwrap().mana_pool.total(), 0);
}

#[test]
fn test_chrome_mox_imprinted_red_produces_red() {
    let mut game = setup_game();
    let alice = PlayerId::from_index(0);
    let def = chrome_mox();
    let mox_id = game.create_object_from_definition(&def, alice, Zone::Battlefield);
    let bolt = create_red_instant(&mut game, alice);
    let exiled_id = game.move_object(bolt, Zone::Exile).unwrap();
    game.imprint_card(mox_id, exiled_id);
    let mut ctx = ExecutionContext::new_default(mox_id, alice);
    let effect = Effect::AddManaOfImprintedColor;
    let result = effect.execute(&mut game, &mut ctx).unwrap();
    assert_eq!(result.result, EffectResult::Count(1));
    assert_eq!(game.player(alice).unwrap().mana_pool.red, 1);
}

#[test]
fn test_chrome_mox_imprinted_blue_produces_blue() {
    let mut game = setup_game();
    let alice = PlayerId::from_index(0);
    let def = chrome_mox();
    let mox_id = game.create_object_from_definition(&def, alice, Zone::Battlefield);
    let delver = create_blue_creature(&mut game, alice);
    let exiled_id = game.move_object(delver, Zone::Exile).unwrap();
    game.imprint_card(mox_id, exiled_id);
    let mut ctx = ExecutionContext::new_default(mox_id, alice);
    let effect = Effect::AddManaOfImprintedColor;
    let result = effect.execute(&mut game, &mut ctx).unwrap();
    assert_eq!(result.result, EffectResult::Count(1));
    assert_eq!(game.player(alice).unwrap().mana_pool.blue, 1);
}

#[test]
fn test_chrome_mox_imprinted_colorless_produces_nothing() {
    let mut game = setup_game();
    let alice = PlayerId::from_index(0);
    let def = chrome_mox();
    let mox_id = game.create_object_from_definition(&def, alice, Zone::Battlefield);
    let karn = create_colorless_spell(&mut game, alice);
    let exiled_id = game.move_object(karn, Zone::Exile).unwrap();
    game.imprint_card(mox_id, exiled_id);
    let mut ctx = ExecutionContext::new_default(mox_id, alice);
    let effect = Effect::AddManaOfImprintedColor;
    let result = effect.execute(&mut game, &mut ctx).unwrap();
    assert_eq!(result.result, EffectResult::Count(0));
    assert_eq!(game.player(alice).unwrap().mana_pool.total(), 0);
}

#[test]
fn test_chrome_mox_multicolor_imprint_one_mana() {
    let mut game = setup_game();
    let alice = PlayerId::from_index(0);
    let def = chrome_mox();
    let mox_id = game.create_object_from_definition(&def, alice, Zone::Battlefield);
    let electrolyze = create_multicolor_card(&mut game, alice);
    let exiled_id = game.move_object(electrolyze, Zone::Exile).unwrap();
    game.imprint_card(mox_id, exiled_id);
    let mut ctx = ExecutionContext::new_default(mox_id, alice);
    let effect = Effect::AddManaOfImprintedColor;
    let result = effect.execute(&mut game, &mut ctx).unwrap();
    assert_eq!(result.result, EffectResult::Count(1));
    let pool = &game.player(alice).unwrap().mana_pool;
    assert_eq!(pool.blue + pool.red, 1);
}

#[test]
fn test_chrome_mox_leaving_clears_imprint() {
    let mut game = setup_game();
    let alice = PlayerId::from_index(0);
    let def = chrome_mox();
    let mox_id = game.create_object_from_definition(&def, alice, Zone::Battlefield);
    let bolt = create_red_instant(&mut game, alice);
    let exiled_id = game.move_object(bolt, Zone::Exile).unwrap();
    game.imprint_card(mox_id, exiled_id);
    assert!(game.has_imprinted_cards(mox_id));
    let _new_id = game.move_object(mox_id, Zone::Graveyard);
    assert!(!game.has_imprinted_cards(mox_id));
}

#[test]
fn test_chrome_mox_imprinted_card_leaves_exile_no_mana() {
    let mut game = setup_game();
    let alice = PlayerId::from_index(0);
    let def = chrome_mox();
    let mox_id = game.create_object_from_definition(&def, alice, Zone::Battlefield);
    let bolt = create_red_instant(&mut game, alice);
    let exiled_id = game.move_object(bolt, Zone::Exile).unwrap();
    game.imprint_card(mox_id, exiled_id);
    let mut ctx = ExecutionContext::new_default(mox_id, alice);
    let effect = Effect::AddManaOfImprintedColor;
    let result = effect.execute(&mut game, &mut ctx).unwrap();
    assert_eq!(result.result, EffectResult::Count(1));
    assert_eq!(game.player(alice).unwrap().mana_pool.red, 1);
    game.players[0].mana_pool.red = 0;
    let _new_id = game.move_object(exiled_id, Zone::Graveyard).unwrap();
    assert!(game.has_imprinted_cards(mox_id));
    let mut ctx2 = ExecutionContext::new_default(mox_id, alice);
    let result2 = effect.execute(&mut game, &mut ctx2).unwrap();
    assert_eq!(result2.result, EffectResult::Count(0));
    assert_eq!(game.player(alice).unwrap().mana_pool.total(), 0);
}

#[test]
fn test_shattered_sanctum_on_battlefield() {
    let mut game = setup_game();
    let alice = PlayerId::from_index(0);
    let def = shattered_sanctum();
    let sanctum_id = game.create_object_from_definition(&def, alice, Zone::Battlefield);
    assert!(game.battlefield.contains(&sanctum_id));
    let obj = game.object(sanctum_id).unwrap();
    assert_eq!(obj.abilities.len(), 2);
}

fn legendary_creature(game: &mut GameState, owner: PlayerId, name: &str) -> ObjectId {
    let card = CardBuilder::new(CardId::from_raw(0), name)
        .card_types(vec![CardType::Creature])
        .supertypes(vec![Supertype::Legendary])
        .power_toughness(PowerToughness::fixed(4, 4))
        .build();
    game.create_object_from_card(&card, owner, Zone::Battlefield)
}

#[test]
fn test_bastion_protector_buffs_commander() {
    let mut game = GameState::new(vec!["Alice".to_string(), "Bob".to_string()], 20);
    let alice = PlayerId::from_index(0);
    let commander_id = legendary_creature(&mut game, alice, "Test Commander");
    game.set_as_commander(commander_id, alice);
    let protector_def = bastion_protector();
    let _protector_id = game.create_object_from_definition(&protector_def, alice, Zone::Battlefield);
    assert_eq!(game.calculated_power(commander_id), Some(6), "Commander should have 4+2=6 power");
    assert_eq!(game.calculated_toughness(commander_id), Some(6), "Commander should have 4+2=6 toughness");
}

#[test]
fn test_bastion_protector_grants_indestructible_to_commander() {
    let mut game = GameState::new(vec!["Alice".to_string(), "Bob".to_string()], 20);
    let alice = PlayerId::from_index(0);
    let commander_id = legendary_creature(&mut game, alice, "Test Commander");
    game.set_as_commander(commander_id, alice);
    let protector_def = bastion_protector();
    let _protector_id = game.create_object_from_definition(&protector_def, alice, Zone::Battlefield);
    game.update_static_ability_effects();
    let _commander = game.object(commander_id).unwrap();
    assert!(
        game.object_has_ability(commander_id, &StaticAbility::indestructible()),
        "Commander should have indestructible"
    );
}

#[test]
fn test_bastion_protector_does_not_buff_non_commanders() {
    let mut game = GameState::new(vec!["Alice".to_string(), "Bob".to_string()], 20);
    let alice = PlayerId::from_index(0);
    let creature_card = CardBuilder::new(CardId::from_raw(0), "Regular Creature")
        .card_types(vec![CardType::Creature])
        .power_toughness(PowerToughness::fixed(2, 2))
        .build();
    let creature_id = game.create_object_from_card(&creature_card, alice, Zone::Battlefield);
    let protector_def = bastion_protector();
    let _protector_id = game.create_object_from_definition(&protector_def, alice, Zone::Battlefield);
    game.update_static_ability_effects();
    let creature = game.object(creature_id).unwrap();
    assert_eq!(creature.power(), Some(2), "Non-commander should still have 2 power");
    assert_eq!(creature.toughness(), Some(2), "Non-commander should still have 2 toughness");
    assert!(
        !game.object_has_ability(creature_id, &StaticAbility::indestructible()),
        "Non-commander should not have indestructible"
    );
}

#[test]
fn test_bastion_protector_does_not_buff_opponent_commanders() {
    let mut game = GameState::new(vec!["Alice".to_string(), "Bob".to_string()], 20);
    let alice = PlayerId::from_index(0);
    let bob = PlayerId::from_index(1);
    let bob_commander_id = legendary_creature(&mut game, bob, "Bob's Commander");
    game.set_as_commander(bob_commander_id, bob);
    let protector_def = bastion_protector();
    let _protector_id = game.create_object_from_definition(&protector_def, alice, Zone::Battlefield);
    game.update_static_ability_effects();
    let bob_commander = game.object(bob_commander_id).unwrap();
    assert_eq!(bob_commander.power(), Some(4), "Opponent's commander should still have 4 power");
    assert_eq!(bob_commander.toughness(), Some(4), "Opponent's commander should still have 4 toughness");
    assert!(
        !game.object_has_ability(bob_commander_id, &StaticAbility::indestructible()),
        "Opponent's commander should not have indestructible from Alice's Bastion Protector"
    );
}

#[test]
fn test_bastion_protector_buffs_stolen_commander() {
    let mut game = GameState::new(vec!["Alice".to_string(), "Bob".to_string()], 20);
    let alice = PlayerId::from_index(0);
    let bob = PlayerId::from_index(1);
    let bob_commander_id = legendary_creature(&mut game, bob, "Bob's Commander");
    game.set_as_commander(bob_commander_id, bob);
    if let Some(obj) = game.objects.iter_mut().find(|o| o.id == bob_commander_id) {
        obj.controller = alice;
    }
    let protector_def = bastion_protector();
    let _protector_id = game.create_object_from_definition(&protector_def, alice, Zone::Battlefield);
    assert_eq!(game.calculated_power(bob_commander_id), Some(6), "Stolen commander should have 4+2=6 power");
    assert_eq!(game.calculated_toughness(bob_commander_id), Some(6), "Stolen commander should have 4+2=6 toughness");
    assert!(
        game.object_has_ability(bob_commander_id, &StaticAbility::indestructible()),
        "Stolen commander should have indestructible"
    );
}

// Further cases of the library's own.

#[test]
fn anthems_add_up_and_spare_other_controllers() {
    let mut game = setup_game();
    let alice = PlayerId::from_index(0);
    let bob = PlayerId::from_index(1);
    let bear_card = CardBuilder::new(CardId::from_raw(0), "Bear")
        .card_types(vec![CardType::Creature])
        .power_toughness(PowerToughness::fixed(2, 2))
        .build();
    let bear = game.create_object_from_card(&bear_card, alice, Zone::Battlefield);
    let bobs_bear = game.create_object_from_card(&bear_card, bob, Zone::Battlefield);
    let lord_card = CardBuilder::new(CardId::from_raw(0), "Lord").card_types(vec![CardType::Enchantment]).build();
    let lord = game.create_object_from_card(&lord_card, alice, Zone::Battlefield);
    let k = game.objects.iter().position(|o| o.id == lord).unwrap();
    game.objects[k].base_static_abilities = vec![
        StaticAbility::Anthem { power: 1, toughness: 1, affected: CreatureGroup::CreaturesYouControl },
        StaticAbility::Anthem { power: 2, toughness: 0, affected: CreatureGroup::OtherCreaturesYouControl },
        StaticAbility::GrantAbility { keyword: Keyword::Flying, affected: CreatureGroup::CreaturesYouControl },
    ];
    game.update_static_ability_effects();
    assert_eq!(game.calculated_power(bear), Some(5));
    assert_eq!(game.calculated_toughness(bear), Some(3));
    assert_eq!(game.calculated_power(bobs_bear), Some(2));
    assert!(game.object_has_ability(bear, &StaticAbility::Flying));
    assert!(!game.object_has_ability(bobs_bear, &StaticAbility::Flying));
    assert!(!game.object_has_ability(lord, &StaticAbility::Flying));
    assert_eq!(game.calculated_power(lord), None);
    let before: Vec<Vec<StaticAbility>> = game.objects.iter().map(|o| o.static_abilities.clone()).collect();
    game.update_static_ability_effects();
    let after: Vec<Vec<StaticAbility>> = game.objects.iter().map(|o| o.static_abilities.clone()).collect();
    assert_eq!(before, after);
    game.move_object(lord, Zone::Graveyard);
    game.update_static_ability_effects();
    assert_eq!(game.calculated_power(bear), Some(2));
    assert!(!game.object_has_ability(bear, &StaticAbility::Flying));
}

#[test]
fn commanders_are_recorded_once() {
    let mut game = setup_game();
    let alice = PlayerId::from_index(0);
    let c = legendary_creature(&mut game, alice, "Commander");
    assert!(!game.is_commander(c));
    game.set_as_commander(c, alice);
    game.set_as_commander(c, alice);
    assert!(game.is_commander(c));
    assert_eq!(game.player(alice).unwrap().commanders, vec![c]);
}

#[test]
fn mana_pool_adds_and_counts() {
    let mut pool = maigus::mana::ManaPool::new();
    pool.add_one(maigus::types::Color::Green);
    pool.add_one(maigus::types::Color::Green);
    pool.add_one(maigus::types::Color::White);
    assert_eq!(pool.green, 2);
    assert_eq!(pool.white, 1);
    assert_eq!(pool.total(), 3);
}
