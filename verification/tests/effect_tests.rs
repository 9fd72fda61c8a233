use maigus::card::{CardBuilder, PowerToughness};
use maigus::cards::ability::{AbilityKind, Effect};
use maigus::cards::definitions::{buried_alive, demonic_tutor};
use maigus::executor::{EffectOutcome, EffectResult, ExecutionContext, ExecutionError};
use maigus::game::GameState;
use maigus::ids::{CardId, ObjectId, PlayerId};
use maigus::mana::{ManaCost, ManaSymbol};
use maigus::decision::DecisionMaker;
use maigus::decisions::context::{BooleanContext, ColorsContext, SelectObjectsContext, SelectOptionsContext};
use maigus::types::{CardType, Color, Subtype, Zone};

fn setup_game() -> GameState {
    GameState::new(vec!["Alice".to_string(), "Bob".to_string()], 20)
}

fn add_card_to_library(game: &mut GameState, name: &str, owner: PlayerId, card_type: CardType) -> ObjectId {
    let card = CardBuilder::new(CardId::from_raw(game.next_object_id as u32), name)
        .mana_cost(ManaCost::from_pips(vec![vec![ManaSymbol::Generic(2)]]))
        .card_types(vec![card_type])
        .build();
    game.create_object_from_card(&card, owner, Zone::Library)
}

fn add_creature_to_library(game: &mut GameState, name: &str, owner: PlayerId) -> ObjectId {
    let card = CardBuilder::new(CardId::from_raw(game.next_object_id as u32), name)
        .mana_cost(ManaCost::from_pips(vec![vec![ManaSymbol::Generic(2)]]))
        .card_types(vec![CardType::Creature])
        .subtypes(vec![Subtype::Zombie])
        .power_toughness(PowerToughness::fixed(2, 2))
        .build();
    game.create_object_from_card(&card, owner, Zone::Library)
}

fn add_non_creature_to_library(game: &mut GameState, name: &str, owner: PlayerId) -> ObjectId {
    let card = CardBuilder::new(CardId::from_raw(game.next_object_id as u32), name)
        .card_types(vec![CardType::Land])
        .build();
    game.create_object_from_card(&card, owner, Zone::Library)
}

fn run_demonic_tutor(game: &mut GameState, ctx: &mut ExecutionContext) -> EffectOutcome {
    let def = demonic_tutor();
    let effects = def.spell_effect.as_ref().unwrap();
    effects[0].execute(game, ctx).unwrap()
}

fn execute_buried_alive(game: &mut GameState, ctx: &mut ExecutionContext) -> Vec<EffectOutcome> {
    let def = buried_alive();
    def.spell_effect.clone().unwrap_or_default().into_iter().map(|effect| effect.execute(game, ctx).unwrap()).collect()
}

#[test]
fn test_demonic_tutor_finds_any_card() {
    let mut game = setup_game();
    let alice = PlayerId::from_index(0);
    let source = game.new_object_id();
    let _creature = add_card_to_library(&mut game, "Zombie", alice, CardType::Creature);
    let _land = add_card_to_library(&mut game, "Forest", alice, CardType::Land);
    let _instant = add_card_to_library(&mut game, "Lightning Bolt", alice, CardType::Instant);
    assert!(game.player(alice).unwrap().hand.is_empty());
    let mut ctx = ExecutionContext::new_default(source, alice);
    let result = run_demonic_tutor(&mut game, &mut ctx);
    assert!(matches!(result.result, EffectResult::Objects(_)));
    assert_eq!(game.player(alice).unwrap().hand.len(), 1);
}

#[test]
fn test_demonic_tutor_can_find_creature() {
    let mut game = setup_game();
    let alice = PlayerId::from_index(0);
    let source = game.new_object_id();
    let _creature = add_card_to_library(&mut game, "Zombie", alice, CardType::Creature);
    let mut ctx = ExecutionContext::new_default(source, alice);
    let result = run_demonic_tutor(&mut game, &mut ctx);
    assert!(matches!(result.result, EffectResult::Objects(_)));
    assert_eq!(game.player(alice).unwrap().hand.len(), 1);
}

#[test]
fn test_demonic_tutor_can_find_land() {
    let mut game = setup_game();
    let alice = PlayerId::from_index(0);
    let source = game.new_object_id();
    let _land = add_card_to_library(&mut game, "Forest", alice, CardType::Land);
    let mut ctx = ExecutionContext::new_default(source, alice);
    let result = run_demonic_tutor(&mut game, &mut ctx);
    assert!(matches!(result.result, EffectResult::Objects(_)));
    assert_eq!(game.player(alice).unwrap().hand.len(), 1);
}

#[test]
fn test_demonic_tutor_empty_library() {
    let mut game = setup_game();
    let alice = PlayerId::from_index(0);
    let source = game.new_object_id();
    let mut ctx = ExecutionContext::new_default(source, alice);
    let result = run_demonic_tutor(&mut game, &mut ctx);
    assert_eq!(result.result, EffectResult::Count(0));
    assert!(game.player(alice).unwrap().hand.is_empty());
}

#[test]
fn test_demonic_tutor_shuffles_library() {
    let mut game = setup_game();
    let alice = PlayerId::from_index(0);
    let source = game.new_object_id();
    let _c1 = add_card_to_library(&mut game, "Card A", alice, CardType::Creature);
    let _c2 = add_card_to_library(&mut game, "Card B", alice, CardType::Creature);
    let _c3 = add_card_to_library(&mut game, "Card C", alice, CardType::Creature);
    let library_size_before = game.player(alice).unwrap().library.len();
    let mut ctx = ExecutionContext::new_default(source, alice);
    let _ = run_demonic_tutor(&mut game, &mut ctx);
    assert_eq!(game.player(alice).unwrap().library.len(), library_size_before - 1);
}

#[test]
fn test_demonic_tutor_tracks_library_search() {
    let mut game = setup_game();
    let alice = PlayerId::from_index(0);
    let source = game.new_object_id();
    let _c1 = add_card_to_library(&mut game, "Card", alice, CardType::Creature);
    assert!(!game.library_searches_this_turn.contains(&alice));
    let mut ctx = ExecutionContext::new_default(source, alice);
    let _ = run_demonic_tutor(&mut game, &mut ctx);
    assert!(game.library_searches_this_turn.contains(&alice));
}

#[test]
fn test_demonic_tutor_prevented_when_cant_search() {
    let mut game = setup_game();
    let alice = PlayerId::from_index(0);
    let source = game.new_object_id();
    let _c1 = add_card_to_library(&mut game, "Card", alice, CardType::Creature);
    game.cant_effects.cant_search.push(alice);
    let mut ctx = ExecutionContext::new_default(source, alice);
    let result = run_demonic_tutor(&mut game, &mut ctx);
    assert_eq!(result.result, EffectResult::Prevented);
}

#[test]
fn test_buried_alive_finds_up_to_three_creatures() {
    let mut game = setup_game();
    let alice = PlayerId::from_index(0);
    let source = game.new_object_id();
    let _c1 = add_creature_to_library(&mut game, "Zombie A", alice);
    let _c2 = add_creature_to_library(&mut game, "Zombie B", alice);
    let _c3 = add_creature_to_library(&mut game, "Zombie C", alice);
    let _c4 = add_creature_to_library(&mut game, "Zombie D", alice);
    let _c5 = add_creature_to_library(&mut game, "Zombie E", alice);
    let mut ctx = ExecutionContext::new_default(source, alice);
    let _ = execute_buried_alive(&mut game, &mut ctx);
    assert_eq!(game.player(alice).unwrap().graveyard.len(), 3);
}

#[test]
fn test_buried_alive_with_fewer_than_three_creatures() {
    let mut game = setup_game();
    let alice = PlayerId::from_index(0);
    let source = game.new_object_id();
    let _c1 = add_creature_to_library(&mut game, "Zombie A", alice);
    let _c2 = add_creature_to_library(&mut game, "Zombie B", alice);
    let _land = add_non_creature_to_library(&mut game, "Forest", alice);
    let mut ctx = ExecutionContext::new_default(source, alice);
    let _ = execute_buried_alive(&mut game, &mut ctx);
    assert_eq!(game.player(alice).unwrap().graveyard.len(), 2);
}

#[test]
fn test_buried_alive_no_creatures_in_library() {
    let mut game = setup_game();
    let alice = PlayerId::from_index(0);
    let source = game.new_object_id();
    let _land1 = add_non_creature_to_library(&mut game, "Forest", alice);
    let _land2 = add_non_creature_to_library(&mut game, "Mountain", alice);
    let mut ctx = ExecutionContext::new_default(source, alice);
    let _ = execute_buried_alive(&mut game, &mut ctx);
    assert!(game.player(alice).unwrap().graveyard.is_empty());
}

#[test]
fn test_buried_alive_empty_library() {
    let mut game = setup_game();
    let alice = PlayerId::from_index(0);
    let source = game.new_object_id();
    let mut ctx = ExecutionContext::new_default(source, alice);
    let _ = execute_buried_alive(&mut game, &mut ctx);
    assert!(game.player(alice).unwrap().graveyard.is_empty());
}

#[test]
fn test_buried_alive_shuffles_library() {
    let mut game = setup_game();
    let alice = PlayerId::from_index(0);
    let source = game.new_object_id();
    let _c1 = add_creature_to_library(&mut game, "Zombie A", alice);
    let _c2 = add_creature_to_library(&mut game, "Zombie B", alice);
    let land = add_non_creature_to_library(&mut game, "Forest", alice);
    let library_size_before = game.player(alice).unwrap().library.len();
    let mut ctx = ExecutionContext::new_default(source, alice);
    let _ = execute_buried_alive(&mut game, &mut ctx);
    let library_after = &game.player(alice).unwrap().library;
    assert_eq!(library_after.len(), library_size_before - 2);
    assert!(library_after.contains(&land));
}

#[test]
fn test_buried_alive_only_finds_creatures() {
    let mut game = setup_game();
    let alice = PlayerId::from_index(0);
    let source = game.new_object_id();
    let _c1 = add_creature_to_library(&mut game, "Zombie", alice);
    let land_id = add_non_creature_to_library(&mut game, "Forest", alice);
    let mut ctx = ExecutionContext::new_default(source, alice);
    let _ = execute_buried_alive(&mut game, &mut ctx);
    assert_eq!(game.player(alice).unwrap().graveyard.len(), 1);
    let land = game.object(land_id).unwrap();
    assert_eq!(land.zone, Zone::Library, "Land should still be in library");
}

#[test]
fn test_buried_alive_cards_go_to_graveyard() {
    let mut game = setup_game();
    let alice = PlayerId::from_index(0);
    let source = game.new_object_id();
    let _c1 = add_creature_to_library(&mut game, "Zombie A", alice);
    let _c2 = add_creature_to_library(&mut game, "Zombie B", alice);
    assert!(game.player(alice).unwrap().graveyard.is_empty());
    let mut ctx = ExecutionContext::new_default(source, alice);
    let _ = execute_buried_alive(&mut game, &mut ctx);
    assert_eq!(game.player(alice).unwrap().graveyard.len(), 2);
}

#[test]
fn test_buried_alive_tracks_library_search() {
    let mut game = setup_game();
    let alice = PlayerId::from_index(0);
    let source = game.new_object_id();
    assert!(!game.library_searches_this_turn.contains(&alice));
    let mut ctx = ExecutionContext::new_default(source, alice);
    let _ = execute_buried_alive(&mut game, &mut ctx);
    assert!(game.library_searches_this_turn.contains(&alice));
}

#[test]
fn test_buried_alive_prevented_when_cant_search() {
    let mut game = setup_game();
    let alice = PlayerId::from_index(0);
    let source = game.new_object_id();
    let _c1 = add_creature_to_library(&mut game, "Zombie", alice);
    game.cant_effects.cant_search.push(alice);
    let mut ctx = ExecutionContext::new_default(source, alice);
    let outcomes = execute_buried_alive(&mut game, &mut ctx);
    assert_eq!(outcomes[0].result, EffectResult::Prevented);
    assert!(game.player(alice).unwrap().graveyard.is_empty());
}

#[test]
fn test_buried_alive_exact_three() {
    let mut game = setup_game();
    let alice = PlayerId::from_index(0);
    let source = game.new_object_id();
    let _c1 = add_creature_to_library(&mut game, "Zombie A", alice);
    let _c2 = add_creature_to_library(&mut game, "Zombie B", alice);
    let _c3 = add_creature_to_library(&mut game, "Zombie C", alice);
    let mut ctx = ExecutionContext::new_default(source, alice);
    let _ = execute_buried_alive(&mut game, &mut ctx);
    assert_eq!(game.player(alice).unwrap().graveyard.len(), 3);
}

#[test]
fn test_buried_alive_one_creature() {
    let mut game = setup_game();
    let alice = PlayerId::from_index(0);
    let source = game.new_object_id();
    let _c1 = add_creature_to_library(&mut game, "Zombie", alice);
    let mut ctx = ExecutionContext::new_default(source, alice);
    let _ = execute_buried_alive(&mut game, &mut ctx);
    assert_eq!(game.player(alice).unwrap().graveyard.len(), 1);
}

// Further cases of the library's own.

#[test]
fn search_takes_first_matching_cards_in_library_order() {
    let mut game = setup_game();
    let alice = PlayerId::from_index(0);
    let source = game.new_object_id();
    let land = add_non_creature_to_library(&mut game, "Forest", alice);
    let a = add_creature_to_library(&mut game, "Zombie A", alice);
    let b = add_creature_to_library(&mut game, "Zombie B", alice);
    let c = add_creature_to_library(&mut game, "Zombie C", alice);
    let d = add_creature_to_library(&mut game, "Zombie D", alice);
    let mut ctx = ExecutionContext::new_default(source, alice);
    let outcomes = execute_buried_alive(&mut game, &mut ctx);
    assert_eq!(outcomes[0].result, EffectResult::Objects(vec![a, b, c]));
    assert_eq!(game.player(alice).unwrap().graveyard, vec![a, b, c]);
    assert_eq!(game.player(alice).unwrap().library, vec![land, d]);
    assert_eq!(ctx, ExecutionContext::new_default(source, alice));
}

#[test]
fn search_is_recorded_once_per_player() {
    let mut game = setup_game();
    let alice = PlayerId::from_index(0);
    let source = game.new_object_id();
    let mut ctx = ExecutionContext::new_default(source, alice);
    let _ = run_demonic_tutor(&mut game, &mut ctx);
    let _ = run_demonic_tutor(&mut game, &mut ctx);
    assert_eq!(game.library_searches_this_turn, vec![alice]);
}

#[test]
fn prevented_search_is_not_recorded() {
    let mut game = setup_game();
    let alice = PlayerId::from_index(0);
    let source = game.new_object_id();
    game.cant_effects.cant_search.push(alice);
    let mut ctx = ExecutionContext::new_default(source, alice);
    let _ = run_demonic_tutor(&mut game, &mut ctx);
    assert!(game.library_searches_this_turn.is_empty());
}

#[test]
fn draw_and_mill_take_from_the_top() {
    let mut game = setup_game();
    let alice = PlayerId::from_index(0);
    let source = game.new_object_id();
    let a = add_creature_to_library(&mut game, "A", alice);
    let b = add_creature_to_library(&mut game, "B", alice);
    let c = add_creature_to_library(&mut game, "C", alice);
    let mut ctx = ExecutionContext::new_default(source, alice);
    let drawn = Effect::Draw(2).execute(&mut game, &mut ctx).unwrap();
    assert_eq!(drawn.result, EffectResult::Count(2));
    assert_eq!(game.player(alice).unwrap().hand, vec![a, b]);
    let milled = Effect::Mill(5).execute(&mut game, &mut ctx).unwrap();
    assert_eq!(milled.result, EffectResult::Count(1));
    assert_eq!(game.player(alice).unwrap().graveyard, vec![c]);
    assert!(game.player(alice).unwrap().library.is_empty());
}

#[test]
fn losing_life_lowers_the_total() {
    let mut game = setup_game();
    let alice = PlayerId::from_index(0);
    let source = game.new_object_id();
    let mut ctx = ExecutionContext::new_default(source, alice);
    let lost = Effect::LoseLife(7).execute(&mut game, &mut ctx).unwrap();
    assert_eq!(lost.result, EffectResult::Count(7));
    assert_eq!(game.player(alice).unwrap().life, 13);
    assert_eq!(game.player(PlayerId::from_index(1)).unwrap().life, 20);
}

#[test]
fn effects_for_an_absent_player_do_nothing() {
    let mut game = setup_game();
    let nobody = PlayerId::from_index(5);
    let source = game.new_object_id();
    let mut ctx = ExecutionContext::new_default(source, nobody);
    let a = add_creature_to_library(&mut game, "A", PlayerId::from_index(0));
    let drawn = Effect::Draw(1).execute(&mut game, &mut ctx).unwrap();
    assert_eq!(drawn.result, EffectResult::Count(0));
    assert_eq!(game.player(PlayerId::from_index(0)).unwrap().library, vec![a]);
    assert!(game.player(PlayerId::from_index(0)).unwrap().hand.is_empty());
}

#[test]
fn other_effects_are_unsupported() {
    let mut game = setup_game();
    let alice = PlayerId::from_index(0);
    let source = game.new_object_id();
    let mut ctx = ExecutionContext::new_default(source, alice);
    assert_eq!(Effect::Proliferate.execute(&mut game, &mut ctx), Err(ExecutionError::Unsupported));
}

#[test]
fn top_of_library_search_keeps_the_cards() {
    let mut game = setup_game();
    let alice = PlayerId::from_index(0);
    let source = game.new_object_id();
    let a = add_card_to_library(&mut game, "A", alice, CardType::Land);
    let b = add_card_to_library(&mut game, "B", alice, CardType::Creature);
    let c = add_card_to_library(&mut game, "C", alice, CardType::Instant);
    let def = maigus::cards::definitions::vampiric_tutor();
    let effects = def.spell_effect.as_ref().unwrap();
    let mut ctx = ExecutionContext::new_default(source, alice);
    let found = effects[0].execute(&mut game, &mut ctx).unwrap();
    assert_eq!(found.result, EffectResult::Objects(vec![a]));
    assert_eq!(game.player(alice).unwrap().library, vec![a, b, c]);
    let lost = effects[1].execute(&mut game, &mut ctx).unwrap();
    assert_eq!(lost.result, EffectResult::Count(2));
    assert_eq!(game.player(alice).unwrap().life, 18);
    assert_eq!(game.library_searches_this_turn, vec![alice]);
}

#[test]
fn enlightened_tutor_puts_an_artifact_on_top() {
    let mut game = setup_game();
    let alice = PlayerId::from_index(0);
    let source = game.new_object_id();
    let a = add_card_to_library(&mut game, "A", alice, CardType::Land);
    let b = add_card_to_library(&mut game, "B", alice, CardType::Artifact);
    let c = add_card_to_library(&mut game, "C", alice, CardType::Enchantment);
    let def = maigus::cards::definitions::enlightened_tutor();
    let effects = def.spell_effect.as_ref().unwrap();
    let mut ctx = ExecutionContext::new_default(source, alice);
    let found = effects[0].execute(&mut game, &mut ctx).unwrap();
    assert_eq!(found.result, EffectResult::Objects(vec![b]));
    assert_eq!(game.player(alice).unwrap().library, vec![b, a, c]);
}

#[test]
fn shattered_sanctum_mana_ability_adds_its_first_color() {
    let mut game = setup_game();
    let alice = PlayerId::from_index(0);
    let def = maigus::cards::definitions::shattered_sanctum();
    let sanctum = game.create_object_from_definition(&def, alice, Zone::Battlefield);
    let effects = def
        .abilities
        .iter()
        .find_map(|a| match &a.kind {
            AbilityKind::Activated(act) if act.mana_ability => Some(act.effects.clone()),
            AbilityKind::Mana(m) => m.effects.clone(),
            _ => None,
        })
        .unwrap();
    let mut ctx = ExecutionContext::new_default(sanctum, alice);
    let added = effects[0].execute(&mut game, &mut ctx).unwrap();
    assert_eq!(added.result, EffectResult::Count(1));
    assert_eq!(game.player(alice).unwrap().mana_pool.white, 1);
    assert_eq!(game.player(alice).unwrap().mana_pool.total(), 1);
}

#[test]
fn any_color_mana_with_no_colors_offered_adds_nothing() {
    let mut game = setup_game();
    let alice = PlayerId::from_index(0);
    let source = game.new_object_id();
    let mut ctx = ExecutionContext::new_default(source, alice);
    let none = Effect::AddManaOfAnyColor { available_colors: Some(vec![]) }.execute(&mut game, &mut ctx).unwrap();
    assert_eq!(none.result, EffectResult::Count(0));
    let any = Effect::AddManaOfAnyColor { available_colors: None }.execute(&mut game, &mut ctx).unwrap();
    assert_eq!(any.result, EffectResult::Count(1));
    assert_eq!(game.player(alice).unwrap().mana_pool.white, 1);
}

/// A player who always names one color.
struct NamesColor(Color);

impl DecisionMaker for NamesColor {
    fn decide_boolean(&mut self, _game: &GameState, _ctx: &BooleanContext) -> Option<bool> {
        None
    }

    fn decide_objects(&mut self, _game: &GameState, _ctx: &SelectObjectsContext) -> Option<Vec<ObjectId>> {
        None
    }

    fn decide_options(&mut self, _game: &GameState, _ctx: &SelectOptionsContext) -> Option<Vec<usize>> {
        None
    }

    fn decide_colors(&mut self, _game: &GameState, _ctx: &ColorsContext) -> Option<Vec<Color>> {
        Some(vec![self.0])
    }
}

/// Activates the mana ability of a Shattered Sanctum on Alice's battlefield,
/// with Alice naming `color`.
fn tap_sanctum_naming(color: Color) -> GameState {
    let mut game = setup_game();
    let alice = PlayerId::from_index(0);
    let def = maigus::cards::definitions::shattered_sanctum();
    let sanctum = game.create_object_from_definition(&def, alice, Zone::Battlefield);
    let effects = def
        .abilities
        .iter()
        .find_map(|a| match &a.kind {
            AbilityKind::Activated(act) if act.mana_ability => Some(act.effects.clone()),
            _ => None,
        })
        .unwrap();
    let mut ctx = ExecutionContext::new_default(sanctum, alice);
    let mut dm = NamesColor(color);
    let added = effects[0].execute_with(&mut game, &mut ctx, &mut dm).unwrap();
    assert_eq!(added.result, EffectResult::Count(1));
    game
}

#[test]
fn test_replay_shattered_sanctum_tap_for_white() {
    let game = tap_sanctum_naming(Color::White);
    let alice = PlayerId::from_index(0);
    let player = game.player(alice).unwrap();
    assert_eq!(player.mana_pool.white, 1, "Should have 1 white mana");
}

#[test]
fn test_replay_shattered_sanctum_tap_for_black() {
    let game = tap_sanctum_naming(Color::Black);
    let alice = PlayerId::from_index(0);
    let player = game.player(alice).unwrap();
    assert_eq!(player.mana_pool.black, 1, "Should have 1 black mana");
}

#[test]
fn a_color_not_offered_falls_back_to_the_first() {
    let game = tap_sanctum_naming(Color::Green);
    let pool = game.player(PlayerId::from_index(0)).unwrap().mana_pool;
    assert_eq!(pool.white, 1);
    assert_eq!(pool.green, 0);
    assert_eq!(pool.total(), 1);
}
