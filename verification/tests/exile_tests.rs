use maigus::card::{Card, CardBuilder};
use maigus::cost::CostPaymentError;
use maigus::costs::{CostContext, CostPaymentResult};
use maigus::costs::exile::{ExileFromGraveyardCost, ExileFromHandCost, ExileSelfCost};
use maigus::game::GameState;
use maigus::ids::{CardId, ObjectId, PlayerId};
use maigus::mana::{ManaCost, ManaSymbol};
use maigus::types::{CardType, Color, ColorSet, Zone};

fn create_test_game() -> GameState {
    GameState::new(vec!["Alice".to_string(), "Bob".to_string()], 20)
}

fn simple_card(name: &str, id: u32) -> Card {
    CardBuilder::new(CardId::from_raw(id), name)
        .card_types(vec![CardType::Creature])
        .build()
}

fn blue_card(name: &str, id: u32) -> Card {
    CardBuilder::new(CardId::from_raw(id), name)
        .card_types(vec![CardType::Creature])
        .mana_cost(ManaCost::from_symbols(vec![ManaSymbol::Blue]))
        .build()
}

// === ExileSelfCost tests ===

#[test]
fn test_exile_self_display() {
    let cost = ExileSelfCost::new();
    assert_eq!(cost.display(), "Exile ~");
}

#[test]
fn test_exile_self_can_pay_on_battlefield() {
    let mut game = create_test_game();
    let alice = PlayerId::from_index(0);

    let card = simple_card("Card", 1);
    let card_id = game.create_object_from_card(&card, alice, Zone::Battlefield);

    let cost = ExileSelfCost::new();
    let ctx = CostContext::new(card_id, alice);

    assert!(cost.can_pay(&game, &ctx).is_ok());
}

#[test]
fn test_exile_self_cannot_pay_in_hand() {
    let mut game = create_test_game();
    let alice = PlayerId::from_index(0);

    let card = simple_card("Card", 1);
    let card_id = game.create_object_from_card(&card, alice, Zone::Hand);

    let cost = ExileSelfCost::new();
    let ctx = CostContext::new(card_id, alice);

    assert_eq!(cost.can_pay(&game, &ctx), Err(CostPaymentError::SourceNotOnBattlefield));
}

#[test]
fn test_exile_self_pay_success() {
    let mut game = create_test_game();
    let alice = PlayerId::from_index(0);

    let card = simple_card("Card", 1);
    let card_id = game.create_object_from_card(&card, alice, Zone::Battlefield);

    let cost = ExileSelfCost::new();
    let mut ctx = CostContext::new(card_id, alice);

    let result = cost.pay(&mut game, &mut ctx);
    assert_eq!(result, Ok(CostPaymentResult::Paid));
}

#[test]
fn exile_self_pay_moves_source_to_exile() {
    let mut game = create_test_game();
    let alice = PlayerId::from_index(0);
    let card_id = game.create_object_from_card(&simple_card("Card", 1), alice, Zone::Battlefield);
    let mut ctx = CostContext::new(card_id, alice);
    assert_eq!(ExileSelfCost::new().pay(&mut game, &mut ctx), Ok(CostPaymentResult::Paid));
    assert_eq!(game.object(card_id).unwrap().zone, Zone::Exile);
    assert!(game.battlefield.is_empty());
    assert_eq!(game.exile, vec![card_id]);
    let mut missing = CostContext::new(ObjectId::from_raw(99), alice);
    assert_eq!(ExileSelfCost::new().pay(&mut game, &mut missing), Err(CostPaymentError::SourceNotFound));
}

// === ExileFromGraveyardCost tests ===

#[test]
fn test_exile_from_graveyard_display() {
    assert_eq!(ExileFromGraveyardCost::any(1).display(), "Exile a card from your graveyard");
    assert_eq!(ExileFromGraveyardCost::any(3).display(), "Exile 3 cards from your graveyard");
}

#[test]
fn exile_from_graveyard_display_with_type() {
    assert_eq!(
        ExileFromGraveyardCost::new(1, Some(CardType::Creature)).display(),
        "Exile a creature card from your graveyard"
    );
    assert_eq!(
        ExileFromGraveyardCost::new(2, Some(CardType::Instant)).display(),
        "Exile 2 instant cards from your graveyard"
    );
}

#[test]
fn test_exile_from_graveyard_can_pay() {
    let mut game = create_test_game();
    let alice = PlayerId::from_index(0);
    let source = ObjectId::from_raw(999);

    let card1 = simple_card("Card 1", 1);
    let _id1 = game.create_object_from_card(&card1, alice, Zone::Graveyard);
    let card2 = simple_card("Card 2", 2);
    let _id2 = game.create_object_from_card(&card2, alice, Zone::Graveyard);

    let cost = ExileFromGraveyardCost::any(2);
    let ctx = CostContext::new(source, alice);

    assert!(cost.can_pay(&game, &ctx).is_ok());
}

#[test]
fn test_exile_from_graveyard_cannot_pay_insufficient() {
    let mut game = create_test_game();
    let alice = PlayerId::from_index(0);
    let source = ObjectId::from_raw(999);

    let card1 = simple_card("Card 1", 1);
    let _id1 = game.create_object_from_card(&card1, alice, Zone::Graveyard);

    let cost = ExileFromGraveyardCost::any(2);
    let ctx = CostContext::new(source, alice);

    assert_eq!(cost.can_pay(&game, &ctx), Err(CostPaymentError::InsufficientCardsInGraveyard));
}

#[test]
fn exile_from_graveyard_counts_only_matching_type() {
    let mut game = create_test_game();
    let alice = PlayerId::from_index(0);
    let land = CardBuilder::new(CardId::from_raw(3), "Forest").card_types(vec![CardType::Land]).build();
    game.create_object_from_card(&simple_card("Bear", 1), alice, Zone::Graveyard);
    game.create_object_from_card(&land, alice, Zone::Graveyard);
    let cost = ExileFromGraveyardCost::new(1, Some(CardType::Land));
    assert_eq!(cost.count_valid_cards(&game, alice), 1);
    assert_eq!(ExileFromGraveyardCost::any(1).count_valid_cards(&game, alice), 2);
    assert_eq!(cost.count_valid_cards(&game, PlayerId::from_index(3)), 0);
    let mut ctx = CostContext::new(ObjectId::from_raw(999), alice);
    assert_eq!(
        cost.pay(&mut game, &mut ctx),
        Ok(CostPaymentResult::NeedsChoice("Exile a land card from your graveyard".to_string()))
    );
}

// === ExileFromHandCost tests ===

#[test]
fn test_exile_from_hand_display() {
    assert_eq!(ExileFromHandCost::any(1).display(), "Exile a card from your hand");
    assert_eq!(
        ExileFromHandCost::colored(1, ColorSet::from_color(Color::Blue)).display(),
        "Exile a blue card from your hand"
    );
}

#[test]
fn exile_from_hand_display_with_several_colors() {
    let colors = ColorSet::from_color(Color::White).union(ColorSet::from_color(Color::Red));
    assert_eq!(ExileFromHandCost::colored(2, colors).display(), "Exile 2 white or red cards from your hand");
    assert_eq!(ExileFromHandCost::colored(1, ColorSet::colorless()).display(), "Exile a card from your hand");
}

#[test]
fn test_exile_from_hand_can_pay() {
    let mut game = create_test_game();
    let alice = PlayerId::from_index(0);
    let source = ObjectId::from_raw(999);

    let card1 = simple_card("Card 1", 1);
    let _id1 = game.create_object_from_card(&card1, alice, Zone::Hand);

    let cost = ExileFromHandCost::any(1);
    let ctx = CostContext::new(source, alice);

    assert!(cost.can_pay(&game, &ctx).is_ok());
}

#[test]
fn test_exile_from_hand_color_filter() {
    let mut game = create_test_game();
    let alice = PlayerId::from_index(0);
    let source = ObjectId::from_raw(999);

    let card = blue_card("Blue Card", 1);
    let _id = game.create_object_from_card(&card, alice, Zone::Hand);

    let cost = ExileFromHandCost::colored(1, ColorSet::from_color(Color::Blue));
    let ctx = CostContext::new(source, alice);

    assert!(cost.can_pay(&game, &ctx).is_ok());
}

#[test]
fn exile_from_hand_color_filter_rejects_other_colors() {
    let mut game = create_test_game();
    let alice = PlayerId::from_index(0);
    game.create_object_from_card(&blue_card("Blue Card", 1), alice, Zone::Hand);
    let cost = ExileFromHandCost::colored(1, ColorSet::from_color(Color::Red));
    let ctx = CostContext::new(ObjectId::from_raw(999), alice);
    assert_eq!(cost.can_pay(&game, &ctx), Err(CostPaymentError::InsufficientCardsToExile));
}

#[test]
fn test_exile_from_hand_excludes_source() {
    let mut game = create_test_game();
    let alice = PlayerId::from_index(0);

    let source_card = simple_card("Source", 1);
    let source_id = game.create_object_from_card(&source_card, alice, Zone::Hand);

    let cost = ExileFromHandCost::any(1);
    let ctx = CostContext::new(source_id, alice);

    assert_eq!(cost.can_pay(&game, &ctx), Err(CostPaymentError::InsufficientCardsToExile));
}

#[test]
fn exile_from_hand_pays_with_chosen_cards() {
    let mut game = create_test_game();
    let alice = PlayerId::from_index(0);
    let a = game.create_object_from_card(&simple_card("A", 1), alice, Zone::Hand);
    let b = game.create_object_from_card(&simple_card("B", 2), alice, Zone::Hand);
    let cost = ExileFromHandCost::any(1);
    let mut ctx = CostContext::new(ObjectId::from_raw(999), alice);
    assert_eq!(
        cost.pay(&mut game, &mut ctx),
        Ok(CostPaymentResult::NeedsChoice("Exile a card from your hand".to_string()))
    );
    ctx.pre_chosen_cards = vec![b, a];
    assert_eq!(cost.pay(&mut game, &mut ctx), Ok(CostPaymentResult::Paid));
    assert_eq!(ctx.pre_chosen_cards, vec![a]);
    assert_eq!(game.player(alice).unwrap().hand, vec![a]);
    assert_eq!(game.exile, vec![b]);
    let two = ExileFromHandCost::any(2);
    game.create_object_from_card(&simple_card("C", 3), alice, Zone::Hand);
    assert_eq!(two.pay(&mut game, &mut ctx), Err(CostPaymentError::InsufficientCardsToExile));
}

#[test]
fn test_exile_cost_clone_box() {
    let cost = ExileSelfCost::new();
    let cloned = cost.clone_box();
    assert!(format!("{:?}", cloned).contains("ExileSelfCost"));
}

#[test]
fn exile_from_hand_cost_describes_itself() {
    let cost = ExileFromHandCost::colored(2, ColorSet::from_color(Color::Red));
    assert!(cost.is_exile_from_hand());
    assert!(cost.needs_player_choice());
    assert_eq!(cost.exile_from_hand_details(), Some((2, Some(ColorSet::from_color(Color::Red)))));
    assert_eq!(ExileFromHandCost::any(1).exile_from_hand_details(), Some((1, None)));
    assert_eq!(ExileSelfCost::default(), ExileSelfCost::new());
}
