use maigus::card::{Card, CardBuilder};
use maigus::costs::{CostContext, CostPaymentResult};
use maigus::costs::mill::MillCost;
use maigus::game::GameState;
use maigus::ids::{CardId, ObjectId, PlayerId};
use maigus::types::{CardType, Zone};

fn create_test_game() -> GameState {
    GameState::new(vec!["Alice".to_string(), "Bob".to_string()], 20)
}

fn simple_card(name: &str, id: u32) -> Card {
    CardBuilder::new(CardId::from_raw(id), name)
        .card_types(vec![CardType::Creature])
        .build()
}

#[test]
fn test_mill_cost_display() {
    assert_eq!(MillCost::new(1).display(), "Mill a card");
    assert_eq!(MillCost::new(3).display(), "Mill 3 cards");
}

#[test]
fn test_mill_cost_can_always_pay() {
    let game = create_test_game();
    let alice = PlayerId::from_index(0);
    let source = ObjectId::from_raw(999);

    let cost = MillCost::new(5);
    let ctx = CostContext::new(source, alice);

    assert!(cost.can_pay(&game, &ctx).is_ok());
}

#[test]
fn test_mill_cost_pay_moves_cards() {
    let mut game = create_test_game();
    let alice = PlayerId::from_index(0);
    let source = ObjectId::from_raw(999);

    for i in 0..5 {
        let card = simple_card(&format!("Card {}", i), i + 1);
        let _id = game.create_object_from_card(&card, alice, Zone::Library);
    }

    let initial_library_size = game.player(alice).unwrap().library.len();
    let initial_graveyard_size = game.player(alice).unwrap().graveyard.len();

    let cost = MillCost::new(3);
    let mut ctx = CostContext::new(source, alice);

    let result = cost.pay(&mut game, &mut ctx);
    assert_eq!(result, Ok(CostPaymentResult::Paid));

    assert_eq!(game.player(alice).unwrap().library.len(), initial_library_size - 3);
    assert_eq!(game.player(alice).unwrap().graveyard.len(), initial_graveyard_size + 3);
}

#[test]
fn test_mill_cost_partial_mill() {
    let mut game = create_test_game();
    let alice = PlayerId::from_index(0);
    let source = ObjectId::from_raw(999);

    for i in 0..2 {
        let card = simple_card(&format!("Card {}", i), i + 1);
        let _id = game.create_object_from_card(&card, alice, Zone::Library);
    }

    let cost = MillCost::new(5);
    let mut ctx = CostContext::new(source, alice);

    let result = cost.pay(&mut game, &mut ctx);
    assert_eq!(result, Ok(CostPaymentResult::Paid));

    assert!(game.player(alice).unwrap().library.is_empty());
    assert_eq!(game.player(alice).unwrap().graveyard.len(), 2);
}

#[test]
fn mill_takes_cards_from_the_top_in_order() {
    let mut game = create_test_game();
    let alice = PlayerId::from_index(0);
    let a = game.create_object_from_card(&simple_card("A", 1), alice, Zone::Library);
    let b = game.create_object_from_card(&simple_card("B", 2), alice, Zone::Library);
    let c = game.create_object_from_card(&simple_card("C", 3), alice, Zone::Library);
    let mut ctx = CostContext::new(ObjectId::from_raw(999), alice);
    assert_eq!(MillCost::new(2).pay(&mut game, &mut ctx), Ok(CostPaymentResult::Paid));
    assert_eq!(game.player(alice).unwrap().graveyard, vec![a, b]);
    assert_eq!(game.player(alice).unwrap().library, vec![c]);
    assert_eq!(game.object(a).unwrap().zone, Zone::Graveyard);
}

#[test]
fn test_mill_cost_clone_box() {
    let cost = MillCost::new(2);
    let cloned = cost.clone_box();
    assert!(format!("{:?}", cloned).contains("MillCost"));
}
