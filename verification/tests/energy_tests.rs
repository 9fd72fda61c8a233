use maigus::cost::CostPaymentError;
use maigus::costs::{CostContext, CostPaymentResult};
use maigus::costs::energy::EnergyCost;
use maigus::game::{GameState, Player};
use maigus::ids::{ObjectId, PlayerId};

fn create_test_game() -> GameState {
    GameState::new(vec!["Alice".to_string(), "Bob".to_string()], 20)
}

fn player_mut(game: &mut GameState, id: PlayerId) -> Option<&mut Player> {
    game.players.get_mut(id.index() as usize)
}

#[test]
fn test_energy_cost_display() {
    assert_eq!(EnergyCost::new(1).display(), "Pay {E}");
    assert_eq!(EnergyCost::new(3).display(), "Pay {E}{E}{E}");
}

#[test]
fn energy_cost_display_of_zero() {
    assert_eq!(EnergyCost::new(0).display(), "Pay no energy");
}

#[test]
fn test_energy_cost_can_pay_with_energy() {
    let mut game = create_test_game();
    let alice = PlayerId::from_index(0);
    let source = ObjectId::from_raw(1);

    if let Some(player) = player_mut(&mut game, alice) {
        player.energy_counters = 5;
    }

    let cost = EnergyCost::new(3);
    let ctx = CostContext::new(source, alice);

    assert!(cost.can_pay(&game, &ctx).is_ok());
}

#[test]
fn test_energy_cost_cannot_pay_insufficient() {
    let mut game = create_test_game();
    let alice = PlayerId::from_index(0);
    let source = ObjectId::from_raw(1);

    if let Some(player) = player_mut(&mut game, alice) {
        player.energy_counters = 2;
    }

    let cost = EnergyCost::new(3);
    let ctx = CostContext::new(source, alice);

    assert_eq!(cost.can_pay(&game, &ctx), Err(CostPaymentError::InsufficientEnergy));
}

#[test]
fn test_energy_cost_pay_success() {
    let mut game = create_test_game();
    let alice = PlayerId::from_index(0);
    let source = ObjectId::from_raw(1);

    if let Some(player) = player_mut(&mut game, alice) {
        player.energy_counters = 5;
    }

    let cost = EnergyCost::new(3);
    let mut ctx = CostContext::new(source, alice);

    let result = cost.pay(&mut game, &mut ctx);
    assert_eq!(result, Ok(CostPaymentResult::Paid));

    assert_eq!(game.player(alice).unwrap().energy_counters, 2);
}

#[test]
fn energy_cost_pay_fails_without_changing_energy() {
    let mut game = create_test_game();
    let alice = PlayerId::from_index(0);
    game.players[0].energy_counters = 2;
    let cost = EnergyCost::new(3);
    let mut ctx = CostContext::new(ObjectId::from_raw(1), alice);
    assert_eq!(cost.pay(&mut game, &mut ctx), Err(CostPaymentError::InsufficientEnergy));
    assert_eq!(game.player(alice).unwrap().energy_counters, 2);
    let mut ctx2 = CostContext::new(ObjectId::from_raw(1), PlayerId::from_index(4));
    assert_eq!(cost.pay(&mut game, &mut ctx2), Err(CostPaymentError::PlayerNotFound));
}

#[test]
fn test_energy_cost_clone_box() {
    let cost = EnergyCost::new(2);
    let cloned = cost.clone_box();
    assert!(format!("{:?}", cloned).contains("EnergyCost"));
}
