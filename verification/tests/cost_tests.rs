use maigus::cost::{OptionalCost, OptionalCostsPaid, PermanentFilter, TotalCost, CostPaymentError, can_pay_cost};
use maigus::costs::{Cost, CostContext};
use maigus::costs::energy::EnergyCost;
use maigus::costs::mill::MillCost;
use maigus::game::GameState;
use maigus::ids::{ObjectId, PlayerId};
use maigus::mana::{ManaCost, ManaSymbol};
use maigus::types::{CardType, Subtype};

#[test]
fn test_free_cost() {
    let cost = TotalCost::free();
    assert!(cost.is_free());
    assert!(cost.mana_cost().is_none());
}

#[test]
fn test_mana_cost() {
    let mana = ManaCost::from_pips(vec![vec![ManaSymbol::Generic(2)], vec![ManaSymbol::White]]);
    let cost = TotalCost::mana(mana.clone());

    assert!(!cost.is_free());
    assert_eq!(cost.mana_cost(), Some(&mana));
}

#[test]
fn total_cost_display_joins_components() {
    assert_eq!(TotalCost::free().display(), "Free");
    let mana = ManaCost::from_pips(vec![vec![ManaSymbol::Generic(2)], vec![ManaSymbol::White]]);
    let cost = TotalCost::from_costs(vec![Cost::mana(mana), Cost::Energy(EnergyCost::new(2)), Cost::Mill(MillCost::new(1))]);
    assert_eq!(cost.display(), "{2}{W}, Pay {E}{E}, Mill a card");
    assert_eq!(cost.costs().len(), 3);
}

#[test]
fn mana_cost_text_of_hybrid_and_phyrexian_pips() {
    let m = ManaCost::from_pips(vec![
        vec![ManaSymbol::Generic(12)],
        vec![ManaSymbol::White, ManaSymbol::Blue],
        vec![ManaSymbol::Black, ManaSymbol::Life(2)],
    ]);
    assert_eq!(m.to_oracle(), "{12}{W/U}{B/P}");
    assert_eq!(ManaCost::new().to_oracle(), "{0}");
}

#[test]
fn mana_cost_is_found_after_other_components() {
    let mana = ManaCost::from_symbols(vec![ManaSymbol::Red]);
    let cost = TotalCost::from_costs(vec![Cost::Energy(EnergyCost::new(1)), Cost::mana(mana.clone())]);
    assert_eq!(cost.mana_cost(), Some(&mana));
}

#[test]
fn can_pay_cost_reports_first_failing_component() {
    let mut game = GameState::new(vec!["Alice".to_string(), "Bob".to_string()], 20);
    let alice = PlayerId::from_index(0);
    let source = ObjectId::from_raw(7);
    let cost = TotalCost::from_costs(vec![Cost::Mill(MillCost::new(2)), Cost::Energy(EnergyCost::new(2))]);
    assert_eq!(can_pay_cost(&game, source, alice, &cost), Err(CostPaymentError::InsufficientEnergy));
    game.players[0].energy_counters = 2;
    assert_eq!(can_pay_cost(&game, source, alice, &cost), Ok(()));
    assert_eq!(
        can_pay_cost(&game, source, PlayerId::from_index(5), &cost),
        Err(CostPaymentError::PlayerNotFound)
    );
    assert_eq!(can_pay_cost(&game, source, alice, &TotalCost::free()), Ok(()));
}

#[test]
fn permanent_filter_builders() {
    let f = PermanentFilter::creature().other().nontoken().with_subtype(Subtype::Human);
    assert_eq!(f.card_types, vec![CardType::Creature]);
    assert_eq!(f.subtypes, vec![Subtype::Human]);
    assert!(f.other && f.nontoken && !f.token);
    let g = PermanentFilter::any().token().with_type(CardType::Artifact);
    assert_eq!(g.card_types, vec![CardType::Artifact]);
    assert!(g.token);
    assert_eq!(PermanentFilter::land().card_types, vec![CardType::Land]);
    assert_eq!(PermanentFilter::artifact().card_types, vec![CardType::Artifact]);
    assert_eq!(PermanentFilter::enchantment().card_types, vec![CardType::Enchantment]);
}

#[test]
fn optional_costs_track_kicker_and_buyback() {
    let costs = vec![
        OptionalCost::kicker(TotalCost::free()),
        OptionalCost::multikicker(TotalCost::free()),
        OptionalCost::buyback(TotalCost::free()),
        OptionalCost::entwine(TotalCost::free()),
    ];
    assert!(costs[1].repeatable && !costs[0].repeatable);
    assert!(costs[2].returns_to_hand);
    let mut paid = OptionalCostsPaid::from_costs(&costs);
    assert!(!paid.any_paid());
    assert!(!paid.was_kicked());
    paid.pay(0);
    paid.pay_times(1, 3);
    paid.pay_label("Buyback");
    paid.pay(9);
    assert!(paid.any_paid());
    assert!(paid.was_paid(0));
    assert!(!paid.was_paid(3));
    assert!(!paid.was_paid(9));
    assert_eq!(paid.times_paid(1), 3);
    assert_eq!(paid.times_paid(9), 0);
    assert_eq!(paid.times_paid_label("Multikicker"), 3);
    assert_eq!(paid.kick_count(), 4);
    assert!(paid.was_kicked());
    assert!(paid.was_bought_back());
    assert!(!paid.was_entwined());
    assert!(paid.was_paid_label("Kicker"));
    assert!(!paid.was_paid_label("Replicate"));
}

#[test]
fn optional_costs_new_and_custom() {
    let paid = OptionalCostsPaid::new(2);
    assert_eq!(paid.costs.len(), 2);
    assert!(!paid.any_paid());
    let c = OptionalCost::custom("Replicate", TotalCost::free()).repeatable().returns_to_hand();
    assert_eq!(c.label, "Replicate");
    assert!(c.repeatable && c.returns_to_hand);
    let _ = CostContext::new(ObjectId::from_raw(1), PlayerId::from_index(0));
}

#[test]
fn defaults_are_empty() {
    assert!(maigus::cost::TotalCost::default().is_free());
    let f = maigus::cost::PermanentFilter::default();
    assert!(f.card_types.is_empty() && f.subtypes.is_empty() && !f.other && !f.token && !f.nontoken);
    assert_eq!(maigus::cost::OptionalCostsPaid::default().kick_count(), 0);
    let c = maigus::combat_state::CombatState::default();
    assert!(c.attackers.is_empty() && c.blockers.is_empty() && c.damage_assignment_order.is_empty());
}
