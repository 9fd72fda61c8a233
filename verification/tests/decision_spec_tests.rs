use maigus::combat_state::AttackTarget;
use maigus::decision::FallbackStrategy;
use maigus::decisions::context::DecisionContext;
use maigus::decisions::spec::{AttackerOption, BlockerOption, DecisionPrimitive, DecisionSpec, DisplayOption};
use maigus::decisions::specs::boolean::{AssignDamageAsUnblockedSpec, MaySpec, MiracleSpec};
use maigus::decisions::specs::combat::{DeclareAttackersSpec, DeclareBlockersSpec, OrderAttackersSpec, OrderBlockersSpec};
use maigus::decisions::specs::number::{NumberSpec, XValueSpec};
use maigus::game::GameState;
use maigus::ids::{ObjectId, PlayerId};
use maigus::mana::{ManaCost, ManaSymbol};

#[test]
fn test_display_option_creation() {
    let opt = DisplayOption::new(0, "Test option");
    assert_eq!(opt.index, 0);
    assert_eq!(opt.description, "Test option");
    assert!(opt.legal);
}

#[test]
fn test_display_option_with_legality() {
    let opt = DisplayOption::with_legality(1, "Disabled", false);
    assert_eq!(opt.index, 1);
    assert!(!opt.legal);
}

#[test]
fn test_may_spec() {
    let source = ObjectId::from_raw(1);
    let spec = MaySpec::new(source, "draw a card");

    assert_eq!(spec.description(), "You may draw a card");
    assert!(matches!(spec.primitive(), DecisionPrimitive::Boolean));
    assert!(!spec.default_response(FallbackStrategy::Decline));
    assert!(spec.default_response(FallbackStrategy::Accept));
}

#[test]
fn test_miracle_spec() {
    let card = ObjectId::from_raw(1);
    let cost = ManaCost::from_symbols(vec![ManaSymbol::White]);
    let spec = MiracleSpec::new(card, cost);

    assert_eq!(spec.description(), "Cast with Miracle cost?");
    assert!(!spec.default_response(FallbackStrategy::Decline));
}

#[test]
fn test_assign_damage_as_unblocked_spec() {
    let attacker = ObjectId::from_raw(1);
    let spec = AssignDamageAsUnblockedSpec::new(attacker, "Thorn Elemental");

    assert!(spec.description().contains("Thorn Elemental's damage to defending player"));
    assert!(!spec.default_response(FallbackStrategy::Decline));
}

#[test]
fn boolean_spec_builds_boolean_context() {
    let game = GameState::new(vec!["Alice".to_string()], 20);
    let spec = AssignDamageAsUnblockedSpec::new(ObjectId::from_raw(1), "Thorn Elemental");
    match spec.build_context(PlayerId::from_index(0), None, &game) {
        DecisionContext::Boolean(b) => {
            assert_eq!(b.source_name, Some("Thorn Elemental".to_string()));
            assert_eq!(b.source, Some(ObjectId::from_raw(1)));
        }
        _ => panic!("expected a boolean context"),
    }
}

#[test]
fn test_declare_attackers_spec_empty() {
    let spec = DeclareAttackersSpec::new(vec![]);

    assert!(spec.default_response(FallbackStrategy::Decline).is_empty());
    assert!(spec.default_response(FallbackStrategy::Maximum).is_empty());
}

#[test]
fn test_declare_attackers_spec_with_options() {
    let creature = ObjectId::from_raw(1);
    let target = AttackTarget::Player(PlayerId::from_index(1));
    let options = vec![AttackerOption { creature, valid_targets: vec![target], must_attack: false }];
    let spec = DeclareAttackersSpec::new(options);

    assert!(spec.default_response(FallbackStrategy::Decline).is_empty());

    let max = spec.default_response(FallbackStrategy::Maximum);
    assert_eq!(max.len(), 1);
    assert_eq!(max[0].creature, creature);
}

#[test]
fn test_declare_attackers_must_attack() {
    let creature = ObjectId::from_raw(1);
    let target = AttackTarget::Player(PlayerId::from_index(1));
    let options = vec![AttackerOption { creature, valid_targets: vec![target], must_attack: true }];
    let spec = DeclareAttackersSpec::new(options);

    let min = spec.default_response(FallbackStrategy::Minimum);
    assert_eq!(min.len(), 1);
}

#[test]
fn minimum_attack_skips_optional_attackers_and_those_without_targets() {
    let target = AttackTarget::Player(PlayerId::from_index(1));
    let options = vec![
        AttackerOption { creature: ObjectId::from_raw(1), valid_targets: vec![target], must_attack: false },
        AttackerOption { creature: ObjectId::from_raw(2), valid_targets: vec![], must_attack: true },
        AttackerOption { creature: ObjectId::from_raw(3), valid_targets: vec![target], must_attack: true },
    ];
    let spec = DeclareAttackersSpec::new(options);
    let min = spec.default_response(FallbackStrategy::Minimum);
    assert_eq!(min.len(), 1);
    assert_eq!(min[0].creature, ObjectId::from_raw(3));
    assert_eq!(spec.default_response(FallbackStrategy::Maximum).len(), 2);
    assert_eq!(spec.description(), "Declare attackers");
}

#[test]
fn test_declare_blockers_spec() {
    let attacker = ObjectId::from_raw(1);
    let blocker = ObjectId::from_raw(2);
    let options = vec![BlockerOption { attacker, valid_blockers: vec![blocker], min_blockers: 0 }];
    let spec = DeclareBlockersSpec::new(options);

    assert!(spec.default_response(FallbackStrategy::Decline).is_empty());

    let max = spec.default_response(FallbackStrategy::Maximum);
    assert_eq!(max.len(), 1);
    assert_eq!(max[0].blocker, blocker);
    assert_eq!(max[0].blocking, attacker);
}

#[test]
fn test_order_blockers_spec() {
    let attacker = ObjectId::from_raw(1);
    let blockers = vec![ObjectId::from_raw(2), ObjectId::from_raw(3)];
    let spec = OrderBlockersSpec::new(attacker, blockers.clone());

    assert_eq!(spec.description(), "Order blockers for damage assignment");
    assert_eq!(spec.default_response(FallbackStrategy::FirstOption), blockers);
}

#[test]
fn test_order_attackers_spec() {
    let blocker = ObjectId::from_raw(1);
    let attackers = vec![ObjectId::from_raw(2), ObjectId::from_raw(3)];
    let spec = OrderAttackersSpec::new(blocker, attackers.clone());

    assert_eq!(spec.description(), "Order attackers for damage assignment");
    assert_eq!(spec.default_response(FallbackStrategy::FirstOption), attackers);
}

#[test]
fn order_context_names_unknown_objects() {
    let game = GameState::new(vec!["Alice".to_string()], 20);
    let spec = OrderBlockersSpec::new(ObjectId::from_raw(1), vec![ObjectId::from_raw(5)]);
    match spec.build_context(PlayerId::from_index(0), None, &game) {
        DecisionContext::Order(o) => {
            assert_eq!(o.items, vec![(ObjectId::from_raw(5), "Unknown".to_string())]);
        }
        _ => panic!("expected an order context"),
    }
}

#[test]
fn test_x_value_spec() {
    let source = ObjectId::from_raw(1);
    let spec = XValueSpec::new(source, 5);

    assert_eq!(spec.description(), "Choose value for X (0-5)");
    assert!(matches!(spec.primitive(), DecisionPrimitive::SelectNumber { min: 0, max: 5 }));
    assert_eq!(spec.default_response(FallbackStrategy::Minimum), 0);
    assert_eq!(spec.default_response(FallbackStrategy::Maximum), 5);
}

#[test]
fn test_number_spec_up_to() {
    let source = ObjectId::from_raw(1);
    let spec = NumberSpec::up_to(source, 3, "creatures to target");

    assert!(spec.description().contains("up to 3"));
    assert!(matches!(spec.primitive(), DecisionPrimitive::SelectNumber { min: 0, max: 3 }));
}

#[test]
fn test_number_spec_range() {
    let source = ObjectId::from_raw(1);
    let spec = NumberSpec::range(source, 1, 6, "die roll");

    assert!(spec.description().contains("1-6"));
    assert_eq!(spec.default_response(FallbackStrategy::Minimum), 1);
}

#[test]
fn number_spec_defaults_to_maximum() {
    let spec = NumberSpec::new(ObjectId::from_raw(1), 2, 9, "cards");
    assert_eq!(spec.default_response(FallbackStrategy::Decline), 9);
    assert_eq!(spec.default_response(FallbackStrategy::FirstOption), 2);
    assert_eq!(spec.description(), "cards (2-9)");
}
