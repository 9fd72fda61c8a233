use maigus::decisions::context::{
    BooleanContext, ColorsContext, DecisionContext, NumberContext, PartitionContext, SelectObjectsContext,
    SelectOptionsContext, SelectableObject, SelectableOption, TargetRequirementContext, ViewCardsContext,
};
use maigus::game::Target;
use maigus::ids::{ObjectId, PlayerId};
use maigus::types::{Color, Zone};

#[test]
fn test_boolean_context() {
    let player = PlayerId::from_index(0);
    let ctx = BooleanContext::new(player, None, "draw a card").with_source_name("Wall of Omens");

    assert_eq!(ctx.description, "draw a card");
    assert_eq!(ctx.source_name, Some("Wall of Omens".to_string()));
}

#[test]
fn test_number_context() {
    let player = PlayerId::from_index(0);
    let ctx = NumberContext::new(player, None, 0, 5, "Choose X");

    assert_eq!(ctx.min, 0);
    assert_eq!(ctx.max, 5);
}

#[test]
fn number_context_for_x() {
    let ctx = NumberContext::x_value(PlayerId::from_index(1), ObjectId::from_raw(4), 7);
    assert!(ctx.is_x_value);
    assert_eq!(ctx.description, "Choose value for X");
    assert_eq!((ctx.min, ctx.max), (0, 7));
    assert_eq!(ctx.source, Some(ObjectId::from_raw(4)));
}

#[test]
fn test_select_objects_context() {
    let player = PlayerId::from_index(0);
    let candidates = vec![
        SelectableObject::new(ObjectId::from_raw(1), "Forest"),
        SelectableObject::new(ObjectId::from_raw(2), "Mountain"),
    ];
    let ctx = SelectObjectsContext::new(player, None, "Choose a land to sacrifice", candidates, 1, Some(1));

    assert_eq!(ctx.candidates.len(), 2);
    assert_eq!(ctx.min, 1);
    assert_eq!(ctx.max, Some(1));
}

#[test]
fn test_partition_context_scry() {
    let player = PlayerId::from_index(0);
    let cards = vec![
        (ObjectId::from_raw(1), "Forest".to_string()),
        (ObjectId::from_raw(2), "Lightning Bolt".to_string()),
    ];
    let ctx = PartitionContext::scry(player, None, cards);

    assert!(ctx.description.contains("Scry 2"));
    assert_eq!(ctx.secondary_label, "bottom of library");
}

#[test]
fn partition_context_surveil() {
    let ctx = PartitionContext::surveil(PlayerId::from_index(0), None, vec![(ObjectId::from_raw(1), "Island".to_string())]);
    assert_eq!(ctx.description, "Surveil 1");
    assert_eq!(ctx.primary_label, "top of library");
    assert_eq!(ctx.secondary_label, "graveyard");
}

#[test]
fn test_decision_context_conversions() {
    let player = PlayerId::from_index(0);
    let ctx = DecisionContext::Boolean(BooleanContext::new(player, None, "test"));

    let boolean = ctx.into_boolean();
    assert_eq!(boolean.description, "test");
}

#[test]
fn option_contexts_and_descriptions() {
    let p = PlayerId::from_index(0);
    let s = ObjectId::from_raw(3);
    let opts = vec![SelectableOption::new(0, "Red"), SelectableOption::with_legality(1, "Blue", false)];
    assert!(opts[0].legal && !opts[1].legal);
    let ctx = SelectOptionsContext::mana_payment(p, s, "Shock", opts);
    assert_eq!(ctx.description, "Pay mana for Shock");
    assert_eq!((ctx.min, ctx.max), (1, 1));
    let pip = SelectOptionsContext::mana_pip_payment(p, s, "Shock", "{R}", 2, vec![]);
    assert_eq!(pip.description, "Pay mana pip {R} for Shock (2 remaining)");
    let colors = ColorsContext::any_color(p, None, 2, true);
    assert_eq!(colors.description, "Choose a color for 2 mana");
    let restricted = ColorsContext::restricted(p, None, 3, false, vec![Color::Red]);
    assert_eq!(restricted.description, "Choose 3 mana color(s)");
    assert_eq!(restricted.available_colors, Some(vec![Color::Red]));
    let view = ViewCardsContext::look_at_hand(p, PlayerId::from_index(1), None);
    assert_eq!(view.zone, Zone::Hand);
    assert_eq!(view.description, "Look at target player's hand");
    let req = TargetRequirementContext::single("any target", vec![Target::Player(p)]);
    assert_eq!((req.min_targets, req.max_targets), (1, Some(1)));
    let legal = SelectableObject::with_legality(ObjectId::from_raw(2), "Bear", false);
    assert!(!legal.legal);
}
