use maigus::decision::{AutoPassDecisionMaker, DecisionMaker, FallbackStrategy};
use maigus::decisions::context::{BooleanContext, ColorsContext, SelectObjectsContext, SelectOptionsContext};
use maigus::decisions::helpers::{
    ask_choose_multiple, ask_choose_one, ask_mana_color, ask_may_choice, ask_sacrifice, choose_multiple_indices,
    choose_one_index, chosen_value, chosen_values, mana_color_outcome, may_choice_outcome, sacrifice_outcome,
};
use maigus::game::GameState;
use maigus::ids::{ObjectId, PlayerId};
use maigus::types::Color;

fn game() -> GameState {
    GameState::new(vec!["Alice".to_string(), "Bob".to_string()], 20)
}

#[test]
fn auto_pass_takes_fallbacks() {
    let g = game();
    let mut dm = AutoPassDecisionMaker;
    let p = PlayerId::from_index(0);
    let s = ObjectId::from_raw(1);
    assert!(ask_may_choice(&g, &mut dm, p, s, "draw", FallbackStrategy::Accept));
    assert!(!ask_may_choice(&g, &mut dm, p, s, "draw", FallbackStrategy::Decline));
    let legal = [ObjectId::from_raw(4), ObjectId::from_raw(5)];
    assert_eq!(ask_sacrifice(&g, &mut dm, p, s, &legal, "a creature"), Some(ObjectId::from_raw(4)));
    assert_eq!(ask_sacrifice(&g, &mut dm, p, s, &[], "a creature"), None);
    assert_eq!(ask_mana_color(&g, &mut dm, p, s, None, Color::Green), Color::Green);
    let options = vec![("White".to_string(), Color::White), ("Blue".to_string(), Color::Blue)];
    assert_eq!(ask_choose_one(&g, &mut dm, p, s, &options), Color::White);
    assert_eq!(ask_choose_multiple(&g, &mut dm, p, s, &options, 1, 2), vec![Color::White]);
}

#[test]
fn answers_are_settled() {
    assert!(may_choice_outcome(Some(true), FallbackStrategy::Decline));
    let legal = [ObjectId::from_raw(4), ObjectId::from_raw(5)];
    assert_eq!(sacrifice_outcome(&legal, Some(vec![ObjectId::from_raw(5)])), Some(ObjectId::from_raw(5)));
    assert_eq!(sacrifice_outcome(&legal, Some(vec![ObjectId::from_raw(9)])), Some(ObjectId::from_raw(4)));
    let allowed = [Color::Red, Color::Blue];
    assert_eq!(mana_color_outcome(Some(&allowed), Some(vec![Color::Blue]), Color::Red), Color::Blue);
    assert_eq!(mana_color_outcome(Some(&allowed), Some(vec![Color::Black]), Color::Red), Color::Red);
    assert_eq!(mana_color_outcome(None, Some(vec![Color::Black]), Color::Red), Color::Black);
    assert_eq!(choose_one_index(3, Some(vec![2])), 2);
    assert_eq!(choose_one_index(3, Some(vec![7])), 0);
    assert_eq!(choose_multiple_indices(4, Some(vec![3, 9, 1]), 1, 2), vec![3, 1]);
    assert_eq!(choose_multiple_indices(4, Some(vec![3, 2, 1]), 1, 2), vec![0]);
    assert_eq!(choose_multiple_indices(4, None, 2, 3), vec![0, 1]);
}

#[test]
fn chosen_value_follows_the_answer() {
    let options = vec![("A".to_string(), 10), ("B".to_string(), 20), ("C".to_string(), 30)];
    assert_eq!(chosen_value(&options, Some(vec![2])), 30);
    assert_eq!(chosen_value(&options, Some(vec![1, 0])), 20);
    assert_eq!(chosen_value(&options, Some(vec![7])), 10);
    assert_eq!(chosen_value(&options, Some(vec![])), 10);
    assert_eq!(chosen_value(&options, None), 10);
}

#[test]
fn chosen_values_follow_the_answer() {
    let options = vec![("A".to_string(), 'a'), ("B".to_string(), 'b'), ("C".to_string(), 'c')];
    assert_eq!(chosen_values(&options, Some(vec![2, 0]), 0, 2), vec!['c', 'a']);
    assert_eq!(chosen_values(&options, Some(vec![9, 1]), 1, 1), vec!['b']);
    assert_eq!(chosen_values(&options, Some(vec![0, 1, 2]), 1, 2), vec!['a']);
    assert_eq!(chosen_values(&options, None, 2, 3), vec!['a', 'b']);
    assert_eq!(chosen_values(&options, None, 0, 3), Vec::<char>::new());
}

/// A player who always answers with the given option indices.
struct Picks(Vec<usize>);

impl DecisionMaker for Picks {
    fn decide_boolean(&mut self, _game: &GameState, _ctx: &BooleanContext) -> Option<bool> {
        None
    }

    fn decide_objects(&mut self, _game: &GameState, _ctx: &SelectObjectsContext) -> Option<Vec<ObjectId>> {
        None
    }

    fn decide_options(&mut self, _game: &GameState, _ctx: &SelectOptionsContext) -> Option<Vec<usize>> {
        Some(self.0.clone())
    }

    fn decide_colors(&mut self, _game: &GameState, _ctx: &ColorsContext) -> Option<Vec<Color>> {
        None
    }
}

#[test]
fn asked_choices_map_the_answer_to_values() {
    let g = game();
    let options = vec![("A".to_string(), 10), ("B".to_string(), 20), ("C".to_string(), 30)];
    let one = ask_choose_one(&g, &mut Picks(vec![1]), PlayerId::from_index(0), ObjectId::from_raw(1), &options);
    assert_eq!(one, 20);
    let many =
        ask_choose_multiple(&g, &mut Picks(vec![2, 0]), PlayerId::from_index(0), ObjectId::from_raw(1), &options, 0, 3);
    assert_eq!(many, vec![30, 10]);
}
