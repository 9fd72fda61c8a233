use maigus::cards::definitions::{basic_island, demonic_tutor};
use maigus::cards::{definition_has_semantics, CardDefinitionBuilder};
use maigus::export_args::parse_args;
use maigus::ids::CardId;

fn args(items: &[&str]) -> Vec<String> {
    items.iter().map(|s| s.to_string()).collect()
}

#[test]
fn no_arguments_give_the_defaults() {
    let a = parse_args(&args(&[])).unwrap();
    assert_eq!(a.cards_path, "cards.json");
    assert_eq!(a.all_out, "cards_compiled_oracle_text.csv");
    assert_eq!(a.mismatch_out, "cards_compiled_oracle_text_semantic_mismatch.csv");
    assert!(a.strip_reminder_for_comparison);
}

#[test]
fn paths_and_mode_are_read() {
    let a = parse_args(&args(&[
        "--cards",
        "in.json",
        "--all-out",
        "all.csv",
        "--mismatch-out",
        "bad.csv",
        "--comparison-mode",
        "full",
    ]))
    .unwrap();
    assert_eq!(a.cards_path, "in.json");
    assert_eq!(a.all_out, "all.csv");
    assert_eq!(a.mismatch_out, "bad.csv");
    assert!(!a.strip_reminder_for_comparison);
}

#[test]
fn a_later_setting_wins() {
    let a = parse_args(&args(&["--cards", "a.json", "--comparison-mode", "full", "--comparison-mode", "strip-reminder", "--cards", "b.json"]))
        .unwrap();
    assert_eq!(a.cards_path, "b.json");
    assert!(a.strip_reminder_for_comparison);
}

#[test]
fn missing_values_are_errors() {
    assert_eq!(parse_args(&args(&["--cards"])).unwrap_err(), "--cards requires a path");
    assert_eq!(parse_args(&args(&["--all-out"])).unwrap_err(), "--all-out requires a path");
    assert_eq!(parse_args(&args(&["--mismatch-out"])).unwrap_err(), "--mismatch-out requires a path");
    assert_eq!(parse_args(&args(&["--comparison-mode"])).unwrap_err(), "--comparison-mode requires a value");
}

#[test]
fn bad_mode_and_unknown_arguments_are_errors() {
    assert_eq!(
        parse_args(&args(&["--comparison-mode", "loose"])).unwrap_err(),
        "invalid --comparison-mode 'loose'. expected 'strip-reminder' or 'full'"
    );
    assert_eq!(
        parse_args(&args(&["--verbose"])).unwrap_err(),
        "unknown argument '--verbose'. expected --cards/--all-out/--mismatch-out/--comparison-mode"
    );
    assert!(parse_args(&args(&["-h"])).unwrap_err().starts_with("usage: cargo run --bin export_compiled_oracle_csv"));
    assert_eq!(parse_args(&args(&["--help"])).unwrap_err(), parse_args(&args(&["-h"])).unwrap_err());
}

#[test]
fn definitions_with_and_without_semantics() {
    assert!(definition_has_semantics(&basic_island()));
    assert!(definition_has_semantics(&demonic_tutor()));
    let vanilla = CardDefinitionBuilder::new(CardId::from_raw(0), "Vanilla").build();
    assert!(!definition_has_semantics(&vanilla));
}
