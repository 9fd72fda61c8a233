use maigus::oracle_text::{build_parse_input, csv_escape, normalize_line_for_comparison, reminder_equivalent_lines_from_oracle};

#[test]
fn normalizes_whitespace() {
    assert_eq!(normalize_line_for_comparison("  Flying,\t  trample \n"), "Flying, trample");
    assert_eq!(normalize_line_for_comparison("   "), "");
    assert_eq!(normalize_line_for_comparison("a"), "a");
}

#[test]
fn escapes_csv_fields() {
    assert_eq!(csv_escape("plain"), "plain");
    assert_eq!(csv_escape("a,b"), "\"a,b\"");
    assert_eq!(csv_escape("say \"hi\""), "\"say \"\"hi\"\"\"");
    assert_eq!(csv_escape("line\nbreak"), "\"line\nbreak\"");
}

#[test]
fn builds_parse_input() {
    let meta = vec!["Mana cost: {1}{B}".to_string(), "Type: Sorcery".to_string()];
    assert_eq!(build_parse_input(&meta, "Draw a card."), "Mana cost: {1}{B}\nType: Sorcery\nDraw a card.");
    assert_eq!(build_parse_input(&meta, "  \n"), "Mana cost: {1}{B}\nType: Sorcery");
    assert_eq!(build_parse_input(&[], "Draw a card."), "Draw a card.");
}

#[test]
fn finds_reminder_lines() {
    let text = "Flying\n(This creature  can't be blocked\texcept by creatures with flying.)\n((Twice))\n()\n(Twice)";
    let lines = reminder_equivalent_lines_from_oracle(text);
    assert_eq!(lines, vec!["This creature can't be blocked except by creatures with flying.".to_string(), "Twice".to_string()]);
    assert!(reminder_equivalent_lines_from_oracle("Flying").is_empty());
}

#[test]
fn csv_text_has_a_header_and_one_line_per_row() {
    let rows = vec![
        maigus::oracle_text::CsvRow {
            name: "Shock".to_string(),
            oracle_text: "Shock deals 2 damage to any target.".to_string(),
            compiled_text: "Deal 2 damage".to_string(),
        },
        maigus::oracle_text::CsvRow {
            name: "Fire, Ice".to_string(),
            oracle_text: "Say \"hi\"".to_string(),
            compiled_text: String::new(),
        },
    ];
    assert_eq!(
        maigus::oracle_text::csv_text(&rows),
        "name,oracle_text,compiled_text\nShock,Shock deals 2 damage to any target.,Deal 2 damage\n\"Fire, Ice\",\"Say \"\"hi\"\"\",\n"
    );
    assert_eq!(maigus::oracle_text::csv_text(&[]), "name,oracle_text,compiled_text\n");
}
