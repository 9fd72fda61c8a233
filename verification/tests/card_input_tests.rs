use maigus::card_input::{build_card_input, CardFields};

fn fields(name: Option<&str>, oracle_text: Option<&str>) -> CardFields {
    CardFields {
        name: name.map(|s| s.to_string()),
        oracle_text: oracle_text.map(|s| s.to_string()),
        mana_cost: None,
        type_line: None,
        power: None,
        toughness: None,
        loyalty: None,
        defense: None,
    }
}

#[test]
fn card_with_all_metadata() {
    let mut card = fields(Some("  Grizzly Bears "), Some(" Vanilla.\n"));
    card.mana_cost = Some("{1}{G}".to_string());
    card.type_line = Some(" Creature — Bear ".to_string());
    card.power = Some("2".to_string());
    card.toughness = Some(" 2".to_string());
    let input = build_card_input(&card, None).unwrap();
    assert_eq!(input.name, "Grizzly Bears");
    assert_eq!(input.oracle_text, "Vanilla.");
    assert_eq!(
        input.metadata_lines,
        vec!["Mana cost: {1}{G}".to_string(), "Type: Creature — Bear".to_string(), "Power/Toughness: 2/2".to_string()]
    );
    assert_eq!(input.parse_input, "Mana cost: {1}{G}\nType: Creature — Bear\nPower/Toughness: 2/2\nVanilla.");
}

#[test]
fn missing_or_blank_name_or_text_gives_none() {
    assert!(build_card_input(&fields(None, Some("Text")), None).is_none());
    assert!(build_card_input(&fields(Some("  "), Some("Text")), None).is_none());
    assert!(build_card_input(&fields(Some("Name"), None), None).is_none());
    assert!(build_card_input(&fields(Some("Name"), Some(" \n ")), None).is_none());
}

#[test]
fn fields_come_from_the_face_when_the_card_lacks_them() {
    let card = fields(Some("Fire // Ice"), None);
    let mut face = fields(Some("Fire"), Some("Fire deals 2 damage divided as you choose."));
    face.mana_cost = Some("{1}{R}".to_string());
    face.loyalty = Some("   ".to_string());
    face.defense = Some("4".to_string());
    let input = build_card_input(&card, Some(&face)).unwrap();
    assert_eq!(input.name, "Fire // Ice");
    assert_eq!(input.oracle_text, "Fire deals 2 damage divided as you choose.");
    assert_eq!(input.metadata_lines, vec!["Mana cost: {1}{R}".to_string(), "Defense: 4".to_string()]);
}

#[test]
fn power_without_toughness_gives_no_line() {
    let mut card = fields(Some("Name"), Some("Text"));
    card.power = Some("3".to_string());
    card.toughness = Some(" ".to_string());
    card.loyalty = Some("5".to_string());
    let input = build_card_input(&card, None).unwrap();
    assert_eq!(input.metadata_lines, vec!["Loyalty: 5".to_string()]);
    assert_eq!(input.parse_input, "Loyalty: 5\nText");
}

#[test]
fn a_card_value_wins_even_when_blank() {
    let mut card = fields(Some("Name"), Some("Text"));
    card.type_line = Some("".to_string());
    let mut face = fields(None, None);
    face.type_line = Some("Instant".to_string());
    let input = build_card_input(&card, Some(&face)).unwrap();
    assert!(input.metadata_lines.is_empty());
    assert_eq!(input.parse_input, "Text");
}
