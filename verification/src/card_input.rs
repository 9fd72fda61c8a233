//! The text of a card record that the export hands to the parser: its name,
//! its oracle text, and metadata lines for its cost, type and numbers.

use vstd::prelude::*;
use crate::text::{push_str, string_of};
use crate::oracle_text::{build_parse_input, parse_input_text, trim, trim_text};

verus! {

/// The fields of a card record (or of one of its faces) that the export
/// reads; a field that is absent or null is `None`.
#[derive(Debug, Clone)]
pub struct CardFields {
    pub name: Option<String>,
    pub oracle_text: Option<String>,
    pub mana_cost: Option<String>,
    pub type_line: Option<String>,
    pub power: Option<String>,
    pub toughness: Option<String>,
    pub loyalty: Option<String>,
    pub defense: Option<String>,
}

/// What the export hands to the parser for one card.
#[derive(Debug, Clone)]
pub struct CardInput {
    /// The card's name, trimmed.
    pub name: String,
    /// Its oracle text, trimmed.
    pub oracle_text: String,
    /// The metadata lines, in order.
    pub metadata_lines: Vec<String>,
    /// The metadata lines and the oracle text, joined by line feeds.
    pub parse_input: String,
}

/// The text of an optional field.
pub open spec fn text_of(v: Option<String>) -> Option<Seq<char>> {
    match v {
        Some(s) => Some(s@),
        None => None,
    }
}

/// A field of the card if the card has it, else the same field of the face.
pub open spec fn picked(card_value: Option<String>, face_value: Option<String>) -> Option<Seq<char>> {
    if card_value is Some {
        text_of(card_value)
    } else {
        text_of(face_value)
    }
}

/// A record with no fields.
pub open spec fn no_fields() -> CardFields {
    CardFields {
        name: None,
        oracle_text: None,
        mana_cost: None,
        type_line: None,
        power: None,
        toughness: None,
        loyalty: None,
        defense: None,
    }
}

/// The face, or a record with no fields.
pub open spec fn face_or_none(face: Option<CardFields>) -> CardFields {
    match face {
        Some(f) => f,
        None => no_fields(),
    }
}

/// The trimmed text, if there is text and it is not blank.
pub open spec fn nonblank(v: Option<Seq<char>>) -> Option<Seq<char>> {
    match v {
        Some(s) => if trim(s).len() > 0 {
            Some(trim(s))
        } else {
            None
        },
        None => None,
    }
}

/// The line `label` followed by the trimmed text, if the text is not blank.
pub open spec fn labelled(label: Seq<char>, v: Option<Seq<char>>) -> Seq<Seq<char>> {
    match nonblank(v) {
        Some(t) => seq![label + t],
        None => Seq::empty(),
    }
}

/// The power/toughness line, if both are given and neither is blank.
pub open spec fn pt_line(power: Option<Seq<char>>, toughness: Option<Seq<char>>) -> Seq<Seq<char>> {
    match (nonblank(power), nonblank(toughness)) {
        (Some(p), Some(t)) => seq!["Power/Toughness: "@ + p + "/"@ + t],
        _ => Seq::empty(),
    }
}

/// The metadata lines of a card with the given face: mana cost, type,
/// power/toughness, loyalty and defense, each only if given and not blank.
pub open spec fn metadata_of(card: CardFields, face: Option<CardFields>) -> Seq<Seq<char>> {
    let f = face_or_none(face);
    labelled("Mana cost: "@, picked(card.mana_cost, f.mana_cost)) + labelled(
        "Type: "@,
        picked(card.type_line, f.type_line),
    ) + pt_line(picked(card.power, f.power), picked(card.toughness, f.toughness)) + labelled(
        "Loyalty: "@,
        picked(card.loyalty, f.loyalty),
    ) + labelled("Defense: "@, picked(card.defense, f.defense))
}

/// The trimmed name, the trimmed oracle text and the metadata lines of a
/// card, or `None` when its name or oracle text is missing or blank.
pub open spec fn card_input_of(card: CardFields, face: Option<CardFields>) -> Option<
    (Seq<char>, Seq<char>, Seq<Seq<char>>),
> {
    let f = face_or_none(face);
    match (nonblank(picked(card.name, f.name)), nonblank(picked(card.oracle_text, f.oracle_text))) {
        (Some(n), Some(o)) => Some((n, o, metadata_of(card, face))),
        _ => None,
    }
}

/// The face that was passed, if any.
pub open spec fn face_value(face: Option<&CardFields>) -> Option<CardFields> {
    match face {
        Some(f) => Some(*f),
        None => None,
    }
}

/// The texts of a list of strings.
pub open spec fn line_texts(lines: Seq<String>) -> Seq<Seq<char>> {
    lines.map_values(|l: String| l@)
}

/// A field of the card if the card has it, else the same field of the face.
fn pick_field(card_value: &Option<String>, face_value: &Option<String>) -> (r: Option<String>)
    ensures
        text_of(r) == picked(*card_value, *face_value),
{
    match card_value {
        Some(s) => Some(string_of(s.as_str())),
        None => match face_value {
            Some(s) => Some(string_of(s.as_str())),
            None => None,
        },
    }
}

/// The trimmed text, if there is text and it is not blank.
fn nonblank_text(v: &Option<String>) -> (r: Option<String>)
    ensures
        text_of(r) == nonblank(text_of(*v)),
{
    match v {
        Some(s) => {
            let t = trim_text(s.as_str());
            if t.unicode_len() > 0 {
                Some(t)
            } else {
                None
            }
        },
        None => None,
    }
}

/// Adds a line.
fn push_line(lines: &mut Vec<String>, line: String)
    ensures
        line_texts(final(lines)@) == line_texts(old(lines)@).push(line@),
{
    lines.push(line);
    assert(line_texts(lines@) =~= line_texts(old(lines)@).push(line@));
}

/// Adds the line `label` followed by the trimmed text, if the text is not blank.
fn push_labelled(lines: &mut Vec<String>, label: &str, v: &Option<String>)
    ensures
        line_texts(final(lines)@) == line_texts(old(lines)@) + labelled(label@, text_of(*v)),
{
    match nonblank_text(v) {
        Some(t) => {
            let mut line = string_of(label);
            push_str(&mut line, t.as_str());
            push_line(lines, line);
        },
        None => {
            assert(line_texts(lines@) + Seq::<Seq<char>>::empty() =~= line_texts(lines@));
        },
    }
}

/// Builds what the export hands to the parser for a card record and its
/// first face, if it has faces: each field is taken from the card, or from
/// the face when the card lacks it. Returns `None` when the trimmed name or
/// oracle text is missing or empty. Otherwise the metadata lines are
/// "Mana cost: ...", "Type: ...", "Power/Toughness: .../...", "Loyalty: ..."
/// and "Defense: ...", each present only when its trimmed values are not
/// empty, and the parse input is `build_parse_input` of those lines and the
/// trimmed oracle text.
pub fn build_card_input(card: &CardFields, face: Option<&CardFields>) -> (r: Option<CardInput>)
    ensures
        match r {
            None => card_input_of(*card, face_value(face)) is None,
            Some(ci) => {
                &&& card_input_of(*card, face_value(face)) == Some(
                    (ci.name@, ci.oracle_text@, line_texts(ci.metadata_lines@)),
                )
                &&& ci.parse_input@ == parse_input_text(ci.metadata_lines@, ci.oracle_text@)
            },
        },
{
    let ghost fc = face_value(face);
    let none = CardFields {
        name: None,
        oracle_text: None,
        mana_cost: None,
        type_line: None,
        power: None,
        toughness: None,
        loyalty: None,
        defense: None,
    };
    let f = match face {
        Some(f) => f,
        None => &none,
    };
    assert(*f == face_or_none(fc));
    let name = match nonblank_text(&pick_field(&card.name, &f.name)) {
        Some(n) => n,
        None => {
            return None;
        },
    };
    let oracle_text = match nonblank_text(&pick_field(&card.oracle_text, &f.oracle_text)) {
        Some(o) => o,
        None => {
            return None;
        },
    };
    let mut metadata_lines: Vec<String> = Vec::new();
    push_labelled(&mut metadata_lines, "Mana cost: ", &pick_field(&card.mana_cost, &f.mana_cost));
    push_labelled(&mut metadata_lines, "Type: ", &pick_field(&card.type_line, &f.type_line));
    let power = nonblank_text(&pick_field(&card.power, &f.power));
    let toughness = nonblank_text(&pick_field(&card.toughness, &f.toughness));
    match (power, toughness) {
        (Some(p), Some(t)) => {
            let mut line = string_of("Power/Toughness: ");
            push_str(&mut line, p.as_str());
            push_str(&mut line, "/");
            push_str(&mut line, t.as_str());
            push_line(&mut metadata_lines, line);
        },
        _ => {},
    }
    push_labelled(&mut metadata_lines, "Loyalty: ", &pick_field(&card.loyalty, &f.loyalty));
    push_labelled(&mut metadata_lines, "Defense: ", &pick_field(&card.defense, &f.defense));
    assert(line_texts(metadata_lines@) =~= metadata_of(*card, fc));
    let parse_input = build_parse_input(metadata_lines.as_slice(), oracle_text.as_str());
    Some(CardInput { name, oracle_text, metadata_lines, parse_input })
}

} // verus!
