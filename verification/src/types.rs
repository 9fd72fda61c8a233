//! Card types, subtypes, supertypes, zones and colors.

use vstd::prelude::*;

verus! {

/// The zones a game object can be in.
#[derive(Debug, Clone, Copy, PartialEq, Eq, Hash, Structural)]
pub enum Zone {
    Library,
    Hand,
    Battlefield,
    Graveyard,
    Stack,
    Exile,
    Command,
}

/// Card types.
#[derive(Debug, Clone, Copy, PartialEq, Eq, Hash, Structural)]
pub enum CardType {
    Artifact,
    Battle,
    Creature,
    Enchantment,
    Instant,
    Kindred,
    Land,
    Planeswalker,
    Sorcery,
}

/// Supertypes.
#[derive(Debug, Clone, Copy, PartialEq, Eq, Hash, Structural)]
pub enum Supertype {
    Basic,
    Legendary,
    Snow,
    World,
}

/// Subtypes used by the cards of this library.
#[derive(Debug, Clone, Copy, PartialEq, Eq, Hash, Structural)]
pub enum Subtype {
    Plains,
    Island,
    Swamp,
    Mountain,
    Forest,
    Human,
    Soldier,
    Cleric,
    Zombie,
    Toy,
    Nightmare,
    Beast,
    Eldrazi,
    Treasure,
}

/// The five colors.
#[derive(Debug, Clone, Copy, PartialEq, Eq, Hash, Structural)]
pub enum Color {
    White,
    Blue,
    Black,
    Red,
    Green,
}

/// A set of colors.
#[derive(Debug, Clone, Copy, PartialEq, Eq, Hash, Structural)]
pub struct ColorSet {
    pub white: bool,
    pub blue: bool,
    pub black: bool,
    pub red: bool,
    pub green: bool,
}

impl ColorSet {
    /// Whether `color` is in this set.
    pub open spec fn has(self, color: Color) -> bool {
        match color {
            Color::White => self.white,
            Color::Blue => self.blue,
            Color::Black => self.black,
            Color::Red => self.red,
            Color::Green => self.green,
        }
    }

    /// Number of colors in this set.
    pub open spec fn size(self) -> nat {
        (if self.white { 1nat } else { 0nat }) + (if self.blue { 1nat } else { 0nat }) + (if self.black {
            1nat
        } else {
            0nat
        }) + (if self.red { 1nat } else { 0nat }) + (if self.green { 1nat } else { 0nat })
    }

    /// The empty set of colors (colorless).
    pub fn colorless() -> (s: ColorSet)
        ensures
            forall|c: Color| !s.has(c),
    {
        ColorSet { white: false, blue: false, black: false, red: false, green: false }
    }

    /// The set holding just `color`.
    pub fn from_color(color: Color) -> (s: ColorSet)
        ensures
            forall|c: Color| s.has(c) <==> c == color,
    {
        match color {
            Color::White => ColorSet { white: true, blue: false, black: false, red: false, green: false },
            Color::Blue => ColorSet { white: false, blue: true, black: false, red: false, green: false },
            Color::Black => ColorSet { white: false, blue: false, black: true, red: false, green: false },
            Color::Red => ColorSet { white: false, blue: false, black: false, red: true, green: false },
            Color::Green => ColorSet { white: false, blue: false, black: false, red: false, green: true },
        }
    }

    /// Whether `color` is in this set.
    pub fn contains(&self, color: Color) -> (b: bool)
        ensures
            b == self.has(color),
    {
        match color {
            Color::White => self.white,
            Color::Blue => self.blue,
            Color::Black => self.black,
            Color::Red => self.red,
            Color::Green => self.green,
        }
    }

    /// The colors in both sets.
    pub fn intersection(&self, other: ColorSet) -> (s: ColorSet)
        ensures
            forall|c: Color| s.has(c) <==> (self.has(c) && other.has(c)),
    {
        ColorSet {
            white: self.white && other.white,
            blue: self.blue && other.blue,
            black: self.black && other.black,
            red: self.red && other.red,
            green: self.green && other.green,
        }
    }

    /// The colors in either set.
    pub fn union(&self, other: ColorSet) -> (s: ColorSet)
        ensures
            forall|c: Color| s.has(c) <==> (self.has(c) || other.has(c)),
    {
        ColorSet {
            white: self.white || other.white,
            blue: self.blue || other.blue,
            black: self.black || other.black,
            red: self.red || other.red,
            green: self.green || other.green,
        }
    }

    /// Whether the set holds no color.
    pub fn is_empty(&self) -> (b: bool)
        ensures
            b <==> (forall|c: Color| !self.has(c)),
    {
        let b = !(self.white || self.blue || self.black || self.red || self.green);
        proof {
            if !b {
                if self.white {
                    assert(self.has(Color::White));
                } else if self.blue {
                    assert(self.has(Color::Blue));
                } else if self.black {
                    assert(self.has(Color::Black));
                } else if self.red {
                    assert(self.has(Color::Red));
                } else {
                    assert(self.has(Color::Green));
                }
            }
        }
        b
    }

    /// Number of colors in the set.
    pub fn count(&self) -> (n: usize)
        ensures
            n == self.size(),
    {
        let mut n: usize = 0;
        if self.white {
            n = n + 1;
        }
        if self.blue {
            n = n + 1;
        }
        if self.black {
            n = n + 1;
        }
        if self.red {
            n = n + 1;
        }
        if self.green {
            n = n + 1;
        }
        n
    }
}

/// Whether `t` occurs in `types`.
pub fn contains_card_type(types: &Vec<CardType>, t: CardType) -> (found: bool)
    ensures
        found == types@.contains(t),
{
    let mut i: usize = 0;
    while i < types.len()
        invariant
            i <= types.len(),
            forall|j: int| 0 <= j < i ==> types@[j] != t,
        decreases types.len() - i,
    {
        if types[i] == t {
            return true;
        }
        i = i + 1;
    }
    false
}

/// Whether `t` occurs in `types`.
pub fn contains_subtype(types: &Vec<Subtype>, t: Subtype) -> (found: bool)
    ensures
        found == types@.contains(t),
{
    let mut i: usize = 0;
    while i < types.len()
        invariant
            i <= types.len(),
            forall|j: int| 0 <= j < i ==> types@[j] != t,
        decreases types.len() - i,
    {
        if types[i] == t {
            return true;
        }
        i = i + 1;
    }
    false
}

/// Whether `t` occurs in `types`.
pub fn contains_supertype(types: &Vec<Supertype>, t: Supertype) -> (found: bool)
    ensures
        found == types@.contains(t),
{
    let mut i: usize = 0;
    while i < types.len()
        invariant
            i <= types.len(),
            forall|j: int| 0 <= j < i ==> types@[j] != t,
        decreases types.len() - i,
    {
        if types[i] == t {
            return true;
        }
        i = i + 1;
    }
    false
}

/// Whether `c` occurs in `colors`.
pub fn contains_color(colors: &Vec<Color>, c: Color) -> (found: bool)
    ensures
        found == colors@.contains(c),
{
    let mut i: usize = 0;
    while i < colors.len()
        invariant
            i <= colors.len(),
            forall|j: int| 0 <= j < i ==> colors@[j] != c,
        decreases colors.len() - i,
    {
        if colors[i] == c {
            return true;
        }
        i = i + 1;
    }
    false
}

/// A fresh vector with the same card types in the same order.
pub fn copy_card_types(v: &Vec<CardType>) -> (out: Vec<CardType>)
    ensures
        out@ == v@,
{
    let mut out: Vec<CardType> = Vec::new();
    let mut i: usize = 0;
    while i < v.len()
        invariant
            i <= v.len(),
            out@ == v@.subrange(0, i as int),
        decreases v.len() - i,
    {
        out.push(v[i]);
        i = i + 1;
    }
    assert(v@.subrange(0, v@.len() as int) == v@);
    out
}

} // verus!
