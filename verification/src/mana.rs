//! Mana symbols and mana costs.

use vstd::prelude::*;
use crate::types::{Color, ColorSet};
use crate::text::{decimal, push_decimal, push_str, string_of};

verus! {

/// A mana symbol as printed in a cost.
#[derive(Debug, Clone, Copy, PartialEq, Eq, Hash, Structural)]
pub enum ManaSymbol {
    White,
    Blue,
    Black,
    Red,
    Green,
    Colorless,
    Generic(u32),
    Snow,
    /// Phyrexian alternative: pay this much life instead.
    Life(u32),
    X,
}

/// Mana value contributed by one symbol.
pub open spec fn symbol_value(s: ManaSymbol) -> nat {
    match s {
        ManaSymbol::Generic(n) => n as nat,
        ManaSymbol::X => 0,
        ManaSymbol::Life(_) => 0,
        _ => 1,
    }
}

/// Mana value of a pip: the largest value among its alternatives.
pub open spec fn pip_value(pip: Seq<ManaSymbol>) -> nat
    decreases pip.len(),
{
    if pip.len() == 0 {
        0
    } else {
        let rest = pip_value(pip.drop_last());
        let v = symbol_value(pip.last());
        if v > rest { v } else { rest }
    }
}

/// Total mana value of a sequence of pips.
pub open spec fn pips_value(pips: Seq<Seq<ManaSymbol>>) -> nat
    decreases pips.len(),
{
    if pips.len() == 0 {
        0
    } else {
        pips_value(pips.drop_last()) + pip_value(pips.last())
    }
}

/// The color a symbol stands for, if it is colored.
pub open spec fn symbol_color(s: ManaSymbol) -> Option<Color> {
    match s {
        ManaSymbol::White => Some(Color::White),
        ManaSymbol::Blue => Some(Color::Blue),
        ManaSymbol::Black => Some(Color::Black),
        ManaSymbol::Red => Some(Color::Red),
        ManaSymbol::Green => Some(Color::Green),
        _ => None,
    }
}

/// A mana cost: a sequence of pips, each pip a list of alternative symbols
/// (one symbol for an ordinary pip, several for hybrid and Phyrexian pips).
#[derive(Debug, Clone, PartialEq, Eq)]
pub struct ManaCost {
    pub pips: Vec<Vec<ManaSymbol>>,
}

impl ManaCost {
    /// The pips of this cost, as sequences.
    pub open spec fn pip_seqs(self) -> Seq<Seq<ManaSymbol>> {
        self.pips@.map_values(|p: Vec<ManaSymbol>| p@)
    }

    /// The mana value of this cost.
    pub open spec fn value(self) -> nat {
        pips_value(self.pip_seqs())
    }

    /// Whether `c` is among the colors of this cost.
    pub open spec fn has_color(self, c: Color) -> bool {
        exists|i: int, j: int|
            0 <= i < self.pips@.len() && 0 <= j < self.pips@[i]@.len() && symbol_color(
                #[trigger] self.pips@[i]@[j],
            ) == Some(c)
    }

    /// The empty cost {0}.
    pub fn new() -> (m: ManaCost)
        ensures
            m.pips@.len() == 0,
    {
        ManaCost { pips: Vec::new() }
    }

    /// A cost from its pips.
    pub fn from_pips(pips: Vec<Vec<ManaSymbol>>) -> (m: ManaCost)
        ensures
            m.pips == pips,
    {
        ManaCost { pips }
    }

    /// A cost with one pip per symbol.
    pub fn from_symbols(symbols: Vec<ManaSymbol>) -> (m: ManaCost)
        ensures
            m.pips@.len() == symbols@.len(),
            forall|i: int| 0 <= i < symbols@.len() ==> #[trigger] m.pips@[i]@ == seq![symbols@[i]],
    {
        let mut pips: Vec<Vec<ManaSymbol>> = Vec::new();
        let mut i: usize = 0;
        while i < symbols.len()
            invariant
                i <= symbols.len(),
                pips@.len() == i,
                forall|k: int| 0 <= k < i ==> #[trigger] pips@[k]@ == seq![symbols@[k]],
            decreases symbols.len() - i,
        {
            let mut pip: Vec<ManaSymbol> = Vec::new();
            pip.push(symbols[i]);
            pips.push(pip);
            i = i + 1;
        }
        ManaCost { pips }
    }

    /// The mana value of this cost (saturating at `u32::MAX`).
    pub fn mana_value(&self) -> (v: u32)
        ensures
            v == (if self.value() <= u32::MAX { self.value() } else { u32::MAX as nat }),
    {
        let mut total: u32 = 0;
        let mut i: usize = 0;
        while i < self.pips.len()
            invariant
                i <= self.pips.len(),
                total == (if pips_value(self.pip_seqs().subrange(0, i as int)) <= u32::MAX {
                    pips_value(self.pip_seqs().subrange(0, i as int))
                } else {
                    u32::MAX as nat
                }),
            decreases self.pips.len() - i,
        {
            let pv = pip_mana_value(&self.pips[i]);
            assert(self.pip_seqs().subrange(0, i + 1).drop_last() == self.pip_seqs().subrange(0, i as int));
            total = total.saturating_add(pv);
            i = i + 1;
        }
        assert(self.pip_seqs().subrange(0, self.pips@.len() as int) == self.pip_seqs());
        total
    }

    /// The colors of the symbols in this cost.
    pub fn colors(&self) -> (s: ColorSet)
        ensures
            forall|c: Color| s.has(c) <==> self.has_color(c),
    {
        let mut s = ColorSet::colorless();
        let mut i: usize = 0;
        while i < self.pips.len()
            invariant
                i <= self.pips.len(),
                forall|c: Color|
                    s.has(c) <==> exists|a: int, b: int|
                        0 <= a < i && 0 <= b < self.pips@[a]@.len() && symbol_color(
                            #[trigger] self.pips@[a]@[b],
                        ) == Some(c),
            decreases self.pips.len() - i,
        {
            let pip = &self.pips[i];
            let mut j: usize = 0;
            while j < pip.len()
                invariant
                    i < self.pips.len(),
                    pip == self.pips@[i as int],
                    j <= pip.len(),
                    forall|c: Color|
                        s.has(c) <==> (exists|a: int, b: int|
                            0 <= a < i && 0 <= b < self.pips@[a]@.len() && symbol_color(
                                #[trigger] self.pips@[a]@[b],
                            ) == Some(c)) || (exists|b: int|
                            0 <= b < j && symbol_color(#[trigger] pip@[b]) == Some(c)),
                decreases pip.len() - j,
            {
                let sym = pip[j];
                let add = symbol_colors(sym);
                let ghost old_s = s;
                s = s.union(add);
                proof {
                    assert forall|c: Color| s.has(c) <==> (exists|a: int, b: int|
                        0 <= a < i && 0 <= b < self.pips@[a]@.len() && symbol_color(
                            #[trigger] self.pips@[a]@[b],
                        ) == Some(c)) || (exists|b: int|
                        0 <= b < j + 1 && symbol_color(#[trigger] pip@[b]) == Some(c)) by {
                        if add.has(c) {
                            assert(symbol_color(pip@[j as int]) == Some(c));
                        }
                        if exists|b: int| 0 <= b < j + 1 && symbol_color(#[trigger] pip@[b]) == Some(c) {
                            let b = choose|b: int| 0 <= b < j + 1 && symbol_color(#[trigger] pip@[b]) == Some(c);
                            if b < j {
                                assert(old_s.has(c));
                            }
                        }
                    }
                }
                j = j + 1;
            }
            proof {
                assert forall|c: Color| s.has(c) <==> exists|a: int, b: int|
                    0 <= a < i + 1 && 0 <= b < self.pips@[a]@.len() && symbol_color(
                        #[trigger] self.pips@[a]@[b],
                    ) == Some(c) by {
                    if exists|b: int| 0 <= b < j && symbol_color(#[trigger] pip@[b]) == Some(c) {
                        let b = choose|b: int| 0 <= b < j && symbol_color(#[trigger] pip@[b]) == Some(c);
                        assert(self.pips@[i as int]@[b] == pip@[b]);
                    }
                    if exists|a: int, b: int|
                        0 <= a < i + 1 && 0 <= b < self.pips@[a]@.len() && symbol_color(
                            #[trigger] self.pips@[a]@[b],
                        ) == Some(c) {
                        let (a, b) = choose|a: int, b: int|
                            0 <= a < i + 1 && 0 <= b < self.pips@[a]@.len() && symbol_color(
                                #[trigger] self.pips@[a]@[b],
                            ) == Some(c);
                        if a == i {
                            assert(symbol_color(pip@[b]) == Some(c));
                        }
                    }
                }
            }
            i = i + 1;
        }
        s
    }
}

/// The mana value of one pip (saturating at `u32::MAX`).
fn pip_mana_value(pip: &Vec<ManaSymbol>) -> (v: u32)
    ensures
        v == (if pip_value(pip@) <= u32::MAX { pip_value(pip@) } else { u32::MAX as nat }),
{
    let mut best: u32 = 0;
    let mut i: usize = 0;
    while i < pip.len()
        invariant
            i <= pip.len(),
            best == pip_value(pip@.subrange(0, i as int)),
            best <= u32::MAX,
        decreases pip.len() - i,
    {
        let v: u32 = match pip[i] {
            ManaSymbol::Generic(n) => n,
            ManaSymbol::X => 0,
            ManaSymbol::Life(_) => 0,
            _ => 1,
        };
        assert(pip@.subrange(0, i + 1).drop_last() == pip@.subrange(0, i as int));
        if v > best {
            best = v;
        }
        i = i + 1;
    }
    assert(pip@.subrange(0, pip@.len() as int) == pip@);
    best
}

/// The colors of one symbol.
fn symbol_colors(sym: ManaSymbol) -> (s: ColorSet)
    ensures
        forall|c: Color| s.has(c) <==> symbol_color(sym) == Some(c),
{
    match sym {
        ManaSymbol::White => ColorSet::from_color(Color::White),
        ManaSymbol::Blue => ColorSet::from_color(Color::Blue),
        ManaSymbol::Black => ColorSet::from_color(Color::Black),
        ManaSymbol::Red => ColorSet::from_color(Color::Red),
        ManaSymbol::Green => ColorSet::from_color(Color::Green),
        _ => ColorSet::colorless(),
    }
}

/// The text of one symbol inside braces: `W`, `U`, `B`, `R`, `G`, `C`, the
/// generic amount, `S`, `P` for a Phyrexian life payment, `X`.
pub open spec fn symbol_text(s: ManaSymbol) -> Seq<char> {
    match s {
        ManaSymbol::White => "W"@,
        ManaSymbol::Blue => "U"@,
        ManaSymbol::Black => "B"@,
        ManaSymbol::Red => "R"@,
        ManaSymbol::Green => "G"@,
        ManaSymbol::Colorless => "C"@,
        ManaSymbol::Generic(n) => decimal(n as nat),
        ManaSymbol::Snow => "S"@,
        ManaSymbol::Life(_) => "P"@,
        ManaSymbol::X => "X"@,
    }
}

/// The alternatives of a pip joined by `/`.
pub open spec fn pip_text(pip: Seq<ManaSymbol>) -> Seq<char>
    decreases pip.len(),
{
    if pip.len() == 0 {
        Seq::empty()
    } else if pip.len() == 1 {
        symbol_text(pip[0])
    } else {
        pip_text(pip.drop_last()) + "/"@ + symbol_text(pip.last())
    }
}

/// The text of a sequence of pips, each in braces.
pub open spec fn pips_text(pips: Seq<Seq<ManaSymbol>>) -> Seq<char>
    decreases pips.len(),
{
    if pips.len() == 0 {
        Seq::empty()
    } else {
        pips_text(pips.drop_last()) + "{"@ + pip_text(pips.last()) + "}"@
    }
}

/// Appends the text of one symbol.
fn push_symbol(s: &mut String, sym: ManaSymbol)
    ensures
        final(s)@ == old(s)@ + symbol_text(sym),
{
    match sym {
        ManaSymbol::White => push_str(s, "W"),
        ManaSymbol::Blue => push_str(s, "U"),
        ManaSymbol::Black => push_str(s, "B"),
        ManaSymbol::Red => push_str(s, "R"),
        ManaSymbol::Green => push_str(s, "G"),
        ManaSymbol::Colorless => push_str(s, "C"),
        ManaSymbol::Generic(n) => push_decimal(s, n as u64),
        ManaSymbol::Snow => push_str(s, "S"),
        ManaSymbol::Life(_) => push_str(s, "P"),
        ManaSymbol::X => push_str(s, "X"),
    }
}

/// The text of a mana cost; the empty cost is `{0}`.
pub open spec fn mana_cost_text(m: ManaCost) -> Seq<char> {
    if m.pips@.len() == 0 { "{0}"@ } else { pips_text(m.pip_seqs()) }
}

impl ManaCost {
    /// The cost as text, such as `{2}{W}` or `{W/P}`; the empty cost is `{0}`.
    pub fn to_oracle(&self) -> (t: String)
        ensures
            t@ == mana_cost_text(*self),
    {
        if self.pips.len() == 0 {
            return string_of("{0}");
        }
        let mut t = String::new();
        let mut i: usize = 0;
        while i < self.pips.len()
            invariant
                i <= self.pips.len(),
                t@ == pips_text(self.pip_seqs().subrange(0, i as int)),
            decreases self.pips.len() - i,
        {
            assert(self.pip_seqs().subrange(0, i + 1).drop_last() == self.pip_seqs().subrange(0, i as int));
            push_str(&mut t, "{");
            let pip = &self.pips[i];
            let mut j: usize = 0;
            let ghost base = t@;
            while j < pip.len()
                invariant
                    j <= pip.len(),
                    pip@ == self.pip_seqs()[i as int],
                    t@ == base + pip_text(pip@.subrange(0, j as int)),
                decreases pip.len() - j,
            {
                assert(pip@.subrange(0, j + 1).drop_last() == pip@.subrange(0, j as int));
                if j > 0 {
                    push_str(&mut t, "/");
                }
                push_symbol(&mut t, pip[j]);
                proof {
                    if j == 0 {
                        assert(pip_text(pip@.subrange(0, 1)) == symbol_text(pip@[0]));
                    }
                }
                j = j + 1;
            }
            assert(pip@.subrange(0, pip@.len() as int) == pip@);
            push_str(&mut t, "}");
            i = i + 1;
        }
        assert(self.pip_seqs().subrange(0, self.pips@.len() as int) == self.pip_seqs());
        t
    }
}

/// The mana a player has available, by kind.
#[derive(Debug, Clone, Copy, PartialEq, Eq, Structural)]
pub struct ManaPool {
    pub white: u32,
    pub blue: u32,
    pub black: u32,
    pub red: u32,
    pub green: u32,
    pub colorless: u32,
}

/// The empty mana pool.
pub open spec fn empty_pool() -> ManaPool {
    ManaPool { white: 0, blue: 0, black: 0, red: 0, green: 0, colorless: 0 }
}

/// `n + 1`, or `n` if that would not fit.
pub open spec fn plus_one(n: u32) -> u32 {
    if n < u32::MAX { (n + 1) as u32 } else { n }
}

impl ManaPool {
    /// The amount of mana in the pool.
    pub open spec fn sum(self) -> int {
        self.white + self.blue + self.black + self.red + self.green + self.colorless
    }

    /// The pool with one more mana of `c` (unchanged if that amount is already at its limit).
    pub open spec fn with_one(self, c: Color) -> ManaPool {
        match c {
            Color::White => ManaPool { white: plus_one(self.white), ..self },
            Color::Blue => ManaPool { blue: plus_one(self.blue), ..self },
            Color::Black => ManaPool { black: plus_one(self.black), ..self },
            Color::Red => ManaPool { red: plus_one(self.red), ..self },
            Color::Green => ManaPool { green: plus_one(self.green), ..self },
        }
    }

    /// An empty pool.
    pub fn new() -> (p: ManaPool)
        ensures
            p == empty_pool(),
    {
        ManaPool { white: 0, blue: 0, black: 0, red: 0, green: 0, colorless: 0 }
    }

    /// The amount of mana in the pool.
    pub fn total(&self) -> (t: u64)
        ensures
            t == self.sum(),
    {
        self.white as u64 + self.blue as u64 + self.black as u64 + self.red as u64 + self.green as u64
            + self.colorless as u64
    }

    /// Adds one mana of color `c`; an amount already at its limit stays there.
    pub fn add_one(&mut self, c: Color)
        ensures
            *final(self) == old(self).with_one(c),
    {
        match c {
            Color::White => self.white = self.white.saturating_add(1),
            Color::Blue => self.blue = self.blue.saturating_add(1),
            Color::Black => self.black = self.black.saturating_add(1),
            Color::Red => self.red = self.red.saturating_add(1),
            Color::Green => self.green = self.green.saturating_add(1),
        }
    }
}

} // verus!
