//! How a vitality is shown.

use vstd::prelude::*;
use vstd::string::StringExecFns;
use crate::rule::V_MAX;

verus! {

/// What is displayed for one cell.
#[derive(Debug, Clone, Copy, PartialEq, Eq, Structural)]
pub enum Symbol {
    /// The cell is alive.
    Alive,
    /// The cell died one or two generations ago.
    Recent,
    /// The cell died three to six generations ago.
    Fading,
    /// The cell died seven to fourteen generations ago.
    Faint,
    /// The cell has been dead for longer, or the afterglow is switched off.
    Blank,
}

/// The symbol for a cell of vitality `v`.
///
/// Without `fadeout` every cell that is not alive is blank.
pub open spec fn symbol_of(v: u8, fadeout: bool) -> Symbol {
    if v == V_MAX {
        Symbol::Alive
    } else if fadeout && v >= V_MAX - 2 {
        Symbol::Recent
    } else if fadeout && v >= V_MAX - 6 {
        Symbol::Fading
    } else if fadeout && v >= V_MAX - 14 {
        Symbol::Faint
    } else {
        Symbol::Blank
    }
}

/// The character that stands for `symbol`: a black circle, a circle with
/// vertical fill, a white circle, a dotted circle, or a space.
pub open spec fn glyph_of(symbol: Symbol) -> char {
    match symbol {
        Symbol::Alive => '\u{25cf}',
        Symbol::Recent => '\u{25cd}',
        Symbol::Fading => '\u{25cb}',
        Symbol::Faint => '\u{25cc}',
        Symbol::Blank => ' ',
    }
}

/// The symbols of the grid proper of plane `p`, row by row.
pub open spec fn rendering(p: Seq<Seq<u8>>, rows: nat, cols: nat, fadeout: bool) -> Seq<Seq<Symbol>> {
    Seq::new(rows, |r: int| Seq::new(cols, |c: int| symbol_of(p[r + 1][c + 1], fadeout)))
}

/// The characters of one row of symbols, closed by a line feed.
pub open spec fn line_of(row: Seq<Symbol>) -> Seq<char> {
    Seq::new(row.len(), |c: int| glyph_of(row[c])).push('\n')
}

/// The characters of the first `n` rows of `symbols`, line by line.
pub open spec fn text_of(symbols: Seq<Seq<Symbol>>, n: nat) -> Seq<char>
    decreases n,
{
    if n == 0 {
        Seq::empty()
    } else {
        text_of(symbols, (n - 1) as nat) + line_of(symbols[n - 1])
    }
}

/// What a vector of rows of symbols stands for.
pub open spec fn symbols_of(v: Vec<Vec<Symbol>>) -> Seq<Seq<Symbol>> {
    Seq::new(v@.len(), |r: int| v@[r]@)
}

impl Symbol {
    /// The character that stands for the symbol, as a string.
    pub fn glyph_str(self) -> (glyph: &'static str)
        ensures
            glyph@ == seq![glyph_of(self)],
    {
        proof {
            reveal_strlit("\u{25cf}");
            reveal_strlit("\u{25cd}");
            reveal_strlit("\u{25cb}");
            reveal_strlit("\u{25cc}");
            reveal_strlit(" ");
        }
        let glyph = match self {
            Symbol::Alive => "\u{25cf}",
            Symbol::Recent => "\u{25cd}",
            Symbol::Fading => "\u{25cb}",
            Symbol::Faint => "\u{25cc}",
            Symbol::Blank => " ",
        };
        assert(glyph@ =~= seq![glyph_of(self)]);
        glyph
    }

    /// The character that stands for the symbol.
    pub fn glyph(self) -> (glyph: char)
        ensures
            glyph == glyph_of(self),
    {
        match self {
            Symbol::Alive => '\u{25cf}',
            Symbol::Recent => '\u{25cd}',
            Symbol::Fading => '\u{25cb}',
            Symbol::Faint => '\u{25cc}',
            Symbol::Blank => ' ',
        }
    }
}

/// Appends the line for `row` to `text`.
pub fn push_line(text: &mut String, row: &Vec<Symbol>)
    ensures
        final(text)@ == old(text)@ + line_of(row@),
{
    let ghost start = text@;
    for col in 0..row.len()
        invariant
            text@ == start + Seq::new(col as nat, |c: int| glyph_of(row@[c])),
    {
        text.append(row[col].glyph_str());
        assert(text@ =~= start + Seq::new((col + 1) as nat, |c: int| glyph_of(row@[c])));
    }
    proof {
        reveal_strlit("\n");
    }
    text.append("\n");
    assert("\n"@ =~= seq!['\n']);
    assert(text@ =~= start + line_of(row@));
}

/// Chooses the symbol for a cell of vitality `v`.
pub fn symbol_for(v: u8, fadeout: bool) -> (symbol: Symbol)
    ensures
        symbol == symbol_of(v, fadeout),
{
    if v == V_MAX {
        Symbol::Alive
    } else if fadeout && v >= V_MAX - 2 {
        Symbol::Recent
    } else if fadeout && v >= V_MAX - 6 {
        Symbol::Fading
    } else if fadeout && v >= V_MAX - 14 {
        Symbol::Faint
    } else {
        Symbol::Blank
    }
}

} // verus!
