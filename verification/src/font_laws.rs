//! What the font draws: each glyph as a fixed bitmap, the mirror images among them,
//! and the checkerboard for every character the font does not cover.
use vstd::prelude::*;
use crate::font::glyph;

verus! {

/// The checkerboard drawn for characters without a glyph of their own.
pub open spec fn checkerboard() -> Seq<Seq<bool>> {
    seq![
        seq![true, false, true, false, true],
        seq![false, true, false, true, false],
        seq![true, false, true, false, true],
        seq![false, true, false, true, false],
        seq![true, false, true, false, true],
    ]
}

/// A bitmap with each row read right to left.
pub open spec fn mirror(g: Seq<Seq<bool>>) -> Seq<Seq<bool>> {
    Seq::new(g.len(), |i: int| Seq::new(g[i].len(), |j: int| g[i][g[i].len() - 1 - j]))
}

/// The space and the symbols from `!` to `/` are drawn with these bitmaps.
pub proof fn law_font_symbols()
    ensures
        glyph(' ') == seq![
            seq![false, false, false, false, false],
            seq![false, false, false, false, false],
            seq![false, false, false, false, false],
            seq![false, false, false, false, false],
            seq![false, false, false, false, false],
        ],
        glyph('!') == seq![
            seq![true],
            seq![true],
            seq![true],
            seq![false],
            seq![false],
        ],
        glyph('"') == seq![
            seq![true, false, true],
            seq![true, false, true],
            seq![false, false, false],
            seq![false, false, false],
            seq![false, false, false],
        ],
        glyph('#') == seq![
            seq![false, true, false, true, false],
            seq![true, true, true, true, true],
            seq![false, true, false, true, false],
            seq![true, true, true, true, true],
            seq![false, true, false, true, false],
        ],
        glyph('$') == seq![
            seq![true, true, true, true, true],
            seq![true, false, true, false, false],
            seq![true, true, true, true, true],
            seq![false, false, true, false, true],
            seq![true, true, true, true, true],
        ],
        glyph('%') == seq![
            seq![true, false, false, false, true],
            seq![false, false, false, true, false],
            seq![false, false, true, false, false],
            seq![false, true, false, false, false],
            seq![true, false, false, false, true],
        ],
        glyph('&') == seq![
            seq![false, true, true, true, false],
            seq![true, false, false, false, true],
            seq![false, true, true, false, false],
            seq![true, false, false, true, true],
            seq![false, true, true, false, true],
        ],
        glyph('\'') == seq![
            seq![true],
            seq![true],
            seq![false],
            seq![false],
            seq![false],
        ],
        glyph('(') == seq![
            seq![false, true],
            seq![true, false],
            seq![true, false],
            seq![true, false],
            seq![false, true],
        ],
        glyph(')') == seq![
            seq![true, false],
            seq![false, true],
            seq![false, true],
            seq![false, true],
            seq![true, false],
        ],
        glyph('*') == seq![
            seq![false, false, false],
            seq![true, false, true],
            seq![false, true, false],
            seq![true, false, true],
            seq![false, false, false],
        ],
        glyph('+') == seq![
            seq![false, false, false],
            seq![false, true, false],
            seq![true, true, true],
            seq![false, true, false],
            seq![false, false, false],
        ],
        glyph(',') == seq![
            seq![false, false],
            seq![false, false],
            seq![false, false],
            seq![false, true],
            seq![true, false],
        ],
        glyph('-') == seq![
            seq![false, false],
            seq![false, false],
            seq![true, true],
            seq![false, false],
            seq![false, false],
        ],
        glyph('.') == seq![
            seq![false],
            seq![false],
            seq![false],
            seq![false],
            seq![true],
        ],
        glyph('/') == seq![
            seq![false, false, true],
            seq![false, true, false],
            seq![false, true, false],
            seq![false, true, false],
            seq![true, false, false],
        ],
{
    reveal(glyph);
}

/// The digits are drawn with these bitmaps.
pub proof fn law_font_digits()
    ensures
        glyph('0') == seq![
            seq![true, true, true],
            seq![true, false, true],
            seq![true, false, true],
            seq![true, false, true],
            seq![true, true, true],
        ],
        glyph('1') == seq![
            seq![false, true],
            seq![true, true],
            seq![false, true],
            seq![false, true],
            seq![false, true],
        ],
        glyph('2') == seq![
            seq![false, true, false],
            seq![true, false, true],
            seq![false, true, true],
            seq![true, false, false],
            seq![true, true, true],
        ],
        glyph('3') == seq![
            seq![true, true, true],
            seq![false, false, true],
            seq![true, true, true],
            seq![false, false, true],
            seq![true, true, true],
        ],
        glyph('4') == seq![
            seq![true, false, true],
            seq![true, false, true],
            seq![true, true, true],
            seq![false, false, true],
            seq![false, false, true],
        ],
        glyph('5') == seq![
            seq![true, true, true],
            seq![true, false, false],
            seq![false, true, true],
            seq![false, false, true],
            seq![true, true, true],
        ],
        glyph('6') == seq![
            seq![true, true, true],
            seq![true, false, false],
            seq![true, true, true],
            seq![true, false, true],
            seq![true, true, true],
        ],
        glyph('7') == seq![
            seq![true, true, true],
            seq![false, false, true],
            seq![false, true, false],
            seq![true, false, false],
            seq![true, false, false],
        ],
        glyph('8') == seq![
            seq![true, true, true],
            seq![true, false, true],
            seq![true, true, true],
            seq![true, false, true],
            seq![true, true, true],
        ],
        glyph('9') == seq![
            seq![true, true, true],
            seq![true, false, true],
            seq![true, true, true],
            seq![false, false, true],
            seq![false, false, true],
        ],
{
    reveal(glyph);
}

/// The symbols from `:` to `@` are drawn with these bitmaps.
pub proof fn law_font_symbols_after_digits()
    ensures
        glyph(':') == seq![
            seq![false],
            seq![true],
            seq![false],
            seq![true],
            seq![false],
        ],
        glyph(';') == seq![
            seq![false, false],
            seq![false, true],
            seq![false, false],
            seq![false, true],
            seq![true, false],
        ],
        glyph('<') == seq![
            seq![false, false],
            seq![false, true],
            seq![true, false],
            seq![false, true],
            seq![false, false],
        ],
        glyph('=') == seq![
            seq![false, false],
            seq![true, true],
            seq![false, false],
            seq![true, true],
            seq![false, false],
        ],
        glyph('>') == seq![
            seq![false, false],
            seq![true, false],
            seq![false, true],
            seq![true, false],
            seq![false, false],
        ],
        glyph('?') == seq![
            seq![true, true, true],
            seq![true, false, true],
            seq![false, true, false],
            seq![false, false, false],
            seq![false, true, false],
        ],
        glyph('@') == seq![
            seq![false, true, true, true, false],
            seq![true, false, false, false, true],
            seq![true, false, true, true, true],
            seq![true, false, true, false, true],
            seq![false, true, true, true, false],
        ],
{
    reveal(glyph);
}

/// The capitals `A` to `P` are drawn with these bitmaps.
pub proof fn law_font_capitals()
    ensures
        glyph('A') == seq![
            seq![true, true, true],
            seq![true, false, true],
            seq![true, true, true],
            seq![true, false, true],
            seq![true, false, true],
        ],
        glyph('B') == seq![
            seq![true, true, true],
            seq![true, false, true],
            seq![true, true, false],
            seq![true, false, true],
            seq![true, true, true],
        ],
        glyph('C') == seq![
            seq![true, true, true],
            seq![true, false, false],
            seq![true, false, false],
            seq![true, false, false],
            seq![true, true, true],
        ],
        glyph('D') == seq![
            seq![true, true, false],
            seq![true, false, true],
            seq![true, false, true],
            seq![true, false, true],
            seq![true, true, false],
        ],
        glyph('E') == seq![
            seq![true, true, true],
            seq![true, false, false],
            seq![true, true, true],
            seq![true, false, false],
            seq![true, true, true],
        ],
        glyph('F') == seq![
            seq![true, true, true],
            seq![true, false, false],
            seq![true, true, true],
            seq![true, false, false],
            seq![true, false, false],
        ],
        glyph('G') == seq![
            seq![false, true, true, true],
            seq![true, false, false, false],
            seq![true, false, true, true],
            seq![true, false, false, true],
            seq![false, true, true, false],
        ],
        glyph('H') == seq![
            seq![true, false, true],
            seq![true, false, true],
            seq![true, true, true],
            seq![true, false, true],
            seq![true, false, true],
        ],
        glyph('I') == seq![
            seq![true, true, true],
            seq![false, true, false],
            seq![false, true, false],
            seq![false, true, false],
            seq![true, true, true],
        ],
        glyph('J') == seq![
            seq![false, false, true],
            seq![false, false, true],
            seq![false, false, true],
            seq![true, false, true],
            seq![true, true, true],
        ],
        glyph('K') == seq![
            seq![true, false, true],
            seq![true, true, false],
            seq![true, false, false],
            seq![true, true, false],
            seq![true, false, true],
        ],
        glyph('L') == seq![
            seq![true, false, false],
            seq![true, false, false],
            seq![true, false, false],
            seq![true, false, false],
            seq![true, true, true],
        ],
        glyph('M') == seq![
            seq![true, false, false, false, true],
            seq![true, true, false, true, true],
            seq![true, false, true, false, true],
            seq![true, false, true, false, true],
            seq![true, false, false, false, true],
        ],
        glyph('N') == seq![
            seq![true, false, false, true],
            seq![true, true, false, true],
            seq![true, false, true, true],
            seq![true, false, false, true],
            seq![true, false, false, true],
        ],
        glyph('O') == seq![
            seq![true, true, true],
            seq![true, false, true],
            seq![true, false, true],
            seq![true, false, true],
            seq![true, true, true],
        ],
        glyph('P') == seq![
            seq![true, true, true],
            seq![true, false, true],
            seq![true, true, true],
            seq![true, false, false],
            seq![true, false, false],
        ],
{
    reveal(glyph);
}

/// Every character outside the space to `@` and `A` to `P` is drawn as the checkerboard.
pub proof fn law_font_unknown(c: char)
    requires
        !((' ' <= c && c <= '@') || ('A' <= c && c <= 'P')),
    ensures
        glyph(c) == checkerboard(),
{
    reveal(glyph);
}

/// Glyphs that are mirror images: `(` and `)`, `<` and `>`; and glyphs that are their own
/// mirror image, such as `A`, `H`, `O`, `0`, `8`, `+`, `=` and the checkerboard.
pub proof fn law_font_mirrors()
    ensures
        mirror(glyph('(')) == glyph(')'),
        mirror(glyph(')')) == glyph('('),
        mirror(glyph('<')) == glyph('>'),
        mirror(glyph('>')) == glyph('<'),
        mirror(glyph('A')) == glyph('A'),
        mirror(glyph('H')) == glyph('H'),
        mirror(glyph('O')) == glyph('O'),
        mirror(glyph('0')) == glyph('0'),
        mirror(glyph('8')) == glyph('8'),
        mirror(glyph('+')) == glyph('+'),
        mirror(glyph('=')) == glyph('='),
        mirror(checkerboard()) == checkerboard(),
{
    reveal(glyph);
    assert(mirror(glyph('(')) =~~= glyph(')'));
    assert(mirror(glyph(')')) =~~= glyph('('));
    assert(mirror(glyph('<')) =~~= glyph('>'));
    assert(mirror(glyph('>')) =~~= glyph('<'));
    assert(mirror(glyph('A')) =~~= glyph('A'));
    assert(mirror(glyph('H')) =~~= glyph('H'));
    assert(mirror(glyph('O')) =~~= glyph('O'));
    assert(mirror(glyph('0')) =~~= glyph('0'));
    assert(mirror(glyph('8')) =~~= glyph('8'));
    assert(mirror(glyph('+')) =~~= glyph('+'));
    assert(mirror(glyph('=')) =~~= glyph('='));
    assert(mirror(checkerboard()) =~~= checkerboard());
}

} // verus!
