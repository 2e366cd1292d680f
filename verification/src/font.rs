//! The built-in 5-row bitmap font used when the BIOS writes a character to the screen.
use vstd::prelude::*;

verus! {

/// The glyph drawn for `c`: five rows of pixels, `true` for ink.
#[verifier::opaque]
pub open spec fn glyph(c: char) -> Seq<Seq<bool>> {
    if c == ' ' {
        // space
        seq![
            seq![false, false, false, false, false],
            seq![false, false, false, false, false],
            seq![false, false, false, false, false],
            seq![false, false, false, false, false],
            seq![false, false, false, false, false],
        ]
    } else if c == '!' {
        // exclamation mark
        seq![
            seq![true],
            seq![true],
            seq![true],
            seq![false],
            seq![false],
        ]
    } else if c == '"' {
        // double quote
        seq![
            seq![true, false, true],
            seq![true, false, true],
            seq![false, false, false],
            seq![false, false, false],
            seq![false, false, false],
        ]
    } else if c == '#' {
        // hash sign
        seq![
            seq![false, true, false, true, false],
            seq![true, true, true, true, true],
            seq![false, true, false, true, false],
            seq![true, true, true, true, true],
            seq![false, true, false, true, false],
        ]
    } else if c == '$' {
        // dollar sign
        seq![
            seq![true, true, true, true, true],
            seq![true, false, true, false, false],
            seq![true, true, true, true, true],
            seq![false, false, true, false, true],
            seq![true, true, true, true, true],
        ]
    } else if c == '%' {
        // percent sign
        seq![
            seq![true, false, false, false, true],
            seq![false, false, false, true, false],
            seq![false, false, true, false, false],
            seq![false, true, false, false, false],
            seq![true, false, false, false, true],
        ]
    } else if c == '&' {
        // ampersand
        seq![
            seq![false, true, true, true, false],
            seq![true, false, false, false, true],
            seq![false, true, true, false, false],
            seq![true, false, false, true, true],
            seq![false, true, true, false, true],
        ]
    } else if c == '\'' {
        // apostrophe
        seq![
            seq![true],
            seq![true],
            seq![false],
            seq![false],
            seq![false],
        ]
    } else if c == '(' {
        // left parenthesis
        seq![
            seq![false, true],
            seq![true, false],
            seq![true, false],
            seq![true, false],
            seq![false, true],
        ]
    } else if c == ')' {
        // right parenthesis
        seq![
            seq![true, false],
            seq![false, true],
            seq![false, true],
            seq![false, true],
            seq![true, false],
        ]
    } else if c == '*' {
        // asterisk
        seq![
            seq![false, false, false],
            seq![true, false, true],
            seq![false, true, false],
            seq![true, false, true],
            seq![false, false, false],
        ]
    } else if c == '+' {
        // plus sign
        seq![
            seq![false, false, false],
            seq![false, true, false],
            seq![true, true, true],
            seq![false, true, false],
            seq![false, false, false],
        ]
    } else if c == ',' {
        // comma
        seq![
            seq![false, false],
            seq![false, false],
            seq![false, false],
            seq![false, true],
            seq![true, false],
        ]
    } else if c == '-' {
        // minus sign
        seq![
            seq![false, false],
            seq![false, false],
            seq![true, true],
            seq![false, false],
            seq![false, false],
        ]
    } else if c == '.' {
        // full stop
        seq![
            seq![false],
            seq![false],
            seq![false],
            seq![false],
            seq![true],
        ]
    } else if c == '/' {
        // slash
        seq![
            seq![false, false, true],
            seq![false, true, false],
            seq![false, true, false],
            seq![false, true, false],
            seq![true, false, false],
        ]
    } else if c == '0' {
        // digit zero
        seq![
            seq![true, true, true],
            seq![true, false, true],
            seq![true, false, true],
            seq![true, false, true],
            seq![true, true, true],
        ]
    } else if c == '1' {
        // digit one
        seq![
            seq![false, true],
            seq![true, true],
            seq![false, true],
            seq![false, true],
            seq![false, true],
        ]
    } else if c == '2' {
        // digit two
        seq![
            seq![false, true, false],
            seq![true, false, true],
            seq![false, true, true],
            seq![true, false, false],
            seq![true, true, true],
        ]
    } else if c == '3' {
        // digit three
        seq![
            seq![true, true, true],
            seq![false, false, true],
            seq![true, true, true],
            seq![false, false, true],
            seq![true, true, true],
        ]
    } else if c == '4' {
        // digit four
        seq![
            seq![true, false, true],
            seq![true, false, true],
            seq![true, true, true],
            seq![false, false, true],
            seq![false, false, true],
        ]
    } else if c == '5' {
        // digit five
        seq![
            seq![true, true, true],
            seq![true, false, false],
            seq![false, true, true],
            seq![false, false, true],
            seq![true, true, true],
        ]
    } else if c == '6' {
        // digit six
        seq![
            seq![true, true, true],
            seq![true, false, false],
            seq![true, true, true],
            seq![true, false, true],
            seq![true, true, true],
        ]
    } else if c == '7' {
        // digit seven
        seq![
            seq![true, true, true],
            seq![false, false, true],
            seq![false, true, false],
            seq![true, false, false],
            seq![true, false, false],
        ]
    } else if c == '8' {
        // digit eight
        seq![
            seq![true, true, true],
            seq![true, false, true],
            seq![true, true, true],
            seq![true, false, true],
            seq![true, true, true],
        ]
    } else if c == '9' {
        // digit nine
        seq![
            seq![true, true, true],
            seq![true, false, true],
            seq![true, true, true],
            seq![false, false, true],
            seq![false, false, true],
        ]
    } else if c == ':' {
        // colon
        seq![
            seq![false],
            seq![true],
            seq![false],
            seq![true],
            seq![false],
        ]
    } else if c == ';' {
        // semicolon
        seq![
            seq![false, false],
            seq![false, true],
            seq![false, false],
            seq![false, true],
            seq![true, false],
        ]
    } else if c == '<' {
        // less-than sign
        seq![
            seq![false, false],
            seq![false, true],
            seq![true, false],
            seq![false, true],
            seq![false, false],
        ]
    } else if c == '=' {
        // equals sign
        seq![
            seq![false, false],
            seq![true, true],
            seq![false, false],
            seq![true, true],
            seq![false, false],
        ]
    } else if c == '>' {
        // greater-than sign
        seq![
            seq![false, false],
            seq![true, false],
            seq![false, true],
            seq![true, false],
            seq![false, false],
        ]
    } else if c == '?' {
        // question mark
        seq![
            seq![true, true, true],
            seq![true, false, true],
            seq![false, true, false],
            seq![false, false, false],
            seq![false, true, false],
        ]
    } else if c == '@' {
        // at sign
        seq![
            seq![false, true, true, true, false],
            seq![true, false, false, false, true],
            seq![true, false, true, true, true],
            seq![true, false, true, false, true],
            seq![false, true, true, true, false],
        ]
    } else if c == 'A' {
        // capital A
        seq![
            seq![true, true, true],
            seq![true, false, true],
            seq![true, true, true],
            seq![true, false, true],
            seq![true, false, true],
        ]
    } else if c == 'B' {
        // capital B
        seq![
            seq![true, true, true],
            seq![true, false, true],
            seq![true, true, false],
            seq![true, false, true],
            seq![true, true, true],
        ]
    } else if c == 'C' {
        // capital C
        seq![
            seq![true, true, true],
            seq![true, false, false],
            seq![true, false, false],
            seq![true, false, false],
            seq![true, true, true],
        ]
    } else if c == 'D' {
        // capital D
        seq![
            seq![true, true, false],
            seq![true, false, true],
            seq![true, false, true],
            seq![true, false, true],
            seq![true, true, false],
        ]
    } else if c == 'E' {
        // capital E
        seq![
            seq![true, true, true],
            seq![true, false, false],
            seq![true, true, true],
            seq![true, false, false],
            seq![true, true, true],
        ]
    } else if c == 'F' {
        // capital F
        seq![
            seq![true, true, true],
            seq![true, false, false],
            seq![true, true, true],
            seq![true, false, false],
            seq![true, false, false],
        ]
    } else if c == 'G' {
        // capital G
        seq![
            seq![false, true, true, true],
            seq![true, false, false, false],
            seq![true, false, true, true],
            seq![true, false, false, true],
            seq![false, true, true, false],
        ]
    } else if c == 'H' {
        // capital H
        seq![
            seq![true, false, true],
            seq![true, false, true],
            seq![true, true, true],
            seq![true, false, true],
            seq![true, false, true],
        ]
    } else if c == 'I' {
        // capital I
        seq![
            seq![true, true, true],
            seq![false, true, false],
            seq![false, true, false],
            seq![false, true, false],
            seq![true, true, true],
        ]
    } else if c == 'J' {
        // capital J
        seq![
            seq![false, false, true],
            seq![false, false, true],
            seq![false, false, true],
            seq![true, false, true],
            seq![true, true, true],
        ]
    } else if c == 'K' {
        // capital K
        seq![
            seq![true, false, true],
            seq![true, true, false],
            seq![true, false, false],
            seq![true, true, false],
            seq![true, false, true],
        ]
    } else if c == 'L' {
        // capital L
        seq![
            seq![true, false, false],
            seq![true, false, false],
            seq![true, false, false],
            seq![true, false, false],
            seq![true, true, true],
        ]
    } else if c == 'M' {
        // capital M
        seq![
            seq![true, false, false, false, true],
            seq![true, true, false, true, true],
            seq![true, false, true, false, true],
            seq![true, false, true, false, true],
            seq![true, false, false, false, true],
        ]
    } else if c == 'N' {
        // capital N
        seq![
            seq![true, false, false, true],
            seq![true, true, false, true],
            seq![true, false, true, true],
            seq![true, false, false, true],
            seq![true, false, false, true],
        ]
    } else if c == 'O' {
        // capital O
        seq![
            seq![true, true, true],
            seq![true, false, true],
            seq![true, false, true],
            seq![true, false, true],
            seq![true, true, true],
        ]
    } else if c == 'P' {
        // capital P
        seq![
            seq![true, true, true],
            seq![true, false, true],
            seq![true, true, true],
            seq![true, false, false],
            seq![true, false, false],
        ]
    } else {
        // unknown character: checkerboard
        seq![
            seq![true, false, true, false, true],
            seq![false, true, false, true, false],
            seq![true, false, true, false, true],
            seq![false, true, false, true, false],
            seq![true, false, true, false, true],
        ]
    }
}

/// Every glyph has five rows of one common width between 1 and 5.
pub proof fn lemma_glyph_shape(c: char)
    ensures
        glyph(c).len() == 5,
        1 <= glyph(c)[0].len() <= 5,
        forall|i: int| 0 <= i < 5 ==> #[trigger] glyph(c)[i].len() == glyph(c)[0].len(),
{
    reveal(glyph);
}

/// The glyph for `input`, as rows of pixels (`true` for ink). Characters without a glyph
/// of their own get the unknown-character checkerboard. No padding is included.
pub fn what_is_char(input: char) -> (rtn: Vec<Vec<bool>>)
    ensures
        rtn.deep_view() =~~= glyph(input),
{
    reveal(glyph);
    let rtn = if input == ' ' {
        vec![
            vec![false, false, false, false, false],
            vec![false, false, false, false, false],
            vec![false, false, false, false, false],
            vec![false, false, false, false, false],
            vec![false, false, false, false, false],
        ]
    } else if input == '!' {
        vec![
            vec![true],
            vec![true],
            vec![true],
            vec![false],
            vec![false],
        ]
    } else if input == '"' {
        vec![
            vec![true, false, true],
            vec![true, false, true],
            vec![false, false, false],
            vec![false, false, false],
            vec![false, false, false],
        ]
    } else if input == '#' {
        vec![
            vec![false, true, false, true, false],
            vec![true, true, true, true, true],
            vec![false, true, false, true, false],
            vec![true, true, true, true, true],
            vec![false, true, false, true, false],
        ]
    } else if input == '$' {
        vec![
            vec![true, true, true, true, true],
            vec![true, false, true, false, false],
            vec![true, true, true, true, true],
            vec![false, false, true, false, true],
            vec![true, true, true, true, true],
        ]
    } else if input == '%' {
        vec![
            vec![true, false, false, false, true],
            vec![false, false, false, true, false],
            vec![false, false, true, false, false],
            vec![false, true, false, false, false],
            vec![true, false, false, false, true],
        ]
    } else if input == '&' {
        vec![
            vec![false, true, true, true, false],
            vec![true, false, false, false, true],
            vec![false, true, true, false, false],
            vec![true, false, false, true, true],
            vec![false, true, true, false, true],
        ]
    } else if input == '\'' {
        vec![
            vec![true],
            vec![true],
            vec![false],
            vec![false],
            vec![false],
        ]
    } else if input == '(' {
        vec![
            vec![false, true],
            vec![true, false],
            vec![true, false],
            vec![true, false],
            vec![false, true],
        ]
    } else if input == ')' {
        vec![
            vec![true, false],
            vec![false, true],
            vec![false, true],
            vec![false, true],
            vec![true, false],
        ]
    } else if input == '*' {
        vec![
            vec![false, false, false],
            vec![true, false, true],
            vec![false, true, false],
            vec![true, false, true],
            vec![false, false, false],
        ]
    } else if input == '+' {
        vec![
            vec![false, false, false],
            vec![false, true, false],
            vec![true, true, true],
            vec![false, true, false],
            vec![false, false, false],
        ]
    } else if input == ',' {
        vec![
            vec![false, false],
            vec![false, false],
            vec![false, false],
            vec![false, true],
            vec![true, false],
        ]
    } else if input == '-' {
        vec![
            vec![false, false],
            vec![false, false],
            vec![true, true],
            vec![false, false],
            vec![false, false],
        ]
    } else if input == '.' {
        vec![
            vec![false],
            vec![false],
            vec![false],
            vec![false],
            vec![true],
        ]
    } else if input == '/' {
        vec![
            vec![false, false, true],
            vec![false, true, false],
            vec![false, true, false],
            vec![false, true, false],
            vec![true, false, false],
        ]
    } else if input == '0' {
        vec![
            vec![true, true, true],
            vec![true, false, true],
            vec![true, false, true],
            vec![true, false, true],
            vec![true, true, true],
        ]
    } else if input == '1' {
        vec![
            vec![false, true],
            vec![true, true],
            vec![false, true],
            vec![false, true],
            vec![false, true],
        ]
    } else if input == '2' {
        vec![
            vec![false, true, false],
            vec![true, false, true],
            vec![false, true, true],
            vec![true, false, false],
            vec![true, true, true],
        ]
    } else if input == '3' {
        vec![
            vec![true, true, true],
            vec![false, false, true],
            vec![true, true, true],
            vec![false, false, true],
            vec![true, true, true],
        ]
    } else if input == '4' {
        vec![
            vec![true, false, true],
            vec![true, false, true],
            vec![true, true, true],
            vec![false, false, true],
            vec![false, false, true],
        ]
    } else if input == '5' {
        vec![
            vec![true, true, true],
            vec![true, false, false],
            vec![false, true, true],
            vec![false, false, true],
            vec![true, true, true],
        ]
    } else if input == '6' {
        vec![
            vec![true, true, true],
            vec![true, false, false],
            vec![true, true, true],
            vec![true, false, true],
            vec![true, true, true],
        ]
    } else if input == '7' {
        vec![
            vec![true, true, true],
            vec![false, false, true],
            vec![false, true, false],
            vec![true, false, false],
            vec![true, false, false],
        ]
    } else if input == '8' {
        vec![
            vec![true, true, true],
            vec![true, false, true],
            vec![true, true, true],
            vec![true, false, true],
            vec![true, true, true],
        ]
    } else if input == '9' {
        vec![
            vec![true, true, true],
            vec![true, false, true],
            vec![true, true, true],
            vec![false, false, true],
            vec![false, false, true],
        ]
    } else if input == ':' {
        vec![
            vec![false],
            vec![true],
            vec![false],
            vec![true],
            vec![false],
        ]
    } else if input == ';' {
        vec![
            vec![false, false],
            vec![false, true],
            vec![false, false],
            vec![false, true],
            vec![true, false],
        ]
    } else if input == '<' {
        vec![
            vec![false, false],
            vec![false, true],
            vec![true, false],
            vec![false, true],
            vec![false, false],
        ]
    } else if input == '=' {
        vec![
            vec![false, false],
            vec![true, true],
            vec![false, false],
            vec![true, true],
            vec![false, false],
        ]
    } else if input == '>' {
        vec![
            vec![false, false],
            vec![true, false],
            vec![false, true],
            vec![true, false],
            vec![false, false],
        ]
    } else if input == '?' {
        vec![
            vec![true, true, true],
            vec![true, false, true],
            vec![false, true, false],
            vec![false, false, false],
            vec![false, true, false],
        ]
    } else if input == '@' {
        vec![
            vec![false, true, true, true, false],
            vec![true, false, false, false, true],
            vec![true, false, true, true, true],
            vec![true, false, true, false, true],
            vec![false, true, true, true, false],
        ]
    } else if input == 'A' {
        vec![
            vec![true, true, true],
            vec![true, false, true],
            vec![true, true, true],
            vec![true, false, true],
            vec![true, false, true],
        ]
    } else if input == 'B' {
        vec![
            vec![true, true, true],
            vec![true, false, true],
            vec![true, true, false],
            vec![true, false, true],
            vec![true, true, true],
        ]
    } else if input == 'C' {
        vec![
            vec![true, true, true],
            vec![true, false, false],
            vec![true, false, false],
            vec![true, false, false],
            vec![true, true, true],
        ]
    } else if input == 'D' {
        vec![
            vec![true, true, false],
            vec![true, false, true],
            vec![true, false, true],
            vec![true, false, true],
            vec![true, true, false],
        ]
    } else if input == 'E' {
        vec![
            vec![true, true, true],
            vec![true, false, false],
            vec![true, true, true],
            vec![true, false, false],
            vec![true, true, true],
        ]
    } else if input == 'F' {
        vec![
            vec![true, true, true],
            vec![true, false, false],
            vec![true, true, true],
            vec![true, false, false],
            vec![true, false, false],
        ]
    } else if input == 'G' {
        vec![
            vec![false, true, true, true],
            vec![true, false, false, false],
            vec![true, false, true, true],
            vec![true, false, false, true],
            vec![false, true, true, false],
        ]
    } else if input == 'H' {
        vec![
            vec![true, false, true],
            vec![true, false, true],
            vec![true, true, true],
            vec![true, false, true],
            vec![true, false, true],
        ]
    } else if input == 'I' {
        vec![
            vec![true, true, true],
            vec![false, true, false],
            vec![false, true, false],
            vec![false, true, false],
            vec![true, true, true],
        ]
    } else if input == 'J' {
        vec![
            vec![false, false, true],
            vec![false, false, true],
            vec![false, false, true],
            vec![true, false, true],
            vec![true, true, true],
        ]
    } else if input == 'K' {
        vec![
            vec![true, false, true],
            vec![true, true, false],
            vec![true, false, false],
            vec![true, true, false],
            vec![true, false, true],
        ]
    } else if input == 'L' {
        vec![
            vec![true, false, false],
            vec![true, false, false],
            vec![true, false, false],
            vec![true, false, false],
            vec![true, true, true],
        ]
    } else if input == 'M' {
        vec![
            vec![true, false, false, false, true],
            vec![true, true, false, true, true],
            vec![true, false, true, false, true],
            vec![true, false, true, false, true],
            vec![true, false, false, false, true],
        ]
    } else if input == 'N' {
        vec![
            vec![true, false, false, true],
            vec![true, true, false, true],
            vec![true, false, true, true],
            vec![true, false, false, true],
            vec![true, false, false, true],
        ]
    } else if input == 'O' {
        vec![
            vec![true, true, true],
            vec![true, false, true],
            vec![true, false, true],
            vec![true, false, true],
            vec![true, true, true],
        ]
    } else if input == 'P' {
        vec![
            vec![true, true, true],
            vec![true, false, true],
            vec![true, true, true],
            vec![true, false, false],
            vec![true, false, false],
        ]
    } else {
        vec![
            vec![true, false, true, false, true],
            vec![false, true, false, true, false],
            vec![true, false, true, false, true],
            vec![false, true, false, true, false],
            vec![true, false, true, false, true],
        ]
    };
    rtn
}

/// An `x` by `y` block of blank pixels.
pub fn add_padding(x: u8, y: u8) -> (rtn: Vec<Vec<bool>>)
    ensures
        rtn.deep_view() =~~= Seq::new(x as nat, |i: int| Seq::new(y as nat, |j: int| false)),
{
    let mut rtn: Vec<Vec<bool>> = Vec::new();
    let mut i: u8 = 0;
    while i < x
        invariant
            0 <= i <= x,
            rtn.deep_view() =~~= Seq::new(i as nat, |a: int| Seq::new(y as nat, |j: int| false)),
        decreases x - i,
    {
        let mut line: Vec<bool> = Vec::new();
        let mut j: u8 = 0;
        while j < y
            invariant
                0 <= j <= y,
                line@ =~= Seq::new(j as nat, |b: int| false),
            decreases y - j,
        {
            line.push(false);
            j += 1;
        }
        let ghost before = rtn.deep_view();
        rtn.push(line);
        assert(line.deep_view() =~= Seq::new(y as nat, |b: int| false));
        assert(rtn.deep_view() =~~= before.push(line.deep_view()));
        i += 1;
    }
    rtn
}

} // verus!
