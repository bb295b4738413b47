//! The eight base ANSI colors and their numeric SGR codes.

use vstd::prelude::*;

verus! {

/// One of the eight base terminal colors.
#[derive(Clone, Copy, Debug, PartialEq, Eq, Structural)]
pub enum Color {
    Black,
    Red,
    Green,
    Yellow,
    Blue,
    Magenta,
    Cyan,
    White,
}

impl Color {
    /// The two-digit foreground code, "30" through "37".
    pub open spec fn spec_fg_code(self) -> Seq<char> {
        match self {
            Color::Black => seq!['3', '0'],
            Color::Red => seq!['3', '1'],
            Color::Green => seq!['3', '2'],
            Color::Yellow => seq!['3', '3'],
            Color::Blue => seq!['3', '4'],
            Color::Magenta => seq!['3', '5'],
            Color::Cyan => seq!['3', '6'],
            Color::White => seq!['3', '7'],
        }
    }

    /// The two-digit background code, "40" through "47".
    pub open spec fn spec_bg_code(self) -> Seq<char> {
        match self {
            Color::Black => seq!['4', '0'],
            Color::Red => seq!['4', '1'],
            Color::Green => seq!['4', '2'],
            Color::Yellow => seq!['4', '3'],
            Color::Blue => seq!['4', '4'],
            Color::Magenta => seq!['4', '5'],
            Color::Cyan => seq!['4', '6'],
            Color::White => seq!['4', '7'],
        }
    }

    pub fn to_fg_str(&self) -> (r: &'static str)
        ensures
            r@ == self.spec_fg_code(),
            r@.len() == 2,
    {
        proof {
            reveal_strlit("30");
            reveal_strlit("31");
            reveal_strlit("32");
            reveal_strlit("33");
            reveal_strlit("34");
            reveal_strlit("35");
            reveal_strlit("36");
            reveal_strlit("37");
        }
        match *self {
            Color::Black => "30",
            Color::Red => "31",
            Color::Green => "32",
            Color::Yellow => "33",
            Color::Blue => "34",
            Color::Magenta => "35",
            Color::Cyan => "36",
            Color::White => "37",
        }
    }

    pub fn to_bg_str(&self) -> (r: &'static str)
        ensures
            r@ == self.spec_bg_code(),
            r@.len() == 2,
    {
        proof {
            reveal_strlit("40");
            reveal_strlit("41");
            reveal_strlit("42");
            reveal_strlit("43");
            reveal_strlit("44");
            reveal_strlit("45");
            reveal_strlit("46");
            reveal_strlit("47");
        }
        match *self {
            Color::Black => "40",
            Color::Red => "41",
            Color::Green => "42",
            Color::Yellow => "43",
            Color::Blue => "44",
            Color::Magenta => "45",
            Color::Cyan => "46",
            Color::White => "47",
        }
    }
}

/// The code tables form a total, injective mapping: distinct colors have
/// distinct foreground codes and distinct background codes, and no
/// foreground code ever equals a background code.
pub proof fn lemma_color_codes_injective(c1: Color, c2: Color)
    ensures
        c1 != c2 ==> c1.spec_fg_code() != c2.spec_fg_code(),
        c1 != c2 ==> c1.spec_bg_code() != c2.spec_bg_code(),
        c1.spec_fg_code() != c2.spec_bg_code(),
        c1.spec_fg_code().len() == 2,
        c1.spec_bg_code().len() == 2,
{
    assert(c1.spec_fg_code()[0] == '3');
    assert(c2.spec_bg_code()[0] == '4');
    if c1 != c2 {
        assert(c1.spec_fg_code()[1] != c2.spec_fg_code()[1]);
        assert(c1.spec_bg_code()[1] != c2.spec_bg_code()[1]);
    }
}

} // verus!
