//! Style attributes (bold, dimmed, ...) encoded as bits of a byte-sized
//! mask, and the serialization of a mask to the ANSI parameter list.

use vstd::prelude::*;

verus! {

/// One toggleable display attribute. `Clear` stands for "no attribute":
/// it has no bit and no parameter digit.
#[derive(Clone, Copy, Debug, PartialEq, Eq, Structural)]
pub enum Styles {
    Clear,
    Bold,
    Dimmed,
    Underline,
    Reversed,
    Italic,
    Blink,
    Hidden,
}

/// The attributes that carry a bit, in ascending order of their masks.
/// This is the order in which a mask is decoded and serialized.
pub open spec fn spec_style_order() -> Seq<Styles> {
    seq![
        Styles::Bold,
        Styles::Dimmed,
        Styles::Italic,
        Styles::Underline,
        Styles::Blink,
        Styles::Reversed,
        Styles::Hidden,
    ]
}

impl Styles {
    /// The single bit that marks this attribute inside a style mask.
    pub open spec fn spec_mask(self) -> u8 {
        match self {
            Styles::Clear => 0,
            Styles::Bold => 1,
            Styles::Dimmed => 2,
            Styles::Italic => 4,
            Styles::Underline => 8,
            Styles::Blink => 16,
            Styles::Reversed => 32,
            Styles::Hidden => 64,
        }
    }

    /// The attribute's ANSI parameter digit.
    pub open spec fn spec_digit(self) -> Seq<char> {
        match self {
            Styles::Clear => Seq::empty(),
            Styles::Bold => seq!['1'],
            Styles::Dimmed => seq!['2'],
            Styles::Italic => seq!['3'],
            Styles::Underline => seq!['4'],
            Styles::Blink => seq!['5'],
            Styles::Reversed => seq!['6'],
            Styles::Hidden => seq!['7'],
        }
    }

    pub fn to_str(self) -> (r: &'static str)
        ensures
            r@ == self.spec_digit(),
    {
        proof {
            reveal_strlit("");
            reveal_strlit("1");
            reveal_strlit("2");
            reveal_strlit("3");
            reveal_strlit("4");
            reveal_strlit("5");
            reveal_strlit("6");
            reveal_strlit("7");
        }
        match self {
            Styles::Clear => "",
            Styles::Bold => "1",
            Styles::Dimmed => "2",
            Styles::Italic => "3",
            Styles::Underline => "4",
            Styles::Blink => "5",
            Styles::Reversed => "6",
            Styles::Hidden => "7",
        }
    }

    pub fn to_u8(self) -> (r: u8)
        ensures
            r == self.spec_mask(),
    {
        match self {
            Styles::Clear => 0,
            Styles::Bold => 1,
            Styles::Dimmed => 2,
            Styles::Italic => 4,
            Styles::Underline => 8,
            Styles::Blink => 16,
            Styles::Reversed => 32,
            Styles::Hidden => 64,
        }
    }

    /// Decodes a mask into the attributes whose bit is set, in ascending
    /// mask order; `None` when no known bit is set. Bits beyond the seven
    /// known ones are ignored.
    pub fn from_u8(u: u8) -> (r: Option<Vec<Styles>>)
        ensures
            match r {
                None => spec_decode(u).len() == 0,
                Some(v) => v@ == spec_decode(u) && spec_decode(u).len() > 0,
            },
    {
        let mut res: Vec<Styles> = Vec::new();
        if u & 1 != 0 {
            res.push(Styles::Bold);
        }
        if u & 2 != 0 {
            res.push(Styles::Dimmed);
        }
        if u & 4 != 0 {
            res.push(Styles::Italic);
        }
        if u & 8 != 0 {
            res.push(Styles::Underline);
        }
        if u & 16 != 0 {
            res.push(Styles::Blink);
        }
        if u & 32 != 0 {
            res.push(Styles::Reversed);
        }
        if u & 64 != 0 {
            res.push(Styles::Hidden);
        }
        proof {
            assert(res@ =~= spec_decode(u));
        }
        if res.is_empty() {
            None
        } else {
            Some(res)
        }
    }
}

/// The singleton list holding `s` when its bit is set in `u`, else empty.
pub open spec fn spec_decode_one(u: u8, s: Styles) -> Seq<Styles> {
    if u & s.spec_mask() != 0 {
        seq![s]
    } else {
        Seq::empty()
    }
}

/// The attributes whose bit is set in `u`, in ascending mask order.
pub open spec fn spec_decode(u: u8) -> Seq<Styles> {
    spec_decode_one(u, Styles::Bold) + spec_decode_one(u, Styles::Dimmed)
        + spec_decode_one(u, Styles::Italic) + spec_decode_one(u, Styles::Underline)
        + spec_decode_one(u, Styles::Blink) + spec_decode_one(u, Styles::Reversed)
        + spec_decode_one(u, Styles::Hidden)
}

/// The parameter digits of the listed attributes joined with `;`,
/// with no leading or trailing separator.
pub open spec fn spec_join_digits(l: Seq<Styles>) -> Seq<char>
    decreases l.len(),
{
    if l.len() == 0 {
        Seq::empty()
    } else if l.len() == 1 {
        l[0].spec_digit()
    } else {
        spec_join_digits(l.drop_last()) + seq![';'] + l.last().spec_digit()
    }
}

/// The full ANSI parameter list of a style mask.
pub open spec fn spec_style_params(u: u8) -> Seq<char> {
    spec_join_digits(spec_decode(u))
}

/// A set of style attributes, stored as the union of their bits.
#[derive(Clone, Copy, Debug, PartialEq, Eq, Structural)]
pub struct Style(pub u8);

impl Style {
    /// Serializes the mask: the digits of the set attributes in ascending
    /// mask order, separated by `;`; empty when no known bit is set.
    pub fn to_str(&self) -> (r: String)
        ensures
            r@ == spec_style_params(self.0),
    {
        let styles = match Styles::from_u8(self.0) {
            None => {
                return String::new();
            },
            Some(s) => s,
        };
        let mut res = String::new();
        let mut i: usize = 0;
        proof {
            reveal_strlit(";");
        }
        while i < styles.len()
            invariant
                i <= styles.len(),
                styles@ == spec_decode(self.0),
                styles@.len() > 0,
                res@ == spec_join_digits(styles@.take(i as int)),
            decreases styles.len() - i,
        {
            proof {
                assert(styles@.take(i + 1).drop_last() =~= styles@.take(i as int));
                assert(styles@.take(i + 1).last() == styles@[i as int]);
            }
            if i > 0 {
                res.append(";");
            }
            res.append(styles[i].to_str());
            proof {
                reveal_strlit(";");
                if i == 0 {
                    assert(res@ =~= spec_join_digits(styles@.take(1)));
                }
            }
            i = i + 1;
        }
        proof {
            assert(styles@.take(styles@.len() as int) =~= styles@);
        }
        res
    }

    pub fn new(from: Styles) -> (r: Style)
        ensures
            r.0 == from.spec_mask(),
    {
        Style(from.to_u8())
    }

    /// The union of a style set and one more attribute.
    pub fn from_both(one: Style, two: Styles) -> (r: Style)
        ensures
            r.0 == (one.0 | two.spec_mask()),
    {
        Style(one.0 | two.to_u8())
    }
}

/// Adding attributes commutes: a style set remembers which attributes it
/// holds, not the order in which they arrived.
pub proof fn lemma_style_union_commutes(m: u8, a: Styles, b: Styles)
    ensures
        ((m | a.spec_mask()) | b.spec_mask()) == ((m | b.spec_mask()) | a.spec_mask()),
{
    let x = a.spec_mask();
    let y = b.spec_mask();
    assert(((m | x) | y) == ((m | y) | x)) by (bit_vector);
}

/// Adding an attribute twice is the same as adding it once.
pub proof fn lemma_style_union_idempotent(m: u8, a: Styles)
    ensures
        ((m | a.spec_mask()) | a.spec_mask()) == (m | a.spec_mask()),
{
    let x = a.spec_mask();
    assert(((m | x) | x) == (m | x)) by (bit_vector);
}

} // verus!
