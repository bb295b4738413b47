//! Terminal text styling: wrap a piece of text in ANSI escape sequences
//! chosen by a chain of builder calls, subject to a colorization policy.
//!
//! A [`ColoredString`] is an immutable value: the text, an optional
//! foreground color, an optional background color, and a set of style
//! attributes. Builder calls of the [`Colorize`] trait each return a new
//! value with one field changed; [`ColoredString::render`] produces the
//! final string, consulting a [`control::ShouldColorize`] policy.

pub mod color;
pub mod control;
pub mod style;

use vstd::prelude::*;

use crate::color::Color;
use crate::control::ShouldColorize;
use crate::style::{spec_style_params, Style, Styles};

verus! {

/// The mathematical content of a `ColoredString`: the characters of the
/// text, the two optional colors, and the style mask.
pub struct ColoredView {
    pub input: Seq<char>,
    pub fgcolor: Option<Color>,
    pub bgcolor: Option<Color>,
    pub style: u8,
}

impl ColoredView {
    /// The view of a plain, unstyled text.
    pub open spec fn plain(input: Seq<char>) -> ColoredView {
        ColoredView { input, fgcolor: None, bgcolor: None, style: 0 }
    }

    /// No color and no style attribute is set.
    pub open spec fn is_plain(self) -> bool {
        self.fgcolor is None && self.bgcolor is None && self.style == 0
    }

    pub open spec fn with_fg(self, c: Color) -> ColoredView {
        ColoredView { fgcolor: Some(c), ..self }
    }

    pub open spec fn with_bg(self, c: Color) -> ColoredView {
        ColoredView { bgcolor: Some(c), ..self }
    }

    pub open spec fn with_style(self, s: Styles) -> ColoredView {
        ColoredView { style: self.style | s.spec_mask(), ..self }
    }

    /// Every color and style removed; only the text remains.
    pub open spec fn cleared(self) -> ColoredView {
        ColoredView::plain(self.input)
    }

    /// The parameter list between `ESC[` and `m`: style digits first,
    /// then the background code, then the foreground code, adjacent
    /// sections separated by exactly one `;`.
    pub open spec fn params(self) -> Seq<char> {
        let st = spec_style_params(self.style);
        let bg = match self.bgcolor {
            Some(c) => c.spec_bg_code(),
            None => Seq::empty(),
        };
        let fg = match self.fgcolor {
            Some(c) => c.spec_fg_code(),
            None => Seq::empty(),
        };
        st + (if st.len() > 0 && bg.len() + fg.len() > 0 {
            seq![';']
        } else {
            Seq::empty()
        }) + bg + (if bg.len() > 0 && fg.len() > 0 {
            seq![';']
        } else {
            Seq::empty()
        }) + fg
    }

    /// What rendering returns: the text alone when colorization is off or
    /// nothing is set, else the text wrapped in the escape sequence and
    /// the reset sequence.
    pub open spec fn rendered(self, colorize: bool) -> Seq<char> {
        if !colorize || self.is_plain() {
            self.input
        } else {
            seq!['\u{1B}', '['] + self.params() + seq!['m'] + self.input + spec_reset()
        }
    }
}

/// The reset sequence appended after colored text.
pub open spec fn spec_reset() -> Seq<char> {
    seq!['\u{1B}', '[', '0', 'm']
}

/// A piece of text together with the colors and style attributes to
/// apply to it. Built by the `Colorize` methods, consumed by `render`.
#[derive(Debug, PartialEq, Eq)]
pub struct ColoredString {
    pub input: String,
    pub fgcolor: Option<Color>,
    pub bgcolor: Option<Color>,
    pub style: Style,
}

impl View for ColoredString {
    type V = ColoredView;

    open spec fn view(&self) -> ColoredView {
        ColoredView {
            input: self.input@,
            fgcolor: self.fgcolor,
            bgcolor: self.bgcolor,
            style: self.style.0,
        }
    }
}

/// The builder surface: anything that can be turned into a
/// `ColoredString` and styled further. Each method returns a new value
/// with one field changed: colors overwrite, style attributes accumulate.
pub trait Colorize: Sized {
    /// The view of the styled text that the receiver stands for.
    spec fn styled_view(self) -> ColoredView;

    /// The receiver as a `ColoredString`, with nothing changed.
    fn to_styled(self) -> (r: ColoredString)
        ensures
            r@ == self.styled_view(),
    ;

    fn black(self) -> (r: ColoredString)
        ensures
            r@ == self.styled_view().with_fg(Color::Black),
    {
        let mut c = self.to_styled();
        c.fgcolor = Some(Color::Black);
        c
    }

    fn red(self) -> (r: ColoredString)
        ensures
            r@ == self.styled_view().with_fg(Color::Red),
    {
        let mut c = self.to_styled();
        c.fgcolor = Some(Color::Red);
        c
    }

    fn green(self) -> (r: ColoredString)
        ensures
            r@ == self.styled_view().with_fg(Color::Green),
    {
        let mut c = self.to_styled();
        c.fgcolor = Some(Color::Green);
        c
    }

    fn yellow(self) -> (r: ColoredString)
        ensures
            r@ == self.styled_view().with_fg(Color::Yellow),
    {
        let mut c = self.to_styled();
        c.fgcolor = Some(Color::Yellow);
        c
    }

    fn blue(self) -> (r: ColoredString)
        ensures
            r@ == self.styled_view().with_fg(Color::Blue),
    {
        let mut c = self.to_styled();
        c.fgcolor = Some(Color::Blue);
        c
    }

    fn magenta(self) -> (r: ColoredString)
        ensures
            r@ == self.styled_view().with_fg(Color::Magenta),
    {
        let mut c = self.to_styled();
        c.fgcolor = Some(Color::Magenta);
        c
    }

    /// An alias: purple is the magenta variant under another name.
    fn purple(self) -> (r: ColoredString)
        ensures
            r@ == self.styled_view().with_fg(Color::Magenta),
    {
        let mut c = self.to_styled();
        c.fgcolor = Some(Color::Magenta);
        c
    }

    fn cyan(self) -> (r: ColoredString)
        ensures
            r@ == self.styled_view().with_fg(Color::Cyan),
    {
        let mut c = self.to_styled();
        c.fgcolor = Some(Color::Cyan);
        c
    }

    fn white(self) -> (r: ColoredString)
        ensures
            r@ == self.styled_view().with_fg(Color::White),
    {
        let mut c = self.to_styled();
        c.fgcolor = Some(Color::White);
        c
    }

    fn on_black(self) -> (r: ColoredString)
        ensures
            r@ == self.styled_view().with_bg(Color::Black),
    {
        let mut c = self.to_styled();
        c.bgcolor = Some(Color::Black);
        c
    }

    fn on_red(self) -> (r: ColoredString)
        ensures
            r@ == self.styled_view().with_bg(Color::Red),
    {
        let mut c = self.to_styled();
        c.bgcolor = Some(Color::Red);
        c
    }

    fn on_green(self) -> (r: ColoredString)
        ensures
            r@ == self.styled_view().with_bg(Color::Green),
    {
        let mut c = self.to_styled();
        c.bgcolor = Some(Color::Green);
        c
    }

    fn on_yellow(self) -> (r: ColoredString)
        ensures
            r@ == self.styled_view().with_bg(Color::Yellow),
    {
        let mut c = self.to_styled();
        c.bgcolor = Some(Color::Yellow);
        c
    }

    fn on_blue(self) -> (r: ColoredString)
        ensures
            r@ == self.styled_view().with_bg(Color::Blue),
    {
        let mut c = self.to_styled();
        c.bgcolor = Some(Color::Blue);
        c
    }

    fn on_magenta(self) -> (r: ColoredString)
        ensures
            r@ == self.styled_view().with_bg(Color::Magenta),
    {
        let mut c = self.to_styled();
        c.bgcolor = Some(Color::Magenta);
        c
    }

    /// An alias: purple is the magenta variant under another name.
    fn on_purple(self) -> (r: ColoredString)
        ensures
            r@ == self.styled_view().with_bg(Color::Magenta),
    {
        let mut c = self.to_styled();
        c.bgcolor = Some(Color::Magenta);
        c
    }

    fn on_cyan(self) -> (r: ColoredString)
        ensures
            r@ == self.styled_view().with_bg(Color::Cyan),
    {
        let mut c = self.to_styled();
        c.bgcolor = Some(Color::Cyan);
        c
    }

    fn on_white(self) -> (r: ColoredString)
        ensures
            r@ == self.styled_view().with_bg(Color::White),
    {
        let mut c = self.to_styled();
        c.bgcolor = Some(Color::White);
        c
    }

    /// Removes every color and style attribute, keeping the text.
    fn clear(self) -> (r: ColoredString)
        ensures
            r@ == self.styled_view().cleared(),
    {
        let c = self.to_styled();
        ColoredString { input: c.input, fgcolor: None, bgcolor: None, style: Style(0) }
    }

    /// An alias for `clear`.
    fn normal(self) -> (r: ColoredString)
        ensures
            r@ == self.styled_view().cleared(),
    {
        self.clear()
    }

    fn bold(self) -> (r: ColoredString)
        ensures
            r@ == self.styled_view().with_style(Styles::Bold),
    {
        let mut c = self.to_styled();
        c.style = Style::from_both(c.style, Styles::Bold);
        c
    }

    fn dimmed(self) -> (r: ColoredString)
        ensures
            r@ == self.styled_view().with_style(Styles::Dimmed),
    {
        let mut c = self.to_styled();
        c.style = Style::from_both(c.style, Styles::Dimmed);
        c
    }

    fn italic(self) -> (r: ColoredString)
        ensures
            r@ == self.styled_view().with_style(Styles::Italic),
    {
        let mut c = self.to_styled();
        c.style = Style::from_both(c.style, Styles::Italic);
        c
    }

    fn underline(self) -> (r: ColoredString)
        ensures
            r@ == self.styled_view().with_style(Styles::Underline),
    {
        let mut c = self.to_styled();
        c.style = Style::from_both(c.style, Styles::Underline);
        c
    }

    fn blink(self) -> (r: ColoredString)
        ensures
            r@ == self.styled_view().with_style(Styles::Blink),
    {
        let mut c = self.to_styled();
        c.style = Style::from_both(c.style, Styles::Blink);
        c
    }

    fn reverse(self) -> (r: ColoredString)
        ensures
            r@ == self.styled_view().with_style(Styles::Reversed),
    {
        let mut c = self.to_styled();
        c.style = Style::from_both(c.style, Styles::Reversed);
        c
    }

    fn hidden(self) -> (r: ColoredString)
        ensures
            r@ == self.styled_view().with_style(Styles::Hidden),
    {
        let mut c = self.to_styled();
        c.style = Style::from_both(c.style, Styles::Hidden);
        c
    }
}

impl Colorize for ColoredString {
    open spec fn styled_view(self) -> ColoredView {
        self@
    }

    fn to_styled(self) -> (r: ColoredString) {
        self
    }
}

impl<'a> Colorize for &'a str {
    open spec fn styled_view(self) -> ColoredView {
        ColoredView::plain(self@)
    }

    fn to_styled(self) -> (r: ColoredString) {
        ColoredString { input: self.to_owned(), fgcolor: None, bgcolor: None, style: Style(0) }
    }
}

impl ColoredString {
    /// No color and no style attribute is set, so rendering returns the
    /// text unchanged whatever the policy says.
    pub fn is_plain(&self) -> (r: bool)
        ensures
            r == self@.is_plain(),
    {
        self.bgcolor.is_none() && self.fgcolor.is_none() && self.style.0 == 0
    }

    /// The display string: the text as it stands when the policy refuses
    /// colorization or nothing is set, else `ESC[`, the parameter list,
    /// `m`, the text, and the reset sequence `ESC[0m`.
    pub fn render(&self, policy: &ShouldColorize) -> (r: String)
        ensures
            r@ == self@.rendered(policy.spec_should_colorize()),
    {
        if !policy.should_colorize() || self.is_plain() {
            return self.input.clone();
        }
        proof {
            reveal_strlit("\u{1B}[");
            reveal_strlit(";");
            reveal_strlit("m");
            reveal_strlit("\u{1B}[0m");
        }
        let ghost st = spec_style_params(self.style.0);
        let ghost bgs: Seq<char> = match self.bgcolor {
            Some(c) => c.spec_bg_code(),
            None => Seq::empty(),
        };
        let mut res = String::from_str("\u{1B}[");
        let style_str = self.style.to_str();
        let mut has_wrote = false;
        if !style_str.as_str().is_empty() {
            res.append(style_str.as_str());
            has_wrote = true;
        }
        proof {
            assert(res@ =~= seq!['\u{1B}', '['] + st);
            assert(has_wrote == (st.len() > 0));
        }
        if let Some(color) = &self.bgcolor {
            if has_wrote {
                res.append(";");
            }
            res.append(color.to_bg_str());
            has_wrote = true;
        }
        proof {
            assert(res@ =~= seq!['\u{1B}', '['] + st + (if st.len() > 0 && bgs.len() > 0 {
                seq![';']
            } else {
                Seq::empty()
            }) + bgs);
            assert(has_wrote == (st.len() > 0 || bgs.len() > 0));
        }
        if let Some(color) = &self.fgcolor {
            if has_wrote {
                res.append(";");
            }
            res.append(color.to_fg_str());
        }
        proof {
            assert(res@ =~= seq!['\u{1B}', '['] + self@.params());
        }
        res.append("m");
        res.append(self.input.as_str());
        res.append("\u{1B}[0m");
        proof {
            assert(res@ =~= self@.rendered(true));
        }
        res
    }
}

impl Default for ColoredString {
    /// An empty text with nothing set.
    fn default() -> (r: ColoredString)
        ensures
            r@ == ColoredView::plain(Seq::<char>::empty()),
    {
        ColoredString { input: String::new(), fgcolor: None, bgcolor: None, style: Style(0) }
    }
}

/// Rendering a plain value is the identity on its text, under every
/// colorization decision.
pub proof fn lemma_plain_render_identity(v: ColoredView, colorize: bool)
    requires
        v.is_plain(),
    ensures
        v.rendered(colorize) == v.input,
{
}

/// After `cleared`, rendering is the identity on the text, under every
/// colorization decision, whatever was set before.
pub proof fn lemma_clear_render_identity(v: ColoredView, colorize: bool)
    ensures
        v.cleared().rendered(colorize) == v.input,
{
}

/// With anything set and colorization on, the rendering starts with
/// `ESC[` and ends with the text followed by the reset sequence.
pub proof fn lemma_colored_render_framed(v: ColoredView)
    requires
        !v.is_plain(),
    ensures
        v.rendered(true).len() == 2 + v.params().len() + 1 + v.input.len() + 4,
        v.rendered(true)[0] == '\u{1B}',
        v.rendered(true)[1] == '[',
        v.rendered(true).skip(v.rendered(true).len() - v.input.len() - 4) == v.input
            + spec_reset(),
{
    let r = v.rendered(true);
    assert(r.skip(r.len() - v.input.len() - 4) =~= v.input + spec_reset());
}

/// Builder calls that add style attributes commute: the two orders give
/// the very same value, and so render identically under every
/// colorization decision.
pub proof fn lemma_with_style_commutes(v: ColoredView, a: Styles, b: Styles, colorize: bool)
    ensures
        v.with_style(a).with_style(b) == v.with_style(b).with_style(a),
        v.with_style(a).with_style(b).rendered(colorize) == v.with_style(b).with_style(
            a,
        ).rendered(colorize),
{
    crate::style::lemma_style_union_commutes(v.style, a, b);
}

/// Adding the same style attribute twice gives the very same value as
/// adding it once, and so renders identically under every colorization
/// decision.
pub proof fn lemma_with_style_idempotent(v: ColoredView, a: Styles, colorize: bool)
    ensures
        v.with_style(a).with_style(a) == v.with_style(a),
        v.with_style(a).with_style(a).rendered(colorize) == v.with_style(a).rendered(colorize),
{
    crate::style::lemma_style_union_idempotent(v.style, a);
}

} // verus!
