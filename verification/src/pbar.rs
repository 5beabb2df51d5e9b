//! The progress-bar engine: a single mutable record of display configuration
//! that renders a one-line bar deterministically from its state, tracks the
//! width of the previous render so it can be blanked, and applies ordered
//! update events one at a time.
//!
//! The engine computes plain character sequences; a caller writes them to its
//! terminal. Completion is held in per-mille units: an integer number of
//! thousandths, always between 0 and 1000 inclusive.

use vstd::prelude::*;
use crate::strbuf::{
    dec_rep, digit_char, digit_of, lemma_dec_rep_len, push_char, push_decimal, push_repeat,
    repeat_char,
};
use crate::text::{escape_seq, Style};

verus! {

/// A Unicode character commonly used in the body of a progress bar.
#[derive(Debug, Clone, Copy, PartialEq, Eq, Structural)]
pub enum BarChar {
    NumberSign,
    EqualSign,
    LowLine,
    FullBlock,
    LightShade,
    MediumShade,
    DarkShade,
    BlackSquare,
    WhiteSquare,
    SquareWithHorizontalFill,
    SquareWithVerticalFill,
    SquareWithOrthogonalCrosshatchFill,
    SquareWithUpperLeftToLowerRightFill,
    SquareWithUpperRightToLowerLeftFill,
    SquareWithDiagonalCrosshatchFill,
    BlackSmallSquare,
    WhiteSmallSquare,
    BlackRectangle,
    WhiteRectangle,
    BlackVerticalRectangle,
    WhiteVerticalRectangle,
    BlackParallelogram,
    WhiteParallelogram,
    WhiteMediumSquare,
    BlackMediumSquare,
    WhiteMediumSmallSquare,
    BlackMediumSmallSquare,
    PlayingCardAceOfSpades,
}

/// The code point each glyph renders as.
pub open spec fn glyph_char(g: BarChar) -> char {
    match g {
        BarChar::NumberSign => '\u{0023}',
        BarChar::EqualSign => '\u{003D}',
        BarChar::LowLine => '\u{005F}',
        BarChar::FullBlock => '\u{2588}',
        BarChar::LightShade => '\u{2591}',
        BarChar::MediumShade => '\u{2592}',
        BarChar::DarkShade => '\u{2593}',
        BarChar::BlackSquare => '\u{25A0}',
        BarChar::WhiteSquare => '\u{25A1}',
        BarChar::SquareWithHorizontalFill => '\u{25A4}',
        BarChar::SquareWithVerticalFill => '\u{25A5}',
        BarChar::SquareWithOrthogonalCrosshatchFill => '\u{25A6}',
        BarChar::SquareWithUpperLeftToLowerRightFill => '\u{25A7}',
        BarChar::SquareWithUpperRightToLowerLeftFill => '\u{25A8}',
        BarChar::SquareWithDiagonalCrosshatchFill => '\u{25A9}',
        BarChar::BlackSmallSquare => '\u{25AA}',
        BarChar::WhiteSmallSquare => '\u{25AB}',
        BarChar::BlackRectangle => '\u{25AC}',
        BarChar::WhiteRectangle => '\u{25AD}',
        BarChar::BlackVerticalRectangle => '\u{25AE}',
        BarChar::WhiteVerticalRectangle => '\u{25AF}',
        BarChar::BlackParallelogram => '\u{25B0}',
        BarChar::WhiteParallelogram => '\u{25B1}',
        BarChar::WhiteMediumSquare => '\u{25FB}',
        BarChar::BlackMediumSquare => '\u{25FC}',
        BarChar::WhiteMediumSmallSquare => '\u{25FD}',
        BarChar::BlackMediumSmallSquare => '\u{25FE}',
        BarChar::PlayingCardAceOfSpades => '\u{1F0A1}',
    }
}

/// The glyph a character maps back to; every character outside the enumerated
/// set maps to the full block.
pub open spec fn glyph_of_char(c: char) -> BarChar {
    if c == '\u{0023}' {
        BarChar::NumberSign
    } else if c == '\u{003D}' {
        BarChar::EqualSign
    } else if c == '\u{005F}' {
        BarChar::LowLine
    } else if c == '\u{2591}' {
        BarChar::LightShade
    } else if c == '\u{2592}' {
        BarChar::MediumShade
    } else if c == '\u{2593}' {
        BarChar::DarkShade
    } else if c == '\u{25A0}' {
        BarChar::BlackSquare
    } else if c == '\u{25A1}' {
        BarChar::WhiteSquare
    } else if c == '\u{25A4}' {
        BarChar::SquareWithHorizontalFill
    } else if c == '\u{25A5}' {
        BarChar::SquareWithVerticalFill
    } else if c == '\u{25A6}' {
        BarChar::SquareWithOrthogonalCrosshatchFill
    } else if c == '\u{25A7}' {
        BarChar::SquareWithUpperLeftToLowerRightFill
    } else if c == '\u{25A8}' {
        BarChar::SquareWithUpperRightToLowerLeftFill
    } else if c == '\u{25A9}' {
        BarChar::SquareWithDiagonalCrosshatchFill
    } else if c == '\u{25AA}' {
        BarChar::BlackSmallSquare
    } else if c == '\u{25AB}' {
        BarChar::WhiteSmallSquare
    } else if c == '\u{25AC}' {
        BarChar::BlackRectangle
    } else if c == '\u{25AD}' {
        BarChar::WhiteRectangle
    } else if c == '\u{25AE}' {
        BarChar::BlackVerticalRectangle
    } else if c == '\u{25AF}' {
        BarChar::WhiteVerticalRectangle
    } else if c == '\u{25B0}' {
        BarChar::BlackParallelogram
    } else if c == '\u{25B1}' {
        BarChar::WhiteParallelogram
    } else if c == '\u{25FB}' {
        BarChar::WhiteMediumSquare
    } else if c == '\u{25FC}' {
        BarChar::BlackMediumSquare
    } else if c == '\u{25FD}' {
        BarChar::WhiteMediumSmallSquare
    } else if c == '\u{25FE}' {
        BarChar::BlackMediumSmallSquare
    } else if c == '\u{1F0A1}' {
        BarChar::PlayingCardAceOfSpades
    } else {
        BarChar::FullBlock
    }
}

/// A character is recognized when some glyph renders as it.
pub open spec fn is_glyph_char(c: char) -> bool {
    exists|g: BarChar| glyph_char(g) == c
}

impl BarChar {
    /// The character this glyph renders as.
    pub fn to_char(self) -> (c: char)
        ensures
            c == glyph_char(self),
    {
        match self {
            BarChar::NumberSign => '\u{0023}',
            BarChar::EqualSign => '\u{003D}',
            BarChar::LowLine => '\u{005F}',
            BarChar::FullBlock => '\u{2588}',
            BarChar::LightShade => '\u{2591}',
            BarChar::MediumShade => '\u{2592}',
            BarChar::DarkShade => '\u{2593}',
            BarChar::BlackSquare => '\u{25A0}',
            BarChar::WhiteSquare => '\u{25A1}',
            BarChar::SquareWithHorizontalFill => '\u{25A4}',
            BarChar::SquareWithVerticalFill => '\u{25A5}',
            BarChar::SquareWithOrthogonalCrosshatchFill => '\u{25A6}',
            BarChar::SquareWithUpperLeftToLowerRightFill => '\u{25A7}',
            BarChar::SquareWithUpperRightToLowerLeftFill => '\u{25A8}',
            BarChar::SquareWithDiagonalCrosshatchFill => '\u{25A9}',
            BarChar::BlackSmallSquare => '\u{25AA}',
            BarChar::WhiteSmallSquare => '\u{25AB}',
            BarChar::BlackRectangle => '\u{25AC}',
            BarChar::WhiteRectangle => '\u{25AD}',
            BarChar::BlackVerticalRectangle => '\u{25AE}',
            BarChar::WhiteVerticalRectangle => '\u{25AF}',
            BarChar::BlackParallelogram => '\u{25B0}',
            BarChar::WhiteParallelogram => '\u{25B1}',
            BarChar::WhiteMediumSquare => '\u{25FB}',
            BarChar::BlackMediumSquare => '\u{25FC}',
            BarChar::WhiteMediumSmallSquare => '\u{25FD}',
            BarChar::BlackMediumSmallSquare => '\u{25FE}',
            BarChar::PlayingCardAceOfSpades => '\u{1F0A1}',
        }
    }

    /// The glyph a character stands for; an unrecognized character yields
    /// `BarChar::FullBlock` rather than failing.
    pub fn from_char(c: char) -> (g: BarChar)
        ensures
            g == glyph_of_char(c),
    {
        if c == '\u{0023}' {
            BarChar::NumberSign
        } else if c == '\u{003D}' {
            BarChar::EqualSign
        } else if c == '\u{005F}' {
            BarChar::LowLine
        } else if c == '\u{2591}' {
            BarChar::LightShade
        } else if c == '\u{2592}' {
            BarChar::MediumShade
        } else if c == '\u{2593}' {
            BarChar::DarkShade
        } else if c == '\u{25A0}' {
            BarChar::BlackSquare
        } else if c == '\u{25A1}' {
            BarChar::WhiteSquare
        } else if c == '\u{25A4}' {
            BarChar::SquareWithHorizontalFill
        } else if c == '\u{25A5}' {
            BarChar::SquareWithVerticalFill
        } else if c == '\u{25A6}' {
            BarChar::SquareWithOrthogonalCrosshatchFill
        } else if c == '\u{25A7}' {
            BarChar::SquareWithUpperLeftToLowerRightFill
        } else if c == '\u{25A8}' {
            BarChar::SquareWithUpperRightToLowerLeftFill
        } else if c == '\u{25A9}' {
            BarChar::SquareWithDiagonalCrosshatchFill
        } else if c == '\u{25AA}' {
            BarChar::BlackSmallSquare
        } else if c == '\u{25AB}' {
            BarChar::WhiteSmallSquare
        } else if c == '\u{25AC}' {
            BarChar::BlackRectangle
        } else if c == '\u{25AD}' {
            BarChar::WhiteRectangle
        } else if c == '\u{25AE}' {
            BarChar::BlackVerticalRectangle
        } else if c == '\u{25AF}' {
            BarChar::WhiteVerticalRectangle
        } else if c == '\u{25B0}' {
            BarChar::BlackParallelogram
        } else if c == '\u{25B1}' {
            BarChar::WhiteParallelogram
        } else if c == '\u{25FB}' {
            BarChar::WhiteMediumSquare
        } else if c == '\u{25FC}' {
            BarChar::BlackMediumSquare
        } else if c == '\u{25FD}' {
            BarChar::WhiteMediumSmallSquare
        } else if c == '\u{25FE}' {
            BarChar::BlackMediumSmallSquare
        } else if c == '\u{1F0A1}' {
            BarChar::PlayingCardAceOfSpades
        } else {
            BarChar::FullBlock
        }
    }
}

impl From<char> for BarChar {
    /// The glyph a character stands for, with the full block for anything
    /// unrecognized, as `from_char`.
    fn from(c: char) -> (g: BarChar)
        ensures
            g == glyph_of_char(c),
    {
        BarChar::from_char(c)
    }
}

impl vstd::std_specs::convert::FromSpecImpl<char> for BarChar {
    open spec fn obeys_from_spec() -> bool {
        true
    }

    open spec fn from_spec(c: char) -> BarChar {
        glyph_of_char(c)
    }
}

/// Converting a glyph to its character and back yields the same glyph.
pub proof fn lemma_glyph_round_trip(g: BarChar)
    ensures
        glyph_of_char(glyph_char(g)) == g,
{
}

/// Every character outside the enumerated glyph set maps to the full block.
pub proof fn lemma_unknown_char_is_full_block(c: char)
    requires
        !is_glyph_char(c),
    ensures
        glyph_of_char(c) == BarChar::FullBlock,
{
    assert(glyph_char(BarChar::NumberSign) == '\u{0023}');
    assert(glyph_char(BarChar::EqualSign) == '\u{003D}');
    assert(glyph_char(BarChar::LowLine) == '\u{005F}');
    assert(glyph_char(BarChar::FullBlock) == '\u{2588}');
    assert(glyph_char(BarChar::LightShade) == '\u{2591}');
    assert(glyph_char(BarChar::MediumShade) == '\u{2592}');
    assert(glyph_char(BarChar::DarkShade) == '\u{2593}');
    assert(glyph_char(BarChar::BlackSquare) == '\u{25A0}');
    assert(glyph_char(BarChar::WhiteSquare) == '\u{25A1}');
    assert(glyph_char(BarChar::SquareWithHorizontalFill) == '\u{25A4}');
    assert(glyph_char(BarChar::SquareWithVerticalFill) == '\u{25A5}');
    assert(glyph_char(BarChar::SquareWithOrthogonalCrosshatchFill) == '\u{25A6}');
    assert(glyph_char(BarChar::SquareWithUpperLeftToLowerRightFill) == '\u{25A7}');
    assert(glyph_char(BarChar::SquareWithUpperRightToLowerLeftFill) == '\u{25A8}');
    assert(glyph_char(BarChar::SquareWithDiagonalCrosshatchFill) == '\u{25A9}');
    assert(glyph_char(BarChar::BlackSmallSquare) == '\u{25AA}');
    assert(glyph_char(BarChar::WhiteSmallSquare) == '\u{25AB}');
    assert(glyph_char(BarChar::BlackRectangle) == '\u{25AC}');
    assert(glyph_char(BarChar::WhiteRectangle) == '\u{25AD}');
    assert(glyph_char(BarChar::BlackVerticalRectangle) == '\u{25AE}');
    assert(glyph_char(BarChar::WhiteVerticalRectangle) == '\u{25AF}');
    assert(glyph_char(BarChar::BlackParallelogram) == '\u{25B0}');
    assert(glyph_char(BarChar::WhiteParallelogram) == '\u{25B1}');
    assert(glyph_char(BarChar::WhiteMediumSquare) == '\u{25FB}');
    assert(glyph_char(BarChar::BlackMediumSquare) == '\u{25FC}');
    assert(glyph_char(BarChar::WhiteMediumSmallSquare) == '\u{25FD}');
    assert(glyph_char(BarChar::BlackMediumSmallSquare) == '\u{25FE}');
    assert(glyph_char(BarChar::PlayingCardAceOfSpades) == '\u{1F0A1}');
}

/// An update event sent to the engine. Each variant carries the new value of
/// one configuration attribute; applying it redraws the bar. `Percent` is in
/// per-mille units and may be negative (the magnitude is taken).
#[derive(Debug, Clone)]
pub enum Message {
    Percent(i32),
    Label(String),
    ShowPercentage(bool),
    ShowBrackets(bool),
    Length(u32),
    LeadingChar(BarChar),
    TrailingChar(BarChar),
    Interval(u64),
    TextStyle(Style),
}

/// The mathematical model of a progress bar: every configuration attribute as
/// a plain value, the label as its character sequence, and the width of the
/// previous render.
#[verifier::ext_equal]
pub struct BarView {
    pub length: nat,
    pub leading: char,
    pub trailing: char,
    pub show_percentage: bool,
    pub show_brackets: bool,
    pub interval_ms: nat,
    pub per_mille: nat,
    pub label: Seq<char>,
    pub prev_width: nat,
    pub style: Style,
}

/// A well-formed bar: completion never exceeds one (1000 per mille), and the
/// widest possible line - body, label, two brackets and the seven-character
/// percentage suffix - fits in a machine word.
pub open spec fn wf(v: BarView) -> bool {
    &&& v.per_mille <= 1000
    &&& v.length + v.label.len() + 9 <= usize::MAX
}

/// The state a freshly constructed bar starts in: length 50, full block over
/// light shade, percentage shown, no brackets, no delay, zero completion, no
/// styling, and nothing rendered yet.
pub open spec fn initial_view(label: Seq<char>) -> BarView {
    BarView {
        length: 50,
        leading: '\u{2588}',
        trailing: '\u{2591}',
        show_percentage: true,
        show_brackets: false,
        interval_ms: 0,
        per_mille: 0,
        label: label,
        prev_width: 0,
        style: Style::Regular,
    }
}

/// The magnitude of `p` clamped to at most 1000: negative input is reflected,
/// overshoot is capped, so the result is always a valid per-mille value.
pub open spec fn clamp_per_mille(p: int) -> nat {
    if p <= -1000 || p >= 1000 {
        1000
    } else if p < 0 {
        (-p) as nat
    } else {
        p as nat
    }
}

/// A progress bar for the command line. It owns its display configuration,
/// renders the current line from that state alone, and remembers how wide the
/// previous render was so the caller can blank it before redrawing.
#[derive(Debug, Clone)]
pub struct ProgressBar {
    length: u32,
    leading_char: char,
    trailing_char: char,
    show_percentage: bool,
    show_brackets: bool,
    interval: u64,
    per_mille: u32,
    label: String,
    prev_text_len: usize,
    text_style: Style,
}

impl View for ProgressBar {
    type V = BarView;

    closed spec fn view(&self) -> BarView {
        BarView {
            length: self.length as nat,
            leading: self.leading_char,
            trailing: self.trailing_char,
            show_percentage: self.show_percentage,
            show_brackets: self.show_brackets,
            interval_ms: self.interval as nat,
            per_mille: self.per_mille as nat,
            label: self.label@,
            prev_width: self.prev_text_len as nat,
            style: self.text_style,
        }
    }
}

impl ProgressBar {
    /// A new bar with the default configuration and the given label. The
    /// label must leave room for the default body width of 50 and the widest
    /// decorations, so the widest line fits in a machine word.
    pub fn new(label: String) -> (r: Self)
        requires
            label@.len() + 59 <= usize::MAX,
        ensures
            r@ == initial_view(label@),
            wf(r@),
    {
        ProgressBar {
            length: 50,
            leading_char: '\u{2588}',
            trailing_char: '\u{2591}',
            show_percentage: true,
            show_brackets: false,
            interval: 0,
            per_mille: 0,
            label,
            prev_text_len: 0,
            text_style: Style::Regular,
        }
    }

    /// The style applied when the bar is rendered.
    pub fn style(&self) -> (s: Style)
        ensures
            s == self@.style,
    {
        self.text_style
    }

    /// Sets the style applied when the bar is rendered.
    pub fn set_style(&mut self, style: Style)
        ensures
            final(self)@ == (BarView { style: style, ..old(self)@ }),
    {
        self.text_style = style;
    }

    /// The width of the bar body in glyphs, excluding label, brackets and
    /// percentage.
    pub fn length(&self) -> (n: u32)
        ensures
            n as nat == self@.length,
    {
        self.length
    }

    /// Sets the width of the bar body in glyphs.
    pub fn set_length(&mut self, length: u32)
        requires
            length + old(self)@.label.len() + 9 <= usize::MAX,
        ensures
            final(self)@ == (BarView { length: length as nat, ..old(self)@ }),
    {
        self.length = length;
    }

    /// The glyph drawn for the completed portion of the bar.
    pub fn leading_char(&self) -> (g: BarChar)
        ensures
            g == glyph_of_char(self@.leading),
    {
        BarChar::from_char(self.leading_char)
    }

    /// Sets the glyph drawn for the completed portion of the bar.
    pub fn set_leading_char(&mut self, c: BarChar)
        ensures
            final(self)@ == (BarView { leading: glyph_char(c), ..old(self)@ }),
    {
        self.leading_char = c.to_char();
    }

    /// The glyph drawn for the incomplete portion of the bar.
    pub fn trailing_char(&self) -> (g: BarChar)
        ensures
            g == glyph_of_char(self@.trailing),
    {
        BarChar::from_char(self.trailing_char)
    }

    /// Sets the glyph drawn for the incomplete portion of the bar.
    pub fn set_trail_char(&mut self, c: BarChar)
        ensures
            final(self)@ == (BarView { trailing: glyph_char(c), ..old(self)@ }),
    {
        self.trailing_char = c.to_char();
    }

    /// Chooses whether the percentage is appended to the rendered bar.
    pub fn show_percentage(&mut self, show: bool)
        ensures
            final(self)@ == (BarView { show_percentage: show, ..old(self)@ }),
    {
        self.show_percentage = show;
    }

    /// Chooses whether brackets frame the rendered bar body.
    pub fn show_brackets(&mut self, show: bool)
        ensures
            final(self)@ == (BarView { show_brackets: show, ..old(self)@ }),
    {
        self.show_brackets = show;
    }

    /// The pause, in milliseconds, a caller is asked to take after each
    /// render.
    pub fn interval(&self) -> (ms: u64)
        ensures
            ms as nat == self@.interval_ms,
    {
        self.interval
    }

    /// Sets the pause, in milliseconds, a caller is asked to take after each
    /// render.
    pub fn set_interval(&mut self, interval: u64)
        ensures
            final(self)@ == (BarView { interval_ms: interval as nat, ..old(self)@ }),
    {
        self.interval = interval;
    }

    /// The completion ratio in per-mille units, always between 0 and 1000.
    pub fn percent(&self) -> (p: u32)
        ensures
            p as nat == self@.per_mille,
    {
        self.per_mille
    }

    /// Sets the completion ratio from a per-mille value: the magnitude of `p`
    /// capped at 1000, so negative input is reflected and overshoot is
    /// clamped, never rejected.
    pub fn set_percent(&mut self, p: i32)
        ensures
            final(self)@ == (BarView { per_mille: clamp_per_mille(p as int), ..old(self)@ }),
    {
        let wide: i64 = p as i64;
        let mag: i64 = if wide < 0 {
            -wide
        } else {
            wide
        };
        let pm: u32 = if mag >= 1000 {
            1000
        } else {
            mag as u32
        };
        self.per_mille = pm;
    }

    /// The text label written to the left of the bar.
    pub fn label(&self) -> (l: &str)
        ensures
            l@ == self@.label,
    {
        self.label.as_str()
    }

    /// Sets the text label written to the left of the bar.
    pub fn set_label(&mut self, msg: String)
        requires
            old(self)@.length + msg@.len() + 9 <= usize::MAX,
        ensures
            final(self)@ == (BarView { label: msg@, ..old(self)@ }),
    {
        self.label = msg;
    }
}

/// How many leading glyphs a bar of width `length` shows at completion
/// `per_mille`: `length * per_mille / 1000` rounded half away from zero.
pub open spec fn fill_count(length: nat, per_mille: nat) -> nat {
    (length * per_mille + 500) / 1000
}

/// The bar body: the leading glyph repeated `fill_count` times, then the
/// trailing glyph filling the rest, always exactly `length` characters.
pub open spec fn body_seq(v: BarView) -> Seq<char> {
    repeat_char(v.leading, fill_count(v.length, v.per_mille)) + repeat_char(
        v.trailing,
        (v.length - fill_count(v.length, v.per_mille)) as nat,
    )
}

/// The percentage suffix: a space, the completion as a percentage with one
/// decimal digit, and a percent sign (per-mille 425 shows as " 42.5%").
pub open spec fn percent_suffix(per_mille: nat) -> Seq<char> {
    seq![' '] + dec_rep(per_mille / 10) + seq!['.', digit_char(per_mille % 10), '%']
}

/// The full rendered line: the label, the body (framed in brackets when they
/// are enabled), and the percentage suffix when it is enabled.
pub open spec fn render_seq(v: BarView) -> Seq<char> {
    v.label + (if v.show_brackets {
        seq!['[']
    } else {
        Seq::<char>::empty()
    }) + body_seq(v) + (if v.show_brackets {
        seq![']']
    } else {
        Seq::<char>::empty()
    }) + (if v.show_percentage {
        percent_suffix(v.per_mille)
    } else {
        Seq::<char>::empty()
    })
}

/// The filled portion never exceeds the bar's width.
pub proof fn lemma_fill_count_le(length: nat, per_mille: nat)
    requires
        per_mille <= 1000,
    ensures
        fill_count(length, per_mille) <= length,
{
    assert((length * per_mille + 500) / 1000 <= length) by (nonlinear_arith)
        requires
            per_mille <= 1000,
    ;
}

impl ProgressBar {
    /// The number of leading glyphs the current state renders.
    fn fill_count_exec(&self) -> (k: u32)
        requires
            self@.per_mille <= 1000,
        ensures
            k as nat == fill_count(self@.length, self@.per_mille),
            k <= self.length,
    {
        proof {
            lemma_fill_count_le(self@.length, self@.per_mille);
            assert((self.length as u64) * (self.per_mille as u64) == self@.length * self@.per_mille)
                by (nonlinear_arith);
        }
        let prod: u64 = (self.length as u64) * (self.per_mille as u64);
        ((prod + 500) / 1000) as u32
    }

    /// Renders the bar as a deterministic, pure function of the current
    /// state.
    pub fn render(&self) -> (r: String)
        requires
            wf(self@),
        ensures
            r@ == render_seq(self@),
    {
        let mut s: String = self.label.clone();
        if self.show_brackets {
            push_char(&mut s, '[');
        }
        let k: u32 = self.fill_count_exec();
        push_repeat(&mut s, self.leading_char, k as usize);
        push_repeat(&mut s, self.trailing_char, (self.length - k) as usize);
        if self.show_brackets {
            push_char(&mut s, ']');
        }
        if self.show_percentage {
            push_char(&mut s, ' ');
            push_decimal(&mut s, (self.per_mille / 10) as u64);
            push_char(&mut s, '.');
            push_char(&mut s, digit_of((self.per_mille % 10) as u64));
            push_char(&mut s, '%');
        }
        proof {
            assert(s@ =~= render_seq(self@));
        }
        s
    }
}

/// The width bucket reserved for the percentage suffix: 7 characters at full
/// completion, 6 from ten percent up, 5 below that.
pub open spec fn percent_width(per_mille: nat) -> nat {
    if per_mille >= 1000 {
        7
    } else if per_mille >= 100 {
        6
    } else {
        5
    }
}

/// The full width of a rendered line: body width plus label, two bracket
/// characters when shown, and the percentage bucket when shown.
pub open spec fn line_width(v: BarView) -> nat {
    v.length + v.label.len() + (if v.show_brackets {
        2nat
    } else {
        0nat
    }) + (if v.show_percentage {
        percent_width(v.per_mille)
    } else {
        0nat
    })
}

/// The sequence that blanks a previous render of width `n`: a carriage
/// return, `n` spaces, and another carriage return.
pub open spec fn erase_seq(n: nat) -> Seq<char> {
    seq!['\r'] + repeat_char(' ', n) + seq!['\r']
}

/// The state after one render-and-flush cycle: unchanged but for the recorded
/// width of the line just written.
pub open spec fn shown_view(v: BarView) -> BarView {
    BarView { prev_width: line_width(v), ..v }
}

/// The state after one update event is applied, before the redraw.
pub open spec fn apply_message(v: BarView, m: Message) -> BarView {
    match m {
        Message::Percent(p) => BarView { per_mille: clamp_per_mille(p as int), ..v },
        Message::Label(s) => BarView { label: s@, ..v },
        Message::ShowPercentage(b) => BarView { show_percentage: b, ..v },
        Message::ShowBrackets(b) => BarView { show_brackets: b, ..v },
        Message::Length(l) => BarView { length: l as nat, ..v },
        Message::LeadingChar(c) => BarView { leading: glyph_char(c), ..v },
        Message::TrailingChar(c) => BarView { trailing: glyph_char(c), ..v },
        Message::Interval(i) => BarView { interval_ms: i as nat, ..v },
        Message::TextStyle(st) => BarView { style: st, ..v },
    }
}

/// A message the machine can apply to the given state: a new length or label
/// must keep the widest possible line within a machine word.
pub open spec fn message_fits(v: BarView, m: Message) -> bool {
    match m {
        Message::Length(l) => l + v.label.len() + 9 <= usize::MAX,
        Message::Label(s) => v.length + s@.len() + 9 <= usize::MAX,
        _ => true,
    }
}

impl ProgressBar {
    /// One render-and-flush cycle, computed rather than written: the returned
    /// string blanks the previous render (carriage return, exactly
    /// `prev_width` spaces, carriage return), then carries the styled fresh
    /// render closed by the neutral style. The bar records the width of the
    /// new line; the caller writes the string, flushes, and pauses for the
    /// configured interval.
    pub fn show(&mut self) -> (out: String)
        requires
            wf(old(self)@),
        ensures
            final(self)@ == shown_view(old(self)@),
            wf(final(self)@),
            out@ == erase_seq(old(self)@.prev_width) + escape_seq(old(self)@.style) + render_seq(
                old(self)@,
            ) + escape_seq(Style::Regular),
    {
        let mut out: String = String::new();
        push_char(&mut out, '\r');
        push_repeat(&mut out, ' ', self.prev_text_len);
        push_char(&mut out, '\r');
        let prefix: String = self.text_style.escape();
        out.append(prefix.as_str());
        let line: String = self.render();
        out.append(line.as_str());
        let suffix: String = (Style::Regular).escape();
        out.append(suffix.as_str());
        let label_chars: usize = self.label.as_str().unicode_len();
        let mut n: usize = self.length as usize + label_chars;
        if self.show_brackets {
            n = n + 2;
        }
        if self.show_percentage {
            n = n + (if self.per_mille >= 1000 {
                7
            } else if self.per_mille >= 100 {
                6
            } else {
                5
            });
        }
        self.prev_text_len = n;
        proof {
            assert(self@ =~= shown_view(old(self)@));
            assert(out@ =~= erase_seq(old(self)@.prev_width) + escape_seq(old(self)@.style)
                + render_seq(old(self)@) + escape_seq(Style::Regular));
        }
        out
    }

    /// Applies exactly one update event through the corresponding setter and
    /// immediately redraws: the returned string is the `show` cycle for the
    /// updated state. Every state change is coupled to a redraw; there is no
    /// batched-update mode.
    pub fn process_event(&mut self, msg: Message) -> (out: String)
        requires
            wf(old(self)@),
            message_fits(old(self)@, msg),
        ensures
            final(self)@ == shown_view(apply_message(old(self)@, msg)),
            wf(final(self)@),
            out@ == erase_seq(old(self)@.prev_width) + escape_seq(
                apply_message(old(self)@, msg).style,
            ) + render_seq(apply_message(old(self)@, msg)) + escape_seq(Style::Regular),
    {
        match msg {
            Message::LeadingChar(c) => self.set_leading_char(c),
            Message::TrailingChar(c) => self.set_trail_char(c),
            Message::Interval(i) => self.set_interval(i),
            Message::Length(l) => self.set_length(l),
            Message::Label(m) => self.set_label(m),
            Message::Percent(p) => self.set_percent(p),
            Message::ShowPercentage(show) => self.show_percentage(show),
            Message::ShowBrackets(show) => self.show_brackets(show),
            Message::TextStyle(style) => self.set_style(style),
        }
        self.show()
    }
}

impl Default for ProgressBar {
    /// A new bar labelled "Percent complete " with the default configuration.
    fn default() -> (r: Self)
        ensures
            r@ == initial_view("Percent complete "@),
            wf(r@),
    {
        proof {
            reveal_strlit("Percent complete ");
        }
        ProgressBar::new(String::from_str("Percent complete "))
    }
}

/// The rendered body is exactly `length` characters: the first `fill_count`
/// of them are the leading glyph and the remainder the trailing glyph, the
/// two counts summing to `length` by construction.
pub proof fn lemma_body_counts(v: BarView)
    requires
        wf(v),
    ensures
        fill_count(v.length, v.per_mille) <= v.length,
        body_seq(v).len() == v.length,
        forall|i: int|
            0 <= i < fill_count(v.length, v.per_mille) ==> body_seq(v)[i] == v.leading,
        forall|i: int|
            fill_count(v.length, v.per_mille) <= i < v.length ==> body_seq(v)[i] == v.trailing,
{
    lemma_fill_count_le(v.length, v.per_mille);
}

/// Rendering is deterministic: equal states render to equal lines, so two
/// renders without an intervening state change are identical.
pub proof fn lemma_render_deterministic(a: BarView, b: BarView)
    requires
        a == b,
    ensures
        render_seq(a) == render_seq(b),
{
}

/// The recorded erase width always suffices to blank the prior render: the
/// width `show` records equals the exact character count of the line it
/// wrote.
pub proof fn lemma_erase_covers_render(v: BarView)
    requires
        wf(v),
    ensures
        line_width(v) == render_seq(v).len(),
{
    lemma_body_counts(v);
    lemma_dec_rep_len(v.per_mille / 10);
}

/// After `set_percent(p)` the stored ratio is exactly the magnitude of `p`
/// when that magnitude is at most 1000, and exactly 1000 otherwise; reading it
/// back returns that value.
pub proof fn lemma_percent_clamp(p: int)
    ensures
        -1000 <= p <= 1000 ==> clamp_per_mille(p) == (if p < 0 {
            -p
        } else {
            p
        }),
        (p < -1000 || p > 1000) ==> clamp_per_mille(p) == 1000,
        clamp_per_mille(p) <= 1000,
{
}

} // verus!
