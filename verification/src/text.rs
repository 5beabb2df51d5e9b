//! ANSI text styles for terminal output. Each style carries a fixed numeric
//! code and formats as the CSI escape sequence `ESC [ <code> m`.

use vstd::prelude::*;
use crate::strbuf::{dec_rep, push_char, push_decimal};

verus! {

/// A text style that a terminal renders through an ANSI escape sequence.
/// `Regular` is the neutral style that resets all attributes.
#[derive(Debug, Clone, Copy, PartialEq, Eq, Structural)]
pub enum Style {
    Regular,
    Bold,
    Faint,
    Italic,
    Underline,
    Highlight,
    StrikeThrough,
    DoubleUnderline,
    DarkGray,
    Orange,
    Green,
    Yellow,
    Blue,
    Cyan,
    LightBlue,
    BlackBg,
    RedBg,
    GreenBg,
    YellowBg,
    BlueBg,
    CyanBg,
    LightBlueBg,
    WhiteBg,
    Red,
}

/// The fixed numeric code of each style.
pub open spec fn style_code(s: Style) -> nat {
    match s {
        Style::Regular => 0,
        Style::Bold => 1,
        Style::Faint => 2,
        Style::Italic => 3,
        Style::Underline => 4,
        Style::Highlight => 7,
        Style::StrikeThrough => 9,
        Style::DoubleUnderline => 21,
        Style::DarkGray => 30,
        Style::Orange => 31,
        Style::Green => 32,
        Style::Yellow => 33,
        Style::Blue => 34,
        Style::Cyan => 35,
        Style::LightBlue => 36,
        Style::BlackBg => 40,
        Style::RedBg => 41,
        Style::GreenBg => 42,
        Style::YellowBg => 43,
        Style::BlueBg => 44,
        Style::CyanBg => 45,
        Style::LightBlueBg => 46,
        Style::WhiteBg => 47,
        Style::Red => 91,
    }
}

/// The escape sequence a style formats as: ESC, '[', the decimal code, 'm'.
pub open spec fn escape_seq(s: Style) -> Seq<char> {
    seq!['\u{1b}', '['] + dec_rep(style_code(s)) + seq!['m']
}

impl Style {
    /// The style's numeric code.
    pub fn code(&self) -> (c: u8)
        ensures
            c as nat == style_code(*self),
    {
        match self {
            Style::Regular => 0,
            Style::Bold => 1,
            Style::Faint => 2,
            Style::Italic => 3,
            Style::Underline => 4,
            Style::Highlight => 7,
            Style::StrikeThrough => 9,
            Style::DoubleUnderline => 21,
            Style::DarkGray => 30,
            Style::Orange => 31,
            Style::Green => 32,
            Style::Yellow => 33,
            Style::Blue => 34,
            Style::Cyan => 35,
            Style::LightBlue => 36,
            Style::BlackBg => 40,
            Style::RedBg => 41,
            Style::GreenBg => 42,
            Style::YellowBg => 43,
            Style::BlueBg => 44,
            Style::CyanBg => 45,
            Style::LightBlueBg => 46,
            Style::WhiteBg => 47,
            Style::Red => 91,
        }
    }

    /// The exact terminal escape sequence for this style.
    pub fn escape(&self) -> (r: String)
        ensures
            r@ == escape_seq(*self),
    {
        let mut s: String = String::new();
        push_char(&mut s, '\u{1b}');
        push_char(&mut s, '[');
        push_decimal(&mut s, self.code() as u64);
        push_char(&mut s, 'm');
        proof {
            assert(s@ =~= escape_seq(*self));
        }
        s
    }
}

} // verus!
