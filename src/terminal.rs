//! What the library takes from the colour database and the terminal
//! painter, with what it assumes of each.

use crate::color::{TermColour, ColoredString, TermStyle};
use lscolors::{Indicator, LsColors};
use vstd::prelude::*;

verus! {

#[verifier::external_type_specification]
#[verifier::external_body]
pub struct ExLsColors(LsColors);

#[verifier::external_type_specification]
#[verifier::external_body]
pub struct ExIndicator(Indicator);

#[verifier::external_type_specification]
#[verifier::external_body]
pub struct ExAnsiStyle(ansi_term::Style);

#[verifier::external_type_specification]
#[verifier::external_body]
pub struct ExAnsiColour(ansi_term::Colour);

/// lscolors::LsColors::from_env: the database the environment holds, if any.
pub assume_specification[ LsColors::from_env ]() -> Option<LsColors>;

/// lscolors' `Default` for LsColors: the database of `dircolors`' defaults.
pub assume_specification[ <LsColors as core::default::Default>::default ]() -> LsColors;

/// lscolors::Indicator::from: the entry kind a two-letter code names, if any.
pub assume_specification[ Indicator::from ](indicator: &str) -> Option<Indicator>;

/// Relies on lscolors::LsColors::style_for_indicator: the style the database
/// keeps for an entry kind, if any.
#[verifier::external_body]
pub(crate) fn indicator_style(lscolors: &LsColors, indicator: Indicator) -> Option<TermStyle> {
    lscolors.style_for_indicator(indicator).map(|s| style_from_ansi(s.to_ansi_term_style()))
}

/// Relies on lscolors::LsColors::style_for_path: the style the database gives
/// a path, by its kind on disk and its name, if any.
#[verifier::external_body]
pub(crate) fn path_style(lscolors: &LsColors, path: &str) -> Option<TermStyle> {
    lscolors.style_for_path(path).map(|s| style_from_ansi(s.to_ansi_term_style()))
}

/// The text of pieces painted one after the other, with the escape codes
/// that ansi_term writes between them.
pub uninterp spec fn painted(parts: Seq<(TermStyle, Seq<char>)>) -> Seq<char>;

/// Every piece is plain.
pub open spec fn all_plain(parts: Seq<(TermStyle, Seq<char>)>) -> bool {
    forall|i: int| 0 <= i < parts.len() ==> #[trigger] parts[i].0 == TermStyle::plain()
}

/// The texts of the pieces, one after the other.
pub open spec fn texts(parts: Seq<(TermStyle, Seq<char>)>) -> Seq<char>
    decreases parts.len(),
{
    if parts.len() == 0 {
        Seq::empty()
    } else {
        texts(parts.drop_last()) + parts.last().1
    }
}

/// Each piece as its style and its text.
pub open spec fn parts_view(parts: Seq<ColoredString>) -> Seq<(TermStyle, Seq<char>)> {
    parts.map_values(|p: ColoredString| (p.style, p.text@))
}

/// Relies on ansi_term::ANSIStrings: the pieces painted in turn, writing only
/// the escape codes by which each style differs from the one before; plain
/// pieces get none, so they come out as their texts alone.
#[verifier::external_body]
pub(crate) fn paint_all(parts: &Vec<ColoredString>) -> (r: String)
    ensures
        r@ == painted(parts_view(parts@)),
        all_plain(parts_view(parts@)) ==> r@ == texts(parts_view(parts@)),
{
    let strings: Vec<ansi_term::ANSIString> =
        parts.iter().map(|p| ansi_style(&p.style).paint(p.text.as_str())).collect();
    ansi_term::ANSIStrings(&strings).to_string()
}

/// Converts an ansi_term style, field for field.
#[verifier::external_body]
fn style_from_ansi(s: ansi_term::Style) -> TermStyle {
    TermStyle {
        foreground: s.foreground.map(colour_from_ansi),
        background: s.background.map(colour_from_ansi),
        is_bold: s.is_bold,
        is_dimmed: s.is_dimmed,
        is_italic: s.is_italic,
        is_underline: s.is_underline,
        is_blink: s.is_blink,
        is_reverse: s.is_reverse,
        is_hidden: s.is_hidden,
        is_strikethrough: s.is_strikethrough,
    }
}

/// Converts to an ansi_term style, field for field.
#[verifier::external_body]
fn ansi_style(s: &TermStyle) -> ansi_term::Style {
    ansi_term::Style {
        foreground: s.foreground.map(ansi_colour),
        background: s.background.map(ansi_colour),
        is_bold: s.is_bold,
        is_dimmed: s.is_dimmed,
        is_italic: s.is_italic,
        is_underline: s.is_underline,
        is_blink: s.is_blink,
        is_reverse: s.is_reverse,
        is_hidden: s.is_hidden,
        is_strikethrough: s.is_strikethrough,
    }
}

/// Converts an ansi_term colour, variant for variant.
#[verifier::external_body]
fn colour_from_ansi(c: ansi_term::Colour) -> TermColour {
    match c {
        ansi_term::Colour::Black => TermColour::Black,
        ansi_term::Colour::Red => TermColour::Red,
        ansi_term::Colour::Green => TermColour::Green,
        ansi_term::Colour::Yellow => TermColour::Yellow,
        ansi_term::Colour::Blue => TermColour::Blue,
        ansi_term::Colour::Purple => TermColour::Purple,
        ansi_term::Colour::Cyan => TermColour::Cyan,
        ansi_term::Colour::White => TermColour::White,
        ansi_term::Colour::Fixed(n) => TermColour::Fixed(n),
        ansi_term::Colour::RGB(r, g, b) => TermColour::RGB(r, g, b),
    }
}

/// Converts to an ansi_term colour, variant for variant.
#[verifier::external_body]
fn ansi_colour(c: TermColour) -> ansi_term::Colour {
    match c {
        TermColour::Black => ansi_term::Colour::Black,
        TermColour::Red => ansi_term::Colour::Red,
        TermColour::Green => ansi_term::Colour::Green,
        TermColour::Yellow => ansi_term::Colour::Yellow,
        TermColour::Blue => ansi_term::Colour::Blue,
        TermColour::Purple => ansi_term::Colour::Purple,
        TermColour::Cyan => ansi_term::Colour::Cyan,
        TermColour::White => ansi_term::Colour::White,
        TermColour::Fixed(n) => ansi_term::Colour::Fixed(n),
        TermColour::RGB(r, g, b) => ansi_term::Colour::RGB(r, g, b),
    }
}

} // verus!
