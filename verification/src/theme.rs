//! The colours of the dashboard.

use crate::config::{ColorConfig, ColorModel};
use crate::text::same_text;
use vstd::prelude::*;

verus! {

/// The lower-case form of a text, as the standard library computes it.
pub uninterp spec fn lowercase(s: Seq<char>) -> Seq<char>;

/// `str::to_lowercase` returns the lower-case form of the text.
pub assume_specification[ str::to_lowercase ](s: &str) -> (r: String)
    ensures
        r@ == lowercase(s@),
;

/// A colour of the terminal. `Reset` is the terminal's own default.
#[derive(Clone, Copy, PartialEq, Eq, Structural, Debug)]
pub enum Color {
    Reset,
    Black,
    White,
    Red,
    Green,
    Blue,
    Yellow,
    Magenta,
    Cyan,
    Gray,
}

/// The three colours that the dashboard draws with.
#[derive(Clone, Copy, PartialEq, Eq, Structural, Debug)]
pub struct Theme {
    pub accent: Color,
    pub error: Color,
    pub background: Color,
}

/// The colour that a lower-case name stands for; `Reset` for a name that
/// is not known.
pub open spec fn color_named(lower: Seq<char>) -> Color {
    if lower == "black"@ {
        Color::Black
    } else if lower == "white"@ {
        Color::White
    } else if lower == "red"@ {
        Color::Red
    } else if lower == "green"@ {
        Color::Green
    } else if lower == "blue"@ {
        Color::Blue
    } else if lower == "yellow"@ {
        Color::Yellow
    } else if lower == "magenta"@ {
        Color::Magenta
    } else if lower == "cyan"@ {
        Color::Cyan
    } else if lower == "gray"@ || lower == "grey"@ {
        Color::Gray
    } else {
        Color::Reset
    }
}

/// The colour that a configured name stands for, or `fallback` where none
/// is configured. Upper and lower case are not told apart.
pub open spec fn color_of(name: Option<Seq<char>>, fallback: Color) -> Color {
    match name {
        Some(n) => color_named(lowercase(n)),
        None => fallback,
    }
}

/// The theme that a colour configuration stands for.
pub open spec fn theme_of(cfg: ColorModel) -> Theme {
    Theme {
        accent: color_of(cfg.accent, Color::Cyan),
        error: color_of(cfg.error, Color::Red),
        background: color_of(cfg.background, Color::Black),
    }
}

/// The colour that a lower-case name stands for.
pub fn parse_color(lower: &str) -> (c: Color)
    ensures
        c == color_named(lower@),
{
    if same_text(lower, "black") {
        Color::Black
    } else if same_text(lower, "white") {
        Color::White
    } else if same_text(lower, "red") {
        Color::Red
    } else if same_text(lower, "green") {
        Color::Green
    } else if same_text(lower, "blue") {
        Color::Blue
    } else if same_text(lower, "yellow") {
        Color::Yellow
    } else if same_text(lower, "magenta") {
        Color::Magenta
    } else if same_text(lower, "cyan") {
        Color::Cyan
    } else if same_text(lower, "gray") || same_text(lower, "grey") {
        Color::Gray
    } else {
        Color::Reset
    }
}

fn pick(name: &Option<String>, fallback: Color) -> (c: Color)
    ensures
        c == color_of(name.deep_view(), fallback),
{
    match name {
        Some(n) => {
            let lower = n.as_str().to_lowercase();
            parse_color(lower.as_str())
        },
        None => fallback,
    }
}

impl Theme {
    /// The theme that a colour configuration stands for.
    pub fn from_config(cfg: &ColorConfig) -> (t: Theme)
        ensures
            t == theme_of(cfg.deep_view()),
    {
        Theme {
            accent: pick(&cfg.accent, Color::Cyan),
            error: pick(&cfg.error, Color::Red),
            background: pick(&cfg.background, Color::Black),
        }
    }
}

} // verus!
