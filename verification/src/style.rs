//! The two primitive style values: a concrete color and a minimal style
//! record pairing an optional foreground, an optional background and an
//! underline flag.

use vstd::prelude::*;

verus! {

/// One concrete color value: a red/green/blue triple.
#[derive(Clone, Copy, Debug, PartialEq, Eq)]
pub struct Color {
    pub r: u8,
    pub g: u8,
    pub b: u8,
}

impl Color {
    pub fn rgb(r: u8, g: u8, b: u8) -> (c: Color)
        ensures
            c == (Color { r, g, b }),
    {
        Color { r, g, b }
    }
}

/// A minimal style record: an optional foreground color, an optional
/// background color, and whether the text is underlined.
#[derive(Clone, Copy, Debug, PartialEq, Eq)]
pub struct Style {
    pub fg: Option<Color>,
    pub bg: Option<Color>,
    pub underline: bool,
}

impl Style {
    /// The empty style: no foreground, no background, not underlined.
    pub open spec fn spec_empty() -> Style {
        Style { fg: None, bg: None, underline: false }
    }

    /// The style drawing foreground `f` over background `b`.
    pub open spec fn spec_fg_bg(f: Color, b: Color) -> Style {
        Style { fg: Some(f), bg: Some(b), underline: false }
    }

    /// The style drawing foreground `f` over an unset background.
    pub open spec fn spec_fg(f: Color) -> Style {
        Style { fg: Some(f), bg: None, underline: false }
    }

    /// The style drawing an unset foreground over background `b`.
    pub open spec fn spec_bg(b: Color) -> Style {
        Style { fg: None, bg: Some(b), underline: false }
    }

    pub fn new() -> (s: Style)
        ensures
            s == Style::spec_empty(),
    {
        Style { fg: None, bg: None, underline: false }
    }

    /// The same style with the foreground replaced by `c`.
    pub fn fg(self, c: Color) -> (s: Style)
        ensures
            s == (Style { fg: Some(c), ..self }),
    {
        Style { fg: Some(c), ..self }
    }

    /// The same style with the background replaced by `c`.
    pub fn bg(self, c: Color) -> (s: Style)
        ensures
            s == (Style { bg: Some(c), ..self }),
    {
        Style { bg: Some(c), ..self }
    }

    /// The same style with the underline flag set.
    pub fn underlined(self) -> (s: Style)
        ensures
            s == (Style { underline: true, ..self }),
    {
        Style { underline: true, ..self }
    }
}

impl Default for Style {
    fn default() -> (s: Style)
        ensures
            s == Style::spec_empty(),
    {
        Style { fg: None, bg: None, underline: false }
    }
}

} // verus!
