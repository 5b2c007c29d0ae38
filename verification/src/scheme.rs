//! The color palette: seventeen named ramps of four shades each, plus the
//! contrast rule that picks a readable text color for a given background.

use vstd::prelude::*;

use crate::style::{Color, Style};

verus! {

/// Names one of the seventeen color ramps of a [`Scheme`].
#[derive(Clone, Copy, Debug, PartialEq, Eq)]
pub enum RampId {
    White,
    Black,
    Gray,
    Red,
    Orange,
    Yellow,
    LimeGreen,
    Green,
    BlueGreen,
    Cyan,
    Blue,
    DeepBlue,
    Purple,
    Magenta,
    RedPink,
    Primary,
    Secondary,
}

/// An immutable palette. Each ramp holds exactly four shades, indexed
/// `0..=3` by increasing emphasis.
#[derive(Clone, Copy, Debug, PartialEq, Eq)]
pub struct Scheme {
    pub white: [Color; 4],
    pub black: [Color; 4],
    pub gray: [Color; 4],
    pub red: [Color; 4],
    pub orange: [Color; 4],
    pub yellow: [Color; 4],
    pub limegreen: [Color; 4],
    pub green: [Color; 4],
    pub bluegreen: [Color; 4],
    pub cyan: [Color; 4],
    pub blue: [Color; 4],
    pub deepblue: [Color; 4],
    pub purple: [Color; 4],
    pub magenta: [Color; 4],
    pub redpink: [Color; 4],
    pub primary: [Color; 4],
    pub secondary: [Color; 4],
}

impl Scheme {
    /// The four shades of the given ramp, in order of increasing emphasis.
    pub open spec fn spec_ramp(&self, id: RampId) -> Seq<Color> {
        match id {
            RampId::White => self.white@,
            RampId::Black => self.black@,
            RampId::Gray => self.gray@,
            RampId::Red => self.red@,
            RampId::Orange => self.orange@,
            RampId::Yellow => self.yellow@,
            RampId::LimeGreen => self.limegreen@,
            RampId::Green => self.green@,
            RampId::BlueGreen => self.bluegreen@,
            RampId::Cyan => self.cyan@,
            RampId::Blue => self.blue@,
            RampId::DeepBlue => self.deepblue@,
            RampId::Purple => self.purple@,
            RampId::Magenta => self.magenta@,
            RampId::RedPink => self.redpink@,
            RampId::Primary => self.primary@,
            RampId::Secondary => self.secondary@,
        }
    }

    /// The shade at index `n` of the given ramp. Indices outside `0..=3`
    /// are a caller error, ruled out by the precondition.
    pub fn shade(&self, id: RampId, n: usize) -> (c: Color)
        requires
            n < 4,
        ensures
            c == self.spec_ramp(id)[n as int],
    {
        let ramp: &[Color; 4] = match id {
            RampId::White => &self.white,
            RampId::Black => &self.black,
            RampId::Gray => &self.gray,
            RampId::Red => &self.red,
            RampId::Orange => &self.orange,
            RampId::Yellow => &self.yellow,
            RampId::LimeGreen => &self.limegreen,
            RampId::Green => &self.green,
            RampId::BlueGreen => &self.bluegreen,
            RampId::Cyan => &self.cyan,
            RampId::Blue => &self.blue,
            RampId::DeepBlue => &self.deepblue,
            RampId::Purple => &self.purple,
            RampId::Magenta => &self.magenta,
            RampId::RedPink => &self.redpink,
            RampId::Primary => &self.primary,
            RampId::Secondary => &self.secondary,
        };
        ramp[n]
    }

    /// The minimal style built from a single shade: the shade as
    /// foreground, no explicit background.
    pub open spec fn spec_style(&self, color: Color) -> Style {
        Style::spec_fg(color)
    }

    pub fn style(&self, color: Color) -> (s: Style)
        ensures
            s == self.spec_style(color),
    {
        Style::new().fg(color)
    }

    /// Perceived brightness of a color on a scale of `0..=255_000`,
    /// weighting the three channels as 299 : 587 : 114.
    pub open spec fn spec_luminance(c: Color) -> int {
        299 * c.r + 587 * c.g + 114 * c.b
    }

    /// The contrast rule: a text color readable against `bg`. Bright
    /// backgrounds get the darkest black shade, dark backgrounds the
    /// brightest white shade. Total and deterministic over every color.
    pub open spec fn spec_text_color(&self, bg: Color) -> Color {
        if Scheme::spec_luminance(bg) >= 128_000 {
            self.black@[0]
        } else {
            self.white@[3]
        }
    }

    pub fn text_color(&self, bg: Color) -> (c: Color)
        ensures
            c == self.spec_text_color(bg),
    {
        let lum: u32 = 299 * (bg.r as u32) + 587 * (bg.g as u32) + 114 * (bg.b as u32);
        if lum >= 128_000 {
            self.black[0]
        } else {
            self.white[3]
        }
    }
}

} // verus!
