//! Derives a complete set of widget styles for a terminal user interface
//! from a single color palette.
//!
//! A [`Scheme`](scheme::Scheme) holds seventeen named color ramps of four
//! shades each, together with a contrast rule that picks a readable text
//! color for any background. A [`DarkTheme`](theme::DarkTheme) owns a
//! `Scheme` and derives from it, by fixed compositional rules, a semantic
//! role table (focus, selection, container, data, dialog, status) and one
//! fully populated style record per widget kind.

pub mod laws;
pub mod scheme;
pub mod style;
pub mod theme;
pub mod widget;

pub use scheme::{RampId, Scheme};
pub use style::{Color, Style};
pub use theme::DarkTheme;
