//! One fully populated style record per widget kind. Every field is
//! explicit; a theme fills each record completely, so no separate
//! merge-with-defaults step exists.

use vstd::prelude::*;

use crate::style::Style;

verus! {

/// A frame drawn around a popup. Models only whether a border is drawn.
#[derive(Clone, Copy, Debug, PartialEq, Eq)]
pub struct Block {
    pub bordered: bool,
}

impl Block {
    /// A frame with a border on all sides.
    pub open spec fn spec_bordered() -> Block {
        Block { bordered: true }
    }

    pub fn bordered() -> (b: Block)
        ensures
            b == Block::spec_bordered(),
    {
        Block { bordered: true }
    }
}

/// The corner of a widget towards which its shadow falls.
#[derive(Clone, Copy, Debug, PartialEq, Eq)]
pub enum ShadowDirection {
    TopLeft,
    TopRight,
    BottomLeft,
    BottomRight,
}

/// Styling for the shadow behind a dialog or popup.
#[derive(Clone, Copy, Debug, PartialEq, Eq)]
pub struct ShadowStyle {
    pub style: Style,
    pub dir: ShadowDirection,
}

/// Styling for a line-number gutter beside a text area.
#[derive(Clone, Copy, Debug, PartialEq, Eq)]
pub struct LineNumberStyle {
    pub style: Style,
    pub cursor: Option<Style>,
}

/// Styling for a scrollbar: thumb, track, minimal form, and the two
/// arrow ends.
#[derive(Clone, Copy, Debug, PartialEq, Eq)]
pub struct ScrollStyle {
    pub thumb_style: Option<Style>,
    pub track_style: Option<Style>,
    pub min_style: Option<Style>,
    pub begin_style: Option<Style>,
    pub end_style: Option<Style>,
}

/// Styling for a split divider between panes.
#[derive(Clone, Copy, Debug, PartialEq, Eq)]
pub struct SplitStyle {
    pub style: Style,
    pub arrow_style: Option<Style>,
    pub drag_style: Option<Style>,
}

/// Styling for a scrollable viewport.
#[derive(Clone, Copy, Debug, PartialEq, Eq)]
pub struct ViewStyle {
    pub scroll: Option<ScrollStyle>,
}

/// Styling for a tab row.
#[derive(Clone, Copy, Debug, PartialEq, Eq)]
pub struct TabbedStyle {
    pub style: Style,
    pub tab: Option<Style>,
    pub select: Option<Style>,
    pub focus: Option<Style>,
}

/// Styling for a popup overlay.
#[derive(Clone, Copy, Debug, PartialEq, Eq)]
pub struct PopupStyle {
    pub style: Style,
    pub block: Option<Block>,
    pub scroll: Option<ScrollStyle>,
}

/// Styling for a menu line and its popup.
#[derive(Clone, Copy, Debug, PartialEq, Eq)]
pub struct MenuStyle {
    pub style: Style,
    pub title: Option<Style>,
    pub select: Option<Style>,
    pub focus: Option<Style>,
    pub right: Option<Style>,
    pub disabled: Option<Style>,
    pub highlight: Option<Style>,
    pub popup: PopupStyle,
}

/// Styling for a paragraph of text with a scrollbar.
#[derive(Clone, Copy, Debug, PartialEq, Eq)]
pub struct ParagraphStyle {
    pub style: Style,
    pub scroll: Option<ScrollStyle>,
}

/// Styling for a table.
#[derive(Clone, Copy, Debug, PartialEq, Eq)]
pub struct TableStyle {
    pub style: Style,
    pub select_row: Option<Style>,
    pub show_row_focus: bool,
    pub focus_style: Option<Style>,
    pub scroll: Option<ScrollStyle>,
}

/// Styling for a list.
#[derive(Clone, Copy, Debug, PartialEq, Eq)]
pub struct ListStyle {
    pub style: Style,
    pub select: Option<Style>,
    pub focus: Option<Style>,
    pub scroll: Option<ScrollStyle>,
}

/// Styling for a button, including its pressed ("armed") state.
#[derive(Clone, Copy, Debug, PartialEq, Eq)]
pub struct ButtonStyle {
    pub style: Style,
    pub focus: Option<Style>,
    pub armed: Option<Style>,
}

/// Styling for text widgets: text areas and text-input fields.
#[derive(Clone, Copy, Debug, PartialEq, Eq)]
pub struct TextStyle {
    pub style: Style,
    pub focus: Option<Style>,
    pub select: Option<Style>,
    pub invalid: Option<Style>,
    pub scroll: Option<ScrollStyle>,
}

/// Styling for a message dialog, with its embedded button style.
#[derive(Clone, Copy, Debug, PartialEq, Eq)]
pub struct MsgDialogStyle {
    pub style: Style,
    pub button: ButtonStyle,
}

/// Styling for a file dialog, with its embedded button style.
#[derive(Clone, Copy, Debug, PartialEq, Eq)]
pub struct FileDialogStyle {
    pub style: Style,
    pub list: Option<Style>,
    pub path: Option<Style>,
    pub name: Option<Style>,
    pub new: Option<Style>,
    pub invalid: Option<Style>,
    pub select: Option<Style>,
    pub focus: Option<Style>,
    pub button: Option<ButtonStyle>,
}

/// Styling for a choice (dropdown) widget and its popup.
#[derive(Clone, Copy, Debug, PartialEq, Eq)]
pub struct ChoiceStyle {
    pub style: Style,
    pub button: Option<Style>,
    pub select: Option<Style>,
    pub focus: Option<Style>,
    pub popup: PopupStyle,
}

/// Styling for a page-break navigator.
#[derive(Clone, Copy, Debug, PartialEq, Eq)]
pub struct PagerStyle {
    pub style: Style,
    pub nav: Option<Style>,
    pub divider: Option<Style>,
}

/// Styling for a clipping viewport.
#[derive(Clone, Copy, Debug, PartialEq, Eq)]
pub struct ClipperStyle {
    pub scroll: Option<ScrollStyle>,
}

} // verus!
