//! A dark theme: owns a [`Scheme`] and a display name, and derives from
//! the palette, by fixed compositional rules, the semantic roles (focus,
//! selection, text input, container, data, dialog, status) and one style
//! record per widget kind.
//!
//! Every accessor is a pure function of the scheme. Nested records are
//! shared by composition: a table's scrollbar style is produced by the
//! same function that `scroll_style` itself calls, never re-derived.

use vstd::prelude::*;

use crate::scheme::Scheme;
use crate::style::Style;
use crate::widget::{
    Block, ButtonStyle, ChoiceStyle, ClipperStyle, FileDialogStyle, LineNumberStyle, ListStyle,
    MenuStyle, MsgDialogStyle, PagerStyle, ParagraphStyle, PopupStyle, ScrollStyle, ShadowDirection,
    ShadowStyle, SplitStyle, TabbedStyle, TableStyle, TextStyle, ViewStyle,
};

verus! {

/// A theme that prefers dark colors from the color scheme and generates
/// styles for widgets.
#[derive(Clone, Debug)]
pub struct DarkTheme {
    pub s: Scheme,
    pub name: String,
}

impl DarkTheme {
    pub fn new(name: String, s: Scheme) -> (t: DarkTheme)
        ensures
            t.s == s,
            t.name == name,
    {
        DarkTheme { s, name }
    }

    /// Some display name.
    pub fn name(&self) -> (r: &str)
        ensures
            r@ == self.name@,
    {
        self.name.as_str()
    }

    /// Hint that this theme prefers dark colors.
    pub fn dark_theme(&self) -> (r: bool)
        ensures
            r,
    {
        true
    }

    /// The underlying scheme.
    pub fn scheme(&self) -> (r: &Scheme)
        ensures
            *r == self.s,
    {
        &self.s
    }

    /// Create a style from the given white shade. `n` is `0..=3`.
    pub fn white(&self, n: usize) -> (r: Style)
        requires
            n < 4,
        ensures
            r == self.s.spec_style(self.s.white@[n as int]),
    {
        self.s.style(self.s.white[n])
    }

    /// Create a style from the given black shade. `n` is `0..=3`.
    pub fn black(&self, n: usize) -> (r: Style)
        requires
            n < 4,
        ensures
            r == self.s.spec_style(self.s.black@[n as int]),
    {
        self.s.style(self.s.black[n])
    }

    /// Create a style from the given gray shade. `n` is `0..=3`.
    pub fn gray(&self, n: usize) -> (r: Style)
        requires
            n < 4,
        ensures
            r == self.s.spec_style(self.s.gray@[n as int]),
    {
        self.s.style(self.s.gray[n])
    }

    /// Create a style from the given red shade. `n` is `0..=3`.
    pub fn red(&self, n: usize) -> (r: Style)
        requires
            n < 4,
        ensures
            r == self.s.spec_style(self.s.red@[n as int]),
    {
        self.s.style(self.s.red[n])
    }

    /// Create a style from the given orange shade. `n` is `0..=3`.
    pub fn orange(&self, n: usize) -> (r: Style)
        requires
            n < 4,
        ensures
            r == self.s.spec_style(self.s.orange@[n as int]),
    {
        self.s.style(self.s.orange[n])
    }

    /// Create a style from the given yellow shade. `n` is `0..=3`.
    pub fn yellow(&self, n: usize) -> (r: Style)
        requires
            n < 4,
        ensures
            r == self.s.spec_style(self.s.yellow@[n as int]),
    {
        self.s.style(self.s.yellow[n])
    }

    /// Create a style from the given limegreen shade. `n` is `0..=3`.
    pub fn limegreen(&self, n: usize) -> (r: Style)
        requires
            n < 4,
        ensures
            r == self.s.spec_style(self.s.limegreen@[n as int]),
    {
        self.s.style(self.s.limegreen[n])
    }

    /// Create a style from the given green shade. `n` is `0..=3`.
    pub fn green(&self, n: usize) -> (r: Style)
        requires
            n < 4,
        ensures
            r == self.s.spec_style(self.s.green@[n as int]),
    {
        self.s.style(self.s.green[n])
    }

    /// Create a style from the given bluegreen shade. `n` is `0..=3`.
    pub fn bluegreen(&self, n: usize) -> (r: Style)
        requires
            n < 4,
        ensures
            r == self.s.spec_style(self.s.bluegreen@[n as int]),
    {
        self.s.style(self.s.bluegreen[n])
    }

    /// Create a style from the given cyan shade. `n` is `0..=3`.
    pub fn cyan(&self, n: usize) -> (r: Style)
        requires
            n < 4,
        ensures
            r == self.s.spec_style(self.s.cyan@[n as int]),
    {
        self.s.style(self.s.cyan[n])
    }

    /// Create a style from the given blue shade. `n` is `0..=3`.
    pub fn blue(&self, n: usize) -> (r: Style)
        requires
            n < 4,
        ensures
            r == self.s.spec_style(self.s.blue@[n as int]),
    {
        self.s.style(self.s.blue[n])
    }

    /// Create a style from the given deepblue shade. `n` is `0..=3`.
    pub fn deepblue(&self, n: usize) -> (r: Style)
        requires
            n < 4,
        ensures
            r == self.s.spec_style(self.s.deepblue@[n as int]),
    {
        self.s.style(self.s.deepblue[n])
    }

    /// Create a style from the given purple shade. `n` is `0..=3`.
    pub fn purple(&self, n: usize) -> (r: Style)
        requires
            n < 4,
        ensures
            r == self.s.spec_style(self.s.purple@[n as int]),
    {
        self.s.style(self.s.purple[n])
    }

    /// Create a style from the given magenta shade. `n` is `0..=3`.
    pub fn magenta(&self, n: usize) -> (r: Style)
        requires
            n < 4,
        ensures
            r == self.s.spec_style(self.s.magenta@[n as int]),
    {
        self.s.style(self.s.magenta[n])
    }

    /// Create a style from the given redpink shade. `n` is `0..=3`.
    pub fn redpink(&self, n: usize) -> (r: Style)
        requires
            n < 4,
        ensures
            r == self.s.spec_style(self.s.redpink@[n as int]),
    {
        self.s.style(self.s.redpink[n])
    }

    /// Create a style from the given primary shade. `n` is `0..=3`.
    pub fn primary(&self, n: usize) -> (r: Style)
        requires
            n < 4,
        ensures
            r == self.s.spec_style(self.s.primary@[n as int]),
    {
        self.s.style(self.s.primary[n])
    }

    /// Create a style from the given secondary shade. `n` is `0..=3`.
    pub fn secondary(&self, n: usize) -> (r: Style)
        requires
            n < 4,
        ensures
            r == self.s.spec_style(self.s.secondary@[n as int]),
    {
        self.s.style(self.s.secondary[n])
    }

    /// Focus role: primary shade 2 as background, contrast-picked foreground.
    pub open spec fn spec_focus(s: Scheme) -> Style {
        Style::spec_fg_bg(s.spec_text_color(s.primary@[2]), s.primary@[2])
    }

    /// Focus style.
    pub fn focus(&self) -> (r: Style)
        ensures
            r == DarkTheme::spec_focus(self.s),
    {
        let bg = self.s.primary[2];
        Style::default().fg(self.s.text_color(bg)).bg(bg)
    }

    /// Selection role: secondary shade 1 as background, contrast-picked
    /// foreground.
    pub open spec fn spec_select(s: Scheme) -> Style {
        Style::spec_fg_bg(s.spec_text_color(s.secondary@[1]), s.secondary@[1])
    }

    /// Selection style.
    pub fn select(&self) -> (r: Style)
        ensures
            r == DarkTheme::spec_select(self.s),
    {
        let bg = self.s.secondary[1];
        Style::default().fg(self.s.text_color(bg)).bg(bg)
    }

    /// Text-input role: black shade 0 on gray shade 3. The foreground is
    /// fixed, not contrast-derived.
    pub open spec fn spec_text_input(s: Scheme) -> Style {
        Style::spec_fg_bg(s.black@[0], s.gray@[3])
    }

    /// Text field style.
    pub fn text_input(&self) -> (r: Style)
        ensures
            r == DarkTheme::spec_text_input(self.s),
    {
        Style::default().fg(self.s.black[0]).bg(self.s.gray[3])
    }

    /// Focused-text role: primary shade 0 as background, contrast-picked
    /// foreground.
    pub open spec fn spec_text_focus(s: Scheme) -> Style {
        Style::spec_fg_bg(s.spec_text_color(s.primary@[0]), s.primary@[0])
    }

    /// Focused text field style.
    pub fn text_focus(&self) -> (r: Style)
        ensures
            r == DarkTheme::spec_text_focus(self.s),
    {
        let bg = self.s.primary[0];
        Style::default().fg(self.s.text_color(bg)).bg(bg)
    }

    /// Text-selection role: secondary shade 0 as background,
    /// contrast-picked foreground.
    pub open spec fn spec_text_select(s: Scheme) -> Style {
        Style::spec_fg_bg(s.spec_text_color(s.secondary@[0]), s.secondary@[0])
    }

    /// Text selection style.
    pub fn text_select(&self) -> (r: Style)
        ensures
            r == DarkTheme::spec_text_select(self.s),
    {
        let bg = self.s.secondary[0];
        Style::default().fg(self.s.text_color(bg)).bg(bg)
    }

    /// Container role: gray shade 0 on black shade 1.
    pub open spec fn spec_container(s: Scheme) -> Style {
        Style::spec_fg_bg(s.gray@[0], s.black@[1])
    }

    /// Container base style.
    pub fn container(&self) -> (r: Style)
        ensures
            r == DarkTheme::spec_container(self.s),
    {
        Style::default().fg(self.s.gray[0]).bg(self.s.black[1])
    }

    /// Data role: white shade 0 on black shade 1.
    pub open spec fn spec_data(s: Scheme) -> Style {
        Style::spec_fg_bg(s.white@[0], s.black@[1])
    }

    /// Data display style. Used for lists, tables, ...
    pub fn data(&self) -> (r: Style)
        ensures
            r == DarkTheme::spec_data(self.s),
    {
        Style::default().fg(self.s.white[0]).bg(self.s.black[1])
    }

    /// Dialog role: white shade 2 on gray shade 1.
    pub open spec fn spec_dialog_style(s: Scheme) -> Style {
        Style::spec_fg_bg(s.white@[2], s.gray@[1])
    }

    /// Background style for dialogs.
    pub fn dialog_style(&self) -> (r: Style)
        ensures
            r == DarkTheme::spec_dialog_style(self.s),
    {
        Style::default().fg(self.s.white[2]).bg(self.s.gray[1])
    }

    /// Status role: white shade 0 on black shade 2.
    pub open spec fn spec_status_style(s: Scheme) -> Style {
        Style::spec_fg_bg(s.white@[0], s.black@[2])
    }

    /// Style for the status line.
    pub fn status_style(&self) -> (r: Style)
        ensures
            r == DarkTheme::spec_status_style(self.s),
    {
        Style::default().fg(self.s.white[0]).bg(self.s.black[2])
    }

    /// The shadow record: black shade 0 as background, falling to the
    /// bottom right.
    pub open spec fn spec_shadow_style(s: Scheme) -> ShadowStyle {
        ShadowStyle { style: Style::spec_bg(s.black@[0]), dir: ShadowDirection::BottomRight }
    }

    /// Style for shadows.
    pub fn shadow_style(&self) -> (r: ShadowStyle)
        ensures
            r == DarkTheme::spec_shadow_style(self.s),
    {
        ShadowStyle {
            style: Style::new().bg(self.s.black[0]),
            dir: ShadowDirection::BottomRight,
        }
    }

    /// The line-number record: the data role with its foreground dimmed to
    /// gray shade 0, and the text-selection role at the cursor line.
    pub open spec fn spec_line_nr_style(s: Scheme) -> LineNumberStyle {
        LineNumberStyle {
            style: Style::spec_fg_bg(s.gray@[0], s.black@[1]),
            cursor: Some(DarkTheme::spec_text_select(s)),
        }
    }

    /// Style for line numbers.
    pub fn line_nr_style(&self) -> (r: LineNumberStyle)
        ensures
            r == DarkTheme::spec_line_nr_style(self.s),
    {
        LineNumberStyle {
            style: self.data().fg(self.s.gray[0]),
            cursor: Some(self.text_select()),
        }
    }

    /// The text-area record: data base, focus and text-selection overrides,
    /// the shared scrollbar record, and no invalid marker.
    pub open spec fn spec_textarea_style(s: Scheme) -> TextStyle {
        TextStyle {
            style: DarkTheme::spec_data(s),
            focus: Some(DarkTheme::spec_focus(s)),
            select: Some(DarkTheme::spec_text_select(s)),
            invalid: None,
            scroll: Some(DarkTheme::spec_scroll_style(s)),
        }
    }

    /// Complete text area style.
    pub fn textarea_style(&self) -> (r: TextStyle)
        ensures
            r == DarkTheme::spec_textarea_style(self.s),
    {
        TextStyle {
            style: self.data(),
            focus: Some(self.focus()),
            select: Some(self.text_select()),
            invalid: None,
            scroll: Some(self.scroll_style()),
        }
    }

    /// The text-input record: text-input base, focused-text and
    /// text-selection overrides, red shade 3 as invalid marker, no
    /// scrollbar.
    pub open spec fn spec_input_style(s: Scheme) -> TextStyle {
        TextStyle {
            style: DarkTheme::spec_text_input(s),
            focus: Some(DarkTheme::spec_text_focus(s)),
            select: Some(DarkTheme::spec_text_select(s)),
            invalid: Some(Style::spec_bg(s.red@[3])),
            scroll: None,
        }
    }

    /// Complete text input style.
    pub fn input_style(&self) -> (r: TextStyle)
        ensures
            r == DarkTheme::spec_input_style(self.s),
    {
        TextStyle {
            style: self.text_input(),
            focus: Some(self.text_focus()),
            select: Some(self.text_select()),
            invalid: Some(Style::default().bg(self.s.red[3])),
            scroll: None,
        }
    }

    /// The menu record: white shade 3 on black shade 2 as base, a yellow
    /// title, the shared focus and selection roles, and a bordered popup
    /// in the same base style.
    pub open spec fn spec_menu_style(s: Scheme) -> MenuStyle {
        MenuStyle {
            style: Style::spec_fg_bg(s.white@[3], s.black@[2]),
            title: Some(Style::spec_fg_bg(s.black@[0], s.yellow@[2])),
            select: Some(DarkTheme::spec_select(s)),
            focus: Some(DarkTheme::spec_focus(s)),
            right: Some(Style::spec_fg(s.bluegreen@[0])),
            disabled: Some(Style::spec_fg(s.gray@[0])),
            highlight: Some(Style { fg: None, bg: None, underline: true }),
            popup: PopupStyle {
                style: Style::spec_fg_bg(s.white@[3], s.black@[2]),
                block: Some(Block::spec_bordered()),
                scroll: None,
            },
        }
    }

    /// Complete menu style.
    pub fn menu_style(&self) -> (r: MenuStyle)
        ensures
            r == DarkTheme::spec_menu_style(self.s),
    {
        let menu = Style::default().fg(self.s.white[3]).bg(self.s.black[2]);
        MenuStyle {
            style: menu,
            title: Some(Style::default().fg(self.s.black[0]).bg(self.s.yellow[2])),
            select: Some(self.select()),
            focus: Some(self.focus()),
            right: Some(Style::default().fg(self.s.bluegreen[0])),
            disabled: Some(Style::default().fg(self.s.gray[0])),
            highlight: Some(Style::default().underlined()),
            popup: PopupStyle { style: menu, block: Some(Block::bordered()), scroll: None },
        }
    }

    /// The paragraph record: data base with the shared scrollbar record.
    pub open spec fn spec_paragraph_style(s: Scheme) -> ParagraphStyle {
        ParagraphStyle {
            style: DarkTheme::spec_data(s),
            scroll: Some(DarkTheme::spec_scroll_style(s)),
        }
    }

    /// Paragraph style.
    pub fn paragraph_style(&self) -> (r: ParagraphStyle)
        ensures
            r == DarkTheme::spec_paragraph_style(self.s),
    {
        ParagraphStyle { style: self.data(), scroll: Some(self.scroll_style()) }
    }

    /// The table record: data base, selection on rows, row focus shown,
    /// the shared focus role and scrollbar record.
    pub open spec fn spec_table_style(s: Scheme) -> TableStyle {
        TableStyle {
            style: DarkTheme::spec_data(s),
            select_row: Some(DarkTheme::spec_select(s)),
            show_row_focus: true,
            focus_style: Some(DarkTheme::spec_focus(s)),
            scroll: Some(DarkTheme::spec_scroll_style(s)),
        }
    }

    /// Table style.
    pub fn table_style(&self) -> (r: TableStyle)
        ensures
            r == DarkTheme::spec_table_style(self.s),
    {
        TableStyle {
            style: self.data(),
            select_row: Some(self.select()),
            show_row_focus: true,
            focus_style: Some(self.focus()),
            scroll: Some(self.scroll_style()),
        }
    }

    /// The list record: data base, the shared selection and focus roles,
    /// and the shared scrollbar record.
    pub open spec fn spec_list_style(s: Scheme) -> ListStyle {
        ListStyle {
            style: DarkTheme::spec_data(s),
            select: Some(DarkTheme::spec_select(s)),
            focus: Some(DarkTheme::spec_focus(s)),
            scroll: Some(DarkTheme::spec_scroll_style(s)),
        }
    }

    /// List style.
    pub fn list_style(&self) -> (r: ListStyle)
        ensures
            r == DarkTheme::spec_list_style(self.s),
    {
        ListStyle {
            style: self.data(),
            select: Some(self.select()),
            focus: Some(self.focus()),
            scroll: Some(self.scroll_style()),
        }
    }

    /// The button record: primary shade 0 as base and primary shade 3
    /// when focused, each under a contrast-picked foreground; black
    /// shade 0 on secondary shade 0 while pressed.
    pub open spec fn spec_button_style(s: Scheme) -> ButtonStyle {
        ButtonStyle {
            style: Style::spec_fg_bg(s.spec_text_color(s.primary@[0]), s.primary@[0]),
            focus: Some(Style::spec_fg_bg(s.spec_text_color(s.primary@[3]), s.primary@[3])),
            armed: Some(Style::spec_fg_bg(s.black@[0], s.secondary@[0])),
        }
    }

    /// Button style.
    pub fn button_style(&self) -> (r: ButtonStyle)
        ensures
            r == DarkTheme::spec_button_style(self.s),
    {
        ButtonStyle {
            style: Style::default()
                .fg(self.s.text_color(self.s.primary[0]))
                .bg(self.s.primary[0]),
            focus: Some(
                Style::default()
                    .fg(self.s.text_color(self.s.primary[3]))
                    .bg(self.s.primary[3]),
            ),
            armed: Some(Style::default().fg(self.s.black[0]).bg(self.s.secondary[0])),
        }
    }

    /// The scrollbar record: the container role for thumb, track and
    /// minimal form; secondary shade 0 on black shade 1 for both arrows.
    pub open spec fn spec_scroll_style(s: Scheme) -> ScrollStyle {
        ScrollStyle {
            thumb_style: Some(DarkTheme::spec_container(s)),
            track_style: Some(DarkTheme::spec_container(s)),
            min_style: Some(DarkTheme::spec_container(s)),
            begin_style: Some(Style::spec_fg_bg(s.secondary@[0], s.black@[1])),
            end_style: Some(Style::spec_fg_bg(s.secondary@[0], s.black@[1])),
        }
    }

    /// Scroll style.
    pub fn scroll_style(&self) -> (r: ScrollStyle)
        ensures
            r == DarkTheme::spec_scroll_style(self.s),
    {
        let style = self.container();
        let arrow_style = Style::default().fg(self.s.secondary[0]).bg(self.s.black[1]);
        ScrollStyle {
            thumb_style: Some(style),
            track_style: Some(style),
            min_style: Some(style),
            begin_style: Some(arrow_style),
            end_style: Some(arrow_style),
        }
    }

    /// The split record: the container role as base, secondary shade 0 on
    /// black shade 1 for the arrows, the shared focus role while dragged.
    pub open spec fn spec_split_style(s: Scheme) -> SplitStyle {
        SplitStyle {
            style: DarkTheme::spec_container(s),
            arrow_style: Some(Style::spec_fg_bg(s.secondary@[0], s.black@[1])),
            drag_style: Some(DarkTheme::spec_focus(s)),
        }
    }

    /// Split style.
    pub fn split_style(&self) -> (r: SplitStyle)
        ensures
            r == DarkTheme::spec_split_style(self.s),
    {
        let style = self.container();
        let arrow_style = Style::default().fg(self.s.secondary[0]).bg(self.s.black[1]);
        SplitStyle { style, arrow_style: Some(arrow_style), drag_style: Some(self.focus()) }
    }

    /// The view record: only the shared scrollbar record.
    pub open spec fn spec_view_style(s: Scheme) -> ViewStyle {
        ViewStyle { scroll: Some(DarkTheme::spec_scroll_style(s)) }
    }

    /// View style.
    pub fn view_style(&self) -> (r: ViewStyle)
        ensures
            r == DarkTheme::spec_view_style(self.s),
    {
        ViewStyle { scroll: Some(self.scroll_style()) }
    }

    /// The tab-row record: the container role as base, gray shades 1 and 3
    /// as plain tab and selected-tab foregrounds, the shared focus role.
    pub open spec fn spec_tabbed_style(s: Scheme) -> TabbedStyle {
        TabbedStyle {
            style: DarkTheme::spec_container(s),
            tab: Some(Style::spec_fg(s.gray@[1])),
            select: Some(Style::spec_fg(s.gray@[3])),
            focus: Some(DarkTheme::spec_focus(s)),
        }
    }

    /// Tabbed style.
    pub fn tabbed_style(&self) -> (r: TabbedStyle)
        ensures
            r == DarkTheme::spec_tabbed_style(self.s),
    {
        let style = self.container();
        TabbedStyle {
            style,
            tab: Some(self.gray(1)),
            select: Some(self.gray(3)),
            focus: Some(self.focus()),
        }
    }

    /// The status line: the status role first, then three indicator
    /// fields on blue shades 3, 2 and 1, each under the contrast color
    /// picked for white shade 0.
    pub open spec fn spec_statusline_style(s: Scheme) -> Seq<Style> {
        seq![
            DarkTheme::spec_status_style(s),
            Style::spec_fg_bg(s.spec_text_color(s.white@[0]), s.blue@[3]),
            Style::spec_fg_bg(s.spec_text_color(s.white@[0]), s.blue@[2]),
            Style::spec_fg_bg(s.spec_text_color(s.white@[0]), s.blue@[1]),
        ]
    }

    /// Style for a status line with 3 indicator fields.
    pub fn statusline_style(&self) -> (r: Vec<Style>)
        ensures
            r@ == DarkTheme::spec_statusline_style(self.s),
    {
        let s = &self.s;
        let mut r: Vec<Style> = Vec::new();
        r.push(self.status_style());
        r.push(Style::default().fg(s.text_color(s.white[0])).bg(s.blue[3]));
        r.push(Style::default().fg(s.text_color(s.white[0])).bg(s.blue[2]));
        r.push(Style::default().fg(s.text_color(s.white[0])).bg(s.blue[1]));
        proof {
            assert(r@ =~= DarkTheme::spec_statusline_style(self.s));
        }
        r
    }

    /// The message-dialog record: the dialog role as base with the shared
    /// button record embedded verbatim.
    pub open spec fn spec_msg_dialog_style(s: Scheme) -> MsgDialogStyle {
        MsgDialogStyle {
            style: DarkTheme::spec_dialog_style(s),
            button: DarkTheme::spec_button_style(s),
        }
    }

    /// Message dialog style.
    pub fn msg_dialog_style(&self) -> (r: MsgDialogStyle)
        ensures
            r == DarkTheme::spec_msg_dialog_style(self.s),
    {
        MsgDialogStyle { style: self.dialog_style(), button: self.button_style() }
    }

    /// The file-dialog record: the dialog role as base, the data role for
    /// the file list, the text-input role for the three input fields, red
    /// shade 3 on gray shade 2 as invalid marker, the shared selection,
    /// focus and button records.
    pub open spec fn spec_file_dialog_style(s: Scheme) -> FileDialogStyle {
        FileDialogStyle {
            style: DarkTheme::spec_dialog_style(s),
            list: Some(DarkTheme::spec_data(s)),
            path: Some(DarkTheme::spec_text_input(s)),
            name: Some(DarkTheme::spec_text_input(s)),
            new: Some(DarkTheme::spec_text_input(s)),
            invalid: Some(Style::spec_fg_bg(s.red@[3], s.gray@[2])),
            select: Some(DarkTheme::spec_select(s)),
            focus: Some(DarkTheme::spec_focus(s)),
            button: Some(DarkTheme::spec_button_style(s)),
        }
    }

    /// File dialog style.
    pub fn file_dialog_style(&self) -> (r: FileDialogStyle)
        ensures
            r == DarkTheme::spec_file_dialog_style(self.s),
    {
        FileDialogStyle {
            style: self.dialog_style(),
            list: Some(self.data()),
            path: Some(self.text_input()),
            name: Some(self.text_input()),
            new: Some(self.text_input()),
            invalid: Some(Style::new().fg(self.s.red[3]).bg(self.s.gray[2])),
            select: Some(self.select()),
            focus: Some(self.focus()),
            button: Some(self.button_style()),
        }
    }

    /// The choice record: the text-input role as base and button, the
    /// shared selection and focus roles, and a bordered popup in the
    /// text-input role with the shared scrollbar record.
    pub open spec fn spec_choice_style(s: Scheme) -> ChoiceStyle {
        ChoiceStyle {
            style: DarkTheme::spec_text_input(s),
            button: Some(DarkTheme::spec_text_input(s)),
            select: Some(DarkTheme::spec_select(s)),
            focus: Some(DarkTheme::spec_focus(s)),
            popup: PopupStyle {
                style: DarkTheme::spec_text_input(s),
                block: Some(Block::spec_bordered()),
                scroll: Some(DarkTheme::spec_scroll_style(s)),
            },
        }
    }

    /// Choice style.
    pub fn choice_style(&self) -> (r: ChoiceStyle)
        ensures
            r == DarkTheme::spec_choice_style(self.s),
    {
        ChoiceStyle {
            style: self.text_input(),
            button: Some(self.text_input()),
            select: Some(self.select()),
            focus: Some(self.focus()),
            popup: PopupStyle {
                style: self.text_input(),
                block: Some(Block::bordered()),
                scroll: Some(self.scroll_style()),
            },
        }
    }

    /// The pager record: the container role as base and divider, the
    /// shared selection role for the navigation marks.
    pub open spec fn spec_pager_style(s: Scheme) -> PagerStyle {
        PagerStyle {
            style: DarkTheme::spec_container(s),
            nav: Some(DarkTheme::spec_select(s)),
            divider: Some(DarkTheme::spec_container(s)),
        }
    }

    /// Pager style.
    pub fn pager_style(&self) -> (r: PagerStyle)
        ensures
            r == DarkTheme::spec_pager_style(self.s),
    {
        PagerStyle {
            style: self.container(),
            nav: Some(self.select()),
            divider: Some(self.container()),
        }
    }

    /// The clipper record: only the shared scrollbar record.
    pub open spec fn spec_clipper_style(s: Scheme) -> ClipperStyle {
        ClipperStyle { scroll: Some(DarkTheme::spec_scroll_style(s)) }
    }

    /// Clipper style.
    pub fn clipper_style(&self) -> (r: ClipperStyle)
        ensures
            r == DarkTheme::spec_clipper_style(self.s),
    {
        ClipperStyle { scroll: Some(self.scroll_style()) }
    }
}

} // verus!
