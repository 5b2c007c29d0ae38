//! The library-wide laws, stated and proved once: determinism of the
//! contrast rule, the semantic-role table, sharing of nested style
//! records, and agreement of themes built over equal schemes.

use vstd::prelude::*;

use crate::scheme::Scheme;
use crate::style::{Color, Style};
use crate::theme::DarkTheme;

verus! {

/// The contrast rule is a pure function of the scheme and the background:
/// equal inputs give equal results, however often it is asked. It is also
/// total: `spec_text_color` is defined for every color, so every shade of
/// every ramp has a readable text color.
pub proof fn lemma_text_color_deterministic(s1: Scheme, s2: Scheme, bg1: Color, bg2: Color)
    requires
        s1 == s2,
        bg1 == bg2,
    ensures
        s1.spec_text_color(bg1) == s2.spec_text_color(bg2),
{
}

/// Each semantic role draws its colors from the fixed ramp/shade table:
/// focus from primary shade 2, selection from secondary shade 1, text
/// input from gray shade 3 under a fixed black shade 0 foreground,
/// focused text from primary shade 0, text selection from secondary
/// shade 0, container and data from black shade 1, dialog from gray
/// shade 1, status from black shade 2. Where the table says
/// "contrast-picked", the foreground is the contrast rule applied to
/// that same background.
pub proof fn lemma_semantic_role_table(s: Scheme)
    ensures
        DarkTheme::spec_focus(s) == Style::spec_fg_bg(s.spec_text_color(s.primary@[2]), s.primary@[2]),
        DarkTheme::spec_select(s) == Style::spec_fg_bg(
            s.spec_text_color(s.secondary@[1]),
            s.secondary@[1],
        ),
        DarkTheme::spec_text_input(s) == Style::spec_fg_bg(s.black@[0], s.gray@[3]),
        DarkTheme::spec_text_focus(s) == Style::spec_fg_bg(
            s.spec_text_color(s.primary@[0]),
            s.primary@[0],
        ),
        DarkTheme::spec_text_select(s) == Style::spec_fg_bg(
            s.spec_text_color(s.secondary@[0]),
            s.secondary@[0],
        ),
        DarkTheme::spec_container(s) == Style::spec_fg_bg(s.gray@[0], s.black@[1]),
        DarkTheme::spec_data(s) == Style::spec_fg_bg(s.white@[0], s.black@[1]),
        DarkTheme::spec_dialog_style(s) == Style::spec_fg_bg(s.white@[2], s.gray@[1]),
        DarkTheme::spec_status_style(s) == Style::spec_fg_bg(s.white@[0], s.black@[2]),
{
}

/// Nested style records are shared, never re-derived: the scrollbar
/// record embedded in the text-area, paragraph, table, list, view,
/// clipper and choice-popup records is the very record `scroll_style`
/// returns; the two dialog records embed the button record verbatim; and
/// the menu popup repeats the menu's own base style.
pub proof fn lemma_nested_composition(s: Scheme)
    ensures
        DarkTheme::spec_textarea_style(s).scroll == Some(DarkTheme::spec_scroll_style(s)),
        DarkTheme::spec_paragraph_style(s).scroll == Some(DarkTheme::spec_scroll_style(s)),
        DarkTheme::spec_table_style(s).scroll == Some(DarkTheme::spec_scroll_style(s)),
        DarkTheme::spec_list_style(s).scroll == Some(DarkTheme::spec_scroll_style(s)),
        DarkTheme::spec_view_style(s).scroll == Some(DarkTheme::spec_scroll_style(s)),
        DarkTheme::spec_clipper_style(s).scroll == Some(DarkTheme::spec_scroll_style(s)),
        DarkTheme::spec_choice_style(s).popup.scroll == Some(DarkTheme::spec_scroll_style(s)),
        DarkTheme::spec_msg_dialog_style(s).button == DarkTheme::spec_button_style(s),
        DarkTheme::spec_file_dialog_style(s).button == Some(DarkTheme::spec_button_style(s)),
        DarkTheme::spec_menu_style(s).popup.style == DarkTheme::spec_menu_style(s).style,
{
}

/// Two themes built over equal schemes agree, field for field, on every
/// derived role and every widget record: each accessor is a pure
/// function of the scheme, with no hidden state.
pub proof fn lemma_equal_schemes_agree(a: DarkTheme, b: DarkTheme)
    requires
        a.s == b.s,
    ensures
        DarkTheme::spec_focus(a.s) == DarkTheme::spec_focus(b.s),
        DarkTheme::spec_select(a.s) == DarkTheme::spec_select(b.s),
        DarkTheme::spec_text_input(a.s) == DarkTheme::spec_text_input(b.s),
        DarkTheme::spec_text_focus(a.s) == DarkTheme::spec_text_focus(b.s),
        DarkTheme::spec_text_select(a.s) == DarkTheme::spec_text_select(b.s),
        DarkTheme::spec_container(a.s) == DarkTheme::spec_container(b.s),
        DarkTheme::spec_data(a.s) == DarkTheme::spec_data(b.s),
        DarkTheme::spec_dialog_style(a.s) == DarkTheme::spec_dialog_style(b.s),
        DarkTheme::spec_status_style(a.s) == DarkTheme::spec_status_style(b.s),
        DarkTheme::spec_shadow_style(a.s) == DarkTheme::spec_shadow_style(b.s),
        DarkTheme::spec_line_nr_style(a.s) == DarkTheme::spec_line_nr_style(b.s),
        DarkTheme::spec_textarea_style(a.s) == DarkTheme::spec_textarea_style(b.s),
        DarkTheme::spec_input_style(a.s) == DarkTheme::spec_input_style(b.s),
        DarkTheme::spec_menu_style(a.s) == DarkTheme::spec_menu_style(b.s),
        DarkTheme::spec_paragraph_style(a.s) == DarkTheme::spec_paragraph_style(b.s),
        DarkTheme::spec_table_style(a.s) == DarkTheme::spec_table_style(b.s),
        DarkTheme::spec_list_style(a.s) == DarkTheme::spec_list_style(b.s),
        DarkTheme::spec_button_style(a.s) == DarkTheme::spec_button_style(b.s),
        DarkTheme::spec_scroll_style(a.s) == DarkTheme::spec_scroll_style(b.s),
        DarkTheme::spec_split_style(a.s) == DarkTheme::spec_split_style(b.s),
        DarkTheme::spec_view_style(a.s) == DarkTheme::spec_view_style(b.s),
        DarkTheme::spec_tabbed_style(a.s) == DarkTheme::spec_tabbed_style(b.s),
        DarkTheme::spec_statusline_style(a.s) == DarkTheme::spec_statusline_style(b.s),
        DarkTheme::spec_msg_dialog_style(a.s) == DarkTheme::spec_msg_dialog_style(b.s),
        DarkTheme::spec_file_dialog_style(a.s) == DarkTheme::spec_file_dialog_style(b.s),
        DarkTheme::spec_choice_style(a.s) == DarkTheme::spec_choice_style(b.s),
        DarkTheme::spec_pager_style(a.s) == DarkTheme::spec_pager_style(b.s),
        DarkTheme::spec_clipper_style(a.s) == DarkTheme::spec_clipper_style(b.s),
{
}

} // verus!
