use rat_theme::widget::{Block, PopupStyle, ShadowDirection};
use rat_theme::{Color, DarkTheme, Scheme, Style};

fn ramp(base: u8) -> [Color; 4] {
    [
        Color::rgb(base, 1, 1),
        Color::rgb(base, 2, 2),
        Color::rgb(base, 3, 3),
        Color::rgb(base, 4, 4),
    ]
}

fn sample_scheme() -> Scheme {
    Scheme {
        white: ramp(10),
        black: ramp(20),
        gray: ramp(30),
        red: ramp(40),
        orange: ramp(50),
        yellow: ramp(60),
        limegreen: ramp(70),
        green: ramp(80),
        bluegreen: ramp(90),
        cyan: ramp(100),
        blue: ramp(110),
        deepblue: ramp(120),
        purple: ramp(130),
        magenta: ramp(140),
        redpink: ramp(150),
        primary: ramp(160),
        secondary: ramp(170),
    }
}

fn sample_theme() -> DarkTheme {
    DarkTheme::new("sample".to_string(), sample_scheme())
}

fn fg_bg(f: Color, b: Color) -> Style {
    Style::new().fg(f).bg(b)
}

#[test]
fn theme_basics() {
    let t = sample_theme();
    assert_eq!(t.name(), "sample");
    assert!(t.dark_theme());
    assert_eq!(*t.scheme(), sample_scheme());
}

#[test]
fn ramp_accessors_give_foreground_only_styles() {
    let t = sample_theme();
    let s = sample_scheme();
    for n in 0..4 {
        assert_eq!(t.white(n), s.style(s.white[n]));
        assert_eq!(t.black(n), s.style(s.black[n]));
        assert_eq!(t.gray(n), s.style(s.gray[n]));
        assert_eq!(t.red(n), s.style(s.red[n]));
        assert_eq!(t.orange(n), s.style(s.orange[n]));
        assert_eq!(t.yellow(n), s.style(s.yellow[n]));
        assert_eq!(t.limegreen(n), s.style(s.limegreen[n]));
        assert_eq!(t.green(n), s.style(s.green[n]));
        assert_eq!(t.bluegreen(n), s.style(s.bluegreen[n]));
        assert_eq!(t.cyan(n), s.style(s.cyan[n]));
        assert_eq!(t.blue(n), s.style(s.blue[n]));
        assert_eq!(t.deepblue(n), s.style(s.deepblue[n]));
        assert_eq!(t.purple(n), s.style(s.purple[n]));
        assert_eq!(t.magenta(n), s.style(s.magenta[n]));
        assert_eq!(t.redpink(n), s.style(s.redpink[n]));
        assert_eq!(t.primary(n), s.style(s.primary[n]));
        assert_eq!(t.secondary(n), s.style(s.secondary[n]));
    }
    assert_eq!(t.red(2).fg, Some(s.red[2]));
    assert_eq!(t.red(2).bg, None);
}

#[test]
fn semantic_roles_match_table() {
    let t = sample_theme();
    let s = sample_scheme();
    assert_eq!(t.focus(), fg_bg(s.text_color(s.primary[2]), s.primary[2]));
    assert_eq!(t.select(), fg_bg(s.text_color(s.secondary[1]), s.secondary[1]));
    assert_eq!(t.text_input(), fg_bg(s.black[0], s.gray[3]));
    assert_eq!(t.text_focus(), fg_bg(s.text_color(s.primary[0]), s.primary[0]));
    assert_eq!(t.text_select(), fg_bg(s.text_color(s.secondary[0]), s.secondary[0]));
    assert_eq!(t.container(), fg_bg(s.gray[0], s.black[1]));
    assert_eq!(t.data(), fg_bg(s.white[0], s.black[1]));
    assert_eq!(t.dialog_style(), fg_bg(s.white[2], s.gray[1]));
    assert_eq!(t.status_style(), fg_bg(s.white[0], s.black[2]));
}

#[test]
fn nested_styles_are_shared() {
    let t = sample_theme();
    assert_eq!(t.textarea_style().scroll, Some(t.scroll_style()));
    assert_eq!(t.paragraph_style().scroll, Some(t.scroll_style()));
    assert_eq!(t.table_style().scroll, Some(t.scroll_style()));
    assert_eq!(t.list_style().scroll, Some(t.scroll_style()));
    assert_eq!(t.view_style().scroll, Some(t.scroll_style()));
    assert_eq!(t.clipper_style().scroll, Some(t.scroll_style()));
    assert_eq!(t.choice_style().popup.scroll, Some(t.scroll_style()));
    assert_eq!(t.msg_dialog_style().button, t.button_style());
    assert_eq!(t.file_dialog_style().button, Some(t.button_style()));
    assert_eq!(t.menu_style().popup.style, t.menu_style().style);
}

#[test]
fn equal_schemes_give_equal_styles() {
    let a = DarkTheme::new("first".to_string(), sample_scheme());
    let b = DarkTheme::new("second".to_string(), sample_scheme());
    assert_eq!(a.focus(), b.focus());
    assert_eq!(a.select(), b.select());
    assert_eq!(a.text_input(), b.text_input());
    assert_eq!(a.text_focus(), b.text_focus());
    assert_eq!(a.text_select(), b.text_select());
    assert_eq!(a.container(), b.container());
    assert_eq!(a.data(), b.data());
    assert_eq!(a.dialog_style(), b.dialog_style());
    assert_eq!(a.status_style(), b.status_style());
    assert_eq!(a.shadow_style(), b.shadow_style());
    assert_eq!(a.line_nr_style(), b.line_nr_style());
    assert_eq!(a.textarea_style(), b.textarea_style());
    assert_eq!(a.input_style(), b.input_style());
    assert_eq!(a.menu_style(), b.menu_style());
    assert_eq!(a.paragraph_style(), b.paragraph_style());
    assert_eq!(a.table_style(), b.table_style());
    assert_eq!(a.list_style(), b.list_style());
    assert_eq!(a.button_style(), b.button_style());
    assert_eq!(a.scroll_style(), b.scroll_style());
    assert_eq!(a.split_style(), b.split_style());
    assert_eq!(a.view_style(), b.view_style());
    assert_eq!(a.tabbed_style(), b.tabbed_style());
    assert_eq!(a.statusline_style(), b.statusline_style());
    assert_eq!(a.msg_dialog_style(), b.msg_dialog_style());
    assert_eq!(a.file_dialog_style(), b.file_dialog_style());
    assert_eq!(a.choice_style(), b.choice_style());
    assert_eq!(a.pager_style(), b.pager_style());
    assert_eq!(a.clipper_style(), b.clipper_style());
}

#[test]
fn data_and_status_follow_role_table_literally() {
    // black holds four distinct dark shades, white four equal bright-ish
    // shades, so that text_color over any black shade gives white[0]'s value
    let w = Color::rgb(200, 200, 200);
    let mut s = sample_scheme();
    s.black = [
        Color::rgb(5, 5, 5),
        Color::rgb(15, 15, 15),
        Color::rgb(25, 25, 25),
        Color::rgb(35, 35, 35),
    ];
    s.white = [w, w, w, w];
    assert_eq!(s.text_color(s.black[1]), w);
    let t = DarkTheme::new("scenario".to_string(), s);
    assert_eq!(t.data(), fg_bg(w, s.black[1]));
    assert_eq!(t.status_style(), fg_bg(w, s.black[2]));
    // the two roles differ only in background; the status foreground is the
    // fixed white[0], not re-derived through the contrast rule
    assert_eq!(t.data().fg, t.status_style().fg);
    assert_ne!(t.data().bg, t.status_style().bg);
}

#[test]
fn statusline_has_status_then_blue_indicators() {
    let t = sample_theme();
    let s = sample_scheme();
    let line = t.statusline_style();
    assert_eq!(line.len(), 4);
    assert_eq!(line[0], t.status_style());
    assert_eq!(line[1], fg_bg(s.text_color(s.white[0]), s.blue[3]));
    assert_eq!(line[2], fg_bg(s.text_color(s.white[0]), s.blue[2]));
    assert_eq!(line[3], fg_bg(s.text_color(s.white[0]), s.blue[1]));
}

#[test]
fn widget_records_hold_expected_fields() {
    let t = sample_theme();
    let s = sample_scheme();

    let shadow = t.shadow_style();
    assert_eq!(shadow.style, Style::new().bg(s.black[0]));
    assert_eq!(shadow.dir, ShadowDirection::BottomRight);

    let line_nr = t.line_nr_style();
    assert_eq!(line_nr.style, fg_bg(s.gray[0], s.black[1]));
    assert_eq!(line_nr.cursor, Some(t.text_select()));

    let textarea = t.textarea_style();
    assert_eq!(textarea.style, t.data());
    assert_eq!(textarea.focus, Some(t.focus()));
    assert_eq!(textarea.select, Some(t.text_select()));
    assert_eq!(textarea.invalid, None);

    let input = t.input_style();
    assert_eq!(input.style, t.text_input());
    assert_eq!(input.focus, Some(t.text_focus()));
    assert_eq!(input.select, Some(t.text_select()));
    assert_eq!(input.invalid, Some(Style::new().bg(s.red[3])));
    assert_eq!(input.scroll, None);

    let scroll = t.scroll_style();
    assert_eq!(scroll.thumb_style, Some(t.container()));
    assert_eq!(scroll.track_style, Some(t.container()));
    assert_eq!(scroll.min_style, Some(t.container()));
    assert_eq!(scroll.begin_style, Some(fg_bg(s.secondary[0], s.black[1])));
    assert_eq!(scroll.end_style, Some(fg_bg(s.secondary[0], s.black[1])));

    let split = t.split_style();
    assert_eq!(split.style, t.container());
    assert_eq!(split.arrow_style, Some(fg_bg(s.secondary[0], s.black[1])));
    assert_eq!(split.drag_style, Some(t.focus()));

    let button = t.button_style();
    assert_eq!(button.style, fg_bg(s.text_color(s.primary[0]), s.primary[0]));
    assert_eq!(button.focus, Some(fg_bg(s.text_color(s.primary[3]), s.primary[3])));
    assert_eq!(button.armed, Some(fg_bg(s.black[0], s.secondary[0])));

    let tabbed = t.tabbed_style();
    assert_eq!(tabbed.style, t.container());
    assert_eq!(tabbed.tab, Some(t.gray(1)));
    assert_eq!(tabbed.select, Some(t.gray(3)));
    assert_eq!(tabbed.focus, Some(t.focus()));

    let table = t.table_style();
    assert_eq!(table.style, t.data());
    assert_eq!(table.select_row, Some(t.select()));
    assert!(table.show_row_focus);
    assert_eq!(table.focus_style, Some(t.focus()));

    let list = t.list_style();
    assert_eq!(list.style, t.data());
    assert_eq!(list.select, Some(t.select()));
    assert_eq!(list.focus, Some(t.focus()));

    let pager = t.pager_style();
    assert_eq!(pager.style, t.container());
    assert_eq!(pager.nav, Some(t.select()));
    assert_eq!(pager.divider, Some(t.container()));
}

#[test]
fn menu_and_dialog_records_hold_expected_fields() {
    let t = sample_theme();
    let s = sample_scheme();

    let menu = t.menu_style();
    assert_eq!(menu.style, fg_bg(s.white[3], s.black[2]));
    assert_eq!(menu.title, Some(fg_bg(s.black[0], s.yellow[2])));
    assert_eq!(menu.select, Some(t.select()));
    assert_eq!(menu.focus, Some(t.focus()));
    assert_eq!(menu.right, Some(Style::new().fg(s.bluegreen[0])));
    assert_eq!(menu.disabled, Some(Style::new().fg(s.gray[0])));
    assert_eq!(menu.highlight, Some(Style::new().underlined()));
    assert_eq!(
        menu.popup,
        PopupStyle { style: menu.style, block: Some(Block::bordered()), scroll: None }
    );

    let msg = t.msg_dialog_style();
    assert_eq!(msg.style, t.dialog_style());

    let file = t.file_dialog_style();
    assert_eq!(file.style, t.dialog_style());
    assert_eq!(file.list, Some(t.data()));
    assert_eq!(file.path, Some(t.text_input()));
    assert_eq!(file.name, Some(t.text_input()));
    assert_eq!(file.new, Some(t.text_input()));
    assert_eq!(file.invalid, Some(Style::new().fg(s.red[3]).bg(s.gray[2])));
    assert_eq!(file.select, Some(t.select()));
    assert_eq!(file.focus, Some(t.focus()));

    let choice = t.choice_style();
    assert_eq!(choice.style, t.text_input());
    assert_eq!(choice.button, Some(t.text_input()));
    assert_eq!(choice.select, Some(t.select()));
    assert_eq!(choice.focus, Some(t.focus()));
    assert_eq!(choice.popup.style, t.text_input());
    assert_eq!(choice.popup.block, Some(Block::bordered()));
}
