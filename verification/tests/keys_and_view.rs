use soureigate::view::status_mark;
use soureigate::app::{
    App, AppMode, ContextAction, ContextArea, CopySource, Effect, InputTarget, Note, SidebarFocus,
    SplitLayout,
};
use soureigate::cells::{
    cell_look, cell_position, cursor_position, cursor_style, screen_color, CellColor, CellFlags,
    NamedColor, ScreenColor,
};
use soureigate::config::{Category, Config, Server, Settings};
use soureigate::keys::{key_op, key_to_bytes, Key, KeyCode, Op};
use soureigate::view::{
    column_widths, or_dash, pane_size, row_style, search_widths, status_indicator, terminal_area,
    Panel, RowLook,
    StatusMark, TableLayout,
};

fn server(name: &str, host: &str) -> Server {
    Server {
        name: name.to_string(),
        host: host.to_string(),
        port: 22,
        user: "root".to_string(),
        status: String::new(),
        ip_public: String::new(),
        subnet: String::new(),
    }
}

fn config() -> Config {
    Config {
        categories: vec![
            Category {
                name: "Prod".to_string(),
                servers: vec![server("web-1", "10.0.0.1"), server("db-1", "10.0.0.2")],
            },
            Category { name: "VMs > lab".to_string(), servers: vec![server("vm", "10.1.0.1")] },
        ],
        settings: Settings { ssh_key: String::new() },
        commands: vec![],
        loaded_from_api: false,
    }
}

fn key(code: KeyCode) -> Key {
    Key { code, ctrl: false, shift: false, alt: false }
}

fn ctrl(c: char) -> Key {
    Key { code: KeyCode::Char(c), ctrl: true, shift: false, alt: false }
}

#[test]
fn key_bytes_follow_xterm() {
    assert_eq!(key_to_bytes(KeyCode::Enter, false, false, false), Some(vec![13]));
    assert_eq!(key_to_bytes(KeyCode::Backspace, false, false, false), Some(vec![0x7f]));
    assert_eq!(key_to_bytes(KeyCode::Up, false, false, false), Some(b"\x1b[A".to_vec()));
    assert_eq!(key_to_bytes(KeyCode::Tab, false, true, false), Some(b"\x1b[Z".to_vec()));
    assert_eq!(key_to_bytes(KeyCode::Tab, false, false, false), Some(vec![9]));
    assert_eq!(key_to_bytes(KeyCode::F(1), false, false, false), Some(b"\x1bOP".to_vec()));
    assert_eq!(key_to_bytes(KeyCode::F(5), false, false, false), Some(b"\x1b[15~".to_vec()));
    assert_eq!(key_to_bytes(KeyCode::F(12), false, false, false), Some(b"\x1b[24~".to_vec()));
    assert_eq!(key_to_bytes(KeyCode::F(13), false, false, false), None);
    assert_eq!(key_to_bytes(KeyCode::Delete, false, false, false), Some(b"\x1b[3~".to_vec()));
    assert_eq!(key_to_bytes(KeyCode::BackTab, false, false, false), None);
}

#[test]
fn character_keys() {
    assert_eq!(key_to_bytes(KeyCode::Char('a'), true, false, false), Some(vec![1]));
    assert_eq!(key_to_bytes(KeyCode::Char('C'), true, false, false), Some(vec![3]));
    assert_eq!(key_to_bytes(KeyCode::Char('['), true, false, false), Some(vec![0x1b]));
    assert_eq!(key_to_bytes(KeyCode::Char('x'), false, false, true), Some(b"\x1bx".to_vec()));
    assert_eq!(key_to_bytes(KeyCode::Char('é'), false, false, false), Some("é".as_bytes().to_vec()));
    assert_eq!(key_to_bytes(KeyCode::Char('1'), true, false, false), Some(vec![b'1']));
}

#[test]
fn keys_per_mode() {
    assert!(matches!(key_op(AppMode::Browse, key(KeyCode::Char('q')), false, false), Op::Quit));
    assert!(matches!(key_op(AppMode::Browse, ctrl('c'), false, false), Op::Quit));
    assert!(matches!(key_op(AppMode::Browse, ctrl('q'), false, false), Op::Quit));
    assert!(matches!(key_op(AppMode::Browse, key(KeyCode::Char('G')), false, false), Op::JumpBottom));
    assert!(matches!(key_op(AppMode::Browse, key(KeyCode::Tab), false, false), Op::ToggleSidebarFocus));
    assert!(matches!(key_op(AppMode::Terminal, key(KeyCode::Enter), true, false), Op::Reconnect));
    assert!(matches!(key_op(AppMode::Terminal, key(KeyCode::Char('x')), true, false), Op::Nothing));
    assert!(matches!(key_op(AppMode::Terminal, ctrl('b'), false, false), Op::SwitchToBrowse));
    match key_op(AppMode::Terminal, key(KeyCode::F(6)), false, false) {
        Op::SendText(b) => assert_eq!(b, b"htop\n"),
        _ => panic!("expected htop"),
    }
    match key_op(AppMode::Terminal, key(KeyCode::Char('l')), false, false) {
        Op::TypeKey(b) => assert_eq!(b, b"l"),
        _ => panic!("expected the key's bytes"),
    }
    let shift_pgup = Key { code: KeyCode::PageUp, ctrl: false, shift: true, alt: false };
    assert!(matches!(key_op(AppMode::Terminal, shift_pgup, false, false), Op::ScrollBack(10)));
    assert!(matches!(key_op(AppMode::Search, key(KeyCode::Enter), false, true), Op::GlobalConnect));
    assert!(matches!(key_op(AppMode::Search, key(KeyCode::Enter), false, false), Op::ConfirmSearch));
    assert!(matches!(key_op(AppMode::Help, key(KeyCode::PageDown), false, false), Op::HelpDown(10)));
    assert!(matches!(key_op(AppMode::Palette, key(KeyCode::Char('x')), false, false), Op::PalettePush('x')));
    assert!(matches!(key_op(AppMode::Detail, key(KeyCode::Char('i')), false, false), Op::CloseDetail));
    assert!(matches!(key_op(AppMode::ConfirmDanger, key(KeyCode::Char('y')), false, false), Op::ConfirmDanger));
}

#[test]
fn handling_keys_in_the_list() {
    let mut app = App::new(config());
    app.clipboard_msg = Some("x".to_string());
    let effects = app.handle_key(key(KeyCode::Down), false);
    assert!(effects.is_empty());
    assert_eq!(app.clipboard_msg, None);
    assert_eq!(app.sidebar_index, 1);
    app.handle_key(key(KeyCode::Tab), false);
    assert_eq!(app.sidebar_focus, SidebarFocus::ServerList);
    let effects = app.handle_key(key(KeyCode::Char('q')), false);
    assert!(matches!(effects[..], [Effect::Quit]));
}

#[test]
fn handling_keys_in_the_terminal() {
    let mut app = App::new(config());
    app.terminal_opened("a".to_string());
    let effects = app.handle_key(key(KeyCode::Char('z')), false);
    match &effects[..] {
        [Effect::WriteInput(InputTarget::Tab(0), b), Effect::ScrollToBottom(InputTarget::Tab(0))] => {
            assert_eq!(b, b"z")
        }
        _ => panic!("expected the key to be typed"),
    }
    app.handle_key(key(KeyCode::F(5)), false);
    assert!(app.broadcast);
    let effects = app.handle_key(key(KeyCode::Char('z')), false);
    assert!(matches!(
        &effects[..],
        [Effect::WriteInput(InputTarget::All, _), Effect::ScrollToBottom(InputTarget::All)]
    ));
    let effects = app.handle_key(ctrl('w'), false);
    assert!(matches!(effects[..], [Effect::TabClosed(0), Effect::ClearScreen]));
    assert_eq!(app.mode, AppMode::Browse);
}

#[test]
fn focus_moves_between_panes() {
    let mut app = App::new(config());
    for n in ["a", "b", "c"] {
        app.terminal_opened(n.to_string());
    }
    let effects = app.handle_key(key(KeyCode::F(2)), false);
    assert!(matches!(effects[..], [Effect::ResizeSplit, Effect::ClearScreen]));
    assert_eq!(app.split.as_ref().unwrap().panes, vec![2, 0]);
    app.handle_key(key(KeyCode::F(3)), false);
    assert_eq!(app.split.as_ref().unwrap().focused_pane, 1);
    assert_eq!(app.active_tab, Some(0));
    app.handle_key(key(KeyCode::F(3)), false);
    assert_eq!(app.active_tab, Some(2));
    app.handle_key(key(KeyCode::F(4)), false);
    assert_eq!(app.active_tab, Some(0));
}

#[test]
fn context_menus() {
    let mut app = App::new(config());
    app.open_context_menu_serverlist(5, 6);
    let menu = app.context_menu.as_ref().unwrap();
    let labels: Vec<&str> = menu.items.iter().map(|i| i.label.as_str()).collect();
    assert_eq!(labels, vec!["Connect", "Copy IP", "Details", "Help"]);
    assert_eq!(menu.area, ContextArea::ServerList);
    app.context_menu_down();
    let effects = app.context_menu_execute();
    assert!(matches!(&effects[..], [Effect::Copy { source: CopySource::Text(_), .. }]));
    assert!(app.context_menu.is_none());

    app.terminal_opened("a".to_string());
    app.mouse_select_start = Some((1, 2));
    app.mouse_select_end = Some((3, 4));
    app.open_context_menu_terminal(0, 0, false);
    let labels: Vec<String> =
        app.context_menu.as_ref().unwrap().items.iter().map(|i| i.label.clone()).collect();
    assert_eq!(labels, vec!["Copy", "Copy 50 lines", "Copy 100 lines", "Close tab", "Broadcast", "Help"]);
    let (taken, effects) = app.context_menu_click(3, 1);
    assert!(taken);
    assert!(matches!(
        &effects[..],
        [Effect::Copy { source: CopySource::Selection(1, 2, 3, 4), on_ok: Some(Note::SelectionCopied), on_fail: None }]
    ));
    assert_eq!(app.mouse_select_start, None);

    app.open_context_menu_terminal(0, 0, true);
    let acts: Vec<ContextAction> =
        app.context_menu.as_ref().unwrap().items.iter().map(|i| i.action).collect();
    assert_eq!(acts, vec![ContextAction::Reconnect, ContextAction::Disconnect, ContextAction::Help]);
    let (taken, effects) = app.context_menu_click(40, 1);
    assert!(taken && effects.is_empty());
    assert!(app.context_menu.is_none());
    let (taken, _) = app.context_menu_click(1, 1);
    assert!(!taken);
}

#[test]
fn status_marks_and_highlights() {
    assert_eq!(status_indicator("Running"), StatusMark::Up);
    assert_eq!(status_indicator("DEPLOYING"), StatusMark::Pending);
    assert_eq!(status_indicator("failed"), StatusMark::Down);
    assert_eq!(status_indicator(""), StatusMark::Blank);
    assert_eq!(status_indicator("weird"), StatusMark::Unknown);
    assert_eq!(StatusMark::Unknown.glyph(), "○");
    assert_eq!(row_style(2, 2, true), RowLook::Focused);
    assert_eq!(row_style(2, 2, false), RowLook::Selected);
    assert_eq!(row_style(1, 2, true), RowLook::Plain);
}

#[test]
fn table_columns_share_the_width() {
    assert_eq!(column_widths(TableLayout::Wide, 104), vec![2, 34, 22, 16, 18, 8]);
    assert_eq!(column_widths(TableLayout::Medium, 60), vec![2, 24, 22, 8]);
    assert_eq!(column_widths(TableLayout::Simple, 20), vec![0, 22, 10]);
    assert_eq!(or_dash(&String::new()), "—");
    assert_eq!(or_dash(&"x".to_string()), "x");
    assert_eq!(pane_size(SplitLayout::Vertical2, 100, 40), (49, 38));
    assert_eq!(pane_size(SplitLayout::Horizontal2, 100, 40), (98, 19));
    assert_eq!(pane_size(SplitLayout::Quad, 100, 40), (49, 19));
    assert_eq!(terminal_area(120, 40, 28), (90, 36));
    assert_eq!(terminal_area(10, 3, 28), (0, 0));
}

#[test]
fn screen_texts() {
    let mut app = App::new(config());
    assert_eq!(app.body_panel(), Panel::ServerList);
    assert_eq!(app.server_list_title(), " Servers ");
    assert_eq!(app.empty_list_message(), "No servers in this category");
    assert_eq!(app.title_text("0.1.0"), " SoureiGate v0.1.0 > Prod");
    assert_eq!(app.sidebar_line(0), ("▸ Prod (2)".to_string(), false));
    assert_eq!(app.sidebar_line(1), ("  ▸ VMs (1)".to_string(), false));
    app.vm_expanded = true;
    app.rebuild_sidebar();
    assert_eq!(app.sidebar_line(2), ("    lab (1)".to_string(), true));
    app.toggle_sidebar_focus();
    app.enter_search();
    app.search_push('w');
    assert_eq!(app.server_list_title(), " Servers [/: w▎] ");
    app.confirm_search();
    assert_eq!(app.server_list_title(), " Servers [filter: w] ");
    assert_eq!(app.sessions_text(), "");
    app.terminal_opened("a".to_string());
    app.terminal_opened("b".to_string());
    assert_eq!(app.tab_info(), "Tab 2/2");
    assert_eq!(app.sessions_text(), " [2] sessões");
    assert_eq!(app.body_panel(), Panel::Terminal);
}

#[test]
fn status_marks_of_lowercase_text() {
    assert_eq!(status_mark("online"), StatusMark::Up);
    assert_eq!(status_mark("ONLINE"), StatusMark::Unknown);
    assert_eq!(status_mark("provisioning"), StatusMark::Pending);
    assert_eq!(status_mark("stopped"), StatusMark::Down);
}

fn no_flags() -> CellFlags {
    CellFlags {
        bold: false,
        italic: false,
        underline: false,
        inverse: false,
        dim: false,
        hidden: false,
        strikeout: false,
        wide_char_spacer: false,
    }
}

#[test]
fn named_cell_colours_map_to_screen_colours() {
    assert_eq!(screen_color(CellColor::Named(NamedColor::Black), true), ScreenColor::Rgb(0, 0, 0));
    assert_eq!(screen_color(CellColor::Named(NamedColor::DimRed), true), ScreenColor::Red);
    assert_eq!(screen_color(CellColor::Named(NamedColor::BrightBlack), true), ScreenColor::DarkGray);
    assert_eq!(screen_color(CellColor::Named(NamedColor::BrightCyan), false), ScreenColor::LightCyan);
    assert_eq!(screen_color(CellColor::Named(NamedColor::Cursor), false), ScreenColor::White);
}

#[test]
fn default_colours_are_white_on_black() {
    assert_eq!(screen_color(CellColor::Named(NamedColor::Foreground), true), ScreenColor::White);
    assert_eq!(screen_color(CellColor::Named(NamedColor::Foreground), false), ScreenColor::Rgb(0, 0, 0));
    assert_eq!(screen_color(CellColor::Named(NamedColor::Background), false), ScreenColor::Rgb(0, 0, 0));
    assert_eq!(screen_color(CellColor::Named(NamedColor::Background), true), ScreenColor::White);
}

#[test]
fn spec_and_indexed_colours_pass_through() {
    assert_eq!(screen_color(CellColor::Spec(1, 2, 3), true), ScreenColor::Rgb(1, 2, 3));
    assert_eq!(screen_color(CellColor::Indexed(200), false), ScreenColor::Indexed(200));
}

#[test]
fn cell_look_keeps_attributes_and_blanks_empty_cells() {
    let mut flags = no_flags();
    flags.bold = true;
    flags.inverse = true;
    let (c, style) = cell_look('\0', CellColor::Named(NamedColor::Green), CellColor::Indexed(4), flags).unwrap();
    assert_eq!(c, ' ');
    assert_eq!(style.fg, ScreenColor::Green);
    assert_eq!(style.bg, ScreenColor::Indexed(4));
    assert!(style.bold && style.reversed);
    assert!(!style.italic && !style.underlined && !style.dim && !style.hidden && !style.crossed_out);
    let (c, _) = cell_look('x', CellColor::Indexed(1), CellColor::Indexed(2), no_flags()).unwrap();
    assert_eq!(c, 'x');
}

#[test]
fn wide_char_spacers_paint_nothing() {
    let mut flags = no_flags();
    flags.wide_char_spacer = true;
    assert!(cell_look('a', CellColor::Indexed(1), CellColor::Indexed(2), flags).is_none());
}

#[test]
fn grid_cells_land_inside_area_grid_and_buffer() {
    let area = (10, 5, 4, 3);
    let buf = (0, 0, 12, 100);
    assert_eq!(cell_position(area, buf, 24, 80, 0, 0), Some((10, 5)));
    assert_eq!(cell_position(area, buf, 24, 80, 2, 1), Some((11, 7)));
    // Past the area, the grid or the buffer's right edge.
    assert_eq!(cell_position(area, buf, 24, 80, 3, 0), None);
    assert_eq!(cell_position(area, buf, 2, 80, 2, 0), None);
    assert_eq!(cell_position(area, buf, 24, 1, 0, 1), None);
    assert_eq!(cell_position(area, buf, 24, 80, 0, 2), None);
}

#[test]
fn cursor_is_drawn_only_inside_area_and_buffer() {
    let area = (10, 5, 4, 3);
    let buf = (0, 0, 100, 100);
    assert_eq!(cursor_position(area, buf, 1, 2), Some((12, 6)));
    assert_eq!(cursor_position(area, buf, 3, 0), None);
    assert_eq!(cursor_position(area, buf, 0, 4), None);
    assert_eq!(cursor_position(area, (0, 0, 11, 100), 0, 1), None);
    let s = cursor_style();
    assert_eq!((s.fg, s.bg, s.bold), (ScreenColor::Black, ScreenColor::White, true));
}

#[test]
fn search_columns_leave_the_rest_to_the_name() {
    assert_eq!(search_widths(100), (54, 22, 20));
    assert_eq!(search_widths(46), (0, 22, 20));
    assert_eq!(search_widths(10), (0, 22, 20));
}
