use soureigate::app::{
    App, AppMode, CopySource, Effect, InputTarget, Note, SidebarFocus, SidebarItem, SplitLayout,
    SplitState,
};
use soureigate::config::{Category, CommandSnippet, Config, Server, Settings};
use soureigate::events::{is_double_click, Mouse, MouseKind};
use soureigate::filter::{filter_servers, global_search};

fn server(name: &str, host: &str, port: u16) -> Server {
    Server {
        name: name.to_string(),
        host: host.to_string(),
        port,
        user: "root".to_string(),
        status: String::new(),
        ip_public: String::new(),
        subnet: String::new(),
    }
}

fn category(name: &str, servers: Vec<Server>) -> Category {
    Category { name: name.to_string(), servers }
}

fn config() -> Config {
    Config {
        categories: vec![
            category(
                "Prod",
                vec![server("web-1", "10.0.0.1", 22), server("db-1", "10.0.0.2", 2222)],
            ),
            category("VMs > lab", vec![server("vm-a", "10.1.0.1", 22)]),
            category("Staging", vec![server("web-stg", "10.2.0.1", 22)]),
        ],
        settings: Settings { ssh_key: String::new() },
        commands: vec![CommandSnippet {
            name: "Uptime".to_string(),
            key: "u".to_string(),
            command: "uptime".to_string(),
        }],
        loaded_from_api: false,
    }
}

fn opened_names(effects: &[Effect]) -> Vec<String> {
    effects
        .iter()
        .filter_map(|e| match e {
            Effect::OpenTerminal(s) => Some(s.name.clone()),
            _ => None,
        })
        .collect()
}

#[test]
fn display_address_hides_the_default_port() {
    assert_eq!(server("a", "h", 22).display_addr(), "h");
    assert_eq!(server("a", "h", 2222).display_addr(), "h:2222");
}

#[test]
fn new_app_lists_the_first_category() {
    let app = App::new(config());
    assert_eq!(app.mode, AppMode::Browse);
    assert_eq!(app.filtered_indices, vec![0, 1]);
    assert_eq!(app.category_index, 0);
    assert!(app.tabs.is_empty());
}

#[test]
fn sidebar_groups_the_vm_categories() {
    let app = App::new(config());
    assert_eq!(app.sidebar_items.len(), 3);
    assert!(matches!(app.sidebar_items[0], SidebarItem::Category(0)));
    assert!(matches!(app.sidebar_items[1], SidebarItem::Category(2)));
    match &app.sidebar_items[2] {
        SidebarItem::GroupHeader { prefix, expanded, count } => {
            assert_eq!(prefix, "VMs");
            assert!(!expanded);
            assert_eq!(*count, 1);
        }
        _ => panic!("expected the VM group"),
    }
}

#[test]
fn entering_the_group_header_expands_it() {
    let mut app = App::new(config());
    app.sidebar_index = 2;
    let effects = app.enter_nav();
    assert!(effects.is_empty());
    assert!(app.vm_expanded);
    assert_eq!(app.sidebar_items.len(), 4);
    assert!(matches!(app.sidebar_items[3], SidebarItem::GroupChild(1)));
}

#[test]
fn moving_in_the_sidebar_selects_the_category() {
    let mut app = App::new(config());
    app.move_down();
    assert_eq!(app.sidebar_index, 1);
    assert_eq!(app.category_index, 2);
    assert_eq!(app.filtered_indices, vec![0]);
    app.move_up();
    assert_eq!(app.category_index, 0);
    app.move_up();
    assert_eq!(app.sidebar_index, 0);
}

#[test]
fn filter_matches_name_or_host_ignoring_case() {
    let servers = vec![server("Web-1", "10.0.0.1", 22), server("db", "DB.example", 22)];
    assert_eq!(filter_servers(&servers, "WEB"), vec![0]);
    assert_eq!(filter_servers(&servers, "example"), vec![1]);
    assert_eq!(filter_servers(&servers, ""), vec![0, 1]);
    assert_eq!(filter_servers(&servers, "zzz"), Vec::<usize>::new());
}

#[test]
fn global_search_walks_every_category() {
    let cfg = config();
    let hits = global_search(&cfg.categories, "web");
    assert_eq!(hits.len(), 2);
    assert_eq!((hits[0].category_index, hits[0].server_index), (0, 0));
    assert_eq!((hits[1].category_index, hits[1].server_index), (2, 0));
    assert_eq!(hits[1].category_name, "Staging");
    assert!(global_search(&cfg.categories, "").is_empty());
}

#[test]
fn typing_a_search_filters_the_list() {
    let mut app = App::new(config());
    app.toggle_sidebar_focus();
    app.enter_search();
    assert!(!app.is_global_search);
    app.search_push('d');
    app.search_push('b');
    assert_eq!(app.filtered_indices, vec![1]);
    app.search_backspace();
    app.search_backspace();
    assert_eq!(app.filtered_indices, vec![0, 1]);
}

#[test]
fn global_search_then_enter_goes_to_the_hit() {
    let mut app = App::new(config());
    app.enter_search();
    assert!(app.is_global_search);
    for c in "stg".chars() {
        app.search_push(c);
    }
    assert_eq!(app.global_results.len(), 1);
    app.confirm_search();
    assert_eq!(app.category_index, 2);
    assert_eq!(app.sidebar_focus, SidebarFocus::ServerList);
    assert_eq!(app.mode, AppMode::Browse);
    assert!(app.global_results.is_empty());
}

#[test]
fn connecting_puts_the_server_first_in_recent() {
    let mut app = App::new(config());
    app.toggle_sidebar_focus();
    let effects = app.enter_nav();
    assert_eq!(opened_names(&effects), vec!["web-1".to_string()]);
    assert_eq!(app.recent_connections.len(), 1);
    assert!(matches!(app.sidebar_items[0], SidebarItem::RecentHeader));
    assert!(matches!(app.sidebar_items[1], SidebarItem::Recent(0)));
}

#[test]
fn recent_connections_keep_five_distinct_names() {
    let mut app = App::new(config());
    for i in 0..7 {
        let s = server(&format!("s{}", i), "h", 22);
        app.push_recent(&s);
    }
    app.push_recent(&server("s4", "other", 22));
    let names: Vec<&str> = app.recent_connections.iter().map(|s| s.name.as_str()).collect();
    assert_eq!(names, vec!["s4", "s6", "s5", "s3", "s2"]);
    assert_eq!(app.recent_connections[0].host, "other");
}

#[test]
fn marked_servers_connect_together_and_split() {
    let mut app = App::new(config());
    app.toggle_sidebar_focus();
    app.toggle_select();
    app.move_down();
    app.toggle_select();
    assert!(app.is_selected(0) && app.is_selected(1));
    let effects = app.connect_selected();
    assert_eq!(opened_names(&effects), vec!["web-1".to_string(), "db-1".to_string()]);
    assert!(matches!(effects.last(), Some(Effect::ArrangeSplit(2))));
    assert!(!app.has_selection());
    app.terminal_opened("web-1".to_string());
    app.terminal_opened("db-1".to_string());
    app.arrange_split_after_connect(2);
    let split = app.split.as_ref().unwrap();
    assert_eq!(split.layout, SplitLayout::Vertical2);
    assert_eq!(split.panes, vec![1, 0]);
}

#[test]
fn toggle_select_twice_unmarks() {
    let mut app = App::new(config());
    app.toggle_select();
    assert!(app.is_selected(0));
    app.toggle_select();
    assert!(!app.has_selection());
}

#[test]
fn split_cycles_through_the_layouts() {
    let mut app = App::new(config());
    for name in ["a", "b", "c", "d"] {
        app.terminal_opened(name.to_string());
    }
    assert_eq!(app.active_tab, Some(3));
    app.toggle_split();
    assert_eq!(app.split.as_ref().unwrap().layout, SplitLayout::Vertical2);
    assert_eq!(app.split.as_ref().unwrap().panes, vec![3, 0]);
    app.toggle_split();
    assert_eq!(app.split.as_ref().unwrap().layout, SplitLayout::Horizontal2);
    app.toggle_split();
    assert_eq!(app.split.as_ref().unwrap().layout, SplitLayout::Triple);
    app.toggle_split();
    assert_eq!(app.split.as_ref().unwrap().layout, SplitLayout::Quad);
    assert_eq!(app.split.as_ref().unwrap().panes.len(), 4);
    app.toggle_split();
    assert!(app.split.is_none());
}

#[test]
fn split_needs_two_tabs() {
    let mut app = App::new(config());
    app.terminal_opened("a".to_string());
    app.toggle_split();
    assert!(app.split.is_none());
}

#[test]
fn next_then_previous_tab_comes_back() {
    let mut app = App::new(config());
    for name in ["a", "b", "c"] {
        app.terminal_opened(name.to_string());
    }
    app.active_tab = Some(1);
    app.next_tab();
    assert_eq!(app.active_tab, Some(2));
    app.next_tab();
    assert_eq!(app.active_tab, Some(0));
    app.prev_tab();
    app.prev_tab();
    assert_eq!(app.active_tab, Some(1));
}

#[test]
fn closing_a_tab_activates_the_one_before() {
    let mut app = App::new(config());
    for name in ["a", "b", "c"] {
        app.terminal_opened(name.to_string());
    }
    app.active_tab = Some(1);
    let effects = app.close_active_tab();
    assert!(matches!(effects[..], [Effect::TabClosed(1)]));
    assert_eq!(app.active_tab, Some(0));
    assert_eq!(app.tabs.len(), 2);
    app.close_active_tab();
    app.close_active_tab();
    assert!(app.tabs.is_empty());
    assert_eq!(app.active_tab, None);
    assert_eq!(app.mode, AppMode::Browse);
}

#[test]
fn broadcast_toggles_back() {
    let mut app = App::new(config());
    app.toggle_broadcast();
    assert!(app.broadcast);
    app.toggle_broadcast();
    assert!(!app.broadcast);
}

#[test]
fn copy_ip_asks_for_the_host() {
    let mut app = App::new(config());
    app.clipboard_msg = Some("old".to_string());
    let effects = app.copy_ip();
    assert_eq!(app.clipboard_msg, None);
    match &effects[..] {
        [Effect::Copy { source: CopySource::Text(t), on_ok: Some(Note::IpCopied(ip)), on_fail: Some(Note::IpCopyFailed) }] => {
            assert_eq!(t, "10.0.0.1");
            assert_eq!(ip, "10.0.0.1");
        }
        _ => panic!("expected one copy"),
    }
    app.clipboard_done(true, Some(Note::IpCopied("10.0.0.1".to_string())), Some(Note::IpCopyFailed));
    assert_eq!(app.clipboard_msg.as_deref(), Some("IP copied: 10.0.0.1"));
    app.clipboard_done(false, None, Some(Note::InstallClipboardTool));
    assert_eq!(
        app.clipboard_msg.as_deref(),
        Some("Failed: install xclip (sudo apt install xclip)")
    );
}

#[test]
fn note_texts() {
    assert_eq!(Note::LinesCopied(50).text(), "50 lines copied!");
    assert_eq!(Note::ScreenCopied.text(), "Screen copied!");
    assert_eq!(Note::SelectionCopied.text(), "Selection copied!");
    assert_eq!(Note::IpCopyFailed.text(), "Failed to copy IP");
}

#[test]
fn detail_and_help_popups() {
    let mut app = App::new(config());
    app.show_detail();
    assert_eq!(app.mode, AppMode::Detail);
    assert_eq!(app.detail_server.as_ref().unwrap().name, "web-1");
    app.go_back_nav();
    assert_eq!(app.mode, AppMode::Browse);
    assert!(app.detail_server.is_none());
    app.show_help();
    assert_eq!(app.mode, AppMode::Help);
    app.close_help();
    assert_eq!(app.mode, AppMode::Browse);
}

#[test]
fn write_input_all_targets_every_tab() {
    let app = App::new(config());
    let effects = app.write_input_all(b"ls\n");
    match &effects[..] {
        [Effect::WriteInput(InputTarget::All, b)] => assert_eq!(b, b"ls\n"),
        _ => panic!("expected one write"),
    }
}

#[test]
fn dead_session_is_reconnected_in_place() {
    let mut app = App::new(config());
    app.toggle_sidebar_focus();
    app.enter_nav();
    app.terminal_opened("web-1".to_string());
    app.check_dead_sessions(true);
    let (idx, server) = app.reconnect_server.clone().unwrap();
    assert_eq!(idx, 0);
    assert_eq!(server.name, "web-1");
    let effects = app.reconnect_active();
    assert!(matches!(effects[..], [Effect::ReconnectTab(0, _)]));
    assert_eq!(app.tab_reconnected(0, "web-1".to_string()), Some(0));
    assert_eq!(app.tabs.len(), 1);
}

#[test]
fn double_click_needs_the_same_cell_soon_after() {
    assert!(is_double_click(Some((3, 4, 100)), 3, 4));
    assert!(!is_double_click(Some((3, 4, 400)), 3, 4));
    assert!(!is_double_click(Some((3, 5, 10)), 3, 4));
    assert!(!is_double_click(None, 3, 4));
}

#[test]
fn click_in_the_server_list_selects_the_row() {
    let mut app = App::new(config());
    app.mouse_serverlist_area = (30, 0, 50, 20);
    app.mouse_sidebar_area = (0, 0, 30, 20);
    // Row 0 is the border, row 1 the header: row 3 is the second server.
    let effects = app.handle_mouse(Mouse { kind: MouseKind::LeftDown, column: 40, row: 3 }, false);
    assert!(effects.is_empty());
    assert_eq!(app.server_index, 1);
    assert_eq!(app.sidebar_focus, SidebarFocus::ServerList);
}

#[test]
fn double_click_in_the_server_list_connects() {
    let mut app = App::new(config());
    app.mouse_serverlist_area = (30, 0, 50, 20);
    app.mouse_sidebar_area = (0, 0, 30, 20);
    let effects = app.handle_mouse(Mouse { kind: MouseKind::LeftDown, column: 40, row: 3 }, true);
    assert_eq!(opened_names(&effects), vec!["db-1".to_string()]);
    // The terminal shows once the session has been opened.
    assert_eq!(app.mode, AppMode::Browse);
    app.terminal_opened("db-1".to_string());
    assert_eq!(app.mode, AppMode::Terminal);
}

#[test]
fn wheel_over_the_server_list_moves_the_selection() {
    let mut app = App::new(config());
    app.mouse_serverlist_area = (30, 0, 50, 20);
    app.mouse_sidebar_area = (0, 0, 30, 20);
    app.handle_mouse(Mouse { kind: MouseKind::ScrollDown, column: 40, row: 5 }, false);
    assert_eq!(app.server_index, 1);
    app.handle_mouse(Mouse { kind: MouseKind::ScrollDown, column: 40, row: 5 }, false);
    assert_eq!(app.server_index, 1);
    app.handle_mouse(Mouse { kind: MouseKind::ScrollUp, column: 40, row: 5 }, false);
    assert_eq!(app.server_index, 0);
}

#[test]
fn click_outside_every_area_changes_nothing() {
    let mut app = App::new(config());
    app.mouse_serverlist_area = (30, 0, 50, 20);
    app.mouse_sidebar_area = (0, 0, 30, 20);
    let effects = app.handle_mouse(Mouse { kind: MouseKind::LeftDown, column: 100, row: 30 }, true);
    assert!(effects.is_empty());
    assert_eq!(app.server_index, 0);
    assert_eq!(app.mode, AppMode::Browse);
}

#[test]
fn search_type_then_erase_restores_the_results() {
    let mut app = App::new(config());
    app.toggle_sidebar_focus();
    app.enter_search();
    app.search_push('w');
    let before = app.filtered_indices.clone();
    app.search_push('q');
    assert!(app.filtered_indices.is_empty());
    app.search_backspace();
    assert_eq!(app.search_query, "w");
    assert_eq!(app.filtered_indices, before);
}

#[test]
fn move_down_then_up_comes_back() {
    let mut app = App::new(config());
    app.toggle_sidebar_focus();
    assert_eq!(app.sidebar_focus, SidebarFocus::ServerList);
    assert_eq!(app.server_index, 0);
    app.move_down();
    assert_eq!(app.server_index, 1);
    app.move_up();
    assert_eq!(app.server_index, 0);
}

#[test]
fn marks_stay_distinct() {
    let mut app = App::new(config());
    app.toggle_sidebar_focus();
    app.toggle_select();
    app.move_down();
    app.toggle_select();
    app.move_up();
    app.toggle_select();
    app.toggle_select();
    let mut marks = app.selected_servers.clone();
    marks.sort();
    marks.dedup();
    assert_eq!(marks.len(), app.selected_servers.len());
    assert_eq!(marks, vec![0, 1]);
}

#[test]
fn closing_a_tab_drops_every_repeated_pane() {
    let mut app = App::new(config());
    for name in ["a", "b", "c"] {
        app.terminal_opened(name.to_string());
    }
    app.split = Some(SplitState { layout: SplitLayout::Triple, panes: vec![1, 2, 0], focused_pane: 0 });
    app.active_tab = Some(1);
    app.close_active_tab();
    let split = app.split.clone().expect("two panes remain");
    assert_eq!(split.panes, vec![0, 1]);
    assert_eq!(app.active_tab, Some(0));
}
