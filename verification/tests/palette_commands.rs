use soureigate::commands::has_danger_pattern;
use soureigate::app::{App, AppMode, CopySource, Effect, InputTarget, Note, PaletteAction};
use soureigate::config::{Category, CommandSnippet, Config, Server, Settings};

fn server(name: &str, host: &str, port: u16) -> Server {
    Server {
        name: name.to_string(),
        host: host.to_string(),
        port,
        user: "root".to_string(),
        status: String::new(),
        ip_public: String::new(),
        subnet: String::new(),
    }
}

fn config() -> Config {
    Config {
        categories: vec![
            Category {
                name: "Prod".to_string(),
                servers: vec![server("web-1", "10.0.0.1", 22), server("db-1", "", 2222)],
            },
        ],
        settings: Settings { ssh_key: String::new() },
        commands: vec![CommandSnippet {
            name: "Uptime".to_string(),
            key: "u".to_string(),
            command: "uptime".to_string(),
        }],
        loaded_from_api: false,
    }
}

fn labels(app: &App) -> Vec<String> {
    app.palette_items.iter().map(|i| i.label.clone()).collect()
}

fn visible(app: &App) -> Vec<String> {
    app.palette_filtered.iter().map(|&i| app.palette_items[i].label.clone()).collect()
}

#[test]
fn palette_lists_everything_in_order() {
    let mut app = App::new(config());
    app.terminal_opened("web-1".to_string());
    app.open_palette();
    assert_eq!(app.mode, AppMode::Palette);
    assert_eq!(
        labels(&app),
        vec![
            "Connect: web-1 (10.0.0.1)",
            "Connect: db-1 (:2222)",
            "Tab: web-1",
            "Split: Toggle",
            "Broadcast: Toggle",
            "Run: Uptime [u]",
            "Copy: Screen (50 lines)",
            "Copy: Last 100 lines",
            "View: Server details",
            "View: Help (F1)",
            "Session: Close tab (Ctrl+W)",
            "Session: Reconnect",
            "Copy IP: web-1 (10.0.0.1)",
        ]
    );
    assert_eq!(app.palette_items[2].description, "Switch to tab 1");
    assert_eq!(app.palette_items[0].description, "Prod");
    assert_eq!(app.palette_filtered.len(), app.palette_items.len());
}

#[test]
fn palette_query_words_must_all_occur() {
    let mut app = App::new(config());
    app.open_palette();
    for c in "COPY lines".chars() {
        app.palette_push(c);
    }
    assert_eq!(visible(&app), vec!["Copy: Screen (50 lines)", "Copy: Last 100 lines"]);
    for _ in 0..5 {
        app.palette_backspace();
    }
    assert_eq!(app.palette_query, "COPY ");
    assert_eq!(
        visible(&app),
        vec![
            "Copy: Screen (50 lines)",
            "Copy: Last 100 lines",
            "Copy IP: web-1 (10.0.0.1)",
        ]
    );
}

#[test]
fn palette_selection_resets_when_the_list_shrinks() {
    let mut app = App::new(config());
    app.open_palette();
    for _ in 0..20 {
        app.palette_move_down();
    }
    assert_eq!(app.palette_index, app.palette_items.len() - 1);
    app.palette_push('z');
    assert_eq!(app.palette_index, 0);
    assert!(app.palette_filtered.is_empty());
    app.palette_move_up();
    assert_eq!(app.palette_index, 0);
}

#[test]
fn palette_runs_a_snippet_in_the_active_tab() {
    let mut app = App::new(config());
    app.terminal_opened("web-1".to_string());
    app.switch_to_browse();
    app.open_palette();
    for c in "uptime".chars() {
        app.palette_push(c);
    }
    assert_eq!(visible(&app), vec!["Run: Uptime [u]"]);
    let effects = app.palette_execute();
    match &effects[..] {
        [Effect::WriteInput(InputTarget::Tab(0), b)] => assert_eq!(b, b"uptime\n"),
        _ => panic!("expected one write"),
    }
    assert_eq!(app.mode, AppMode::Terminal);
    assert!(app.palette_items.is_empty());
}

#[test]
fn palette_holds_a_dangerous_snippet() {
    let mut cfg = config();
    cfg.commands[0].command = "sudo REBOOT now".to_string();
    let mut app = App::new(cfg);
    app.open_palette();
    app.palette_index = 4;
    assert!(matches!(app.palette_items[4].action, PaletteAction::RunCommand(_)));
    let effects = app.palette_execute();
    assert!(effects.is_empty());
    assert_eq!(app.mode, AppMode::ConfirmDanger);
    assert_eq!(app.danger_command.as_deref(), Some("sudo REBOOT now"));
}

#[test]
fn palette_copy_ip_entry() {
    let mut app = App::new(config());
    app.open_palette();
    let last = app.palette_items.len() - 1;
    app.palette_index = last;
    let effects = app.palette_execute();
    assert!(matches!(
        &effects[..],
        [Effect::Copy { source: CopySource::Text(t), on_ok: Some(Note::IpCopied(_)), .. }] if t == "10.0.0.1"
    ));
    assert_eq!(app.mode, AppMode::Browse);
}

#[test]
fn palette_with_nothing_selected_just_closes() {
    let mut app = App::new(config());
    app.open_palette();
    app.palette_push('z');
    let effects = app.palette_execute();
    assert!(effects.is_empty());
    assert_eq!(app.mode, AppMode::Browse);
}

#[test]
fn dangerous_commands_are_recognised() {
    assert!(App::is_dangerous_command("sudo reboot"));
    assert!(App::is_dangerous_command("RM -RF /tmp/x"));
    assert!(App::is_dangerous_command("dd if=/dev/zero of=/dev/sdb"));
    assert!(App::is_dangerous_command("echo x > /dev/null"));
    assert!(App::is_dangerous_command("systemctl stop nginx"));
    assert!(!App::is_dangerous_command("ls -la"));
    assert!(!App::is_dangerous_command("rm file.txt"));
    assert!(!App::is_dangerous_command(""));
}

fn prompt(app: &mut App, line: &str) -> Vec<Effect> {
    app.open_command_input();
    for c in line.chars() {
        app.command_input_push(c);
    }
    app.execute_command_input()
}

#[test]
fn prompt_copy_defaults_to_the_whole_screen() {
    let mut app = App::new(config());
    app.terminal_opened("web-1".to_string());
    let effects = prompt(&mut app, "  copy  ");
    assert!(matches!(
        &effects[..],
        [Effect::Copy { source: CopySource::Screen, on_ok: Some(Note::ScreenCopied), on_fail: Some(Note::InstallClipboardTool) }]
    ));
    assert_eq!(app.mode, AppMode::Terminal);
    assert_eq!(app.command_input, "");
    let effects = prompt(&mut app, "CP 0");
    assert!(matches!(
        &effects[..],
        [Effect::Copy { source: CopySource::Lines(0), on_ok: Some(Note::ScreenCopied), .. }]
    ));
    let effects = prompt(&mut app, "c 12");
    assert!(matches!(
        &effects[..],
        [Effect::Copy { source: CopySource::Lines(12), on_ok: Some(Note::LinesCopied(12)), .. }]
    ));
    let effects = prompt(&mut app, "c abc");
    assert!(matches!(&effects[..], [Effect::Copy { source: CopySource::Screen, .. }]));
}

#[test]
fn prompt_scroll_defaults_to_ten() {
    let mut app = App::new(config());
    app.terminal_opened("web-1".to_string());
    assert!(matches!(prompt(&mut app, "scroll")[..], [Effect::ScrollUp(10)]));
    assert!(matches!(prompt(&mut app, "s +25")[..], [Effect::ScrollUp(25)]));
}

#[test]
fn prompt_run_types_the_argument() {
    let mut app = App::new(config());
    app.terminal_opened("web-1".to_string());
    let effects = prompt(&mut app, "run   df -h  ");
    match &effects[..] {
        [Effect::WriteInput(InputTarget::Tab(0), b)] => assert_eq!(b, b"df -h\n"),
        _ => panic!("expected one write"),
    }
    assert!(prompt(&mut app, "run").is_empty());
}

#[test]
fn prompt_holds_dangerous_commands() {
    let mut app = App::new(config());
    app.terminal_opened("web-1".to_string());
    app.toggle_broadcast();
    let effects = prompt(&mut app, "! shutdown -h now");
    assert!(effects.is_empty());
    assert_eq!(app.mode, AppMode::ConfirmDanger);
    assert_eq!(app.danger_command.as_deref(), Some("shutdown -h now"));
    assert!(app.danger_broadcast);
    let effects = app.confirm_danger();
    match &effects[..] {
        [Effect::WriteInput(InputTarget::All, b)] => assert_eq!(b, b"\r"),
        _ => panic!("expected one write"),
    }
    assert_eq!(app.mode, AppMode::Terminal);
    assert!(!app.danger_broadcast);
}

#[test]
fn prompt_line_without_a_command_goes_to_the_shell() {
    let mut app = App::new(config());
    app.terminal_opened("web-1".to_string());
    let effects = prompt(&mut app, "uname -a");
    match &effects[..] {
        [Effect::WriteInput(InputTarget::Tab(0), b)] => assert_eq!(b, b"uname -a\n"),
        _ => panic!("expected one write"),
    }
    let effects = prompt(&mut app, "kill -9 1");
    assert!(effects.is_empty());
    assert_eq!(app.mode, AppMode::ConfirmDanger);
    app.cancel_danger();
    assert_eq!(app.danger_command, None);
    assert_eq!(app.mode, AppMode::Terminal);
}

#[test]
fn prompt_other_commands() {
    let mut app = App::new(config());
    app.terminal_opened("a".to_string());
    app.terminal_opened("b".to_string());
    assert!(prompt(&mut app, "split").is_empty());
    assert!(app.split.is_some());
    assert!(prompt(&mut app, "BC").is_empty());
    assert!(app.broadcast);
    assert!(prompt(&mut app, "help").is_empty());
    assert_eq!(app.mode, AppMode::Help);
    assert_eq!(app.prev_mode, AppMode::Terminal);
    let effects = prompt(&mut app, "doom");
    assert!(matches!(effects[..], [Effect::StartDoom]));
    assert_eq!(app.mode, AppMode::Doom);
    let effects = prompt(&mut app, "q");
    assert!(matches!(effects[..], [Effect::TabClosed(1)]));
    assert!(prompt(&mut app, "   ").is_empty());
}

#[test]
fn confirmed_prompt_command_is_sent_with_a_newline() {
    let mut app = App::new(config());
    app.terminal_opened("a".to_string());
    app.danger_command = Some("reboot".to_string());
    app.danger_broadcast = false;
    app.mode = AppMode::Terminal;
    let effects = app.confirm_danger();
    match &effects[..] {
        [Effect::WriteInput(InputTarget::Tab(0), b)] => assert_eq!(b, b"reboot\n"),
        _ => panic!("expected one write"),
    }
}

#[test]
fn danger_patterns_are_matched_on_lowercase_text() {
    assert!(has_danger_pattern("sudo reboot"));
    assert!(has_danger_pattern("mkfs.ext4 /dev/sdb1"));
    assert!(!has_danger_pattern("REBOOT"));
    assert!(!has_danger_pattern("echo hello"));
}

#[test]
fn palette_type_then_erase_restores_the_list() {
    let mut app = App::new(config());
    app.open_palette();
    for c in "copy".chars() {
        app.palette_push(c);
    }
    let before = app.palette_filtered.clone();
    app.palette_push('x');
    assert!(app.palette_filtered.is_empty());
    app.palette_backspace();
    assert_eq!(app.palette_query, "copy");
    assert_eq!(app.palette_filtered, before);
}
