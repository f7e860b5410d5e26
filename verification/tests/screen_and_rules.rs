use soureigate::config::Server;
use soureigate::install::{export_line, path_plan, rc_addition, PathPlan};
use soureigate::app::App;
use soureigate::doom::{
    enemy_tier, kill_order, may_shoot, player_hit, shooter, shot_period, spawn_shields, tier_points,
    wave_cleared, wave_columns, wave_rows, GameState,
};
use soureigate::pong::{
    incoming, is_mesh_ip, mesh_ip_in, outgoing_packet, point_scored, Incoming, PongRole, PongWire,
};
use soureigate::terminal::{lines_text, selection_text, ssh_args, worth_copying, TermSize};
use soureigate::updater::{asset_name, find_asset, release_from, Os, UpdateError};

fn grid(rows: &[&str]) -> Vec<Vec<char>> {
    rows.iter().map(|r| r.chars().map(|c| if c == '.' { '\0' } else { c }).collect()).collect()
}

#[test]
fn elapsed_time_texts() {
    assert_eq!(App::format_elapsed(0), "0s");
    assert_eq!(App::format_elapsed(59), "59s");
    assert_eq!(App::format_elapsed(60), "1m");
    assert_eq!(App::format_elapsed(3599), "59m");
    assert_eq!(App::format_elapsed(3600), "1h");
    assert_eq!(App::format_elapsed(5400), "1h30m");
    assert_eq!(App::format_elapsed(7260), "2h1m");
}

#[test]
fn term_size_reports_its_dimensions() {
    let s = TermSize { cols: 80, rows: 24 };
    assert_eq!(s.columns(), 80);
    assert_eq!(s.screen_lines(), 24);
    assert_eq!(s.total_lines(), 24);
}

#[test]
fn copy_lines_trims_and_drops_trailing_blank_lines() {
    let screen = grid(&["ab  ....", "....", "cd. e  .", "      ", ".."]);
    assert_eq!(lines_text(&screen, 50), "ab\n\ncd e\n");
    assert_eq!(lines_text(&screen, 3), "cd e\n");
    assert_eq!(lines_text(&screen, 0), "");
    assert_eq!(lines_text(&Vec::new(), 5), "");
    let full = grid(&["x", "y"]);
    assert_eq!(lines_text(&full, 2), "x\ny\n");
}

#[test]
fn selection_takes_columns_between_the_ends() {
    let view = grid(&["hello world ", "second line.", "third  row  "]);
    assert_eq!(selection_text(&view, 12, (6, 0), (10, 0)), "world");
    assert_eq!(selection_text(&view, 12, (10, 0), (6, 0)), "world");
    assert_eq!(selection_text(&view, 12, (6, 0), (5, 1)), "world\nsecond");
    assert_eq!(selection_text(&view, 12, (0, 0), (99, 2)), "hello world\nsecond line\nthird  row");
    assert_eq!(selection_text(&view, 12, (20, 0), (2, 1)), "\nsec");
}

#[test]
fn blank_text_is_not_worth_copying() {
    assert!(!worth_copying("  \n\t "));
    assert!(!worth_copying(""));
    assert!(worth_copying(" x "));
}

#[test]
fn asset_names_per_platform() {
    assert_eq!(asset_name(Os::Windows, false), "gate-windows-amd64.exe");
    assert_eq!(asset_name(Os::MacOs, true), "gate-macos-arm64");
    assert_eq!(asset_name(Os::MacOs, false), "gate-macos-amd64");
    assert_eq!(asset_name(Os::Other, true), "gate-linux-amd64");
}

#[test]
fn release_keeps_complete_assets_and_strips_the_tag() {
    let rel = release_from(
        Some("v1.4.2".to_string()),
        vec![
            (Some("gate-linux-amd64".to_string()), Some("https://x/linux".to_string())),
            (Some("notes.txt".to_string()), None),
            (None, Some("https://x/other".to_string())),
            (Some("gate-macos-arm64".to_string()), Some("https://x/mac".to_string())),
        ],
    )
    .ok()
    .unwrap();
    assert_eq!(rel.tag, "v1.4.2");
    assert_eq!(rel.version, "1.4.2");
    let names: Vec<&str> = rel.assets.iter().map(|a| a.name.as_str()).collect();
    assert_eq!(names, vec!["gate-linux-amd64", "gate-macos-arm64"]);
    assert!(matches!(release_from(None, vec![]), Err(UpdateError::MissingTag)));
}

#[test]
fn finding_the_platform_asset() {
    let rel = release_from(
        Some("1.0.0".to_string()),
        vec![
            (Some("a".to_string()), Some("u1".to_string())),
            (Some("b".to_string()), Some("u2".to_string())),
        ],
    )
    .ok()
    .unwrap();
    assert_eq!(find_asset(&rel, "b").ok(), Some(1));
    match find_asset(&rel, "c") {
        Err(UpdateError::AssetNotFound(m)) => assert_eq!(
            m,
            "Asset 'c' não encontrado na release. Assets disponíveis: a, b"
        ),
        _ => panic!("expected the not-found error"),
    }
    let empty = release_from(Some("1".to_string()), vec![]).ok().unwrap();
    assert!(empty.assets.is_empty());
    match find_asset(&empty, "c") {
        Err(UpdateError::AssetNotFound(m)) => {
            assert_eq!(m, "Asset 'c' não encontrado na release. Assets disponíveis: ")
        }
        _ => panic!("expected the not-found error"),
    }
}

#[test]
fn shields_stand_evenly_spaced() {
    let shields = spawn_shields(90, 40);
    assert_eq!(shields.len(), 216);
    assert_eq!((shields[0].x, shields[0].y, shields[0].hp), (6, 32, 3));
    assert_eq!((shields[2].x, shields[2].y), (6, 34));
    assert_eq!((shields[3].x, shields[3].y), (7, 32));
    assert_eq!((shields[27].x, shields[27].y), (16, 32));
    assert_eq!((shields[215].x, shields[215].y), (84, 34));
}

#[test]
fn waves_grow_and_tiers_score() {
    assert_eq!(wave_columns(30), 5);
    assert_eq!(wave_columns(100), 10);
    assert_eq!(wave_columns(300), 14);
    assert_eq!(wave_rows(1), 3);
    assert_eq!(wave_rows(4), 5);
    assert_eq!(wave_rows(10), 6);
    assert_eq!(enemy_tier(0), 2);
    assert_eq!(enemy_tier(1), 1);
    assert_eq!(enemy_tier(4), 0);
    assert_eq!(tier_points(2), 300);
    assert_eq!(tier_points(1), 200);
    assert_eq!(tier_points(0), 100);
    assert_eq!(shot_period(1), 18);
    assert_eq!(shot_period(7), 6);
    assert_eq!(shot_period(9), 5);
    assert_eq!(shooter(3, 10), 4);
    assert!(may_shoot(4));
    assert!(!may_shoot(5));
}

#[test]
fn lives_and_waves_run_out() {
    assert_eq!(player_hit(3), (2, 60, GameState::Playing));
    assert_eq!(player_hit(1), (0, 60, GameState::GameOver));
    assert_eq!(player_hit(0), (0, 60, GameState::GameOver));
    assert_eq!(wave_cleared(3), (4, GameState::Playing));
    assert_eq!(wave_cleared(10), (11, GameState::Victory));
}

#[test]
fn pong_scoring_to_eleven() {
    assert_eq!(point_scored(0), (1, false));
    assert_eq!(point_scored(10), (11, true));
}

fn wire() -> PongWire {
    PongWire {
        paddle_left: 1.5f32.to_le_bytes(),
        paddle_right: 2.5f32.to_le_bytes(),
        ball_x: 3.0f32.to_le_bytes(),
        ball_y: 4.0f32.to_le_bytes(),
        ball_dx: 0.5f32.to_le_bytes(),
        ball_dy: (-0.3f32).to_le_bytes(),
        score_left: 7,
        score_right: 9,
        game_active: true,
        winner: None,
    }
}

#[test]
fn pong_packets_round_trip() {
    let p = outgoing_packet(PongRole::Host, &wire());
    assert_eq!(p.len(), 25);
    assert_eq!(&p[0..4], &1.5f32.to_le_bytes());
    assert_eq!(&p[20..25], &[7, 9, 1, 0, 0]);
    let c = outgoing_packet(PongRole::Client, &PongWire { winner: Some(2), ..wire() });
    assert_eq!(&c[0..4], &2.5f32.to_le_bytes());
    assert_eq!(&c[20..25], &[7, 9, 0, 2, 0]);
    match incoming(PongRole::Client, false, &p, 25) {
        Incoming::State { paddle, ball_dy, score_left, score_right, game_active, winner, .. } => {
            assert_eq!(f32::from_le_bytes(paddle), 1.5);
            assert_eq!(f32::from_le_bytes(ball_dy), -0.3);
            assert_eq!((score_left, score_right, game_active, winner), (7, 9, true, None));
        }
        _ => panic!("expected the host state"),
    }
    match incoming(PongRole::Client, false, &c, 25) {
        Incoming::State { winner, game_active, .. } => {
            assert_eq!(winner, Some(2));
            assert!(!game_active);
        }
        _ => panic!("expected the host state"),
    }
    assert!(matches!(incoming(PongRole::Host, true, &p, 1), Incoming::Connected));
    assert!(matches!(incoming(PongRole::Host, false, &p, 22), Incoming::Ignored));
    match incoming(PongRole::Host, false, &c, 25) {
        Incoming::Paddle(b) => assert_eq!(f32::from_le_bytes(b), 2.5),
        _ => panic!("expected the client paddle"),
    }
}

#[test]
fn mesh_address_from_ip_output() {
    let out = "1: lo: <LOOPBACK>\n    inet 127.0.0.1/8 scope host lo\n3: wg0: <POINTOPOINT>\n    inet 10.254.3.7/24 scope global wg0\r\n";
    assert_eq!(mesh_ip_in(out).as_deref(), Some("10.254.3.7"));
    assert_eq!(mesh_ip_in("inet 10.0.0.1/8\n"), None);
    assert_eq!(mesh_ip_in("inet 10.254.1.1\n"), Some("10.254.1.1".to_string()));
    assert_eq!(mesh_ip_in(""), None);
    assert!(is_mesh_ip("10.254.0.9"));
    assert!(!is_mesh_ip("10.25.4.9"));
    assert!(!is_mesh_ip("10.2"));
}

#[test]
fn path_with_local_bin_needs_nothing() {
    let rcs = vec![Some(String::new())];
    assert_eq!(path_plan("/usr/bin:/home/u/.local/bin", &rcs), PathPlan::AlreadyOnPath);
}

#[test]
fn first_start_up_file_without_the_line_takes_it() {
    let rcs = vec![
        None,
        Some("export PATH=\"$HOME/.local/bin:$PATH\"\n".to_string()),
        Some("alias ll='ls -l'\n".to_string()),
        Some(String::new()),
    ];
    assert_eq!(path_plan("/usr/bin", &rcs), PathPlan::AppendTo(2));
}

#[test]
fn no_start_up_file_means_a_manual_step() {
    let rcs = vec![None, Some("# .local/bin already here".to_string()), None];
    assert_eq!(path_plan("/usr/bin", &rcs), PathPlan::Manual);
    assert_eq!(path_plan("/usr/bin", &Vec::new()), PathPlan::Manual);
}

#[test]
fn start_up_addition_text() {
    assert_eq!(export_line(), "export PATH=\"$HOME/.local/bin:$PATH\"");
    assert_eq!(rc_addition(), "\n# SoureiGate\nexport PATH=\"$HOME/.local/bin:$PATH\"\n");
}

#[test]
fn mesh_address_must_itself_be_on_the_mesh() {
    let out = "    inet 192.168.0.5/24 brd 10.254.255.255 scope global eth0\n    inet 10.254.2.9/16 scope global wg0\n";
    assert_eq!(mesh_ip_in(out).as_deref(), Some("10.254.2.9"));
    assert_eq!(mesh_ip_in("inet 192.168.0.5/24 brd 10.254.255.255\n"), None);
}

fn ssh_server(port: u16) -> Server {
    Server {
        name: "web".to_string(),
        host: "10.0.0.1".to_string(),
        port,
        user: "deploy".to_string(),
        status: String::new(),
        ip_public: String::new(),
        subnet: String::new(),
    }
}

#[test]
fn ssh_arguments_name_port_key_and_login() {
    assert_eq!(ssh_args(&ssh_server(2222), "", false), vec!["-p", "2222", "deploy@10.0.0.1"]);
    assert_eq!(
        ssh_args(&ssh_server(22), "/k/id", true),
        vec!["-p", "22", "-i", "/k/id", "deploy@10.0.0.1"]
    );
    assert_eq!(ssh_args(&ssh_server(22), "/k/id", false), vec!["-p", "22", "deploy@10.0.0.1"]);
    assert_eq!(ssh_args(&ssh_server(22), "", true), vec!["-p", "22", "deploy@10.0.0.1"]);
}

#[test]
fn a_selection_gives_one_trimmed_line_per_row() {
    let screen = grid(&["ab  ", "  cd", "e   ", "fgh "]);
    let text = selection_text(&screen, 4, (3, 3), (1, 0));
    assert_eq!(text, selection_text(&screen, 4, (1, 0), (3, 3)));
    assert_eq!(text.matches('\n').count(), 3);
    assert!(text.split('\n').all(|l| l == l.trim_end()));
    assert_eq!(text, "b\n  cd\ne\nfgh");
}

#[test]
fn copying_lines_gives_at_most_the_count() {
    let screen = grid(&["one  ", "two..", ".....", "four "]);
    let text = lines_text(&screen, 3);
    assert_eq!(text.matches('\n').count(), 3);
    assert!(text.split('\n').all(|l| l == l.trim_end()));
    let blank_end = grid(&["one", "two", "   "]);
    assert!(lines_text(&blank_end, 3).matches('\n').count() <= 3);
    assert_eq!(lines_text(&blank_end, 3), "one\ntwo\n");
}

#[test]
fn kills_run_highest_bullet_first_with_its_first_enemy() {
    let hits = vec![(0, 3), (0, 5), (2, 1), (4, 7), (4, 1)];
    assert_eq!(kill_order(&hits), vec![(4, 7), (2, 1), (0, 3)]);
    assert_eq!(kill_order(&Vec::new()), Vec::<(usize, usize)>::new());
}
