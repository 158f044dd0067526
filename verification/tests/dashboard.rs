use agnetd::dashboard::{
    balance_scale, bounty_state_color, bounty_state_glyph, deadline_ago, kind_color, BalanceScale,
    progress_bar, relative_time, AlertSeverity, BountySummary, Color, DashboardApp, InputMode,
    Key, MeshStatus, ModalKind, PromptKind, NARROW_BREAKPOINT, NUM_PANELS,
};

fn now_ts() -> u64 {
    std::time::SystemTime::now().duration_since(std::time::UNIX_EPOCH).unwrap().as_secs()
}

fn mesh() -> MeshStatus {
    MeshStatus {
        running: true,
        local_peer_id: "test".to_string(),
        connected_peers: vec![],
        listeners: vec![],
        subscribed_topics: vec![],
    }
}

#[test]
fn app_new_initializes_defaults() {
    let app = DashboardApp::new();
    assert_eq!(app.selected_panel, 0);
    assert_eq!(app.scroll_offsets, [0u16; NUM_PANELS]);
    assert_eq!(app.content_heights, [0u16; NUM_PANELS]);
    assert!(app.mesh_status.is_none());
    assert_eq!(app.token_balances.len(), 4);
    assert!(app.feed_events.is_empty());
    assert!(app.active_bounties.is_empty());
    assert!(app.training_jobs.is_empty());
    assert!(!app.should_quit);
    assert_eq!(app.input_mode, InputMode::Normal);
    assert!(app.prompt_buffer.is_empty());
    assert!(app.alerts.is_empty());
}

#[test]
fn handle_key_quit() {
    let mut app = DashboardApp::new();
    app.handle_key(Key::Char('q'));
    assert!(app.should_quit);
}

#[test]
fn handle_key_tab_cycles_forward() {
    let mut app = DashboardApp::new();
    for i in 0..NUM_PANELS {
        assert_eq!(app.selected_panel, i);
        app.handle_key(Key::Tab);
    }
    assert_eq!(app.selected_panel, 0);
}

#[test]
fn handle_key_backtab_cycles_backward() {
    let mut app = DashboardApp::new();
    app.handle_key(Key::BackTab);
    assert_eq!(app.selected_panel, NUM_PANELS - 1);
    app.handle_key(Key::BackTab);
    assert_eq!(app.selected_panel, NUM_PANELS - 2);
}

#[test]
fn handle_key_down_scrolls() {
    let mut app = DashboardApp::new();
    app.selected_panel = 2;
    app.content_heights[2] = 100;
    app.handle_key(Key::Down);
    app.handle_key(Key::Down);
    assert_eq!(app.scroll_offsets[2], 2);
}

#[test]
fn handle_key_up_scrolls_back() {
    let mut app = DashboardApp::new();
    app.scroll_offsets[0] = 5;
    app.handle_key(Key::Up);
    assert_eq!(app.scroll_offsets[0], 4);
}

#[test]
fn handle_key_up_clamps_at_zero() {
    let mut app = DashboardApp::new();
    app.handle_key(Key::Up);
    assert_eq!(app.scroll_offsets[0], 0);
}

#[test]
fn scroll_clamps_at_content_height() {
    let mut app = DashboardApp::new();
    app.content_heights[0] = 3;
    app.handle_key(Key::Down);
    app.handle_key(Key::Down);
    app.handle_key(Key::Down);
    app.handle_key(Key::Down);
    assert_eq!(app.scroll_offsets[0], 2);
}

#[test]
fn scroll_per_panel_independent() {
    let mut app = DashboardApp::new();
    app.content_heights[0] = 100;
    app.content_heights[3] = 100;
    app.selected_panel = 0;
    app.handle_key(Key::Down);
    app.handle_key(Key::Down);
    assert_eq!(app.scroll_offsets[0], 2);
    app.selected_panel = 3;
    app.handle_key(Key::Down);
    assert_eq!(app.scroll_offsets[3], 1);
    assert_eq!(app.scroll_offsets[0], 2);
}

#[test]
fn help_modal_opens_and_closes() {
    let mut app = DashboardApp::new();
    app.handle_key(Key::Char('?'));
    assert_eq!(app.input_mode, InputMode::Modal(ModalKind::Help));
    app.handle_key(Key::Esc);
    assert_eq!(app.input_mode, InputMode::Normal);
}

#[test]
fn feed_prompt_opens_and_cancels() {
    let mut app = DashboardApp::new();
    app.handle_key(Key::Char('f'));
    assert_eq!(app.input_mode, InputMode::Prompt(PromptKind::FeedContent));
    app.handle_key(Key::Esc);
    assert_eq!(app.input_mode, InputMode::Normal);
}

#[test]
fn feed_prompt_types_and_submits() {
    let mut app = DashboardApp::new();
    app.handle_key(Key::Char('f'));
    app.handle_key(Key::Char('h'));
    app.handle_key(Key::Char('i'));
    assert_eq!(app.prompt_buffer, "hi");
    app.handle_key(Key::Enter);
    assert_eq!(app.input_mode, InputMode::Normal);
    assert!(app.prompt_buffer.is_empty());
}

#[test]
fn prompt_backspace() {
    let mut app = DashboardApp::new();
    app.handle_key(Key::Char('f'));
    app.handle_key(Key::Char('a'));
    app.handle_key(Key::Char('b'));
    app.handle_key(Key::Backspace);
    assert_eq!(app.prompt_buffer, "a");
}

#[test]
fn bounty_prompt_two_step() {
    let mut app = DashboardApp::new();
    app.handle_key(Key::Char('n'));
    assert_eq!(app.input_mode, InputMode::Prompt(PromptKind::BountyTitle));
    app.handle_key(Key::Char('t'));
    app.handle_key(Key::Char('e'));
    app.handle_key(Key::Char('s'));
    app.handle_key(Key::Char('t'));
    app.handle_key(Key::Enter);
    assert_eq!(app.input_mode, InputMode::Prompt(PromptKind::BountyReward));
    assert_eq!(app.pending_bounty_title, Some("test".to_string()));
    app.handle_key(Key::Char('1'));
    app.handle_key(Key::Char('0'));
    app.handle_key(Key::Enter);
    assert_eq!(app.input_mode, InputMode::Normal);
    assert!(app.pending_bounty_title.is_none());
}

#[test]
fn normal_keys_noop_in_prompt() {
    let mut app = DashboardApp::new();
    app.handle_key(Key::Char('f'));
    app.handle_key(Key::Char('q'));
    assert!(!app.should_quit);
    assert_eq!(app.prompt_buffer, "q");
}

#[test]
fn empty_bounty_title_is_not_accepted() {
    let mut app = DashboardApp::new();
    app.handle_key(Key::Char('n'));
    app.handle_key(Key::Enter);
    assert_eq!(app.input_mode, InputMode::Prompt(PromptKind::BountyTitle));
    assert!(app.pending_bounty_title.is_none());
}

#[test]
fn tab_then_backtab_returns() {
    let mut app = DashboardApp::new();
    app.selected_panel = 3;
    app.handle_key(Key::Tab);
    assert_eq!(app.selected_panel, 4);
    app.handle_key(Key::BackTab);
    assert_eq!(app.selected_panel, 3);
}

#[test]
fn compute_alerts_disconnected() {
    let mut app = DashboardApp::new();
    app.mesh_status = None;
    app.compute_alerts(now_ts());
    assert!(!app.alerts.is_empty());
    assert_eq!(app.alerts[0].severity, AlertSeverity::Error);
    assert!(app.alerts[0].message.contains("Mesh disconnected"));
}

#[test]
fn compute_alerts_connected_clear() {
    let mut app = DashboardApp::new();
    app.mesh_status = Some(mesh());
    app.active_bounties = vec![BountySummary {
        id: "b1".into(),
        reward: 100,
        state: "Open".into(),
        deadline: now_ts() + 86400,
    }];
    app.token_balances[0].balance = 1000;
    app.compute_alerts(now_ts());
    assert!(app.alerts.is_empty());
}

#[test]
fn compute_alerts_bounty_deadline_near() {
    let mut app = DashboardApp::new();
    app.mesh_status = Some(mesh());
    app.active_bounties = vec![BountySummary {
        id: "bounty_short".into(),
        reward: 100,
        state: "Open".into(),
        deadline: now_ts() + 3600,
    }];
    app.compute_alerts(now_ts());
    assert!(app.alerts.iter().any(|a| a.message.contains("deadline")));
}

#[test]
fn compute_alerts_messages_in_order() {
    let mut app = DashboardApp::new();
    app.active_bounties = vec![BountySummary {
        id: "bnty_0123456789".into(),
        reward: 1,
        state: "Open".into(),
        deadline: 1_000,
    }];
    app.compute_alerts(900);
    let msgs: Vec<&str> = app.alerts.iter().map(|a| a.message.as_str()).collect();
    assert_eq!(
        msgs,
        vec!["Mesh disconnected", "Bounty bnty_012 deadline < 6h", "Token balances depleted (decay ≥15%)"]
    );
    assert_eq!(app.alerts[1].target_panel, 3);
    assert_eq!(app.alerts[2].target_panel, 1);
}

#[test]
fn relative_time_boundaries() {
    assert_eq!(relative_time(0, 0), "now");
    assert_eq!(relative_time(0, 59), "59s");
    assert_eq!(relative_time(0, 60), "1m");
    assert_eq!(relative_time(0, 3599), "59m");
    assert_eq!(relative_time(0, 3600), "1h");
    assert_eq!(relative_time(0, 86399), "23h");
    assert_eq!(relative_time(0, 86400), "1d");
    assert_eq!(relative_time(500, 100), "now");
}

#[test]
fn deadline_ago_values() {
    let now = 1000000;
    assert_eq!(deadline_ago(0, now), "--");
    assert_eq!(deadline_ago(now, now), "expired");
    assert_eq!(deadline_ago(now + 1800, now), "30m");
    assert_eq!(deadline_ago(now + 7200, now), "2h");
    assert_eq!(deadline_ago(now + 172800, now), "2d");
}

#[test]
fn kind_color_mapping() {
    assert_eq!(kind_color(1000), Color::Blue);
    assert_eq!(kind_color(2000), Color::Green);
    assert_eq!(kind_color(3000), Color::Yellow);
    assert_eq!(kind_color(9001), Color::White);
}

#[test]
fn bounty_state_color_mapping() {
    assert_eq!(bounty_state_color("Open"), Color::Green);
    assert_eq!(bounty_state_color("Claimed"), Color::Blue);
    assert_eq!(bounty_state_color("Submitted"), Color::Yellow);
    assert_eq!(bounty_state_color("UnderReview"), Color::Magenta);
    assert_eq!(bounty_state_color("Paid"), Color::DarkGray);
}

#[test]
fn bounty_state_glyph_mapping() {
    assert_eq!(bounty_state_glyph("Open"), "●");
    assert_eq!(bounty_state_glyph("Claimed"), "◐");
    assert_eq!(bounty_state_glyph("Submitted"), "◑");
    assert_eq!(bounty_state_glyph("Paid"), "✓");
    assert_eq!(bounty_state_glyph("Cancelled"), "✗");
    assert_eq!(bounty_state_glyph("Whatever"), "·");
}

/// A balance as the dashboard shows it: the unit comes from the library,
/// the decimals from floating-point formatting.
fn format_balance(value: u128) -> String {
    let scale = balance_scale(value);
    match scale.places() {
        0 => format!("{}", value),
        1 => format!("{:.1}{}", value as f64 / scale.divisor() as f64, scale.suffix()),
        _ => format!("{:.2}{}", value as f64 / scale.divisor() as f64, scale.suffix()),
    }
}

#[test]
fn format_balance_units() {
    assert_eq!(format_balance(0), "0");
    assert_eq!(format_balance(42), "42");
    assert_eq!(format_balance(1_500), "1.5K");
    assert_eq!(format_balance(2_500_000), "2.50M");
    assert_eq!(format_balance(3_500_000_000), "3.50B");
    assert_eq!(format_balance(4_500_000_000_000), "4.50T");
}

#[test]
fn balance_scale_thresholds() {
    assert_eq!(balance_scale(999), BalanceScale::Units);
    assert_eq!(balance_scale(1_000), BalanceScale::Thousands);
    assert_eq!(balance_scale(999_999), BalanceScale::Thousands);
    assert_eq!(balance_scale(1_000_000), BalanceScale::Millions);
    assert_eq!(balance_scale(1_000_000_000), BalanceScale::Billions);
    assert_eq!(balance_scale(1_000_000_000_000), BalanceScale::Trillions);
    assert_eq!(BalanceScale::Thousands.places(), 1);
    assert_eq!(BalanceScale::Billions.divisor(), 1_000_000_000);
    assert_eq!(BalanceScale::Trillions.suffix(), "T");
    assert_eq!(BalanceScale::Units.suffix(), "");
    assert_eq!(format_balance(1_005_000), "1.00M");
}

#[test]
fn progress_bar_full() {
    let bar = progress_bar(100);
    assert!(bar.contains("100%"));
}

#[test]
fn progress_bar_zero() {
    let bar = progress_bar(0);
    assert!(bar.contains("0%"));
}

#[test]
fn progress_bar_half() {
    let bar = progress_bar(50);
    assert!(bar.contains("50%"));
}

#[test]
fn progress_bar_exact_text() {
    assert_eq!(progress_bar(37), "███░░░░░░░  37%");
    assert_eq!(progress_bar(0), "░░░░░░░░░░   0%");
    assert_eq!(progress_bar(100), "██████████ 100%");
}

#[test]
fn narrow_breakpoint_constant() {
    assert_eq!(NARROW_BREAKPOINT, 80);
}
