use herdr::geometry::Rect;
use herdr::live_status::{live_status_from_payload, LiveStatus, StatusPayload};
use herdr::state::{AppState, PaneTerminal, Tab, TerminalState, Workspace};
use herdr::statusline::{
    cwd_label, effort_color, live_status_spans, model_color, statusline_inner_rect, ContextGauge,
    StatusColor, StatuslineContent,
};

fn status() -> LiveStatus {
    LiveStatus {
        session_name: None,
        model: "Opus 4.8".to_string(),
        effort: "high".to_string(),
        fast_mode: true,
        thinking: false,
        context_pct_bits: Some(12.0f64.to_bits()),
        input_tokens: 117315,
        output_tokens: 2032,
        cost_bits: 17.72f64.to_bits(),
        lines_added: 498,
        lines_removed: 107,
        current_dir: "C:\\git\\herdr".to_string(),
        added_dirs: 2,
        exceeds_200k: true,
        session_id: Some("abc".to_string()),
    }
}

fn app_with_terminal(t: TerminalState) -> AppState {
    let mut app = AppState::new(Rect::new(0, 0, 26, 20), 26, 10, 60);
    app.workspaces = vec![Workspace {
        tabs: vec![Tab { focused_pane: 7, panes: vec![PaneTerminal { pane_id: 7, terminal_id: 42 }] }],
        active_tab: 0,
        worktree_key: None,
    }];
    app.active = Some(0);
    app.terminals = vec![t];
    app
}

fn terminal(cwd: &str) -> TerminalState {
    TerminalState {
        id: 42,
        cwd: cwd.to_string(),
        claude_session_id: None,
        custom_status: None,
        live_status: None,
        session_title: None,
    }
}

#[test]
fn model_colors_by_family() {
    assert_eq!(model_color("Opus 4.8"), StatusColor::Peach);
    assert_eq!(model_color("my-SONNET"), StatusColor::Teal);
    assert_eq!(model_color("Haiku"), StatusColor::Yellow);
    assert_eq!(model_color("fable-1"), StatusColor::Red);
    assert_eq!(model_color("gpt"), StatusColor::Text);
    assert_eq!(model_color("opus-sonnet"), StatusColor::Peach);
}

#[test]
fn effort_colors_by_level() {
    assert_eq!(effort_color("low"), StatusColor::Teal);
    assert_eq!(effort_color("medium"), StatusColor::Green);
    assert_eq!(effort_color("high"), StatusColor::Yellow);
    assert_eq!(effort_color("xhigh"), StatusColor::Red);
    assert_eq!(effort_color("High"), StatusColor::Text);
    assert_eq!(effort_color("default"), StatusColor::Text);
}

#[test]
fn live_status_spans_lay_out_every_section() {
    let s = status();
    let spans = live_status_spans(&s, Some(ContextGauge { filled: 1, percent: 12 }), "17.72");
    let texts: Vec<&str> = spans.iter().map(|s| s.text.as_str()).collect();
    assert_eq!(
        texts,
        vec![
            "[Opus 4.8]",
            " at ",
            "high",
            " effort",
            " \u{26A1}",
            " | ",
            "[\u{2588}\u{2591}\u{2591}\u{2591}\u{2591}\u{2591}\u{2591}\u{2591}\u{2591}\u{2591}] 12%",
            " \u{2192}117315 \u{2190}2032",
            " | ",
            "\u{1F4B0} $17.72",
            " | ",
            "\u{2191}498",
            " \u{2193}107",
            " | ",
            "\u{1F4C1} C:\\git\\herdr",
            " +2",
            " | ",
            "\u{23F0} 200K \u{23F0}",
            " | ",
            "abc",
        ]
    );
    assert_eq!(spans[0].color, StatusColor::Peach);
    assert_eq!(spans[2].color, StatusColor::Yellow);
    assert_eq!(spans[6].color, StatusColor::Mauve);
    assert_eq!(spans[11].color, StatusColor::Green);
    assert_eq!(spans[12].color, StatusColor::Red);
}

#[test]
fn unknown_context_shows_empty_gauge() {
    let payload = StatusPayload {
        model_display_name: Some("m".to_string()),
        effort_level: None,
        session_name: None,
        fast_mode: None,
        thinking_enabled: Some(true),
        used_percentage_bits: None,
        total_input_tokens: None,
        total_output_tokens: None,
        total_cost_usd_bits: None,
        total_lines_added: None,
        total_lines_removed: None,
        workspace_current_dir: None,
        cwd: None,
        added_dirs_len: None,
        exceeds_200k_tokens: None,
        session_id: None,
    };
    let s = live_status_from_payload(&payload).unwrap();
    let spans = live_status_spans(&s, None, "0.00");
    let texts: Vec<&str> = spans.iter().map(|s| s.text.as_str()).collect();
    assert_eq!(texts[4], " \u{1F9E0}");
    assert_eq!(texts[6], "[\u{2591}\u{2591}\u{2591}\u{2591}\u{2591}\u{2591}\u{2591}\u{2591}\u{2591}\u{2591}] --%");
    assert_eq!(texts.len(), 15);
    let mut over = s.clone();
    over.context_pct_bits = Some(150.0f64.to_bits());
    let full = live_status_spans(&over, Some(ContextGauge { filled: 10, percent: 150 }), "0.00");
    assert_eq!(
        full[6].text,
        "[\u{2588}\u{2588}\u{2588}\u{2588}\u{2588}\u{2588}\u{2588}\u{2588}\u{2588}\u{2588}] 150%"
    );
    let below = live_status_spans(&over, Some(ContextGauge { filled: 0, percent: -3 }), "0.00");
    assert_eq!(
        below[6].text,
        "[\u{2591}\u{2591}\u{2591}\u{2591}\u{2591}\u{2591}\u{2591}\u{2591}\u{2591}\u{2591}] -3%"
    );
}

#[test]
fn statusline_prefers_live_then_custom_then_cwd() {
    let mut t = terminal("/home/u/proj");
    let app = app_with_terminal(t.clone());
    match app.statusline_content() {
        StatuslineContent::Cwd(l) => assert_eq!(l, "proj"),
        other => panic!("unexpected {:?}", other),
    }
    assert_eq!(app.focused_cwd_label().as_deref(), Some("proj"));
    t.custom_status = Some("busy".to_string());
    let app = app_with_terminal(t.clone());
    assert!(matches!(app.statusline_content(), StatuslineContent::Custom(s) if s == "busy"));
    t.live_status = Some(status());
    let app = app_with_terminal(t);
    assert!(matches!(app.statusline_content(), StatuslineContent::Live(s) if s.model == "Opus 4.8"));
}

#[test]
fn statusline_without_workspace_has_no_session() {
    let app = AppState::new(Rect::new(0, 0, 26, 20), 26, 10, 60);
    assert!(matches!(app.statusline_content(), StatuslineContent::NoSession));
    assert!(app.focused_terminal().is_none());
    assert_eq!(app.focused_cwd_label(), None);
}

#[test]
fn root_cwd_falls_back_to_whole_path() {
    let app = app_with_terminal(terminal("/"));
    assert_eq!(app.focused_cwd_label().as_deref(), Some("/"));
    let app = app_with_terminal(terminal("/tmp/proj"));
    assert_eq!(app.focused_cwd_label().as_deref(), Some("proj"));
    assert_eq!(cwd_label(&"/x".to_string(), None), "/x");
}

#[test]
fn cwd_label_skips_trailing_separators_and_dot_parts() {
    let app = app_with_terminal(terminal("/usr/bin/"));
    assert_eq!(app.focused_cwd_label().as_deref(), Some("bin"));
    let app = app_with_terminal(terminal("foo.txt/.//"));
    assert_eq!(app.focused_cwd_label().as_deref(), Some("foo.txt"));
    let app = app_with_terminal(terminal("./proj/."));
    assert_eq!(app.focused_cwd_label().as_deref(), Some("proj"));
    let app = app_with_terminal(terminal("/a/.."));
    assert_eq!(app.focused_cwd_label().as_deref(), Some("/a/.."));
    let app = app_with_terminal(terminal("."));
    assert_eq!(app.focused_cwd_label().as_deref(), Some("."));
    let app = app_with_terminal(terminal("/a/..."));
    assert_eq!(app.focused_cwd_label().as_deref(), Some("..."));
    match app_with_terminal(terminal("/srv/data//")).statusline_content() {
        StatuslineContent::Cwd(l) => assert_eq!(l, "data"),
        other => panic!("unexpected {:?}", other),
    }
}

#[test]
fn focused_terminal_requires_attached_pane() {
    let mut app = app_with_terminal(terminal("/a/b"));
    assert_eq!(app.focused_terminal().map(|t| t.id), Some(42));
    app.workspaces[0].tabs[0].focused_pane = 8;
    assert!(app.focused_terminal().is_none());
    app.workspaces[0].tabs[0].focused_pane = 7;
    app.terminals[0].id = 41;
    assert!(app.focused_terminal().is_none());
    app.active = Some(3);
    assert!(app.focused_terminal().is_none());
}

#[test]
fn statusline_inner_rect_leaves_a_margin() {
    assert_eq!(statusline_inner_rect(Rect::new(0, 0, 80, 1)), Some(Rect::new(1, 0, 78, 1)));
    assert_eq!(statusline_inner_rect(Rect::new(0, 0, 0, 0)), None);
    assert_eq!(statusline_inner_rect(Rect::new(0, 0, 2, 1)), None);
    assert_eq!(statusline_inner_rect(Rect::new(0, 0, 80, 0)), None);
}
