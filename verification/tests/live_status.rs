use herdr::geometry::Rect;
use herdr::json::{decode_json, JsonValue};
use herdr::live_status::{live_status_from_payload, parse_live_status, status_payload_of, LiveStatus, StatusPayload};
use herdr::state::{AppState, TerminalState};

fn empty_payload() -> StatusPayload {
    StatusPayload {
        model_display_name: None,
        effort_level: None,
        session_name: None,
        fast_mode: None,
        thinking_enabled: None,
        used_percentage_bits: None,
        total_input_tokens: None,
        total_output_tokens: None,
        total_cost_usd_bits: None,
        total_lines_added: None,
        total_lines_removed: None,
        workspace_current_dir: None,
        cwd: None,
        added_dirs_len: None,
        exceeds_200k_tokens: None,
        session_id: None,
    }
}

fn with_model(name: &str) -> StatusPayload {
    StatusPayload { model_display_name: Some(name.to_string()), ..empty_payload() }
}

/// The fields of the sample statusLine payload.
fn sample() -> StatusPayload {
    StatusPayload {
        model_display_name: Some("Opus 4.8".to_string()),
        effort_level: Some("high".to_string()),
        session_name: None,
        fast_mode: Some(true),
        thinking_enabled: Some(true),
        used_percentage_bits: Some(12.0f64.to_bits()),
        total_input_tokens: Some(117315),
        total_output_tokens: Some(2032),
        total_cost_usd_bits: Some(17.72f64.to_bits()),
        total_lines_added: Some(498),
        total_lines_removed: Some(107),
        workspace_current_dir: Some("C:\\git\\herdr".to_string()),
        cwd: None,
        added_dirs_len: Some(2),
        exceeds_200k_tokens: Some(false),
        session_id: Some("abc".to_string()),
    }
}

fn terminal(id: u64, session: Option<&str>, title: Option<&str>) -> TerminalState {
    TerminalState {
        id,
        cwd: "/tmp".to_string(),
        claude_session_id: session.map(|s| s.to_string()),
        custom_status: None,
        live_status: None,
        session_title: title.map(|s| s.to_string()),
    }
}

const SAMPLE: &str = r#"{
    "session_id": "abc",
    "model": { "id": "opus-4-8", "display_name": "Opus 4.8" },
    "effort": { "level": "high" },
    "context_window": {
        "used_percentage": 12,
        "total_input_tokens": 117315,
        "total_output_tokens": 2032
    },
    "cost": {
        "total_cost_usd": 17.72,
        "total_lines_added": 498,
        "total_lines_removed": 107
    },
    "workspace": { "current_dir": "C:\\git\\herdr", "added_dirs": ["a", "b"] },
    "exceeds_200k_tokens": false,
    "fast_mode": true,
    "thinking": { "enabled": true }
}"#;

#[test]
fn parses_full_payload() {
    let s = parse_live_status(SAMPLE).unwrap();
    assert_eq!(s.model, "Opus 4.8");
    assert_eq!(s.effort, "high");
    assert!(s.fast_mode);
    assert!(s.thinking);
    assert_eq!(s.context_pct_bits.map(f64::from_bits), Some(12.0));
    assert_eq!(s.input_tokens, 117315);
    assert_eq!(s.output_tokens, 2032);
    assert!((f64::from_bits(s.cost_bits) - 17.72).abs() < 1e-9);
    assert_eq!(s.lines_added, 498);
    assert_eq!(s.lines_removed, 107);
    assert_eq!(s.current_dir, "C:\\git\\herdr");
    assert_eq!(s.added_dirs, 2);
    assert!(!s.exceeds_200k);
    assert_eq!(s.session_id.as_deref(), Some("abc"));
}

#[test]
fn session_id_none_when_absent() {
    let s = parse_live_status(r#"{ "model": { "display_name": "Opus 4.8" } }"#).unwrap();
    assert_eq!(s.session_id, None);
}

#[test]
fn defaults_when_fields_missing() {
    let s = parse_live_status(r#"{ "model": { "display_name": "Sonnet 4.6" } }"#).unwrap();
    assert_eq!(s.model, "Sonnet 4.6");
    assert_eq!(s.effort, "default");
    assert!(!s.fast_mode);
    assert!(!s.thinking);
    assert_eq!(s.context_pct_bits, None);
    assert_eq!(s.input_tokens, 0);
    assert_eq!(f64::from_bits(s.cost_bits), 0.0);
    assert_eq!(s.added_dirs, 0);
}

#[test]
fn parses_session_name() {
    let s = parse_live_status(r#"{ "model": { "display_name": "Opus 4.8" }, "session_name": "names" }"#).unwrap();
    assert_eq!(s.session_name.as_deref(), Some("names"));
}

#[test]
fn blank_session_name_is_none() {
    let s = parse_live_status(r#"{ "model": { "display_name": "Opus 4.8" }, "session_name": "  " }"#).unwrap();
    assert_eq!(s.session_name, None);
}

#[test]
fn no_model_returns_none() {
    assert!(parse_live_status(r#"{ "effort": { "level": "low" } }"#).is_none());
}

#[test]
fn invalid_json_returns_none() {
    assert!(parse_live_status("not json").is_none());
}

#[test]
fn wrongly_typed_fields_read_as_absent() {
    let s = parse_live_status(
        r#"{ "model": { "display_name": "M" }, "fast_mode": "yes", "effort": { "level": 3 },
             "context_window": { "total_input_tokens": -5, "used_percentage": "x" },
             "workspace": { "added_dirs": "a" }, "cwd": "/c" }"#,
    )
    .unwrap();
    assert!(!s.fast_mode);
    assert_eq!(s.effort, "default");
    assert_eq!(s.input_tokens, 0);
    assert_eq!(s.context_pct_bits, None);
    assert_eq!(s.added_dirs, 0);
    assert_eq!(s.current_dir, "/c");
    assert!(parse_live_status(r#"{ "model": { "display_name": 4 } }"#).is_none());
    assert!(parse_live_status(r#"[1, 2]"#).is_none());
}

#[test]
fn decoded_document_holds_members_and_numbers() {
    let v = decode_json(r#"{"a": [1, 2.5, null], "b": true}"#).unwrap();
    match &v {
        JsonValue::Object(members) => {
            assert_eq!(members.len(), 2);
            assert_eq!(members[0].0, "a");
            match &members[0].1 {
                JsonValue::Array(items) => {
                    assert_eq!(items[0], JsonValue::Number { as_u64: Some(1), f64_bits: Some(1.0f64.to_bits()) });
                    assert_eq!(items[1], JsonValue::Number { as_u64: None, f64_bits: Some(2.5f64.to_bits()) });
                    assert_eq!(items[2], JsonValue::Null);
                },
                other => panic!("unexpected {:?}", other),
            }
            assert_eq!(members[1].1, JsonValue::Bool(true));
        },
        other => panic!("unexpected {:?}", other),
    }
    let p = status_payload_of(&v);
    assert_eq!(p.model_display_name, None);
    assert!(decode_json("{").is_none());
}

#[test]
fn names_are_trimmed_and_cwd_is_the_fallback() {
    let payload = StatusPayload {
        session_name: Some("\t my name \u{3000}".to_string()),
        session_id: Some(" id-1\n".to_string()),
        cwd: Some("/home/u/proj".to_string()),
        ..with_model("Haiku")
    };
    let s = live_status_from_payload(&payload).unwrap();
    assert_eq!(s.session_name.as_deref(), Some("my name"));
    assert_eq!(s.session_id.as_deref(), Some("id-1"));
    assert_eq!(s.current_dir, "/home/u/proj");
    let both = StatusPayload {
        workspace_current_dir: Some("/w".to_string()),
        cwd: Some("/c".to_string()),
        ..with_model("Haiku")
    };
    assert_eq!(live_status_from_payload(&both).unwrap().current_dir, "/w");
    assert_eq!(live_status_from_payload(&with_model("Haiku")).unwrap().current_dir, "");
}

fn state_with(terminals: Vec<TerminalState>) -> AppState {
    let mut state = AppState::new(Rect::new(0, 0, 26, 20), 26, 10, 60);
    state.terminals = terminals;
    state
}

fn reader(statuses: Vec<(&'static str, Option<LiveStatus>)>) -> Option<impl Fn(&String) -> Option<LiveStatus>> {
    Some(move |id: &String| statuses.iter().find(|(k, _)| *k == id.as_str()).and_then(|(_, s)| s.clone()))
}

#[test]
fn refresh_clears_stale_title_for_new_unnamed_session() {
    let mut state = state_with(vec![terminal(1, Some("new-sess"), Some("testing123"))]);
    let status = parse_live_status(r#"{"model":{"display_name":"Opus 4.8"}}"#);
    state.refresh_agent_live_statuses(reader(vec![("new-sess", status)]));
    assert_eq!(state.terminals[0].session_title, None);
    assert!(state.terminals[0].live_status.is_some());
}

#[test]
fn refresh_clears_stale_title_when_no_payload() {
    let mut state = state_with(vec![terminal(1, Some("cleared-sess"), Some("stale-name"))]);
    state.refresh_agent_live_statuses(reader(vec![]));
    assert_eq!(state.terminals[0].session_title, None);
    assert_eq!(state.terminals[0].live_status, None);
}

#[test]
fn refresh_mirrors_session_name_and_skips_non_agent_panes() {
    let mut state = state_with(vec![terminal(1, None, Some("keep")), terminal(2, Some("s2"), None)]);
    let named = parse_live_status(r#"{"model":{"display_name":"Opus 4.8"},"session_name":"renamed"}"#);
    state.refresh_agent_live_statuses(reader(vec![("s2", named)]));
    assert_eq!(state.terminals[0].session_title.as_deref(), Some("keep"));
    assert_eq!(state.terminals[0].live_status, None);
    assert_eq!(state.terminals[1].session_title.as_deref(), Some("renamed"));
    assert_eq!(state.terminals[1].live_status.as_ref().unwrap().model, "Opus 4.8");
}

#[test]
fn refresh_without_home_changes_nothing() {
    let mut state = state_with(vec![terminal(1, Some("s"), Some("title"))]);
    state.refresh_agent_live_statuses(None::<fn(&String) -> Option<LiveStatus>>);
    assert_eq!(state.terminals[0].session_title.as_deref(), Some("title"));
}
