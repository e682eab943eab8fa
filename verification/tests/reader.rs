use herdr::protocol::{ClientInputEvent, ClientKeyCode, ClientKeyKind, Event, KeyCode, KeyEvent, KeyEventKind};
use herdr::reader::{
    input_is_quiet, unix_read_action, unix_should_flush_held_escape, EventStep, ReadAction, ReadOutcome, WindowsReader,
    MAX_PENDING_TICKS,
};

fn press(code: KeyCode) -> Event {
    Event::Key(KeyEvent::new(code, 0))
}

#[test]
fn unix_read_actions() {
    assert_eq!(unix_read_action(ReadOutcome::Eof), ReadAction::Stop);
    assert_eq!(unix_read_action(ReadOutcome::Failed), ReadAction::Stop);
    assert_eq!(unix_read_action(ReadOutcome::Interrupted), ReadAction::Retry);
    assert_eq!(unix_read_action(ReadOutcome::Data), ReadAction::Forward);
    assert!(unix_should_flush_held_escape(true, true, true));
    assert!(!unix_should_flush_held_escape(true, false, true));
    assert!(!unix_should_flush_held_escape(false, true, true));
    assert!(!unix_should_flush_held_escape(true, true, false));
    assert!(input_is_quiet(Some(false)));
    assert!(!input_is_quiet(Some(true)));
    assert!(!input_is_quiet(None));
}

#[test]
fn escape_starts_a_raw_sequence_that_routes_following_keys() {
    let mut r = WindowsReader::new();
    match r.on_event(&press(KeyCode::Esc)) {
        EventStep::Raw(bytes) => assert_eq!(bytes, vec![0x1b]),
        other => panic!("unexpected {:?}", other),
    }
    r.after_raw_push(true);
    assert!(r.raw_sequence_pending);
    match r.on_event(&press(KeyCode::Char('['))) {
        EventStep::Raw(bytes) => assert_eq!(bytes, b"[".to_vec()),
        other => panic!("unexpected {:?}", other),
    }
    r.after_raw_push(false);
    assert!(!r.raw_sequence_pending);
}

#[test]
fn semantic_event_interrupts_pending_sequence() {
    let mut r = WindowsReader::new();
    r.after_raw_push(true);
    match r.on_event(&press(KeyCode::Up)) {
        EventStep::Raw(_) => panic!("arrow is not raw"),
        EventStep::Semantic { flush_framer_first, burst_flush, forward } => {
            assert!(flush_framer_first);
            assert!(burst_flush.is_empty());
            assert_eq!(
                forward,
                Some(ClientInputEvent::Key { code: ClientKeyCode::Up, modifiers: 0, kind: ClientKeyKind::Press })
            );
        },
    }
    assert!(!r.raw_sequence_pending);
}

#[test]
fn typed_burst_is_flushed_when_idle() {
    let mut r = WindowsReader::new();
    for code in [KeyCode::Char('a'), KeyCode::Enter, KeyCode::Char('b')] {
        match r.on_event(&press(code)) {
            EventStep::Semantic { forward, burst_flush, flush_framer_first } => {
                assert!(forward.is_none());
                assert!(burst_flush.is_empty());
                assert!(!flush_framer_first);
            },
            other => panic!("unexpected {:?}", other),
        }
    }
    let idle = r.on_idle();
    assert!(!idle.flush_framer);
    assert_eq!(idle.burst_flush, vec![ClientInputEvent::Paste { text: "a\nb".to_string() }]);
    assert!(r.on_idle().burst_flush.is_empty());
}

#[test]
fn release_outside_a_burst_is_forwarded() {
    let mut r = WindowsReader::new();
    let release = Event::Key(KeyEvent::new_with_kind(KeyCode::Char('a'), 0, KeyEventKind::Release));
    match r.on_event(&release) {
        EventStep::Semantic { forward, .. } => assert_eq!(
            forward,
            Some(ClientInputEvent::Key { code: ClientKeyCode::Char('a'), modifiers: 0, kind: ClientKeyKind::Release })
        ),
        other => panic!("unexpected {:?}", other),
    }
}

#[test]
fn pending_sequence_is_abandoned_after_max_ticks() {
    let mut r = WindowsReader::new();
    r.after_raw_push(true);
    for _ in 0..MAX_PENDING_TICKS - 1 {
        assert!(r.on_idle().flush_framer);
        assert!(!r.after_idle_flush(true));
        assert!(r.raw_sequence_pending);
    }
    assert!(r.after_idle_flush(true));
    assert!(!r.raw_sequence_pending);
    assert_eq!(r.pending_ticks, 0);
}

#[test]
fn completed_flush_ends_sequence_and_activity_resets_ticks() {
    let mut r = WindowsReader::new();
    r.after_raw_push(true);
    assert!(!r.after_idle_flush(true));
    assert_eq!(r.pending_ticks, 1);
    r.on_poll_ready();
    assert_eq!(r.pending_ticks, 0);
    assert!(!r.after_idle_flush(false));
    assert!(!r.raw_sequence_pending);
}
