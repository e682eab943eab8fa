use herdr::client_input::{
    client_key_for_char, forwarded_raw_events, windows_client_input_event_from_raw,
    windows_event_is_control_key, windows_key_raw_bytes, PasteBurstAccumulator,
};
use herdr::protocol::{
    ClientInputEvent, ClientKeyCode, ClientKeyKind, ClientLoopEvent, ClientMouseKind, Event, KeyCode,
    KeyEvent, KeyEventKind, MouseButton, MouseEvent, MouseEventKind, RawInputEvent, MOD_ALT,
    MOD_CONTROL, MOD_SHIFT,
};

fn press(code: KeyCode) -> Event {
    Event::Key(KeyEvent::new(code, 0))
}

fn feed(acc: &mut PasteBurstAccumulator, events: &[Event]) -> Vec<ClientInputEvent> {
    let mut out = Vec::new();
    for event in events {
        let outcome = acc.observe(event);
        out.extend(outcome.flush);
    }
    out.extend(acc.finish());
    out
}

fn key(code: ClientKeyCode, modifiers: u8) -> ClientInputEvent {
    ClientInputEvent::Key { code, modifiers, kind: ClientKeyKind::Press }
}

#[test]
fn stdin_input_event_carries_raw_bytes() {
    let data = vec![0x1b, b'[', b'A'];
    let event = ClientLoopEvent::StdinInput(data.clone());
    match event {
        ClientLoopEvent::StdinInput(d) => assert_eq!(d, data),
        _ => panic!("expected StdinInput event"),
    }
}

#[test]
fn windows_control_chars_are_reframed_as_raw_bytes() {
    let escape = press(KeyCode::Esc);
    assert_eq!(windows_key_raw_bytes(&escape, false).as_deref(), Some(b"\x1b".as_slice()));

    let enter = press(KeyCode::Char('\r'));
    assert_eq!(windows_key_raw_bytes(&enter, false).as_deref(), Some(b"\r".as_slice()));

    let printable = press(KeyCode::Char('n'));
    assert_eq!(windows_key_raw_bytes(&printable, false), None);

    let pending_arrow_tail = press(KeyCode::Char('['));
    assert_eq!(windows_key_raw_bytes(&pending_arrow_tail, true).as_deref(), Some(b"[".as_slice()));
}

#[test]
fn windows_ctrl_d_semantic_event_encodes_to_eot() {
    let event = Event::Key(KeyEvent::new(KeyCode::Char('d'), MOD_CONTROL));
    assert_eq!(windows_key_raw_bytes(&event, false), None);

    let event = ClientInputEvent::from_event(&event).expect("ctrl-d converts");
    assert_eq!(event, key(ClientKeyCode::Char('d'), MOD_CONTROL));
}

#[test]
fn windows_pasted_printable_ctrl_i_routes_as_literal_i() {
    let event = Event::Key(KeyEvent::new(KeyCode::Char('i'), MOD_CONTROL));
    assert_eq!(windows_key_raw_bytes(&event, false).as_deref(), Some(b"i".as_slice()));

    let event = Event::Key(KeyEvent::new(KeyCode::Char('I'), MOD_CONTROL | MOD_SHIFT));
    assert_eq!(windows_key_raw_bytes(&event, false).as_deref(), Some(b"I".as_slice()));
}

#[test]
fn windows_enter_inside_pending_sequence_stays_in_paste() {
    let enter = press(KeyCode::Enter);
    assert_eq!(windows_key_raw_bytes(&enter, true).as_deref(), Some(b"\r".as_slice()));
    assert_eq!(windows_key_raw_bytes(&enter, false), None);

    let tab = press(KeyCode::Tab);
    assert_eq!(windows_key_raw_bytes(&tab, true).as_deref(), Some(b"\t".as_slice()));
    assert_eq!(windows_key_raw_bytes(&tab, false), None);
}

fn paste_stream(body: &[KeyCode]) -> Vec<Event> {
    let mut codes = vec![
        KeyCode::Esc,
        KeyCode::Char('['),
        KeyCode::Char('2'),
        KeyCode::Char('0'),
        KeyCode::Char('0'),
        KeyCode::Char('~'),
    ];
    codes.extend_from_slice(body);
    codes.extend_from_slice(&[
        KeyCode::Esc,
        KeyCode::Char('['),
        KeyCode::Char('2'),
        KeyCode::Char('0'),
        KeyCode::Char('1'),
        KeyCode::Char('~'),
    ]);
    codes.into_iter().map(press).collect()
}

/// Every event of the marker stream routes through the framer while a
/// sequence is pending (each event but the first leaves it pending, since the
/// framer produces nothing until the end marker).
fn framer_bytes(events: &[Event]) -> Vec<u8> {
    let mut bytes = Vec::new();
    for (i, event) in events.iter().enumerate() {
        let pending = i > 0;
        bytes.extend(windows_key_raw_bytes(event, pending).expect("paste bytes route through framer"));
    }
    bytes
}

#[test]
fn windows_bracketed_paste_with_newline_reassembles_to_single_paste() {
    let events = paste_stream(&[
        KeyCode::Char('a'),
        KeyCode::Char('b'),
        KeyCode::Enter,
        KeyCode::Char('c'),
        KeyCode::Char('d'),
    ]);
    assert_eq!(framer_bytes(&events), b"\x1b[200~ab\rcd\x1b[201~".to_vec());
}

#[test]
fn windows_multiline_paste_reassembles_with_no_enter_keys_escaping() {
    let events = paste_stream(&[
        KeyCode::Char('a'),
        KeyCode::Enter,
        KeyCode::Char('b'),
        KeyCode::Enter,
        KeyCode::Char('c'),
    ]);
    assert_eq!(framer_bytes(&events), b"\x1b[200~a\rb\rc\x1b[201~".to_vec());

    let wire = windows_client_input_event_from_raw(RawInputEvent::Paste("a\rb\rc".to_string()))
        .expect("paste converts");
    assert_eq!(wire, ClientInputEvent::Paste { text: "a\rb\rc".to_string() });
}

#[test]
fn windows_eot_control_char_normalizes_to_ctrl_d() {
    let event = press(KeyCode::Char('\u{4}'));
    let bytes = windows_key_raw_bytes(&event, false).expect("eot routes through raw framer");
    assert_eq!(bytes, b"\x04");

    let event = windows_client_input_event_from_raw(RawInputEvent::Key(KeyEvent::new(
        KeyCode::Char('d'),
        MOD_CONTROL,
    )))
    .expect("raw eot converts");
    assert_eq!(event, key(ClientKeyCode::Char('d'), MOD_CONTROL));
}

#[test]
fn windows_pending_escape_sequence_converts_to_semantic_arrow() {
    let event = windows_client_input_event_from_raw(RawInputEvent::Key(KeyEvent::new(KeyCode::Up, 0)))
        .expect("raw arrow converts");
    assert_eq!(event, key(ClientKeyCode::Up, 0));
}

#[test]
fn windows_bare_escape_flushes_to_semantic_escape() {
    let event = windows_client_input_event_from_raw(RawInputEvent::Key(KeyEvent::new(KeyCode::Esc, 0)))
        .expect("raw escape converts");
    assert_eq!(event, key(ClientKeyCode::Esc, 0));
}

#[test]
fn multiline_burst_coalesces_into_single_paste() {
    let mut acc = PasteBurstAccumulator::new();
    let out = feed(
        &mut acc,
        &[press(KeyCode::Char('a')), press(KeyCode::Char('b')), press(KeyCode::Enter), press(KeyCode::Char('c'))],
    );
    assert_eq!(out, vec![ClientInputEvent::Paste { text: "ab\nc".to_string() }]);
}

#[test]
fn lone_enter_is_not_coalesced_and_still_submits() {
    let mut acc = PasteBurstAccumulator::new();
    let out = feed(&mut acc, &[press(KeyCode::Enter)]);
    assert_eq!(out, vec![key(ClientKeyCode::Enter, 0)]);
}

#[test]
fn single_line_run_without_newline_replays_as_keys() {
    let mut acc = PasteBurstAccumulator::new();
    let out = feed(&mut acc, &[press(KeyCode::Char('h')), press(KeyCode::Char('i'))]);
    assert_eq!(out.len(), 2);
    assert!(out.iter().all(|e| matches!(e, ClientInputEvent::Key { .. })));
}

#[test]
fn non_text_key_ends_burst_and_passes_through() {
    let mut acc = PasteBurstAccumulator::new();
    assert!(acc.observe(&press(KeyCode::Char('x'))).absorbed);
    assert!(acc.observe(&press(KeyCode::Enter)).absorbed);
    let outcome = acc.observe(&press(KeyCode::Up));
    assert!(!outcome.absorbed);
    assert_eq!(outcome.flush, vec![ClientInputEvent::Paste { text: "x\n".to_string() }]);
}

#[test]
fn release_events_do_not_split_a_burst() {
    let mut acc = PasteBurstAccumulator::new();
    let out = feed(
        &mut acc,
        &[
            press(KeyCode::Char('a')),
            Event::Key(KeyEvent::new_with_kind(KeyCode::Char('a'), 0, KeyEventKind::Release)),
            press(KeyCode::Enter),
        ],
    );
    assert_eq!(out, vec![ClientInputEvent::Paste { text: "a\n".to_string() }]);
}

#[test]
fn replayed_run_carries_every_character() {
    let mut acc = PasteBurstAccumulator::new();
    let out = feed(&mut acc, &[press(KeyCode::Char('x')), press(KeyCode::Tab), press(KeyCode::Char('y'))]);
    assert_eq!(
        out,
        vec![key(ClientKeyCode::Char('x'), 0), key(ClientKeyCode::Tab, 0), key(ClientKeyCode::Char('y'), 0)]
    );
}

#[test]
fn release_alone_is_not_absorbed_and_finish_on_empty_is_empty() {
    let mut acc = PasteBurstAccumulator::new();
    let outcome = acc.observe(&Event::Key(KeyEvent::new_with_kind(KeyCode::Char('a'), 0, KeyEventKind::Release)));
    assert!(!outcome.absorbed);
    assert!(outcome.flush.is_empty());
    assert!(acc.finish().is_empty());
}

#[test]
fn modified_and_control_chars_end_a_burst() {
    let mut acc = PasteBurstAccumulator::new();
    assert!(acc.observe(&press(KeyCode::Char('a'))).absorbed);
    let ctrl = acc.observe(&Event::Key(KeyEvent::new(KeyCode::Char('c'), MOD_CONTROL)));
    assert!(!ctrl.absorbed);
    assert_eq!(ctrl.flush, vec![key(ClientKeyCode::Char('a'), 0)]);
    let shifted = acc.observe(&Event::Key(KeyEvent::new(KeyCode::Char('A'), MOD_SHIFT)));
    assert!(shifted.absorbed);
    assert_eq!(acc.buffered(), "A");
}

#[test]
fn finish_empties_the_buffer() {
    let mut acc = PasteBurstAccumulator::new();
    acc.observe(&press(KeyCode::Char('q')));
    assert_eq!(acc.finish().len(), 1);
    assert!(acc.finish().is_empty());
}

#[test]
fn client_key_for_char_maps_newline_and_tab() {
    assert_eq!(client_key_for_char('\n'), key(ClientKeyCode::Enter, 0));
    assert_eq!(client_key_for_char('\t'), key(ClientKeyCode::Tab, 0));
    assert_eq!(client_key_for_char('z'), key(ClientKeyCode::Char('z'), 0));
}

#[test]
fn alt_control_char_is_prefixed_with_escape() {
    let event = Event::Key(KeyEvent::new(KeyCode::Char('\u{1}'), MOD_ALT));
    assert_eq!(windows_key_raw_bytes(&event, false), Some(vec![0x1b, 0x01]));
    let alt_ctrl_i = Event::Key(KeyEvent::new(KeyCode::Char('i'), MOD_ALT | MOD_CONTROL));
    assert_eq!(windows_key_raw_bytes(&alt_ctrl_i, false), None);
}

#[test]
fn pending_multibyte_char_is_utf8_encoded() {
    assert_eq!(windows_key_raw_bytes(&press(KeyCode::Char('é')), true), Some(vec![0xC3, 0xA9]));
    assert_eq!(windows_key_raw_bytes(&press(KeyCode::Char('€')), true), Some(vec![0xE2, 0x82, 0xAC]));
    assert_eq!(windows_key_raw_bytes(&press(KeyCode::Char('😀')), true), Some(vec![0xF0, 0x9F, 0x98, 0x80]));
}

#[test]
fn releases_and_modified_escape_are_not_raw() {
    let release = Event::Key(KeyEvent::new_with_kind(KeyCode::Esc, 0, KeyEventKind::Release));
    assert_eq!(windows_key_raw_bytes(&release, true), None);
    let alt_esc = Event::Key(KeyEvent::new(KeyCode::Esc, MOD_ALT));
    assert_eq!(windows_key_raw_bytes(&alt_esc, false), None);
    assert_eq!(windows_key_raw_bytes(&Event::FocusGained, true), None);
}

#[test]
fn control_key_detection() {
    assert!(windows_event_is_control_key(&Event::Key(KeyEvent::new(KeyCode::Char('x'), MOD_CONTROL))));
    assert!(windows_event_is_control_key(&press(KeyCode::Char('\u{7f}'))));
    assert!(!windows_event_is_control_key(&press(KeyCode::Char('x'))));
    assert!(!windows_event_is_control_key(&Event::FocusLost));
}

#[test]
fn raw_events_convert_or_drop() {
    let mouse = RawInputEvent::Mouse(MouseEvent {
        kind: MouseEventKind::Down(MouseButton::Left),
        column: 3,
        row: 4,
        modifiers: MOD_SHIFT,
    });
    let out = forwarded_raw_events(vec![
        RawInputEvent::HostDefaultColor,
        mouse,
        RawInputEvent::OuterFocusGained,
        RawInputEvent::Key(KeyEvent::new(KeyCode::Unsupported, 0)),
        RawInputEvent::OuterFocusLost,
        RawInputEvent::Unsupported,
        RawInputEvent::HostColorSchemeChanged,
    ]);
    assert_eq!(
        out,
        vec![
            ClientInputEvent::Mouse {
                kind: ClientMouseKind::Down(MouseButton::Left),
                column: 3,
                row: 4,
                modifiers: MOD_SHIFT
            },
            ClientInputEvent::FocusGained,
            ClientInputEvent::FocusLost,
        ]
    );
}

#[test]
fn semantic_events_convert() {
    assert_eq!(ClientInputEvent::from_event(&Event::Resize(80, 24)), None);
    assert_eq!(
        ClientInputEvent::from_event(&Event::Paste("hi".to_string())),
        Some(ClientInputEvent::Paste { text: "hi".to_string() })
    );
    assert_eq!(
        ClientInputEvent::from_event(&Event::Key(KeyEvent::new_with_kind(KeyCode::F(5), 0, KeyEventKind::Repeat))),
        Some(ClientInputEvent::Key { code: ClientKeyCode::F(5), modifiers: 0, kind: ClientKeyKind::Repeat })
    );
}
