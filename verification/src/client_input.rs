//! Client-side input framing: which key events are fed back to the raw byte
//! framer, how raw framer output becomes protocol events, and how a burst of
//! typed characters that looks like a paste is coalesced into one paste event.

use vstd::prelude::*;
use crate::protocol::{
    ClientInputEvent, ClientInputEventView, ClientKeyCode, ClientKeyKind, ClientMouseKind, Event,
    KeyCode, KeyEvent, KeyEventKind, RawInputEvent, MOD_ALT, MOD_CONTROL, MOD_SHIFT, events_view,
    spec_client_key_code, spec_client_key_kind, spec_client_mouse_kind, spec_client_event_from_event,
    MouseEvent,
};
use crate::text::{char_is_control, is_control_char, push_utf8, string_from_chars, utf8_encode};

verus! {

/// The modifier bits hold the control modifier.
pub open spec fn has_control(m: u8) -> bool {
    m & MOD_CONTROL != 0
}

/// The modifier bits hold the alt modifier.
pub open spec fn has_alt(m: u8) -> bool {
    m & MOD_ALT != 0
}

/// No modifier but possibly shift is held.
pub open spec fn unmodified_but_shift(m: u8) -> bool {
    m & !MOD_SHIFT == 0
}

/// The bytes a key event is fed back to the raw framer as, if any. Escape, the
/// control characters, and (while a raw sequence is pending) every character,
/// Enter and Tab go through the framer; control-I typed as `i`/`I` outside a
/// sequence is a pasted literal letter.
pub open spec fn spec_windows_key_raw_bytes(event: Event, pending: bool) -> Option<Seq<u8>> {
    match event {
        Event::Key(key) => if key.kind == KeyEventKind::Release {
            None
        } else {
            match key.code {
                KeyCode::Esc => if key.modifiers == 0 { Some(seq![0x1bu8]) } else { None },
                KeyCode::Char(ch) => if !pending && (ch == 'i' || ch == 'I') && has_control(key.modifiers)
                    && !has_alt(key.modifiers) {
                    Some(utf8_encode(ch))
                } else if pending || is_control_char(ch) {
                    Some((if has_alt(key.modifiers) { seq![0x1bu8] } else { Seq::empty() }) + utf8_encode(ch))
                } else {
                    None
                },
                KeyCode::Enter => if pending { Some(seq![0x0du8]) } else { None },
                KeyCode::Tab => if pending { Some(seq![0x09u8]) } else { None },
                _ => None,
            }
        },
        _ => None,
    }
}

/// The raw bytes to feed the framer for `event`, or none when the event goes
/// through the semantic path.
pub fn windows_key_raw_bytes(event: &Event, raw_sequence_pending: bool) -> (r: Option<Vec<u8>>)
    ensures
        match r {
            Some(v) => spec_windows_key_raw_bytes(*event, raw_sequence_pending) == Some(v@),
            None => spec_windows_key_raw_bytes(*event, raw_sequence_pending) is None,
        },
{
    let key = match event {
        Event::Key(key) => *key,
        _ => return None,
    };
    if key.kind == KeyEventKind::Release {
        return None;
    }
    let control = key.modifiers & MOD_CONTROL != 0;
    let alt = key.modifiers & MOD_ALT != 0;
    match key.code {
        KeyCode::Esc => {
            if key.modifiers == 0 {
                let mut v: Vec<u8> = Vec::new();
                v.push(0x1b);
                assert(v@ =~= seq![0x1bu8]);
                Some(v)
            } else {
                None
            }
        },
        KeyCode::Char(ch) => {
            if !raw_sequence_pending && (ch == 'i' || ch == 'I') && control && !alt {
                let mut v: Vec<u8> = Vec::new();
                push_utf8(&mut v, ch);
                assert(v@ =~= utf8_encode(ch));
                Some(v)
            } else if raw_sequence_pending || char_is_control(ch) {
                let mut v: Vec<u8> = Vec::new();
                if alt {
                    v.push(0x1b);
                }
                let ghost prefix = v@;
                assert(prefix =~= (if has_alt(key.modifiers) { seq![0x1bu8] } else { Seq::empty() }));
                push_utf8(&mut v, ch);
                Some(v)
            } else {
                None
            }
        },
        KeyCode::Enter => {
            if raw_sequence_pending {
                let mut v: Vec<u8> = Vec::new();
                v.push(0x0d);
                assert(v@ =~= seq![0x0du8]);
                Some(v)
            } else {
                None
            }
        },
        KeyCode::Tab => {
            if raw_sequence_pending {
                let mut v: Vec<u8> = Vec::new();
                v.push(0x09);
                assert(v@ =~= seq![0x09u8]);
                Some(v)
            } else {
                None
            }
        },
        _ => None,
    }
}

/// A key event with the control modifier, or on a control character.
pub open spec fn spec_windows_event_is_control_key(event: Event) -> bool {
    match event {
        Event::Key(key) => has_control(key.modifiers) || (match key.code {
            KeyCode::Char(ch) => is_control_char(ch),
            _ => false,
        }),
        _ => false,
    }
}

/// Whether `event` is a control key that reaches the semantic path.
pub fn windows_event_is_control_key(event: &Event) -> (b: bool)
    ensures
        b == spec_windows_event_is_control_key(*event),
{
    match event {
        Event::Key(key) => {
            key.modifiers & MOD_CONTROL != 0 || match key.code {
                KeyCode::Char(ch) => char_is_control(ch),
                _ => false,
            }
        },
        _ => false,
    }
}

/// The protocol event a raw framer event is forwarded as, if any. Host color
/// reports and unrecognized sequences are not forwarded, nor keys and mouse
/// actions the protocol has no name for.
pub open spec fn spec_client_event_from_raw(event: RawInputEvent) -> Option<ClientInputEventView> {
    match event {
        RawInputEvent::Key(key) => match spec_client_key_code(key.code) {
            Some(code) => Some(ClientInputEventView::Key {
                code,
                modifiers: key.modifiers,
                kind: spec_client_key_kind(key.kind),
            }),
            None => None,
        },
        RawInputEvent::Mouse(m) => Some(ClientInputEventView::Mouse {
            kind: spec_client_mouse_kind(m.kind),
            column: m.column,
            row: m.row,
            modifiers: m.modifiers,
        }),
        RawInputEvent::Paste(text) => Some(ClientInputEventView::Paste { text: text@ }),
        RawInputEvent::OuterFocusGained => Some(ClientInputEventView::FocusGained),
        RawInputEvent::OuterFocusLost => Some(ClientInputEventView::FocusLost),
        _ => None,
    }
}

/// A key, mouse action or paste that the raw framer recognizes is forwarded
/// exactly as the same terminal event would be; the outer focus changes are
/// forwarded as focus changes; host color reports and unrecognized sequences
/// are not forwarded.
pub proof fn lemma_raw_events_forward_like_terminal_events(key: KeyEvent, m: MouseEvent, text: String)
    ensures
        spec_client_event_from_raw(RawInputEvent::Key(key)) == spec_client_event_from_event(Event::Key(key)),
        spec_client_event_from_raw(RawInputEvent::Mouse(m)) == spec_client_event_from_event(Event::Mouse(m)),
        spec_client_event_from_raw(RawInputEvent::Paste(text)) == spec_client_event_from_event(Event::Paste(text)),
        spec_client_event_from_raw(RawInputEvent::OuterFocusGained) == spec_client_event_from_event(Event::FocusGained),
        spec_client_event_from_raw(RawInputEvent::OuterFocusLost) == spec_client_event_from_event(Event::FocusLost),
        spec_client_event_from_raw(RawInputEvent::HostDefaultColor) is None,
        spec_client_event_from_raw(RawInputEvent::HostColorSchemeChanged) is None,
        spec_client_event_from_raw(RawInputEvent::Unsupported) is None,
{
}

/// Converts a raw framer event to the protocol event it is forwarded as.
pub fn windows_client_input_event_from_raw(event: RawInputEvent) -> (r: Option<ClientInputEvent>)
    ensures
        match r {
            Some(e) => spec_client_event_from_raw(event) == Some(e@),
            None => spec_client_event_from_raw(event) is None,
        },
{
    match event {
        RawInputEvent::Key(key) => {
            match ClientKeyCode::from_key_code(key.code) {
                Some(code) => Some(ClientInputEvent::Key {
                    code,
                    modifiers: key.modifiers,
                    kind: ClientKeyKind::from_kind(key.kind),
                }),
                None => None,
            }
        },
        RawInputEvent::Mouse(m) => Some(ClientInputEvent::Mouse {
            kind: ClientMouseKind::from_kind(m.kind),
            column: m.column,
            row: m.row,
            modifiers: m.modifiers,
        }),
        RawInputEvent::Paste(text) => Some(ClientInputEvent::Paste { text }),
        RawInputEvent::OuterFocusGained => Some(ClientInputEvent::FocusGained),
        RawInputEvent::OuterFocusLost => Some(ClientInputEvent::FocusLost),
        RawInputEvent::HostDefaultColor | RawInputEvent::HostColorSchemeChanged
        | RawInputEvent::Unsupported => None,
    }
}

/// The protocol events forwarded for the raw events `raws`: each converted in
/// order, dropping those that are not forwarded.
pub open spec fn spec_forwarded_raw_events(raws: Seq<RawInputEvent>) -> Seq<ClientInputEventView>
    decreases raws.len(),
{
    if raws.len() == 0 {
        Seq::empty()
    } else {
        let prev = spec_forwarded_raw_events(raws.drop_last());
        match spec_client_event_from_raw(raws.last()) {
            Some(e) => prev.push(e),
            None => prev,
        }
    }
}

/// The protocol events to forward for a batch of raw framer events.
pub fn forwarded_raw_events(events: Vec<RawInputEvent>) -> (r: Vec<ClientInputEvent>)
    ensures
        events_view(r@) == spec_forwarded_raw_events(events@),
{
    let ghost all = events@;
    let mut out: Vec<ClientInputEvent> = Vec::new();
    for e in it: events
        invariant
            it.seq() == all,
            events_view(out@) == spec_forwarded_raw_events(all.take(it.index() as int)),
    {
        let ghost k = it.index() as int;
        proof {
            assert(all.take(k + 1).drop_last() =~= all.take(k));
            assert(all.take(k + 1).last() == e);
        }
        match windows_client_input_event_from_raw(e) {
            Some(c) => {
                out.push(c);
                assert(events_view(out@) =~= spec_forwarded_raw_events(all.take(k + 1)));
            },
            None => {},
        }
    }
    assert(all.take(all.len() as int) =~= all);
    out
}

/// The protocol key a buffered character is replayed as: newline as Enter,
/// tab as Tab, anything else as that character.
pub open spec fn key_code_for_char(ch: char) -> ClientKeyCode {
    if ch == '\n' {
        ClientKeyCode::Enter
    } else if ch == '\t' {
        ClientKeyCode::Tab
    } else {
        ClientKeyCode::Char(ch)
    }
}

/// The unmodified key press a buffered character is replayed as.
pub open spec fn spec_client_key_for_char(ch: char) -> ClientInputEventView {
    ClientInputEventView::Key { code: key_code_for_char(ch), modifiers: 0, kind: ClientKeyKind::Press }
}

/// Builds the key press that a buffered character replays as.
pub fn client_key_for_char(ch: char) -> (e: ClientInputEvent)
    ensures
        e@ == spec_client_key_for_char(ch),
{
    let code = if ch == '\n' {
        KeyCode::Enter
    } else if ch == '\t' {
        KeyCode::Tab
    } else {
        KeyCode::Char(ch)
    };
    let client_code = match ClientKeyCode::from_key_code(code) {
        Some(c) => c,
        None => ClientKeyCode::Char(ch),
    };
    ClientInputEvent::Key { code: client_code, modifiers: 0, kind: ClientKeyKind::Press }
}

/// The character a key event adds to a paste burst: a printable character,
/// Enter as newline or Tab as tab, with no modifier but shift; none for any
/// other event.
pub open spec fn spec_burst_char(event: Event) -> Option<char> {
    match event {
        Event::Key(key) => if key.kind == KeyEventKind::Release || !unmodified_but_shift(key.modifiers) {
            None
        } else {
            match key.code {
                KeyCode::Char(ch) => if is_control_char(ch) { None } else { Some(ch) },
                KeyCode::Enter => Some('\n'),
                KeyCode::Tab => Some('\t'),
                _ => None,
            }
        },
        _ => None,
    }
}

/// A key release.
pub open spec fn is_key_release(event: Event) -> bool {
    match event {
        Event::Key(key) => key.kind == KeyEventKind::Release,
        _ => false,
    }
}

/// A buffered run is paste-shaped: at least two characters, one a newline.
pub open spec fn paste_shaped(text: Seq<char>) -> bool {
    text.len() >= 2 && text.contains('\n')
}

/// What a finished run is forwarded as: nothing when empty, one paste when it
/// is paste-shaped, otherwise its characters replayed as key presses.
pub open spec fn spec_finish(text: Seq<char>) -> Seq<ClientInputEventView> {
    if text.len() == 0 {
        Seq::empty()
    } else if paste_shaped(text) {
        seq![ClientInputEventView::Paste { text }]
    } else {
        text.map_values(|c: char| spec_client_key_for_char(c))
    }
}

/// The text carried by a protocol event: a paste's text, or the character a
/// replayed key stands for.
pub open spec fn event_text(e: ClientInputEventView) -> Seq<char> {
    match e {
        ClientInputEventView::Paste { text } => text,
        ClientInputEventView::Key { code, .. } => match code {
            ClientKeyCode::Enter => seq!['\n'],
            ClientKeyCode::Tab => seq!['\t'],
            ClientKeyCode::Char(c) => seq![c],
            _ => Seq::empty(),
        },
        _ => Seq::empty(),
    }
}

/// The text carried by a sequence of protocol events, in order.
pub open spec fn events_text(es: Seq<ClientInputEventView>) -> Seq<char>
    decreases es.len(),
{
    if es.len() == 0 {
        Seq::empty()
    } else {
        events_text(es.drop_last()) + event_text(es.last())
    }
}

/// Result of feeding one event to the [`PasteBurstAccumulator`].
#[derive(Debug)]
pub struct PasteBurstOutcome {
    /// Finalized events to forward right now.
    pub flush: Vec<ClientInputEvent>,
    /// Whether the event was absorbed into a building burst.
    pub absorbed: bool,
}

/// Coalesces a rapid burst of typed characters into a single paste event when
/// the burst spans a newline; shorter runs replay as the keys they were.
#[derive(Debug)]
pub struct PasteBurstAccumulator {
    buffer: Vec<char>,
}

impl View for PasteBurstAccumulator {
    type V = Seq<char>;

    closed spec fn view(&self) -> Seq<char> {
        self.buffer@
    }
}

impl PasteBurstAccumulator {
    /// An accumulator with no buffered characters.
    pub fn new() -> (a: PasteBurstAccumulator)
        ensures
            a@ == Seq::<char>::empty(),
    {
        PasteBurstAccumulator { buffer: Vec::new() }
    }

    /// The buffered characters, in order.
    pub fn buffered(&self) -> (s: String)
        ensures
            s@ == self@,
    {
        string_from_chars(&self.buffer)
    }

    /// Feeds one event. A release never changes the burst (and is absorbed while
    /// a burst is building); a text key extends the burst and is absorbed; any
    /// other event finishes the burst, whose events are flushed, and falls
    /// through.
    pub fn observe(&mut self, event: &Event) -> (o: PasteBurstOutcome)
        ensures
            is_key_release(*event) ==> {
                &&& o.flush@.len() == 0
                &&& o.absorbed == (old(self)@.len() > 0)
                &&& final(self)@ == old(self)@
            },
            !is_key_release(*event) && spec_burst_char(*event) is Some ==> {
                &&& o.flush@.len() == 0
                &&& o.absorbed
                &&& final(self)@ == old(self)@.push(spec_burst_char(*event)->0)
            },
            !is_key_release(*event) && spec_burst_char(*event) is None ==> {
                &&& events_view(o.flush@) == spec_finish(old(self)@)
                &&& !o.absorbed
                &&& final(self)@ == Seq::<char>::empty()
            },
            event matches Event::Key(key) && key.kind != KeyEventKind::Release && key.modifiers != 0
                && key.modifiers != MOD_SHIFT ==> !o.absorbed && final(self)@ == Seq::<char>::empty(),
    {
        match event {
            Event::Key(key) => {
                if key.kind == KeyEventKind::Release {
                    return PasteBurstOutcome { flush: Vec::new(), absorbed: self.buffer.len() > 0 };
                }
                proof {
                    lemma_modified_keys_never_join_a_burst(*key, ' ');
                }
                let unmodified = key.modifiers & !MOD_SHIFT == 0;
                let ch: Option<char> = match key.code {
                    KeyCode::Char(c) => if unmodified && !char_is_control(c) { Some(c) } else { None },
                    KeyCode::Enter => if unmodified { Some('\n') } else { None },
                    KeyCode::Tab => if unmodified { Some('\t') } else { None },
                    _ => None,
                };
                assert(ch == spec_burst_char(*event));
                if let Some(c) = ch {
                    self.buffer.push(c);
                    return PasteBurstOutcome { flush: Vec::new(), absorbed: true };
                }
            },
            _ => {},
        }
        PasteBurstOutcome { flush: self.finish(), absorbed: false }
    }

    /// Finishes the buffered run and returns the events to forward: one paste
    /// when the run is paste-shaped, otherwise its characters as key presses.
    pub fn finish(&mut self) -> (r: Vec<ClientInputEvent>)
        ensures
            events_view(r@) == spec_finish(old(self)@),
            final(self)@ == Seq::<char>::empty(),
    {
        if self.buffer.len() == 0 {
            let r: Vec<ClientInputEvent> = Vec::new();
            assert(events_view(r@) =~= spec_finish(old(self)@));
            return r;
        }
        let mut text: Vec<char> = Vec::new();
        std::mem::swap(&mut text, &mut self.buffer);
        let n = text.len();
        let mut has_newline = false;
        let mut i: usize = 0;
        while i < n
            invariant
                n == text@.len(),
                i <= n,
                has_newline <==> (exists|j: int| 0 <= j < i && #[trigger] text@[j] == '\n'),
            decreases n - i,
        {
            if text[i] == '\n' {
                has_newline = true;
            }
            i = i + 1;
        }
        assert(has_newline == text@.contains('\n'));
        let mut out: Vec<ClientInputEvent> = Vec::new();
        if n >= 2 && has_newline {
            let s = string_from_chars(&text);
            out.push(ClientInputEvent::Paste { text: s });
            assert(events_view(out@) =~= spec_finish(text@));
            return out;
        }
        let mut k: usize = 0;
        while k < n
            invariant
                n == text@.len(),
                k <= n,
                events_view(out@) == text@.subrange(0, k as int).map_values(|c: char| spec_client_key_for_char(c)),
            decreases n - k,
        {
            let e = client_key_for_char(text[k]);
            let ghost prev = out@;
            out.push(e);
            proof {
                assert(out@ == prev.push(e));
                assert(events_view(out@) =~= events_view(prev).push(e@));
                assert(text@.subrange(0, k as int + 1) =~= text@.subrange(0, k as int).push(text@[k as int]));
            }
            k = k + 1;
            assert(events_view(out@) =~= text@.subrange(0, k as int).map_values(
                |c: char| spec_client_key_for_char(c),
            ));
        }
        assert(events_view(out@) =~= spec_finish(text@));
        out
    }
}

/// Replaying a run loses no character: the text carried by the events a run
/// finishes into is the run itself.
/// A finished run becomes one paste exactly when it holds at least two
/// characters and a newline; otherwise each of its characters is replayed as
/// its own unmodified key press, in order, and nothing is pasted.
pub proof fn lemma_finish_pastes_only_multiline_runs(text: Seq<char>)
    ensures
        (spec_finish(text).len() == 1 && spec_finish(text)[0] is Paste) <==> (text.len() >= 2 && text.contains('\n')),
        !(text.len() >= 2 && text.contains('\n')) ==> {
            &&& spec_finish(text).len() == text.len()
            &&& forall|i: int| 0 <= i < text.len() ==> (#[trigger] spec_finish(text)[i] matches ClientInputEventView::Key {
                modifiers,
                kind,
                ..
            } && modifiers == 0 && kind == ClientKeyKind::Press && event_text(spec_finish(text)[i]) == seq![text[i]])
        },
{
    if !(text.len() >= 2 && text.contains('\n')) && text.len() > 0 {
        assert forall|i: int| 0 <= i < text.len() implies (#[trigger] spec_finish(text)[i] matches ClientInputEventView::Key {
            modifiers,
            kind,
            ..
        } && modifiers == 0 && kind == ClientKeyKind::Press && event_text(spec_finish(text)[i]) == seq![text[i]]) by {
            assert(spec_finish(text)[i] == spec_client_key_for_char(text[i]));
            assert(event_text(spec_client_key_for_char(text[i])) == seq![text[i]]);
        }
    }
}

/// A key held with any modifier but shift (alt, control, super, ...) never joins
/// a paste burst, so it is forwarded with its modifiers; an unmodified or
/// shifted press of a printable character joins as that character, and Enter
/// and Tab join as newline and tab.
pub proof fn lemma_modified_keys_never_join_a_burst(key: KeyEvent, c: char)
    ensures
        key.modifiers != 0 && key.modifiers != MOD_SHIFT ==> spec_burst_char(Event::Key(key)) is None,
        key.kind != KeyEventKind::Release && (key.modifiers == 0 || key.modifiers == MOD_SHIFT) ==> {
            &&& key.code == KeyCode::Char(c) && !is_control_char(c) ==> spec_burst_char(Event::Key(key))
                == Some(c)
            &&& key.code == KeyCode::Enter ==> spec_burst_char(Event::Key(key)) == Some('\n')
            &&& key.code == KeyCode::Tab ==> spec_burst_char(Event::Key(key)) == Some('\t')
        },
        key.kind == KeyEventKind::Release ==> spec_burst_char(Event::Key(key)) is None,
{
    let m = key.modifiers;
    assert(m & !1u8 == 0u8 <==> (m == 0u8 || m == 1u8)) by (bit_vector);
}

pub proof fn lemma_finish_preserves_text(text: Seq<char>)
    ensures
        events_text(spec_finish(text)) == text,
{
    if text.len() == 0 {
    } else if paste_shaped(text) {
        let es = seq![ClientInputEventView::Paste { text }];
        assert(events_text(Seq::<ClientInputEventView>::empty()) == Seq::<char>::empty());
        assert(es.drop_last() =~= Seq::<ClientInputEventView>::empty());
        assert(events_text(es) =~= text);
    } else {
        lemma_replayed_keys_text(text, text.len());
        assert(text.subrange(0, text.len() as int) =~= text);
        assert(text.map_values(|c: char| spec_client_key_for_char(c)) =~= text.subrange(0, text.len() as int).map_values(
            |c: char| spec_client_key_for_char(c),
        ));
    }
}

/// The first `n` replayed keys carry the first `n` characters.
proof fn lemma_replayed_keys_text(text: Seq<char>, n: nat)
    requires
        n <= text.len(),
    ensures
        events_text(text.subrange(0, n as int).map_values(|c: char| spec_client_key_for_char(c))) == text.subrange(0, n as int),
    decreases n,
{
    let es = text.subrange(0, n as int).map_values(|c: char| spec_client_key_for_char(c));
    if n > 0 {
        lemma_replayed_keys_text(text, (n - 1) as nat);
        assert(es.drop_last() =~= text.subrange(0, n - 1).map_values(|c: char| spec_client_key_for_char(c)));
        let c = text[n - 1];
        assert(es.last() == spec_client_key_for_char(c));
        assert(event_text(spec_client_key_for_char(c)) =~= seq![c]);
        assert(text.subrange(0, n as int) =~= text.subrange(0, n - 1).push(c));
    } else {
        assert(es =~= Seq::<ClientInputEventView>::empty());
    }
}

} // verus!
