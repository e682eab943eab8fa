//! Input events: the terminal events the client reads, the events the raw
//! input framer produces, and the events the client sends to the server.

use vstd::prelude::*;

verus! {

/// The shift modifier bit.
pub const MOD_SHIFT: u8 = 0b0000_0001;
/// The control modifier bit.
pub const MOD_CONTROL: u8 = 0b0000_0010;
/// The alt modifier bit.
pub const MOD_ALT: u8 = 0b0000_0100;
/// The super modifier bit.
pub const MOD_SUPER: u8 = 0b0000_1000;
/// The hyper modifier bit.
pub const MOD_HYPER: u8 = 0b0001_0000;
/// The meta modifier bit.
pub const MOD_META: u8 = 0b0010_0000;

/// A key on the keyboard. `Unsupported` stands for the keys the client does not
/// forward (lock keys, media keys, lone modifier keys and the like).
#[derive(Debug, Clone, Copy, PartialEq, Eq, Structural)]
pub enum KeyCode {
    Backspace,
    Enter,
    Left,
    Right,
    Up,
    Down,
    Home,
    End,
    PageUp,
    PageDown,
    Tab,
    BackTab,
    Delete,
    Insert,
    F(u8),
    Char(char),
    Null,
    Esc,
    Unsupported,
}

/// Whether a key went down, repeated, or came up.
#[derive(Debug, Clone, Copy, PartialEq, Eq, Structural)]
pub enum KeyEventKind {
    Press,
    Repeat,
    Release,
}

/// A key event: the key, the modifier bits held, and the kind of event.
#[derive(Debug, Clone, Copy, PartialEq, Eq, Structural)]
pub struct KeyEvent {
    pub code: KeyCode,
    pub modifiers: u8,
    pub kind: KeyEventKind,
}

impl KeyEvent {
    /// A key press with the given modifiers.
    pub fn new(code: KeyCode, modifiers: u8) -> (k: KeyEvent)
        ensures
            k == (KeyEvent { code, modifiers, kind: KeyEventKind::Press }),
    {
        KeyEvent { code, modifiers, kind: KeyEventKind::Press }
    }

    /// A key event of the given kind.
    pub fn new_with_kind(code: KeyCode, modifiers: u8, kind: KeyEventKind) -> (k: KeyEvent)
        ensures
            k == (KeyEvent { code, modifiers, kind }),
    {
        KeyEvent { code, modifiers, kind }
    }
}

/// A mouse button.
#[derive(Debug, Clone, Copy, PartialEq, Eq, Structural)]
pub enum MouseButton {
    Left,
    Right,
    Middle,
}

/// What the mouse did.
#[derive(Debug, Clone, Copy, PartialEq, Eq, Structural)]
pub enum MouseEventKind {
    Down(MouseButton),
    Up(MouseButton),
    Drag(MouseButton),
    Moved,
    ScrollDown,
    ScrollUp,
    ScrollLeft,
    ScrollRight,
}

/// A mouse event at a cell, with the modifier bits held.
#[derive(Debug, Clone, Copy, PartialEq, Eq, Structural)]
pub struct MouseEvent {
    pub kind: MouseEventKind,
    pub column: u16,
    pub row: u16,
    pub modifiers: u8,
}

/// A terminal event as the client reads it.
#[derive(Debug, Clone, PartialEq, Eq)]
pub enum Event {
    Key(KeyEvent),
    Mouse(MouseEvent),
    Paste(String),
    FocusGained,
    FocusLost,
    Resize(u16, u16),
}

/// An event recognized by the raw input framer in a byte stream.
#[derive(Debug, Clone, PartialEq, Eq)]
pub enum RawInputEvent {
    Key(KeyEvent),
    Mouse(MouseEvent),
    Paste(String),
    OuterFocusGained,
    OuterFocusLost,
    HostDefaultColor,
    HostColorSchemeChanged,
    Unsupported,
}

/// A key as the server protocol names it.
#[derive(Debug, Clone, Copy, PartialEq, Eq, Structural)]
pub enum ClientKeyCode {
    Backspace,
    Enter,
    Left,
    Right,
    Up,
    Down,
    Home,
    End,
    PageUp,
    PageDown,
    Tab,
    BackTab,
    Delete,
    Insert,
    F(u8),
    Char(char),
    Null,
    Esc,
}

/// The kind of a key event in the server protocol.
#[derive(Debug, Clone, Copy, PartialEq, Eq, Structural)]
pub enum ClientKeyKind {
    Press,
    Repeat,
    Release,
}

/// A mouse action in the server protocol.
#[derive(Debug, Clone, Copy, PartialEq, Eq, Structural)]
pub enum ClientMouseKind {
    Down(MouseButton),
    Up(MouseButton),
    Drag(MouseButton),
    Moved,
    ScrollDown,
    ScrollUp,
    ScrollLeft,
    ScrollRight,
}

/// An input event the client sends to the server.
#[derive(Debug, Clone, PartialEq, Eq)]
pub enum ClientInputEvent {
    Key { code: ClientKeyCode, modifiers: u8, kind: ClientKeyKind },
    Mouse { kind: ClientMouseKind, column: u16, row: u16, modifiers: u8 },
    Paste { text: String },
    FocusGained,
    FocusLost,
}

/// The mathematical value of a [`ClientInputEvent`]: pasted text as a sequence
/// of characters.
pub ghost enum ClientInputEventView {
    Key { code: ClientKeyCode, modifiers: u8, kind: ClientKeyKind },
    Mouse { kind: ClientMouseKind, column: u16, row: u16, modifiers: u8 },
    Paste { text: Seq<char> },
    FocusGained,
    FocusLost,
}

impl View for ClientInputEvent {
    type V = ClientInputEventView;

    open spec fn view(&self) -> ClientInputEventView {
        match self {
            ClientInputEvent::Key { code, modifiers, kind } => ClientInputEventView::Key {
                code: *code,
                modifiers: *modifiers,
                kind: *kind,
            },
            ClientInputEvent::Mouse { kind, column, row, modifiers } => ClientInputEventView::Mouse {
                kind: *kind,
                column: *column,
                row: *row,
                modifiers: *modifiers,
            },
            ClientInputEvent::Paste { text } => ClientInputEventView::Paste { text: text@ },
            ClientInputEvent::FocusGained => ClientInputEventView::FocusGained,
            ClientInputEvent::FocusLost => ClientInputEventView::FocusLost,
        }
    }
}

/// The values of a sequence of client events.
pub open spec fn events_view(events: Seq<ClientInputEvent>) -> Seq<ClientInputEventView> {
    events.map_values(|e: ClientInputEvent| e@)
}

/// An event of the client's main loop that comes from standard input.
#[derive(Debug, Clone, PartialEq, Eq)]
pub enum ClientLoopEvent {
    /// Raw bytes read from standard input, forwarded as they are.
    StdinInput(Vec<u8>),
    /// Semantic input events.
    StdinEvents(Vec<ClientInputEvent>),
}

/// The protocol name of a key, if the protocol has one.
pub open spec fn spec_client_key_code(code: KeyCode) -> Option<ClientKeyCode> {
    match code {
        KeyCode::Backspace => Some(ClientKeyCode::Backspace),
        KeyCode::Enter => Some(ClientKeyCode::Enter),
        KeyCode::Left => Some(ClientKeyCode::Left),
        KeyCode::Right => Some(ClientKeyCode::Right),
        KeyCode::Up => Some(ClientKeyCode::Up),
        KeyCode::Down => Some(ClientKeyCode::Down),
        KeyCode::Home => Some(ClientKeyCode::Home),
        KeyCode::End => Some(ClientKeyCode::End),
        KeyCode::PageUp => Some(ClientKeyCode::PageUp),
        KeyCode::PageDown => Some(ClientKeyCode::PageDown),
        KeyCode::Tab => Some(ClientKeyCode::Tab),
        KeyCode::BackTab => Some(ClientKeyCode::BackTab),
        KeyCode::Delete => Some(ClientKeyCode::Delete),
        KeyCode::Insert => Some(ClientKeyCode::Insert),
        KeyCode::F(n) => Some(ClientKeyCode::F(n)),
        KeyCode::Char(c) => Some(ClientKeyCode::Char(c)),
        KeyCode::Null => Some(ClientKeyCode::Null),
        KeyCode::Esc => Some(ClientKeyCode::Esc),
        KeyCode::Unsupported => None,
    }
}

impl ClientKeyCode {
    /// The protocol name of a key; none for the keys the protocol does not carry.
    pub fn from_key_code(code: KeyCode) -> (r: Option<ClientKeyCode>)
        ensures
            r == spec_client_key_code(code),
    {
        match code {
            KeyCode::Backspace => Some(ClientKeyCode::Backspace),
            KeyCode::Enter => Some(ClientKeyCode::Enter),
            KeyCode::Left => Some(ClientKeyCode::Left),
            KeyCode::Right => Some(ClientKeyCode::Right),
            KeyCode::Up => Some(ClientKeyCode::Up),
            KeyCode::Down => Some(ClientKeyCode::Down),
            KeyCode::Home => Some(ClientKeyCode::Home),
            KeyCode::End => Some(ClientKeyCode::End),
            KeyCode::PageUp => Some(ClientKeyCode::PageUp),
            KeyCode::PageDown => Some(ClientKeyCode::PageDown),
            KeyCode::Tab => Some(ClientKeyCode::Tab),
            KeyCode::BackTab => Some(ClientKeyCode::BackTab),
            KeyCode::Delete => Some(ClientKeyCode::Delete),
            KeyCode::Insert => Some(ClientKeyCode::Insert),
            KeyCode::F(n) => Some(ClientKeyCode::F(n)),
            KeyCode::Char(c) => Some(ClientKeyCode::Char(c)),
            KeyCode::Null => Some(ClientKeyCode::Null),
            KeyCode::Esc => Some(ClientKeyCode::Esc),
            KeyCode::Unsupported => None,
        }
    }
}

/// The protocol kind of a key event.
pub open spec fn spec_client_key_kind(kind: KeyEventKind) -> ClientKeyKind {
    match kind {
        KeyEventKind::Press => ClientKeyKind::Press,
        KeyEventKind::Repeat => ClientKeyKind::Repeat,
        KeyEventKind::Release => ClientKeyKind::Release,
    }
}

impl ClientKeyKind {
    /// The protocol kind of a key event.
    pub fn from_kind(kind: KeyEventKind) -> (r: ClientKeyKind)
        ensures
            r == spec_client_key_kind(kind),
    {
        match kind {
            KeyEventKind::Press => ClientKeyKind::Press,
            KeyEventKind::Repeat => ClientKeyKind::Repeat,
            KeyEventKind::Release => ClientKeyKind::Release,
        }
    }
}

/// The protocol name of a mouse action.
pub open spec fn spec_client_mouse_kind(kind: MouseEventKind) -> ClientMouseKind {
    match kind {
        MouseEventKind::Down(b) => ClientMouseKind::Down(b),
        MouseEventKind::Up(b) => ClientMouseKind::Up(b),
        MouseEventKind::Drag(b) => ClientMouseKind::Drag(b),
        MouseEventKind::Moved => ClientMouseKind::Moved,
        MouseEventKind::ScrollDown => ClientMouseKind::ScrollDown,
        MouseEventKind::ScrollUp => ClientMouseKind::ScrollUp,
        MouseEventKind::ScrollLeft => ClientMouseKind::ScrollLeft,
        MouseEventKind::ScrollRight => ClientMouseKind::ScrollRight,
    }
}

/// Every key the protocol carries is forwarded under its own name (a
/// character as the same character, a function key with the same number), no
/// two keys share a name, and only the unsupported keys are dropped; a key
/// event keeps its kind (press, repeat or release).
pub proof fn lemma_key_codes_keep_their_names(code: KeyCode, c: char, n: u8, kind: KeyEventKind)
    ensures
        (code == KeyCode::Char(c)) <==> (spec_client_key_code(code) == Some(ClientKeyCode::Char(c))),
        (code == KeyCode::F(n)) <==> (spec_client_key_code(code) == Some(ClientKeyCode::F(n))),
        (code == KeyCode::Enter) <==> (spec_client_key_code(code) == Some(ClientKeyCode::Enter)),
        (code == KeyCode::Tab) <==> (spec_client_key_code(code) == Some(ClientKeyCode::Tab)),
        (code == KeyCode::BackTab) <==> (spec_client_key_code(code) == Some(ClientKeyCode::BackTab)),
        (code == KeyCode::Backspace) <==> (spec_client_key_code(code) == Some(ClientKeyCode::Backspace)),
        (code == KeyCode::Delete) <==> (spec_client_key_code(code) == Some(ClientKeyCode::Delete)),
        (code == KeyCode::Insert) <==> (spec_client_key_code(code) == Some(ClientKeyCode::Insert)),
        (code == KeyCode::Esc) <==> (spec_client_key_code(code) == Some(ClientKeyCode::Esc)),
        (code == KeyCode::Null) <==> (spec_client_key_code(code) == Some(ClientKeyCode::Null)),
        (code == KeyCode::Left) <==> (spec_client_key_code(code) == Some(ClientKeyCode::Left)),
        (code == KeyCode::Right) <==> (spec_client_key_code(code) == Some(ClientKeyCode::Right)),
        (code == KeyCode::Up) <==> (spec_client_key_code(code) == Some(ClientKeyCode::Up)),
        (code == KeyCode::Down) <==> (spec_client_key_code(code) == Some(ClientKeyCode::Down)),
        (code == KeyCode::Home) <==> (spec_client_key_code(code) == Some(ClientKeyCode::Home)),
        (code == KeyCode::End) <==> (spec_client_key_code(code) == Some(ClientKeyCode::End)),
        (code == KeyCode::PageUp) <==> (spec_client_key_code(code) == Some(ClientKeyCode::PageUp)),
        (code == KeyCode::PageDown) <==> (spec_client_key_code(code) == Some(ClientKeyCode::PageDown)),
        (code == KeyCode::Unsupported) <==> (spec_client_key_code(code) is None),
        (kind == KeyEventKind::Press) <==> (spec_client_key_kind(kind) == ClientKeyKind::Press),
        (kind == KeyEventKind::Repeat) <==> (spec_client_key_kind(kind) == ClientKeyKind::Repeat),
        (kind == KeyEventKind::Release) <==> (spec_client_key_kind(kind) == ClientKeyKind::Release),
{
}

/// A forwarded key event keeps its modifier bits and its kind.
pub proof fn lemma_key_event_forwarded_with_modifiers(key: KeyEvent)
    ensures
        spec_client_event_from_event(Event::Key(key)) matches Some(e) ==> e matches ClientInputEventView::Key {
            modifiers,
            kind,
            ..
        } && modifiers == key.modifiers && kind == spec_client_key_kind(key.kind),
        key.code != KeyCode::Unsupported ==> spec_client_event_from_event(Event::Key(key)) is Some,
{
}

/// Every mouse action is forwarded under its own name: each scroll direction
/// as the same direction, motion as motion, and a press, release or drag as the
/// same action of the same button; no two actions share a protocol name.
pub proof fn lemma_mouse_kinds_keep_their_names(kind: MouseEventKind, button: MouseButton)
    ensures
        (kind == MouseEventKind::ScrollUp) <==> (spec_client_mouse_kind(kind) == ClientMouseKind::ScrollUp),
        (kind == MouseEventKind::ScrollDown) <==> (spec_client_mouse_kind(kind) == ClientMouseKind::ScrollDown),
        (kind == MouseEventKind::ScrollLeft) <==> (spec_client_mouse_kind(kind) == ClientMouseKind::ScrollLeft),
        (kind == MouseEventKind::ScrollRight) <==> (spec_client_mouse_kind(kind) == ClientMouseKind::ScrollRight),
        (kind == MouseEventKind::Moved) <==> (spec_client_mouse_kind(kind) == ClientMouseKind::Moved),
        (kind == MouseEventKind::Down(button)) <==> (spec_client_mouse_kind(kind) == ClientMouseKind::Down(button)),
        (kind == MouseEventKind::Up(button)) <==> (spec_client_mouse_kind(kind) == ClientMouseKind::Up(button)),
        (kind == MouseEventKind::Drag(button)) <==> (spec_client_mouse_kind(kind) == ClientMouseKind::Drag(button)),
{
}

/// A mouse event is forwarded at the same cell with the same modifiers, under
/// the protocol name of its action.
pub proof fn lemma_mouse_event_forwarded_in_place(m: MouseEvent)
    ensures
        spec_client_event_from_event(Event::Mouse(m)) == Some(ClientInputEventView::Mouse {
            kind: spec_client_mouse_kind(m.kind),
            column: m.column,
            row: m.row,
            modifiers: m.modifiers,
        }),
        m.kind == MouseEventKind::ScrollUp ==> spec_client_event_from_event(Event::Mouse(m)) matches Some(
            ClientInputEventView::Mouse { kind: ClientMouseKind::ScrollUp, .. },
        ),
        m.kind == MouseEventKind::ScrollDown ==> spec_client_event_from_event(Event::Mouse(m)) matches Some(
            ClientInputEventView::Mouse { kind: ClientMouseKind::ScrollDown, .. },
        ),
{
}

impl ClientMouseKind {
    /// The protocol name of a mouse action.
    pub fn from_kind(kind: MouseEventKind) -> (r: ClientMouseKind)
        ensures
            r == spec_client_mouse_kind(kind),
    {
        match kind {
            MouseEventKind::Down(b) => ClientMouseKind::Down(b),
            MouseEventKind::Up(b) => ClientMouseKind::Up(b),
            MouseEventKind::Drag(b) => ClientMouseKind::Drag(b),
            MouseEventKind::Moved => ClientMouseKind::Moved,
            MouseEventKind::ScrollDown => ClientMouseKind::ScrollDown,
            MouseEventKind::ScrollUp => ClientMouseKind::ScrollUp,
            MouseEventKind::ScrollLeft => ClientMouseKind::ScrollLeft,
            MouseEventKind::ScrollRight => ClientMouseKind::ScrollRight,
        }
    }
}

/// The protocol event a terminal event is forwarded as, if any: keys the
/// protocol names, mouse actions, pastes and focus changes; resizes are not
/// input.
pub open spec fn spec_client_event_from_event(event: Event) -> Option<ClientInputEventView> {
    match event {
        Event::Key(key) => match spec_client_key_code(key.code) {
            Some(code) => Some(ClientInputEventView::Key {
                code,
                modifiers: key.modifiers,
                kind: spec_client_key_kind(key.kind),
            }),
            None => None,
        },
        Event::Mouse(m) => Some(ClientInputEventView::Mouse {
            kind: spec_client_mouse_kind(m.kind),
            column: m.column,
            row: m.row,
            modifiers: m.modifiers,
        }),
        Event::Paste(text) => Some(ClientInputEventView::Paste { text: text@ }),
        Event::FocusGained => Some(ClientInputEventView::FocusGained),
        Event::FocusLost => Some(ClientInputEventView::FocusLost),
        Event::Resize(_, _) => None,
    }
}

impl ClientInputEvent {
    /// The protocol event a terminal event is forwarded as, if any.
    pub fn from_event(event: &Event) -> (r: Option<ClientInputEvent>)
        ensures
            match r {
                Some(e) => spec_client_event_from_event(*event) == Some(e@),
                None => spec_client_event_from_event(*event) is None,
            },
    {
        match event {
            Event::Key(key) => match ClientKeyCode::from_key_code(key.code) {
                Some(code) => Some(ClientInputEvent::Key {
                    code,
                    modifiers: key.modifiers,
                    kind: ClientKeyKind::from_kind(key.kind),
                }),
                None => None,
            },
            Event::Mouse(m) => Some(ClientInputEvent::Mouse {
                kind: ClientMouseKind::from_kind(m.kind),
                column: m.column,
                row: m.row,
                modifiers: m.modifiers,
            }),
            Event::Paste(text) => Some(ClientInputEvent::Paste { text: text.clone() }),
            Event::FocusGained => Some(ClientInputEvent::FocusGained),
            Event::FocusLost => Some(ClientInputEvent::FocusLost),
            Event::Resize(_, _) => None,
        }
    }
}

} // verus!
