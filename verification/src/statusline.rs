//! The bottom statusline: which pane it describes, what it shows for it, and
//! how an agent live status is laid out as colored segments. Drawing the
//! segments, and turning the fractional fields into text, happen outside.

use vstd::prelude::*;
use crate::geometry::Rect;
use crate::live_status::{LiveStatus, LiveStatusView};
use crate::state::{AppState, PaneTerminal, TerminalState};
use crate::text::{
    ascii_lowercase, contains_chars, contains_seq, decimal, push_decimal, push_signed_decimal,
    signed_decimal, str_equals, string_from_chars, string_push, to_ascii_lowercase, chars_of,
};

verus! {

/// How many cells the context gauge has.
pub const CONTEXT_BAR_WIDTH: usize = 10;

/// A color of the palette.
#[derive(Debug, Clone, Copy, PartialEq, Eq, Structural)]
pub enum StatusColor {
    Text,
    Peach,
    Teal,
    Yellow,
    Red,
    Green,
    Mauve,
    Overlay0,
    Subtext0,
}

/// A piece of statusline text and its color.
#[derive(Debug, Clone, PartialEq, Eq)]
pub struct StatusSpan {
    pub text: String,
    pub color: StatusColor,
}

/// The context-window gauge: how many of its cells are filled and the rounded
/// percentage shown beside it.
#[derive(Debug, Clone, Copy, PartialEq, Eq, Structural)]
pub struct ContextGauge {
    pub filled: usize,
    pub percent: i64,
}

/// The terminal attached to pane `pane` among `panes`: the first entry for it.
pub open spec fn pane_terminal(panes: Seq<PaneTerminal>, pane: u64) -> Option<u64>
    decreases panes.len(),
{
    if panes.len() == 0 {
        None
    } else if panes[0].pane_id == pane {
        Some(panes[0].terminal_id)
    } else {
        pane_terminal(panes.drop_first(), pane)
    }
}

/// The index of the first terminal with id `id`.
pub open spec fn terminal_index(terminals: Seq<TerminalState>, id: u64) -> Option<int>
    decreases terminals.len(),
{
    if terminals.len() == 0 {
        None
    } else if terminals[0].id == id {
        Some(0)
    } else {
        match terminal_index(terminals.drop_first(), id) {
            Some(i) => Some(i + 1),
            None => None,
        }
    }
}

/// The index of the focused terminal: the one attached to the focused pane of
/// the active tab of the active workspace.
pub open spec fn focused_terminal_index(app: AppState) -> Option<int> {
    match app.active {
        None => None,
        Some(w) => if w >= app.workspaces.len() {
            None
        } else {
            let ws = app.workspaces[w as int];
            if ws.active_tab >= ws.tabs.len() {
                None
            } else {
                let tab = ws.tabs[ws.active_tab as int];
                match pane_terminal(tab.panes@, tab.focused_pane) {
                    None => None,
                    Some(id) => terminal_index(app.terminals@, id),
                }
            }
        },
    }
}

/// The terminal attached to a pane is that of the first entry for the pane;
/// there is one exactly when some entry is for the pane.
proof fn lemma_pane_terminal_entry(panes: Seq<PaneTerminal>, pane: u64)
    ensures
        pane_terminal(panes, pane) is Some <==> exists|k: int| 0 <= k < panes.len() && #[trigger] panes[k].pane_id == pane,
        pane_terminal(panes, pane) matches Some(t) ==> exists|k: int|
            0 <= k < panes.len() && #[trigger] panes[k].pane_id == pane && panes[k].terminal_id == t
            && forall|j: int| 0 <= j < k ==> panes[j].pane_id != pane,
    decreases panes.len(),
{
    if panes.len() > 0 {
        let rest = panes.drop_first();
        lemma_pane_terminal_entry(rest, pane);
        if panes[0].pane_id != pane {
            if exists|k: int| 0 <= k < panes.len() && #[trigger] panes[k].pane_id == pane {
                let k = choose|k: int| 0 <= k < panes.len() && #[trigger] panes[k].pane_id == pane;
                assert(rest[k - 1].pane_id == pane);
            }
            match pane_terminal(rest, pane) {
                Some(t) => {
                    let k = choose|k: int|
                        0 <= k < rest.len() && #[trigger] rest[k].pane_id == pane && rest[k].terminal_id == t
                        && forall|j: int| 0 <= j < k ==> rest[j].pane_id != pane;
                    assert(panes[k + 1].pane_id == pane);
                    assert forall|j: int| 0 <= j < k + 1 implies panes[j].pane_id != pane by {
                        if j > 0 {
                            assert(panes[j] == rest[j - 1]);
                        }
                    }
                },
                None => {},
            }
        } else {
            assert(panes[0].pane_id == pane);
        }
    }
}

/// The index of the first terminal with an id; there is one exactly when some
/// terminal has that id.
proof fn lemma_terminal_index_entry(terminals: Seq<TerminalState>, id: u64)
    ensures
        terminal_index(terminals, id) is Some <==> exists|k: int| 0 <= k < terminals.len() && #[trigger] terminals[k].id == id,
        terminal_index(terminals, id) matches Some(i) ==> 0 <= i < terminals.len() && terminals[i].id == id
            && forall|j: int| 0 <= j < i ==> terminals[j].id != id,
    decreases terminals.len(),
{
    if terminals.len() > 0 {
        let rest = terminals.drop_first();
        lemma_terminal_index_entry(rest, id);
        if terminals[0].id != id {
            if exists|k: int| 0 <= k < terminals.len() && #[trigger] terminals[k].id == id {
                let k = choose|k: int| 0 <= k < terminals.len() && #[trigger] terminals[k].id == id;
                assert(rest[k - 1].id == id);
            }
            match terminal_index(rest, id) {
                Some(i) => {
                    assert(terminals[i + 1] == rest[i]);
                    assert forall|j: int| 0 <= j < i + 1 implies terminals[j].id != id by {
                        if j > 0 {
                            assert(terminals[j] == rest[j - 1]);
                        }
                    }
                },
                None => {},
            }
        } else {
            assert(terminals[0].id == id);
        }
    }
}

/// The focused terminal belongs to the focused pane of the active tab of the
/// active workspace: when there is one, it is the first terminal whose id the
/// active tab's first entry for its focused pane names; and there is one
/// whenever the active tab has an entry for its focused pane whose terminal
/// exists. Other tabs play no part.
pub proof fn lemma_focused_terminal_is_active_tabs_pane(app: AppState)
    ensures
        focused_terminal_index(app) matches Some(i) ==> {
            &&& app.active is Some
            &&& app.active.unwrap() < app.workspaces.len()
            &&& app.workspaces[app.active.unwrap() as int].active_tab < app.workspaces[app.active.unwrap() as int].tabs.len()
            &&& 0 <= i < app.terminals@.len()
            &&& ({
                let ws = app.workspaces[app.active.unwrap() as int];
                let tab = ws.tabs[ws.active_tab as int];
                exists|k: int| 0 <= k < tab.panes@.len() && #[trigger] tab.panes@[k].pane_id == tab.focused_pane
                    && tab.panes@[k].terminal_id == app.terminals@[i].id
                    && forall|j: int| 0 <= j < k ==> tab.panes@[j].pane_id != tab.focused_pane
            })
            &&& forall|j: int| 0 <= j < i ==> app.terminals@[j].id != app.terminals@[i].id
        },
        app.active is Some && app.active.unwrap() < app.workspaces.len()
            && app.workspaces[app.active.unwrap() as int].active_tab < app.workspaces[app.active.unwrap() as int].tabs.len()
            ==> ({
                let ws = app.workspaces[app.active.unwrap() as int];
                let tab = ws.tabs[ws.active_tab as int];
                forall|k: int| 0 <= k < tab.panes@.len() && #[trigger] tab.panes@[k].pane_id == tab.focused_pane
                    && (forall|j: int| 0 <= j < k ==> tab.panes@[j].pane_id != tab.focused_pane)
                    ==> (exists|t: int| 0 <= t < app.terminals@.len() && #[trigger] app.terminals@[t].id == tab.panes@[k].terminal_id)
                    ==> focused_terminal_index(app) is Some
            }),
{
    match app.active {
        None => {},
        Some(w) => {
            if w < app.workspaces.len() {
                let ws = app.workspaces[w as int];
                if ws.active_tab < ws.tabs.len() {
                    let tab = ws.tabs[ws.active_tab as int];
                    lemma_pane_terminal_entry(tab.panes@, tab.focused_pane);
                    match pane_terminal(tab.panes@, tab.focused_pane) {
                        Some(id) => {
                            lemma_terminal_index_entry(app.terminals@, id);
                            let k0 = choose|k: int|
                                0 <= k < tab.panes@.len() && #[trigger] tab.panes@[k].pane_id == tab.focused_pane
                                && tab.panes@[k].terminal_id == id
                                && forall|j: int| 0 <= j < k ==> tab.panes@[j].pane_id != tab.focused_pane;
                            assert forall|k: int| 0 <= k < tab.panes@.len() && #[trigger] tab.panes@[k].pane_id == tab.focused_pane
                                && (forall|j: int| 0 <= j < k ==> tab.panes@[j].pane_id != tab.focused_pane)
                                implies k == k0 by {
                                if k < k0 {
                                    assert(tab.panes@[k].pane_id != tab.focused_pane);
                                } else if k > k0 {
                                    assert(tab.panes@[k0].pane_id != tab.focused_pane);
                                }
                            }
                        },
                        None => {},
                    }
                }
            }
        },
    }
}

/// Looks up the terminal attached to a pane.
fn find_pane_terminal(panes: &Vec<PaneTerminal>, pane: u64) -> (r: Option<u64>)
    ensures
        r == pane_terminal(panes@, pane),
{
    let mut i: usize = 0;
    assert(panes@.subrange(0, panes@.len() as int) =~= panes@);
    while i < panes.len()
        invariant
            i <= panes@.len(),
            pane_terminal(panes@, pane) == pane_terminal(panes@.subrange(i as int, panes@.len() as int), pane),
        decreases panes@.len() - i,
    {
        let ghost rest = panes@.subrange(i as int, panes@.len() as int);
        assert(rest.drop_first() =~= panes@.subrange(i + 1, panes@.len() as int));
        if panes[i].pane_id == pane {
            return Some(panes[i].terminal_id);
        }
        i = i + 1;
    }
    None
}

/// Looks up a terminal by id.
fn find_terminal(terminals: &Vec<TerminalState>, id: u64) -> (r: Option<usize>)
    ensures
        match r {
            Some(i) => terminal_index(terminals@, id) == Some(i as int),
            None => terminal_index(terminals@, id) is None,
        },
        r matches Some(i) ==> i < terminals@.len(),
{
    let mut i: usize = 0;
    assert(terminals@.subrange(0, terminals@.len() as int) =~= terminals@);
    while i < terminals.len()
        invariant
            i <= terminals@.len(),
            terminal_index(terminals@, id) == match terminal_index(
                terminals@.subrange(i as int, terminals@.len() as int),
                id,
            ) {
                Some(j) => Some(j + i),
                None => None,
            },
        decreases terminals@.len() - i,
    {
        let ghost rest = terminals@.subrange(i as int, terminals@.len() as int);
        assert(rest.drop_first() =~= terminals@.subrange(i + 1, terminals@.len() as int));
        if terminals[i].id == id {
            return Some(i);
        }
        i = i + 1;
    }
    None
}

impl AppState {
    /// The focused pane's terminal, if any.
    pub fn focused_terminal(&self) -> (r: Option<&TerminalState>)
        ensures
            match focused_terminal_index(*self) {
                Some(i) => r == Some(&self.terminals@[i]),
                None => r is None,
            },
    {
        let ws_idx = match self.active {
            Some(w) => w,
            None => return None,
        };
        if ws_idx >= self.workspaces.len() {
            return None;
        }
        let ws = &self.workspaces[ws_idx];
        if ws.active_tab >= ws.tabs.len() {
            return None;
        }
        let tab = &ws.tabs[ws.active_tab];
        let terminal_id = match find_pane_terminal(&tab.panes, tab.focused_pane) {
            Some(t) => t,
            None => return None,
        };
        match find_terminal(&self.terminals, terminal_id) {
            Some(i) => Some(&self.terminals[i]),
            None => None,
        }
    }
}

/// The color of a model name by its family: opus, sonnet, haiku and fable
/// (in that order of precedence, case-insensitively), or plain text.
pub open spec fn spec_model_color(model: Seq<char>) -> StatusColor {
    let m = ascii_lowercase(model);
    if contains_seq(m, "opus"@) {
        StatusColor::Peach
    } else if contains_seq(m, "sonnet"@) {
        StatusColor::Teal
    } else if contains_seq(m, "haiku"@) {
        StatusColor::Yellow
    } else if contains_seq(m, "fable"@) {
        StatusColor::Red
    } else {
        StatusColor::Text
    }
}

/// The color for a model name.
pub fn model_color(model: &str) -> (c: StatusColor)
    ensures
        c == spec_model_color(model@),
{
    let m = to_ascii_lowercase(model);
    if contains_chars(&m, &chars_of("opus")) {
        StatusColor::Peach
    } else if contains_chars(&m, &chars_of("sonnet")) {
        StatusColor::Teal
    } else if contains_chars(&m, &chars_of("haiku")) {
        StatusColor::Yellow
    } else if contains_chars(&m, &chars_of("fable")) {
        StatusColor::Red
    } else {
        StatusColor::Text
    }
}

/// The color of an effort level.
pub open spec fn spec_effort_color(effort: Seq<char>) -> StatusColor {
    if effort == "low"@ {
        StatusColor::Teal
    } else if effort == "medium"@ {
        StatusColor::Green
    } else if effort == "high"@ {
        StatusColor::Yellow
    } else if effort == "xhigh"@ {
        StatusColor::Red
    } else {
        StatusColor::Text
    }
}

/// The color for an effort level.
pub fn effort_color(effort: &str) -> (c: StatusColor)
    ensures
        c == spec_effort_color(effort@),
{
    if str_equals(effort, "low") {
        StatusColor::Teal
    } else if str_equals(effort, "medium") {
        StatusColor::Green
    } else if str_equals(effort, "high") {
        StatusColor::Yellow
    } else if str_equals(effort, "xhigh") {
        StatusColor::Red
    } else {
        StatusColor::Text
    }
}

/// The text and color of each span.
pub open spec fn spans_view(spans: Seq<StatusSpan>) -> Seq<(Seq<char>, StatusColor)> {
    spans.map_values(|s: StatusSpan| (s.text@, s.color))
}

/// `n` copies of `c`.
pub open spec fn repeat_char(c: char, n: nat) -> Seq<char> {
    Seq::new(n, |i: int| c)
}

/// The gauge bar and the percentage text: filled cells then empty ones, or an
/// empty bar and "--%" when the context use is unknown.
pub open spec fn gauge_texts(gauge: Option<ContextGauge>) -> (Seq<char>, Seq<char>) {
    match gauge {
        Some(g) => (
            repeat_char('\u{2588}', g.filled as nat) + repeat_char('\u{2591}', (CONTEXT_BAR_WIDTH - g.filled) as nat),
            signed_decimal(g.percent as int) + "%"@,
        ),
        None => (repeat_char('\u{2591}', CONTEXT_BAR_WIDTH as nat), "--%"@),
    }
}

/// The separator between statusline sections.
pub open spec fn separator() -> (Seq<char>, StatusColor) {
    (" | "@, StatusColor::Text)
}

/// The model and effort section.
pub open spec fn head_spans(s: LiveStatusView) -> Seq<(Seq<char>, StatusColor)> {
    seq![
        ("["@ + s.model + "]"@, spec_model_color(s.model)),
        (" at "@, StatusColor::Text),
        (s.effort, spec_effort_color(s.effort)),
        (" effort"@, StatusColor::Text),
    ]
}

/// The fast-mode and thinking marks.
pub open spec fn mark_spans(s: LiveStatusView) -> Seq<(Seq<char>, StatusColor)> {
    (if s.fast_mode { seq![(" \u{26A1}"@, StatusColor::Text)] } else { Seq::empty() }) + (if s.thinking {
        seq![(" \u{1F9E0}"@, StatusColor::Text)]
    } else {
        Seq::empty()
    })
}

/// The context section: the gauge and the token counts.
pub open spec fn context_spans(s: LiveStatusView, gauge: Option<ContextGauge>) -> Seq<(Seq<char>, StatusColor)> {
    seq![
        separator(),
        ("["@ + gauge_texts(gauge).0 + "] "@ + gauge_texts(gauge).1, StatusColor::Mauve),
        (" \u{2192}"@ + decimal(s.input_tokens as nat) + " \u{2190}"@ + decimal(s.output_tokens as nat), StatusColor::Text),
    ]
}

/// The cost and changed-lines sections.
pub open spec fn cost_spans(s: LiveStatusView, cost_text: Seq<char>) -> Seq<(Seq<char>, StatusColor)> {
    seq![
        separator(),
        ("\u{1F4B0} $"@ + cost_text, StatusColor::Text),
        separator(),
        ("\u{2191}"@ + decimal(s.lines_added as nat), StatusColor::Green),
        (" \u{2193}"@ + decimal(s.lines_removed as nat), StatusColor::Red),
    ]
}

/// The working-directory section.
pub open spec fn dir_spans(s: LiveStatusView) -> Seq<(Seq<char>, StatusColor)> {
    seq![separator(), ("\u{1F4C1} "@ + s.current_dir, StatusColor::Text)] + if s.added_dirs > 0 {
        seq![(" +"@ + decimal(s.added_dirs as nat), StatusColor::Text)]
    } else {
        Seq::empty()
    }
}

/// The 200K alarm and session id sections.
pub open spec fn tail_spans(s: LiveStatusView) -> Seq<(Seq<char>, StatusColor)> {
    (if s.exceeds_200k {
        seq![separator(), ("\u{23F0} 200K \u{23F0}"@, StatusColor::Red)]
    } else {
        Seq::empty()
    }) + match s.session_id {
        Some(id) => seq![separator(), (id, StatusColor::Text)],
        None => Seq::empty(),
    }
}

/// The statusline for a live status: `[model] at <effort> effort`, the fast
/// and thinking marks, the context gauge with token counts, the cost (its
/// two-decimal text is `cost_text`), the added and removed lines, the working
/// directory with the count of added directories, the 200K alarm, and the
/// session id, each section after a separator.
pub open spec fn spec_live_status_spans(s: LiveStatusView, gauge: Option<ContextGauge>, cost_text: Seq<char>) -> Seq<(Seq<char>, StatusColor)> {
    head_spans(s) + mark_spans(s) + context_spans(s, gauge) + cost_spans(s, cost_text) + dir_spans(s) + tail_spans(s)
}

/// The shape of the statusline: fourteen spans, plus one per fast or thinking
/// mark, one for added directories, two for the 200K alarm and two for a
/// session id; the gauge span is mauve, the added lines green, the removed
/// lines and the alarm red; with a session id the last span is that id; and
/// the session name never shows.
pub proof fn lemma_live_status_spans_shape(s: LiveStatusView, gauge: Option<ContextGauge>, cost_text: Seq<char>)
    ensures
        ({
            let spans = spec_live_status_spans(s, gauge, cost_text);
            let marks: int = (if s.fast_mode { 1int } else { 0int }) + (if s.thinking { 1int } else { 0int });
            &&& spans.len() == 14 + marks + (if s.added_dirs > 0 { 1int } else { 0int }) + (if s.exceeds_200k {
                2int
            } else {
                0int
            }) + (if s.session_id is Some { 2int } else { 0int })
            &&& spans[0].1 == spec_model_color(s.model)
            &&& spans[2].1 == spec_effort_color(s.effort)
            &&& spans[5 + marks].1 == StatusColor::Mauve
            &&& spans[10 + marks].1 == StatusColor::Green
            &&& spans[11 + marks].1 == StatusColor::Red
            &&& s.exceeds_200k ==> spans[15 + marks + (if s.added_dirs > 0 { 1int } else { 0int })]
                == ("\u{23F0} 200K \u{23F0}"@, StatusColor::Red)
            &&& s.session_id matches Some(id) ==> spans.last() == (id, StatusColor::Text)
        }),
        forall|name: Option<Seq<char>>|
            spec_live_status_spans(LiveStatusView { session_name: name, ..s }, gauge, cost_text)
                == spec_live_status_spans(s, gauge, cost_text),
{
    let marks: int = (if s.fast_mode { 1int } else { 0int }) + (if s.thinking { 1int } else { 0int });
    let dirs: int = if s.added_dirs > 0 { 1int } else { 0int };
    let p1 = head_spans(s) + mark_spans(s);
    let p2 = p1 + context_spans(s, gauge);
    let p3 = p2 + cost_spans(s, cost_text);
    let p4 = p3 + dir_spans(s);
    let alarm: Seq<(Seq<char>, StatusColor)> = if s.exceeds_200k {
        seq![separator(), ("\u{23F0} 200K \u{23F0}"@, StatusColor::Red)]
    } else {
        Seq::empty()
    };
    let id_part: Seq<(Seq<char>, StatusColor)> = match s.session_id {
        Some(id) => seq![separator(), (id, StatusColor::Text)],
        None => Seq::empty(),
    };
    assert(tail_spans(s) == alarm + id_part);
    let spans = spec_live_status_spans(s, gauge, cost_text);
    assert(spans == p4 + tail_spans(s));
    assert(mark_spans(s).len() == marks);
    assert(dir_spans(s).len() == 2 + dirs);
    assert(p1.len() == 4 + marks);
    assert(p2.len() == 7 + marks);
    assert(p3.len() == 12 + marks);
    assert(p4.len() == 14 + marks + dirs);
    assert(spans[0] == head_spans(s)[0]);
    assert(spans[2] == head_spans(s)[2]);
    assert(spans[5 + marks] == p2[5 + marks]);
    assert(p2[5 + marks] == context_spans(s, gauge)[1]);
    assert(spans[10 + marks] == p3[10 + marks]);
    assert(p3[10 + marks] == cost_spans(s, cost_text)[3]);
    assert(spans[11 + marks] == p3[11 + marks]);
    assert(p3[11 + marks] == cost_spans(s, cost_text)[4]);
    if s.exceeds_200k {
        assert(spans[15 + marks + dirs] == tail_spans(s)[1]);
        assert(tail_spans(s)[1] == alarm[1]);
    }
    if s.session_id is Some {
        assert(spans.last() == tail_spans(s).last());
        assert(tail_spans(s).last() == id_part.last());
    }
    assert forall|name: Option<Seq<char>>|
        spec_live_status_spans(LiveStatusView { session_name: name, ..s }, gauge, cost_text)
            == spec_live_status_spans(s, gauge, cost_text) by {
        let s2 = LiveStatusView { session_name: name, ..s };
        assert(head_spans(s2) == head_spans(s));
        assert(mark_spans(s2) == mark_spans(s));
        assert(context_spans(s2, gauge) == context_spans(s, gauge));
        assert(cost_spans(s2, cost_text) == cost_spans(s, cost_text));
        assert(dir_spans(s2) == dir_spans(s));
        assert(tail_spans(s2) == tail_spans(s));
    }
}

/// The gauge bar is always ten cells: the filled ones first, then the empty
/// ones.
pub proof fn lemma_gauge_bar_cells(gauge: Option<ContextGauge>)
    requires
        gauge matches Some(g) ==> g.filled <= CONTEXT_BAR_WIDTH,
    ensures
        gauge_texts(gauge).0.len() == CONTEXT_BAR_WIDTH,
        forall|i: int|
            0 <= i < CONTEXT_BAR_WIDTH ==> #[trigger] gauge_texts(gauge).0[i] == (match gauge {
                Some(g) => if i < g.filled { '\u{2588}' } else { '\u{2591}' },
                None => '\u{2591}',
            }),
{
}

/// Appends a span.
fn push_span(spans: &mut Vec<StatusSpan>, text: String, color: StatusColor)
    ensures
        spans_view(final(spans)@) == spans_view(old(spans)@).push((text@, color)),
{
    let ghost t = text@;
    spans.push(StatusSpan { text, color });
    assert(spans_view(spans@) =~= spans_view(old(spans)@).push((t, color)));
}

/// A string of `n` copies of `c`.
fn repeat_string(out: &mut String, c: char, n: usize)
    ensures
        final(out)@ == old(out)@ + repeat_char(c, n as nat),
{
    let mut i: usize = 0;
    while i < n
        invariant
            i <= n,
            out@ == old(out)@ + repeat_char(c, i as nat),
        decreases n - i,
    {
        string_push(out, c);
        i = i + 1;
        assert(out@ =~= old(out)@ + repeat_char(c, i as nat));
    }
}

/// A string with the characters of `a` then those of `b`.
fn concat2(a: &str, b: &str) -> (r: String)
    ensures
        r@ == a@ + b@,
{
    let mut s = String::from_str(a);
    s.append(b);
    s
}

/// A string with the characters of `a`, `n` in decimal, then `b`.
fn with_decimal(a: &str, n: u64) -> (r: String)
    ensures
        r@ == a@ + decimal(n as nat),
{
    let mut s = String::from_str(a);
    push_decimal(&mut s, n);
    s
}

fn push_head(spans: &mut Vec<StatusSpan>, s: &LiveStatus)
    ensures
        spans_view(final(spans)@) == spans_view(old(spans)@) + head_spans(s@),
{
    let mut model = String::from_str("[");
    model.append(s.model.as_str());
    model.append("]");
    push_span(spans, model, model_color(s.model.as_str()));
    push_span(spans, String::from_str(" at "), StatusColor::Text);
    push_span(spans, s.effort.clone(), effort_color(s.effort.as_str()));
    push_span(spans, String::from_str(" effort"), StatusColor::Text);
    assert(spans_view(spans@) =~= spans_view(old(spans)@) + head_spans(s@));
}

fn push_marks(spans: &mut Vec<StatusSpan>, s: &LiveStatus)
    ensures
        spans_view(final(spans)@) == spans_view(old(spans)@) + mark_spans(s@),
{
    if s.fast_mode {
        push_span(spans, String::from_str(" \u{26A1}"), StatusColor::Text);
    }
    if s.thinking {
        push_span(spans, String::from_str(" \u{1F9E0}"), StatusColor::Text);
    }
    assert(spans_view(spans@) =~= spans_view(old(spans)@) + mark_spans(s@));
}

fn push_context(spans: &mut Vec<StatusSpan>, s: &LiveStatus, gauge: Option<ContextGauge>)
    requires
        gauge matches Some(g) ==> g.filled <= CONTEXT_BAR_WIDTH,
    ensures
        spans_view(final(spans)@) == spans_view(old(spans)@) + context_spans(s@, gauge),
{
    push_span(spans, String::from_str(" | "), StatusColor::Text);
    let mut gauge_text = String::from_str("[");
    match gauge {
        Some(g) => {
            repeat_string(&mut gauge_text, '\u{2588}', g.filled);
            repeat_string(&mut gauge_text, '\u{2591}', CONTEXT_BAR_WIDTH - g.filled);
            gauge_text.append("] ");
            push_signed_decimal(&mut gauge_text, g.percent);
            gauge_text.append("%");
        },
        None => {
            repeat_string(&mut gauge_text, '\u{2591}', CONTEXT_BAR_WIDTH);
            gauge_text.append("] ");
            gauge_text.append("--%");
        },
    }
    assert(gauge_text@ =~= "["@ + gauge_texts(gauge).0 + "] "@ + gauge_texts(gauge).1);
    push_span(spans, gauge_text, StatusColor::Mauve);
    let mut tokens = with_decimal(" \u{2192}", s.input_tokens);
    tokens.append(" \u{2190}");
    push_decimal(&mut tokens, s.output_tokens);
    push_span(spans, tokens, StatusColor::Text);
    assert(spans_view(spans@) =~= spans_view(old(spans)@) + context_spans(s@, gauge));
}

fn push_cost(spans: &mut Vec<StatusSpan>, s: &LiveStatus, cost_text: &str)
    ensures
        spans_view(final(spans)@) == spans_view(old(spans)@) + cost_spans(s@, cost_text@),
{
    push_span(spans, String::from_str(" | "), StatusColor::Text);
    push_span(spans, concat2("\u{1F4B0} $", cost_text), StatusColor::Text);
    push_span(spans, String::from_str(" | "), StatusColor::Text);
    push_span(spans, with_decimal("\u{2191}", s.lines_added), StatusColor::Green);
    push_span(spans, with_decimal(" \u{2193}", s.lines_removed), StatusColor::Red);
    assert(spans_view(spans@) =~= spans_view(old(spans)@) + cost_spans(s@, cost_text@));
}

fn push_dir(spans: &mut Vec<StatusSpan>, s: &LiveStatus)
    ensures
        spans_view(final(spans)@) == spans_view(old(spans)@) + dir_spans(s@),
{
    push_span(spans, String::from_str(" | "), StatusColor::Text);
    push_span(spans, concat2("\u{1F4C1} ", s.current_dir.as_str()), StatusColor::Text);
    if s.added_dirs > 0 {
        push_span(spans, with_decimal(" +", s.added_dirs as u64), StatusColor::Text);
    }
    assert(spans_view(spans@) =~= spans_view(old(spans)@) + dir_spans(s@));
}

fn push_tail(spans: &mut Vec<StatusSpan>, s: &LiveStatus)
    ensures
        spans_view(final(spans)@) == spans_view(old(spans)@) + tail_spans(s@),
{
    if s.exceeds_200k {
        push_span(spans, String::from_str(" | "), StatusColor::Text);
        push_span(spans, String::from_str("\u{23F0} 200K \u{23F0}"), StatusColor::Red);
    }
    match &s.session_id {
        Some(id) => {
            push_span(spans, String::from_str(" | "), StatusColor::Text);
            push_span(spans, id.clone(), StatusColor::Text);
        },
        None => {},
    }
    assert(spans_view(spans@) =~= spans_view(old(spans)@) + tail_spans(s@));
}

/// Builds the styled statusline spans of a live status. `gauge` is the context
/// gauge for the status's context use (none when unknown) and `cost_text` its
/// cost with two decimals.
pub fn live_status_spans(s: &LiveStatus, gauge: Option<ContextGauge>, cost_text: &str) -> (spans: Vec<StatusSpan>)
    requires
        gauge is Some <==> s.context_pct_bits is Some,
        gauge matches Some(g) ==> g.filled <= CONTEXT_BAR_WIDTH,
    ensures
        spans_view(spans@) == spec_live_status_spans(s@, gauge, cost_text@),
{
    let mut spans: Vec<StatusSpan> = Vec::new();
    assert(spans_view(spans@) =~= Seq::<(Seq<char>, StatusColor)>::empty());
    push_head(&mut spans, s);
    assert(spans_view(spans@) =~= head_spans(s@));
    push_marks(&mut spans, s);
    push_context(&mut spans, s, gauge);
    push_cost(&mut spans, s, cost_text);
    push_dir(&mut spans, s);
    push_tail(&mut spans, s);
    spans
}

/// The characters after the last `/` of `p` (all of `p` when it has none).
pub open spec fn after_last_slash(p: Seq<char>) -> Seq<char>
    decreases p.len(),
{
    if p.len() == 0 {
        p
    } else if p.last() == '/' {
        Seq::empty()
    } else {
        after_last_slash(p.drop_last()).push(p.last())
    }
}

/// A path whose syntax Unix and Windows read alike: `/`-separated parts, no
/// backslash, no colon (so no drive or prefix), and no leading `//`.
pub open spec fn plain_slash_path(p: Seq<char>) -> bool {
    &&& !p.contains('\\')
    &&& !p.contains(':')
    &&& !(p.len() >= 2 && p[0] == '/' && p[1] == '/')
}

/// Whether the last part of `p` is a lone `.` (a "current directory" part).
pub open spec fn ends_with_dot_part(p: Seq<char>) -> bool {
    &&& p.len() > 0
    &&& p.last() == '.'
    &&& (p.len() == 1 || p[p.len() - 2] == '/')
}

/// `p` without its trailing separators and trailing `.` parts.
pub open spec fn strip_trailing(p: Seq<char>) -> Seq<char>
    decreases p.len(),
{
    if p.len() > 0 && (p.last() == '/' || ends_with_dot_part(p)) {
        strip_trailing(p.drop_last())
    } else {
        p
    }
}

/// The file name of a `/`-separated path: with trailing separators and `.`
/// parts removed, the last remaining part; none when that part is empty (the
/// path is a root or is empty) or is `..`.
pub open spec fn slash_file_name(p: Seq<char>) -> Option<Seq<char>> {
    let n = after_last_slash(strip_trailing(p));
    if n.len() > 0 && n != seq!['.', '.'] {
        Some(n)
    } else {
        None
    }
}

/// The last component of a path, if it has one.
///
/// Trusted: calls `std::path::Path::file_name`. The contract states that a
/// name, when there is one, is a non-empty run of the path's characters, and
/// that on a plain slash path (no backslash, no colon, no leading `//`) the
/// result is `slash_file_name` of the path. On paths with backslashes, drive
/// or UNC prefixes, whose reading differs between Unix and Windows, which run
/// is returned is left unsaid.
#[verifier::external_body]
fn path_file_name(path: &str) -> (r: Option<String>)
    ensures
        r matches Some(n) ==> n@.len() > 0 && contains_seq(path@, n@),
        r matches Some(x) ==> (plain_slash_path(path@) ==> slash_file_name(path@) == Some(x@)),
        r is None ==> (plain_slash_path(path@) ==> slash_file_name(path@) is None),
{
    match std::path::Path::new(path).file_name() {
        Some(n) => Some(n.to_string_lossy().into_owned()),
        None => None,
    }
}

/// The label of a plain slash path: its file name, or the whole path when it
/// has none.
pub open spec fn cwd_label_of(p: Seq<char>) -> Seq<char> {
    match slash_file_name(p) {
        Some(n) => n,
        None => p,
    }
}

/// The label for a working directory: its last component when it has one,
/// otherwise the whole path.
pub fn cwd_label(cwd: &String, file_name: Option<String>) -> (r: String)
    ensures
        r@ == match file_name {
            Some(n) => n@,
            None => cwd@,
        },
{
    match file_name {
        Some(n) => n,
        None => cwd.clone(),
    }
}

impl AppState {
    /// The folder name of the focused pane's working directory, for the
    /// fallback display: none without a focused terminal; otherwise the last
    /// component of the directory, or the whole directory when it has none.
    pub fn focused_cwd_label(&self) -> (r: Option<String>)
        ensures
            match focused_terminal_index(*self) {
                None => r is None,
                Some(i) => r matches Some(l) && (l@ == self.terminals@[i].cwd@ || (l@.len() > 0
                    && contains_seq(self.terminals@[i].cwd@, l@))) && (plain_slash_path(
                    self.terminals@[i].cwd@,
                ) ==> l@ == cwd_label_of(self.terminals@[i].cwd@)),
            },
    {
        let terminal = match self.focused_terminal() {
            Some(t) => t,
            None => return None,
        };
        let name = path_file_name(terminal.cwd.as_str());
        Some(cwd_label(&terminal.cwd, name))
    }
}

/// What the statusline shows.
#[derive(Debug)]
pub enum StatuslineContent<'a> {
    /// The focused pane's agent live status.
    Live(&'a LiveStatus),
    /// The focused pane's custom status text.
    Custom(&'a String),
    /// The focused pane's working-directory label.
    Cwd(String),
    /// There is no focused pane.
    NoSession,
}

impl AppState {
    /// Chooses what the statusline shows: the focused pane's live status if it
    /// has one, else its custom status, else its working-directory label; with
    /// no focused pane, that there is no active session.
    pub fn statusline_content(&self) -> (c: StatuslineContent)
        ensures
            match focused_terminal_index(*self) {
                None => c is NoSession,
                Some(i) => {
                    let t = self.terminals@[i];
                    match (t.live_status, t.custom_status) {
                        (Some(ls), _) => c == StatuslineContent::Live(&ls),
                        (None, Some(cs)) => c == StatuslineContent::Custom(&cs),
                        (None, None) => c matches StatuslineContent::Cwd(l) && (l@ == t.cwd@
                            || (l@.len() > 0 && contains_seq(t.cwd@, l@))) && (plain_slash_path(t.cwd@) ==> l@ == cwd_label_of(t.cwd@)),
                    }
                },
            },
    {
        match self.focused_terminal() {
            None => StatuslineContent::NoSession,
            Some(t) => {
                match &t.live_status {
                    Some(ls) => StatuslineContent::Live(ls),
                    None => match &t.custom_status {
                        Some(cs) => StatuslineContent::Custom(cs),
                        None => match self.focused_cwd_label() {
                            Some(l) => StatuslineContent::Cwd(l),
                            None => StatuslineContent::NoSession,
                        },
                    },
                }
            },
        }
    }
}

/// Where the statusline text goes inside its area: one column in from each
/// side; none when the area or that inner strip is empty.
pub fn statusline_inner_rect(area: Rect) -> (r: Option<Rect>)
    requires
        area.wf(),
    ensures
        r == (if area.width == 0 || area.height == 0 || area.width <= 2 {
            None
        } else {
            Some(Rect::spec_new((area.x + 1) as u16, area.y, (area.width - 2) as u16, area.height))
        }),
{
    if area.width == 0 || area.height == 0 {
        return None;
    }
    let inner = Rect::new(area.x + 1, area.y, area.width.saturating_sub(2), area.height);
    if inner.width == 0 {
        return None;
    }
    Some(inner)
}

} // verus!
