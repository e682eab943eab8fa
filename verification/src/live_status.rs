//! Live statusline data for agent panes.
//!
//! The agent's `statusLine` command dumps its payload (JSON) to a file named
//! after the session id in the agent's projects directory on every render. The
//! client polls that file per pane, decodes the fields it uses into a
//! [`StatusPayload`], and turns that into a [`LiveStatus`] here.

use vstd::prelude::*;
use crate::state::{AppState, TerminalState};
use crate::json::{
    JsonValue, decode_json, json_array_len, json_as_bool, json_as_f64_bits, json_as_string, json_as_u64,
    deref_opt, json_get, json_value_of, spec_array_len, spec_as_bool, spec_as_f64_bits, spec_as_string, spec_as_u64,
    spec_get,
};
use crate::text::{trim, trimmed};

verus! {

/// Parsed statusLine payload for one pane. The two fractional fields are
/// carried as the bit patterns of their `f64` values (`f64::to_bits`).
#[derive(Debug, Clone, PartialEq)]
pub struct LiveStatus {
    /// The agent session name (set via `/rename`), if any.
    pub session_name: Option<String>,
    pub model: String,
    pub effort: String,
    pub fast_mode: bool,
    pub thinking: bool,
    pub context_pct_bits: Option<u64>,
    pub input_tokens: u64,
    pub output_tokens: u64,
    pub cost_bits: u64,
    pub lines_added: u64,
    pub lines_removed: u64,
    pub current_dir: String,
    pub added_dirs: usize,
    pub exceeds_200k: bool,
    /// The agent session id from the payload, if present.
    pub session_id: Option<String>,
}

/// The fields of a statusLine payload that the statusline uses, each present
/// when the payload holds it with the expected type: `model.display_name`,
/// `effort.level`, `session_name`, `fast_mode`, `thinking.enabled`,
/// `context_window.used_percentage` (as `f64` bits),
/// `context_window.total_input_tokens`, `context_window.total_output_tokens`,
/// `cost.total_cost_usd` (as `f64` bits), `cost.total_lines_added`,
/// `cost.total_lines_removed`, `workspace.current_dir`, `cwd`, the length of
/// `workspace.added_dirs`, `exceeds_200k_tokens` and `session_id`.
#[derive(Debug, Clone, PartialEq)]
pub struct StatusPayload {
    pub model_display_name: Option<String>,
    pub effort_level: Option<String>,
    pub session_name: Option<String>,
    pub fast_mode: Option<bool>,
    pub thinking_enabled: Option<bool>,
    pub used_percentage_bits: Option<u64>,
    pub total_input_tokens: Option<u64>,
    pub total_output_tokens: Option<u64>,
    pub total_cost_usd_bits: Option<u64>,
    pub total_lines_added: Option<u64>,
    pub total_lines_removed: Option<u64>,
    pub workspace_current_dir: Option<String>,
    pub cwd: Option<String>,
    pub added_dirs_len: Option<usize>,
    pub exceeds_200k_tokens: Option<bool>,
    pub session_id: Option<String>,
}

/// The characters of an optional string.
pub open spec fn opt_view(s: Option<String>) -> Option<Seq<char>> {
    match s {
        Some(t) => Some(t@),
        None => None,
    }
}

/// A name or id as the payload gives it: trimmed, and none when blank.
pub open spec fn spec_name_field(raw: Option<Seq<char>>) -> Option<Seq<char>> {
    match raw {
        Some(s) => if trim(s).len() > 0 { Some(trim(s)) } else { None },
        None => None,
    }
}

/// The mathematical value of a [`LiveStatus`].
pub ghost struct LiveStatusView {
    pub session_name: Option<Seq<char>>,
    pub model: Seq<char>,
    pub effort: Seq<char>,
    pub fast_mode: bool,
    pub thinking: bool,
    pub context_pct_bits: Option<u64>,
    pub input_tokens: u64,
    pub output_tokens: u64,
    pub cost_bits: u64,
    pub lines_added: u64,
    pub lines_removed: u64,
    pub current_dir: Seq<char>,
    pub added_dirs: usize,
    pub exceeds_200k: bool,
    pub session_id: Option<Seq<char>>,
}

impl View for LiveStatus {
    type V = LiveStatusView;

    open spec fn view(&self) -> LiveStatusView {
        LiveStatusView {
            session_name: opt_view(self.session_name),
            model: self.model@,
            effort: self.effort@,
            fast_mode: self.fast_mode,
            thinking: self.thinking,
            context_pct_bits: self.context_pct_bits,
            input_tokens: self.input_tokens,
            output_tokens: self.output_tokens,
            cost_bits: self.cost_bits,
            lines_added: self.lines_added,
            lines_removed: self.lines_removed,
            current_dir: self.current_dir@,
            added_dirs: self.added_dirs,
            exceeds_200k: self.exceeds_200k,
            session_id: opt_view(self.session_id),
        }
    }
}

/// The live status a payload stands for: none without a model name; otherwise
/// each field from the payload, with "default" effort, no fast mode, no
/// thinking, zero counts and zero cost where absent, the workspace directory
/// falling back to `cwd` and then to the empty string, and names trimmed with
/// blank ones dropped.
pub open spec fn spec_parse_live_status(p: StatusPayload) -> Option<LiveStatusView> {
    match p.model_display_name {
        None => None,
        Some(model) => Some(LiveStatusView {
            session_name: spec_name_field(opt_view(p.session_name)),
            model: model@,
            effort: match p.effort_level {
                Some(e) => e@,
                None => "default"@,
            },
            fast_mode: match p.fast_mode { Some(b) => b, None => false },
            thinking: match p.thinking_enabled { Some(b) => b, None => false },
            context_pct_bits: p.used_percentage_bits,
            input_tokens: match p.total_input_tokens { Some(n) => n, None => 0 },
            output_tokens: match p.total_output_tokens { Some(n) => n, None => 0 },
            cost_bits: match p.total_cost_usd_bits { Some(n) => n, None => 0 },
            lines_added: match p.total_lines_added { Some(n) => n, None => 0 },
            lines_removed: match p.total_lines_removed { Some(n) => n, None => 0 },
            current_dir: match p.workspace_current_dir {
                Some(d) => d@,
                None => match p.cwd {
                    Some(d) => d@,
                    None => Seq::empty(),
                },
            },
            added_dirs: match p.added_dirs_len { Some(n) => n, None => 0 },
            exceeds_200k: match p.exceeds_200k_tokens { Some(b) => b, None => false },
            session_id: spec_name_field(opt_view(p.session_id)),
        }),
    }
}

/// A payload gives a live status exactly when it names a model. Each flag,
/// count and value the payload holds reaches the live status unchanged (the
/// 200K alarm is on exactly when the payload says so), and each one it lacks
/// takes its default: off, zero, "default" effort, and the workspace
/// directory falling back to `cwd`, then to nothing.
pub proof fn lemma_parsed_status_keeps_payload_fields(p: StatusPayload)
    ensures
        spec_parse_live_status(p) is Some <==> p.model_display_name is Some,
        spec_parse_live_status(p) is Some ==> ({
            let s = spec_parse_live_status(p).unwrap();
            &&& s.model == p.model_display_name.unwrap()@
            &&& (p.effort_level is Some ==> s.effort == p.effort_level.unwrap()@)
            &&& (p.effort_level is None ==> s.effort == "default"@)
            &&& (p.fast_mode is Some ==> s.fast_mode == p.fast_mode.unwrap())
            &&& (p.fast_mode is None ==> !s.fast_mode)
            &&& (p.thinking_enabled is Some ==> s.thinking == p.thinking_enabled.unwrap())
            &&& (p.thinking_enabled is None ==> !s.thinking)
            &&& (p.exceeds_200k_tokens is Some ==> s.exceeds_200k == p.exceeds_200k_tokens.unwrap())
            &&& (p.exceeds_200k_tokens is None ==> !s.exceeds_200k)
            &&& s.context_pct_bits == p.used_percentage_bits
            &&& (p.total_input_tokens is Some ==> s.input_tokens == p.total_input_tokens.unwrap())
            &&& (p.total_input_tokens is None ==> s.input_tokens == 0)
            &&& (p.total_output_tokens is Some ==> s.output_tokens == p.total_output_tokens.unwrap())
            &&& (p.total_output_tokens is None ==> s.output_tokens == 0)
            &&& (p.total_cost_usd_bits is Some ==> s.cost_bits == p.total_cost_usd_bits.unwrap())
            &&& (p.total_cost_usd_bits is None ==> s.cost_bits == 0)
            &&& (p.total_lines_added is Some ==> s.lines_added == p.total_lines_added.unwrap())
            &&& (p.total_lines_added is None ==> s.lines_added == 0)
            &&& (p.total_lines_removed is Some ==> s.lines_removed == p.total_lines_removed.unwrap())
            &&& (p.total_lines_removed is None ==> s.lines_removed == 0)
            &&& (p.added_dirs_len is Some ==> s.added_dirs == p.added_dirs_len.unwrap())
            &&& (p.added_dirs_len is None ==> s.added_dirs == 0)
            &&& (p.workspace_current_dir is Some ==> s.current_dir == p.workspace_current_dir.unwrap()@)
            &&& (p.workspace_current_dir is None && p.cwd is Some ==> s.current_dir == p.cwd.unwrap()@)
            &&& (p.workspace_current_dir is None && p.cwd is None ==> s.current_dir.len() == 0)
        }),
{
}

/// The root-level flags of a decoded payload that names a model: the 200K
/// alarm and fast mode are on exactly when the payload holds them as `true`.
pub proof fn lemma_payload_root_flags(v: JsonValue)
    ensures
        spec_parse_live_status(spec_status_payload(v)) matches Some(s) ==> {
            &&& s.exceeds_200k == (spec_get(Some(v), "exceeds_200k_tokens"@) == Some(JsonValue::Bool(true)))
            &&& s.fast_mode == (spec_get(Some(v), "fast_mode"@) == Some(JsonValue::Bool(true)))
        },
{
}

/// A name or id field: trimmed, dropped when blank.
fn name_field(raw: &Option<String>) -> (r: Option<String>)
    ensures
        opt_view(r) == spec_name_field(opt_view(*raw)),
{
    match raw {
        Some(s) => {
            let t = trimmed(s.as_str());
            if t.unicode_len() > 0 {
                Some(t)
            } else {
                None
            }
        },
        None => None,
    }
}

/// A copy of an optional string.
fn copy_opt_string(s: &Option<String>) -> (r: Option<String>)
    ensures
        r == *s,
{
    match s {
        Some(t) => Some(t.clone()),
        None => None,
    }
}

/// Builds the live status of a payload's fields; none when it names no model.
pub fn live_status_from_payload(payload: &StatusPayload) -> (r: Option<LiveStatus>)
    ensures
        match r {
            Some(s) => spec_parse_live_status(*payload) == Some(s@),
            None => spec_parse_live_status(*payload) is None,
        },
{
    let model = match &payload.model_display_name {
        Some(m) => m.clone(),
        None => return None,
    };
    let effort = match &payload.effort_level {
        Some(e) => e.clone(),
        None => String::from_str("default"),
    };
    let current_dir = match &payload.workspace_current_dir {
        Some(d) => d.clone(),
        None => match &payload.cwd {
            Some(d) => d.clone(),
            None => String::new(),
        },
    };
    Some(LiveStatus {
        session_name: name_field(&payload.session_name),
        model,
        effort,
        fast_mode: match payload.fast_mode { Some(b) => b, None => false },
        thinking: match payload.thinking_enabled { Some(b) => b, None => false },
        context_pct_bits: payload.used_percentage_bits,
        input_tokens: match payload.total_input_tokens { Some(n) => n, None => 0 },
        output_tokens: match payload.total_output_tokens { Some(n) => n, None => 0 },
        cost_bits: match payload.total_cost_usd_bits { Some(n) => n, None => 0 },
        lines_added: match payload.total_lines_added { Some(n) => n, None => 0 },
        lines_removed: match payload.total_lines_removed { Some(n) => n, None => 0 },
        current_dir,
        added_dirs: match payload.added_dirs_len { Some(n) => n, None => 0 },
        exceeds_200k: match payload.exceeds_200k_tokens { Some(b) => b, None => false },
        session_id: name_field(&payload.session_id),
    })
}

/// The fields of a decoded statusLine payload, read at their key paths.
pub open spec fn spec_status_payload(v: JsonValue) -> StatusPayload {
    let root = Some(v);
    let cw = spec_get(root, "context_window"@);
    let cost = spec_get(root, "cost"@);
    let workspace = spec_get(root, "workspace"@);
    StatusPayload {
        model_display_name: spec_as_string(spec_get(spec_get(root, "model"@), "display_name"@)),
        effort_level: spec_as_string(spec_get(spec_get(root, "effort"@), "level"@)),
        session_name: spec_as_string(spec_get(root, "session_name"@)),
        fast_mode: spec_as_bool(spec_get(root, "fast_mode"@)),
        thinking_enabled: spec_as_bool(spec_get(spec_get(root, "thinking"@), "enabled"@)),
        used_percentage_bits: spec_as_f64_bits(spec_get(cw, "used_percentage"@)),
        total_input_tokens: spec_as_u64(spec_get(cw, "total_input_tokens"@)),
        total_output_tokens: spec_as_u64(spec_get(cw, "total_output_tokens"@)),
        total_cost_usd_bits: spec_as_f64_bits(spec_get(cost, "total_cost_usd"@)),
        total_lines_added: spec_as_u64(spec_get(cost, "total_lines_added"@)),
        total_lines_removed: spec_as_u64(spec_get(cost, "total_lines_removed"@)),
        workspace_current_dir: spec_as_string(spec_get(workspace, "current_dir"@)),
        cwd: spec_as_string(spec_get(root, "cwd"@)),
        added_dirs_len: spec_array_len(spec_get(workspace, "added_dirs"@)),
        exceeds_200k_tokens: spec_as_bool(spec_get(root, "exceeds_200k_tokens"@)),
        session_id: spec_as_string(spec_get(root, "session_id"@)),
    }
}

/// Reads the fields the statusline uses out of a decoded payload.
pub fn status_payload_of(v: &JsonValue) -> (p: StatusPayload)
    ensures
        p == spec_status_payload(*v),
{
    let root = Some(v);
    assert(deref_opt(root) == Some(*v));
    let cw = json_get(root, "context_window");
    let cost = json_get(root, "cost");
    let workspace = json_get(root, "workspace");
    StatusPayload {
        model_display_name: json_as_string(json_get(json_get(root, "model"), "display_name")),
        effort_level: json_as_string(json_get(json_get(root, "effort"), "level")),
        session_name: json_as_string(json_get(root, "session_name")),
        fast_mode: json_as_bool(json_get(root, "fast_mode")),
        thinking_enabled: json_as_bool(json_get(json_get(root, "thinking"), "enabled")),
        used_percentage_bits: json_as_f64_bits(json_get(cw, "used_percentage")),
        total_input_tokens: json_as_u64(json_get(cw, "total_input_tokens")),
        total_output_tokens: json_as_u64(json_get(cw, "total_output_tokens")),
        total_cost_usd_bits: json_as_f64_bits(json_get(cost, "total_cost_usd")),
        total_lines_added: json_as_u64(json_get(cost, "total_lines_added")),
        total_lines_removed: json_as_u64(json_get(cost, "total_lines_removed")),
        workspace_current_dir: json_as_string(json_get(workspace, "current_dir")),
        cwd: json_as_string(json_get(root, "cwd")),
        added_dirs_len: json_array_len(json_get(workspace, "added_dirs")),
        exceeds_200k_tokens: json_as_bool(json_get(root, "exceeds_200k_tokens")),
        session_id: json_as_string(json_get(root, "session_id")),
    }
}

/// Parses a statusLine payload (JSON, which is also valid YAML): none when it
/// is not JSON or names no model.
pub fn parse_live_status(payload: &str) -> (r: Option<LiveStatus>)
    ensures
        json_value_of(payload@) is None ==> r is None,
        json_value_of(payload@) matches Some(v) ==> match r {
            Some(s) => spec_parse_live_status(spec_status_payload(v)) == Some(s@),
            None => spec_parse_live_status(spec_status_payload(v)) is None,
        },
{
    match decode_json(payload) {
        None => None,
        Some(v) => live_status_from_payload(&status_payload_of(&v)),
    }
}

/// A terminal after its live status was refreshed to `status`: the status is
/// stored and the session title mirrors the status's session name (cleared
/// when there is no status or no name).
pub open spec fn refreshed_terminal(t: TerminalState, status: Option<LiveStatus>) -> TerminalState {
    TerminalState {
        live_status: status,
        session_title: match status {
            Some(s) => s.session_name,
            None => None,
        },
        ..t
    }
}

impl AppState {
    /// Refreshes each agent pane's live status from its statusLine payload.
    /// `read` gives the status read for an agent session id (none when its
    /// payload is missing or unusable); without it (no home directory to read
    /// from) nothing changes. Terminals without an agent session are left as
    /// they are.
    pub fn refresh_agent_live_statuses<F: Fn(&String) -> Option<LiveStatus>>(&mut self, read: Option<F>)
        requires
            read matches Some(f) ==> forall|id: &String| f.requires((id,)),
        ensures
            read is None ==> *final(self) == *old(self),
            read matches Some(f) ==> {
                &&& final(self).terminals@.len() == old(self).terminals@.len()
                &&& forall|i: int| 0 <= i < old(self).terminals@.len() ==> match old(self).terminals@[i].claude_session_id {
                    Some(id) => {
                        &&& f.ensures((&id,), #[trigger] final(self).terminals@[i].live_status)
                        &&& final(self).terminals@[i] == refreshed_terminal(
                            old(self).terminals@[i],
                            final(self).terminals@[i].live_status,
                        )
                    },
                    None => final(self).terminals@[i] == old(self).terminals@[i],
                }
                &&& *final(self) == (AppState { terminals: final(self).terminals, ..*old(self) })
            },
    {
        let f = match read {
            Some(f) => f,
            None => return,
        };
        let n = self.terminals.len();
        let mut i: usize = 0;
        while i < n
            invariant
                n == old(self).terminals@.len(),
                i <= n,
                forall|id: &String| f.requires((id,)),
                self.terminals@.len() == n,
                forall|j: int| i <= j < n ==> #[trigger] self.terminals@[j] == old(self).terminals@[j],
                forall|j: int| 0 <= j < i ==> match old(self).terminals@[j].claude_session_id {
                    Some(id) => {
                        &&& f.ensures((&id,), #[trigger] self.terminals@[j].live_status)
                        &&& self.terminals@[j] == refreshed_terminal(old(self).terminals@[j], self.terminals@[j].live_status)
                    },
                    None => self.terminals@[j] == old(self).terminals@[j],
                },
                *self == (AppState { terminals: self.terminals, ..*old(self) }),
            decreases n - i,
        {
            match copy_opt_string(&self.terminals[i].claude_session_id) {
                Some(id) => {
                    let status = f(&id);
                    let title = match &status {
                        Some(s) => copy_opt_string(&s.session_name),
                        None => None,
                    };
                    self.terminals[i].live_status = status;
                    self.terminals[i].session_title = title;
                },
                None => {},
            }
            i = i + 1;
        }
    }
}

} // verus!
