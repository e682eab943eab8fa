//! The application state that the sidebar, statusline and live-status logic
//! read and update.

use vstd::prelude::*;
use crate::geometry::Rect;
use crate::live_status::LiveStatus;

verus! {

/// Whether the view is laid out for a wide terminal or for a phone-sized one.
#[derive(Debug, Clone, Copy, PartialEq, Eq, Structural)]
pub enum ViewLayout {
    Desktop,
    Mobile,
}

/// The interaction mode of the application.
#[derive(Debug, Clone, Copy, PartialEq, Eq, Structural)]
pub enum Mode {
    Navigate,
    Terminal,
    RenameWorkspace,
    Resize,
    ConfirmClose,
    ContextMenu,
    Settings,
    GlobalMenu,
    KeybindHelp,
}

/// Where the current sidebar width came from.
#[derive(Debug, Clone, Copy, PartialEq, Eq, Structural)]
pub enum SidebarWidthSource {
    Default,
    Manual,
}

/// The on-screen area of one workspace card in the sidebar list.
#[derive(Debug, Clone, Copy, PartialEq, Eq, Structural)]
pub struct WorkspaceCardArea {
    pub ws_idx: usize,
    pub rect: Rect,
}

/// One agent row of the sidebar agent panel: the workspace, tab and pane it
/// switches to when clicked.
#[derive(Debug, Clone, Copy, PartialEq, Eq, Structural)]
pub struct AgentDetail {
    pub ws_idx: usize,
    pub tab_idx: usize,
    pub pane_id: u64,
}

/// Geometry computed by the last layout pass.
#[derive(Debug, Clone)]
pub struct ViewState {
    pub sidebar_rect: Rect,
    pub layout: ViewLayout,
    pub mobile_menu_hit_area: Rect,
    pub workspace_card_areas: Vec<WorkspaceCardArea>,
}

/// A pane of a tab and the terminal attached to it.
#[derive(Debug, Clone, Copy, PartialEq, Eq, Structural)]
pub struct PaneTerminal {
    pub pane_id: u64,
    pub terminal_id: u64,
}

/// A tab of a workspace: its panes and the focused one.
#[derive(Debug, Clone)]
pub struct Tab {
    pub focused_pane: u64,
    pub panes: Vec<PaneTerminal>,
}

/// A workspace: its tabs, the active tab, and the key of the worktree group it
/// belongs to, if any.
#[derive(Debug, Clone)]
pub struct Workspace {
    pub tabs: Vec<Tab>,
    pub active_tab: usize,
    pub worktree_key: Option<String>,
}

/// A terminal and what the statusline shows for it.
#[derive(Debug, Clone)]
pub struct TerminalState {
    pub id: u64,
    pub cwd: String,
    /// The agent session id of the agent running in the terminal, if any.
    pub claude_session_id: Option<String>,
    /// The custom status text in effect for the terminal, if any.
    pub custom_status: Option<String>,
    pub live_status: Option<LiveStatus>,
    pub session_title: Option<String>,
}

/// The application state.
#[derive(Debug, Clone)]
pub struct AppState {
    pub view: ViewState,
    pub mode: Mode,
    pub selected: usize,
    pub active: Option<usize>,
    pub workspaces: Vec<Workspace>,
    pub terminals: Vec<TerminalState>,
    pub sidebar_collapsed: bool,
    pub sidebar_width: u16,
    pub sidebar_min_width: u16,
    pub sidebar_max_width: u16,
    pub sidebar_width_source: SidebarWidthSource,
    pub session_dirty: bool,
    pub workspace_scroll: usize,
    pub agent_panel_scroll: usize,
    pub update_available: Option<String>,
    pub latest_release_notes_available: bool,
    pub headroom_proxy_running: bool,
    pub config_diagnostic: Option<String>,
}

impl AppState {
    /// The rectangles of the view fit in the coordinate space.
    pub open spec fn wf(&self) -> bool {
        &&& self.view.sidebar_rect.wf()
        &&& self.view.mobile_menu_hit_area.wf()
    }

    /// A state with no workspaces or terminals, the given sidebar area, and the
    /// given sidebar width limits.
    pub fn new(sidebar_rect: Rect, sidebar_width: u16, sidebar_min_width: u16, sidebar_max_width: u16) -> (s: AppState)
        ensures
            s.view.sidebar_rect == sidebar_rect,
            s.view.layout == ViewLayout::Desktop,
            s.view.mobile_menu_hit_area == Rect::spec_new(0, 0, 0, 0),
            s.view.workspace_card_areas@.len() == 0,
            s.mode == Mode::Navigate,
            s.selected == 0,
            s.active is None,
            s.workspaces@.len() == 0,
            s.terminals@.len() == 0,
            !s.sidebar_collapsed,
            s.sidebar_width == sidebar_width,
            s.sidebar_min_width == sidebar_min_width,
            s.sidebar_max_width == sidebar_max_width,
            s.sidebar_width_source == SidebarWidthSource::Default,
            !s.session_dirty,
            s.workspace_scroll == 0,
            s.agent_panel_scroll == 0,
            s.update_available is None,
            !s.latest_release_notes_available,
            !s.headroom_proxy_running,
            s.config_diagnostic is None,
    {
        AppState {
            view: ViewState {
                sidebar_rect,
                layout: ViewLayout::Desktop,
                mobile_menu_hit_area: Rect::new(0, 0, 0, 0),
                workspace_card_areas: Vec::new(),
            },
            mode: Mode::Navigate,
            selected: 0,
            active: None,
            workspaces: Vec::new(),
            terminals: Vec::new(),
            sidebar_collapsed: false,
            sidebar_width,
            sidebar_min_width,
            sidebar_max_width,
            sidebar_width_source: SidebarWidthSource::Default,
            session_dirty: false,
            workspace_scroll: 0,
            agent_panel_scroll: 0,
            update_available: None,
            latest_release_notes_available: false,
            headroom_proxy_running: false,
            config_diagnostic: None,
        }
    }

    /// Records that the persisted session needs to be written again.
    pub fn mark_session_dirty(&mut self)
        ensures
            *final(self) == (AppState { session_dirty: true, ..*old(self) }),
    {
        self.session_dirty = true;
    }
}

} // verus!
