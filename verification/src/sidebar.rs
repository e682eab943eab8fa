//! Sidebar layout and mouse hit-testing.
//!
//! Geometry that the rendering layer computes (the workspace-list area, the
//! toggle and divider rectangles, the scrollbar track, the agent-panel body and
//! entries) comes in as arguments; the decisions made on top of it are here.

use vstd::prelude::*;
use crate::geometry::{Rect, sat_add16, sat_sub};
use crate::state::{AgentDetail, AppState, Mode, SidebarWidthSource, ViewLayout, Workspace, WorkspaceCardArea};

verus! {

/// What a click on a scrollbar hit.
#[derive(Debug, Clone, Copy, PartialEq, Eq, Structural)]
pub enum ScrollbarClickTarget {
    /// The thumb, grabbed `grab_row_offset` rows below its top.
    Thumb { grab_row_offset: u16 },
    /// The track, at the scroll position `offset_from_bottom`.
    Track { offset_from_bottom: usize },
}

/// What a click at `(col, row)` on a scrollbar with track `track` hits, given
/// where the thumb is grabbed at that row (if it is on the thumb) and the scroll
/// position that the row stands for on the track.
pub open spec fn spec_scrollbar_click_target(
    track: Option<Rect>,
    col: u16,
    row: u16,
    thumb_grab_offset: Option<u16>,
    track_offset_from_bottom: usize,
) -> Option<ScrollbarClickTarget> {
    match track {
        None => None,
        Some(t) => if !t.spec_contains(col as int, row as int) {
            None
        } else {
            match thumb_grab_offset {
                Some(g) => Some(ScrollbarClickTarget::Thumb { grab_row_offset: g }),
                None => Some(ScrollbarClickTarget::Track { offset_from_bottom: track_offset_from_bottom }),
            }
        },
    }
}

/// Classifies a click on a scrollbar: outside the track (or with no track) it
/// hits nothing; on the thumb it grabs the thumb; elsewhere on the track it
/// jumps to the row's scroll position.
pub fn scrollbar_click_target(
    track: Option<Rect>,
    col: u16,
    row: u16,
    thumb_grab_offset: Option<u16>,
    track_offset_from_bottom: usize,
) -> (r: Option<ScrollbarClickTarget>)
    requires
        track matches Some(t) ==> t.wf(),
    ensures
        r == spec_scrollbar_click_target(track, col, row, thumb_grab_offset, track_offset_from_bottom),
{
    let t = match track {
        None => return None,
        Some(t) => t,
    };
    if col < t.x || col >= t.x + t.width || row < t.y || row >= t.y + t.height {
        return None;
    }
    match thumb_grab_offset {
        Some(g) => Some(ScrollbarClickTarget::Thumb { grab_row_offset: g }),
        None => Some(ScrollbarClickTarget::Track { offset_from_bottom: track_offset_from_bottom }),
    }
}

/// The label of every entry of the global menu, in order.
pub open spec fn spec_global_menu_labels(update_available: bool, release_notes: bool) -> Seq<Seq<char>> {
    let head = seq!["settings"@, "keybinds"@, "reload config"@];
    let middle = if update_available {
        seq!["update ready"@]
    } else if release_notes {
        seq!["what's new"@]
    } else {
        Seq::empty()
    };
    head + middle + seq!["detach"@]
}

/// The entries of the global menu as the string constants it lists.
pub open spec fn global_menu_label_strs(update_available: bool, release_notes: bool) -> Seq<&'static str> {
    let middle: Seq<&'static str> = if update_available {
        seq!["update ready"]
    } else if release_notes {
        seq!["what's new"]
    } else {
        Seq::empty()
    };
    seq!["settings", "keybinds", "reload config"] + middle + seq!["detach"]
}

/// Whether the widest of the first `n` entries depends only on their badges.
proof fn lemma_widest_prefix(labels: Seq<Seq<char>>, b1: Seq<bool>, b2: Seq<bool>, n: nat)
    requires
        n <= b1.len(),
        n <= b2.len(),
        forall|j: int| 0 <= j < n ==> b1[j] == b2[j],
    ensures
        widest_menu_entry(labels, b1, n) == widest_menu_entry(labels, b2, n),
    decreases n,
{
    if n > 0 {
        lemma_widest_prefix(labels, b1, b2, (n - 1) as nat);
    }
}

/// The mode is one in which the collapsed sidebar details the selected
/// workspace rather than the active one.
pub open spec fn mode_details_selection(mode: Mode) -> bool {
    match mode {
        Mode::Navigate | Mode::RenameWorkspace | Mode::Resize | Mode::ConfirmClose
        | Mode::ContextMenu | Mode::Settings | Mode::GlobalMenu | Mode::KeybindHelp => true,
        _ => false,
    }
}

impl AppState {
    /// The sidebar shows its expanded sections: it is not collapsed, wider than
    /// one column and at least one row high.
    pub open spec fn sidebar_sections_visible(&self) -> bool {
        &&& !self.sidebar_collapsed
        &&& self.view.sidebar_rect.width > 1
        &&& self.view.sidebar_rect.height > 0
    }

    /// The workspace list area: `split_area` (the list's share of the sidebar)
    /// while the sections are visible, the empty rectangle otherwise.
    pub fn workspace_list_rect(&self, split_area: Rect) -> (r: Rect)
        ensures
            r == (if self.sidebar_sections_visible() { split_area } else { Rect::spec_new(0, 0, 0, 0) }),
    {
        let sidebar = self.view.sidebar_rect;
        if self.sidebar_collapsed || sidebar.width <= 1 || sidebar.height == 0 {
            return Rect::new(0, 0, 0, 0);
        }
        split_area
    }

    /// The agent panel spans the sidebar minus its last row (kept for the menu
    /// and toggle footer).
    pub open spec fn spec_agent_panel_rect(&self) -> Rect {
        let s = self.view.sidebar_rect;
        if self.sidebar_sections_visible() {
            Rect::spec_new(s.x, s.y, s.width, (s.height - 1) as u16)
        } else {
            Rect::spec_new(0, 0, 0, 0)
        }
    }

    /// The area of the agent panel: the whole sidebar but its last row, or the
    /// empty rectangle when the sections are hidden.
    pub fn agent_panel_rect(&self) -> (r: Rect)
        ensures
            r == self.spec_agent_panel_rect(),
            r.wf(),
    {
        let sidebar = self.view.sidebar_rect;
        if self.sidebar_collapsed || sidebar.width <= 1 || sidebar.height == 0 {
            return Rect::new(0, 0, 0, 0);
        }
        Rect::new(sidebar.x, sidebar.y, sidebar.width, sidebar.height.saturating_sub(1))
    }

    /// What a click at `(col, row)` hits on the workspace list scrollbar, whose
    /// track is `track` (none when the list does not scroll).
    pub fn workspace_list_scrollbar_target_at(
        &self,
        col: u16,
        row: u16,
        track: Option<Rect>,
        thumb_grab_offset: Option<u16>,
        track_offset_from_bottom: usize,
    ) -> (r: Option<ScrollbarClickTarget>)
        requires
            track matches Some(t) ==> t.wf(),
        ensures
            r == spec_scrollbar_click_target(track, col, row, thumb_grab_offset, track_offset_from_bottom),
    {
        scrollbar_click_target(track, col, row, thumb_grab_offset, track_offset_from_bottom)
    }

    /// The scroll position for a thumb drag on the workspace list scrollbar:
    /// `drag_offset` (the position the dragged row stands for) when the list has
    /// a scrollbar, nothing otherwise.
    pub fn workspace_list_offset_for_drag_row(&self, track: Option<Rect>, drag_offset: usize) -> (r: Option<usize>)
        ensures
            r == (if track is Some { Some(drag_offset) } else { None::<usize> }),
    {
        match track {
            Some(_) => Some(drag_offset),
            None => None,
        }
    }

    /// Scrolls the workspace list to `offset_from_bottom` rows above its end,
    /// then lets `normalize` settle the result.
    pub fn set_workspace_list_offset_from_bottom<F: Fn(usize) -> usize>(
        &mut self,
        offset_from_bottom: usize,
        max_offset_from_bottom: usize,
        normalize: F,
    )
        requires
            forall|x: usize| normalize.requires((x,)),
        ensures
            normalize.ensures(
                (sat_sub(max_offset_from_bottom as int, offset_from_bottom as int) as usize,),
                final(self).workspace_scroll,
            ),
            *final(self) == (AppState { workspace_scroll: final(self).workspace_scroll, ..*old(self) }),
    {
        let raw = max_offset_from_bottom.saturating_sub(offset_from_bottom);
        self.workspace_scroll = normalize(raw);
    }

    /// The workspace scroll position after a wheel step of `delta` rows, before
    /// normalization: up (negative) saturates at zero, down is capped at the
    /// largest offset.
    pub open spec fn spec_scrolled(scroll: usize, delta: i16, max_offset: usize) -> usize {
        if delta < 0 {
            sat_sub(scroll as int, -(delta as int)) as usize
        } else {
            let down = if scroll + delta > usize::MAX { usize::MAX as int } else { scroll + delta };
            (if down > max_offset { max_offset as int } else { down }) as usize
        }
    }

    /// Scrolls the workspace list by `delta` rows, then lets `normalize` settle
    /// the result.
    pub fn scroll_workspace_list<F: Fn(usize) -> usize>(&mut self, delta: i16, max_offset_from_bottom: usize, normalize: F)
        requires
            forall|x: usize| normalize.requires((x,)),
        ensures
            normalize.ensures(
                (Self::spec_scrolled(old(self).workspace_scroll, delta, max_offset_from_bottom),),
                final(self).workspace_scroll,
            ),
            *final(self) == (AppState { workspace_scroll: final(self).workspace_scroll, ..*old(self) }),
    {
        let raw = scrolled(self.workspace_scroll, delta, max_offset_from_bottom);
        self.workspace_scroll = normalize(raw);
    }

    /// What a click at `(col, row)` hits on the agent panel scrollbar.
    pub fn agent_panel_scrollbar_target_at(
        &self,
        col: u16,
        row: u16,
        track: Option<Rect>,
        thumb_grab_offset: Option<u16>,
        track_offset_from_bottom: usize,
    ) -> (r: Option<ScrollbarClickTarget>)
        requires
            track matches Some(t) ==> t.wf(),
        ensures
            r == spec_scrollbar_click_target(track, col, row, thumb_grab_offset, track_offset_from_bottom),
    {
        scrollbar_click_target(track, col, row, thumb_grab_offset, track_offset_from_bottom)
    }

    /// The scroll position for a thumb drag on the agent panel scrollbar.
    pub fn agent_panel_offset_for_drag_row(&self, track: Option<Rect>, drag_offset: usize) -> (r: Option<usize>)
        ensures
            r == (if track is Some { Some(drag_offset) } else { None::<usize> }),
    {
        match track {
            Some(_) => Some(drag_offset),
            None => None,
        }
    }

    /// Scrolls the agent panel to `offset_from_bottom` rows above its end.
    pub fn set_agent_panel_offset_from_bottom(&mut self, offset_from_bottom: usize, max_offset_from_bottom: usize)
        ensures
            final(self).agent_panel_scroll == sat_sub(max_offset_from_bottom as int, offset_from_bottom as int),
            *final(self) == (AppState { agent_panel_scroll: final(self).agent_panel_scroll, ..*old(self) }),
    {
        self.agent_panel_scroll = max_offset_from_bottom.saturating_sub(offset_from_bottom);
    }

    /// Scrolls the agent panel by `delta` rows: up saturates at zero, down is
    /// capped at `max_scroll`.
    pub fn scroll_agent_panel(&mut self, delta: i16, max_scroll: usize)
        ensures
            final(self).agent_panel_scroll == Self::spec_scrolled(old(self).agent_panel_scroll, delta, max_scroll),
            *final(self) == (AppState { agent_panel_scroll: final(self).agent_panel_scroll, ..*old(self) }),
    {
        self.agent_panel_scroll = scrolled(self.agent_panel_scroll, delta, max_scroll);
    }
}

/// The scroll position after a wheel step of `delta` rows.
fn scrolled(scroll: usize, delta: i16, max_offset: usize) -> (r: usize)
    ensures
        r == AppState::spec_scrolled(scroll, delta, max_offset),
{
    if delta < 0 {
        let up: usize = (0i32 - delta as i32) as usize;
        scroll.saturating_sub(up)
    } else {
        let down: usize = delta as usize;
        let s = scroll.saturating_add(down);
        if s > max_offset { max_offset } else { s }
    }
}

impl AppState {
    /// The footer row of the expanded sidebar: the second-to-last row, one column
    /// narrower than the sidebar (the last column is the divider).
    pub open spec fn spec_sidebar_footer_rect(&self) -> Rect {
        let s = self.view.sidebar_rect;
        if self.sidebar_collapsed || s.width <= 1 || s.height < 2 {
            Rect::spec_new(0, 0, 0, 0)
        } else {
            Rect::spec_new(s.x, (s.y + s.height - 2) as u16, (s.width - 1) as u16, 1)
        }
    }

    /// The sidebar footer row, or the empty rectangle when the sidebar is
    /// collapsed, at most one column wide or less than two rows high.
    pub fn sidebar_footer_rect(&self) -> (r: Rect)
        requires
            self.wf(),
        ensures
            r == self.spec_sidebar_footer_rect(),
            r.wf(),
    {
        let sidebar = self.view.sidebar_rect;
        if self.sidebar_collapsed || sidebar.width <= 1 || sidebar.height < 2 {
            return Rect::new(0, 0, 0, 0);
        }
        let content_w = sidebar.width.saturating_sub(1);
        if content_w == 0 {
            return Rect::new(0, 0, 0, 0);
        }
        let y = sidebar.y + sidebar.height.saturating_sub(2);
        Rect::new(sidebar.x, y, content_w, 1)
    }

    /// The "new" button: the first five columns of the footer (at least one
    /// column, at most the footer's width when it has one).
    pub fn sidebar_new_button_rect(&self) -> (r: Rect)
        requires
            self.wf(),
        ensures
            ({
                let f = self.spec_sidebar_footer_rect();
                let w = if f.width == 0 { 1u16 } else if f.width < 5 { f.width } else { 5u16 };
                r == Rect::spec_new(f.x, f.y, w, f.height)
            }),
    {
        let footer = self.sidebar_footer_rect();
        let width = 5u16.min(footer.width.max(1));
        Rect::new(footer.x, footer.y, width, footer.height)
    }

    /// The global-menu launcher: in the mobile layout the menu hit area; in the
    /// expanded sidebar the cells on the last row directly left of the collapse
    /// toggle (which starts two columns before the right edge), six wide, or
    /// eight with the attention badge, cut to the room left of the toggle.
    pub open spec fn spec_global_launcher_rect(&self, badge_visible: bool) -> Rect {
        let s = self.view.sidebar_rect;
        if self.view.layout == ViewLayout::Mobile {
            self.view.mobile_menu_hit_area
        } else if self.sidebar_collapsed || s.width <= 2 || s.height == 0 {
            Rect::spec_new(0, 0, 0, 0)
        } else {
            let want: int = if badge_visible { 8 } else { 6 };
            let room: int = s.width - 2;
            let w: int = if want < room { want } else { room };
            Rect::spec_new((s.x + s.width - 2 - w) as u16, (s.y + s.height - 1) as u16, w as u16, 1)
        }
    }

    /// The rectangle that opens the global menu when clicked.
    pub fn global_launcher_rect(&self, badge_visible: bool) -> (r: Rect)
        requires
            self.wf(),
        ensures
            r == self.spec_global_launcher_rect(badge_visible),
            r.wf(),
            // On the desktop the launcher ends where the toggle begins, on the last row.
            self.view.layout == ViewLayout::Desktop && self.sidebar_sections_visible()
                && self.view.sidebar_rect.width > 2 ==> {
                &&& r.width > 0
                &&& r.height == 1
                &&& r.x + r.width == self.view.sidebar_rect.x + self.view.sidebar_rect.width - 2
                &&& r.y == self.view.sidebar_rect.y + self.view.sidebar_rect.height - 1
            },
    {
        if self.view.layout == ViewLayout::Mobile {
            return self.view.mobile_menu_hit_area;
        }
        let sidebar = self.view.sidebar_rect;
        if self.sidebar_collapsed || sidebar.width <= 2 || sidebar.height == 0 {
            return Rect::new(0, 0, 0, 0);
        }
        let toggle_x = sidebar.x + sidebar.width.saturating_sub(2);
        let y = sidebar.y + sidebar.height.saturating_sub(1);
        let want: u16 = if badge_visible { 8 } else { 6 };
        let menu_width = want.min(toggle_x.saturating_sub(sidebar.x));
        if menu_width == 0 {
            return Rect::new(0, 0, 0, 0);
        }
        let x = toggle_x.saturating_sub(menu_width);
        Rect::new(x, y, menu_width, 1)
    }

    /// The entries of the global menu: settings, keybinds, reload config, then
    /// "update ready" when an update is available, else "what's new" when release
    /// notes are available, then detach.
    pub fn global_menu_labels(&self) -> (labels: Vec<&'static str>)
        ensures
            labels@ == global_menu_label_strs(self.update_available is Some, self.latest_release_notes_available),
            labels@.map_values(|l: &'static str| l@) == spec_global_menu_labels(
                self.update_available is Some,
                self.latest_release_notes_available,
            ),
    {
        let mut labels: Vec<&'static str> = Vec::new();
        labels.push("settings");
        labels.push("keybinds");
        labels.push("reload config");
        if self.update_available.is_some() {
            labels.push("update ready");
        } else if self.latest_release_notes_available {
            labels.push("what's new");
        }
        labels.push("detach");
        proof {
            let lhs = labels@.map_values(|l: &'static str| l@);
            let rhs = spec_global_menu_labels(self.update_available is Some, self.latest_release_notes_available);
            assert(lhs =~= rhs);
            assert(labels@ =~= global_menu_label_strs(self.update_available is Some, self.latest_release_notes_available));
        }
        labels
    }
}

/// The width of a global-menu entry: its characters, plus two for a badge.
pub open spec fn menu_entry_width(label: Seq<char>, badge: bool) -> int {
    label.len() + if badge { 2int } else { 0int }
}

/// The widest of the first `n` menu entries, if there is one.
pub open spec fn widest_menu_entry(labels: Seq<Seq<char>>, badges: Seq<bool>, n: nat) -> Option<int>
    decreases n,
{
    if n == 0 {
        None
    } else {
        let w = menu_entry_width(labels[n - 1], badges[n - 1]);
        match widest_menu_entry(labels, badges, (n - 1) as nat) {
            None => Some(w),
            Some(b) => Some(if w > b { w } else { b }),
        }
    }
}

/// The smaller of two integers.
pub open spec fn min_int(a: int, b: int) -> int {
    if a < b { a } else { b }
}

/// The global menu popup: as wide as its widest entry plus a two-cell margin
/// and a two-cell border, as high as its entries plus the border, both cut to
/// the screen; right-aligned with the launcher but kept on screen, and placed
/// directly above the launcher.
pub open spec fn spec_global_menu_rect(screen: Rect, launcher: Rect, labels: Seq<Seq<char>>, badges: Seq<bool>) -> Rect {
    let widest = match widest_menu_entry(labels, badges, labels.len()) {
        Some(w) => w,
        None => 8,
    };
    let content = sat_add16(widest, 2);
    let menu_w = min_int(sat_add16(content, 2), if screen.width == 0 { 1 } else { screen.width as int });
    let menu_h = min_int(labels.len() as int + 2, if screen.height == 0 { 1 } else { screen.height as int });
    let max_x = screen.x + sat_sub(screen.width as int, menu_w);
    let desired_x = launcher.x + sat_sub(launcher.width as int, menu_w);
    Rect::spec_new(
        min_int(desired_x, max_x) as u16,
        sat_sub(launcher.y as int, menu_h) as u16,
        menu_w as u16,
        menu_h as u16,
    )
}

/// Every global-menu label has at most thirteen characters.
proof fn lemma_menu_label_lengths(update_available: bool, release_notes: bool)
    ensures
        spec_global_menu_labels(update_available, release_notes).len() <= 5,
        forall|i: int|
            0 <= i < spec_global_menu_labels(update_available, release_notes).len()
                ==> #[trigger] spec_global_menu_labels(update_available, release_notes)[i].len() <= 13,
{
    reveal_strlit("settings");
    reveal_strlit("keybinds");
    reveal_strlit("reload config");
    reveal_strlit("update ready");
    reveal_strlit("what's new");
    reveal_strlit("detach");
}

/// Whether the cell `(col, row)` is the sidebar's divider column: the last
/// column of the expanded sidebar, within its rows, but not on the toggle.
pub open spec fn spec_on_sidebar_divider(state: AppState, col: u16, row: u16, toggle: Rect) -> bool {
    let s = state.view.sidebar_rect;
    &&& !state.sidebar_collapsed
    &&& s.width > 0
    &&& !toggle.spec_contains(col as int, row as int)
    &&& col == s.x + s.width - 1
    &&& s.y <= row < s.y + s.height
}

/// The sidebar width for a divider dragged to `divider_col`: the columns from
/// the sidebar's left edge through the divider, clamped to the width limits.
pub open spec fn spec_manual_sidebar_width(sidebar_x: u16, divider_col: u16, min_w: u16, max_w: u16) -> u16 {
    let w = sat_add16(sat_sub(divider_col as int, sidebar_x as int), 1);
    (if w < min_w { min_w as int } else if w > max_w { max_w as int } else { w }) as u16
}

/// Where the `k`-th visible agent entry starts: entries take two rows and are
/// separated by one blank row.
pub open spec fn agent_entry_row(body: Rect, k: int) -> int {
    body.y + 3 * k
}

/// The agent entry shown on `row` of the agent panel body, after skipping the
/// first `scroll` entries: the entry whose two rows hold `row`, provided both
/// of its rows fit in the body.
pub open spec fn spec_agent_detail_at(body: Rect, row: u16, scroll: usize, entries: Seq<AgentDetail>) -> Option<AgentDetail> {
    let bottom = body.y + body.height;
    if body.height < 2 || row < body.y || row >= bottom {
        None
    } else {
        let k = (row - body.y) / 3;
        let in_entry = (row - body.y) % 3 < 2;
        if in_entry && scroll + k < entries.len() && agent_entry_row(body, k) + 1 < bottom {
            Some(entries[scroll + k])
        } else {
            None
        }
    }
}

impl AppState {
    /// The rectangle of the global menu popup, for the launcher drawn with or
    /// without the attention badge; `has_badge` tells whether an entry carries
    /// a badge.
    pub fn global_menu_rect<F: Fn(&'static str) -> bool>(&self, screen: Rect, badge_visible: bool, has_badge: F) -> (r: Rect)
        requires
            self.wf(),
            screen.wf(),
            forall|l: &'static str| has_badge.requires((l,)),
        ensures
            exists|badges: Seq<bool>|
                #![trigger spec_global_menu_rect(screen, self.spec_global_launcher_rect(badge_visible), spec_global_menu_labels(self.update_available is Some, self.latest_release_notes_available), badges)]
            {
                let strs = global_menu_label_strs(self.update_available is Some, self.latest_release_notes_available);
                &&& badges.len() == strs.len()
                &&& forall|j: int| 0 <= j < strs.len() ==> has_badge.ensures((strs[j],), #[trigger] badges[j])
                &&& r == spec_global_menu_rect(
                    screen,
                    self.spec_global_launcher_rect(badge_visible),
                    spec_global_menu_labels(self.update_available is Some, self.latest_release_notes_available),
                    badges,
                )
            },
            // The popup stays inside a non-empty screen horizontally.
            screen.width > 0 ==> r.x + r.width <= screen.x + screen.width,
    {
        let launcher = self.global_launcher_rect(badge_visible);
        let labels = self.global_menu_labels();
        let ghost spec_labels = spec_global_menu_labels(
            self.update_available is Some,
            self.latest_release_notes_available,
        );
        proof {
            lemma_menu_label_lengths(self.update_available is Some, self.latest_release_notes_available);
            assert(labels@.len() == spec_labels.len());
            assert forall|i: int| 0 <= i < labels@.len() implies #[trigger] labels@[i]@ == spec_labels[i] by {
                assert(labels@.map_values(|l: &'static str| l@)[i] == labels@[i]@);
            }
        }
        let n = labels.len();
        let mut widest: Option<u16> = None;
        let ghost mut badges: Seq<bool> = Seq::empty();
        let mut i: usize = 0;
        while i < n
            invariant
                n == labels@.len(),
                n == spec_labels.len(),
                n <= 5,
                i <= n,
                badges.len() == i,
                forall|l: &'static str| has_badge.requires((l,)),
                forall|j: int| 0 <= j < i ==> has_badge.ensures((labels@[j],), #[trigger] badges[j]),
                forall|j: int| 0 <= j < n ==> #[trigger] labels@[j]@ == spec_labels[j],
                forall|j: int| 0 <= j < n ==> #[trigger] spec_labels[j].len() <= 13,
                match widest_menu_entry(spec_labels, badges, i as nat) {
                    None => widest is None,
                    Some(w) => widest == Some(w as u16) && 0 <= w <= 15,
                },
            decreases n - i,
        {
            let label = labels[i];
            let len = label.unicode_len();
            assert(label@ == spec_labels[i as int]);
            let flag = has_badge(label);
            proof {
                let old_badges = badges;
                badges = badges.push(flag);
                lemma_widest_prefix(spec_labels, old_badges, badges, i as nat);
            }
            let badge: u16 = if flag { 2 } else { 0 };
            let w: u16 = len as u16 + badge;
            widest = match widest {
                None => Some(w),
                Some(b) => Some(if w > b { w } else { b }),
            };
            i = i + 1;
        }
        proof {
            assert(labels@ == global_menu_label_strs(self.update_available is Some, self.latest_release_notes_available));
        }
        let content_width = match widest {
            Some(w) => w,
            None => 8,
        }.saturating_add(2);
        let screen_w = if screen.width == 0 { 1 } else { screen.width };
        let screen_h = if screen.height == 0 { 1 } else { screen.height };
        let menu_w = content_width.saturating_add(2).min(screen_w);
        let menu_h = (n as u16 + 2).min(screen_h);
        let max_x = screen.x + screen.width.saturating_sub(menu_w);
        let desired_x = launcher.x + launcher.width.saturating_sub(menu_w);
        let x = desired_x.min(max_x);
        let y = launcher.y.saturating_sub(menu_h);
        let r = Rect::new(x, y, menu_w, menu_h);
        proof {
            let strs = global_menu_label_strs(self.update_available is Some, self.latest_release_notes_available);
            assert(r == spec_global_menu_rect(screen, self.spec_global_launcher_rect(badge_visible), spec_labels, badges));
            assert(forall|j: int| 0 <= j < strs.len() ==> has_badge.ensures((strs[j],), #[trigger] badges[j]));
        }
        r
    }

    /// Whether `(col, row)` is on the sidebar divider; `toggle` is the expanded
    /// sidebar's collapse toggle, which is not part of the divider.
    pub fn on_sidebar_divider(&self, col: u16, row: u16, toggle: Rect) -> (b: bool)
        requires
            self.wf(),
            toggle.wf(),
        ensures
            b == spec_on_sidebar_divider(*self, col, row, toggle),
    {
        if self.sidebar_collapsed {
            return false;
        }
        let sidebar = self.view.sidebar_rect;
        let on_toggle = toggle.contains(col, row);
        sidebar.width > 0 && !on_toggle && col == sidebar.x + sidebar.width.saturating_sub(1) && row
            >= sidebar.y && row < sidebar.y + sidebar.height
    }

    /// Whether `(col, row)` is on the sidebar toggle: `collapsed_toggle` while
    /// the sidebar is collapsed, `expanded_toggle` otherwise.
    pub fn on_sidebar_toggle(&self, col: u16, row: u16, collapsed_toggle: Rect, expanded_toggle: Rect) -> (b: bool)
        requires
            collapsed_toggle.wf(),
            expanded_toggle.wf(),
        ensures
            b == (if self.sidebar_collapsed { collapsed_toggle } else { expanded_toggle }).spec_contains(
                col as int,
                row as int,
            ),
    {
        let rect = if self.sidebar_collapsed { collapsed_toggle } else { expanded_toggle };
        rect.contains(col, row)
    }

    /// Sets the sidebar width from a divider dragged to `divider_col`, clamped
    /// to the configured limits, and records the width as chosen by hand.
    pub fn set_manual_sidebar_width(&mut self, divider_col: u16)
        requires
            old(self).sidebar_min_width <= old(self).sidebar_max_width,
        ensures
            final(self).sidebar_width == spec_manual_sidebar_width(
                old(self).view.sidebar_rect.x,
                divider_col,
                old(self).sidebar_min_width,
                old(self).sidebar_max_width,
            ),
            old(self).sidebar_min_width <= final(self).sidebar_width <= old(self).sidebar_max_width,
            *final(self) == (AppState {
                sidebar_width: final(self).sidebar_width,
                sidebar_width_source: SidebarWidthSource::Manual,
                session_dirty: true,
                ..*old(self)
            }),
    {
        let sidebar = self.view.sidebar_rect;
        let width = divider_col.saturating_sub(sidebar.x).saturating_add(1);
        self.sidebar_width = if width < self.sidebar_min_width {
            self.sidebar_min_width
        } else if width > self.sidebar_max_width {
            self.sidebar_max_width
        } else {
            width
        };
        self.sidebar_width_source = SidebarWidthSource::Manual;
        self.mark_session_dirty();
    }

    /// Whether `(col, row)` is on the divider between the sidebar sections,
    /// whose rectangle is `divider`; never while the sidebar is collapsed.
    pub fn on_sidebar_section_divider(&self, col: u16, row: u16, divider: Rect) -> (b: bool)
        requires
            divider.wf(),
        ensures
            b == (!self.sidebar_collapsed && divider.spec_contains(col as int, row as int)),
    {
        if self.sidebar_collapsed {
            return false;
        }
        divider.contains(col, row)
    }

    /// The workspace under `row` of the workspace list: none, since the list
    /// section is hidden and workspaces are switched through the agent list.
    pub fn workspace_at_row(&self, row: u16) -> (r: Option<usize>)
        ensures
            r is None,
    {
        None
    }

    /// The workspace under `row` of the collapsed sidebar: none, since the spaces
    /// section is hidden.
    pub fn collapsed_workspace_at_row(&self, row: u16) -> (r: Option<usize>)
        ensures
            r is None,
    {
        None
    }

    /// The workspace the collapsed sidebar details: the selected one in the
    /// navigation-like modes, the active one otherwise.
    pub fn collapsed_detail_workspace_idx(&self) -> (r: Option<usize>)
        ensures
            r == (if mode_details_selection(self.mode) { Some(self.selected) } else { self.active }),
    {
        match self.mode {
            Mode::Navigate | Mode::RenameWorkspace | Mode::Resize | Mode::ConfirmClose
            | Mode::ContextMenu | Mode::Settings | Mode::GlobalMenu | Mode::KeybindHelp => Some(
                self.selected,
            ),
            _ => self.active,
        }
    }

    /// The agent targeted by a click on `row` of the collapsed sidebar, where each
    /// row but the last (the toggle) shows one of `entries`.
    pub fn collapsed_agent_detail_target_at(&self, row: u16, entries: &Vec<AgentDetail>) -> (r: Option<(usize, usize, u64)>)
        requires
            self.wf(),
        ensures
            r == ({
                let a = self.view.sidebar_rect;
                if !self.sidebar_collapsed || a.height == 0 || row < a.y || row >= a.y + a.height - 1
                    || row - a.y >= entries@.len() {
                    None
                } else {
                    let d = entries@[row - a.y];
                    Some((d.ws_idx, d.tab_idx, d.pane_id))
                }
            }),
    {
        if !self.sidebar_collapsed {
            return None;
        }
        let area = self.view.sidebar_rect;
        if area.height == 0 {
            return None;
        }
        let content_bottom = area.y + area.height.saturating_sub(1);
        if row < area.y || row >= content_bottom {
            return None;
        }
        let entry_idx = (row - area.y) as usize;
        if entry_idx >= entries.len() {
            return None;
        }
        let detail = entries[entry_idx];
        Some((detail.ws_idx, detail.tab_idx, detail.pane_id))
    }

    /// Whether `(col, row)` is on the agent panel's sort toggle, whose rectangle
    /// is `toggle`; never while the sidebar is collapsed.
    pub fn on_agent_panel_sort_toggle(&self, col: u16, row: u16, toggle: Rect) -> (b: bool)
        requires
            toggle.wf(),
        ensures
            b == (!self.sidebar_collapsed && toggle.spec_contains(col as int, row as int)),
    {
        if self.sidebar_collapsed {
            return false;
        }
        toggle.contains(col, row)
    }

    /// The agent targeted by a click on `row` of the expanded agent panel, whose
    /// body is `body` and whose entries, before scrolling, are `entries`.
    pub fn agent_detail_target_at(&self, row: u16, body: Rect, entries: &Vec<AgentDetail>) -> (r: Option<(usize, usize, u64)>)
        requires
            body.wf(),
        ensures
            r == (if self.sidebar_collapsed {
                None
            } else {
                match spec_agent_detail_at(body, row, self.agent_panel_scroll, entries@) {
                    None => None,
                    Some(d) => Some((d.ws_idx, d.tab_idx, d.pane_id)),
                }
            }),
    {
        if self.sidebar_collapsed {
            return None;
        }
        if body.height < 2 || row < body.y || row >= body.y + body.height {
            return None;
        }
        let bottom = body.y + body.height;
        let scroll = self.agent_panel_scroll;
        let n = entries.len();
        if scroll >= n {
            return None;
        }
        let mut row_y: u16 = body.y;
        let mut i: usize = scroll;
        proof {
            vstd::arithmetic::div_mod::lemma_fundamental_div_mod((row - body.y) as int, 3);
        }
        while i < n
            invariant
                body.wf(),
                bottom == body.y + body.height,
                body.height >= 2,
                body.y <= row < bottom,
                scroll <= i <= n,
                n == entries@.len(),
                row_y == agent_entry_row(body, i - scroll),
                row_y <= bottom,
                (row - body.y) / 3 >= i - scroll || (row - body.y) % 3 == 2,
                row - body.y == 3 * ((row - body.y) / 3) + (row - body.y) % 3,
                0 <= (row - body.y) % 3 < 3,
                !self.sidebar_collapsed,
                scroll == self.agent_panel_scroll,
            decreases n - i,
        {
            if row_y.saturating_add(1) >= bottom {
                proof {
                    let d = row - body.y;
                    let k = (i - scroll) as int;
                    if d % 3 != 2 {
                        assert(agent_entry_row(body, d / 3) >= agent_entry_row(body, k));
                    }
                }
                return None;
            }
            if row == row_y || row == row_y + 1 {
                proof {
                    let k = (i - scroll) as int;
                    let d = row - body.y;
                    vstd::arithmetic::div_mod::lemma_fundamental_div_mod_converse(d, 3, k, d - 3 * k);
                    assert(d / 3 == k);
                    assert(d % 3 < 2);
                    assert(agent_entry_row(body, k) + 1 < bottom);
                    assert(spec_agent_detail_at(body, row, scroll, entries@) == Some(entries@[i as int]));
                }
                let d = entries[i];
                return Some((d.ws_idx, d.tab_idx, d.pane_id));
            }
            row_y = row_y.saturating_add(2);
            if row_y < bottom {
                row_y = row_y.saturating_add(1);
            } else {
                proof {
                    assert(agent_entry_row(body, (i + 1 - scroll) as int) + 1 >= bottom);
                }
                return None;
            }
            i = i + 1;
        }
        None
    }
}

/// The worktree group of workspace `ws_idx`, if it exists and belongs to one.
pub open spec fn worktree_group(workspaces: Seq<Workspace>, ws_idx: usize) -> Option<Seq<char>> {
    if ws_idx < workspaces.len() {
        match workspaces[ws_idx as int].worktree_key {
            Some(k) => Some(k@),
            None => None,
        }
    } else {
        None
    }
}

/// Card `i` continues the worktree group of the card before it, so no drop
/// slot opens between them.
pub open spec fn inside_group_gap(cards: Seq<WorkspaceCardArea>, workspaces: Seq<Workspace>, i: int) -> bool {
    &&& i > 0
    &&& worktree_group(workspaces, cards[i].ws_idx) is Some
    &&& worktree_group(workspaces, cards[i].ws_idx) == worktree_group(workspaces, cards[i - 1].ws_idx)
}

/// The drop slots before the first `n` cards: before each card that does not
/// continue its predecessor's worktree group.
pub open spec fn drop_slots_before(cards: Seq<WorkspaceCardArea>, workspaces: Seq<Workspace>, n: nat) -> Seq<usize>
    decreases n,
{
    if n == 0 {
        Seq::empty()
    } else {
        let prev = drop_slots_before(cards, workspaces, (n - 1) as nat);
        if inside_group_gap(cards, workspaces, n - 1) {
            prev
        } else {
            prev.push(cards[n - 1].ws_idx)
        }
    }
}

/// Every insertion index a workspace can be dropped at: the slots before the
/// cards, then the one after the last card.
pub open spec fn drop_insert_indices(cards: Seq<WorkspaceCardArea>, workspaces: Seq<Workspace>) -> Seq<usize> {
    drop_slots_before(cards, workspaces, cards.len()).push((cards.last().ws_idx + 1) as usize)
}

/// The slots before the first `n` cards are the workspace indices of those cards
/// that do not continue their predecessor's worktree group.
proof fn lemma_drop_slot_members(cards: Seq<WorkspaceCardArea>, workspaces: Seq<Workspace>, n: nat, x: usize)
    requires
        n <= cards.len(),
    ensures
        drop_slots_before(cards, workspaces, n).contains(x) <==> exists|j: int|
            0 <= j < n && !inside_group_gap(cards, workspaces, j) && #[trigger] cards[j].ws_idx == x,
    decreases n,
{
    if n > 0 {
        lemma_drop_slot_members(cards, workspaces, (n - 1) as nat, x);
        let prev = drop_slots_before(cards, workspaces, (n - 1) as nat);
        if !inside_group_gap(cards, workspaces, n - 1) {
            let q = prev.push(cards[n - 1].ws_idx);
            assert(q.contains(x) <==> (prev.contains(x) || cards[n - 1].ws_idx == x)) by {
                if q.contains(x) {
                    let k = choose|k: int| 0 <= k < q.len() && q[k] == x;
                    if k < prev.len() {
                        assert(prev[k] == x);
                    }
                }
                if prev.contains(x) {
                    let k = choose|k: int| 0 <= k < prev.len() && prev[k] == x;
                    assert(q[k] == x);
                }
                if cards[n - 1].ws_idx == x {
                    assert(q[prev.len() as int] == x);
                }
            }
        }
        if exists|j: int| 0 <= j < n && !inside_group_gap(cards, workspaces, j) && #[trigger] cards[j].ws_idx == x {
            let j = choose|j: int| 0 <= j < n && !inside_group_gap(cards, workspaces, j) && #[trigger] cards[j].ws_idx == x;
            if j < n - 1 {
                assert(0 <= j < n - 1 && !inside_group_gap(cards, workspaces, j) && cards[j].ws_idx == x);
            }
        }
    }
}

/// Where a dragged workspace can be dropped: a slot opens before the first
/// card, before every card outside a worktree group, and before every card
/// whose group differs from the card above it; with the cards in workspace
/// order, no slot opens between two cards of one group; and the last slot is
/// after the last card.
pub proof fn lemma_drop_slots_open_between_groups(cards: Seq<WorkspaceCardArea>, workspaces: Seq<Workspace>, i: int)
    requires
        0 <= i < cards.len(),
    ensures
        i == 0 || worktree_group(workspaces, cards[i].ws_idx) is None || worktree_group(workspaces, cards[i].ws_idx)
            != worktree_group(workspaces, cards[i - 1].ws_idx) ==> drop_insert_indices(cards, workspaces).contains(
            cards[i].ws_idx,
        ),
        (forall|a: int, b: int| 0 <= a < b < cards.len() ==> cards[a].ws_idx < cards[b].ws_idx)
            && cards.last().ws_idx < usize::MAX && i > 0 && worktree_group(workspaces, cards[i].ws_idx) is Some && worktree_group(workspaces, cards[i].ws_idx)
            == worktree_group(workspaces, cards[i - 1].ws_idx) ==> !drop_insert_indices(cards, workspaces).contains(
            cards[i].ws_idx,
        ),
        cards.last().ws_idx < usize::MAX ==> drop_insert_indices(cards, workspaces).last() == cards.last().ws_idx + 1,
{
    let x = cards[i].ws_idx;
    let slots = drop_slots_before(cards, workspaces, cards.len());
    let all = drop_insert_indices(cards, workspaces);
    lemma_drop_slot_members(cards, workspaces, cards.len(), x);
    if i == 0 || worktree_group(workspaces, x) is None || worktree_group(workspaces, x) != worktree_group(
        workspaces,
        cards[i - 1].ws_idx,
    ) {
        assert(!inside_group_gap(cards, workspaces, i));
        assert(slots.contains(x));
        let k = choose|k: int| 0 <= k < slots.len() && slots[k] == x;
        assert(all[k] == x);
    }
    if (forall|a: int, b: int| 0 <= a < b < cards.len() ==> cards[a].ws_idx < cards[b].ws_idx)
        && cards.last().ws_idx < usize::MAX && i > 0 && worktree_group(workspaces, x) is Some && worktree_group(workspaces, x) == worktree_group(
        workspaces,
        cards[i - 1].ws_idx,
    ) {
        assert(inside_group_gap(cards, workspaces, i));
        if slots.contains(x) {
            let j = choose|j: int| 0 <= j < cards.len() && !inside_group_gap(cards, workspaces, j) && #[trigger] cards[j].ws_idx == x;
            if j < i {
                assert(cards[j].ws_idx < cards[i].ws_idx);
            } else if j > i {
                assert(cards[i].ws_idx < cards[j].ws_idx);
            }
        }
        if all.contains(x) {
            let k = choose|k: int| 0 <= k < all.len() && all[k] == x;
            if k < slots.len() {
                assert(slots[k] == x);
            } else {
                if i < cards.len() - 1 {
                    assert(cards[i].ws_idx < cards[cards.len() - 1].ws_idx);
                }
            }
        }
    }
}

/// The row of the drop indicator for insertion index `i`, if it is shown.
pub open spec fn slot_row(slot_rows: Seq<Option<u16>>, i: usize) -> Option<u16> {
    if i < slot_rows.len() { slot_rows[i as int] } else { None }
}

/// The distance between two rows.
pub open spec fn row_distance(a: u16, b: u16) -> int {
    if a >= b { a - b } else { b - a }
}

/// The nearest drop slot among the first `n` candidates, with its distance to
/// `row`; a later candidate replaces the best one when it is nearer, or as near
/// with an insertion index that is not smaller.
pub open spec fn nearest_slot(cands: Seq<usize>, slot_rows: Seq<Option<u16>>, row: u16, n: nat) -> Option<(usize, int)>
    decreases n,
{
    if n == 0 {
        None
    } else {
        let best = nearest_slot(cands, slot_rows, row, (n - 1) as nat);
        let c = cands[n - 1];
        match slot_row(slot_rows, c) {
            None => best,
            Some(r) => {
                let d = row_distance(row, r);
                match best {
                    Some((bi, bd)) => if d > bd || (d == bd && c < bi) {
                        best
                    } else {
                        Some((c, d))
                    },
                    None => Some((c, d)),
                }
            },
        }
    }
}

/// The nearest slot is a candidate with a shown indicator, no candidate with a
/// shown indicator is nearer, and no equally near one has a larger index.
pub proof fn lemma_nearest_slot_is_nearest(cands: Seq<usize>, slot_rows: Seq<Option<u16>>, row: u16, n: nat)
    requires
        n <= cands.len(),
    ensures
        match nearest_slot(cands, slot_rows, row, n) {
            None => forall|j: int| 0 <= j < n ==> slot_row(slot_rows, #[trigger] cands[j]) is None,
            Some((bi, bd)) => {
                &&& exists|j: int| 0 <= j < n && cands[j] == bi
                &&& slot_row(slot_rows, bi) matches Some(r) && bd == row_distance(row, r)
                &&& forall|j: int| 0 <= j < n ==> (slot_row(slot_rows, #[trigger] cands[j]) matches Some(r)
                    ==> (bd < row_distance(row, r) || (bd == row_distance(row, r) && cands[j] <= bi)))
            },
        },
    decreases n,
{
    if n > 0 {
        lemma_nearest_slot_is_nearest(cands, slot_rows, row, (n - 1) as nat);
        match nearest_slot(cands, slot_rows, row, (n - 1) as nat) {
            None => {},
            Some((bi, bd)) => {
                let j0 = choose|j: int| 0 <= j < n - 1 && cands[j] == bi;
                assert(0 <= j0 < n && cands[j0] == bi);
            },
        }
        match nearest_slot(cands, slot_rows, row, n) {
            None => {},
            Some((bi, bd)) => {
                if bi == cands[n - 1] {
                    assert(cands[n - 1] == bi);
                }
            },
        }
    }
}

/// The insertion index a workspace dropped at `row` lands at: the slot whose
/// indicator is nearest to `row` (the largest such index on a tie), or zero for
/// an empty list; nothing when `row` is outside the list.
pub open spec fn spec_workspace_drop_index(
    list_area: Rect,
    footer: Rect,
    row: u16,
    cards: Seq<WorkspaceCardArea>,
    workspaces: Seq<Workspace>,
    slot_rows: Seq<Option<u16>>,
) -> Option<usize> {
    if (list_area.x == 0 && list_area.y == 0 && list_area.width == 0 && list_area.height == 0)
        || row < list_area.y || row >= footer.y {
        None
    } else if cards.len() == 0 {
        Some(0)
    } else {
        let cands = drop_insert_indices(cards, workspaces);
        match nearest_slot(cands, slot_rows, row, cands.len()) {
            Some((i, _)) => Some(i),
            None => None,
        }
    }
}

impl AppState {
    /// The worktree group key of workspace `ws_idx`, if any.
    fn worktree_group_of(&self, ws_idx: usize) -> (r: Option<&String>)
        ensures
            match r {
                Some(k) => worktree_group(self.workspaces@, ws_idx) == Some(k@),
                None => worktree_group(self.workspaces@, ws_idx) is None,
            },
    {
        if ws_idx < self.workspaces.len() {
            match &self.workspaces[ws_idx].worktree_key {
                Some(k) => Some(k),
                None => None,
            }
        } else {
            None
        }
    }

    /// The insertion index for a workspace dragged to `row` of the workspace
    /// list. `list_split_area` is the list's share of the sidebar; the cards are
    /// those of the last layout pass, or `computed_cards` when that pass laid out
    /// none; `slot_rows[i]` is the row of the drop indicator for insertion index
    /// `i` (indices past its end show none).
    pub fn workspace_drop_index_at_row(
        &self,
        row: u16,
        list_split_area: Rect,
        computed_cards: &Vec<WorkspaceCardArea>,
        slot_rows: &Vec<Option<u16>>,
    ) -> (r: Option<usize>)
        requires
            self.wf(),
            forall|i: int| 0 <= i < self.view.workspace_card_areas@.len()
                ==> #[trigger] self.view.workspace_card_areas@[i].ws_idx < usize::MAX,
            forall|i: int| 0 <= i < computed_cards@.len() ==> #[trigger] computed_cards@[i].ws_idx < usize::MAX,
        ensures
            r == spec_workspace_drop_index(
                if self.sidebar_sections_visible() { list_split_area } else { Rect::spec_new(0, 0, 0, 0) },
                self.spec_sidebar_footer_rect(),
                row,
                if self.view.workspace_card_areas@.len() == 0 { computed_cards@ } else { self.view.workspace_card_areas@ },
                self.workspaces@,
                slot_rows@,
            ),
    {
        let area = self.workspace_list_rect(list_split_area);
        let footer = self.sidebar_footer_rect();
        if area.is_default() || row < area.y || row >= footer.y {
            return None;
        }
        let cards: &Vec<WorkspaceCardArea> = if self.view.workspace_card_areas.len() == 0 {
            computed_cards
        } else {
            &self.view.workspace_card_areas
        };
        let n = cards.len();
        if n == 0 {
            return Some(0);
        }
        let ghost ws = self.workspaces@;
        let mut insert_indices: Vec<usize> = Vec::new();
        let mut idx: usize = 0;
        while idx < n
            invariant
                n == cards@.len(),
                idx <= n,
                insert_indices@ == drop_slots_before(cards@, ws, idx as nat),
                ws == self.workspaces@,
            decreases n - idx,
        {
            let card_group = self.worktree_group_of(cards[idx].ws_idx);
            let in_gap = if idx > 0 {
                let previous_group = self.worktree_group_of(cards[idx - 1].ws_idx);
                match (card_group, previous_group) {
                    (Some(a), Some(b)) => *a == *b,
                    _ => false,
                }
            } else {
                false
            };
            assert(in_gap == inside_group_gap(cards@, ws, idx as int));
            if !in_gap {
                insert_indices.push(cards[idx].ws_idx);
            }
            idx = idx + 1;
        }
        insert_indices.push(cards[n - 1].ws_idx + 1);
        assert(insert_indices@ == drop_insert_indices(cards@, ws));
        let ghost cands = insert_indices@;
        let m = insert_indices.len();
        let mut best: Option<(usize, u16)> = None;
        let mut j: usize = 0;
        while j < m
            invariant
                m == cands.len(),
                cands == insert_indices@,
                j <= m,
                match nearest_slot(cands, slot_rows@, row, j as nat) {
                    None => best is None,
                    Some((bi, bd)) => best matches Some((b0, b1)) && b0 == bi && b1 == bd,
                },
            decreases m - j,
        {
            let insert_idx = insert_indices[j];
            let slot = if insert_idx < slot_rows.len() { slot_rows[insert_idx] } else { None };
            match slot {
                None => {},
                Some(slot_row) => {
                    let distance: u16 = if row >= slot_row { row - slot_row } else { slot_row - row };
                    match best {
                        Some((best_idx, best_distance)) => {
                            if distance > best_distance || (distance == best_distance && insert_idx < best_idx) {
                            } else {
                                best = Some((insert_idx, distance));
                            }
                        },
                        None => {
                            best = Some((insert_idx, distance));
                        },
                    }
                },
            }
            j = j + 1;
        }
        match best {
            Some((i, _)) => Some(i),
            None => None,
        }
    }
}

/// Scrolling keeps the position within the largest offset once it is there:
/// a step down is capped, and a step up only lowers it.
pub proof fn lemma_scroll_stays_in_range(scroll: usize, delta: i16, max_offset: usize)
    requires
        scroll <= max_offset,
    ensures
        AppState::spec_scrolled(scroll, delta, max_offset) <= max_offset,
{
}

/// A step down that the largest offset does not cap is undone by the same
/// step up.
pub proof fn lemma_scroll_down_then_up(scroll: usize, delta: i16, max_offset: usize)
    requires
        0 <= delta,
        scroll + delta <= max_offset,
    ensures
        AppState::spec_scrolled(AppState::spec_scrolled(scroll, delta, max_offset), (-delta) as i16, max_offset) == scroll,
{
}

/// A click on either row of a visible agent entry targets that entry, and the
/// blank row after it targets nothing: the hit-test agrees with the drawn
/// layout of two-row entries separated by one blank row.
pub proof fn lemma_agent_entry_rows_hit(body: Rect, scroll: usize, entries: Seq<AgentDetail>, k: int)
    requires
        body.wf(),
        body.height >= 2,
        0 <= k,
        scroll + k < entries.len(),
        agent_entry_row(body, k) + 1 < body.y + body.height,
    ensures
        spec_agent_detail_at(body, agent_entry_row(body, k) as u16, scroll, entries) == Some(entries[scroll + k]),
        spec_agent_detail_at(body, (agent_entry_row(body, k) + 1) as u16, scroll, entries) == Some(entries[scroll + k]),
        agent_entry_row(body, k) + 2 < body.y + body.height ==> spec_agent_detail_at(
            body,
            (agent_entry_row(body, k) + 2) as u16,
            scroll,
            entries,
        ) is None,
{
    vstd::arithmetic::div_mod::lemma_fundamental_div_mod_converse(3 * k, 3, k, 0);
    vstd::arithmetic::div_mod::lemma_fundamental_div_mod_converse(3 * k + 1, 3, k, 1);
    vstd::arithmetic::div_mod::lemma_fundamental_div_mod_converse(3 * k + 2, 3, k, 2);
}

/// A workspace dropped inside the list lands at one of the insertion slots
/// whose indicator is shown, and no shown slot is nearer to the drop row (an
/// equally near one has a smaller index).
pub proof fn lemma_drop_lands_at_nearest_slot(
    list_area: Rect,
    footer: Rect,
    row: u16,
    cards: Seq<WorkspaceCardArea>,
    workspaces: Seq<Workspace>,
    slot_rows: Seq<Option<u16>>,
    i: usize,
)
    requires
        cards.len() > 0,
        spec_workspace_drop_index(list_area, footer, row, cards, workspaces, slot_rows) == Some(i),
    ensures
        ({
            let cands = drop_insert_indices(cards, workspaces);
            &&& exists|j: int| 0 <= j < cands.len() && cands[j] == i
            &&& slot_row(slot_rows, i) is Some
            &&& forall|j: int| 0 <= j < cands.len() ==> (slot_row(slot_rows, #[trigger] cands[j]) matches Some(r)
                ==> (row_distance(row, slot_row(slot_rows, i)->0) < row_distance(row, r)
                    || (row_distance(row, slot_row(slot_rows, i)->0) == row_distance(row, r) && cands[j] <= i)))
        }),
{
    lemma_nearest_slot_is_nearest(drop_insert_indices(cards, workspaces), slot_rows, row, drop_insert_indices(cards, workspaces).len());
}

} // verus!
