use herdr::geometry::Rect;
use herdr::sidebar::ScrollbarClickTarget;
use herdr::state::{
    AgentDetail, AppState, Mode, SidebarWidthSource, ViewLayout, Workspace, WorkspaceCardArea,
};

fn app() -> AppState {
    AppState::new(Rect::new(0, 0, 26, 20), 26, 10, 60)
}

fn detail(ws_idx: usize, tab_idx: usize, pane_id: u64) -> AgentDetail {
    AgentDetail { ws_idx, tab_idx, pane_id }
}

fn workspace(key: Option<&str>) -> Workspace {
    Workspace { tabs: Vec::new(), active_tab: 0, worktree_key: key.map(|k| k.to_string()) }
}

fn card(ws_idx: usize) -> WorkspaceCardArea {
    WorkspaceCardArea { ws_idx, rect: Rect::new(0, 0, 0, 0) }
}

#[test]
fn whats_new_remains_in_menu_for_latest_installed_release_notes() {
    let mut state = app();
    state.latest_release_notes_available = true;
    assert_eq!(
        state.global_menu_labels(),
        vec!["settings", "keybinds", "reload config", "what's new", "detach"]
    );
}

#[test]
fn update_pending_menu_surfaces_update_ready_entry() {
    let mut state = app();
    state.update_available = Some("0.3.2".into());
    state.latest_release_notes_available = true;
    assert_eq!(
        state.global_menu_labels(),
        vec!["settings", "keybinds", "reload config", "update ready", "detach"]
    );
}

#[test]
fn persistence_mode_menu_surfaces_detach_action() {
    let state = app();
    assert_eq!(state.global_menu_labels(), vec!["settings", "keybinds", "reload config", "detach"]);
}

#[test]
fn menu_button_is_on_same_row_as_collapse_toggle_and_to_its_left() {
    let state = app();
    let sidebar = state.view.sidebar_rect;
    let launcher = state.global_launcher_rect(false);
    // The collapse toggle starts two columns before the sidebar's right edge on its last row.
    let toggle_x = sidebar.x + sidebar.width - 2;
    let toggle_y = sidebar.y + sidebar.height - 1;
    assert_eq!(launcher.y, toggle_y, "menu and toggle must share the last row");
    assert!(launcher.x + launcher.width <= toggle_x, "menu must end before the toggle starts");
    assert!(launcher.width > 0);
}

#[test]
fn dragging_sidebar_divider_sets_manual_width() {
    let mut state = app();
    state.set_manual_sidebar_width(30);
    assert_eq!(state.sidebar_width, 31);
    assert_eq!(state.sidebar_width_source, SidebarWidthSource::Manual);
    assert!(state.session_dirty);
}

#[test]
fn dragging_sidebar_bottom_divider_still_sets_manual_width() {
    let mut state = app();
    let divider_col = state.view.sidebar_rect.x + state.view.sidebar_rect.width - 1;
    state.set_manual_sidebar_width(divider_col + 5);
    assert_eq!(state.sidebar_width, 31);
}

#[test]
fn dragging_past_max_clamps_to_configured_max() {
    let mut state = app();
    state.sidebar_max_width = 30;
    state.set_manual_sidebar_width(50);
    assert_eq!(state.sidebar_width, 30);
}

#[test]
fn dragging_below_min_clamps_to_configured_min() {
    let mut state = app();
    state.sidebar_min_width = 22;
    state.set_manual_sidebar_width(5);
    assert_eq!(state.sidebar_width, 22);
}

#[test]
fn launcher_widens_with_badge_and_follows_mobile_area() {
    let mut state = app();
    assert_eq!(state.global_launcher_rect(false), Rect::new(18, 19, 6, 1));
    assert_eq!(state.global_launcher_rect(true), Rect::new(16, 19, 8, 1));
    state.view.sidebar_rect = Rect::new(0, 0, 7, 20);
    assert_eq!(state.global_launcher_rect(true), Rect::new(0, 19, 5, 1));
    state.sidebar_collapsed = true;
    assert_eq!(state.global_launcher_rect(true), Rect::new(0, 0, 0, 0));
    state.view.layout = ViewLayout::Mobile;
    state.view.mobile_menu_hit_area = Rect::new(3, 4, 5, 1);
    assert_eq!(state.global_launcher_rect(false), Rect::new(3, 4, 5, 1));
}

#[test]
fn global_menu_sits_above_launcher_and_on_screen() {
    let state = app();
    let screen = Rect::new(0, 0, 100, 30);
    // Widest label "reload config" (13) + 2 margin + 2 border = 17; 4 labels + 2 rows;
    // left-aligned with the launcher when wider than it, directly above it.
    let menu = state.global_menu_rect(screen, false, |_: &'static str| false);
    assert_eq!(menu, Rect::new(18, 13, 17, 6));
    let badged = state.global_menu_rect(screen, false, |l: &'static str| l == "reload config");
    assert_eq!(badged.width, 19);
    let narrow = state.global_menu_rect(Rect::new(0, 0, 10, 3), false, |_: &'static str| false);
    assert_eq!(narrow, Rect::new(0, 16, 10, 3));
}

#[test]
fn footer_and_new_button() {
    let mut state = app();
    assert_eq!(state.sidebar_footer_rect(), Rect::new(0, 18, 25, 1));
    assert_eq!(state.sidebar_new_button_rect(), Rect::new(0, 18, 5, 1));
    state.view.sidebar_rect = Rect::new(2, 3, 1, 10);
    assert_eq!(state.sidebar_footer_rect(), Rect::new(0, 0, 0, 0));
    assert_eq!(state.sidebar_new_button_rect(), Rect::new(0, 0, 1, 0));
}

#[test]
fn agent_panel_rect_reserves_footer_row() {
    let mut state = app();
    assert_eq!(state.agent_panel_rect(), Rect::new(0, 0, 26, 19));
    state.sidebar_collapsed = true;
    assert_eq!(state.agent_panel_rect(), Rect::new(0, 0, 0, 0));
}

#[test]
fn workspace_list_rect_is_hidden_when_collapsed() {
    let mut state = app();
    let split = Rect::new(0, 0, 26, 8);
    assert_eq!(state.workspace_list_rect(split), split);
    state.sidebar_collapsed = true;
    assert_eq!(state.workspace_list_rect(split), Rect::new(0, 0, 0, 0));
}

#[test]
fn divider_toggle_and_section_divider_hits() {
    let mut state = app();
    let toggle = Rect::new(24, 19, 2, 1);
    assert!(state.on_sidebar_divider(25, 5, toggle));
    assert!(!state.on_sidebar_divider(25, 19, toggle));
    assert!(!state.on_sidebar_divider(24, 5, toggle));
    assert!(!state.on_sidebar_divider(25, 20, toggle));
    assert!(state.on_sidebar_toggle(24, 19, Rect::new(0, 19, 4, 1), toggle));
    assert!(!state.on_sidebar_toggle(1, 19, Rect::new(0, 19, 4, 1), toggle));
    let divider = Rect::new(0, 8, 25, 1);
    assert!(state.on_sidebar_section_divider(3, 8, divider));
    assert!(state.on_agent_panel_sort_toggle(3, 8, divider));
    state.sidebar_collapsed = true;
    assert!(!state.on_sidebar_divider(25, 5, toggle));
    assert!(state.on_sidebar_toggle(1, 19, Rect::new(0, 19, 4, 1), toggle));
    assert!(!state.on_sidebar_section_divider(3, 8, divider));
    assert!(!state.on_agent_panel_sort_toggle(3, 8, divider));
}

#[test]
fn scrollbar_targets() {
    let state = app();
    let track = Some(Rect::new(25, 1, 1, 10));
    assert_eq!(state.workspace_list_scrollbar_target_at(25, 3, None, None, 4), None);
    assert_eq!(state.workspace_list_scrollbar_target_at(24, 3, track, None, 4), None);
    assert_eq!(state.workspace_list_scrollbar_target_at(25, 11, track, None, 4), None);
    assert_eq!(
        state.workspace_list_scrollbar_target_at(25, 3, track, Some(2), 4),
        Some(ScrollbarClickTarget::Thumb { grab_row_offset: 2 })
    );
    assert_eq!(
        state.agent_panel_scrollbar_target_at(25, 10, track, None, 7),
        Some(ScrollbarClickTarget::Track { offset_from_bottom: 7 })
    );
    assert_eq!(state.workspace_list_offset_for_drag_row(track, 5), Some(5));
    assert_eq!(state.agent_panel_offset_for_drag_row(None, 5), None);
}

#[test]
fn scrolling_agent_panel_saturates_and_caps() {
    let mut state = app();
    state.scroll_agent_panel(1, 3);
    assert_eq!(state.agent_panel_scroll, 1);
    state.scroll_agent_panel(10, 3);
    assert_eq!(state.agent_panel_scroll, 3);
    state.scroll_agent_panel(-2, 3);
    assert_eq!(state.agent_panel_scroll, 1);
    state.scroll_agent_panel(-5, 3);
    assert_eq!(state.agent_panel_scroll, 0);
    state.scroll_agent_panel(i16::MIN, 3);
    assert_eq!(state.agent_panel_scroll, 0);
    state.set_agent_panel_offset_from_bottom(1, 3);
    assert_eq!(state.agent_panel_scroll, 2);
    state.set_agent_panel_offset_from_bottom(9, 3);
    assert_eq!(state.agent_panel_scroll, 0);
}

#[test]
fn scrolling_down_then_up_returns() {
    let mut state = app();
    state.agent_panel_scroll = 2;
    state.scroll_agent_panel(3, 10);
    state.scroll_agent_panel(-3, 10);
    assert_eq!(state.agent_panel_scroll, 2);
}

#[test]
fn workspace_scroll_is_normalized() {
    let mut state = app();
    state.scroll_workspace_list(5, 4, |s| s);
    assert_eq!(state.workspace_scroll, 4);
    state.scroll_workspace_list(-1, 4, |s| s * 10);
    assert_eq!(state.workspace_scroll, 30);
    state.set_workspace_list_offset_from_bottom(1, 6, |s| s + 1);
    assert_eq!(state.workspace_scroll, 6);
}

#[test]
fn placeholder_row_lookups_find_nothing() {
    let state = app();
    assert_eq!(state.workspace_at_row(3), None);
    assert_eq!(state.collapsed_workspace_at_row(3), None);
}

#[test]
fn collapsed_detail_workspace_follows_mode() {
    let mut state = app();
    state.selected = 2;
    state.active = Some(1);
    state.mode = Mode::GlobalMenu;
    assert_eq!(state.collapsed_detail_workspace_idx(), Some(2));
    state.mode = Mode::Terminal;
    assert_eq!(state.collapsed_detail_workspace_idx(), Some(1));
}

#[test]
fn collapsed_agent_rows_map_to_entries() {
    let mut state = app();
    let entries = vec![detail(0, 0, 10), detail(0, 1, 11)];
    assert_eq!(state.collapsed_agent_detail_target_at(1, &entries), None);
    state.sidebar_collapsed = true;
    state.view.sidebar_rect = Rect::new(0, 0, 4, 20);
    assert_eq!(state.collapsed_agent_detail_target_at(1, &entries), Some((0, 1, 11)));
    assert_eq!(state.collapsed_agent_detail_target_at(2, &entries), None);
    assert_eq!(state.collapsed_agent_detail_target_at(19, &entries), None);
}

#[test]
fn agent_detail_rows_take_two_lines_and_a_gap() {
    let mut state = app();
    let body = Rect::new(0, 2, 25, 8);
    let entries = vec![detail(0, 0, 1), detail(0, 1, 2), detail(1, 0, 3), detail(1, 1, 4)];
    assert_eq!(state.agent_detail_target_at(2, body, &entries), Some((0, 0, 1)));
    assert_eq!(state.agent_detail_target_at(3, body, &entries), Some((0, 0, 1)));
    assert_eq!(state.agent_detail_target_at(4, body, &entries), None);
    assert_eq!(state.agent_detail_target_at(5, body, &entries), Some((0, 1, 2)));
    assert_eq!(state.agent_detail_target_at(8, body, &entries), Some((1, 0, 3)));
    assert_eq!(state.agent_detail_target_at(9, body, &entries), Some((1, 0, 3)));
    assert_eq!(state.agent_detail_target_at(1, body, &entries), None);
    state.agent_panel_scroll = 1;
    assert_eq!(state.agent_detail_target_at(2, body, &entries), Some((0, 1, 2)));
    let short = Rect::new(0, 2, 25, 7);
    assert_eq!(state.agent_detail_target_at(8, short, &entries), None);
    state.sidebar_collapsed = true;
    assert_eq!(state.agent_detail_target_at(2, body, &entries), None);
}

#[test]
fn drop_index_picks_nearest_slot_outside_groups() {
    let mut state = app();
    state.workspaces = vec![workspace(None), workspace(Some("g")), workspace(Some("g")), workspace(None)];
    state.view.workspace_card_areas = vec![card(0), card(1), card(2), card(3)];
    let split = Rect::new(0, 0, 25, 12);
    // Indicator rows for insertion indices 0..=4.
    let slots = vec![Some(0), Some(3), Some(6), Some(9), Some(12)];
    assert_eq!(state.workspace_drop_index_at_row(1, split, &Vec::new(), &slots), Some(0));
    // Index 2 is inside the group of workspaces 1 and 2, so row 6 goes to 1 or 3.
    assert_eq!(state.workspace_drop_index_at_row(6, split, &Vec::new(), &slots), Some(3));
    assert_eq!(state.workspace_drop_index_at_row(5, split, &Vec::new(), &slots), Some(1));
    assert_eq!(state.workspace_drop_index_at_row(11, split, &Vec::new(), &slots), Some(4));
    assert_eq!(state.workspace_drop_index_at_row(18, split, &Vec::new(), &slots), None);
    assert_eq!(state.workspace_drop_index_at_row(4, Rect::new(0, 0, 0, 0), &Vec::new(), &slots), None);
}

#[test]
fn drop_index_on_empty_list_and_fallback_cards() {
    let mut state = app();
    let split = Rect::new(0, 0, 25, 12);
    assert_eq!(state.workspace_drop_index_at_row(3, split, &Vec::new(), &Vec::new()), Some(0));
    state.workspaces = vec![workspace(None)];
    let slots = vec![None, Some(4)];
    assert_eq!(state.workspace_drop_index_at_row(1, split, &vec![card(0)], &slots), Some(1));
    assert_eq!(state.workspace_drop_index_at_row(1, split, &vec![card(0)], &Vec::new()), None);
}
