use herdr::geometry::Rect;
use herdr::headroom::{App, ProxyCommand, DIAGNOSTIC_SECONDS};
use herdr::state::AppState;

fn app() -> App {
    App::new(AppState::new(Rect::new(0, 0, 26, 20), 26, 10, 60))
}

#[test]
fn toggle_spawns_then_kills() {
    let mut a = app();
    assert_eq!(a.toggle_headroom_proxy(), ProxyCommand::Spawn);
    assert!(!a.state.headroom_proxy_running);
    assert_eq!(a.headroom_proxy_spawned(Ok(())), None);
    assert!(a.state.headroom_proxy_running);
    assert!(a.headroom_proxy_child);
    assert_eq!(a.toggle_headroom_proxy(), ProxyCommand::KillAndWait);
    assert!(!a.state.headroom_proxy_running);
    assert!(!a.headroom_proxy_child);
}

#[test]
fn failed_spawn_shows_diagnostic() {
    let mut a = app();
    assert_eq!(a.toggle_headroom_proxy(), ProxyCommand::Spawn);
    let shown = a.headroom_proxy_spawned(Err("No such file or directory (os error 2)".to_string()));
    assert_eq!(shown, Some(DIAGNOSTIC_SECONDS));
    assert_eq!(
        a.state.config_diagnostic.as_deref(),
        Some("failed to start headroom proxy: No such file or directory (os error 2)")
    );
    assert!(!a.state.headroom_proxy_running);
    assert!(!a.headroom_proxy_child);
}

#[test]
fn start_if_needed_only_when_not_tracked() {
    let mut a = app();
    assert_eq!(a.start_headroom_proxy_if_needed(), ProxyCommand::Spawn);
    a.headroom_proxy_spawned(Ok(()));
    assert_eq!(a.start_headroom_proxy_if_needed(), ProxyCommand::Nothing);
    assert!(a.state.headroom_proxy_running);
}

#[test]
fn poll_clears_exited_proxy() {
    let mut a = app();
    a.headroom_proxy_spawned(Ok(()));
    a.poll_headroom_proxy(false);
    assert!(a.state.headroom_proxy_running);
    a.poll_headroom_proxy(true);
    assert!(!a.state.headroom_proxy_running);
    assert!(!a.headroom_proxy_child);
    a.poll_headroom_proxy(true);
    assert!(!a.headroom_proxy_child);
}
