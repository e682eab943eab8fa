//! Lifecycle of the background `headroom proxy` process, toggled from the
//! global menu and optionally started at startup. The process itself is
//! spawned, killed and polled outside the library; these methods decide what
//! to do and keep the state in step with the outcome.

use vstd::prelude::*;
use crate::state::AppState;

verus! {

/// How long a failure to start the proxy stays on screen, in seconds.
pub const DIAGNOSTIC_SECONDS: u64 = 5;

/// What to do to the proxy process.
#[derive(Debug, Clone, Copy, PartialEq, Eq, Structural)]
pub enum ProxyCommand {
    /// Nothing.
    Nothing,
    /// Kill the tracked process and wait for it.
    KillAndWait,
    /// Spawn a new process and report the outcome to `headroom_proxy_spawned`.
    Spawn,
}

/// The application: its state and whether a proxy process is tracked.
#[derive(Debug, Clone)]
pub struct App {
    pub state: AppState,
    /// A proxy process started by this application is tracked.
    pub headroom_proxy_child: bool,
}

/// The message shown when the proxy could not be started.
pub open spec fn spawn_failure_message(err: Seq<char>) -> Seq<char> {
    "failed to start headroom proxy: "@ + err
}

/// The application after toggling the proxy, and what to do to the process:
/// a tracked proxy is killed and forgotten; otherwise one is to be spawned.
pub open spec fn spec_toggle(a: App) -> (App, ProxyCommand) {
    if a.headroom_proxy_child {
        (
            App {
                state: AppState { headroom_proxy_running: false, ..a.state },
                headroom_proxy_child: false,
            },
            ProxyCommand::KillAndWait,
        )
    } else {
        (a, ProxyCommand::Spawn)
    }
}

/// The application after a successful spawn: the proxy is tracked and running.
pub open spec fn spec_spawned_ok(a: App) -> App {
    App { state: AppState { headroom_proxy_running: true, ..a.state }, headroom_proxy_child: true }
}

/// The application after its proxy was found to have exited (or not).
pub open spec fn spec_poll(a: App, exited: bool) -> App {
    if a.headroom_proxy_child && exited {
        App { state: AppState { headroom_proxy_running: false, ..a.state }, headroom_proxy_child: false }
    } else {
        a
    }
}

/// Toggling the proxy on (with a successful spawn) and off again returns the
/// application to where it was.
pub proof fn lemma_toggle_on_then_off(a: App)
    requires
        a.wf(),
        !a.headroom_proxy_child,
    ensures
        spec_toggle(a).1 == ProxyCommand::Spawn,
        spec_toggle(spec_spawned_ok(spec_toggle(a).0)).1 == ProxyCommand::KillAndWait,
        spec_toggle(spec_spawned_ok(spec_toggle(a).0)).0 == a,
{
    assert(spec_toggle(spec_spawned_ok(spec_toggle(a).0)).0.state =~= a.state);
}

/// Every step keeps the running flag in agreement with the tracked process.
pub proof fn lemma_steps_keep_running_flag(a: App, exited: bool)
    requires
        a.wf(),
    ensures
        spec_toggle(a).0.wf(),
        spec_spawned_ok(a).wf(),
        spec_poll(a, exited).wf(),
{
}

impl App {
    /// The running flag shown in the menu agrees with the tracked process.
    pub open spec fn wf(&self) -> bool {
        self.state.headroom_proxy_running == self.headroom_proxy_child
    }

    /// An application over `state` with no tracked proxy.
    pub fn new(state: AppState) -> (a: App)
        ensures
            a.state == (AppState { headroom_proxy_running: false, ..state }),
            !a.headroom_proxy_child,
            a.wf(),
    {
        let mut state = state;
        state.headroom_proxy_running = false;
        App { state, headroom_proxy_child: false }
    }

    /// Stops the proxy if one is tracked (no longer tracked, not running);
    /// otherwise asks for one to be spawned.
    pub fn toggle_headroom_proxy(&mut self) -> (c: ProxyCommand)
        ensures
            (*final(self), c) == spec_toggle(*old(self)),
    {
        if self.headroom_proxy_child {
            self.headroom_proxy_child = false;
            self.state.headroom_proxy_running = false;
            return ProxyCommand::KillAndWait;
        }
        ProxyCommand::Spawn
    }

    /// Records the outcome of spawning the proxy: on success it is tracked and
    /// running; on failure the error is shown, for the returned number of
    /// seconds.
    pub fn headroom_proxy_spawned(&mut self, result: Result<(), String>) -> (show_for: Option<u64>)
        ensures
            match result {
                Ok(()) => {
                    &&& *final(self) == spec_spawned_ok(*old(self))
                    &&& show_for is None
                },
                Err(e) => {
                    &&& final(self).headroom_proxy_child == old(self).headroom_proxy_child
                    &&& final(self).state.config_diagnostic matches Some(d) && d@ == spawn_failure_message(e@)
                    &&& final(self).state == (AppState {
                        config_diagnostic: final(self).state.config_diagnostic,
                        ..old(self).state
                    })
                    &&& show_for == Some(DIAGNOSTIC_SECONDS)
                },
            },
            old(self).wf() ==> final(self).wf(),
    {
        match result {
            Ok(()) => {
                self.headroom_proxy_child = true;
                self.state.headroom_proxy_running = true;
                None
            },
            Err(e) => {
                let mut msg = String::from_str("failed to start headroom proxy: ");
                msg.append(e.as_str());
                self.state.config_diagnostic = Some(msg);
                Some(DIAGNOSTIC_SECONDS)
            },
        }
    }

    /// Starts the proxy unless one is already tracked.
    pub fn start_headroom_proxy_if_needed(&mut self) -> (c: ProxyCommand)
        ensures
            old(self).headroom_proxy_child ==> c == ProxyCommand::Nothing && *final(self) == *old(self),
            !old(self).headroom_proxy_child ==> c == ProxyCommand::Spawn && *final(self) == *old(self),
    {
        if self.headroom_proxy_child {
            return ProxyCommand::Nothing;
        }
        self.toggle_headroom_proxy()
    }

    /// Forgets the tracked proxy when it has exited on its own.
    pub fn poll_headroom_proxy(&mut self, exited: bool)
        ensures
            *final(self) == spec_poll(*old(self), exited),
    {
        if self.headroom_proxy_child && exited {
            self.headroom_proxy_child = false;
            self.state.headroom_proxy_running = false;
        }
    }
}

} // verus!
