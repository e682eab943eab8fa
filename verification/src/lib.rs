//! Verified core of the herdr terminal multiplexer client: sidebar hit-testing
//! and layout, the statusline model, the agent live-status model, the
//! headroom-proxy lifecycle decisions, and the client input framing rules.

pub mod geometry;
pub mod json;
pub mod live_status;
pub mod state;
pub mod sidebar;
pub mod protocol;
pub mod text;
pub mod client_input;
pub mod reader;
pub mod headroom;
pub mod statusline;
