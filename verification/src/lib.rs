//! Decision logic of a terminal-companion desktop app: the hook-event state
//! of agent sessions and the placement of a docked terminal window.

pub mod text;
pub mod titles;
pub mod dock;
pub mod external_terminal;
pub mod hook_server;
