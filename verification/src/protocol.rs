//! The frames that travel between subscribers, the mux and the agent.

pub mod amux;
pub mod answers;
pub mod attach;
pub mod jsonrpc;
pub mod names;
pub mod session_update;
pub mod telling;
