//! A multiplexer for ACP sessions: many subscribers share one agent.
//!
//! This crate holds the mux's own logic. It decides; the program around it
//! moves bytes. A session takes one event at a time (a frame from a subscriber,
//! a line from the agent, a peer that comes or goes) and leaves behind what is
//! to be sent to whom.

pub mod agent;
pub mod assoc;
pub mod cli;
pub mod json;
pub mod mock;
pub mod multiplex;
pub mod protocol;
pub mod room;
pub mod scan;
pub mod server;
pub mod session;
pub mod table;
pub mod text;
