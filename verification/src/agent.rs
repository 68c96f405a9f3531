//! The agent's side: its lines, and what its log says of compaction.

pub mod lines;
pub mod stderr;
