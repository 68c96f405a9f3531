//! One session: an agent, the peers that share it, and what passes between
//! them.

pub mod actor;
pub mod agent;
pub mod attach;
pub mod clock;
pub mod control;
pub mod course;
pub mod hearing;
pub mod inbound;
pub mod laws;
pub mod life;
pub mod load;
pub mod marking;
pub mod metadata;
pub mod passing;
pub mod registry;
pub mod routing;
pub mod showing;
pub mod snapshot;
pub mod sound;
pub mod state;
pub mod turn;
pub mod working;
