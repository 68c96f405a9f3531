//! Rooms: sessions whose log is divided into segments, and which stream their
//! history to those who attach.

pub mod attach;
pub mod registry;
pub mod state;
pub mod streaming;
pub mod turns;
