//! The peers that share a session.

pub mod subscriber;
