//! Deterministic rollback simulation core of a two-player arena fighter.

pub mod args;
pub mod events;
pub mod frame;
pub mod gameplay;
pub mod input;
pub mod replay;
pub mod session;
pub mod world;
