//! The internal player.
pub mod controls;
pub mod focus;
pub mod ipc;
pub mod launch;
pub mod manager;
pub mod messages;
pub mod session;
pub mod surface;
pub mod tracks;
