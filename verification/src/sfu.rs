//! Rooms, participants and the routing of their media.

pub mod api;
pub mod coordinator;
pub mod mediaengine;
pub mod peer;
pub mod routing;
pub mod session;
