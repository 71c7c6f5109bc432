//! The signaling protocol: from frames to typed events and back, and what a
//! connection does with the events of its client.

pub mod server;
pub mod signal;
