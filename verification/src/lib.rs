//! Forwarding core of a selective forwarding unit for WebRTC conferences.
//!
//! The crate holds the decisions of the forwarding unit as sequential state
//! machines over plain values: how a published track is fanned out, how a
//! destination rebuilds its own timeline, how a participant negotiates, how a
//! room keeps every participant subscribed to every track, and how signaling
//! frames become typed events. Transport, sockets and task scheduling are left
//! to the program that drives these machines.

pub mod extip;
pub mod proto;
pub mod sfu;
pub mod signal;
