//! Fan-out of one published track to its destinations.

pub mod layer;
pub mod packet;
pub mod router;
pub mod subscriber;
pub mod timeline;
pub mod track;
