//! Messages exchanged with conferencing clients.

pub mod json;
pub mod jsonrpc;
pub mod signal;
