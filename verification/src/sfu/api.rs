//! Requests of the control interface.

use vstd::prelude::*;

verus! {

/// Asks that a subscriber receive the encoding `rid` of the stream
/// `stream_id`.
#[derive(Debug, PartialEq, Eq)]
pub struct SetRemoteMedia {
    pub stream_id: String,
    pub rid: String,
}

} // verus!
