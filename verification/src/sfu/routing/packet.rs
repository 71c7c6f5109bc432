//! Media packets as the routing engine sees them.

use vstd::prelude::*;
use crate::sfu::routing::layer::Layer;

verus! {

/// One header extension of an RTP packet.
#[derive(Clone, Debug, PartialEq, Eq)]
pub struct RtpExtension {
    pub id: u8,
    pub payload: Vec<u8>,
}

/// The header of an RTP packet.
#[derive(Clone, Debug, PartialEq, Eq)]
pub struct RtpHeader {
    pub version: u8,
    pub padding: bool,
    pub extension: bool,
    pub marker: bool,
    pub payload_type: u8,
    pub sequence_number: u16,
    pub timestamp: u32,
    pub ssrc: u32,
    pub csrc: Vec<u32>,
    pub extension_profile: u16,
    pub extensions: Vec<RtpExtension>,
}

/// One RTP packet: header and payload.
#[derive(Clone, Debug, PartialEq, Eq)]
pub struct RtpPacket {
    pub header: RtpHeader,
    pub payload: Vec<u8>,
}

/// An RTP packet on its way from a router to the subscribers, tagged with the
/// layer it was read from. Its header timestamp holds the distance to the
/// previous packet of that layer.
#[derive(Clone, Debug, PartialEq, Eq)]
pub struct Packet {
    pub layer: Layer,
    pub rtp: RtpPacket,
}

/// `rtp` with its header timestamp replaced and all else as it was.
pub open spec fn with_timestamp(rtp: RtpPacket, timestamp: u32) -> RtpPacket {
    RtpPacket { header: RtpHeader { timestamp, ..rtp.header }, payload: rtp.payload }
}

/// `rtp` with its header timestamp and sequence number replaced and all else
/// as it was.
pub open spec fn restamped(rtp: RtpPacket, timestamp: u32, sequence_number: u16) -> RtpPacket {
    RtpPacket {
        header: RtpHeader { sequence_number, timestamp, ..rtp.header },
        payload: rtp.payload,
    }
}

} // verus!
