//! Descriptions of media tracks.

use vstd::prelude::*;

verus! {

/// One RTCP feedback mechanism that a codec supports.
#[derive(Debug, PartialEq, Eq)]
pub struct RtcpFeedback {
    pub typ: String,
    pub parameter: String,
}

impl Clone for RtcpFeedback {
    fn clone(&self) -> (copy: RtcpFeedback)
        ensures
            copy == *self,
    {
        RtcpFeedback { typ: self.typ.clone(), parameter: self.parameter.clone() }
    }
}

/// What a codec can do, as negotiated for a track.
#[derive(Debug, PartialEq, Eq)]
pub struct CodecCapability {
    pub mime_type: String,
    pub clock_rate: u32,
    pub channels: u16,
    pub sdp_fmtp_line: String,
    pub rtcp_feedback: Vec<RtcpFeedback>,
}

impl CodecCapability {
    /// Whether two capabilities hold the same values.
    pub open spec fn same_as(&self, other: &CodecCapability) -> bool {
        &&& self.mime_type == other.mime_type
        &&& self.clock_rate == other.clock_rate
        &&& self.channels == other.channels
        &&& self.sdp_fmtp_line == other.sdp_fmtp_line
        &&& self.rtcp_feedback@ == other.rtcp_feedback@
    }
}

impl Clone for CodecCapability {
    fn clone(&self) -> (copy: CodecCapability)
        ensures
            copy.same_as(self),
    {
        let mut feedback: Vec<RtcpFeedback> = Vec::new();
        let mut i: usize = 0;
        while i < self.rtcp_feedback.len()
            invariant
                i <= self.rtcp_feedback@.len(),
                feedback@ == self.rtcp_feedback@.take(i as int),
            decreases self.rtcp_feedback@.len() - i,
        {
            feedback.push(self.rtcp_feedback[i].clone());
            i += 1;
            assert(feedback@ =~= self.rtcp_feedback@.take(i as int));
        }
        assert(feedback@ =~= self.rtcp_feedback@);
        CodecCapability {
            mime_type: self.mime_type.clone(),
            clock_rate: self.clock_rate,
            channels: self.channels,
            sdp_fmtp_line: self.sdp_fmtp_line.clone(),
            rtcp_feedback: feedback,
        }
    }
}

/// A track that a publisher sends: one encoding of it, as the transport
/// engine surfaced it.
#[derive(Debug, PartialEq, Eq)]
pub struct TrackRemote {
    pub id: String,
    pub stream_id: String,
    /// Restriction identifier of the encoding; empty when the track is not
    /// simulcast.
    pub rid: String,
    pub ssrc: u32,
    pub payload_type: u8,
    pub codec: CodecCapability,
}

/// A track that the forwarding unit sends to one destination.
#[derive(Debug, PartialEq, Eq)]
pub struct TrackLocal {
    pub id: String,
    pub stream_id: String,
    pub codec: CodecCapability,
}

impl TrackLocal {
    /// Whether this outgoing track repeats the identity and codec of `remote`.
    pub open spec fn mirrors(&self, remote: &TrackRemote) -> bool {
        &&& self.id == remote.id
        &&& self.stream_id == remote.stream_id
        &&& self.codec.same_as(&remote.codec)
    }

    /// Outgoing track with the codec capability, id and stream id of `remote`.
    pub fn new(remote: &TrackRemote) -> (track: TrackLocal)
        ensures
            track.mirrors(remote),
    {
        TrackLocal {
            id: remote.id.clone(),
            stream_id: remote.stream_id.clone(),
            codec: remote.codec.clone(),
        }
    }
}

} // verus!
