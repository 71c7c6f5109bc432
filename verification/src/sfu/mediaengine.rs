//! The codecs and header extensions that every peer connection offers.

use vstd::prelude::*;
use crate::sfu::routing::track::{CodecCapability, RtcpFeedback};

verus! {

/// Whether a codec carries sound or pictures.
#[derive(Clone, Copy, Debug, PartialEq, Eq, Structural)]
pub enum CodecType {
    Audio,
    Video,
}

/// A codec as it is registered with the transport engine.
#[derive(Debug, PartialEq, Eq)]
pub struct CodecParameters {
    pub kind: CodecType,
    pub capability: CodecCapability,
    pub payload_type: u8,
}

/// One line of the codec table.
pub struct CodecLine {
    pub kind: CodecType,
    pub mime_type: Seq<char>,
    pub clock_rate: u32,
    pub channels: u16,
    pub sdp_fmtp_line: Seq<char>,
    /// Whether the codec takes the feedback mechanisms of video.
    pub feedback: bool,
    pub payload_type: u8,
}

/// The codecs offered, in the order in which they are registered: sound
/// first, then pictures, each picture codec followed sooner or later by the
/// retransmission codec that names its payload type.
pub open spec fn default_codec_table() -> Seq<CodecLine> {
    seq![
        CodecLine {
            kind: CodecType::Audio,
            mime_type: "audio/opus"@,
            clock_rate: 48000,
            channels: 2,
            sdp_fmtp_line: "minptime=10;useinbandfec=1"@,
            feedback: false,
            payload_type: 111,
        },
        CodecLine {
            kind: CodecType::Audio,
            mime_type: "audio/G722"@,
            clock_rate: 8000,
            channels: 0,
            sdp_fmtp_line: ""@,
            feedback: false,
            payload_type: 9,
        },
        CodecLine {
            kind: CodecType::Audio,
            mime_type: "audio/PCMU"@,
            clock_rate: 8000,
            channels: 0,
            sdp_fmtp_line: ""@,
            feedback: false,
            payload_type: 0,
        },
        CodecLine {
            kind: CodecType::Audio,
            mime_type: "audio/PCMA"@,
            clock_rate: 8000,
            channels: 0,
            sdp_fmtp_line: ""@,
            feedback: false,
            payload_type: 8,
        },
        CodecLine {
            kind: CodecType::Video,
            mime_type: "video/VP9"@,
            clock_rate: 90000,
            channels: 0,
            sdp_fmtp_line: "profile-id=0"@,
            feedback: true,
            payload_type: 98,
        },
        CodecLine {
            kind: CodecType::Video,
            mime_type: "video/VP8"@,
            clock_rate: 90000,
            channels: 0,
            sdp_fmtp_line: ""@,
            feedback: true,
            payload_type: 96,
        },
        CodecLine {
            kind: CodecType::Video,
            mime_type: "video/rtx"@,
            clock_rate: 90000,
            channels: 0,
            sdp_fmtp_line: "apt=96"@,
            feedback: false,
            payload_type: 97,
        },
        CodecLine {
            kind: CodecType::Video,
            mime_type: "video/rtx"@,
            clock_rate: 90000,
            channels: 0,
            sdp_fmtp_line: "apt=98"@,
            feedback: false,
            payload_type: 99,
        },
        CodecLine {
            kind: CodecType::Video,
            mime_type: "video/VP9"@,
            clock_rate: 90000,
            channels: 0,
            sdp_fmtp_line: "profile-id=1"@,
            feedback: true,
            payload_type: 100,
        },
        CodecLine {
            kind: CodecType::Video,
            mime_type: "video/rtx"@,
            clock_rate: 90000,
            channels: 0,
            sdp_fmtp_line: "apt=100"@,
            feedback: false,
            payload_type: 101,
        },
        CodecLine {
            kind: CodecType::Video,
            mime_type: "video/H264"@,
            clock_rate: 90000,
            channels: 0,
            sdp_fmtp_line: "level-asymmetry-allowed=1;packetization-mode=1;profile-level-id=F4001f"@,
            feedback: true,
            payload_type: 123,
        },
        CodecLine {
            kind: CodecType::Video,
            mime_type: "video/rtx"@,
            clock_rate: 90000,
            channels: 0,
            sdp_fmtp_line: "apt=123"@,
            feedback: false,
            payload_type: 118,
        },
        CodecLine {
            kind: CodecType::Video,
            mime_type: "video/ulpfec"@,
            clock_rate: 90000,
            channels: 0,
            sdp_fmtp_line: ""@,
            feedback: false,
            payload_type: 116,
        },
    ]
}

/// Whether `feedback` holds the feedback mechanisms of video: bandwidth
/// estimates, full intra requests, and negative acknowledgements with and
/// without picture loss indication.
pub open spec fn is_video_feedback(feedback: Seq<RtcpFeedback>) -> bool {
    &&& feedback.len() == 4
    &&& feedback[0].typ@ == "goog-remb"@ && feedback[0].parameter@ == ""@
    &&& feedback[1].typ@ == "ccm"@ && feedback[1].parameter@ == "fir"@
    &&& feedback[2].typ@ == "nack"@ && feedback[2].parameter@ == ""@
    &&& feedback[3].typ@ == "nack"@ && feedback[3].parameter@ == "pli"@
}

/// Whether `codec` is the codec that `line` describes.
pub open spec fn is_line(codec: CodecParameters, line: CodecLine) -> bool {
    &&& codec.kind == line.kind
    &&& codec.capability.mime_type@ == line.mime_type
    &&& codec.capability.clock_rate == line.clock_rate
    &&& codec.capability.channels == line.channels
    &&& codec.capability.sdp_fmtp_line@ == line.sdp_fmtp_line
    &&& if line.feedback {
        is_video_feedback(codec.capability.rtcp_feedback@)
    } else {
        codec.capability.rtcp_feedback@.len() == 0
    }
    &&& codec.payload_type == line.payload_type
}

/// No two codecs of the table share a payload type.
pub proof fn law_payload_types_are_distinct(i: int, j: int)
    requires
        0 <= i < j < default_codec_table().len(),
    ensures
        default_codec_table()[i].payload_type != default_codec_table()[j].payload_type,
{
    let table = default_codec_table();
    assert(table.len() == 13);
    assert(table[0].payload_type == 111 && table[1].payload_type == 9 && table[2].payload_type
        == 0 && table[3].payload_type == 8 && table[4].payload_type == 98
        && table[5].payload_type == 96 && table[6].payload_type == 97 && table[7].payload_type
        == 99 && table[8].payload_type == 100 && table[9].payload_type == 101
        && table[10].payload_type == 123 && table[11].payload_type == 118
        && table[12].payload_type == 116);
}

fn video_feedback() -> (feedback: Vec<RtcpFeedback>)
    ensures
        is_video_feedback(feedback@),
{
    let mut feedback: Vec<RtcpFeedback> = Vec::new();
    feedback.push(RtcpFeedback { typ: "goog-remb".to_owned(), parameter: "".to_owned() });
    feedback.push(RtcpFeedback { typ: "ccm".to_owned(), parameter: "fir".to_owned() });
    feedback.push(RtcpFeedback { typ: "nack".to_owned(), parameter: "".to_owned() });
    feedback.push(RtcpFeedback { typ: "nack".to_owned(), parameter: "pli".to_owned() });
    feedback
}

fn codec(
    kind: CodecType,
    mime_type: &str,
    clock_rate: u32,
    channels: u16,
    sdp_fmtp_line: &str,
    feedback: bool,
    payload_type: u8,
) -> (codec: CodecParameters)
    ensures
        is_line(
            codec,
            CodecLine {
                kind,
                mime_type: mime_type@,
                clock_rate,
                channels,
                sdp_fmtp_line: sdp_fmtp_line@,
                feedback,
                payload_type,
            },
        ),
{
    let rtcp_feedback = if feedback {
        video_feedback()
    } else {
        Vec::new()
    };
    CodecParameters {
        kind,
        capability: CodecCapability {
            mime_type: mime_type.to_owned(),
            clock_rate,
            channels,
            sdp_fmtp_line: sdp_fmtp_line.to_owned(),
            rtcp_feedback,
        },
        payload_type,
    }
}

/// The codecs to register with the transport engine, in the order of the
/// table.
pub fn default_codecs() -> (codecs: Vec<CodecParameters>)
    ensures
        codecs@.len() == default_codec_table().len(),
        forall|i: int|
            0 <= i < codecs@.len() ==> is_line(#[trigger] codecs@[i], default_codec_table()[i]),
{
    let mut codecs: Vec<CodecParameters> = Vec::new();
    codecs.push(
        codec(CodecType::Audio, "audio/opus", 48000, 2, "minptime=10;useinbandfec=1", false, 111),
    );
    codecs.push(codec(CodecType::Audio, "audio/G722", 8000, 0, "", false, 9));
    codecs.push(codec(CodecType::Audio, "audio/PCMU", 8000, 0, "", false, 0));
    codecs.push(codec(CodecType::Audio, "audio/PCMA", 8000, 0, "", false, 8));
    codecs.push(codec(CodecType::Video, "video/VP9", 90000, 0, "profile-id=0", true, 98));
    codecs.push(codec(CodecType::Video, "video/VP8", 90000, 0, "", true, 96));
    codecs.push(codec(CodecType::Video, "video/rtx", 90000, 0, "apt=96", false, 97));
    codecs.push(codec(CodecType::Video, "video/rtx", 90000, 0, "apt=98", false, 99));
    codecs.push(codec(CodecType::Video, "video/VP9", 90000, 0, "profile-id=1", true, 100));
    codecs.push(codec(CodecType::Video, "video/rtx", 90000, 0, "apt=100", false, 101));
    codecs.push(
        codec(
            CodecType::Video,
            "video/H264",
            90000,
            0,
            "level-asymmetry-allowed=1;packetization-mode=1;profile-level-id=F4001f",
            true,
            123,
        ),
    );
    codecs.push(codec(CodecType::Video, "video/rtx", 90000, 0, "apt=123", false, 118));
    codecs.push(codec(CodecType::Video, "video/ulpfec", 90000, 0, "", false, 116));
    codecs
}

/// Header extension that carries the media identification of a packet.
pub open spec fn ext_uri_sdes_mid() -> Seq<char> {
    "urn:ietf:params:rtp-hdrext:sdes:mid"@
}

/// Header extension that carries the stream identifier of a simulcast
/// encoding.
pub open spec fn ext_uri_sdes_rtp_sid() -> Seq<char> {
    "urn:ietf:params:rtp-hdrext:sdes:rtp-stream-id"@
}

/// Header extension that carries the stream identifier that a repair stream
/// belongs to.
pub open spec fn ext_uri_sdes_rep_sid() -> Seq<char> {
    "urn:ietf:params:rtp-hdrext:sdes:repaired-rtp-stream-id"@
}

/// Header extension that carries the audio level of a packet.
pub open spec fn ext_uri_audio_level() -> Seq<char> {
    "urn:ietf:params:rtp-hdrext:ssrc-audio-level"@
}

/// The header extensions to register for video so that simulcast encodings
/// can be told apart.
pub fn rtp_extension_simulcast() -> (uris: Vec<String>)
    ensures
        uris@.len() == 3,
        uris@[0]@ == ext_uri_sdes_mid(),
        uris@[1]@ == ext_uri_sdes_rtp_sid(),
        uris@[2]@ == ext_uri_sdes_rep_sid(),
{
    let mut uris: Vec<String> = Vec::new();
    uris.push("urn:ietf:params:rtp-hdrext:sdes:mid".to_owned());
    uris.push("urn:ietf:params:rtp-hdrext:sdes:rtp-stream-id".to_owned());
    uris.push("urn:ietf:params:rtp-hdrext:sdes:repaired-rtp-stream-id".to_owned());
    uris
}

/// The header extensions to register for audio so that audio levels are
/// reported.
pub fn rtp_extension_audiolevel() -> (uris: Vec<String>)
    ensures
        uris@.len() == 4,
        uris@[0]@ == ext_uri_sdes_mid(),
        uris@[1]@ == ext_uri_sdes_rtp_sid(),
        uris@[2]@ == ext_uri_sdes_rep_sid(),
        uris@[3]@ == ext_uri_audio_level(),
{
    let mut uris: Vec<String> = Vec::new();
    uris.push("urn:ietf:params:rtp-hdrext:sdes:mid".to_owned());
    uris.push("urn:ietf:params:rtp-hdrext:sdes:rtp-stream-id".to_owned());
    uris.push("urn:ietf:params:rtp-hdrext:sdes:repaired-rtp-stream-id".to_owned());
    uris.push("urn:ietf:params:rtp-hdrext:ssrc-audio-level".to_owned());
    uris
}

} // verus!
