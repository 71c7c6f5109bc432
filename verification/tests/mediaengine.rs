use switchboard_sfu::sfu::mediaengine::{
    default_codecs, rtp_extension_audiolevel, rtp_extension_simulcast, CodecType,
};
use switchboard_sfu::sfu::routing::track::RtcpFeedback;

#[test]
fn default_codecs_are_the_table() {
    let codecs = default_codecs();
    let lines: Vec<(CodecType, &str, u32, u16, &str, usize, u8)> = codecs
        .iter()
        .map(|c| {
            (
                c.kind,
                c.capability.mime_type.as_str(),
                c.capability.clock_rate,
                c.capability.channels,
                c.capability.sdp_fmtp_line.as_str(),
                c.capability.rtcp_feedback.len(),
                c.payload_type,
            )
        })
        .collect();
    assert_eq!(
        lines,
        vec![
            (CodecType::Audio, "audio/opus", 48000, 2, "minptime=10;useinbandfec=1", 0, 111),
            (CodecType::Audio, "audio/G722", 8000, 0, "", 0, 9),
            (CodecType::Audio, "audio/PCMU", 8000, 0, "", 0, 0),
            (CodecType::Audio, "audio/PCMA", 8000, 0, "", 0, 8),
            (CodecType::Video, "video/VP9", 90000, 0, "profile-id=0", 4, 98),
            (CodecType::Video, "video/VP8", 90000, 0, "", 4, 96),
            (CodecType::Video, "video/rtx", 90000, 0, "apt=96", 0, 97),
            (CodecType::Video, "video/rtx", 90000, 0, "apt=98", 0, 99),
            (CodecType::Video, "video/VP9", 90000, 0, "profile-id=1", 4, 100),
            (CodecType::Video, "video/rtx", 90000, 0, "apt=100", 0, 101),
            (
                CodecType::Video,
                "video/H264",
                90000,
                0,
                "level-asymmetry-allowed=1;packetization-mode=1;profile-level-id=F4001f",
                4,
                123
            ),
            (CodecType::Video, "video/rtx", 90000, 0, "apt=123", 0, 118),
            (CodecType::Video, "video/ulpfec", 90000, 0, "", 0, 116),
        ]
    );
}

#[test]
fn video_codecs_take_the_video_feedback() {
    let feedback = |typ: &str, parameter: &str| RtcpFeedback {
        typ: typ.to_string(),
        parameter: parameter.to_string(),
    };
    let codecs = default_codecs();
    assert_eq!(
        codecs[5].capability.rtcp_feedback,
        vec![
            feedback("goog-remb", ""),
            feedback("ccm", "fir"),
            feedback("nack", ""),
            feedback("nack", "pli")
        ]
    );
}

#[test]
fn payload_types_are_distinct() {
    let codecs = default_codecs();
    for i in 0..codecs.len() {
        for j in (i + 1)..codecs.len() {
            assert_ne!(codecs[i].payload_type, codecs[j].payload_type);
        }
    }
}

#[test]
fn header_extensions_for_simulcast_and_audio_level() {
    assert_eq!(
        rtp_extension_simulcast(),
        vec![
            "urn:ietf:params:rtp-hdrext:sdes:mid",
            "urn:ietf:params:rtp-hdrext:sdes:rtp-stream-id",
            "urn:ietf:params:rtp-hdrext:sdes:repaired-rtp-stream-id"
        ]
    );
    assert_eq!(
        rtp_extension_audiolevel(),
        vec![
            "urn:ietf:params:rtp-hdrext:sdes:mid",
            "urn:ietf:params:rtp-hdrext:sdes:rtp-stream-id",
            "urn:ietf:params:rtp-hdrext:sdes:repaired-rtp-stream-id",
            "urn:ietf:params:rtp-hdrext:ssrc-audio-level"
        ]
    );
}
