use switchboard_sfu::proto::json::{integer_text, unsigned_text};
use switchboard_sfu::proto::jsonrpc::{
    frame_of, from_text, text_of, to_text, Event as Message, Frame, Id, IdMember, Notification, Request,
    Response, ResultMember,
};
use switchboard_sfu::proto::signal::{
    JoinMsg, NegotiateMsg, Presence, SdpType, SessionDescription, TrickleCandidate,
    TrickleNotification,
};
use switchboard_sfu::sfu::peer::Peer;
use switchboard_sfu::sfu::session::{LocalSession, PresenceEntry, PresenceUpdate, Session};

fn no_members() -> Frame {
    Frame {
        jsonrpc: None,
        id: IdMember::Missing,
        method: None,
        params: None,
        result: ResultMember::Missing,
        error: None,
    }
}

#[test]
fn numerals_without_sign() {
    assert_eq!(unsigned_text(0), "0");
    assert_eq!(unsigned_text(7), "7");
    assert_eq!(unsigned_text(10), "10");
    assert_eq!(unsigned_text(909), "909");
    assert_eq!(unsigned_text(1234567890), "1234567890");
    assert_eq!(unsigned_text(u64::MAX), "18446744073709551615");
}

#[test]
fn numerals_with_sign() {
    assert_eq!(integer_text(0), "0");
    assert_eq!(integer_text(-1), "-1");
    assert_eq!(integer_text(42), "42");
    assert_eq!(integer_text(-1000), "-1000");
    assert_eq!(integer_text(i64::MAX), "9223372036854775807");
    assert_eq!(integer_text(i64::MIN), "-9223372036854775808");
}

#[test]
fn frame_of_a_request() {
    let frame = frame_of(
        " { \"jsonrpc\" : \"2.0\", \"id\": 7, \"method\": \"join\", \"params\": { \"sid\" : \"r1\" } } ",
    );
    assert_eq!(
        frame,
        Frame {
            jsonrpc: Some("2.0".to_string()),
            id: IdMember::Integer(7),
            method: Some("join".to_string()),
            params: Some("{\"sid\":\"r1\"}".to_string()),
            result: ResultMember::Missing,
            error: None,
        }
    );
}

#[test]
fn frame_of_tells_the_ids_apart() {
    assert_eq!(frame_of("{\"id\":\"a-b\"}").id, IdMember::Text("a-b".to_string()));
    assert_eq!(frame_of("{\"id\":-5}").id, IdMember::Integer(-5));
    assert_eq!(frame_of("{\"id\":9223372036854775807}").id, IdMember::Integer(i64::MAX));
    assert_eq!(frame_of("{\"id\":9223372036854775808}").id, IdMember::Other);
    assert_eq!(frame_of("{\"id\":1.5}").id, IdMember::Other);
    assert_eq!(frame_of("{\"id\":null}").id, IdMember::Other);
    assert_eq!(frame_of("{\"id\":[1]}").id, IdMember::Other);
    assert_eq!(frame_of("{\"id\":true}").id, IdMember::Other);
    assert_eq!(frame_of("{}").id, IdMember::Missing);
}

#[test]
fn frame_of_takes_only_well_formed_members() {
    assert_eq!(frame_of("{\"method\":5}").method, None);
    assert_eq!(frame_of("{\"method\":\"\"}").method, Some(String::new()));
    assert_eq!(frame_of("{\"params\":[1,2]}").params, None);
    assert_eq!(frame_of("{\"params\":null}").params, None);
    assert_eq!(frame_of("{\"params\":{}}").params, Some("{}".to_string()));
    assert_eq!(frame_of("{\"result\":null}").result, ResultMember::Missing);
    assert_eq!(frame_of("{\"result\":{\"a\":[1]}}").result, ResultMember::Object("{\"a\":[1]}".to_string()));
    assert_eq!(frame_of("{\"result\":3}").result, ResultMember::Other);
    assert_eq!(frame_of("{\"error\":null}").error, None);
    assert_eq!(frame_of("{\"error\":\"bad\"}").error, Some("\"bad\"".to_string()));
    assert_eq!(frame_of("{\"error\":{\"code\":-1}}").error, Some("{\"code\":-1}".to_string()));
    assert_eq!(frame_of("{\"jsonrpc\":2}").jsonrpc, None);
}

#[test]
fn frame_of_what_is_no_object_has_no_members() {
    assert_eq!(frame_of("not json"), no_members());
    assert_eq!(frame_of(""), no_members());
    assert_eq!(frame_of("[1,2,3]"), no_members());
    assert_eq!(frame_of("\"id\""), no_members());
    assert_eq!(frame_of("{\"id\":1"), no_members());
}

#[test]
fn text_of_a_frame_holds_its_members() {
    let mut frame = no_members();
    assert_eq!(text_of(&frame), "{}");
    frame.id = IdMember::Integer(-3);
    assert_eq!(text_of(&frame), "{\"id\":-3}");
    frame.id = IdMember::Text("a\"b".to_string());
    frame.method = Some("join".to_string());
    frame.params = Some("{ \"sid\" : \"r1\" }".to_string());
    frame.jsonrpc = Some("2.0".to_string());
    assert_eq!(
        text_of(&frame),
        "{\"id\":\"a\\\"b\",\"jsonrpc\":\"2.0\",\"method\":\"join\",\"params\":{\"sid\":\"r1\"}}"
    );
    let mut answer = no_members();
    answer.id = IdMember::Other;
    answer.result = ResultMember::Object("{}".to_string());
    answer.error = Some("[1]".to_string());
    assert_eq!(text_of(&answer), "{\"error\":[1],\"result\":{}}");
}

#[test]
fn text_of_a_frame_passes_over_members_that_are_no_json() {
    let mut frame = no_members();
    frame.method = Some("m".to_string());
    frame.params = Some("{broken".to_string());
    assert_eq!(text_of(&frame), "{\"method\":\"m\"}");
}

#[test]
fn read_a_notification() {
    assert_eq!(
        from_text("{\"method\":\"trickle\",\"params\":{\"target\":0}}"),
        Some(Message::Notification(Notification {
            method: "trickle".to_string(),
            params: "{\"target\":0}".to_string()
        }))
    );
}

#[test]
fn read_a_response() {
    assert_eq!(
        from_text("{\"id\":\"x\",\"result\":{\"ok\":true}}"),
        Some(Message::Response(Response {
            id: Id::Uuid("x".to_string()),
            result: Some("{\"ok\":true}".to_string()),
            error: None
        }))
    );
}

#[test]
fn read_nothing_from_what_is_no_message() {
    assert_eq!(from_text("{}"), None);
    assert_eq!(from_text("[]"), None);
    assert_eq!(from_text("{\"method\":\"join\"}"), None);
    assert_eq!(from_text("{\"id\":2147483648}"), None);
    assert_eq!(from_text("garbage"), None);
}

#[test]
fn write_a_request() {
    let request = Message::Request(Request {
        id: Id::Int(1),
        method: "join".to_string(),
        params: "{}".to_string(),
    });
    assert_eq!(to_text(request), "{\"id\":1,\"jsonrpc\":\"2.0\",\"method\":\"join\",\"params\":{}}");
}

#[test]
fn read_inverts_write() {
    let messages = || {
        vec![
            Message::Request(Request {
                id: Id::Int(i32::MIN),
                method: "join".to_string(),
                params: "{\"sid\":\"r\u{e9}union\"}".to_string(),
            }),
            Message::Request(Request {
                id: Id::Uuid("7b0c".to_string()),
                method: "offer".to_string(),
                params: "{}".to_string(),
            }),
            Message::Response(Response { id: Id::Int(0), result: None, error: None }),
            Message::Response(Response {
                id: Id::Int(9),
                result: Some("{\"type\":\"answer\"}".to_string()),
                error: Some("\"late\"".to_string()),
            }),
            Message::Notification(Notification {
                method: "presence".to_string(),
                params: "{\"revision\":1}".to_string(),
            }),
        ]
    };
    let written: Vec<String> = messages().into_iter().map(to_text).collect();
    let read_back: Vec<Option<Message>> = written.iter().map(|text| from_text(text)).collect();
    let expected: Vec<Option<Message>> = messages().into_iter().map(Some).collect();
    assert_eq!(read_back, expected);
}

#[test]
fn sdp_types_by_name() {
    for (name, sdp_type) in [
        ("Unspecified", SdpType::Unspecified),
        ("offer", SdpType::Offer),
        ("pranswer", SdpType::Pranswer),
        ("answer", SdpType::Answer),
        ("rollback", SdpType::Rollback),
    ] {
        assert_eq!(SdpType::from_name(&name.to_string()), Some(sdp_type));
        assert_eq!(sdp_type.to_name(), name);
    }
    assert_eq!(SdpType::from_name(&"Offer".to_string()), None);
    assert_eq!(SdpType::from_name(&String::new()), None);
}

#[test]
fn session_description_as_json() {
    let description = SessionDescription { sdp_type: SdpType::Pranswer, sdp: "v=0\r\no=-".to_string() };
    let text = description.to_json();
    assert_eq!(text, "{\"sdp\":\"v=0\\r\\no=-\",\"type\":\"pranswer\"}");
    assert_eq!(SessionDescription::from_json(&text), Some(description));
    assert_eq!(SessionDescription::from_json("{\"type\":\"offer\"}"), None);
    assert_eq!(SessionDescription::from_json("{\"sdp\":\"v=0\"}"), None);
    assert_eq!(SessionDescription::from_json("{\"type\":1,\"sdp\":\"v=0\"}"), None);
    assert_eq!(SessionDescription::from_json("{\"type\":\"offer\",\"sdp\":null}"), None);
    assert_eq!(SessionDescription::from_json("[\"offer\",\"v=0\"]"), None);
}

#[test]
fn join_and_negotiate_from_params() {
    let offer = || SessionDescription { sdp_type: SdpType::Offer, sdp: "v=0".to_string() };
    assert_eq!(
        JoinMsg::from_params("{\"offer\":{\"sdp\":\"v=0\",\"type\":\"offer\"},\"sid\":\"room\"}"),
        Some(JoinMsg { sid: "room".to_string(), offer: offer() })
    );
    assert_eq!(JoinMsg::from_params("{\"offer\":{\"sdp\":\"v=0\",\"type\":\"offer\"}}"), None);
    assert_eq!(
        NegotiateMsg::from_params("{\"desc\":{\"sdp\":\"v=0\",\"type\":\"offer\"}}"),
        Some(NegotiateMsg { desc: offer() })
    );
    assert_eq!(NegotiateMsg::from_params("{\"desc\":\"v=0\"}"), None);
}

#[test]
fn candidate_from_json() {
    let candidate = |mid: Option<&str>, index: u32| TrickleCandidate {
        candidate: "candidate:1".to_string(),
        sdp_mid: mid.map(str::to_string),
        sdp_mline_index: index,
    };
    assert_eq!(
        TrickleCandidate::from_json("{\"candidate\":\"candidate:1\",\"sdpMid\":\"a\",\"sdpMLineIndex\":3}"),
        Some(candidate(Some("a"), 3))
    );
    assert_eq!(
        TrickleCandidate::from_json("{\"candidate\":\"candidate:1\",\"sdpMid\":null,\"sdpMLineIndex\":0}"),
        Some(candidate(None, 0))
    );
    assert_eq!(
        TrickleCandidate::from_json("{\"candidate\":\"candidate:1\",\"sdpMLineIndex\":4294967295}"),
        Some(candidate(None, u32::MAX))
    );
    for refused in [
        "{\"candidate\":\"candidate:1\",\"sdpMLineIndex\":4294967296}",
        "{\"candidate\":\"candidate:1\",\"sdpMLineIndex\":-1}",
        "{\"candidate\":\"candidate:1\",\"sdpMLineIndex\":1.0}",
        "{\"candidate\":\"candidate:1\",\"sdpMLineIndex\":\"1\"}",
        "{\"candidate\":\"candidate:1\"}",
        "{\"candidate\":\"candidate:1\",\"sdpMid\":7,\"sdpMLineIndex\":1}",
        "{\"candidate\":null,\"sdpMLineIndex\":1}",
        "{\"sdpMLineIndex\":1}",
    ] {
        assert_eq!(TrickleCandidate::from_json(refused), None);
    }
}

#[test]
fn trickle_as_params() {
    let trickle = TrickleNotification {
        target: 1,
        candidate: TrickleCandidate {
            candidate: "candidate:9".to_string(),
            sdp_mid: None,
            sdp_mline_index: 65536,
        },
    };
    let params = trickle.to_params();
    assert_eq!(
        params,
        "{\"candidate\":{\"candidate\":\"candidate:9\",\"sdpMLineIndex\":65536,\"sdpMid\":null},\"target\":1}"
    );
    assert_eq!(TrickleNotification::from_params(&params), Some(trickle));
    assert_eq!(TrickleNotification::from_params("{\"target\":4294967296,\"candidate\":{}}"), None);
}

#[test]
fn presence_as_params() {
    let presence = Presence { revision: u64::MAX, meta: "[1, 2]".to_string() };
    assert_eq!(presence.to_params(), "{\"meta\":[1,2],\"revision\":18446744073709551615}");
    assert_eq!(
        Presence::from_params("{\"name\":\"a\"}"),
        Presence { revision: 0, meta: "{\"name\":\"a\"}".to_string() }
    );
}

#[test]
fn presence_update_merges_the_metadata_under_the_peer_ids() {
    let update = PresenceUpdate {
        revision: 4,
        meta: vec![
            PresenceEntry { peer: 0x1234_5678_9abc_def0_0fed_cba9_8765_4321, meta: "{\"n\":\"b\"}".to_string() },
            PresenceEntry { peer: 1, meta: "{\"n\":\"a\"}".to_string() },
            PresenceEntry { peer: 2, meta: "broken".to_string() },
        ],
        recipients: vec![1],
    };
    assert_eq!(
        update.presence(),
        Presence {
            revision: 4,
            meta: "{\"00000000-0000-0000-0000-000000000001\":{\"n\":\"a\"},\"12345678-9abc-def0-0fed-cba987654321\":{\"n\":\"b\"}}"
                .to_string()
        }
    );
}

#[test]
fn presence_of_a_room_goes_out_with_its_revision() {
    let mut session = LocalSession::new("r1".to_string());
    session.add_peer(1, Peer::with_id(1)).unwrap();
    session.presence_set(1, "{}".to_string());
    let update = session.presence_set(1, "{\"hand\":\"up\"}".to_string());
    assert_eq!(
        update.presence(),
        Presence {
            revision: 2,
            meta: "{\"00000000-0000-0000-0000-000000000001\":{\"hand\":\"up\"}}".to_string()
        }
    );
}
