use switchboard_sfu::proto::jsonrpc::{
    decode, encode, Event as Message, Frame, Id, IdMember, Notification, Request, Response,
    ResultMember,
};
use switchboard_sfu::proto::signal::{
    IceCandidateInit, JoinMsg, NegotiateMsg, Presence, SdpType, SessionDescription,
    TrickleCandidate, TrickleNotification,
};
use switchboard_sfu::sfu::api::SetRemoteMedia;
use switchboard_sfu::sfu::coordinator::{Coordinator, LocalCoordinator};
use switchboard_sfu::sfu::peer::Peer;
use switchboard_sfu::sfu::session::{LocalSession, Session, SessionError};
use switchboard_sfu::signal::server::{join, Connection, Step};
use switchboard_sfu::signal::signal::{
    inbound, inbound_method, outbound, reply, reply_error, reply_expected, Event, Method,
};

fn frame() -> Frame {
    Frame {
        jsonrpc: Some("2.0".to_string()),
        id: IdMember::Missing,
        method: None,
        params: None,
        result: ResultMember::Missing,
        error: None,
    }
}

fn request(method: &str) -> Message {
    Message::Request(Request {
        id: Id::Int(1),
        method: method.to_string(),
        params: "{}".to_string(),
    })
}

fn notice(method: &str) -> Message {
    Message::Notification(Notification { method: method.to_string(), params: "{}".to_string() })
}

fn offer() -> SessionDescription {
    SessionDescription { sdp_type: SdpType::Offer, sdp: "v=0".to_string() }
}

fn trickle(target: u32) -> TrickleNotification {
    TrickleNotification {
        target,
        candidate: TrickleCandidate {
            candidate: "candidate:1".to_string(),
            sdp_mid: Some("0".to_string()),
            sdp_mline_index: 2,
        },
    }
}

#[test]
fn frame_with_id_method_and_params_is_a_request() {
    let mut f = frame();
    f.id = IdMember::Integer(7);
    f.method = Some("join".to_string());
    f.params = Some("{\"sid\":\"r1\"}".to_string());
    f.result = ResultMember::Object("{}".to_string());
    assert_eq!(
        decode(f),
        Some(Message::Request(Request {
            id: Id::Int(7),
            method: "join".to_string(),
            params: "{\"sid\":\"r1\"}".to_string()
        }))
    );
}

#[test]
fn frame_with_text_id_is_a_request_with_that_id() {
    let mut f = frame();
    f.id = IdMember::Text("8f14e45f".to_string());
    f.method = Some("offer".to_string());
    f.params = Some("{}".to_string());
    assert_eq!(
        decode(f),
        Some(Message::Request(Request {
            id: Id::Uuid("8f14e45f".to_string()),
            method: "offer".to_string(),
            params: "{}".to_string()
        }))
    );
}

#[test]
fn frame_with_id_only_is_a_response() {
    let mut f = frame();
    f.id = IdMember::Integer(-3);
    assert_eq!(
        decode(f),
        Some(Message::Response(Response { id: Id::Int(-3), result: None, error: None }))
    );
}

#[test]
fn frame_with_id_and_result_is_a_response() {
    let mut f = frame();
    f.id = IdMember::Integer(3);
    f.result = ResultMember::Object("{\"a\":1}".to_string());
    f.error = Some("\"bad\"".to_string());
    f.method = Some("join".to_string());
    assert_eq!(
        decode(f),
        Some(Message::Response(Response {
            id: Id::Int(3),
            result: Some("{\"a\":1}".to_string()),
            error: Some("\"bad\"".to_string())
        }))
    );
}

#[test]
fn frame_without_id_is_a_notification() {
    let mut f = frame();
    f.method = Some("trickle".to_string());
    f.params = Some("{}".to_string());
    assert_eq!(
        decode(f),
        Some(Message::Notification(Notification {
            method: "trickle".to_string(),
            params: "{}".to_string()
        }))
    );
}

#[test]
fn frame_with_unusable_id_is_a_notification_if_it_can_be() {
    let mut f = frame();
    f.id = IdMember::Other;
    f.method = Some("answer".to_string());
    f.params = Some("{}".to_string());
    assert!(matches!(decode(f), Some(Message::Notification(_))));
    let mut g = frame();
    g.id = IdMember::Integer(i64::from(i32::MAX) + 1);
    g.method = Some("answer".to_string());
    g.params = Some("{}".to_string());
    assert!(matches!(decode(g), Some(Message::Notification(_))));
}

#[test]
fn id_takes_the_whole_32_bit_range() {
    for n in [i32::MIN, -1, 0, i32::MAX] {
        let mut f = frame();
        f.id = IdMember::Integer(i64::from(n));
        assert_eq!(
            decode(f),
            Some(Message::Response(Response { id: Id::Int(n), result: None, error: None }))
        );
    }
    for n in [i64::from(i32::MIN) - 1, i64::from(i32::MAX) + 1, i64::MIN, i64::MAX] {
        let mut f = frame();
        f.id = IdMember::Integer(n);
        assert_eq!(decode(f), None);
    }
}

#[test]
fn frame_that_is_nothing_gives_nothing() {
    assert_eq!(decode(frame()), None);
    let mut only_method = frame();
    only_method.method = Some("join".to_string());
    assert_eq!(decode(only_method), None);
    let mut only_params = frame();
    only_params.params = Some("{}".to_string());
    assert_eq!(decode(only_params), None);
    let mut bad_result = frame();
    bad_result.id = IdMember::Integer(1);
    bad_result.result = ResultMember::Other;
    assert_eq!(decode(bad_result), None);
    let mut bad_result_with_call = frame();
    bad_result_with_call.id = IdMember::Integer(1);
    bad_result_with_call.result = ResultMember::Other;
    bad_result_with_call.method = Some("x".to_string());
    bad_result_with_call.params = Some("{}".to_string());
    assert!(matches!(decode(bad_result_with_call), Some(Message::Request(_))));
}

#[test]
fn encode_writes_the_members_and_the_version() {
    let f = encode(request("join"));
    assert_eq!(f.jsonrpc, Some("2.0".to_string()));
    assert_eq!(f.id, IdMember::Integer(1));
    assert_eq!(f.method, Some("join".to_string()));
    assert_eq!(f.params, Some("{}".to_string()));
    assert_eq!(f.result, ResultMember::Missing);
    assert_eq!(f.error, None);
    let n = encode(notice("trickle"));
    assert_eq!(n.id, IdMember::Missing);
    assert_eq!(n.method, Some("trickle".to_string()));
    let r = encode(Message::Response(Response {
        id: Id::Uuid("u".to_string()),
        result: Some("{}".to_string()),
        error: None,
    }));
    assert_eq!(r.id, IdMember::Text("u".to_string()));
    assert_eq!(r.result, ResultMember::Object("{}".to_string()));
    assert_eq!(r.method, None);
    assert_eq!(r.params, None);
}

#[test]
fn decode_inverts_encode() {
    let messages = vec![
        request("join"),
        Message::Request(Request {
            id: Id::Uuid("a-b".to_string()),
            method: "offer".to_string(),
            params: "{\"desc\":{}}".to_string(),
        }),
        notice("trickle"),
        Message::Response(Response { id: Id::Int(i32::MIN), result: None, error: None }),
        Message::Response(Response {
            id: Id::Int(i32::MAX),
            result: Some("{}".to_string()),
            error: Some("{\"code\":1}".to_string()),
        }),
    ];
    for message in messages {
        let copy = match &message {
            Message::Request(r) => Message::Request(Request {
                id: match &r.id {
                    Id::Uuid(s) => Id::Uuid(s.clone()),
                    Id::Int(n) => Id::Int(*n),
                },
                method: r.method.clone(),
                params: r.params.clone(),
            }),
            Message::Response(r) => Message::Response(Response {
                id: match &r.id {
                    Id::Uuid(s) => Id::Uuid(s.clone()),
                    Id::Int(n) => Id::Int(*n),
                },
                result: r.result.clone(),
                error: r.error.clone(),
            }),
            Message::Notification(n) => Message::Notification(Notification {
                method: n.method.clone(),
                params: n.params.clone(),
            }),
        };
        assert_eq!(decode(encode(message)), Some(copy));
    }
}

#[test]
fn inbound_methods_are_told_by_kind_and_name() {
    assert_eq!(inbound_method(&request("join")), Some(Method::Join));
    assert_eq!(inbound_method(&request("offer")), Some(Method::Offer));
    assert_eq!(inbound_method(&request("presence_set")), Some(Method::PresenceSet));
    assert_eq!(inbound_method(&notice("trickle")), Some(Method::Trickle));
    assert_eq!(inbound_method(&notice("answer")), Some(Method::Answer));
    assert_eq!(inbound_method(&notice("presence_set")), Some(Method::PresenceSet));
}

#[test]
fn unknown_methods_and_wrong_kinds_are_dropped() {
    assert_eq!(inbound_method(&request("trickle")), None);
    assert_eq!(inbound_method(&request("answer")), None);
    assert_eq!(inbound_method(&request("Join")), None);
    assert_eq!(inbound_method(&request("")), None);
    assert_eq!(inbound_method(&notice("join")), None);
    assert_eq!(inbound_method(&notice("offer")), None);
    assert_eq!(inbound_method(&request("presence")), None);
    assert_eq!(inbound_method(&notice("presence")), None);
    assert_eq!(
        inbound_method(&Message::Response(Response { id: Id::Int(1), result: None, error: None })),
        None
    );
}

#[test]
fn only_join_and_offer_expect_a_reply() {
    assert!(reply_expected(Method::Join));
    assert!(reply_expected(Method::Offer));
    assert!(!reply_expected(Method::PresenceSet));
    assert!(!reply_expected(Method::Trickle));
    assert!(!reply_expected(Method::Answer));
}

#[test]
fn connection_starts_unjoined() {
    let connection = Connection::new();
    assert_eq!(connection.peer(), None);
    assert_eq!(connection.session(), None);
    assert_eq!(connection.finish(), None);
}

#[test]
fn join_event_leads_to_join_whether_joined_or_not() {
    let mut connection = Connection::new();
    let event = || Event::JoinRequest(Id::Int(4), JoinMsg { sid: "r1".to_string(), offer: offer() });
    let expected = || Step::Join { reply: Id::Int(4), sid: "r1".to_string(), offer: offer() };
    assert_eq!(connection.on_event(event()), expected());
    connection.joined(1, "r0".to_string());
    assert_eq!(connection.on_event(event()), expected());
}

#[test]
fn events_before_join_are_dropped() {
    let connection = Connection::new();
    assert_eq!(connection.on_event(Event::TrickleIce(trickle(1))), Step::NotJoined);
    assert_eq!(
        connection.on_event(Event::PublisherOffer(Id::Int(1), NegotiateMsg { desc: offer() })),
        Step::NotJoined
    );
    assert_eq!(
        connection.on_event(Event::SubscriberAnswer(NegotiateMsg { desc: offer() })),
        Step::NotJoined
    );
    assert_eq!(
        connection.on_event(Event::Presence(Presence { revision: 0, meta: "{}".to_string() })),
        Step::NotJoined
    );
}

#[test]
fn events_after_join_reach_the_peer() {
    let mut connection = Connection::new();
    connection.joined(42, "r1".to_string());
    assert_eq!(connection.peer(), Some(42));
    assert_eq!(connection.session(), Some(&"r1".to_string()));
    assert_eq!(
        connection.on_event(Event::TrickleIce(trickle(1))),
        Step::Trickle {
            peer: 42,
            target: 1,
            candidate: IceCandidateInit {
                candidate: "candidate:1".to_string(),
                sdp_mid: Some("0".to_string()),
                sdp_mline_index: Some(2),
                username_fragment: None
            }
        }
    );
    assert_eq!(
        connection.on_event(Event::PublisherOffer(Id::Int(9), NegotiateMsg { desc: offer() })),
        Step::PublisherOffer { peer: 42, reply: Id::Int(9), desc: offer() }
    );
    assert_eq!(
        connection.on_event(Event::SubscriberAnswer(NegotiateMsg { desc: offer() })),
        Step::SubscriberAnswer { peer: 42, desc: offer() }
    );
    assert_eq!(
        connection.on_event(Event::Presence(Presence {
            revision: 7,
            meta: "{\"name\":\"a\"}".to_string()
        })),
        Step::PresenceSet { peer: 42, meta: "{\"name\":\"a\"}".to_string() }
    );
}

#[test]
fn events_that_clients_do_not_send_are_ignored() {
    let mut connection = Connection::new();
    assert_eq!(connection.on_event(Event::SubscriberOffer(offer())), Step::Ignored);
    connection.joined(1, "r1".to_string());
    assert_eq!(connection.on_event(Event::SubscriberOffer(offer())), Step::Ignored);
}

#[test]
fn finish_names_the_peer_to_remove() {
    let mut connection = Connection::new();
    connection.joined(1, "r1".to_string());
    connection.joined(2, "r2".to_string());
    assert_eq!(connection.finish(), Some(("r2".to_string(), 2)));
}

#[test]
fn join_makes_the_room_and_adds_the_peer() {
    let mut coordinator: LocalCoordinator<LocalSession> = LocalCoordinator::new();
    let mut connection = Connection::new();
    let made = join(&mut coordinator, &mut connection, "r1".to_string(), Peer::with_id(3));
    assert!(made.unwrap().is_empty());
    assert_eq!(connection.peer(), Some(3));
    assert_eq!(connection.session(), Some(&"r1".to_string()));
    assert_eq!(coordinator.session_count(), 1);
    assert!(coordinator.get_or_create_session("r1".to_string()).peer(3).is_some());
}

#[test]
fn join_with_a_taken_id_leaves_the_connection_unjoined() {
    let mut coordinator: LocalCoordinator<LocalSession> = LocalCoordinator::new();
    let mut first = Connection::new();
    let mut second = Connection::new();
    join(&mut coordinator, &mut first, "r1".to_string(), Peer::with_id(3)).unwrap();
    let refused = join(&mut coordinator, &mut second, "r1".to_string(), Peer::with_id(3));
    assert_eq!(refused.err(), Some(SessionError::DuplicatePeer));
    assert_eq!(second.peer(), None);
    assert_eq!(second.session(), None);
    assert_eq!(coordinator.get_or_create_session("r1".to_string()).peer_count(), 1);
    let elsewhere = join(&mut coordinator, &mut second, "r2".to_string(), Peer::with_id(3));
    assert!(elsewhere.is_ok());
    assert_eq!(second.session(), Some(&"r2".to_string()));
}

#[test]
fn set_remote_media_names_stream_and_encoding() {
    let request = SetRemoteMedia { stream_id: "s".to_string(), rid: "q".to_string() };
    assert_eq!(request, SetRemoteMedia { stream_id: "s".to_string(), rid: "q".to_string() });
}

#[test]
fn reply_is_a_response_under_the_request_id() {
    let answer = SessionDescription { sdp_type: SdpType::Answer, sdp: "v=0\r\n".to_string() };
    assert_eq!(
        reply(Id::Int(12), &answer),
        Message::Response(Response {
            id: Id::Int(12),
            result: Some("{\"sdp\":\"v=0\\r\\n\",\"type\":\"answer\"}".to_string()),
            error: None
        })
    );
}

#[test]
fn reply_error_is_a_response_without_result() {
    assert_eq!(
        reply_error(Id::Uuid("q".to_string()), "no \"local\" description"),
        Message::Response(Response {
            id: Id::Uuid("q".to_string()),
            result: None,
            error: Some("\"no \\\"local\\\" description\"".to_string())
        })
    );
}

#[test]
fn outbound_candidate_goes_out_as_trickle() {
    assert_eq!(
        outbound(&Event::TrickleIce(trickle(1))),
        Some(Message::Notification(Notification {
            method: "trickle".to_string(),
            params: "{\"candidate\":{\"candidate\":\"candidate:1\",\"sdpMLineIndex\":2,\"sdpMid\":\"0\"},\"target\":1}"
                .to_string()
        }))
    );
}

#[test]
fn outbound_offer_goes_out_as_offer() {
    assert_eq!(
        outbound(&Event::SubscriberOffer(offer())),
        Some(Message::Notification(Notification {
            method: "offer".to_string(),
            params: "{\"sdp\":\"v=0\",\"type\":\"offer\"}".to_string()
        }))
    );
}

#[test]
fn outbound_presence_goes_out_as_presence() {
    let presence = Presence { revision: 3, meta: "{\"a\": {\"name\": \"x\"}}".to_string() };
    assert_eq!(
        outbound(&Event::Presence(presence)),
        Some(Message::Notification(Notification {
            method: "presence".to_string(),
            params: "{\"meta\":{\"a\":{\"name\":\"x\"}},\"revision\":3}".to_string()
        }))
    );
}

#[test]
fn events_of_clients_do_not_go_out() {
    assert_eq!(outbound(&Event::SubscriberAnswer(NegotiateMsg { desc: offer() })), None);
    assert_eq!(
        outbound(&Event::JoinRequest(
            Id::Int(1),
            JoinMsg { sid: "r1".to_string(), offer: offer() }
        )),
        None
    );
    assert_eq!(
        outbound(&Event::PublisherOffer(Id::Int(1), NegotiateMsg { desc: offer() })),
        None
    );
}

fn call(method: &str, params: &str) -> Message {
    Message::Request(Request {
        id: Id::Int(5),
        method: method.to_string(),
        params: params.to_string(),
    })
}

fn tell(method: &str, params: &str) -> Message {
    Message::Notification(Notification { method: method.to_string(), params: params.to_string() })
}

#[test]
fn inbound_join_carries_room_and_offer() {
    let params = "{\"sid\":\"r1\",\"offer\":{\"type\":\"offer\",\"sdp\":\"v=0\"},\"extra\":1}";
    assert_eq!(
        inbound(call("join", params)),
        Some(Event::JoinRequest(Id::Int(5), JoinMsg { sid: "r1".to_string(), offer: offer() }))
    );
}

#[test]
fn inbound_offer_and_answer_carry_a_description() {
    let params = "{\"desc\":{\"sdp\":\"v=0\",\"type\":\"offer\"}}";
    assert_eq!(
        inbound(call("offer", params)),
        Some(Event::PublisherOffer(Id::Int(5), NegotiateMsg { desc: offer() }))
    );
    assert_eq!(
        inbound(tell("answer", params)),
        Some(Event::SubscriberAnswer(NegotiateMsg { desc: offer() }))
    );
}

#[test]
fn inbound_trickle_carries_target_and_candidate() {
    let params =
        "{\"target\":1,\"candidate\":{\"candidate\":\"candidate:1\",\"sdpMid\":\"0\",\"sdpMLineIndex\":2}}";
    assert_eq!(inbound(tell("trickle", params)), Some(Event::TrickleIce(trickle(1))));
}

#[test]
fn inbound_presence_set_carries_the_parameters_as_metadata() {
    let expected = || Event::Presence(Presence { revision: 0, meta: "{\"name\":\"a\"}".to_string() });
    assert_eq!(inbound(tell("presence_set", "{\"name\":\"a\"}")), Some(expected()));
    assert_eq!(inbound(call("presence_set", "{\"name\":\"a\"}")), Some(expected()));
}

#[test]
fn inbound_messages_with_wrong_parameters_are_dropped() {
    assert_eq!(inbound(call("join", "{\"sid\":\"r1\"}")), None);
    assert_eq!(inbound(call("join", "{\"sid\":1,\"offer\":{\"type\":\"offer\",\"sdp\":\"\"}}")), None);
    assert_eq!(inbound(call("join", "{\"sid\":\"r\",\"offer\":{\"type\":\"loud\",\"sdp\":\"\"}}")), None);
    assert_eq!(inbound(call("join", "{\"sid\":\"r\",\"offer\":{\"type\":\"offer\"}}")), None);
    assert_eq!(inbound(call("offer", "{}")), None);
    assert_eq!(inbound(call("offer", "not json")), None);
    assert_eq!(inbound(tell("answer", "{\"desc\":null}")), None);
    assert_eq!(inbound(tell("trickle", "{\"target\":1}")), None);
    assert_eq!(inbound(tell("trickle", "{\"target\":-1,\"candidate\":{\"candidate\":\"c\",\"sdpMLineIndex\":0}}")), None);
}

#[test]
fn inbound_messages_of_unknown_methods_are_dropped() {
    assert_eq!(inbound(call("leave", "{}")), None);
    assert_eq!(inbound(tell("join", "{\"sid\":\"r1\",\"offer\":{\"type\":\"offer\",\"sdp\":\"v=0\"}}")), None);
    assert_eq!(
        inbound(Message::Response(Response { id: Id::Int(1), result: None, error: None })),
        None
    );
}
