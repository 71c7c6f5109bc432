use switchboard_sfu::proto::signal::{
    IceCandidateInit, SdpType, SessionDescription, TrickleCandidate, TrickleNotification,
};
use switchboard_sfu::sfu::peer::{
    IceServer, Peer, PeerConfig, PeerConnectionState, PeerError, Reaction, TransportEvent, TrickleAction,
    TRANSPORT_TARGET_PUB, TRANSPORT_TARGET_SUB,
};
use switchboard_sfu::sfu::routing::layer::Layer;
use switchboard_sfu::sfu::routing::subscriber::MediaTrackSubscriber;
use switchboard_sfu::sfu::routing::track::{CodecCapability, TrackRemote};
use switchboard_sfu::sfu::session::SessionEvent;
use switchboard_sfu::signal::signal::Event;

fn candidate(n: u16) -> IceCandidateInit {
    IceCandidateInit {
        candidate: format!("candidate:{} 1 udp 2130706431 10.0.0.{} 5000 typ host", n, n),
        sdp_mid: Some("0".to_string()),
        sdp_mline_index: Some(n),
        username_fragment: None,
    }
}

fn wire(n: u32) -> TrickleCandidate {
    TrickleCandidate {
        candidate: format!("candidate:{}", n),
        sdp_mid: Some("audio".to_string()),
        sdp_mline_index: n,
    }
}

fn track(id: &str, rid: &str) -> TrackRemote {
    TrackRemote {
        id: id.to_string(),
        stream_id: "stream".to_string(),
        rid: rid.to_string(),
        ssrc: 4242,
        payload_type: 111,
        codec: CodecCapability {
            mime_type: "audio/opus".to_string(),
            clock_rate: 48000,
            channels: 2,
            sdp_fmtp_line: "minptime=10;useinbandfec=1".to_string(),
            rtcp_feedback: Vec::new(),
        },
    }
}

fn answer(text: &str) -> SessionDescription {
    SessionDescription { sdp_type: SdpType::Answer, sdp: text.to_string() }
}

#[test]
fn trickle_candidate_from_init_widens_the_index() {
    let out = TrickleCandidate::from(candidate(3));
    assert_eq!(out.candidate, candidate(3).candidate);
    assert_eq!(out.sdp_mid, Some("0".to_string()));
    assert_eq!(out.sdp_mline_index, 3);
}

#[test]
fn init_from_trickle_candidate_truncates_the_index() {
    let out = IceCandidateInit::from(wire(7));
    assert_eq!(out.candidate, "candidate:7");
    assert_eq!(out.sdp_mid, Some("audio".to_string()));
    assert_eq!(out.sdp_mline_index, Some(7));
    assert_eq!(out.username_fragment, None);
    assert_eq!(IceCandidateInit::from(wire(65536 + 5)).sdp_mline_index, Some(5));
    assert_eq!(IceCandidateInit::from(wire(u32::MAX)).sdp_mline_index, Some(65535));
}

#[test]
fn new_peer_is_open_and_empty() {
    let peer = Peer::with_id(77);
    assert_eq!(peer.id(), 77);
    assert!(!peer.closed());
    assert_eq!(peer.pending_candidates(), 0);
    assert_eq!(peer.subscription_count(), 0);
}

#[test]
fn new_peers_get_ids_of_their_own() {
    let a = Peer::new();
    let b = Peer::new();
    assert_ne!(a.id(), b.id());
    assert!(!a.closed());
    assert_eq!(a.pending_candidates(), 0);
}

#[test]
fn new_peers_get_ids_in_the_form_of_a_random_uuid() {
    for _ in 0..64 {
        let id = Peer::new().id();
        assert_eq!((id >> 76) & 0xf, 4);
        assert_eq!((id >> 62) & 0x3, 2);
        assert_eq!(
            id & 0x0000_0000_0000_f000_c000_0000_0000_0000,
            0x0000_0000_0000_4000_8000_0000_0000_0000
        );
    }
}

#[test]
fn publisher_answer_is_the_local_description() {
    assert_eq!(Peer::publisher_get_answer_for_offer(Some(answer("v=0"))), Ok(answer("v=0")));
}

#[test]
fn publisher_answer_fails_without_local_description() {
    assert_eq!(Peer::publisher_get_answer_for_offer(None), Err(PeerError::NoLocalDescription));
}

#[test]
fn trickle_for_the_publisher_is_applied_at_once() {
    let mut peer = Peer::with_id(1);
    let action = peer.trickle_ice_candidate(TRANSPORT_TARGET_PUB, candidate(1));
    assert_eq!(action, TrickleAction::ApplyToPublisher(candidate(1)));
    assert_eq!(peer.pending_candidates(), 0);
}

#[test]
fn trickle_for_the_subscriber_waits_for_the_remote_description() {
    let mut peer = Peer::with_id(1);
    assert_eq!(
        peer.trickle_ice_candidate(TRANSPORT_TARGET_SUB, candidate(1)),
        TrickleAction::Buffered
    );
    assert_eq!(peer.pending_candidates(), 1);
}

#[test]
fn trickle_for_the_subscriber_is_applied_once_the_answer_is_set() {
    let mut peer = Peer::with_id(1);
    assert_eq!(peer.subscriber_set_answer(), Vec::new());
    assert_eq!(
        peer.trickle_ice_candidate(TRANSPORT_TARGET_SUB, candidate(2)),
        TrickleAction::ApplyToSubscriber(candidate(2))
    );
    assert_eq!(peer.pending_candidates(), 0);
}

#[test]
fn trickle_for_an_unknown_target_is_dropped() {
    let mut peer = Peer::with_id(1);
    assert_eq!(peer.trickle_ice_candidate(2, candidate(1)), TrickleAction::Ignored);
    assert_eq!(peer.trickle_ice_candidate(u32::MAX, candidate(1)), TrickleAction::Ignored);
    assert_eq!(peer.pending_candidates(), 0);
}

#[test]
fn waiting_candidates_come_out_in_arrival_order() {
    let mut peer = Peer::with_id(1);
    peer.trickle_ice_candidate(TRANSPORT_TARGET_SUB, candidate(1));
    peer.trickle_ice_candidate(TRANSPORT_TARGET_PUB, candidate(9));
    peer.trickle_ice_candidate(TRANSPORT_TARGET_SUB, candidate(2));
    peer.trickle_ice_candidate(5, candidate(8));
    peer.trickle_ice_candidate(TRANSPORT_TARGET_SUB, candidate(3));
    assert_eq!(peer.subscriber_set_answer(), vec![candidate(1), candidate(2), candidate(3)]);
    assert_eq!(peer.pending_candidates(), 0);
    assert_eq!(peer.subscriber_set_answer(), Vec::new());
}

#[test]
fn close_releases_once() {
    let mut peer = Peer::with_id(1);
    peer.trickle_ice_candidate(TRANSPORT_TARGET_SUB, candidate(1));
    assert!(peer.close());
    assert!(peer.closed());
    assert!(!peer.close());
    assert!(!peer.close());
    assert!(peer.closed());
    assert_eq!(peer.pending_candidates(), 1);
    assert_eq!(peer.id(), 1);
}

#[test]
fn attached_subscribers_are_remembered_by_router() {
    let mut peer = Peer::with_id(1);
    let cam = MediaTrackSubscriber::new(&track("cam", ""), "cam".to_string());
    let mic = MediaTrackSubscriber::new(&track("mic", ""), "mic".to_string());
    peer.add_media_track_subscriber(&cam);
    assert!(peer.is_subscribed_to(&"cam".to_string()));
    assert!(!peer.is_subscribed_to(&"mic".to_string()));
    peer.add_media_track_subscriber(&mic);
    peer.add_media_track_subscriber(&cam);
    assert!(peer.is_subscribed_to(&"mic".to_string()));
    assert_eq!(peer.subscription_count(), 3);
}

#[test]
fn track_is_removed_unless_the_connection_is_closed() {
    assert!(!Peer::removes_track(PeerConnectionState::Closed));
    for state in [
        PeerConnectionState::Unspecified,
        PeerConnectionState::New,
        PeerConnectionState::Connecting,
        PeerConnectionState::Connected,
        PeerConnectionState::Disconnected,
        PeerConnectionState::Failed,
    ] {
        assert!(Peer::removes_track(state));
    }
}

#[test]
fn publisher_candidate_goes_out_with_target_zero() {
    match Peer::on_transport_event(TransportEvent::PublisherIceCandidate(Some(wire(4)))) {
        Reaction::Emit(event) => assert_eq!(
            event,
            Event::TrickleIce(TrickleNotification { target: 0, candidate: wire(4) })
        ),
        other => panic!("unexpected reaction {:?}", other),
    }
}

#[test]
fn subscriber_candidate_goes_out_with_target_one() {
    match Peer::on_transport_event(TransportEvent::SubscriberIceCandidate(Some(wire(4)))) {
        Reaction::Emit(event) => assert_eq!(
            event,
            Event::TrickleIce(TrickleNotification { target: 1, candidate: wire(4) })
        ),
        other => panic!("unexpected reaction {:?}", other),
    }
}

#[test]
fn end_of_gathering_leads_to_nothing() {
    assert!(matches!(
        Peer::on_transport_event(TransportEvent::PublisherIceCandidate(None)),
        Reaction::Nothing
    ));
    assert!(matches!(
        Peer::on_transport_event(TransportEvent::SubscriberIceCandidate(None)),
        Reaction::Nothing
    ));
}

#[test]
fn incoming_track_gets_a_router_of_its_own() {
    let event = TransportEvent::IncomingTrack { track: Some(track("cam", "h")), receiver: true };
    match Peer::on_transport_event(event) {
        Reaction::Publish { published, reader, removed } => {
            match published {
                SessionEvent::TrackPublished(router) => {
                    assert_eq!(router.id(), "cam");
                    assert_eq!(router.ssrc(), 4242);
                    assert_eq!(router.layer_count(), 1);
                    let subscriber = router.add_subscriber().unwrap();
                    assert_eq!(subscriber.track().id, "cam");
                    assert_eq!(subscriber.track().codec.mime_type, "audio/opus");
                }
                other => panic!("unexpected event {:?}", other),
            }
            assert_eq!(*reader.layer(), Layer::Rid("h".to_string()));
            assert_eq!(reader.last_timestamp(), None);
            match removed {
                SessionEvent::TrackRemoved(id) => assert_eq!(id, "cam"),
                other => panic!("unexpected event {:?}", other),
            }
        }
        other => panic!("unexpected reaction {:?}", other),
    }
}

#[test]
fn incoming_track_without_track_or_receiver_leads_to_nothing() {
    assert!(matches!(
        Peer::on_transport_event(TransportEvent::IncomingTrack { track: None, receiver: true }),
        Reaction::Nothing
    ));
    assert!(matches!(
        Peer::on_transport_event(TransportEvent::IncomingTrack {
            track: Some(track("cam", "")),
            receiver: false
        }),
        Reaction::Nothing
    ));
}

#[test]
fn negotiation_needed_leads_to_an_offer_unless_closed() {
    assert!(matches!(
        Peer::on_transport_event(TransportEvent::NegotiationNeeded(PeerConnectionState::Closed)),
        Reaction::Nothing
    ));
    assert!(matches!(
        Peer::on_transport_event(TransportEvent::NegotiationNeeded(PeerConnectionState::New)),
        Reaction::Offer
    ));
    assert!(matches!(
        Peer::on_transport_event(TransportEvent::NegotiationNeeded(
            PeerConnectionState::Connected
        )),
        Reaction::Offer
    ));
}

#[test]
fn subscriber_offer_event_carries_the_offer() {
    let offer = SessionDescription { sdp_type: SdpType::Offer, sdp: "v=0".to_string() };
    assert_eq!(Peer::subscriber_offer(offer.clone()), Event::SubscriberOffer(offer));
}

#[test]
fn default_config_names_one_stun_server() {
    let config = PeerConfig::default();
    assert_eq!(
        config,
        PeerConfig {
            ice_servers: vec![IceServer {
                urls: vec!["stun:stun.l.google.com:19302".to_string()],
                username: String::new(),
                credential: String::new(),
            }]
        }
    );
}
