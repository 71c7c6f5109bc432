use switchboard_sfu::proto::signal::{SdpType, SessionDescription};
use switchboard_sfu::sfu::coordinator::{Coordinator, LocalCoordinator};
use switchboard_sfu::sfu::peer::{Peer, PeerConnectionState, Reaction, TransportEvent};
use switchboard_sfu::sfu::routing::layer::Layer;
use switchboard_sfu::sfu::routing::packet::{RtpHeader, RtpPacket};
use switchboard_sfu::sfu::routing::track::{CodecCapability, TrackRemote};
use switchboard_sfu::sfu::session::{Handled, LocalSession, Session};
use switchboard_sfu::signal::server::{join, Connection};
use switchboard_sfu::proto::jsonrpc::{to_text, Event as Message};
use switchboard_sfu::signal::signal::{outbound, Event};

fn camera_of_a() -> TrackRemote {
    TrackRemote {
        id: "a-camera".to_string(),
        stream_id: "a".to_string(),
        rid: String::new(),
        ssrc: 1234,
        payload_type: 96,
        codec: CodecCapability {
            mime_type: "video/VP8".to_string(),
            clock_rate: 90000,
            channels: 0,
            sdp_fmtp_line: String::new(),
            rtcp_feedback: Vec::new(),
        },
    }
}

fn rtp(timestamp: u32, sequence_number: u16) -> RtpPacket {
    RtpPacket {
        header: RtpHeader {
            version: 2,
            padding: false,
            extension: false,
            marker: false,
            payload_type: 96,
            sequence_number,
            timestamp,
            ssrc: 1234,
            csrc: Vec::new(),
            extension_profile: 0,
            extensions: Vec::new(),
        },
        payload: vec![1, 2, 3],
    }
}

#[test]
fn late_joiner_is_offered_the_tracks_already_published() {
    let mut coordinator: LocalCoordinator<LocalSession> = LocalCoordinator::new();

    let mut a = Connection::new();
    let for_a = join(&mut coordinator, &mut a, "r1".to_string(), Peer::with_id(1)).unwrap();
    assert!(for_a.is_empty());

    let incoming = TransportEvent::IncomingTrack { track: Some(camera_of_a()), receiver: true };
    let (published, mut reader) = match Peer::on_transport_event(incoming) {
        Reaction::Publish { published, reader, .. } => (published, reader),
        other => panic!("unexpected reaction {:?}", other),
    };
    assert_eq!(*reader.layer(), Layer::Unicast);
    match coordinator.get_or_create_session("r1".to_string()).handle_event(published) {
        Handled::Published(Ok(made)) => {
            assert_eq!(made.len(), 1);
            assert_eq!(made[0].peer, 1);
        }
        other => panic!("unexpected outcome {:?}", other),
    }

    let mut b = Connection::new();
    let mut for_b = join(&mut coordinator, &mut b, "r1".to_string(), Peer::with_id(2)).unwrap();
    assert_eq!(for_b.len(), 1);
    assert_eq!(for_b[0].peer, 2);
    assert_eq!(for_b[0].subscriber.track().id, "a-camera");
    assert_eq!(for_b[0].subscriber.track().stream_id, "a");
    assert_eq!(for_b[0].subscriber.track().codec.mime_type, "video/VP8");
    let session = coordinator.get_or_create_session("r1".to_string());
    assert!(session.peer(2).unwrap().is_subscribed_to(&"a-camera".to_string()));

    let needed = TransportEvent::NegotiationNeeded(PeerConnectionState::New);
    assert!(matches!(Peer::on_transport_event(needed), Reaction::Offer));
    let offer = SessionDescription { sdp_type: SdpType::Offer, sdp: "a-camera".to_string() };
    let event = Peer::subscriber_offer(offer.clone());
    assert_eq!(event, Event::SubscriberOffer(offer));
    match outbound(&event) {
        Some(message @ Message::Notification(_)) => assert_eq!(
            to_text(message),
            "{\"jsonrpc\":\"2.0\",\"method\":\"offer\",\"params\":{\"sdp\":\"a-camera\",\"type\":\"offer\"}}"
        ),
        other => panic!("unexpected message {:?}", other),
    }

    let packet = reader.read(rtp(9000, 40), 2).unwrap();
    let out = for_b[0].subscriber.forward(packet).unwrap();
    assert_eq!(out.header.timestamp, 0);
    assert_eq!(out.header.sequence_number, 0);
    assert_eq!(out.payload, vec![1, 2, 3]);
}

#[test]
fn leaving_client_is_removed_from_its_room() {
    let mut coordinator: LocalCoordinator<LocalSession> = LocalCoordinator::new();
    let mut a = Connection::new();
    let mut b = Connection::new();
    join(&mut coordinator, &mut a, "r1".to_string(), Peer::with_id(1)).unwrap();
    join(&mut coordinator, &mut b, "r1".to_string(), Peer::with_id(2)).unwrap();
    let (sid, peer) = a.finish().unwrap();
    let session = coordinator.get_or_create_session(sid);
    let removed = session.remove_peer(peer).unwrap();
    assert!(removed.closed());
    assert_eq!(session.peer_count(), 1);
    assert!(session.active());
}
