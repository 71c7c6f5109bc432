//! One participant: its negotiation state and its reactions to the transport.

use vstd::prelude::*;
use crate::proto::signal::{
    IceCandidateInit,
    SessionDescription,
    TrickleCandidate,
    TrickleNotification,
};
use crate::sfu::routing::layer::layer_of_rid;
use crate::sfu::routing::router::{LayerReader, MediaTrackRouter};
use crate::sfu::routing::subscriber::MediaTrackSubscriber;
use crate::sfu::routing::track::TrackRemote;
use crate::sfu::session::SessionEvent;
use crate::signal::signal::Event;

verus! {

/// Identifies a participant for as long as its signaling connection lasts.
pub type Id = u128;

/// Names the publisher connection in a `trickle` message.
pub const TRANSPORT_TARGET_PUB: u32 = 0;

/// Names the subscriber connection in a `trickle` message.
pub const TRANSPORT_TARGET_SUB: u32 = 1;

/// State of a transport connection.
#[derive(Clone, Copy, Debug, PartialEq, Eq, Structural)]
pub enum PeerConnectionState {
    Unspecified,
    New,
    Connecting,
    Connected,
    Disconnected,
    Failed,
    Closed,
}

/// Why a negotiation step failed.
#[derive(Clone, Copy, Debug, PartialEq, Eq, Structural)]
pub enum PeerError {
    /// The transport reports no local description although one was just set.
    NoLocalDescription,
}

/// What is to be done with a candidate that the client sent.
#[derive(Debug, PartialEq, Eq)]
pub enum TrickleAction {
    /// Hand it to the publisher connection now.
    ApplyToPublisher(IceCandidateInit),
    /// Hand it to the subscriber connection now.
    ApplyToSubscriber(IceCandidateInit),
    /// It waits in the queue until the subscriber connection has a remote
    /// description.
    Buffered,
    /// It names no connection and is dropped.
    Ignored,
}

/// Something that the transport engine reports about one of a peer's two
/// connections.
#[derive(Debug)]
pub enum TransportEvent {
    /// The publisher connection found a candidate, or finished gathering.
    PublisherIceCandidate(Option<TrickleCandidate>),
    /// The subscriber connection found a candidate, or finished gathering.
    SubscriberIceCandidate(Option<TrickleCandidate>),
    /// The publisher connection surfaced an incoming track; `receiver` tells
    /// whether a receiver came with it.
    IncomingTrack { track: Option<TrackRemote>, receiver: bool },
    /// The subscriber connection, now in the given state, needs a new
    /// offer/answer exchange.
    NegotiationNeeded(PeerConnectionState),
}

/// What a transport event leads to.
#[derive(Debug)]
pub enum Reaction {
    /// Nothing is to be done.
    Nothing,
    /// The event goes out to the client.
    Emit(Event),
    /// A track was published: `published` goes to the session, `reader` takes
    /// the packets of the track until its source ends, then `removed` goes to
    /// the session.
    Publish { published: SessionEvent, reader: LayerReader, removed: SessionEvent },
    /// The subscriber connection is to create an offer and take it as its
    /// local description; the offer then goes out to the client.
    Offer,
}

/// A server that helps a connection find its way through address
/// translation.
#[derive(Debug, PartialEq, Eq)]
pub struct IceServer {
    pub urls: Vec<String>,
    pub username: String,
    pub credential: String,
}

/// How the connections of a peer are set up.
#[derive(Debug, PartialEq, Eq)]
pub struct PeerConfig {
    pub ice_servers: Vec<IceServer>,
}

impl Default for PeerConfig {
    /// The configuration with one public STUN server and no credentials.
    fn default() -> (config: PeerConfig)
        ensures
            config.ice_servers@.len() == 1,
            config.ice_servers@[0].urls@.len() == 1,
            config.ice_servers@[0].urls@[0]@ == "stun:stun.l.google.com:19302"@,
            config.ice_servers@[0].username@.len() == 0,
            config.ice_servers@[0].credential@.len() == 0,
    {
        let mut urls: Vec<String> = Vec::new();
        urls.push("stun:stun.l.google.com:19302".to_owned());
        let mut ice_servers: Vec<IceServer> = Vec::new();
        ice_servers.push(IceServer { urls, username: String::new(), credential: String::new() });
        PeerConfig { ice_servers }
    }
}

/// One participant of a room, with a publisher connection for the media it
/// sends and a subscriber connection for the media it receives.
#[derive(Debug)]
pub struct Peer {
    id: Id,
    sub_pending_candidates: Vec<IceCandidateInit>,
    sub_remote_description: bool,
    closed: bool,
    subscriptions: Vec<String>,
}

/// Whether `id` has the form of a random UUID: the version 4 in its bits 76
/// to 79 and the variant `10` in its bits 62 and 63. The other 122 bits are
/// free.
pub open spec fn is_random_uuid(id: Id) -> bool {
    id & 0x0000_0000_0000_f000_c000_0000_0000_0000 == 0x0000_0000_0000_4000_8000_0000_0000_0000
}

/// Draws the id of a new participant. Calls `uuid::Uuid::new_v4`, which
/// takes 128 random bits and sets the version and the variant of a random
/// UUID in them, and takes the value with `uuid::Uuid::as_u128`. Of the
/// value only that form is claimed; which value is drawn is left open.
#[verifier::external_body]
fn random_id() -> (id: Id)
    ensures
        is_random_uuid(id),
{
    uuid::Uuid::new_v4().as_u128()
}

/// The text that a peer id is written as: its 128 bits as the hyphenated
/// lower-case numeral of a UUID.
pub uninterp spec fn peer_id_text(id: Id) -> Seq<char>;

/// Writes a peer id as text. Makes a `uuid::Uuid` of the id with
/// `uuid::Uuid::from_u128` and writes it with its `Display`, which gives the
/// hyphenated lower-case form.
#[verifier::external_body]
pub(crate) fn id_text(id: Id) -> (text: String)
    ensures
        text@ == peer_id_text(id),
{
    uuid::Uuid::from_u128(id).to_string()
}

impl Peer {
    /// The id, in specifications.
    pub closed spec fn id_spec(&self) -> Id {
        self.id
    }

    /// The candidates for the subscriber connection that wait for its remote
    /// description, oldest first.
    pub closed spec fn pending(&self) -> Seq<IceCandidateInit> {
        self.sub_pending_candidates@
    }

    /// Whether the subscriber connection has a remote description.
    pub closed spec fn has_remote_description(&self) -> bool {
        self.sub_remote_description
    }

    /// Whether the peer has been closed.
    pub closed spec fn is_closed(&self) -> bool {
        self.closed
    }

    /// Ids of the routers whose subscribers are attached to the subscriber
    /// connection, in the order in which they were attached.
    pub closed spec fn subscriptions(&self) -> Seq<Seq<char>> {
        self.subscriptions@.map_values(|id: String| id@)
    }

    /// Whether the peer is subscribed to the router `id`.
    pub open spec fn subscribed_to(&self, id: Seq<char>) -> bool {
        self.subscriptions().contains(id)
    }

    /// This peer, closed.
    pub closed spec fn closed_peer(self) -> Peer {
        Peer {
            id: self.id,
            sub_pending_candidates: self.sub_pending_candidates,
            sub_remote_description: self.sub_remote_description,
            closed: true,
            subscriptions: self.subscriptions,
        }
    }

    /// A peer as it is when its connections have just been made: open, with
    /// no remote description, no waiting candidate and no subscription.
    pub open spec fn is_new(&self) -> bool {
        &&& self.pending().len() == 0
        &&& !self.has_remote_description()
        &&& !self.is_closed()
        &&& self.subscriptions().len() == 0
    }

    /// New peer with an id drawn at random, in the form of a random UUID.
    pub fn new() -> (peer: Peer)
        ensures
            peer.is_new(),
            is_random_uuid(peer.id_spec()),
    {
        Peer::with_id(random_id())
    }

    /// New peer with the given id.
    pub fn with_id(id: Id) -> (peer: Peer)
        ensures
            peer.is_new(),
            peer.id_spec() == id,
    {
        let peer = Peer {
            id,
            sub_pending_candidates: Vec::new(),
            sub_remote_description: false,
            closed: false,
            subscriptions: Vec::new(),
        };
        assert(peer.subscriptions() =~= Seq::empty());
        peer
    }

    /// The id.
    pub fn id(&self) -> (id: Id)
        ensures
            id == self.id_spec(),
    {
        self.id
    }

    /// Whether the peer has been closed.
    pub fn closed(&self) -> (closed: bool)
        ensures
            closed == self.is_closed(),
    {
        self.closed
    }

    /// Number of candidates that wait for the subscriber connection's remote
    /// description.
    pub fn pending_candidates(&self) -> (count: usize)
        ensures
            count == self.pending().len(),
    {
        self.sub_pending_candidates.len()
    }

    /// Number of subscribers attached to the subscriber connection.
    pub fn subscription_count(&self) -> (count: usize)
        ensures
            count == self.subscriptions().len(),
    {
        self.subscriptions.len()
    }

    /// Whether a subscriber of the router with the given id is attached to
    /// the subscriber connection.
    pub fn is_subscribed_to(&self, id: &String) -> (found: bool)
        ensures
            found == self.subscribed_to(id@),
    {
        let mut i: usize = 0;
        while i < self.subscriptions.len()
            invariant
                i <= self.subscriptions@.len(),
                forall|k: int| 0 <= k < i ==> self.subscriptions()[k] != id@,
            decreases self.subscriptions@.len() - i,
        {
            if self.subscriptions[i] == *id {
                assert(self.subscriptions()[i as int] == id@);
                return true;
            }
            i += 1;
        }
        false
    }

    /// Concludes an offer/answer exchange on the publisher connection. The
    /// transport has taken the client's offer as remote description and has
    /// created an answer and set it; `local_description` is what it then
    /// reports as its local description. That is the answer for the client;
    /// if there is none, the exchange has failed.
    pub fn publisher_get_answer_for_offer(local_description: Option<SessionDescription>) -> (answer:
        Result<SessionDescription, PeerError>)
        ensures
            match local_description {
                Some(description) => answer == Ok::<SessionDescription, PeerError>(description),
                None => answer == Err::<SessionDescription, PeerError>(
                    PeerError::NoLocalDescription,
                ),
            },
    {
        match local_description {
            Some(answer) => Ok(answer),
            None => Err(PeerError::NoLocalDescription),
        }
    }

    /// Records that the subscriber connection has taken the client's answer
    /// as its remote description, and hands out the candidates that waited
    /// for it, oldest first; they are to be applied in that order.
    pub fn subscriber_set_answer(&mut self) -> (candidates: Vec<IceCandidateInit>)
        ensures
            candidates@ == old(self).pending(),
            final(self).pending().len() == 0,
            final(self).has_remote_description(),
            final(self).id_spec() == old(self).id_spec(),
            final(self).is_closed() == old(self).is_closed(),
            final(self).subscriptions() == old(self).subscriptions(),
    {
        self.sub_remote_description = true;
        let mut candidates: Vec<IceCandidateInit> = Vec::new();
        candidates.append(&mut self.sub_pending_candidates);
        assert(candidates@ =~= old(self).pending());
        candidates
    }

    /// Takes a candidate that the client sent. One for the publisher
    /// connection is applied at once. One for the subscriber connection is
    /// applied at once if that connection has a remote description, and else
    /// joins the end of the queue. One for any other target is dropped.
    pub fn trickle_ice_candidate(&mut self, target: u32, candidate: IceCandidateInit) -> (action:
        TrickleAction)
        ensures
            final(self).id_spec() == old(self).id_spec(),
            final(self).has_remote_description() == old(self).has_remote_description(),
            final(self).is_closed() == old(self).is_closed(),
            final(self).subscriptions() == old(self).subscriptions(),
            action == trickle_action(old(self).has_remote_description(), target, candidate),
            final(self).pending() == if action is Buffered {
                old(self).pending().push(candidate)
            } else {
                old(self).pending()
            },
    {
        if target == TRANSPORT_TARGET_PUB {
            TrickleAction::ApplyToPublisher(candidate)
        } else if target == TRANSPORT_TARGET_SUB {
            if self.sub_remote_description {
                TrickleAction::ApplyToSubscriber(candidate)
            } else {
                self.sub_pending_candidates.push(candidate);
                TrickleAction::Buffered
            }
        } else {
            TrickleAction::Ignored
        }
    }

    /// Attaches the outgoing track of `subscriber` to the subscriber
    /// connection.
    pub fn add_media_track_subscriber(&mut self, subscriber: &MediaTrackSubscriber)
        ensures
            final(self).subscriptions() == old(self).subscriptions().push(
                subscriber.router_spec(),
            ),
            final(self).id_spec() == old(self).id_spec(),
            final(self).pending() == old(self).pending(),
            final(self).has_remote_description() == old(self).has_remote_description(),
            final(self).is_closed() == old(self).is_closed(),
    {
        self.subscriptions.push(subscriber.router_id().clone());
        assert(self.subscriptions() =~= old(self).subscriptions().push(subscriber.router_spec()));
    }

    /// Whether a track is to be taken off the subscriber connection when its
    /// subscriber has stopped forwarding: it is, unless the connection, whose
    /// state is given, is closed already.
    pub fn removes_track(subscriber_state: PeerConnectionState) -> (due: bool)
        ensures
            due == (subscriber_state != PeerConnectionState::Closed),
    {
        match subscriber_state {
            PeerConnectionState::Closed => false,
            _ => true,
        }
    }

    /// Closes the peer. Tells whether its two connections are to be closed
    /// now: they are on the first call, never after.
    pub fn close(&mut self) -> (release: bool)
        ensures
            release == !old(self).is_closed(),
            *final(self) == old(self).closed_peer(),
            final(self).is_closed(),
            final(self).id_spec() == old(self).id_spec(),
            final(self).pending() == old(self).pending(),
            final(self).has_remote_description() == old(self).has_remote_description(),
            final(self).subscriptions() == old(self).subscriptions(),
    {
        let release = !self.closed;
        self.closed = true;
        release
    }

    /// Decides what a report of the transport engine leads to. A candidate
    /// goes out to the client, marked with the connection it belongs to; the
    /// end of gathering leads to nothing. An incoming track that came with a
    /// receiver gets a router of its own, which is published to the session
    /// and later removed from it; a report without track or receiver leads to
    /// nothing. A need to negotiate leads to a new offer, unless the
    /// subscriber connection is closed.
    pub fn on_transport_event(event: TransportEvent) -> (reaction: Reaction)
        ensures
            match event {
                TransportEvent::PublisherIceCandidate(Some(candidate)) => reaction
                    == Reaction::Emit(
                    Event::TrickleIce(
                        TrickleNotification { target: TRANSPORT_TARGET_PUB, candidate },
                    ),
                ),
                TransportEvent::SubscriberIceCandidate(Some(candidate)) => reaction
                    == Reaction::Emit(
                    Event::TrickleIce(
                        TrickleNotification { target: TRANSPORT_TARGET_SUB, candidate },
                    ),
                ),
                TransportEvent::IncomingTrack { track: Some(track), receiver: true } => publishes(
                    reaction,
                    track,
                ),
                TransportEvent::NegotiationNeeded(state) => if state
                    == PeerConnectionState::Closed {
                    reaction is Nothing
                } else {
                    reaction is Offer
                },
                _ => reaction is Nothing,
            },
    {
        match event {
            TransportEvent::PublisherIceCandidate(Some(candidate)) => Reaction::Emit(
                Event::TrickleIce(TrickleNotification { target: TRANSPORT_TARGET_PUB, candidate }),
            ),
            TransportEvent::SubscriberIceCandidate(Some(candidate)) => Reaction::Emit(
                Event::TrickleIce(TrickleNotification { target: TRANSPORT_TARGET_SUB, candidate }),
            ),
            TransportEvent::IncomingTrack { track: Some(track), receiver: true } => {
                let removed = SessionEvent::TrackRemoved(track.id.clone());
                let mut router = MediaTrackRouter::new(track.ssrc, track.id.clone());
                let reader = router.add_layer(track);
                Reaction::Publish { published: SessionEvent::TrackPublished(router), reader, removed }
            },
            TransportEvent::NegotiationNeeded(state) => match state {
                PeerConnectionState::Closed => Reaction::Nothing,
                _ => Reaction::Offer,
            },
            _ => Reaction::Nothing,
        }
    }

    /// The event that carries a new subscriber offer to the client.
    pub fn subscriber_offer(offer: SessionDescription) -> (event: Event)
        ensures
            event == Event::SubscriberOffer(offer),
    {
        Event::SubscriberOffer(offer)
    }
}

/// Closing is idempotent. A peer that is closed a second time is what it was
/// after the first time, and the second call releases nothing.
pub proof fn law_close_is_idempotent(peer: Peer)
    ensures
        peer.closed_peer().is_closed(),
        peer.closed_peer().closed_peer() == peer.closed_peer(),
{
}

/// The queue of the subscriber connection after the client has sent
/// `trickles`, each a target and a candidate, while that connection had no
/// remote description.
pub open spec fn queue_after(
    pending: Seq<IceCandidateInit>,
    trickles: Seq<(u32, IceCandidateInit)>,
) -> Seq<IceCandidateInit>
    decreases trickles.len(),
{
    if trickles.len() == 0 {
        pending
    } else {
        let before = queue_after(pending, trickles.drop_last());
        if trickle_action(false, trickles.last().0, trickles.last().1) is Buffered {
            before.push(trickles.last().1)
        } else {
            before
        }
    }
}

/// The candidates for the subscriber connection among `trickles`, in order.
pub open spec fn subscriber_candidates(trickles: Seq<(u32, IceCandidateInit)>) -> Seq<
    IceCandidateInit,
>
    decreases trickles.len(),
{
    if trickles.len() == 0 {
        Seq::empty()
    } else if trickles.last().0 == TRANSPORT_TARGET_SUB {
        subscriber_candidates(trickles.drop_last()).push(trickles.last().1)
    } else {
        subscriber_candidates(trickles.drop_last())
    }
}

/// Waiting candidates keep the order in which they came. While the
/// subscriber connection has no remote description, its queue holds what it
/// held before, followed by the candidates that the client sent for that
/// connection, first come first; candidates for other targets never enter.
/// That is the order in which [`Peer::subscriber_set_answer`] hands them out.
pub proof fn law_waiting_candidates_keep_arrival_order(
    pending: Seq<IceCandidateInit>,
    trickles: Seq<(u32, IceCandidateInit)>,
)
    ensures
        queue_after(pending, trickles) == pending + subscriber_candidates(trickles),
    decreases trickles.len(),
{
    if trickles.len() == 0 {
        assert(pending + subscriber_candidates(trickles) =~= pending);
    } else {
        law_waiting_candidates_keep_arrival_order(pending, trickles.drop_last());
        let before = subscriber_candidates(trickles.drop_last());
        assert(pending + before.push(trickles.last().1) =~= (pending + before).push(
            trickles.last().1,
        ));
    }
}

/// What is done with a candidate for `target` while the subscriber connection
/// has, or has not, a remote description.
pub open spec fn trickle_action(
    has_remote_description: bool,
    target: u32,
    candidate: IceCandidateInit,
) -> TrickleAction {
    if target == TRANSPORT_TARGET_PUB {
        TrickleAction::ApplyToPublisher(candidate)
    } else if target == TRANSPORT_TARGET_SUB {
        if has_remote_description {
            TrickleAction::ApplyToSubscriber(candidate)
        } else {
            TrickleAction::Buffered
        }
    } else {
        TrickleAction::Ignored
    }
}

/// Whether `reaction` publishes `track`: a well-formed router named after the
/// track, for the track's media source, with the track as its one layer; a
/// reader for that layer that has read nothing; and the removal of that same
/// track id.
pub open spec fn publishes(reaction: Reaction, track: TrackRemote) -> bool {
    match reaction {
        Reaction::Publish { published: SessionEvent::TrackPublished(router), reader, removed } => {
            &&& router.wf()
            &&& router.id_spec() == track.id@
            &&& router.ssrc_spec() == track.ssrc
            &&& router.sources().len() == 1
            &&& router.sources()[0].layer@ == layer_of_rid(track.rid@)
            &&& router.sources()[0].track == track
            &&& reader.layer_spec() == layer_of_rid(track.rid@)
            &&& reader.last_spec() is None
            &&& match removed {
                SessionEvent::TrackRemoved(id) => id@ == track.id@,
                _ => false,
            }
        },
        _ => false,
    }
}

} // verus!
