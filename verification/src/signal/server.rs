//! What one signaling connection does with the events of its client.

use vstd::prelude::*;
use crate::proto::jsonrpc;
use crate::proto::signal::{IceCandidateInit, SessionDescription};
use crate::sfu::coordinator::{
    law_registry_stays_well_formed,
    registry_wf,
    session_ids,
    Coordinator,
};
use crate::sfu::peer;
use crate::sfu::peer::Peer;
use crate::sfu::session;
use crate::sfu::session::{Session, SessionError, Subscription};
use crate::signal::signal::Event;

verus! {

/// What a connection is to do next.
#[derive(Debug, PartialEq, Eq)]
pub enum Step {
    /// Enter the room `sid` with a new peer, answer `offer` on its publisher
    /// connection, and send the answer back under `reply`.
    Join { reply: jsonrpc::Id, sid: session::Id, offer: SessionDescription },
    /// Hand `candidate` to the connection's peer.
    Trickle { peer: peer::Id, target: u32, candidate: IceCandidateInit },
    /// Answer `desc` on the publisher connection of the connection's peer,
    /// and send the answer back under `reply`.
    PublisherOffer { peer: peer::Id, reply: jsonrpc::Id, desc: SessionDescription },
    /// Hand `desc` to the subscriber connection of the connection's peer as
    /// its remote description.
    SubscriberAnswer { peer: peer::Id, desc: SessionDescription },
    /// Publish `meta` in the room as the metadata of the connection's peer.
    PresenceSet { peer: peer::Id, meta: String },
    /// The client has not joined a room yet; the event is dropped.
    NotJoined,
    /// The event is not one that a client sends; it is dropped.
    Ignored,
}

/// The signaling connection of one client: the room it joined and the peer
/// that stands for it there, once it has joined.
#[derive(Debug)]
pub struct Connection {
    peer: Option<peer::Id>,
    session: Option<session::Id>,
}

/// The step that an event of the client leads to, on a connection whose peer,
/// if it has joined, is `joined`.
pub open spec fn step_for(joined: Option<peer::Id>, event: Event) -> Step {
    match event {
        Event::JoinRequest(reply, join) => Step::Join { reply, sid: join.sid, offer: join.offer },
        Event::TrickleIce(trickle) => match joined {
            Some(peer) => Step::Trickle {
                peer,
                target: trickle.target,
                candidate: IceCandidateInit {
                    candidate: trickle.candidate.candidate,
                    sdp_mid: trickle.candidate.sdp_mid,
                    sdp_mline_index: Some(
                        crate::proto::signal::mline_index_low(trickle.candidate.sdp_mline_index),
                    ),
                    username_fragment: None,
                },
            },
            None => Step::NotJoined,
        },
        Event::PublisherOffer(reply, offer) => match joined {
            Some(peer) => Step::PublisherOffer { peer, reply, desc: offer.desc },
            None => Step::NotJoined,
        },
        Event::SubscriberAnswer(answer) => match joined {
            Some(peer) => Step::SubscriberAnswer { peer, desc: answer.desc },
            None => Step::NotJoined,
        },
        Event::Presence(presence) => match joined {
            Some(peer) => Step::PresenceSet { peer, meta: presence.meta },
            None => Step::NotJoined,
        },
        Event::SubscriberOffer(_) => Step::Ignored,
    }
}

impl Connection {
    /// The peer that stands for the client, once it has joined.
    pub closed spec fn peer_spec(&self) -> Option<peer::Id> {
        self.peer
    }

    /// Id of the room that the client joined, once it has.
    pub closed spec fn session_spec(&self) -> Option<Seq<char>> {
        match self.session {
            Some(sid) => Some(sid@),
            None => None,
        }
    }

    /// A connection whose client has not joined yet.
    pub fn new() -> (connection: Connection)
        ensures
            connection.peer_spec() is None,
            connection.session_spec() is None,
    {
        Connection { peer: None, session: None }
    }

    /// The peer that stands for the client, once it has joined.
    pub fn peer(&self) -> (peer: Option<peer::Id>)
        ensures
            peer == self.peer_spec(),
    {
        self.peer
    }

    /// Id of the room that the client joined, once it has.
    pub fn session(&self) -> (sid: Option<&session::Id>)
        ensures
            match sid {
                Some(sid) => self.session_spec() == Some(sid@),
                None => self.session_spec() is None,
            },
    {
        match &self.session {
            Some(sid) => Some(sid),
            None => None,
        }
    }

    /// Decides what an event of the client leads to.
    pub fn on_event(&self, event: Event) -> (step: Step)
        ensures
            step == step_for(self.peer_spec(), event),
    {
        match event {
            Event::JoinRequest(reply, join) => Step::Join {
                reply,
                sid: join.sid,
                offer: join.offer,
            },
            Event::TrickleIce(trickle) => match self.peer {
                Some(peer) => Step::Trickle {
                    peer,
                    target: trickle.target,
                    candidate: IceCandidateInit::from(trickle.candidate),
                },
                None => Step::NotJoined,
            },
            Event::PublisherOffer(reply, offer) => match self.peer {
                Some(peer) => Step::PublisherOffer { peer, reply, desc: offer.desc },
                None => Step::NotJoined,
            },
            Event::SubscriberAnswer(answer) => match self.peer {
                Some(peer) => Step::SubscriberAnswer { peer, desc: answer.desc },
                None => Step::NotJoined,
            },
            Event::Presence(presence) => match self.peer {
                Some(peer) => Step::PresenceSet { peer, meta: presence.meta },
                None => Step::NotJoined,
            },
            Event::SubscriberOffer(_) => Step::Ignored,
        }
    }

    /// Records that the client has joined the room `sid` as `peer`. A client
    /// that joins again is from then on the new peer in the new room.
    pub fn joined(&mut self, peer: peer::Id, sid: session::Id)
        ensures
            final(self).peer_spec() == Some(peer),
            final(self).session_spec() == Some(sid@),
    {
        self.peer = Some(peer);
        self.session = Some(sid);
    }

    /// Ends the connection. If the client had joined, returns the room and
    /// the peer that is to be removed from it.
    pub fn finish(self) -> (leaving: Option<(session::Id, peer::Id)>)
        ensures
            match leaving {
                Some((sid, peer)) => self.session_spec() == Some(sid@) && self.peer_spec() == Some(
                    peer,
                ),
                None => self.session_spec() is None || self.peer_spec() is None,
            },
    {
        match (self.session, self.peer) {
            (Some(sid), Some(peer)) => Some((sid, peer)),
            _ => None,
        }
    }
}

/// The session registered under `sid`.
pub open spec fn room<S: Session>(sessions: Seq<S>, sid: Seq<char>) -> S
    recommends
        session_ids(sessions).contains(sid),
{
    sessions[session_ids(sessions).index_of(sid)]
}

/// Lets the client of `connection` enter the room `sid` as `peer`: the room
/// is made if it is not there, the peer is added under its own id, and the
/// connection remembers both. If the room has a peer with that id, nothing
/// changes but that the room may have been made. Returns the subscriptions
/// made for the peer.
pub fn join<S: Session, C: Coordinator<S>>(
    coordinator: &mut C,
    connection: &mut Connection,
    sid: session::Id,
    peer: Peer,
) -> (entered: Result<Vec<Subscription>, SessionError>)
    requires
        registry_wf(old(coordinator).sessions()),
    ensures
        registry_wf(final(coordinator).sessions()),
        session_ids(final(coordinator).sessions()).contains(sid@),
        ({
            let before = old(coordinator).sessions();
            let after = final(coordinator).sessions();
            let known = session_ids(before).contains(sid@);
            let members = if known {
                room(before, sid@).member_ids()
            } else {
                Seq::empty()
            };
            &&& after.len() == if known {
                before.len()
            } else {
                before.len() + 1
            }
            &&& forall|i: int|
                0 <= i < before.len() && session_ids(before)[i] != sid@ ==> after[i] == before[i]
            &&& members.contains(peer.id_spec()) <==> entered is Err
            &&& entered is Err ==> {
                &&& entered->Err_0 == SessionError::DuplicatePeer
                &&& room(after, sid@).member_ids() == members
                &&& *final(connection) == *old(connection)
            }
            &&& entered is Ok ==> {
                &&& room(after, sid@).member_ids() == members.push(peer.id_spec())
                &&& final(connection).peer_spec() == Some(peer.id_spec())
                &&& final(connection).session_spec() == Some(sid@)
            }
        }),
{
    let id = peer.id();
    let ghost before = coordinator.sessions();
    let session = coordinator.get_or_create_session(sid.clone());
    let ghost found = *session;
    let entered = session.add_peer(id, peer);
    proof {
        law_registry_stays_well_formed(before, coordinator.sessions(), sid@, *session);
        if session_ids(before).contains(sid@) {
            assert(found == room(before, sid@));
        } else {
            assert(found.member_ids() =~= Seq::empty());
        }
    }
    if entered.is_ok() {
        connection.joined(id, sid);
    }
    entered
}

} // verus!
