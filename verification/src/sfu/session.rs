//! A room: its participants, the tracks published in it, and presence.

use vstd::prelude::*;
use crate::proto::json::{json_with_member, with_member};
use crate::proto::signal::{IceCandidateInit, Presence, PresenceView};
use crate::sfu::peer;
use crate::sfu::peer::{id_text, peer_id_text, trickle_action, Peer, TrickleAction};
use crate::sfu::routing::router::MediaTrackRouter;
use crate::sfu::routing::subscriber::{MediaTrackSubscriber, SubscriberState};

verus! {

/// Names a session.
pub type Id = String;

/// What a session is told about the tracks of its participants.
#[derive(Debug)]
pub enum SessionEvent {
    /// A participant published a track; here is its router.
    TrackPublished(MediaTrackRouter),
    /// The track with this id has ended.
    TrackRemoved(String),
}

/// Why a session refused a change.
#[derive(Clone, Copy, Debug, PartialEq, Eq, Structural)]
pub enum SessionError {
    /// A peer with that id is in the session already.
    DuplicatePeer,
    /// The router has no track to subscribe to.
    RouterNotFound,
}

/// A participant of a session under the id it was added with.
#[derive(Debug)]
pub struct Member {
    pub id: peer::Id,
    pub peer: Peer,
}

/// A subscriber made for one participant; its outgoing track has been
/// attached to that participant, and it is to be fed from its router's
/// broadcast.
#[derive(Debug)]
pub struct Subscription {
    pub peer: peer::Id,
    pub subscriber: MediaTrackSubscriber,
}

/// Metadata that one participant published about itself, as JSON text.
#[derive(Debug, PartialEq, Eq)]
pub struct PresenceEntry {
    pub peer: peer::Id,
    pub meta: String,
}

impl Clone for PresenceEntry {
    fn clone(&self) -> (copy: PresenceEntry)
        ensures
            copy == *self,
    {
        PresenceEntry { peer: self.peer, meta: self.meta.clone() }
    }
}

/// The presence of a room after a change: what every participant is sent.
#[derive(Debug, PartialEq, Eq)]
pub struct PresenceUpdate {
    /// Revision of this state of the room's presence.
    pub revision: u64,
    /// The metadata of every participant that ever set any, one entry each.
    pub meta: Vec<PresenceEntry>,
    /// The participants that are sent this update: all that are in the room.
    pub recipients: Vec<peer::Id>,
}

/// The metadata of `entries` as one JSON object: the metadata of each
/// participant under the participant's id.
pub open spec fn merged_meta(entries: Seq<PresenceEntry>) -> Seq<char>
    decreases entries.len(),
{
    if entries.len() == 0 {
        "{}"@
    } else {
        json_with_member(
            merged_meta(entries.drop_last()),
            peer_id_text(entries.last().peer),
            entries.last().meta@,
        )
    }
}

impl PresenceUpdate {
    /// The payload that carries this update to a client: the revision, and
    /// the metadata of all participants as one object.
    pub fn presence(&self) -> (presence: Presence)
        ensures
            presence@ == (PresenceView {
                revision: self.revision,
                meta: merged_meta(self.meta@),
            }),
    {
        let mut meta = "{}".to_owned();
        let mut i: usize = 0;
        assert(self.meta@.take(0).len() == 0);
        while i < self.meta.len()
            invariant
                i <= self.meta@.len(),
                meta@ == merged_meta(self.meta@.take(i as int)),
            decreases self.meta@.len() - i,
        {
            let key = id_text(self.meta[i].peer);
            meta = with_member(meta.as_str(), key.as_str(), self.meta[i].meta.as_str());
            i += 1;
            proof {
                let upto = self.meta@.take(i as int);
                assert(upto.drop_last() =~= self.meta@.take(i - 1));
                assert(upto.last() == self.meta@[i - 1]);
            }
        }
        assert(self.meta@.take(i as int) =~= self.meta@);
        Presence { revision: self.revision, meta }
    }
}

/// What handling a session event led to.
#[derive(Debug)]
pub enum Handled {
    /// A track was published: the subscriptions made for it, or the reason
    /// why it was refused.
    Published(Result<Vec<Subscription>, SessionError>),
    /// A track ended: its router, if the session had it.
    Removed(Option<MediaTrackRouter>),
}

/// Whether a peer may join under `id` a session whose peers are `members`:
/// it may unless the id is taken.
pub open spec fn join_admitted(members: Seq<peer::Id>, id: peer::Id) -> bool {
    !members.contains(id)
}

/// The peers of a session after a peer has asked to join under `id`.
pub open spec fn members_after_join(members: Seq<peer::Id>, id: peer::Id) -> Seq<peer::Id> {
    if join_admitted(members, id) {
        members.push(id)
    } else {
        members
    }
}

/// Of two joins under one id, exactly one succeeds. When two peers ask to
/// join a session under an id that is not taken, one after the other in
/// either order, the first is admitted and the second is not, and the second
/// request leaves the session's peers as the first left them.
pub proof fn law_one_of_two_joins_succeeds(members: Seq<peer::Id>, id: peer::Id)
    requires
        !members.contains(id),
    ensures
        join_admitted(members, id),
        !join_admitted(members_after_join(members, id), id),
        members_after_join(members_after_join(members, id), id) == members_after_join(
            members,
            id,
        ),
{
    assert(members.push(id).last() == id);
}

/// A collection of peers that route their tracks to each other.
pub trait Session: Sized {
    /// The invariant of the session.
    spec fn wf(&self) -> bool;

    /// The id, in specifications.
    spec fn id_spec(&self) -> Seq<char>;

    /// Ids of the peers in the session, in the order in which they joined.
    spec fn member_ids(&self) -> Seq<peer::Id>;

    /// Revision of the room's presence.
    spec fn revision(&self) -> u64;

    /// An empty session with the given id.
    fn new(id: Id) -> (session: Self)
        ensures
            session.wf(),
            session.id_spec() == id@,
            session.member_ids().len() == 0,
            session.revision() == 0,
    ;

    /// The id.
    fn id(&self) -> (id: Id)
        ensures
            id@ == self.id_spec(),
    ;

    /// Whether any peer is in the session.
    fn active(&self) -> (active: bool)
        ensures
            active == (self.member_ids().len() > 0),
    ;

    /// Adds a peer under `id`, unless a peer with that id is in the session:
    /// then the session stays as it is. Returns the subscriptions made for
    /// the new peer.
    fn add_peer(&mut self, id: peer::Id, peer: Peer) -> (added: Result<
        Vec<Subscription>,
        SessionError,
    >)
        requires
            old(self).wf(),
        ensures
            final(self).wf(),
            final(self).id_spec() == old(self).id_spec(),
            final(self).revision() == old(self).revision(),
            added is Ok <==> join_admitted(old(self).member_ids(), id),
            added is Err ==> added->Err_0 == SessionError::DuplicatePeer,
            final(self).member_ids() == members_after_join(old(self).member_ids(), id),
    ;

    /// Removes the peer with the given id, if there is one, and closes it.
    fn remove_peer(&mut self, id: peer::Id) -> (removed: Option<Peer>)
        requires
            old(self).wf(),
        ensures
            final(self).wf(),
            final(self).id_spec() == old(self).id_spec(),
            final(self).revision() == old(self).revision(),
            removed is Some <==> old(self).member_ids().contains(id),
            removed is Some ==> removed.unwrap().is_closed() && final(self).member_ids() == old(self).member_ids().remove(old(self).member_ids().index_of(id)),
            removed is None ==> final(self).member_ids() == old(self).member_ids(),
    ;

    /// Publishes `meta` as the metadata of the participant `id` and returns
    /// the update that goes to every peer in the session. The revision grows
    /// by one.
    fn presence_set(&mut self, id: peer::Id, meta: String) -> (update: PresenceUpdate)
        requires
            old(self).wf(),
            old(self).revision() < u64::MAX,
        ensures
            final(self).wf(),
            final(self).id_spec() == old(self).id_spec(),
            final(self).member_ids() == old(self).member_ids(),
            final(self).revision() == old(self).revision() + 1,
            update.revision == final(self).revision(),
            update.recipients@ == final(self).member_ids(),
    ;
}

/// A session that lives in this process.
#[derive(Debug)]
pub struct LocalSession {
    id: Id,
    peers: Vec<Member>,
    routers: Vec<MediaTrackRouter>,
    presence_meta: Vec<PresenceEntry>,
    presence_revision: u64,
}

/// Whether `after` is `before` with nothing changed but one more
/// subscription, to the track `track`.
pub open spec fn subscribed_one_more(before: Peer, after: Peer, track: Seq<char>) -> bool {
    &&& after.id_spec() == before.id_spec()
    &&& after.pending() == before.pending()
    &&& after.has_remote_description() == before.has_remote_description()
    &&& after.is_closed() == before.is_closed()
    &&& after.subscriptions() == before.subscriptions().push(track)
}

/// Whether `after` is `before` with nothing changed but more subscriptions,
/// to the tracks `tracks` in their order.
pub open spec fn subscribed_more(before: Peer, after: Peer, tracks: Seq<Seq<char>>) -> bool {
    &&& after.id_spec() == before.id_spec()
    &&& after.pending() == before.pending()
    &&& after.has_remote_description() == before.has_remote_description()
    &&& after.is_closed() == before.is_closed()
    &&& after.subscriptions() == before.subscriptions() + tracks
}

impl LocalSession {
    /// The peers in the session, in the order in which they joined.
    pub closed spec fn members(&self) -> Seq<Member> {
        self.peers@
    }

    /// The routers of the tracks published in the session, in the order in
    /// which their track ids first came.
    pub closed spec fn routers(&self) -> Seq<MediaTrackRouter> {
        self.routers@
    }

    /// The metadata that participants have set, one entry for each
    /// participant that ever set any.
    pub closed spec fn presence(&self) -> Seq<PresenceEntry> {
        self.presence_meta@
    }

    /// Ids of the published tracks.
    pub open spec fn router_ids(&self) -> Seq<Seq<char>> {
        self.routers().map_values(|router: MediaTrackRouter| router.id_spec())
    }

    /// Ids of the participants that have set metadata.
    pub open spec fn presence_ids(&self) -> Seq<peer::Id> {
        self.presence().map_values(|entry: PresenceEntry| entry.peer)
    }

    /// Every peer in the session is subscribed to every track published in
    /// it.
    pub open spec fn all_pairs(&self) -> bool {
        forall|i: int, j: int|
            0 <= i < self.members().len() && 0 <= j < self.routers().len() ==> (
            #[trigger] self.members()[i]).peer.subscribed_to(
                (#[trigger] self.routers()[j]).id_spec(),
            )
    }

    /// The peer that is in the session under `id`.
    pub open spec fn member(&self, id: peer::Id) -> Peer
        recommends
            self.member_ids().contains(id),
    {
        self.members()[self.member_ids().index_of(id)].peer
    }
}

impl Session for LocalSession {
    /// No peer id, track id or presence entry occurs twice; every router is
    /// well formed and has a track; and every peer is subscribed to every
    /// track.
    open spec fn wf(&self) -> bool {
        &&& self.member_ids().no_duplicates()
        &&& self.router_ids().no_duplicates()
        &&& self.presence_ids().no_duplicates()
        &&& forall|j: int|
            0 <= j < self.routers().len() ==> (#[trigger] self.routers()[j]).wf()
                && self.routers()[j].sources().len() > 0
        &&& self.all_pairs()
    }

    closed spec fn id_spec(&self) -> Seq<char> {
        self.id@
    }

    open spec fn member_ids(&self) -> Seq<peer::Id> {
        self.members().map_values(|member: Member| member.id)
    }

    closed spec fn revision(&self) -> u64 {
        self.presence_revision
    }

    fn new(id: Id) -> (session: LocalSession)
        ensures
            session.members().len() == 0,
            session.routers().len() == 0,
            session.presence().len() == 0,
    {
        LocalSession {
            id,
            peers: Vec::new(),
            routers: Vec::new(),
            presence_meta: Vec::new(),
            presence_revision: 0,
        }
    }

    fn id(&self) -> (id: Id) {
        self.id.clone()
    }

    fn active(&self) -> (active: bool) {
        self.peers.len() > 0
    }

    fn add_peer(&mut self, id: peer::Id, peer: Peer) -> (added: Result<
        Vec<Subscription>,
        SessionError,
    >)
        ensures
            added is Err ==> *final(self) == *old(self),
            added is Ok ==> {
                &&& final(self).routers() == old(self).routers()
                &&& final(self).presence() == old(self).presence()
                &&& final(self).members().drop_last() == old(self).members()
                &&& final(self).members().last().id == id
                &&& subscribed_more(peer, final(self).members().last().peer, old(self).router_ids())
                &&& subscribes_to_all(added.unwrap()@, id, old(self).routers())
                &&& forall|j: int|
                    0 <= j < final(self).routers().len() ==> final(self).members().last().peer.subscribed_to(
                        (#[trigger] final(self).routers()[j]).id_spec(),
                    )
            },
    {
        if self.find_peer(id).is_some() {
            return Err(SessionError::DuplicatePeer);
        }
        let ghost joining = peer;
        let mut peer = peer;
        let made = self.subscribe_peer_to_all_routers(id, &mut peer);
        self.peers.push(Member { id, peer });
        proof {
            let before = old(self).members();
            let after = self.members();
            assert(after.drop_last() =~= before);
            assert(self.member_ids() =~= old(self).member_ids().push(id));
            assert forall|i: int, j: int|
                0 <= i < after.len() && 0 <= j < self.routers().len() implies (
            #[trigger] after[i]).peer.subscribed_to((#[trigger] self.routers()[j]).id_spec()) by {
                if i < before.len() {
                    assert(after[i] == before[i]);
                } else {
                    let tracks = old(self).router_ids();
                    let all = joining.subscriptions() + tracks;
                    assert(all[joining.subscriptions().len() + j] == tracks[j]);
                }
            }
        }
        Ok(made)
    }

    fn remove_peer(&mut self, id: peer::Id) -> (removed: Option<Peer>)
        ensures
            final(self).routers() == old(self).routers(),
            final(self).presence() == old(self).presence(),
            removed is Some ==> removed.unwrap() == old(self).member(id).closed_peer()
                && final(self).members() == old(self).members().remove(
                old(self).member_ids().index_of(id),
            ),
            removed is None ==> *final(self) == *old(self),
    {
        match self.find_peer(id) {
            Some(at) => {
                proof {
                    lemma_unique_index(self.member_ids(), id, at as int);
                }
                let member = self.peers.remove(at);
                let mut peer = member.peer;
                peer.close();
                proof {
                    let before = old(self).members();
                    let after = self.members();
                    assert(self.member_ids() =~= old(self).member_ids().remove(at as int));
                    assert forall|i: int, j: int|
                        0 <= i < after.len() && 0 <= j < self.routers().len() implies (
                    #[trigger] after[i]).peer.subscribed_to(
                        (#[trigger] self.routers()[j]).id_spec(),
                    ) by {
                        if i < at {
                            assert(after[i] == before[i]);
                        } else {
                            assert(after[i] == before[i + 1]);
                        }
                    }
                    assert forall|i: int, k: int|
                        0 <= i < k < self.member_ids().len() implies self.member_ids()[i]
                        != self.member_ids()[k] by {
                        let a = if i < at { i } else { i + 1 };
                        let b = if k < at { k } else { k + 1 };
                        assert(self.member_ids()[i] == old(self).member_ids()[a]);
                        assert(self.member_ids()[k] == old(self).member_ids()[b]);
                    }
                }
                Some(peer)
            },
            None => None,
        }
    }

    fn presence_set(&mut self, id: peer::Id, meta: String) -> (update: PresenceUpdate)
        ensures
            final(self).members() == old(self).members(),
            final(self).routers() == old(self).routers(),
            presence_merged(old(self).presence(), final(self).presence(), id, meta),
            update.meta@ == final(self).presence(),
    {
        let ghost before = self.presence_meta@;
        match self.find_presence(id) {
            Some(at) => {
                proof {
                    lemma_unique_index(self.presence_ids(), id, at as int);
                }
                self.presence_meta.remove(at);
                self.presence_meta.insert(at, PresenceEntry { peer: id, meta });
                assert(self.presence_meta@ =~= before.update(
                    at as int,
                    PresenceEntry { peer: id, meta },
                ));
                assert(self.presence_ids() =~= old(self).presence_ids());
            },
            None => {
                self.presence_meta.push(PresenceEntry { peer: id, meta });
                assert(self.presence_meta@.drop_last() =~= before);
                assert(self.presence_ids() =~= old(self).presence_ids().push(id));
            },
        }
        self.presence_revision = self.presence_revision + 1;
        let mut entries: Vec<PresenceEntry> = Vec::new();
        let mut i: usize = 0;
        while i < self.presence_meta.len()
            invariant
                i <= self.presence_meta@.len(),
                entries@ == self.presence_meta@.take(i as int),
            decreases self.presence_meta@.len() - i,
        {
            entries.push(self.presence_meta[i].clone());
            i += 1;
            assert(entries@ =~= self.presence_meta@.take(i as int));
        }
        assert(entries@ =~= self.presence_meta@);
        let mut recipients: Vec<peer::Id> = Vec::new();
        let mut k: usize = 0;
        while k < self.peers.len()
            invariant
                k <= self.peers@.len(),
                recipients@ == self.member_ids().take(k as int),
            decreases self.peers@.len() - k,
        {
            recipients.push(self.peers[k].id);
            k += 1;
            assert(recipients@ =~= self.member_ids().take(k as int));
        }
        assert(recipients@ =~= self.member_ids());
        PresenceUpdate { revision: self.presence_revision, meta: entries, recipients }
    }
}

/// Whether `made` holds one new subscriber of each of `routers`, in their
/// order, all for the peer `id`.
pub open spec fn subscribes_to_all(
    made: Seq<Subscription>,
    id: peer::Id,
    routers: Seq<MediaTrackRouter>,
) -> bool {
    &&& made.len() == routers.len()
    &&& forall|j: int|
        0 <= j < routers.len() ==> {
            &&& (#[trigger] made[j]).peer == id
            &&& made[j].subscriber@ == SubscriberState::fresh()
            &&& made[j].subscriber.router_spec() == routers[j].id_spec()
            &&& made[j].subscriber.track_spec().mirrors(&routers[j].sources()[0].track)
        }
}

/// Whether `made` holds one new subscriber of `router` for each of
/// `members`, in their order.
pub open spec fn subscribes_all_to(
    made: Seq<Subscription>,
    members: Seq<Member>,
    router: MediaTrackRouter,
) -> bool {
    &&& made.len() == members.len()
    &&& forall|i: int|
        0 <= i < members.len() ==> {
            &&& (#[trigger] made[i]).peer == members[i].id
            &&& made[i].subscriber@ == SubscriberState::fresh()
            &&& made[i].subscriber.router_spec() == router.id_spec()
            &&& made[i].subscriber.track_spec().mirrors(&router.sources()[0].track)
        }
}

/// Whether `after` is `before` once the participant `id` has set `meta`: its
/// entry is replaced where it stands, a first entry goes to the end. The
/// last writer wins.
pub open spec fn presence_merged(
    before: Seq<PresenceEntry>,
    after: Seq<PresenceEntry>,
    id: peer::Id,
    meta: String,
) -> bool {
    let ids = before.map_values(|entry: PresenceEntry| entry.peer);
    if ids.contains(id) {
        after == before.update(ids.index_of(id), PresenceEntry { peer: id, meta })
    } else {
        after == before.push(PresenceEntry { peer: id, meta })
    }
}

/// Whether `after` is `before` once `router` has been registered: a router
/// with the same id is replaced where it stands, a new id goes to the end.
pub open spec fn router_registered(
    before: Seq<MediaTrackRouter>,
    after: Seq<MediaTrackRouter>,
    router: MediaTrackRouter,
) -> bool {
    let ids = before.map_values(|r: MediaTrackRouter| r.id_spec());
    if ids.contains(router.id_spec()) {
        after == before.update(ids.index_of(router.id_spec()), router)
    } else {
        after == before.push(router)
    }
}

proof fn lemma_unique_index<K>(keys: Seq<K>, key: K, at: int)
    requires
        keys.no_duplicates(),
        0 <= at < keys.len(),
        keys[at] == key,
    ensures
        keys.contains(key),
        keys.index_of(key) == at,
{
}

impl LocalSession {
    /// Registers the router of a newly published track and subscribes every
    /// peer in the session to it. A router without a track is refused, and
    /// the session stays as it is. A router whose id the session already has
    /// takes the place of the old one.
    pub fn add_router(&mut self, router: MediaTrackRouter) -> (made: Result<
        Vec<Subscription>,
        SessionError,
    >)
        requires
            old(self).wf(),
            router.wf(),
        ensures
            final(self).wf(),
            final(self).id_spec() == old(self).id_spec(),
            final(self).revision() == old(self).revision(),
            final(self).presence() == old(self).presence(),
            final(self).member_ids() == old(self).member_ids(),
            router.sources().len() == 0 ==> made is Err && made->Err_0
                == SessionError::RouterNotFound && *final(self) == *old(self),
            router.sources().len() > 0 ==> {
                &&& made is Ok
                &&& subscribes_all_to(made.unwrap()@, old(self).members(), router)
                &&& forall|i: int|
                    0 <= i < old(self).members().len() ==> subscribed_one_more(
                        old(self).members()[i].peer,
                        (#[trigger] final(self).members()[i]).peer,
                        router.id_spec(),
                    )
                &&& router_registered(old(self).routers(), final(self).routers(), router)
            },
    {
        if router.layer_count() == 0 {
            return Err(SessionError::RouterNotFound);
        }
        let made = self.subscribe_all_peers_to_router(&router);
        let ghost subscribed = self.peers@;
        let ghost ids = self.router_ids();
        let ghost before = self.routers@;
        match self.find_router(router.id()) {
            Some(at) => {
                proof {
                    lemma_unique_index(ids, router.id_spec(), at as int);
                }
                self.routers.remove(at);
                self.routers.insert(at, router);
                assert(self.routers@ =~= before.update(at as int, router));
                assert(self.router_ids() =~= ids);
            },
            None => {
                self.routers.push(router);
                assert(self.router_ids() =~= ids.push(router.id_spec()));
            },
        }
        proof {
            assert(self.members() == subscribed);
            assert forall|i: int, j: int|
                0 <= i < self.members().len() && 0 <= j < self.routers().len() implies (
            #[trigger] self.members()[i]).peer.subscribed_to(
                (#[trigger] self.routers()[j]).id_spec(),
            ) by {
                assert(self.members().len() == old(self).members().len());
                let was = old(self).members()[i].peer;
                let now = self.members()[i].peer;
                let track = self.routers()[j].id_spec();
                assert(subscribed_one_more(was, now, router.id_spec()));
                if track == router.id_spec() {
                    assert(now.subscriptions().last() == track);
                } else {
                    assert(self.routers()[j] == before[j]);
                    assert(old(self).routers()[j].id_spec() == track);
                    assert(was.subscribed_to(track));
                    let at = was.subscriptions().index_of(track);
                    assert(now.subscriptions()[at] == track);
                }
            }
        }
        Ok(made)
    }

    /// Takes the router of the track `router_id` out of the session, if it is
    /// there. The peers stay as they are.
    pub fn remove_router(&mut self, router_id: &String) -> (removed: Option<MediaTrackRouter>)
        requires
            old(self).wf(),
        ensures
            final(self).wf(),
            final(self).id_spec() == old(self).id_spec(),
            final(self).revision() == old(self).revision(),
            final(self).presence() == old(self).presence(),
            final(self).members() == old(self).members(),
            removed is Some <==> old(self).router_ids().contains(router_id@),
            removed is Some ==> {
                let at = old(self).router_ids().index_of(router_id@);
                removed.unwrap() == old(self).routers()[at] && final(self).routers() == old(self).routers().remove(at)
            },
            removed is None ==> *final(self) == *old(self),
    {
        match self.find_router(router_id) {
            Some(at) => {
                proof {
                    lemma_unique_index(self.router_ids(), router_id@, at as int);
                }
                let router = self.routers.remove(at);
                proof {
                    let before = old(self).routers();
                    let after = self.routers();
                    assert(self.router_ids() =~= old(self).router_ids().remove(at as int));
                    assert forall|j: int| 0 <= j < after.len() implies (#[trigger] after[j]).wf()
                        && after[j].sources().len() > 0 by {
                        if j < at {
                            assert(after[j] == before[j]);
                        } else {
                            assert(after[j] == before[j + 1]);
                        }
                    }
                    assert forall|i: int, j: int|
                        0 <= i < self.members().len() && 0 <= j < after.len() implies (
                    #[trigger] self.members()[i]).peer.subscribed_to(
                        (#[trigger] after[j]).id_spec(),
                    ) by {
                        if j < at {
                            assert(after[j] == before[j]);
                        } else {
                            assert(after[j] == before[j + 1]);
                        }
                    }
                    assert forall|j: int, k: int|
                        0 <= j < k < self.router_ids().len() implies self.router_ids()[j]
                        != self.router_ids()[k] by {
                        let a = if j < at { j } else { j + 1 };
                        let b = if k < at { k } else { k + 1 };
                        assert(self.router_ids()[j] == old(self).router_ids()[a]);
                        assert(self.router_ids()[k] == old(self).router_ids()[b]);
                    }
                }
                Some(router)
            },
            None => None,
        }
    }

    /// Handles one event of the session: a published track is registered and
    /// every peer subscribed to it, an ended track is taken out.
    pub fn handle_event(&mut self, event: SessionEvent) -> (handled: Handled)
        requires
            old(self).wf(),
            event matches SessionEvent::TrackPublished(router) ==> router.wf(),
        ensures
            final(self).wf(),
            final(self).id_spec() == old(self).id_spec(),
            final(self).revision() == old(self).revision(),
            final(self).presence() == old(self).presence(),
            final(self).member_ids() == old(self).member_ids(),
            match event {
                SessionEvent::TrackPublished(router) => {
                    &&& handled is Published
                    &&& handled->Published_0 is Ok <==> router.sources().len() > 0
                    &&& handled->Published_0 is Err ==> handled->Published_0->Err_0
                        == SessionError::RouterNotFound && *final(self) == *old(self)
                    &&& handled->Published_0 is Ok ==> {
                        &&& subscribes_all_to(
                            handled->Published_0.unwrap()@,
                            old(self).members(),
                            router,
                        )
                        &&& forall|i: int|
                            0 <= i < old(self).members().len() ==> subscribed_one_more(
                                old(self).members()[i].peer,
                                (#[trigger] final(self).members()[i]).peer,
                                router.id_spec(),
                            )
                        &&& router_registered(old(self).routers(), final(self).routers(), router)
                    }
                },
                SessionEvent::TrackRemoved(router_id) => {
                    &&& handled is Removed
                    &&& final(self).members() == old(self).members()
                    &&& handled->Removed_0 is Some <==> old(self).router_ids().contains(
                        router_id@,
                    )
                    &&& handled->Removed_0 is Some ==> {
                        let at = old(self).router_ids().index_of(router_id@);
                        handled->Removed_0.unwrap() == old(self).routers()[at] && final(self).routers() == old(self).routers().remove(at)
                    }
                    &&& handled->Removed_0 is None ==> *final(self) == *old(self)
                },
            },
    {
        match event {
            SessionEvent::TrackPublished(router) => Handled::Published(self.add_router(router)),
            SessionEvent::TrackRemoved(router_id) => Handled::Removed(
                self.remove_router(&router_id),
            ),
        }
    }

    /// The peer that is in the session under `id`, if there is one.
    pub fn peer(&self, id: peer::Id) -> (found: Option<&Peer>)
        requires
            self.wf(),
        ensures
            found is Some <==> self.member_ids().contains(id),
            found is Some ==> *found.unwrap() == self.member(id),
    {
        match self.find_peer(id) {
            Some(at) => {
                proof {
                    lemma_unique_index(self.member_ids(), id, at as int);
                }
                Some(&self.peers[at].peer)
            },
            None => None,
        }
    }

    /// The router of the track `router_id`, if the track is published in
    /// the session.
    pub fn router(&self, router_id: &String) -> (found: Option<&MediaTrackRouter>)
        requires
            self.wf(),
        ensures
            found is Some <==> self.router_ids().contains(router_id@),
            found is Some ==> *found.unwrap() == self.routers()[self.router_ids().index_of(
                router_id@,
            )],
    {
        match self.find_router(router_id) {
            Some(at) => {
                proof {
                    lemma_unique_index(self.router_ids(), router_id@, at as int);
                }
                Some(&self.routers[at])
            },
            None => None,
        }
    }

    /// Number of peers in the session.
    pub fn peer_count(&self) -> (count: usize)
        ensures
            count == self.members().len(),
    {
        self.peers.len()
    }

    /// Number of tracks published in the session.
    pub fn router_count(&self) -> (count: usize)
        ensures
            count == self.routers().len(),
    {
        self.routers.len()
    }

    /// Whether the track `router_id` is published in the session.
    pub fn has_router(&self, router_id: &String) -> (found: bool)
        ensures
            found == self.router_ids().contains(router_id@),
    {
        self.find_router(router_id).is_some()
    }

    /// Revision of the room's presence.
    pub fn presence_revision(&self) -> (revision: u64)
        ensures
            revision == self.revision(),
    {
        self.presence_revision
    }

    /// Hands a candidate that the client sent to the peer `id`; see
    /// [`Peer::trickle_ice_candidate`]. Without such a peer nothing happens.
    pub fn trickle_ice_candidate(
        &mut self,
        id: peer::Id,
        target: u32,
        candidate: IceCandidateInit,
    ) -> (action: Option<TrickleAction>)
        requires
            old(self).wf(),
        ensures
            final(self).wf(),
            final(self).id_spec() == old(self).id_spec(),
            final(self).revision() == old(self).revision(),
            final(self).presence() == old(self).presence(),
            final(self).routers() == old(self).routers(),
            final(self).member_ids() == old(self).member_ids(),
            action is Some <==> old(self).member_ids().contains(id),
            action is None ==> *final(self) == *old(self),
            action is Some ==> {
                let at = old(self).member_ids().index_of(id);
                let was = old(self).member(id);
                let now = final(self).member(id);
                &&& action.unwrap() == trickle_action(
                    was.has_remote_description(),
                    target,
                    candidate,
                )
                &&& now.pending() == if action.unwrap() is Buffered {
                    was.pending().push(candidate)
                } else {
                    was.pending()
                }
                &&& now.has_remote_description() == was.has_remote_description()
                &&& now.is_closed() == was.is_closed()
                &&& now.subscriptions() == was.subscriptions()
                &&& now.id_spec() == was.id_spec()
                &&& forall|i: int|
                    0 <= i < old(self).members().len() && i != at ==> final(self).members()[i]
                        == old(self).members()[i]
            },
    {
        match self.find_peer(id) {
            Some(at) => {
                proof {
                    lemma_unique_index(self.member_ids(), id, at as int);
                }
                let action = self.peers[at].peer.trickle_ice_candidate(target, candidate);
                proof {
                    assert(self.member_ids() =~= old(self).member_ids());
                    self.lemma_same_subscriptions(*old(self), at as int);
                }
                Some(action)
            },
            None => None,
        }
    }

    /// Tells the peer `id` that its subscriber connection has taken the
    /// client's answer; see [`Peer::subscriber_set_answer`]. Without such a
    /// peer nothing happens.
    pub fn subscriber_set_answer(&mut self, id: peer::Id) -> (candidates: Option<
        Vec<IceCandidateInit>,
    >)
        requires
            old(self).wf(),
        ensures
            final(self).wf(),
            final(self).id_spec() == old(self).id_spec(),
            final(self).revision() == old(self).revision(),
            final(self).presence() == old(self).presence(),
            final(self).routers() == old(self).routers(),
            final(self).member_ids() == old(self).member_ids(),
            candidates is Some <==> old(self).member_ids().contains(id),
            candidates is None ==> *final(self) == *old(self),
            candidates is Some ==> {
                let at = old(self).member_ids().index_of(id);
                let was = old(self).member(id);
                let now = final(self).member(id);
                &&& candidates.unwrap()@ == was.pending()
                &&& now.pending().len() == 0
                &&& now.has_remote_description()
                &&& now.is_closed() == was.is_closed()
                &&& now.subscriptions() == was.subscriptions()
                &&& now.id_spec() == was.id_spec()
                &&& forall|i: int|
                    0 <= i < old(self).members().len() && i != at ==> final(self).members()[i]
                        == old(self).members()[i]
            },
    {
        match self.find_peer(id) {
            Some(at) => {
                proof {
                    lemma_unique_index(self.member_ids(), id, at as int);
                }
                let candidates = self.peers[at].peer.subscriber_set_answer();
                proof {
                    assert(self.member_ids() =~= old(self).member_ids());
                    self.lemma_same_subscriptions(*old(self), at as int);
                }
                Some(candidates)
            },
            None => None,
        }
    }

    proof fn lemma_same_subscriptions(&self, before: LocalSession, at: int)
        requires
            before.wf(),
            0 <= at < before.members().len(),
            self.members().len() == before.members().len(),
            forall|i: int|
                0 <= i < before.members().len() && i != at ==> self.members()[i]
                    == before.members()[i],
            self.members()[at].id == before.members()[at].id,
            self.members()[at].peer.subscriptions() == before.members()[at].peer.subscriptions(),
            self.routers() == before.routers(),
        ensures
            self.all_pairs(),
    {
        assert forall|i: int, j: int|
            0 <= i < self.members().len() && 0 <= j < self.routers().len() implies (
        #[trigger] self.members()[i]).peer.subscribed_to(
            (#[trigger] self.routers()[j]).id_spec(),
        ) by {
            assert(before.members()[i].peer.subscribed_to(before.routers()[j].id_spec()));
        }
    }

    fn subscribe_all_peers_to_router(&mut self, router: &MediaTrackRouter) -> (made: Vec<
        Subscription,
    >)
        requires
            router.wf(),
            router.sources().len() > 0,
        ensures
            final(self).id == old(self).id,
            final(self).routers == old(self).routers,
            final(self).presence_meta == old(self).presence_meta,
            final(self).presence_revision == old(self).presence_revision,
            final(self).member_ids() == old(self).member_ids(),
            final(self).members().len() == old(self).members().len(),
            subscribes_all_to(made@, old(self).members(), *router),
            forall|i: int|
                0 <= i < old(self).members().len() ==> subscribed_one_more(
                    old(self).members()[i].peer,
                    (#[trigger] final(self).members()[i]).peer,
                    router.id_spec(),
                ),
    {
        let mut made: Vec<Subscription> = Vec::new();
        let mut i: usize = 0;
        while i < self.peers.len()
            invariant
                router.wf(),
                router.sources().len() > 0,
                self.id == old(self).id,
                self.routers == old(self).routers,
                self.presence_meta == old(self).presence_meta,
                self.presence_revision == old(self).presence_revision,
                self.peers@.len() == old(self).peers@.len(),
                i <= self.peers@.len(),
                forall|k: int| 0 <= k < self.peers@.len() ==> self.peers@[k].id == old(self).peers@[k].id,
                forall|k: int| i <= k < self.peers@.len() ==> self.peers@[k] == old(self).peers@[k],
                forall|k: int|
                    0 <= k < i ==> subscribed_one_more(
                        old(self).peers@[k].peer,
                        (#[trigger] self.peers@[k]).peer,
                        router.id_spec(),
                    ),
                made@.len() == i,
                forall|k: int|
                    0 <= k < i ==> {
                        &&& (#[trigger] made@[k]).peer == old(self).peers@[k].id
                        &&& made@[k].subscriber@ == SubscriberState::fresh()
                        &&& made@[k].subscriber.router_spec() == router.id_spec()
                        &&& made@[k].subscriber.track_spec().mirrors(&router.sources()[0].track)
                    },
            decreases self.peers@.len() - i,
        {
            match router.add_subscriber() {
                Ok(subscriber) => {
                    self.peers[i].peer.add_media_track_subscriber(&subscriber);
                    let id = self.peers[i].id;
                    made.push(Subscription { peer: id, subscriber });
                },
                Err(_) => {},
            }
            i += 1;
        }
        assert(self.member_ids() =~= old(self).member_ids());
        made
    }

    fn find_peer(&self, id: peer::Id) -> (at: Option<usize>)
        ensures
            match at {
                Some(i) => i < self.members().len() && self.member_ids()[i as int] == id,
                None => !self.member_ids().contains(id),
            },
    {
        let mut i: usize = 0;
        while i < self.peers.len()
            invariant
                i <= self.peers@.len(),
                forall|k: int| 0 <= k < i ==> self.member_ids()[k] != id,
            decreases self.peers@.len() - i,
        {
            if self.peers[i].id == id {
                return Some(i);
            }
            i += 1;
        }
        None
    }

    fn find_router(&self, id: &String) -> (at: Option<usize>)
        ensures
            match at {
                Some(i) => i < self.routers().len() && self.router_ids()[i as int] == id@,
                None => !self.router_ids().contains(id@),
            },
    {
        let mut i: usize = 0;
        while i < self.routers.len()
            invariant
                i <= self.routers@.len(),
                forall|k: int| 0 <= k < i ==> self.router_ids()[k] != id@,
            decreases self.routers@.len() - i,
        {
            if *self.routers[i].id() == *id {
                return Some(i);
            }
            i += 1;
        }
        None
    }

    fn find_presence(&self, id: peer::Id) -> (at: Option<usize>)
        ensures
            match at {
                Some(i) => i < self.presence().len() && self.presence_ids()[i as int] == id,
                None => !self.presence_ids().contains(id),
            },
    {
        let mut i: usize = 0;
        while i < self.presence_meta.len()
            invariant
                i <= self.presence_meta@.len(),
                forall|k: int| 0 <= k < i ==> self.presence_ids()[k] != id,
            decreases self.presence_meta@.len() - i,
        {
            if self.presence_meta[i].peer == id {
                return Some(i);
            }
            i += 1;
        }
        None
    }

    fn subscribe_peer_to_all_routers(&self, id: peer::Id, peer: &mut Peer) -> (made: Vec<
        Subscription,
    >)
        requires
            self.wf(),
        ensures
            subscribed_more(*old(peer), *final(peer), self.router_ids()),
            subscribes_to_all(made@, id, self.routers()),
    {
        let mut made: Vec<Subscription> = Vec::new();
        let mut j: usize = 0;
        assert(self.router_ids().take(0) =~= Seq::empty());
        assert(old(peer).subscriptions() + Seq::<Seq<char>>::empty() =~= old(peer).subscriptions());
        while j < self.routers.len()
            invariant
                self.wf(),
                j <= self.routers@.len(),
                subscribed_more(*old(peer), *peer, self.router_ids().take(j as int)),
                subscribes_to_all(made@, id, self.routers().take(j as int)),
            decreases self.routers@.len() - j,
        {
            let ghost so_far = *peer;
            assert(self.routers()[j as int].sources().len() > 0);
            match self.routers[j].add_subscriber() {
                Ok(subscriber) => {
                    peer.add_media_track_subscriber(&subscriber);
                    made.push(Subscription { peer: id, subscriber });
                },
                Err(_) => {},
            }
            j += 1;
            proof {
                let ids = self.router_ids();
                assert(ids.take(j as int) =~= ids.take(j - 1).push(ids[j - 1]));
                assert(old(peer).subscriptions() + ids.take(j as int) =~= (old(peer).subscriptions() + ids.take(j - 1)).push(ids[j - 1]));
                assert forall|k: int| 0 <= k < j implies {
                    &&& (#[trigger] made@[k]).peer == id
                    &&& made@[k].subscriber@ == SubscriberState::fresh()
                    &&& made@[k].subscriber.router_spec() == self.routers().take(
                        j as int,
                    )[k].id_spec()
                    &&& made@[k].subscriber.track_spec().mirrors(
                        &self.routers().take(j as int)[k].sources()[0].track,
                    )
                } by {
                    if k < j - 1 {
                        assert(self.routers().take(j - 1)[k] == self.routers()[k]);
                    }
                }
            }
        }
        assert(self.router_ids().take(j as int) =~= self.router_ids());
        assert(self.routers().take(j as int) =~= self.routers());
        made
    }
}

} // verus!
