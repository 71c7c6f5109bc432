//! The registry of rooms.

use vstd::prelude::*;
use crate::sfu::session;
use crate::sfu::session::Session;

verus! {

/// Ids of `sessions`, in their order.
pub open spec fn session_ids<S: Session>(sessions: Seq<S>) -> Seq<Seq<char>> {
    sessions.map_values(|s: S| s.id_spec())
}

/// Whether every session of `sessions` is well formed and no id occurs twice.
pub open spec fn registry_wf<S: Session>(sessions: Seq<S>) -> bool {
    &&& session_ids(sessions).no_duplicates()
    &&& forall|i: int| 0 <= i < sessions.len() ==> (#[trigger] sessions[i]).wf()
}

/// Manages the sessions of a forwarding unit.
pub trait Coordinator<S: Session>: Sized {
    /// The sessions registered, in the order in which they were made.
    spec fn sessions(&self) -> Seq<S>;

    /// A coordinator without sessions.
    fn new() -> (coordinator: Self)
        ensures
            coordinator.sessions().len() == 0,
    ;

    /// Returns the session registered under `id`. If there is none, an empty
    /// session with that id is made and registered first. No other session
    /// is touched. What the caller then does to the session through the
    /// reference is what becomes of it in the registry.
    fn get_or_create_session(&mut self, id: session::Id) -> (session: &mut S)
        requires
            registry_wf(old(self).sessions()),
        ensures
            session.wf(),
            session.id_spec() == id@,
            session_ids(old(self).sessions()).contains(id@) ==> {
                let at = session_ids(old(self).sessions()).index_of(id@);
                &&& *session == old(self).sessions()[at]
                &&& final(self).sessions() == old(self).sessions().update(at, *final(session))
            },
            !session_ids(old(self).sessions()).contains(id@) ==> {
                &&& session.member_ids().len() == 0
                &&& session.revision() == 0
                &&& final(self).sessions() == old(self).sessions().push(*final(session))
            },
    ;
}

/// A coordinator that holds its sessions in this process.
pub struct LocalCoordinator<S: Session> {
    sessions: Vec<S>,
}

impl<S: Session> LocalCoordinator<S> {
    fn find(&self, id: &session::Id) -> (at: Option<usize>)
        ensures
            match at {
                Some(i) => i < self.sessions@.len() && session_ids(self.sessions@)[i as int]
                    == id@,
                None => !session_ids(self.sessions@).contains(id@),
            },
    {
        let mut i: usize = 0;
        while i < self.sessions.len()
            invariant
                i <= self.sessions@.len(),
                forall|k: int| 0 <= k < i ==> session_ids(self.sessions@)[k] != id@,
            decreases self.sessions@.len() - i,
        {
            if self.sessions[i].id() == *id {
                return Some(i);
            }
            i += 1;
        }
        None
    }

    /// The session registered under `id`, if there is one.
    pub fn session(&self, id: &session::Id) -> (found: Option<&S>)
        requires
            registry_wf(self.sessions()),
        ensures
            found is Some <==> session_ids(self.sessions()).contains(id@),
            found is Some ==> *found.unwrap() == self.sessions()[session_ids(
                self.sessions(),
            ).index_of(id@)],
    {
        match self.find(id) {
            Some(at) => {
                assert(session_ids(self.sessions@).index_of(id@) == at);
                Some(&self.sessions[at])
            },
            None => None,
        }
    }

    /// The session registered under `id`, if there is one, to be changed in
    /// place. No other session is touched.
    pub fn session_mut(&mut self, id: &session::Id) -> (found: Option<&mut S>)
        requires
            registry_wf(old(self).sessions()),
        ensures
            found is Some <==> session_ids(old(self).sessions()).contains(id@),
            match found {
                Some(session) => {
                    let at = session_ids(old(self).sessions()).index_of(id@);
                    &&& *session == old(self).sessions()[at]
                    &&& final(self).sessions() == old(self).sessions().update(at, *final(session))
                },
                None => final(self).sessions() == old(self).sessions(),
            },
    {
        match self.find(id) {
            Some(at) => {
                assert(session_ids(self.sessions@).index_of(id@) == at);
                Some(&mut self.sessions[at])
            },
            None => None,
        }
    }

    /// Takes the session registered under `id` out of the registry if no
    /// peer is in it. This is how rooms end: whoever removes the last peer of
    /// a room asks for the room to be dropped, and a room that someone has
    /// entered in the meantime stays. No other session is touched.
    pub fn remove_inactive_session(&mut self, id: &session::Id) -> (removed: Option<S>)
        requires
            registry_wf(old(self).sessions()),
        ensures
            registry_wf(final(self).sessions()),
            removed is Some <==> session_ids(old(self).sessions()).contains(id@) && old(self).sessions()[session_ids(old(self).sessions()).index_of(id@)].member_ids().len()
                == 0,
            removed is Some ==> {
                let at = session_ids(old(self).sessions()).index_of(id@);
                &&& removed.unwrap() == old(self).sessions()[at]
                &&& final(self).sessions() == old(self).sessions().remove(at)
            },
            removed is None ==> final(self).sessions() == old(self).sessions(),
    {
        match self.find(id) {
            Some(at) => {
                assert(session_ids(self.sessions@).index_of(id@) == at);
                if self.sessions[at].active() {
                    None
                } else {
                    let session = self.sessions.remove(at);
                    proof {
                        let before = old(self).sessions();
                        let after = self.sessions();
                        assert(session_ids(after) =~= session_ids(before).remove(at as int));
                        assert forall|i: int| 0 <= i < after.len() implies (
                        #[trigger] after[i]).wf() by {
                            if i < at {
                                assert(after[i] == before[i]);
                            } else {
                                assert(after[i] == before[i + 1]);
                            }
                        }
                        assert forall|i: int, j: int|
                            0 <= i < j < after.len() implies session_ids(after)[i]
                            != session_ids(after)[j] by {
                            let a = if i < at { i } else { i + 1 };
                            let b = if j < at { j } else { j + 1 };
                            assert(session_ids(after)[i] == session_ids(before)[a]);
                            assert(session_ids(after)[j] == session_ids(before)[b]);
                        }
                    }
                    Some(session)
                }
            },
            None => None,
        }
    }

    /// Number of sessions registered.
    pub fn session_count(&self) -> (count: usize)
        ensures
            count == self.sessions().len(),
    {
        self.sessions.len()
    }

    /// Whether a session is registered under `id`.
    pub fn has_session(&self, id: &session::Id) -> (found: bool)
        ensures
            found == session_ids(self.sessions()).contains(id@),
    {
        self.find(id).is_some()
    }
}

impl<S: Session> Coordinator<S> for LocalCoordinator<S> {
    closed spec fn sessions(&self) -> Seq<S> {
        self.sessions@
    }

    fn new() -> (coordinator: LocalCoordinator<S>) {
        LocalCoordinator { sessions: Vec::new() }
    }

    fn get_or_create_session(&mut self, id: session::Id) -> (session: &mut S) {
        match self.find(&id) {
            Some(at) => {
                assert(session_ids(self.sessions@).index_of(id@) == at);
                &mut self.sessions[at]
            },
            None => {
                let made = S::new(id);
                self.sessions.push(made);
                let last = self.sessions.len() - 1;
                &mut self.sessions[last]
            },
        }
    }
}

/// A registry stays well formed when a session handed out by
/// [`Coordinator::get_or_create_session`] is changed in a way that keeps the
/// session well formed and under its id.
pub proof fn law_registry_stays_well_formed<S: Session>(
    before: Seq<S>,
    after: Seq<S>,
    id: Seq<char>,
    session: S,
)
    requires
        registry_wf(before),
        session.wf(),
        session.id_spec() == id,
        if session_ids(before).contains(id) {
            after == before.update(session_ids(before).index_of(id), session)
        } else {
            after == before.push(session)
        },
    ensures
        registry_wf(after),
        session_ids(after).contains(id),
        after[session_ids(after).index_of(id)] == session,
{
    let ids = session_ids(before);
    if ids.contains(id) {
        let at = ids.index_of(id);
        assert(session_ids(after) =~= ids);
        assert(session_ids(after)[at] == id);
    } else {
        assert(session_ids(after) =~= ids.push(id));
        assert(session_ids(after)[before.len() as int] == id);
        assert forall|i: int| 0 <= i < after.len() implies (#[trigger] after[i]).wf() by {
            if i < before.len() {
                assert(after[i] == before[i]);
            }
        }
    }
}

} // verus!
