//! Browsing sessions over secondary resources; inert placeholders for now.
use vstd::prelude::*;

verus! {

/// Identifier of a session.
#[derive(Debug, Copy, Clone, Eq, PartialEq, Structural)]
pub struct SessionId(pub u64);

impl SessionId {
    /// The next identifier.
    pub fn next(&self) -> (r: SessionId)
        requires
            self.0 < u64::MAX,
        ensures
            r.0 == self.0 + 1,
    {
        SessionId(self.0 + 1)
    }

    /// An identifier from a raw number.
    pub fn from(id: u64) -> (r: SessionId)
        ensures
            r.0 == id,
    {
        SessionId(id)
    }
}

/// A browsing session over one resource's streams and events.
pub struct Session {}

/// The set of open sessions, keyed by ascending identifiers.
pub struct SessionSet {
    sessions: Vec<(SessionId, Session)>,
    next_session_id: SessionId,
}

impl SessionSet {
    /// The identifiers of the open sessions, in insertion order.
    pub closed spec fn ids(&self) -> Seq<u64> {
        self.sessions@.map_values(|s: (SessionId, Session)| s.0.0)
    }

    /// The identifier the next session will get.
    pub closed spec fn spec_next_id(&self) -> u64 {
        self.next_session_id.0
    }

    /// The set invariant: identifiers were handed out in order.
    pub closed spec fn wf(&self) -> bool {
        &&& forall|i: int| 0 <= i < self.ids().len() ==> #[trigger] self.ids()[i] == i + 1
        &&& self.spec_next_id() == self.ids().len() + 1
    }

    /// Opens a session under the next identifier.
    pub fn insert(&mut self, session: Session)
        requires
            old(self).wf(),
            old(self).spec_next_id() < u64::MAX,
        ensures
            final(self).wf(),
            final(self).ids() == old(self).ids().push(old(self).spec_next_id()),
            final(self).spec_next_id() == old(self).spec_next_id() + 1,
    {
        let id = SessionId(self.next_session_id.0);
        self.sessions.push((id, session));
        self.next_session_id = self.next_session_id.next();
        proof {
            assert(self.ids() =~= old(self).ids().push(old(self).spec_next_id()));
        }
    }
}

impl Default for SessionSet {
    /// An empty session set; identifiers start at one.
    fn default() -> (r: SessionSet)
        ensures
            r.wf(),
            r.ids().len() == 0,
            r.spec_next_id() == 1,
    {
        let r = SessionSet { sessions: Vec::new(), next_session_id: SessionId(1) };
        proof {
            assert(r.ids() =~= Seq::<u64>::empty());
        }
        r
    }
}

} // verus!
