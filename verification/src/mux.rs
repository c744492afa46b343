//! Multi-session relay: demultiplexes one shared transport into many logical
//! sessions keyed by id.
//!
//! The table maps each live session id to its application-side endpoint
//! state.  A message arriving from the shared transport is routed to the
//! inbox of its session; if the id is unknown and inbound creation is
//! permitted and the table has room, a new session is created for it;
//! otherwise the message is dropped as a tolerated soft error — the
//! underlying transport may be unreliable.  A message leaving an
//! application-side session is tagged with its id and forwarded over the
//! shared transport unchanged.  Sessions are removed on explicit close, on
//! idle timeout, or on transport teardown, which cascades to every session.
//! Table lookups are constant-time, so unrelated sessions never serialize
//! each other's traffic.

use std::collections::HashMap;

use vstd::prelude::*;

use crate::address::NetLocation;
use crate::error::ErrorKind;

verus! {

broadcast use vstd::std_specs::hash::group_hash_axioms;

/// A message on the shared transport: a payload tagged with its session id.
#[derive(Clone, Debug, PartialEq, Eq)]
pub struct TaggedMessage {
    /// The session the payload belongs to.
    pub session_id: u64,
    /// The payload, carried unchanged.
    pub payload: Vec<u8>,
}

/// The application-side endpoint state of one session.
pub struct SessionEntry {
    /// The target the session was opened for; sessions created by inbound
    /// traffic learn their target later.
    pub target: Option<NetLocation>,
    /// Payloads routed to this session and not yet consumed, oldest first.
    pub inbox: Vec<Vec<u8>>,
    /// The idle deadline: the session is considered stale once the clock
    /// passes this value.
    pub deadline_ms: u64,
}

/// What became of a message arriving from the shared transport.
#[derive(Clone, Copy, Debug, PartialEq, Eq, Structural)]
pub enum DeliverOutcome {
    /// Routed to the inbox of its live session.
    Delivered,
    /// Its id was unknown; a new session was created for it and it was
    /// routed there.
    Opened,
    /// Its id was unknown and no session could be created: dropped as a
    /// tolerated soft error.
    Dropped,
}

/// The session table of one shared transport.
pub struct MuxRelay {
    /// Live sessions keyed by id.
    pub sessions: HashMap<u64, SessionEntry>,
    /// The live ids; same membership as the table's keys, no duplicates.
    pub ids: Vec<u64>,
    /// Bound on concurrently live sessions.
    pub max_sessions: usize,
    /// Whether a message with an unknown id may create its session.
    pub allow_inbound_open: bool,
}

impl MuxRelay {
    /// The id list carries exactly the table's keys, without duplicates.
    pub open spec fn wf(self) -> bool {
        &&& self.ids@.no_duplicates()
        &&& (forall|k: u64| #[trigger] self.sessions@.contains_key(k) ==> self.ids@.contains(k))
        &&& (forall|i: int|
            0 <= i < self.ids@.len() ==> self.sessions@.contains_key(#[trigger] self.ids@[i]))
    }

    /// Whether the session with this id is live.
    pub open spec fn is_live(self, id: u64) -> bool {
        self.sessions@.contains_key(id)
    }

    /// An empty table for one shared transport.
    pub fn new(max_sessions: usize, allow_inbound_open: bool) -> (r: Self)
        ensures
            r.wf(),
            r.sessions@ == Map::<u64, SessionEntry>::empty(),
            r.ids@ == Seq::<u64>::empty(),
            r.max_sessions == max_sessions,
            r.allow_inbound_open == allow_inbound_open,
    {
        MuxRelay { sessions: HashMap::new(), ids: Vec::new(), max_sessions, allow_inbound_open }
    }

    /// Number of live sessions.
    pub fn session_count(&self) -> (r: usize)
        ensures
            r == self.sessions@.len(),
    {
        self.sessions.len()
    }

    /// Whether the session with this id is live.
    pub fn contains(&self, id: u64) -> (r: bool)
        ensures
            r == self.is_live(id),
    {
        self.sessions.contains_key(&id)
    }

    /// The live session ids, in insertion order.
    pub fn live_ids(&self) -> (r: Vec<u64>)
        ensures
            r@ == self.ids@,
    {
        let mut out: Vec<u64> = Vec::new();
        let mut i: usize = 0;
        while i < self.ids.len()
            invariant
                i <= self.ids@.len(),
                out@ == self.ids@.subrange(0, i as int),
            decreases self.ids@.len() - i,
        {
            out.push(self.ids[i]);
            proof {
                assert(out@ =~= self.ids@.subrange(0, i + 1));
            }
            i = i + 1;
        }
        proof {
            assert(out@ =~= self.ids@);
        }
        out
    }

    /// Insert a session under a fresh id chosen by the layer above.  Once
    /// the table is full the request is refused with `ResourceExhausted` and
    /// no live session is evicted — the table is unchanged.
    pub fn insert_new(&mut self, id: u64, target: Option<NetLocation>, deadline_ms: u64) -> (r:
        Result<(), ErrorKind>)
        requires
            old(self).wf(),
            !old(self).is_live(id),
        ensures
            final(self).wf(),
            final(self).max_sessions == old(self).max_sessions,
            final(self).allow_inbound_open == old(self).allow_inbound_open,
            old(self).sessions@.len() >= old(self).max_sessions ==> {
                &&& (r matches Err(e) && e == ErrorKind::ResourceExhausted)
                &&& final(self).sessions@ == old(self).sessions@
                &&& final(self).ids@ == old(self).ids@
            },
            old(self).sessions@.len() < old(self).max_sessions ==> {
                &&& r matches Ok(u)
                &&& final(self).is_live(id)
                &&& final(self).sessions@[id].target == target
                &&& final(self).sessions@[id].inbox@ == Seq::<Vec<u8>>::empty()
                &&& final(self).sessions@[id].deadline_ms == deadline_ms
                &&& final(self).ids@ == old(self).ids@.push(id)
            },
            forall|k: u64|
                k != id ==> (final(self).sessions@.contains_key(k) <==> old(self).sessions@.contains_key(k)),
            forall|k: u64|
                k != id && old(self).sessions@.contains_key(k) ==> final(self).sessions@[k] == old(self).sessions@[k],
    {
        if self.sessions.len() >= self.max_sessions {
            return Err(ErrorKind::ResourceExhausted);
        }
        let entry = SessionEntry { target, inbox: Vec::new(), deadline_ms };
        self.sessions.insert(id, entry);
        proof {
            let s = old(self).ids@;
            assert forall|p: int, q: int|
                0 <= p < s.push(id).len() && 0 <= q < s.push(id).len() && p
                    != q implies s.push(id)[p] != s.push(id)[q] by {
                if p < s.len() && q < s.len() {
                } else if p == s.len() {
                    if s.push(id)[q] == id {
                        assert(s[q] == id);
                        assert(s.contains(id));
                    }
                } else {
                    if s.push(id)[p] == id {
                        assert(s[p] == id);
                        assert(s.contains(id));
                    }
                }
            }
            assert(s.push(id)[s.len() as int] == id);
        }
        self.ids.push(id);
        proof {
            let s = old(self).ids@;
            let s2 = self.ids@;
            assert forall|k: u64| #[trigger] self.sessions@.contains_key(k) implies s2.contains(
                k,
            ) by {
                if k == id {
                    assert(s2[s.len() as int] == id);
                } else {
                    assert(old(self).sessions@.contains_key(k));
                    let w = choose|w: int| 0 <= w < s.len() && s[w] == k;
                    assert(s2[w] == k);
                }
            }
            assert forall|i: int| 0 <= i < s2.len() implies self.sessions@.contains_key(
                #[trigger] s2[i],
            ) by {
                if i < s.len() {
                    assert(s2[i] == s[i]);
                    assert(old(self).sessions@.contains_key(s[i]));
                } else {
                    assert(s2[i] == id);
                }
            }
        }
        Ok(())
    }

    /// Route a message arriving from the shared transport.  It lands in the
    /// inbox of its session, creates its session when that is permitted and
    /// the table has room, or is dropped; every other session's state is
    /// untouched in all three cases.
    pub fn deliver_inbound(&mut self, m: TaggedMessage, deadline_ms: u64) -> (r: DeliverOutcome)
        requires
            old(self).wf(),
        ensures
            final(self).wf(),
            final(self).max_sessions == old(self).max_sessions,
            final(self).allow_inbound_open == old(self).allow_inbound_open,
            old(self).is_live(m.session_id) ==> {
                &&& r == DeliverOutcome::Delivered
                &&& final(self).is_live(m.session_id)
                &&& final(self).sessions@[m.session_id].inbox@ == old(self).sessions@[m.session_id].inbox@.push(m.payload)
                &&& final(self).sessions@[m.session_id].target == old(self).sessions@[m.session_id].target
                &&& final(self).sessions@[m.session_id].deadline_ms == old(self).sessions@[m.session_id].deadline_ms
                &&& final(self).ids@ == old(self).ids@
            },
            (!old(self).is_live(m.session_id) && old(self).allow_inbound_open && old(self).sessions@.len() < old(self).max_sessions) ==> {
                &&& r == DeliverOutcome::Opened
                &&& final(self).is_live(m.session_id)
                &&& final(self).sessions@[m.session_id].inbox@ == seq![m.payload]
                &&& final(self).sessions@[m.session_id].target is None
                &&& final(self).sessions@[m.session_id].deadline_ms == deadline_ms
                &&& final(self).ids@ == old(self).ids@.push(m.session_id)
            },
            (!old(self).is_live(m.session_id) && !(old(self).allow_inbound_open && old(self).sessions@.len() < old(self).max_sessions)) ==> {
                &&& r == DeliverOutcome::Dropped
                &&& final(self).sessions@ == old(self).sessions@
                &&& final(self).ids@ == old(self).ids@
            },
            forall|k: u64|
                k != m.session_id ==> (final(self).sessions@.contains_key(k) <==> old(self).sessions@.contains_key(k)),
            forall|k: u64|
                k != m.session_id && old(self).sessions@.contains_key(k) ==> final(self).sessions@[k] == old(self).sessions@[k],
    {
        let TaggedMessage { session_id, payload } = m;
        match self.sessions.remove(&session_id) {
            Some(mut entry) => {
                entry.inbox.push(payload);
                self.sessions.insert(session_id, entry);
                proof {
                    assert forall|k: u64|
                        #[trigger] self.sessions@.contains_key(k) implies self.ids@.contains(k) by {
                        assert(old(self).sessions@.contains_key(k));
                    }
                    assert forall|i: int|
                        0 <= i < self.ids@.len() implies self.sessions@.contains_key(
                        #[trigger] self.ids@[i],
                    ) by {
                        assert(old(self).sessions@.contains_key(self.ids@[i]));
                    }
                }
                DeliverOutcome::Delivered
            },
            None => {
                if self.allow_inbound_open && self.sessions.len() < self.max_sessions {
                    let mut inbox: Vec<Vec<u8>> = Vec::new();
                    inbox.push(payload);
                    let entry = SessionEntry { target: None, inbox, deadline_ms };
                    self.sessions.insert(session_id, entry);
                    proof {
                        let s = old(self).ids@;
                        assert forall|p: int, q: int|
                            0 <= p < s.push(session_id).len() && 0 <= q < s.push(session_id).len()
                                && p != q implies s.push(session_id)[p] != s.push(session_id)[q] by {
                            if p < s.len() && q < s.len() {
                            } else if p == s.len() {
                                if s.push(session_id)[q] == session_id {
                                    assert(s[q] == session_id);
                                    assert(s.contains(session_id));
                                }
                            } else {
                                if s.push(session_id)[p] == session_id {
                                    assert(s[p] == session_id);
                                    assert(s.contains(session_id));
                                }
                            }
                        }
                        assert(s.push(session_id)[s.len() as int] == session_id);
                    }
                    self.ids.push(session_id);
                    proof {
                        let s = old(self).ids@;
                        let s2 = self.ids@;
                        assert forall|k: u64|
                            #[trigger] self.sessions@.contains_key(k) implies s2.contains(k) by {
                            if k == session_id {
                                assert(s2[s.len() as int] == session_id);
                            } else {
                                assert(old(self).sessions@.contains_key(k));
                                let w = choose|w: int| 0 <= w < s.len() && s[w] == k;
                                assert(s2[w] == k);
                            }
                        }
                        assert forall|i: int|
                            0 <= i < s2.len() implies self.sessions@.contains_key(
                            #[trigger] s2[i],
                        ) by {
                            if i < s.len() {
                                assert(s2[i] == s[i]);
                                assert(old(self).sessions@.contains_key(s[i]));
                            } else {
                                assert(s2[i] == session_id);
                            }
                        }
                    }
                    DeliverOutcome::Opened
                } else {
                    proof {
                        assert(old(self).sessions@.remove(session_id) =~= old(self).sessions@);
                    }
                    DeliverOutcome::Dropped
                }
            },
        }
    }

    /// Take the oldest payload routed to this session, if any.
    pub fn pop_delivered(&mut self, id: u64) -> (r: Option<Vec<u8>>)
        requires
            old(self).wf(),
            old(self).is_live(id),
        ensures
            final(self).wf(),
            final(self).max_sessions == old(self).max_sessions,
            final(self).allow_inbound_open == old(self).allow_inbound_open,
            final(self).ids@ == old(self).ids@,
            final(self).is_live(id),
            final(self).sessions@[id].target == old(self).sessions@[id].target,
            final(self).sessions@[id].deadline_ms == old(self).sessions@[id].deadline_ms,
            old(self).sessions@[id].inbox@.len() == 0 ==> r is None && final(self).sessions@[id].inbox@ == old(self).sessions@[id].inbox@,
            old(self).sessions@[id].inbox@.len() > 0 ==> (r matches Some(p) && p == old(self).sessions@[id].inbox@[0] && final(self).sessions@[id].inbox@ == old(self).sessions@[id].inbox@.drop_first()),
            forall|k: u64|
                k != id ==> (final(self).sessions@.contains_key(k) <==> old(self).sessions@.contains_key(k)),
            forall|k: u64|
                k != id && old(self).sessions@.contains_key(k) ==> final(self).sessions@[k] == old(self).sessions@[k],
    {
        match self.sessions.remove(&id) {
            Some(mut entry) => {
                let r = if entry.inbox.len() > 0 {
                    let p = entry.inbox.remove(0);
                    proof {
                        assert(old(self).sessions@[id].inbox@.remove(0) =~= old(self).sessions@[id].inbox@.drop_first());
                    }
                    Some(p)
                } else {
                    None
                };
                self.sessions.insert(id, entry);
                r
            },
            None => {
                proof {
                    assert(false);
                }
                None
            },
        }
    }

    /// The session's current idle deadline.
    pub fn deadline_of(&self, id: u64) -> (r: u64)
        requires
            self.is_live(id),
        ensures
            r == self.sessions@[id].deadline_ms,
    {
        match self.sessions.get(&id) {
            Some(e) => e.deadline_ms,
            None => {
                proof {
                    assert(false);
                }
                0
            },
        }
    }

    /// Move the session's idle deadline.
    pub fn set_deadline(&mut self, id: u64, deadline_ms: u64)
        requires
            old(self).wf(),
            old(self).is_live(id),
        ensures
            final(self).wf(),
            final(self).max_sessions == old(self).max_sessions,
            final(self).allow_inbound_open == old(self).allow_inbound_open,
            final(self).ids@ == old(self).ids@,
            final(self).is_live(id),
            final(self).sessions@[id].target == old(self).sessions@[id].target,
            final(self).sessions@[id].inbox@ == old(self).sessions@[id].inbox@,
            final(self).sessions@[id].deadline_ms == deadline_ms,
            forall|k: u64|
                k != id ==> (final(self).sessions@.contains_key(k) <==> old(self).sessions@.contains_key(k)),
            forall|k: u64|
                k != id && old(self).sessions@.contains_key(k) ==> final(self).sessions@[k] == old(self).sessions@[k],
    {
        match self.sessions.remove(&id) {
            Some(mut entry) => {
                entry.deadline_ms = deadline_ms;
                self.sessions.insert(id, entry);
            },
            None => {
                proof {
                    assert(false);
                }
            },
        }
    }

    /// Tag an application-side payload with its session id for the shared
    /// transport.  The payload is forwarded unchanged; an unknown or closed
    /// id fails with the stale-session error rather than succeeding
    /// silently.
    pub fn tag_outbound(&self, id: u64, payload: Vec<u8>) -> (r: Result<TaggedMessage, ErrorKind>)
        ensures
            self.is_live(id) ==> (r matches Ok(t) && t.session_id == id && t.payload == payload),
            !self.is_live(id) ==> (r matches Err(e) && e == ErrorKind::StaleSession),
    {
        if self.sessions.contains_key(&id) {
            Ok(TaggedMessage { session_id: id, payload })
        } else {
            Err(ErrorKind::StaleSession)
        }
    }

    /// Remove a session.  Idempotent: closing an id that is not live does
    /// nothing.  Every other session is untouched.
    pub fn close_session(&mut self, id: u64) -> (was_live: bool)
        requires
            old(self).wf(),
        ensures
            final(self).wf(),
            final(self).max_sessions == old(self).max_sessions,
            final(self).allow_inbound_open == old(self).allow_inbound_open,
            was_live == old(self).is_live(id),
            !final(self).is_live(id),
            forall|k: u64|
                k != id ==> (final(self).sessions@.contains_key(k) <==> old(self).sessions@.contains_key(k)),
            forall|k: u64|
                k != id && old(self).sessions@.contains_key(k) ==> final(self).sessions@[k] == old(self).sessions@[k],
            old(self).is_live(id) ==> final(self).sessions@.len() == old(self).sessions@.len() - 1,
            !old(self).is_live(id) ==> final(self).sessions@ == old(self).sessions@ && final(self).ids@ == old(self).ids@,
    {
        let was = self.sessions.remove(&id).is_some();
        if !was {
            proof {
                assert(old(self).sessions@.remove(id) =~= old(self).sessions@);
            }
            return false;
        }
        let n = self.ids.len();
        let mut j: usize = 0;
        while j < n && self.ids[j] != id
            invariant
                j <= n,
                n == self.ids@.len(),
                forall|p: int| 0 <= p < j ==> self.ids@[p] != id,
            decreases n - j,
        {
            j = j + 1;
        }
        proof {
            if j == n {
                assert(old(self).ids@.contains(id));
                let w = choose|w: int| 0 <= w < old(self).ids@.len() && old(self).ids@[w] == id;
                assert(false);
            }
        }
        let ghost s = self.ids@;
        self.ids.remove(j);
        proof {
            let s2 = self.ids@;
            assert(s2 == s.subrange(0, j as int) + s.subrange(j + 1, s.len() as int));
            assert(s[j as int] == id);
            assert forall|p: int| 0 <= p < s2.len() implies s2[p] == (if p < j {
                s[p]
            } else {
                s[p + 1]
            }) by {}
            assert forall|p: int, q: int|
                0 <= p < s2.len() && 0 <= q < s2.len() && p != q implies s2[p] != s2[q] by {}
            assert forall|k: u64|
                #[trigger] final(self).sessions@.contains_key(k) implies s2.contains(k) by {
                assert(old(self).sessions@.contains_key(k) && k != id);
                assert(s.contains(k));
                let w = choose|w: int| 0 <= w < s.len() && s[w] == k;
                if w < j {
                    assert(s2[w] == k);
                } else {
                    assert(w != j);
                    assert(s2[w - 1] == k);
                }
            }
            assert forall|i: int|
                0 <= i < s2.len() implies final(self).sessions@.contains_key(#[trigger] s2[i]) by {
                if i < j {
                    assert(s2[i] == s[i]);
                } else {
                    assert(s2[i] == s[i + 1]);
                }
                assert(s2[i] != id);
                assert(old(self).sessions@.contains_key(s2[i]));
            }
        }
        true
    }

    /// Tear the shared transport's table down: a cascading close of every
    /// session.
    pub fn teardown(&mut self)
        ensures
            final(self).wf(),
            final(self).max_sessions == old(self).max_sessions,
            final(self).allow_inbound_open == old(self).allow_inbound_open,
            final(self).sessions@ == Map::<u64, SessionEntry>::empty(),
            final(self).ids@ == Seq::<u64>::empty(),
    {
        self.sessions = HashMap::new();
        self.ids = Vec::new();
    }
}

/// Law: session isolation.  Removing session `j` from a table leaves every
/// other session's liveness and state exactly as they were.
pub proof fn lemma_close_isolation(table: Map<u64, SessionEntry>, j: u64, i: u64)
    requires
        i != j,
    ensures
        table.remove(j).contains_key(i) <==> table.contains_key(i),
        table.contains_key(i) ==> table.remove(j)[i] == table[i],
{
}

} // verus!
