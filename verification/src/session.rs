//! Session manager: session lifecycle layered atop the multi-session relay.
//!
//! The manager assigns session ids that are never reused while live, enforces
//! the idle timeout via per-session deadlines, and bounds the table by the
//! configured maximum.  `open` hands out a fresh handle or fails with
//! `ResourceExhausted` once the bound is reached — it never evicts a live
//! session.  `send` and `receive` on a closed, unknown, or idle-expired
//! handle fail with the stale-session error rather than succeeding silently;
//! an expired session auto-closes at that moment.  `sweep_idle` proactively
//! closes every session whose deadline has passed.  The driver supplies the
//! clock as a millisecond reading; the core never reads time itself.

use vstd::prelude::*;

use crate::address::NetLocation;
use crate::error::ErrorKind;
use crate::mux::{DeliverOutcome, MuxRelay, SessionEntry, TaggedMessage};

verus! {

/// Whether the session is stale at the given clock reading: the clock has
/// passed its idle deadline.
pub open spec fn session_expired(e: SessionEntry, now_ms: u64) -> bool {
    now_ms > e.deadline_ms
}

/// The idle deadline granted by activity at the given clock reading,
/// saturating at the clock's maximum.
pub open spec fn idle_deadline(now_ms: u64, timeout_ms: u64) -> u64 {
    if now_ms + timeout_ms > u64::MAX {
        u64::MAX
    } else {
        (now_ms + timeout_ms) as u64
    }
}

/// Law: staleness is permanent under a monotonic clock — a session expired
/// at one reading is expired at every later reading, so once a handle has
/// gone stale every subsequent send or receive on it keeps failing.
pub proof fn lemma_expiry_monotonic(e: SessionEntry, t1: u64, t2: u64)
    requires
        session_expired(e, t1),
        t2 >= t1,
    ensures
        session_expired(e, t2),
{
}

/// The ids among `ids` whose session in `table` is stale at the given clock
/// reading.
pub open spec fn expired_ids(ids: Seq<u64>, table: Map<u64, SessionEntry>, now_ms: u64) -> Seq<
    u64,
> {
    ids.filter(|h: u64| session_expired(table[h], now_ms))
}

/// Session lifecycle state for one shared transport.
pub struct SessionManager {
    /// The session table and routing layer underneath.
    pub mux: MuxRelay,
    /// The next id to hand out; every live id is strictly below it.
    pub next_id: u64,
    /// How long a session may stay silent before it is considered stale.
    pub idle_timeout_ms: u64,
}

impl SessionManager {
    /// The table is well-formed and every live id is strictly below
    /// `next_id`, so a handed-out id is never reused while live.
    pub open spec fn wf(self) -> bool {
        &&& self.mux.wf()
        &&& forall|k: u64| #[trigger] self.mux.sessions@.contains_key(k) ==> k < self.next_id
    }

    /// Whether the session with this handle is live.
    pub open spec fn is_live(self, id: u64) -> bool {
        self.mux.is_live(id)
    }

    /// An empty manager for one shared transport.
    pub fn new(max_sessions: usize, idle_timeout_ms: u64, allow_inbound_open: bool) -> (r: Self)
        ensures
            r.wf(),
            r.mux.sessions@ == Map::<u64, SessionEntry>::empty(),
            r.mux.max_sessions == max_sessions,
            r.mux.allow_inbound_open == allow_inbound_open,
            r.next_id == 0,
            r.idle_timeout_ms == idle_timeout_ms,
    {
        SessionManager {
            mux: MuxRelay::new(max_sessions, allow_inbound_open),
            next_id: 0,
            idle_timeout_ms,
        }
    }

    /// Open a session toward a target.  Succeeds with a fresh handle exactly
    /// when the table is below its bound and the id space is not exhausted;
    /// once the bound is reached the request fails with `ResourceExhausted`
    /// and no live session is evicted — the manager is unchanged.
    pub fn open(&mut self, target: NetLocation, now_ms: u64) -> (r: Result<u64, ErrorKind>)
        requires
            old(self).wf(),
        ensures
            final(self).wf(),
            final(self).mux.max_sessions == old(self).mux.max_sessions,
            final(self).mux.allow_inbound_open == old(self).mux.allow_inbound_open,
            final(self).idle_timeout_ms == old(self).idle_timeout_ms,
            (old(self).mux.sessions@.len() >= old(self).mux.max_sessions || old(self).next_id
                == u64::MAX) ==> {
                &&& (r matches Err(e) && e == ErrorKind::ResourceExhausted)
                &&& final(self).mux.sessions@ == old(self).mux.sessions@
                &&& final(self).next_id == old(self).next_id
            },
            (old(self).mux.sessions@.len() < old(self).mux.max_sessions && old(self).next_id
                < u64::MAX) ==> {
                &&& r == Result::<u64, ErrorKind>::Ok(old(self).next_id)
                &&& !old(self).is_live(old(self).next_id)
                &&& final(self).is_live(old(self).next_id)
                &&& final(self).mux.sessions@[old(self).next_id].target == Some(target)
                &&& final(self).mux.sessions@[old(self).next_id].inbox@ == Seq::<Vec<u8>>::empty()
                &&& final(self).mux.sessions@[old(self).next_id].deadline_ms == idle_deadline(
                    now_ms,
                    old(self).idle_timeout_ms,
                )
                &&& final(self).next_id == old(self).next_id + 1
            },
            forall|k: u64|
                k != old(self).next_id ==> (final(self).is_live(k) <==> old(self).is_live(k)),
            forall|k: u64|
                k != old(self).next_id && old(self).is_live(k) ==> final(self).mux.sessions@[k]
                    == old(self).mux.sessions@[k],
    {
        if self.mux.session_count() >= self.mux.max_sessions || self.next_id == u64::MAX {
            return Err(ErrorKind::ResourceExhausted);
        }
        let id = self.next_id;
        let deadline = saturating_deadline(now_ms, self.idle_timeout_ms);
        let res = self.mux.insert_new(id, Some(target), deadline);
        proof {
            assert(res is Ok);
        }
        self.next_id = id + 1;
        Ok(id)
    }

    /// Route a message arriving from the shared transport; arrival counts as
    /// activity, so a delivered or newly created session gets a fresh idle
    /// deadline.  A message for an unknown id is dropped as a soft error
    /// unless inbound creation is permitted and the table has room.  Every
    /// other session is untouched.
    pub fn route_inbound(&mut self, m: TaggedMessage, now_ms: u64) -> (r: DeliverOutcome)
        requires
            old(self).wf(),
        ensures
            final(self).wf(),
            final(self).mux.max_sessions == old(self).mux.max_sessions,
            final(self).mux.allow_inbound_open == old(self).mux.allow_inbound_open,
            final(self).idle_timeout_ms == old(self).idle_timeout_ms,
            old(self).is_live(m.session_id) ==> {
                &&& r == DeliverOutcome::Delivered
                &&& final(self).is_live(m.session_id)
                &&& final(self).mux.sessions@[m.session_id].inbox@ == old(self).mux.sessions@[m.session_id].inbox@.push(m.payload)
                &&& final(self).mux.sessions@[m.session_id].target == old(self).mux.sessions@[m.session_id].target
                &&& final(self).mux.sessions@[m.session_id].deadline_ms == idle_deadline(
                    now_ms,
                    old(self).idle_timeout_ms,
                )
            },
            (!old(self).is_live(m.session_id) && m.session_id < u64::MAX && old(self).mux.allow_inbound_open && old(self).mux.sessions@.len() < old(self).mux.max_sessions) ==> {
                &&& r == DeliverOutcome::Opened
                &&& final(self).is_live(m.session_id)
                &&& final(self).mux.sessions@[m.session_id].inbox@ == seq![m.payload]
                &&& final(self).mux.sessions@[m.session_id].deadline_ms == idle_deadline(
                    now_ms,
                    old(self).idle_timeout_ms,
                )
            },
            (!old(self).is_live(m.session_id) && (m.session_id == u64::MAX || !(old(self).mux.allow_inbound_open && old(self).mux.sessions@.len() < old(self).mux.max_sessions))) ==> {
                &&& r == DeliverOutcome::Dropped
                &&& final(self).mux.sessions@ == old(self).mux.sessions@
            },
            forall|k: u64|
                k != m.session_id ==> (final(self).is_live(k) <==> old(self).is_live(k)),
            forall|k: u64|
                k != m.session_id && old(self).is_live(k) ==> final(self).mux.sessions@[k] == old(self).mux.sessions@[k],
    {
        let sid = m.session_id;
        let deadline = saturating_deadline(now_ms, self.idle_timeout_ms);
        if !self.mux.contains(sid) && sid == u64::MAX {
            // The largest id is reserved so that ids created by inbound
            // traffic always leave room for `next_id` to stay above every
            // live id.
            return DeliverOutcome::Dropped;
        }
        let r = self.mux.deliver_inbound(m, deadline);
        if matches!(r, DeliverOutcome::Delivered) {
            self.mux.set_deadline(sid, deadline);
        }
        if matches!(r, DeliverOutcome::Opened) {
            if sid >= self.next_id {
                self.next_id = sid + 1;
            }
        }
        r
    }

    /// Tag an application-side payload with its session id for the shared
    /// transport.  The attempt counts as activity on a live, fresh session;
    /// a stale one auto-closes here, and the send fails with the
    /// stale-session error, as it does on an unknown or closed handle.
    pub fn send(&mut self, handle: u64, payload: Vec<u8>, now_ms: u64) -> (r: Result<
        TaggedMessage,
        ErrorKind,
    >)
        requires
            old(self).wf(),
        ensures
            final(self).wf(),
            final(self).mux.max_sessions == old(self).mux.max_sessions,
            final(self).mux.allow_inbound_open == old(self).mux.allow_inbound_open,
            final(self).idle_timeout_ms == old(self).idle_timeout_ms,
            final(self).next_id == old(self).next_id,
            !old(self).is_live(handle) ==> {
                &&& (r matches Err(e) && e == ErrorKind::StaleSession)
                &&& final(self).mux.sessions@ == old(self).mux.sessions@
            },
            (old(self).is_live(handle) && session_expired(
                old(self).mux.sessions@[handle],
                now_ms,
            )) ==> {
                &&& (r matches Err(e) && e == ErrorKind::StaleSession)
                &&& !final(self).is_live(handle)
            },
            (old(self).is_live(handle) && !session_expired(
                old(self).mux.sessions@[handle],
                now_ms,
            )) ==> {
                &&& (r matches Ok(t) && t.session_id == handle && t.payload == payload)
                &&& final(self).is_live(handle)
                &&& final(self).mux.sessions@[handle].inbox@ == old(self).mux.sessions@[handle].inbox@
                &&& final(self).mux.sessions@[handle].deadline_ms == idle_deadline(
                    now_ms,
                    old(self).idle_timeout_ms,
                )
            },
            forall|k: u64| k != handle ==> (final(self).is_live(k) <==> old(self).is_live(k)),
            forall|k: u64|
                k != handle && old(self).is_live(k) ==> final(self).mux.sessions@[k] == old(self).mux.sessions@[k],
    {
        if !self.mux.contains(handle) {
            return Err(ErrorKind::StaleSession);
        }
        let deadline = self.mux.deadline_of(handle);
        if now_ms > deadline {
            self.mux.close_session(handle);
            return Err(ErrorKind::StaleSession);
        }
        self.mux.set_deadline(handle, saturating_deadline(now_ms, self.idle_timeout_ms));
        self.mux.tag_outbound(handle, payload)
    }

    /// Take the oldest payload routed to this session, if any; `None` means
    /// the driver should suspend until more traffic arrives.  Staleness is
    /// handled exactly as in [`SessionManager::send`].
    pub fn receive(&mut self, handle: u64, now_ms: u64) -> (r: Result<Option<Vec<u8>>, ErrorKind>)
        requires
            old(self).wf(),
        ensures
            final(self).wf(),
            final(self).mux.max_sessions == old(self).mux.max_sessions,
            final(self).mux.allow_inbound_open == old(self).mux.allow_inbound_open,
            final(self).idle_timeout_ms == old(self).idle_timeout_ms,
            final(self).next_id == old(self).next_id,
            !old(self).is_live(handle) ==> {
                &&& (r matches Err(e) && e == ErrorKind::StaleSession)
                &&& final(self).mux.sessions@ == old(self).mux.sessions@
            },
            (old(self).is_live(handle) && session_expired(
                old(self).mux.sessions@[handle],
                now_ms,
            )) ==> {
                &&& (r matches Err(e) && e == ErrorKind::StaleSession)
                &&& !final(self).is_live(handle)
            },
            (old(self).is_live(handle) && !session_expired(
                old(self).mux.sessions@[handle],
                now_ms,
            )) ==> {
                &&& final(self).is_live(handle)
                &&& final(self).mux.sessions@[handle].deadline_ms == idle_deadline(
                    now_ms,
                    old(self).idle_timeout_ms,
                )
                &&& (old(self).mux.sessions@[handle].inbox@.len() == 0 ==> (r
                    matches Ok(p) && p is None) && final(self).mux.sessions@[handle].inbox@ == old(self).mux.sessions@[handle].inbox@)
                &&& (old(self).mux.sessions@[handle].inbox@.len() > 0 ==> (r matches Ok(p) && p
                    == Some(old(self).mux.sessions@[handle].inbox@[0])) && final(self).mux.sessions@[handle].inbox@ == old(self).mux.sessions@[handle].inbox@.drop_first())
            },
            forall|k: u64| k != handle ==> (final(self).is_live(k) <==> old(self).is_live(k)),
            forall|k: u64|
                k != handle && old(self).is_live(k) ==> final(self).mux.sessions@[k] == old(self).mux.sessions@[k],
    {
        if !self.mux.contains(handle) {
            return Err(ErrorKind::StaleSession);
        }
        let deadline = self.mux.deadline_of(handle);
        if now_ms > deadline {
            self.mux.close_session(handle);
            return Err(ErrorKind::StaleSession);
        }
        let p = self.mux.pop_delivered(handle);
        self.mux.set_deadline(handle, saturating_deadline(now_ms, self.idle_timeout_ms));
        Ok(p)
    }

    /// Close a session.  Idempotent; every other session is untouched.
    pub fn close(&mut self, handle: u64) -> (was_live: bool)
        requires
            old(self).wf(),
        ensures
            final(self).wf(),
            final(self).mux.max_sessions == old(self).mux.max_sessions,
            final(self).mux.allow_inbound_open == old(self).mux.allow_inbound_open,
            final(self).idle_timeout_ms == old(self).idle_timeout_ms,
            final(self).next_id == old(self).next_id,
            was_live == old(self).is_live(handle),
            !final(self).is_live(handle),
            forall|k: u64| k != handle ==> (final(self).is_live(k) <==> old(self).is_live(k)),
            forall|k: u64|
                k != handle && old(self).is_live(k) ==> final(self).mux.sessions@[k] == old(self).mux.sessions@[k],
    {
        self.mux.close_session(handle)
    }

    /// Tear the shared transport down: a cascading close of every session.
    pub fn teardown(&mut self)
        requires
            old(self).wf(),
        ensures
            final(self).wf(),
            final(self).mux.sessions@ == Map::<u64, SessionEntry>::empty(),
            final(self).mux.max_sessions == old(self).mux.max_sessions,
            final(self).mux.allow_inbound_open == old(self).mux.allow_inbound_open,
            final(self).idle_timeout_ms == old(self).idle_timeout_ms,
    {
        self.mux.teardown();
        self.next_id = 0;
    }

    /// Close every session whose idle deadline has passed; every fresh
    /// session keeps exactly its state.  Returns how many were closed.
    pub fn sweep_idle(&mut self, now_ms: u64) -> (removed: usize)
        requires
            old(self).wf(),
        ensures
            final(self).wf(),
            final(self).mux.max_sessions == old(self).mux.max_sessions,
            final(self).mux.allow_inbound_open == old(self).mux.allow_inbound_open,
            final(self).idle_timeout_ms == old(self).idle_timeout_ms,
            final(self).next_id == old(self).next_id,
            forall|k: u64|
                final(self).is_live(k) <==> (old(self).is_live(k) && !session_expired(
                    old(self).mux.sessions@[k],
                    now_ms,
                )),
            forall|k: u64|
                final(self).is_live(k) ==> final(self).mux.sessions@[k] == old(self).mux.sessions@[k],
            removed == expired_ids(old(self).mux.ids@, old(self).mux.sessions@, now_ms).len(),
    {
        let handles = self.mux.live_ids();
        let ghost m0 = self.mux.sessions@;
        let ghost s0 = self.mux.ids@;
        let mut removed: usize = 0;
        let mut i: usize = 0;
        proof {
            reveal_with_fuel(Seq::filter, 2);
            assert(s0.subrange(0, 0) =~= Seq::<u64>::empty());
            assert(expired_ids(s0.subrange(0, 0), m0, now_ms).len() == 0);
        }
        while i < handles.len()
            invariant
                self.wf(),
                i <= handles@.len(),
                removed <= i,
                handles@ == s0,
                s0.no_duplicates(),
                forall|k: u64| #[trigger] m0.contains_key(k) ==> s0.contains(k),
                forall|j: int| 0 <= j < s0.len() ==> m0.contains_key(#[trigger] s0[j]),
                self.mux.max_sessions == old(self).mux.max_sessions,
                self.mux.allow_inbound_open == old(self).mux.allow_inbound_open,
                self.idle_timeout_ms == old(self).idle_timeout_ms,
                self.next_id == old(self).next_id,
                forall|k: u64|
                    #[trigger] self.mux.sessions@.contains_key(k) ==> m0.contains_key(k)
                        && self.mux.sessions@[k] == m0[k],
                forall|k: u64|
                    m0.contains_key(k) ==> (#[trigger] self.mux.sessions@.contains_key(k) <==> !(
                    exists|j: int| 0 <= j < i && s0[j] == k && now_ms > m0[k].deadline_ms)),
                removed == expired_ids(s0.subrange(0, i as int), m0, now_ms).len(),
            decreases handles@.len() - i,
        {
            let h = handles[i];
            proof {
                assert(m0.contains_key(h));
                if !self.mux.sessions@.contains_key(h) {
                    let j = choose|j: int|
                        0 <= j < i && s0[j] == h && now_ms > m0[h].deadline_ms;
                    assert(s0[j] == s0[i as int]);
                    assert(false);
                }
            }
            let dl = self.mux.deadline_of(h);
            if now_ms > dl {
                self.mux.close_session(h);
                removed = removed + 1;
            }
            i = i + 1;
            proof {
                reveal_with_fuel(Seq::filter, 2);
                let pre1 = s0.subrange(0, i as int);
                let pre0 = s0.subrange(0, i - 1);
                assert(pre1.drop_last() =~= pre0);
                assert(pre1.last() == s0[i - 1]);
                if now_ms > m0[h].deadline_ms {
                    assert(expired_ids(pre1, m0, now_ms) == expired_ids(pre0, m0, now_ms).push(h));
                } else {
                    assert(expired_ids(pre1, m0, now_ms) == expired_ids(pre0, m0, now_ms));
                }
                assert forall|k: u64| m0.contains_key(k) implies (
                #[trigger] self.mux.sessions@.contains_key(k) <==> !(exists|j: int|
                    0 <= j < i && s0[j] == k && now_ms > m0[k].deadline_ms)) by {
                    if k == h {
                        if now_ms > m0[k].deadline_ms {
                            assert(s0[i - 1] == k && now_ms > m0[k].deadline_ms);
                        } else {
                            if exists|j: int| 0 <= j < i && s0[j] == k && now_ms
                                > m0[k].deadline_ms {
                                let j = choose|j: int|
                                    0 <= j < i && s0[j] == k && now_ms > m0[k].deadline_ms;
                                assert(false);
                            }
                        }
                    } else {
                        if exists|j: int| 0 <= j < i && s0[j] == k && now_ms
                            > m0[k].deadline_ms {
                            let j = choose|j: int|
                                0 <= j < i && s0[j] == k && now_ms > m0[k].deadline_ms;
                            assert(j < i - 1 || s0[j] == k);
                            assert(0 <= j < i - 1 && s0[j] == k && now_ms > m0[k].deadline_ms);
                        }
                    }
                }
            }
        }
        proof {
            assert forall|k: u64|
                final(self).is_live(k) <==> (old(self).is_live(k) && !session_expired(
                    old(self).mux.sessions@[k],
                    now_ms,
                )) by {
                if m0.contains_key(k) {
                    let w = choose|w: int| 0 <= w < s0.len() && s0[w] == k;
                    if now_ms > m0[k].deadline_ms {
                        assert(0 <= w < i && s0[w] == k && now_ms > m0[k].deadline_ms);
                    } else {
                        if exists|j: int| 0 <= j < i && s0[j] == k && now_ms > m0[k].deadline_ms {
                            let j = choose|j: int|
                                0 <= j < i && s0[j] == k && now_ms > m0[k].deadline_ms;
                            assert(false);
                        }
                    }
                } else {
                    assert(!self.mux.sessions@.contains_key(k));
                }
            }
            assert(s0.subrange(0, s0.len() as int) =~= s0);
        }
        removed
    }
}

/// The executable counterpart of [`idle_deadline`].
fn saturating_deadline(now_ms: u64, timeout_ms: u64) -> (r: u64)
    ensures
        r == idle_deadline(now_ms, timeout_ms),
{
    if now_ms > u64::MAX - timeout_ms {
        u64::MAX
    } else {
        now_ms + timeout_ms
    }
}

} // verus!
