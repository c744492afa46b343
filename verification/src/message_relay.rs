//! Duplex message relay: the copy loop for protocols that exchange discrete
//! units (datagrams, packetized frames) rather than byte streams.
//!
//! Each message is forwarded unmodified, preserving boundaries and order — no
//! coalescing, no splitting.  Backpressure: the driver may only report the
//! next read on a side once the number of its forwarded-but-unwritten
//! messages is below the configured in-flight depth (default 1).  A message
//! exceeding the configured maximum size aborts the relay with a protocol
//! error, guarding against memory exhaustion from malformed peers.

use vstd::prelude::*;

use crate::error::ErrorKind;

verus! {

/// The in-flight depth used when a configuration names none.
pub const DEFAULT_IN_FLIGHT_DEPTH: usize = 1;

/// Progress of one message-copy direction.
#[derive(Clone, Copy, Debug, PartialEq, Eq, Structural)]
pub enum MsgPhase {
    /// Forwarding messages.
    Running,
    /// The source signalled its last message; nothing more will be read.
    Done,
    /// The relay was aborted by an error or an oversized message.
    Failed,
}

/// One direction of the message relay.
pub struct MessageDirection {
    /// Where this direction stands.
    pub phase: MsgPhase,
    /// Messages handed out for writing whose completion the driver has not
    /// yet acknowledged.
    pub in_flight: usize,
    /// Number of messages carried so far; exact by [`MessageDirection::wf`].
    pub messages_relayed: u64,
    /// Every message reported read from the source, in order.
    pub taken_in: Ghost<Seq<Seq<u8>>>,
    /// Every message handed out for writing to the destination, in order.
    pub handed_out: Ghost<Seq<Seq<u8>>>,
}

impl MessageDirection {
    /// The direction forwards messages unchanged, in order, and counts them
    /// exactly.
    pub open spec fn wf(self) -> bool {
        &&& self.handed_out@ == self.taken_in@
        &&& self.messages_relayed == self.taken_in@.len()
    }

    /// A direction that has seen no traffic yet.
    pub open spec fn is_fresh(self) -> bool {
        &&& self.phase == MsgPhase::Running
        &&& self.in_flight == 0
        &&& self.messages_relayed == 0
        &&& self.taken_in@ == Seq::<Seq<u8>>::empty()
        &&& self.handed_out@ == Seq::<Seq<u8>>::empty()
    }
}

/// Counters and outcome of a finished message relay.
#[derive(Clone, Copy, Debug)]
pub struct MessageRelayResult {
    /// Exact messages carried from A to B.
    pub a_to_b_messages: u64,
    /// Exact messages carried from B to A.
    pub b_to_a_messages: u64,
    /// The first error observed, if any.
    pub error: Option<ErrorKind>,
}

/// The duplex message relay between endpoints A and B.
pub struct MessageRelay {
    /// The A-to-B copy direction.
    pub a_to_b: MessageDirection,
    /// The B-to-A copy direction.
    pub b_to_a: MessageDirection,
    /// Longest message accepted; anything larger aborts the relay.
    pub max_message_size: usize,
    /// How many forwarded messages may await write completion per direction.
    pub depth: usize,
    /// The first error observed, if any.
    pub error: Option<ErrorKind>,
}

impl MessageRelay {
    /// Both directions are well-formed, in-flight counts respect the depth,
    /// and an error is recorded exactly when the relay was aborted.
    pub open spec fn wf(self) -> bool {
        &&& self.a_to_b.wf()
        &&& self.b_to_a.wf()
        &&& self.depth >= 1
        &&& self.a_to_b.in_flight <= self.depth
        &&& self.b_to_a.in_flight <= self.depth
        &&& (self.error is Some <==> (self.a_to_b.phase == MsgPhase::Failed
            || self.b_to_a.phase == MsgPhase::Failed))
        &&& (self.a_to_b.phase == MsgPhase::Failed <==> self.b_to_a.phase == MsgPhase::Failed)
    }

    /// Both directions have finished, cleanly or by abort.
    pub open spec fn finished(self) -> bool {
        &&& (self.a_to_b.phase == MsgPhase::Done || self.a_to_b.phase == MsgPhase::Failed)
        &&& (self.b_to_a.phase == MsgPhase::Done || self.b_to_a.phase == MsgPhase::Failed)
    }

    /// Whether a message may be accepted on the A side: the direction is
    /// running and the prior forwards have drained below the depth.
    pub open spec fn spec_may_accept_a(self) -> bool {
        self.a_to_b.phase == MsgPhase::Running && self.a_to_b.in_flight < self.depth
            && self.a_to_b.messages_relayed < u64::MAX
    }

    /// Whether a message may be accepted on the B side.
    pub open spec fn spec_may_accept_b(self) -> bool {
        self.b_to_a.phase == MsgPhase::Running && self.b_to_a.in_flight < self.depth
            && self.b_to_a.messages_relayed < u64::MAX
    }

    /// A relay with no traffic yet, with the given maximum message size and
    /// in-flight depth.
    pub fn new(max_message_size: usize, depth: usize) -> (r: Self)
        requires
            depth >= 1,
        ensures
            r.wf(),
            r.a_to_b.is_fresh(),
            r.b_to_a.is_fresh(),
            r.max_message_size == max_message_size,
            r.depth == depth,
            r.error is None,
    {
        MessageRelay {
            a_to_b: MessageDirection {
                phase: MsgPhase::Running,
                in_flight: 0,
                messages_relayed: 0,
                taken_in: Ghost(Seq::empty()),
                handed_out: Ghost(Seq::empty()),
            },
            b_to_a: MessageDirection {
                phase: MsgPhase::Running,
                in_flight: 0,
                messages_relayed: 0,
                taken_in: Ghost(Seq::empty()),
                handed_out: Ghost(Seq::empty()),
            },
            max_message_size,
            depth,
            error: None,
        }
    }

    /// Whether the driver may report the next message read from A.
    pub fn may_accept_a(&self) -> (r: bool)
        ensures
            r == self.spec_may_accept_a(),
    {
        self.a_to_b.phase == MsgPhase::Running && self.a_to_b.in_flight < self.depth
            && self.a_to_b.messages_relayed < u64::MAX
    }

    /// Whether the driver may report the next message read from B.
    pub fn may_accept_b(&self) -> (r: bool)
        ensures
            r == self.spec_may_accept_b(),
    {
        self.b_to_a.phase == MsgPhase::Running && self.b_to_a.in_flight < self.depth
            && self.b_to_a.messages_relayed < u64::MAX
    }

    /// A message was read from A.  Within the size bound it is handed back
    /// byte-identical for writing to B; an oversized message aborts the whole
    /// relay with a protocol error and is not forwarded.  The B-to-A
    /// direction's traffic record is untouched either way.
    pub fn on_message_a(&mut self, msg: Vec<u8>) -> (r: Result<Vec<u8>, ErrorKind>)
        requires
            old(self).wf(),
            old(self).spec_may_accept_a(),
        ensures
            final(self).wf(),
            final(self).max_message_size == old(self).max_message_size,
            final(self).depth == old(self).depth,
            msg@.len() <= old(self).max_message_size ==> {
                &&& (r matches Ok(out) && out@ == msg@)
                &&& final(self).a_to_b.phase == MsgPhase::Running
                &&& final(self).a_to_b.taken_in@ == old(self).a_to_b.taken_in@.push(msg@)
                &&& final(self).a_to_b.handed_out@ == old(self).a_to_b.handed_out@.push(msg@)
                &&& final(self).a_to_b.in_flight == old(self).a_to_b.in_flight + 1
                &&& final(self).a_to_b.messages_relayed == old(self).a_to_b.messages_relayed + 1
                &&& final(self).b_to_a == old(self).b_to_a
                &&& final(self).error == old(self).error
            },
            msg@.len() > old(self).max_message_size ==> {
                &&& r == Result::<Vec<u8>, ErrorKind>::Err(ErrorKind::ProtocolViolation)
                &&& final(self).a_to_b == (MessageDirection {
                    phase: MsgPhase::Failed,
                    ..old(self).a_to_b
                })
                &&& final(self).b_to_a == (MessageDirection {
                    phase: MsgPhase::Failed,
                    ..old(self).b_to_a
                })
                &&& final(self).error == Some(ErrorKind::ProtocolViolation)
            },
    {
        if msg.len() > self.max_message_size {
            self.a_to_b.phase = MsgPhase::Failed;
            self.b_to_a.phase = MsgPhase::Failed;
            self.error = Some(ErrorKind::ProtocolViolation);
            Err(ErrorKind::ProtocolViolation)
        } else {
            self.a_to_b.taken_in = Ghost(self.a_to_b.taken_in@.push(msg@));
            self.a_to_b.handed_out = Ghost(self.a_to_b.handed_out@.push(msg@));
            self.a_to_b.in_flight = self.a_to_b.in_flight + 1;
            self.a_to_b.messages_relayed = self.a_to_b.messages_relayed + 1;
            Ok(msg)
        }
    }

    /// A message was read from B; symmetric to [`MessageRelay::on_message_a`].
    pub fn on_message_b(&mut self, msg: Vec<u8>) -> (r: Result<Vec<u8>, ErrorKind>)
        requires
            old(self).wf(),
            old(self).spec_may_accept_b(),
        ensures
            final(self).wf(),
            final(self).max_message_size == old(self).max_message_size,
            final(self).depth == old(self).depth,
            msg@.len() <= old(self).max_message_size ==> {
                &&& (r matches Ok(out) && out@ == msg@)
                &&& final(self).b_to_a.phase == MsgPhase::Running
                &&& final(self).b_to_a.taken_in@ == old(self).b_to_a.taken_in@.push(msg@)
                &&& final(self).b_to_a.handed_out@ == old(self).b_to_a.handed_out@.push(msg@)
                &&& final(self).b_to_a.in_flight == old(self).b_to_a.in_flight + 1
                &&& final(self).b_to_a.messages_relayed == old(self).b_to_a.messages_relayed + 1
                &&& final(self).a_to_b == old(self).a_to_b
                &&& final(self).error == old(self).error
            },
            msg@.len() > old(self).max_message_size ==> {
                &&& r == Result::<Vec<u8>, ErrorKind>::Err(ErrorKind::ProtocolViolation)
                &&& final(self).a_to_b == (MessageDirection {
                    phase: MsgPhase::Failed,
                    ..old(self).a_to_b
                })
                &&& final(self).b_to_a == (MessageDirection {
                    phase: MsgPhase::Failed,
                    ..old(self).b_to_a
                })
                &&& final(self).error == Some(ErrorKind::ProtocolViolation)
            },
    {
        if msg.len() > self.max_message_size {
            self.a_to_b.phase = MsgPhase::Failed;
            self.b_to_a.phase = MsgPhase::Failed;
            self.error = Some(ErrorKind::ProtocolViolation);
            Err(ErrorKind::ProtocolViolation)
        } else {
            self.b_to_a.taken_in = Ghost(self.b_to_a.taken_in@.push(msg@));
            self.b_to_a.handed_out = Ghost(self.b_to_a.handed_out@.push(msg@));
            self.b_to_a.in_flight = self.b_to_a.in_flight + 1;
            self.b_to_a.messages_relayed = self.b_to_a.messages_relayed + 1;
            Ok(msg)
        }
    }

    /// A message handed out on the A-to-B direction was fully written.
    pub fn on_forwarded_a(&mut self)
        requires
            old(self).wf(),
            old(self).a_to_b.in_flight > 0,
        ensures
            final(self).wf(),
            final(self).a_to_b == (MessageDirection {
                in_flight: (old(self).a_to_b.in_flight - 1) as usize,
                ..old(self).a_to_b
            }),
            final(self).b_to_a == old(self).b_to_a,
            final(self).max_message_size == old(self).max_message_size,
            final(self).depth == old(self).depth,
            final(self).error == old(self).error,
    {
        self.a_to_b.in_flight = self.a_to_b.in_flight - 1;
    }

    /// A message handed out on the B-to-A direction was fully written.
    pub fn on_forwarded_b(&mut self)
        requires
            old(self).wf(),
            old(self).b_to_a.in_flight > 0,
        ensures
            final(self).wf(),
            final(self).b_to_a == (MessageDirection {
                in_flight: (old(self).b_to_a.in_flight - 1) as usize,
                ..old(self).b_to_a
            }),
            final(self).a_to_b == old(self).a_to_b,
            final(self).max_message_size == old(self).max_message_size,
            final(self).depth == old(self).depth,
            final(self).error == old(self).error,
    {
        self.b_to_a.in_flight = self.b_to_a.in_flight - 1;
    }

    /// A signalled its last message: the A-to-B direction finishes cleanly,
    /// the opposite direction is untouched.
    pub fn on_eof_a(&mut self)
        requires
            old(self).wf(),
            old(self).a_to_b.phase == MsgPhase::Running,
        ensures
            final(self).wf(),
            final(self).a_to_b == (MessageDirection { phase: MsgPhase::Done, ..old(self).a_to_b }),
            final(self).b_to_a == old(self).b_to_a,
            final(self).max_message_size == old(self).max_message_size,
            final(self).depth == old(self).depth,
            final(self).error == old(self).error,
    {
        self.a_to_b.phase = MsgPhase::Done;
    }

    /// B signalled its last message; symmetric to [`MessageRelay::on_eof_a`].
    pub fn on_eof_b(&mut self)
        requires
            old(self).wf(),
            old(self).b_to_a.phase == MsgPhase::Running,
        ensures
            final(self).wf(),
            final(self).b_to_a == (MessageDirection { phase: MsgPhase::Done, ..old(self).b_to_a }),
            final(self).a_to_b == old(self).a_to_b,
            final(self).max_message_size == old(self).max_message_size,
            final(self).depth == old(self).depth,
            final(self).error == old(self).error,
    {
        self.b_to_a.phase = MsgPhase::Done;
    }

    /// A read or write failed: both directions abort at once; the first
    /// error is kept, the traffic records are untouched.
    pub fn on_error(&mut self, kind: ErrorKind)
        requires
            old(self).wf(),
        ensures
            final(self).wf(),
            final(self).a_to_b == (MessageDirection { phase: MsgPhase::Failed, ..old(self).a_to_b }),
            final(self).b_to_a == (MessageDirection { phase: MsgPhase::Failed, ..old(self).b_to_a }),
            final(self).error == if old(self).error is Some {
                old(self).error
            } else {
                Some(kind)
            },
            final(self).max_message_size == old(self).max_message_size,
            final(self).depth == old(self).depth,
    {
        self.a_to_b.phase = MsgPhase::Failed;
        self.b_to_a.phase = MsgPhase::Failed;
        if self.error.is_none() {
            self.error = Some(kind);
        }
    }

    /// Whether both directions have finished, cleanly or by abort.
    pub fn is_finished(&self) -> (r: bool)
        ensures
            r == self.finished(),
    {
        (matches!(self.a_to_b.phase, MsgPhase::Done | MsgPhase::Failed)) && (matches!(
            self.b_to_a.phase,
            MsgPhase::Done | MsgPhase::Failed,
        ))
    }

    /// The exact messages carried per direction plus the first error, if any.
    pub fn result(&self) -> (r: MessageRelayResult)
        requires
            self.wf(),
            self.finished(),
        ensures
            r.a_to_b_messages == self.a_to_b.taken_in@.len(),
            r.b_to_a_messages == self.b_to_a.taken_in@.len(),
            r.error == self.error,
    {
        MessageRelayResult {
            a_to_b_messages: self.a_to_b.messages_relayed,
            b_to_a_messages: self.b_to_a.messages_relayed,
            error: self.error,
        }
    }
}

/// Law: in every reachable relay state, the messages handed out for writing
/// equal, message for message, byte-identical and in the same order, the
/// messages read from the source — boundaries are preserved, nothing is
/// coalesced or split, and the counters are exact.
pub proof fn lemma_message_relay_order(r: MessageRelay)
    requires
        r.wf(),
    ensures
        r.a_to_b.handed_out@ == r.a_to_b.taken_in@,
        r.a_to_b.messages_relayed == r.a_to_b.taken_in@.len(),
        r.b_to_a.handed_out@ == r.b_to_a.taken_in@,
        r.b_to_a.messages_relayed == r.b_to_a.taken_in@.len(),
{
}

} // verus!
