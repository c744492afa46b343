//! Duplex byte relay: the copy loop between two raw byte streams.
//!
//! The relay is a state machine.  The driver reads a bounded buffer from one
//! stream, hands it in through [`ByteRelay::on_read_a`] or
//! [`ByteRelay::on_read_b`], and must fully write the returned buffer to the
//! other stream before acknowledging with `on_write_done_*` and reading
//! further — that bounds memory and provides backpressure.  End-of-stream and
//! I/O errors are reported through `on_eof_*` and `on_error`.  On EOF in one
//! direction the destination's write side is shut down while the opposite
//! direction continues, unless the stream type lacks half-close, in which
//! case the whole connection closes immediately.  Any error aborts both
//! directions.  [`ByteRelay::result`] reports the exact bytes transferred per
//! direction plus the first error, if any.

use vstd::prelude::*;

use crate::error::ErrorKind;

verus! {

/// Progress of one copy direction.
#[derive(Clone, Copy, Debug, PartialEq, Eq, Structural)]
pub enum DirPhase {
    /// Waiting for the next read from the source stream.
    Reading,
    /// A buffer has been handed out and must be fully written to the
    /// destination before the next read.
    Writing,
    /// The source reached end-of-stream and this direction finished cleanly.
    Done,
    /// The relay was aborted by a read or write error.
    Failed,
}

/// One direction of the copy: its phase, its exact byte counter, and the
/// ghost record of every byte that passed through it.
pub struct CopyDirection {
    /// Where this direction stands.
    pub phase: DirPhase,
    /// Number of bytes carried so far; exact by [`CopyDirection::wf`].
    pub bytes_copied: u64,
    /// Every byte reported read from the source, in order.
    pub carried_in: Ghost<Seq<u8>>,
    /// Every byte handed out for writing to the destination, in order.
    pub carried_out: Ghost<Seq<u8>>,
}

impl CopyDirection {
    /// The direction forwards bytes unchanged and counts them exactly.
    pub open spec fn wf(self) -> bool {
        &&& self.carried_out@ == self.carried_in@
        &&& self.bytes_copied == self.carried_in@.len()
    }

    /// A direction that has seen no traffic yet.
    pub open spec fn is_fresh(self) -> bool {
        &&& self.phase == DirPhase::Reading
        &&& self.bytes_copied == 0
        &&& self.carried_in@ == Seq::<u8>::empty()
        &&& self.carried_out@ == Seq::<u8>::empty()
    }
}

/// What the driver must do after reporting end-of-stream on one side.
#[derive(Clone, Copy, Debug, PartialEq, Eq, Structural)]
pub enum EofAction {
    /// Shut down the destination's write side; keep relaying the opposite
    /// direction until it ends or errors on its own.
    ShutdownWrite,
    /// The streams lack half-close: close the whole connection now.
    CloseBoth,
}

/// Counters and outcome of a finished relay.
#[derive(Clone, Copy, Debug)]
pub struct RelayResult {
    /// Exact bytes carried from A to B.
    pub a_to_b_bytes: u64,
    /// Exact bytes carried from B to A.
    pub b_to_a_bytes: u64,
    /// The first error observed, if any.
    pub error: Option<ErrorKind>,
}

/// The duplex byte relay between streams A and B.
pub struct ByteRelay {
    /// The A-to-B copy direction.
    pub a_to_b: CopyDirection,
    /// The B-to-A copy direction.
    pub b_to_a: CopyDirection,
    /// Whether the streams support closing one direction while the opposite
    /// one stays open.
    pub half_close: bool,
    /// The first error observed, if any.
    pub error: Option<ErrorKind>,
}

impl ByteRelay {
    /// Both directions are well-formed, and an error is recorded exactly when
    /// the relay was aborted.
    pub open spec fn wf(self) -> bool {
        &&& self.a_to_b.wf()
        &&& self.b_to_a.wf()
        &&& (self.error is Some <==> (self.a_to_b.phase == DirPhase::Failed
            || self.b_to_a.phase == DirPhase::Failed))
        &&& (self.a_to_b.phase == DirPhase::Failed <==> self.b_to_a.phase == DirPhase::Failed)
    }

    /// Both directions have finished, cleanly or by abort.
    pub open spec fn finished(self) -> bool {
        &&& (self.a_to_b.phase == DirPhase::Done || self.a_to_b.phase == DirPhase::Failed)
        &&& (self.b_to_a.phase == DirPhase::Done || self.b_to_a.phase == DirPhase::Failed)
    }

    /// A relay with no traffic yet, between streams that do or do not
    /// support half-close.
    pub fn new(half_close: bool) -> (r: Self)
        ensures
            r.wf(),
            r.a_to_b.is_fresh(),
            r.b_to_a.is_fresh(),
            r.half_close == half_close,
            r.error is None,
    {
        ByteRelay {
            a_to_b: CopyDirection {
                phase: DirPhase::Reading,
                bytes_copied: 0,
                carried_in: Ghost(Seq::empty()),
                carried_out: Ghost(Seq::empty()),
            },
            b_to_a: CopyDirection {
                phase: DirPhase::Reading,
                bytes_copied: 0,
                carried_in: Ghost(Seq::empty()),
                carried_out: Ghost(Seq::empty()),
            },
            half_close,
            error: None,
        }
    }

    /// A buffer was read from A.  The returned buffer holds exactly the same
    /// bytes and must be fully written to B before the next read is reported.
    /// The B-to-A direction is untouched.
    pub fn on_read_a(&mut self, data: Vec<u8>) -> (out: Vec<u8>)
        requires
            old(self).wf(),
            old(self).a_to_b.phase == DirPhase::Reading,
            old(self).a_to_b.bytes_copied + data@.len() <= u64::MAX,
        ensures
            final(self).wf(),
            out@ == data@,
            final(self).a_to_b.phase == DirPhase::Writing,
            final(self).a_to_b.carried_in@ == old(self).a_to_b.carried_in@ + data@,
            final(self).a_to_b.carried_out@ == old(self).a_to_b.carried_out@ + data@,
            final(self).a_to_b.bytes_copied == old(self).a_to_b.bytes_copied + data@.len(),
            final(self).b_to_a == old(self).b_to_a,
            final(self).half_close == old(self).half_close,
            final(self).error == old(self).error,
    {
        self.a_to_b.bytes_copied = self.a_to_b.bytes_copied + data.len() as u64;
        self.a_to_b.carried_in = Ghost(self.a_to_b.carried_in@ + data@);
        self.a_to_b.carried_out = Ghost(self.a_to_b.carried_out@ + data@);
        self.a_to_b.phase = DirPhase::Writing;
        data
    }

    /// A buffer was read from B; symmetric to [`ByteRelay::on_read_a`].
    pub fn on_read_b(&mut self, data: Vec<u8>) -> (out: Vec<u8>)
        requires
            old(self).wf(),
            old(self).b_to_a.phase == DirPhase::Reading,
            old(self).b_to_a.bytes_copied + data@.len() <= u64::MAX,
        ensures
            final(self).wf(),
            out@ == data@,
            final(self).b_to_a.phase == DirPhase::Writing,
            final(self).b_to_a.carried_in@ == old(self).b_to_a.carried_in@ + data@,
            final(self).b_to_a.carried_out@ == old(self).b_to_a.carried_out@ + data@,
            final(self).b_to_a.bytes_copied == old(self).b_to_a.bytes_copied + data@.len(),
            final(self).a_to_b == old(self).a_to_b,
            final(self).half_close == old(self).half_close,
            final(self).error == old(self).error,
    {
        self.b_to_a.bytes_copied = self.b_to_a.bytes_copied + data.len() as u64;
        self.b_to_a.carried_in = Ghost(self.b_to_a.carried_in@ + data@);
        self.b_to_a.carried_out = Ghost(self.b_to_a.carried_out@ + data@);
        self.b_to_a.phase = DirPhase::Writing;
        data
    }

    /// The buffer handed out by the last `on_read_a` was fully written to B;
    /// the A-to-B direction may read again.
    pub fn on_write_done_a(&mut self)
        requires
            old(self).wf(),
            old(self).a_to_b.phase == DirPhase::Writing,
        ensures
            final(self).wf(),
            final(self).a_to_b == (CopyDirection { phase: DirPhase::Reading, ..old(self).a_to_b }),
            final(self).b_to_a == old(self).b_to_a,
            final(self).half_close == old(self).half_close,
            final(self).error == old(self).error,
    {
        self.a_to_b.phase = DirPhase::Reading;
    }

    /// The buffer handed out by the last `on_read_b` was fully written to A.
    pub fn on_write_done_b(&mut self)
        requires
            old(self).wf(),
            old(self).b_to_a.phase == DirPhase::Writing,
        ensures
            final(self).wf(),
            final(self).b_to_a == (CopyDirection { phase: DirPhase::Reading, ..old(self).b_to_a }),
            final(self).a_to_b == old(self).a_to_b,
            final(self).half_close == old(self).half_close,
            final(self).error == old(self).error,
    {
        self.b_to_a.phase = DirPhase::Reading;
    }

    /// A reached end-of-stream.  With half-close, only B's write side is shut
    /// down and the B-to-A direction is left exactly as it was, to continue
    /// until B ends or errors on its own.  Without half-close the whole
    /// connection closes immediately.
    pub fn on_eof_a(&mut self) -> (act: EofAction)
        requires
            old(self).wf(),
            old(self).a_to_b.phase == DirPhase::Reading,
        ensures
            final(self).wf(),
            final(self).a_to_b == (CopyDirection { phase: DirPhase::Done, ..old(self).a_to_b }),
            old(self).half_close ==> act == EofAction::ShutdownWrite
                && final(self).b_to_a == old(self).b_to_a,
            !old(self).half_close ==> act == EofAction::CloseBoth
                && final(self).b_to_a == (CopyDirection {
                    phase: DirPhase::Done,
                    ..old(self).b_to_a
                }),
            final(self).half_close == old(self).half_close,
            final(self).error == old(self).error,
    {
        self.a_to_b.phase = DirPhase::Done;
        if self.half_close {
            EofAction::ShutdownWrite
        } else {
            self.b_to_a.phase = DirPhase::Done;
            EofAction::CloseBoth
        }
    }

    /// B reached end-of-stream; symmetric to [`ByteRelay::on_eof_a`].
    pub fn on_eof_b(&mut self) -> (act: EofAction)
        requires
            old(self).wf(),
            old(self).b_to_a.phase == DirPhase::Reading,
        ensures
            final(self).wf(),
            final(self).b_to_a == (CopyDirection { phase: DirPhase::Done, ..old(self).b_to_a }),
            old(self).half_close ==> act == EofAction::ShutdownWrite
                && final(self).a_to_b == old(self).a_to_b,
            !old(self).half_close ==> act == EofAction::CloseBoth
                && final(self).a_to_b == (CopyDirection {
                    phase: DirPhase::Done,
                    ..old(self).a_to_b
                }),
            final(self).half_close == old(self).half_close,
            final(self).error == old(self).error,
    {
        self.b_to_a.phase = DirPhase::Done;
        if self.half_close {
            EofAction::ShutdownWrite
        } else {
            self.a_to_b.phase = DirPhase::Done;
            EofAction::CloseBoth
        }
    }

    /// A read or write failed: both directions abort at once; the first error
    /// is kept, counters and carried bytes are untouched.
    pub fn on_error(&mut self, kind: ErrorKind)
        requires
            old(self).wf(),
        ensures
            final(self).wf(),
            final(self).a_to_b == (CopyDirection { phase: DirPhase::Failed, ..old(self).a_to_b }),
            final(self).b_to_a == (CopyDirection { phase: DirPhase::Failed, ..old(self).b_to_a }),
            final(self).error == if old(self).error is Some {
                old(self).error
            } else {
                Some(kind)
            },
            final(self).half_close == old(self).half_close,
    {
        self.a_to_b.phase = DirPhase::Failed;
        self.b_to_a.phase = DirPhase::Failed;
        if self.error.is_none() {
            self.error = Some(kind);
        }
    }

    /// Whether both directions have finished, cleanly or by abort.
    pub fn is_finished(&self) -> (r: bool)
        ensures
            r == self.finished(),
    {
        (matches!(self.a_to_b.phase, DirPhase::Done | DirPhase::Failed)) && (matches!(
            self.b_to_a.phase,
            DirPhase::Done | DirPhase::Failed,
        ))
    }

    /// The exact bytes transferred per direction plus the first error, if
    /// any.
    pub fn result(&self) -> (r: RelayResult)
        requires
            self.wf(),
            self.finished(),
        ensures
            r.a_to_b_bytes == self.a_to_b.carried_in@.len(),
            r.b_to_a_bytes == self.b_to_a.carried_in@.len(),
            r.error == self.error,
    {
        RelayResult {
            a_to_b_bytes: self.a_to_b.bytes_copied,
            b_to_a_bytes: self.b_to_a.bytes_copied,
            error: self.error,
        }
    }
}

/// Law: in every reachable relay state, the bytes handed out for writing to
/// the destination equal, byte for byte and in order, the bytes read from the
/// source, and the reported counter is exactly their number — per direction.
pub proof fn lemma_byte_relay_exact(r: ByteRelay)
    requires
        r.wf(),
    ensures
        r.a_to_b.carried_out@ == r.a_to_b.carried_in@,
        r.a_to_b.bytes_copied == r.a_to_b.carried_in@.len(),
        r.b_to_a.carried_out@ == r.b_to_a.carried_in@,
        r.b_to_a.bytes_copied == r.b_to_a.carried_in@.len(),
{
}

} // verus!
