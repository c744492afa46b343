//! Client proxy chain: sequential hop establishment producing one outbound
//! path.
//!
//! A [`Chain`] is an ordered, immutable sequence of hops.  [`Establishment`]
//! is the state machine that walks it: hop `k + 1` is contacted only after
//! hop `k`'s transport and handshake have fully succeeded, and a failure at
//! hop `k` aborts immediately — no later hop is ever contacted, and the
//! surfaced error names hop `k` and its failure class.  Establishment is
//! atomic to the caller: it reports either a fully negotiated path or a
//! failure, never a partial chain.  The driver performs the connects and
//! handshakes and reports each outcome.

use vstd::prelude::*;

use crate::address::NetLocation;
use crate::error::{ChainFailure, FailureClass};

verus! {

/// One upstream proxy leg within a chain.  Immutable once loaded; the
/// protocol identifier selects the external handler that speaks the hop's
/// handshake.
#[derive(Clone, Debug)]
pub struct Hop {
    /// Identifier of the protocol handler for this hop.
    pub protocol: u32,
    /// Endpoint of the hop.
    pub address: NetLocation,
}

/// An ordered sequence of hops forming one outbound path; immutable at
/// runtime.
#[derive(Clone, Debug)]
pub struct Chain {
    /// The hops, first to contact first.
    pub hops: Vec<Hop>,
}

/// Where the establishment stands.
#[derive(Clone, Copy, Debug, PartialEq, Eq, Structural)]
pub enum EstablishPhase {
    /// Nothing contacted yet.
    Idle,
    /// Opening the transport to the given hop.
    Connecting(usize),
    /// The transport to the given hop is open; its handshake is running.
    HandshakeWait(usize),
    /// Every hop succeeded; the outbound path is fully negotiated.
    Established,
    /// The negotiated path is carrying relay traffic.
    Relaying,
    /// Establishment failed at the given hop with the given class; terminal.
    Failed(usize, FailureClass),
    /// The path was torn down; terminal.
    Closed,
}

/// What the driver must do next.
#[derive(Clone, Copy, Debug, PartialEq, Eq, Structural)]
pub enum EstablishAction {
    /// Open a transport connection to the hop with this index.
    Connect(usize),
    /// Run the protocol handshake of the hop with this index.
    Handshake(usize),
    /// Every hop is established; hand the path to the relay.
    Complete,
    /// Establishment failed; tear down whatever was opened.
    Abort,
}

/// The hop-by-hop establishment state machine for one chain.
pub struct Establishment {
    /// Number of hops in the chain being established.
    pub n_hops: usize,
    /// Where the establishment stands.
    pub phase: EstablishPhase,
    /// How many hops have been contacted: exactly the hops with index below
    /// this count, in order.
    pub contacted: usize,
    /// The hop indices for which a connect was requested, in order.
    pub connect_log: Ghost<Seq<usize>>,
}

impl Establishment {
    /// The phase, the contacted count and the connect log agree: hops are
    /// contacted strictly in order, exactly up to the active hop, and every
    /// hop index is in range.
    pub open spec fn wf(self) -> bool {
        &&& self.n_hops >= 1
        &&& self.connect_log@.len() == self.contacted
        &&& (forall|j: int| 0 <= j < self.connect_log@.len() ==> self.connect_log@[j] == j)
        &&& match self.phase {
            EstablishPhase::Idle => self.contacted == 0,
            EstablishPhase::Connecting(i) => i < self.n_hops && self.contacted == i + 1,
            EstablishPhase::HandshakeWait(i) => i < self.n_hops && self.contacted == i + 1,
            EstablishPhase::Failed(i, _) => i < self.n_hops && self.contacted == i + 1,
            EstablishPhase::Established => self.contacted == self.n_hops,
            EstablishPhase::Relaying => self.contacted == self.n_hops,
            EstablishPhase::Closed => self.contacted <= self.n_hops,
        }
    }

    /// A fresh establishment for the given chain; nothing contacted yet.
    pub fn new(chain: &Chain) -> (s: Self)
        requires
            chain.hops@.len() >= 1,
        ensures
            s.wf(),
            s.n_hops == chain.hops@.len(),
            s.phase == EstablishPhase::Idle,
            s.contacted == 0,
    {
        Establishment {
            n_hops: chain.hops.len(),
            phase: EstablishPhase::Idle,
            contacted: 0,
            connect_log: Ghost(Seq::empty()),
        }
    }

    /// Begin: contact the first hop.
    pub fn start(&mut self) -> (act: EstablishAction)
        requires
            old(self).wf(),
            old(self).phase == EstablishPhase::Idle,
        ensures
            final(self).wf(),
            final(self).phase == EstablishPhase::Connecting(0),
            final(self).contacted == 1,
            final(self).n_hops == old(self).n_hops,
            act == EstablishAction::Connect(0usize),
    {
        self.phase = EstablishPhase::Connecting(0);
        self.contacted = 1;
        self.connect_log = Ghost(self.connect_log@.push(0));
        EstablishAction::Connect(0)
    }

    /// The transport to the active hop opened: run its handshake.  No new
    /// hop is contacted.
    pub fn on_connect_ok(&mut self) -> (act: EstablishAction)
        requires
            old(self).wf(),
            old(self).phase matches EstablishPhase::Connecting(_),
        ensures
            final(self).wf(),
            ({
                let i = old(self).phase->Connecting_0;
                final(self).phase == EstablishPhase::HandshakeWait(i) && act
                    == EstablishAction::Handshake(i)
            }),
            final(self).contacted == old(self).contacted,
            final(self).n_hops == old(self).n_hops,
            final(self).connect_log == old(self).connect_log,
    {
        match self.phase {
            EstablishPhase::Connecting(i) => {
                self.phase = EstablishPhase::HandshakeWait(i);
                EstablishAction::Handshake(i)
            },
            _ => {
                proof {
                    assert(false);
                }
                EstablishAction::Abort
            },
        }
    }

    /// The transport to the active hop could not be opened, or its connect
    /// deadline elapsed: fail at that hop; no further hop is contacted.
    pub fn on_connect_err(&mut self, class: FailureClass) -> (act: EstablishAction)
        requires
            old(self).wf(),
            old(self).phase matches EstablishPhase::Connecting(_),
            class == FailureClass::Connect || class == FailureClass::Timeout,
        ensures
            final(self).wf(),
            final(self).phase == EstablishPhase::Failed(old(self).phase->Connecting_0, class),
            final(self).contacted == old(self).contacted,
            final(self).n_hops == old(self).n_hops,
            final(self).connect_log == old(self).connect_log,
            act == EstablishAction::Abort,
    {
        match self.phase {
            EstablishPhase::Connecting(i) => {
                self.phase = EstablishPhase::Failed(i, class);
            },
            _ => {
                proof {
                    assert(false);
                }
            },
        }
        EstablishAction::Abort
    }

    /// The active hop's handshake succeeded: contact the next hop, or report
    /// the path established when this was the last one.
    pub fn on_handshake_ok(&mut self) -> (act: EstablishAction)
        requires
            old(self).wf(),
            old(self).phase matches EstablishPhase::HandshakeWait(_),
        ensures
            final(self).wf(),
            final(self).n_hops == old(self).n_hops,
            ({
                let i = old(self).phase->HandshakeWait_0;
                if i + 1 < old(self).n_hops {
                    &&& final(self).phase == EstablishPhase::Connecting((i + 1) as usize)
                    &&& final(self).contacted == old(self).contacted + 1
                    &&& act == EstablishAction::Connect((i + 1) as usize)
                } else {
                    &&& final(self).phase == EstablishPhase::Established
                    &&& final(self).contacted == old(self).contacted
                    &&& act == EstablishAction::Complete
                }
            }),
    {
        match self.phase {
            EstablishPhase::HandshakeWait(i) => {
                if i + 1 < self.n_hops {
                    let next = i + 1;
                    self.phase = EstablishPhase::Connecting(next);
                    self.contacted = self.contacted + 1;
                    self.connect_log = Ghost(self.connect_log@.push(next));
                    EstablishAction::Connect(next)
                } else {
                    self.phase = EstablishPhase::Established;
                    EstablishAction::Complete
                }
            },
            _ => {
                proof {
                    assert(false);
                }
                EstablishAction::Abort
            },
        }
    }

    /// The active hop rejected the handshake or its deadline elapsed: fail
    /// at that hop; no further hop is contacted.
    pub fn on_handshake_err(&mut self, class: FailureClass) -> (act: EstablishAction)
        requires
            old(self).wf(),
            old(self).phase matches EstablishPhase::HandshakeWait(_),
        ensures
            final(self).wf(),
            final(self).phase == EstablishPhase::Failed(old(self).phase->HandshakeWait_0, class),
            final(self).contacted == old(self).contacted,
            final(self).n_hops == old(self).n_hops,
            final(self).connect_log == old(self).connect_log,
            act == EstablishAction::Abort,
    {
        match self.phase {
            EstablishPhase::HandshakeWait(i) => {
                self.phase = EstablishPhase::Failed(i, class);
            },
            _ => {
                proof {
                    assert(false);
                }
            },
        }
        EstablishAction::Abort
    }

    /// Hand the fully negotiated path to the relay.
    pub fn begin_relaying(&mut self)
        requires
            old(self).wf(),
            old(self).phase == EstablishPhase::Established,
        ensures
            final(self).wf(),
            final(self).phase == EstablishPhase::Relaying,
            final(self).contacted == old(self).contacted,
            final(self).n_hops == old(self).n_hops,
    {
        self.phase = EstablishPhase::Relaying;
    }

    /// Tear the path down; terminal.
    pub fn close(&mut self)
        requires
            old(self).wf(),
        ensures
            final(self).wf(),
            final(self).phase == EstablishPhase::Closed,
            final(self).contacted == old(self).contacted,
            final(self).n_hops == old(self).n_hops,
    {
        self.phase = EstablishPhase::Closed;
    }

    /// The surfaced failure, if establishment failed: it names the failing
    /// hop and the failure class, and exists exactly in the failed phase.
    pub fn failure(&self) -> (r: Option<ChainFailure>)
        ensures
            match self.phase {
                EstablishPhase::Failed(h, c) => r == Some(ChainFailure { hop: h, class: c }),
                _ => r is None,
            },
    {
        match self.phase {
            EstablishPhase::Failed(h, c) => Some(ChainFailure { hop: h, class: c }),
            _ => None,
        }
    }

    /// Whether the path is fully negotiated (established or already
    /// relaying).
    pub fn is_established(&self) -> (r: bool)
        ensures
            r == (self.phase == EstablishPhase::Established || self.phase
                == EstablishPhase::Relaying),
    {
        matches!(self.phase, EstablishPhase::Established | EstablishPhase::Relaying)
    }
}

/// Law: a chain that failed at hop `k` contacted exactly the hops `0 ..= k`,
/// in order — no later hop was ever contacted — and the surfaced failure
/// names hop `k` and its class.
pub proof fn lemma_failure_contacts_no_later_hop(s: Establishment, k: usize, c: FailureClass)
    requires
        s.wf(),
        s.phase == EstablishPhase::Failed(k, c),
    ensures
        s.contacted == k + 1,
        s.connect_log@.len() == k + 1,
        forall|j: int| 0 <= j < s.connect_log@.len() ==> s.connect_log@[j] == j,
        forall|h: usize| h > k ==> !s.connect_log@.contains(h),
{
    assert forall|h: usize| h > k implies !s.connect_log@.contains(h) by {
        assert(forall|j: int| 0 <= j < s.connect_log@.len() ==> s.connect_log@[j] <= k);
    }
}

/// Law: establishment is atomic — a path reported established (or relaying)
/// contacted every hop of its chain; a partial chain is never exposed.
pub proof fn lemma_established_is_complete(s: Establishment)
    requires
        s.wf(),
        s.phase == EstablishPhase::Established || s.phase == EstablishPhase::Relaying,
    ensures
        s.contacted == s.n_hops,
        s.connect_log@.len() == s.n_hops,
{
}

} // verus!
