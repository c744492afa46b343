//! The failure taxonomy shared by every relay and routing component.

use vstd::prelude::*;

verus! {

/// What went wrong, at the granularity callers need for their retry and
/// reporting policy.
#[derive(Clone, Copy, Debug, PartialEq, Eq, Structural)]
pub enum ErrorKind {
    /// An I/O read, write or connect failure on an underlying transport.
    Transport,
    /// The peer rejected a protocol exchange, failed authentication, or sent
    /// a malformed reply.
    Handshake,
    /// An oversized or malformed message, or traffic that breaks the wire
    /// protocol's rules.
    ProtocolViolation,
    /// A session table or buffer limit was reached; the new work is rejected
    /// and existing work is unaffected.
    ResourceExhausted,
    /// A configured deadline elapsed.  Kept distinct from connect and
    /// handshake failures so callers can apply backoff policy.
    Timeout,
    /// A send or receive on a closed or unknown session handle.
    StaleSession,
}

/// Which stage of establishing one hop failed.
#[derive(Clone, Copy, Debug, PartialEq, Eq, Structural)]
pub enum FailureClass {
    /// The transport-level connection to the hop could not be opened.
    Connect,
    /// The hop rejected the handshake or the authentication.
    Handshake,
    /// The hop's connect or handshake deadline elapsed.
    Timeout,
}

/// A chain-establishment failure attributed to one specific hop.
#[derive(Clone, Copy, Debug, PartialEq, Eq, Structural)]
pub struct ChainFailure {
    /// Index of the failing hop within the chain.
    pub hop: usize,
    /// The stage at which that hop failed.
    pub class: FailureClass,
}

} // verus!
