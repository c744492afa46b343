//! Relay and routing core of a multi-protocol proxy server.
//!
//! The library moves bytes and discrete messages between two endpoints,
//! multiplexes many logical sessions over one shared transport, and picks and
//! assembles an outbound path through a chain of upstream proxies.  All of it
//! is written as explicit state machines over plain values: an unverified
//! driver performs the actual socket reads, writes and handshakes, reports
//! each outcome as an event, and carries out the action the state machine
//! returns.  Protocol handshakes, TLS, DNS resolution and configuration
//! parsing are collaborators behind that driver and are not part of the core.

pub mod address;
pub mod chain;
pub mod error;
pub mod message_relay;
pub mod mux;
pub mod relay;
pub mod selector;
pub mod session;
