//! Target addresses: a host (domain name or literal IP) plus a port.

use vstd::prelude::*;

verus! {

/// A target host.  Domain names are kept as their ASCII bytes; IPv4
/// addresses as the 32-bit big-endian value, IPv6 as the 128-bit value.
#[derive(Clone, Debug)]
pub enum Host {
    /// A domain name, e.g. the bytes of `foo.example.com`.
    Name(Vec<u8>),
    /// An IPv4 address as one 32-bit value.
    V4(u32),
    /// An IPv6 address as one 128-bit value.
    V6(u128),
}

/// A network location: host plus port.
#[derive(Clone, Debug)]
pub struct NetLocation {
    /// The host part.
    pub host: Host,
    /// The port part.
    pub port: u16,
}

/// Whether two hosts name the same endpoint, compared structurally with
/// domain names byte for byte.
pub open spec fn host_eq(a: Host, b: Host) -> bool {
    match (a, b) {
        (Host::Name(x), Host::Name(y)) => x@ == y@,
        (Host::V4(x), Host::V4(y)) => x == y,
        (Host::V6(x), Host::V6(y)) => x == y,
        _ => false,
    }
}

/// Whether two locations are the same host and port.
pub open spec fn loc_eq(a: NetLocation, b: NetLocation) -> bool {
    host_eq(a.host, b.host) && a.port == b.port
}

/// True exactly when the two byte strings hold the same bytes.
pub fn bytes_eq(a: &[u8], b: &[u8]) -> (r: bool)
    ensures
        r == (a@ == b@),
{
    if a.len() != b.len() {
        return false;
    }
    let mut i: usize = 0;
    while i < a.len()
        invariant
            i <= a@.len(),
            a@.len() == b@.len(),
            forall|j: int| 0 <= j < i ==> a@[j] == b@[j],
        decreases a@.len() - i,
    {
        if a[i] != b[i] {
            return false;
        }
        i = i + 1;
    }
    proof {
        assert(a@ =~= b@);
    }
    true
}

/// True exactly when the two hosts name the same endpoint.
pub fn host_matches(a: &Host, b: &Host) -> (r: bool)
    ensures
        r == host_eq(*a, *b),
{
    match (a, b) {
        (Host::Name(x), Host::Name(y)) => bytes_eq(x.as_slice(), y.as_slice()),
        (Host::V4(x), Host::V4(y)) => *x == *y,
        (Host::V6(x), Host::V6(y)) => *x == *y,
        _ => false,
    }
}

/// True exactly when the two locations are the same host and port.
pub fn loc_matches(a: &NetLocation, b: &NetLocation) -> (r: bool)
    ensures
        r == loc_eq(*a, *b),
{
    a.port == b.port && host_matches(&a.host, &b.host)
}

} // verus!
