//! Behavioral tests for chain establishment and the rule selector.

use shoes::address::{bytes_eq, host_matches, Host, NetLocation};
use shoes::chain::{
    Chain, EstablishAction, EstablishPhase, Establishment, Hop,
};
use shoes::error::{ChainFailure, FailureClass};
use shoes::selector::{
    cidr4_contains, cidr6_contains, host_has_suffix, Matcher, Rule, RuleAction, Selector,
};

fn name(host: &str) -> NetLocation {
    NetLocation { host: Host::Name(host.as_bytes().to_vec()), port: 443 }
}

fn v4(ip: u32) -> NetLocation {
    NetLocation { host: Host::V4(ip), port: 443 }
}

fn three_hops() -> Chain {
    Chain {
        hops: vec![
            Hop { protocol: 1, address: v4(0x0a000001) },
            Hop { protocol: 2, address: v4(0x0a000002) },
            Hop { protocol: 3, address: v4(0x0a000003) },
        ],
    }
}

#[test]
fn chain_walks_hops_in_order_to_completion() {
    let chain = three_hops();
    let mut est = Establishment::new(&chain);
    assert_eq!(est.start(), EstablishAction::Connect(0));
    assert_eq!(est.on_connect_ok(), EstablishAction::Handshake(0));
    assert_eq!(est.on_handshake_ok(), EstablishAction::Connect(1));
    assert_eq!(est.on_connect_ok(), EstablishAction::Handshake(1));
    assert_eq!(est.on_handshake_ok(), EstablishAction::Connect(2));
    assert_eq!(est.on_connect_ok(), EstablishAction::Handshake(2));
    assert_eq!(est.on_handshake_ok(), EstablishAction::Complete);
    assert!(est.is_established());
    assert_eq!(est.contacted, 3);
    assert_eq!(est.failure(), None);
    est.begin_relaying();
    assert_eq!(est.phase, EstablishPhase::Relaying);
    est.close();
    assert_eq!(est.phase, EstablishPhase::Closed);
}

#[test]
fn failure_at_second_hop_never_contacts_the_third() {
    let chain = three_hops();
    let mut est = Establishment::new(&chain);
    assert_eq!(est.start(), EstablishAction::Connect(0));
    assert_eq!(est.on_connect_ok(), EstablishAction::Handshake(0));
    assert_eq!(est.on_handshake_ok(), EstablishAction::Connect(1));
    assert_eq!(est.on_connect_ok(), EstablishAction::Handshake(1));
    // The second hop rejects the handshake.
    assert_eq!(est.on_handshake_err(FailureClass::Handshake), EstablishAction::Abort);
    // Only the first two hops were ever contacted...
    assert_eq!(est.contacted, 2);
    assert!(!est.is_established());
    // ...and the surfaced error names the failing hop and its class.
    assert_eq!(
        est.failure(),
        Some(ChainFailure { hop: 1, class: FailureClass::Handshake })
    );
}

#[test]
fn connect_timeout_is_a_distinct_failure_class() {
    let chain = three_hops();
    let mut est = Establishment::new(&chain);
    est.start();
    assert_eq!(est.on_connect_err(FailureClass::Timeout), EstablishAction::Abort);
    assert_eq!(
        est.failure(),
        Some(ChainFailure { hop: 0, class: FailureClass::Timeout })
    );
    assert_eq!(est.contacted, 1);
}

#[test]
fn selector_routes_by_first_matching_rule() {
    let rules = vec![
        Rule {
            matcher: Matcher::Suffix(b"example.com".to_vec()),
            action: RuleAction::UseChain(0),
        },
        Rule {
            matcher: Matcher::Cidr4 { base: 0, prefix: 0 },
            action: RuleAction::UseChain(1),
        },
    ];
    let sel = Selector::new(rules).unwrap();
    assert_eq!(sel.select(&name("foo.example.com")), RuleAction::UseChain(0));
    assert_eq!(sel.select(&v4(0x01020304)), RuleAction::UseChain(1));
    // A named target that matches no domain rule falls past the suffix rule
    // and, being no literal address, past the CIDR catch-all too.
    assert_eq!(sel.select(&name("other.net")), RuleAction::Reject);
}

#[test]
fn selector_rejects_when_no_rule_matches_and_no_default_exists() {
    let rules = vec![Rule {
        matcher: Matcher::Exact(b"only.example.com".to_vec()),
        action: RuleAction::Direct,
    }];
    let sel = Selector::new(rules).unwrap();
    assert_eq!(sel.select(&name("only.example.com")), RuleAction::Direct);
    assert_eq!(sel.select(&name("other.example.com")), RuleAction::Reject);
    assert_eq!(sel.select(&v4(1)), RuleAction::Reject);
    // An empty rule set rejects everything.
    let empty = Selector::new(Vec::new()).unwrap();
    assert_eq!(empty.select(&name("anything")), RuleAction::Reject);
}

#[test]
fn selector_order_decides_between_overlapping_rules() {
    let rules = vec![
        Rule { matcher: Matcher::Any, action: RuleAction::Direct },
        Rule {
            matcher: Matcher::Exact(b"x.example.com".to_vec()),
            action: RuleAction::Reject,
        },
    ];
    let sel = Selector::new(rules).unwrap();
    // The catch-all stands first, so it wins even for the exact name.
    assert_eq!(sel.select(&name("x.example.com")), RuleAction::Direct);
}

#[test]
fn selector_refuses_out_of_range_prefix() {
    let rules = vec![Rule {
        matcher: Matcher::Cidr4 { base: 0, prefix: 33 },
        action: RuleAction::Direct,
    }];
    assert!(Selector::new(rules).is_err());
    let rules6 = vec![Rule {
        matcher: Matcher::Cidr6 { base: 0, prefix: 129 },
        action: RuleAction::Direct,
    }];
    assert!(Selector::new(rules6).is_err());
}

#[test]
fn suffix_matching_respects_label_boundaries() {
    assert!(host_has_suffix(b"foo.example.com", b"example.com"));
    assert!(host_has_suffix(b"example.com", b"example.com"));
    assert!(host_has_suffix(b"a.b.example.com", b"example.com"));
    // A name that merely ends in the same bytes is no subdomain.
    assert!(!host_has_suffix(b"badexample.com", b"example.com"));
    assert!(!host_has_suffix(b"example.com.evil", b"example.com"));
    assert!(!host_has_suffix(b"com", b"example.com"));
}

#[test]
fn cidr_matching_is_exact_on_the_prefix() {
    // 10.0.0.0/8
    assert!(cidr4_contains(0x0a000000, 8, 0x0a123456));
    assert!(!cidr4_contains(0x0a000000, 8, 0x0b000000));
    // /32 matches the single address.
    assert!(cidr4_contains(0x01020304, 32, 0x01020304));
    assert!(!cidr4_contains(0x01020304, 32, 0x01020305));
    // /0 matches everything.
    assert!(cidr4_contains(0, 0, 0xffffffff));
    assert!(cidr6_contains(0, 0, u128::MAX));
    assert!(cidr6_contains(0x2001_0db8 << 96, 32, (0x2001_0db8 << 96) | 0xdead));
    assert!(!cidr6_contains(0x2001_0db8 << 96, 32, 0x2001_0db9 << 96));
}

#[test]
fn host_and_byte_equality_are_structural() {
    assert!(bytes_eq(b"abc", b"abc"));
    assert!(!bytes_eq(b"abc", b"abd"));
    assert!(!bytes_eq(b"abc", b"ab"));
    assert!(bytes_eq(b"", b""));
    assert!(host_matches(&Host::V4(5), &Host::V4(5)));
    assert!(!host_matches(&Host::V4(5), &Host::V6(5)));
    assert!(host_matches(
        &Host::Name(b"a.b".to_vec()),
        &Host::Name(b"a.b".to_vec())
    ));
    assert!(!host_matches(&Host::Name(b"a.b".to_vec()), &Host::V4(1)));
}
