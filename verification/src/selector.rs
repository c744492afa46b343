//! Client proxy selector: rule-based routing that picks, per negotiated
//! target, exactly one outcome — use a chain, connect directly, or reject.
//!
//! Rules are evaluated in strict configured order and the first match wins;
//! specificity is the rule author's responsibility, not inferred.  If no rule
//! matches and no catch-all is configured, the request is rejected —
//! fail-closed.

use vstd::prelude::*;

use crate::address::{Host, NetLocation, bytes_eq};
use crate::error::ErrorKind;

verus! {

/// A rule's matcher.
#[derive(Clone, Debug)]
pub enum Matcher {
    /// The full domain name, byte for byte.
    Exact(Vec<u8>),
    /// A domain suffix: `example.com` matches `example.com` itself and any
    /// name ending in `.example.com`.
    Suffix(Vec<u8>),
    /// An IPv4 network in CIDR form; the prefix length is at most 32.
    Cidr4 { base: u32, prefix: u8 },
    /// An IPv6 network in CIDR form; the prefix length is at most 128.
    Cidr6 { base: u128, prefix: u8 },
    /// The catch-all: matches every target.
    Any,
}

/// What a matched rule does with the request.
#[derive(Clone, Copy, Debug, PartialEq, Eq, Structural)]
pub enum RuleAction {
    /// Route through the configured chain with this index.
    UseChain(usize),
    /// Connect to the target directly, with no upstream hop.
    Direct,
    /// Refuse the request.
    Reject,
}

/// One routing rule: a matcher and the action taken when it is the first to
/// match.
#[derive(Clone, Debug)]
pub struct Rule {
    /// When the rule applies.
    pub matcher: Matcher,
    /// What happens when it is the first to apply.
    pub action: RuleAction,
}

/// The ordered, immutable rule set.
#[derive(Clone, Debug)]
pub struct Selector {
    /// The rules, evaluated front to back.
    pub rules: Vec<Rule>,
}

/// The network mask selecting the upper `prefix` bits of an IPv4 address.
pub open spec fn mask4(prefix: u8) -> u32
    recommends
        prefix <= 32,
{
    if prefix == 0 {
        0u32
    } else {
        (0xffff_ffffu32 << ((32 - prefix) as u32)) as u32
    }
}

/// The network mask selecting the upper `prefix` bits of an IPv6 address.
pub open spec fn mask6(prefix: u8) -> u128
    recommends
        prefix <= 128,
{
    if prefix == 0 {
        0u128
    } else {
        (0xffff_ffff_ffff_ffff_ffff_ffff_ffff_ffffu128 << ((128 - prefix) as u32)) as u128
    }
}

/// Whether the IPv4 address lies in the network `base/prefix`.
pub open spec fn in_cidr4(ip: u32, base: u32, prefix: u8) -> bool {
    (ip & mask4(prefix)) == (base & mask4(prefix))
}

/// Whether the IPv6 address lies in the network `base/prefix`.
pub open spec fn in_cidr6(ip: u128, base: u128, prefix: u8) -> bool {
    (ip & mask6(prefix)) == (base & mask6(prefix))
}

/// Whether `host` equals `suffix` or ends in `.` followed by `suffix`.
pub open spec fn suffix_matches(host: Seq<u8>, suffix: Seq<u8>) -> bool {
    ||| host == suffix
    ||| (host.len() > suffix.len() && host.subrange(
        host.len() - suffix.len(),
        host.len() as int,
    ) == suffix && host[host.len() - suffix.len() - 1] == 46u8)
}

/// Whether the matcher applies to the target.  Domain matchers apply only to
/// named targets, CIDR matchers only to literal addresses of their family;
/// the catch-all applies to everything.
pub open spec fn matcher_applies(m: Matcher, t: NetLocation) -> bool {
    match m {
        Matcher::Exact(name) => t.host matches Host::Name(h) && h@ == name@,
        Matcher::Suffix(sfx) => t.host matches Host::Name(h) && suffix_matches(h@, sfx@),
        Matcher::Cidr4 { base, prefix } => t.host matches Host::V4(ip) && in_cidr4(
            ip,
            base,
            prefix,
        ),
        Matcher::Cidr6 { base, prefix } => t.host matches Host::V6(ip) && in_cidr6(
            ip,
            base,
            prefix,
        ),
        Matcher::Any => true,
    }
}

/// Whether a matcher's CIDR prefix lengths are in range.
pub open spec fn matcher_wf(m: Matcher) -> bool {
    match m {
        Matcher::Cidr4 { base: _, prefix } => prefix <= 32,
        Matcher::Cidr6 { base: _, prefix } => prefix <= 128,
        _ => true,
    }
}

/// The outcome of evaluating the rules front to back: the first matching
/// rule's action, or rejection when none matches — fail-closed.
pub open spec fn spec_select(rules: Seq<Rule>, t: NetLocation) -> RuleAction
    decreases rules.len(),
{
    if rules.len() == 0 {
        RuleAction::Reject
    } else if matcher_applies(rules[0].matcher, t) {
        rules[0].action
    } else {
        spec_select(rules.drop_first(), t)
    }
}

/// Skipping a non-matching prefix of the rules does not change the outcome.
proof fn lemma_select_skip(rules: Seq<Rule>, t: NetLocation, i: int)
    requires
        0 <= i <= rules.len(),
        forall|j: int| 0 <= j < i ==> !matcher_applies(rules[j].matcher, t),
    ensures
        spec_select(rules, t) == spec_select(rules.skip(i), t),
    decreases i,
{
    if i > 0 {
        assert(rules.skip(i - 1).drop_first() =~= rules.skip(i));
        lemma_select_skip(rules, t, i - 1);
        assert(rules.skip(i - 1)[0] == rules[i - 1]);
    } else {
        assert(rules.skip(0) =~= rules);
    }
}

/// Law: first match wins, and the selector fails closed.  If some rule
/// matches the target, the outcome is the action of the earliest matching
/// rule; if none matches, the outcome is rejection.
pub proof fn lemma_select_first_match(rules: Seq<Rule>, t: NetLocation)
    ensures
        (forall|j: int| 0 <= j < rules.len() ==> !matcher_applies(rules[j].matcher, t))
            ==> spec_select(rules, t) == RuleAction::Reject,
        forall|i: int|
            0 <= i < rules.len() && matcher_applies(rules[i].matcher, t) && (forall|j: int|
                0 <= j < i ==> !matcher_applies(rules[j].matcher, t)) ==> spec_select(rules, t)
                == rules[i].action,
{
    if forall|j: int| 0 <= j < rules.len() ==> !matcher_applies(rules[j].matcher, t) {
        lemma_select_skip(rules, t, rules.len() as int);
        assert(rules.skip(rules.len() as int) =~= Seq::<Rule>::empty());
    }
    assert forall|i: int|
        0 <= i < rules.len() && matcher_applies(rules[i].matcher, t) && (forall|j: int|
            0 <= j < i ==> !matcher_applies(rules[j].matcher, t)) implies spec_select(rules, t)
        == rules[i].action by {
        lemma_select_skip(rules, t, i);
        assert(rules.skip(i)[0] == rules[i]);
    }
}

/// True exactly when `host` equals `suffix` or ends in `.` followed by
/// `suffix`.
pub fn host_has_suffix(host: &[u8], suffix: &[u8]) -> (r: bool)
    ensures
        r == suffix_matches(host@, suffix@),
{
    let hn = host.len();
    let sn = suffix.len();
    if hn < sn {
        return false;
    }
    let off = hn - sn;
    let mut i: usize = 0;
    while i < sn
        invariant
            i <= sn,
            sn <= hn,
            off == hn - sn,
            hn == host@.len(),
            sn == suffix@.len(),
            forall|j: int| 0 <= j < i ==> host@[off + j] == suffix@[j],
        decreases sn - i,
    {
        if host[off + i] != suffix[i] {
            proof {
                if host@.len() == suffix@.len() {
                    assert(host@[0 + i] != suffix@[i as int]);
                    assert(host@ != suffix@);
                } else {
                    assert(host@.subrange(host@.len() - suffix@.len(), host@.len() as int)[i as int]
                        == host@[off + i]);
                }
            }
            return false;
        }
        i = i + 1;
    }
    proof {
        if hn == sn {
            assert(host@ =~= suffix@);
        } else {
            assert(host@.subrange(host@.len() - suffix@.len(), host@.len() as int) =~= suffix@);
        }
    }
    if off == 0 {
        true
    } else {
        host[off - 1] == 46u8
    }
}

/// True exactly when the IPv4 address lies in the network `base/prefix`.
pub fn cidr4_contains(base: u32, prefix: u8, ip: u32) -> (r: bool)
    requires
        prefix <= 32,
    ensures
        r == in_cidr4(ip, base, prefix),
{
    if prefix == 0 {
        proof {
            assert(ip & 0u32 == base & 0u32) by (bit_vector);
        }
        true
    } else {
        let mask: u32 = 0xffff_ffffu32 << ((32 - prefix) as u32);
        (ip & mask) == (base & mask)
    }
}

/// True exactly when the IPv6 address lies in the network `base/prefix`.
pub fn cidr6_contains(base: u128, prefix: u8, ip: u128) -> (r: bool)
    requires
        prefix <= 128,
    ensures
        r == in_cidr6(ip, base, prefix),
{
    if prefix == 0 {
        proof {
            assert(ip & 0u128 == base & 0u128) by (bit_vector);
        }
        true
    } else {
        let mask: u128 = 0xffff_ffff_ffff_ffff_ffff_ffff_ffff_ffffu128 << ((128 - prefix) as u32);
        (ip & mask) == (base & mask)
    }
}

/// True exactly when the matcher applies to the target.
pub fn matcher_matches(m: &Matcher, t: &NetLocation) -> (r: bool)
    requires
        matcher_wf(*m),
    ensures
        r == matcher_applies(*m, *t),
{
    match m {
        Matcher::Exact(name) => match &t.host {
            Host::Name(h) => bytes_eq(h.as_slice(), name.as_slice()),
            _ => false,
        },
        Matcher::Suffix(sfx) => match &t.host {
            Host::Name(h) => host_has_suffix(h.as_slice(), sfx.as_slice()),
            _ => false,
        },
        Matcher::Cidr4 { base, prefix } => match &t.host {
            Host::V4(ip) => cidr4_contains(*base, *prefix, *ip),
            _ => false,
        },
        Matcher::Cidr6 { base, prefix } => match &t.host {
            Host::V6(ip) => cidr6_contains(*base, *prefix, *ip),
            _ => false,
        },
        Matcher::Any => true,
    }
}

impl Selector {
    /// Every rule's matcher has its CIDR prefix lengths in range.
    pub open spec fn wf(self) -> bool {
        forall|i: int| 0 <= i < self.rules@.len() ==> matcher_wf(self.rules@[i].matcher)
    }

    /// A selector over the given rules.  The rules are validated once, at
    /// load time: a CIDR prefix length out of range is refused as a
    /// protocol violation in the configuration.
    pub fn new(rules: Vec<Rule>) -> (r: Result<Selector, ErrorKind>)
        ensures
            match r {
                Ok(s) => s.wf() && s.rules@ == rules@,
                Err(e) => e == ErrorKind::ProtocolViolation && exists|i: int|
                    0 <= i < rules@.len() && !matcher_wf(rules@[i].matcher),
            },
    {
        let mut i: usize = 0;
        while i < rules.len()
            invariant
                i <= rules@.len(),
                forall|j: int| 0 <= j < i ==> matcher_wf(rules@[j].matcher),
            decreases rules@.len() - i,
        {
            let ok = match &rules[i].matcher {
                Matcher::Cidr4 { base: _, prefix } => *prefix <= 32,
                Matcher::Cidr6 { base: _, prefix } => *prefix <= 128,
                _ => true,
            };
            if !ok {
                return Err(ErrorKind::ProtocolViolation);
            }
            i = i + 1;
        }
        Ok(Selector { rules })
    }

    /// Evaluate the rules in configured order against the target: the first
    /// matching rule's action, or rejection when none matches.
    pub fn select(&self, target: &NetLocation) -> (r: RuleAction)
        requires
            self.wf(),
        ensures
            r == spec_select(self.rules@, *target),
    {
        let mut i: usize = 0;
        while i < self.rules.len()
            invariant
                self.wf(),
                i <= self.rules@.len(),
                forall|j: int| 0 <= j < i ==> !matcher_applies(self.rules@[j].matcher, *target),
            decreases self.rules@.len() - i,
        {
            if matcher_matches(&self.rules[i].matcher, target) {
                proof {
                    lemma_select_skip(self.rules@, *target, i as int);
                    assert(self.rules@.skip(i as int)[0] == self.rules@[i as int]);
                }
                return self.rules[i].action;
            }
            i = i + 1;
        }
        proof {
            lemma_select_skip(self.rules@, *target, i as int);
            assert(self.rules@.skip(i as int) =~= Seq::<Rule>::empty());
        }
        RuleAction::Reject
    }
}

} // verus!
