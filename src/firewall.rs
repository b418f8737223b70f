//! Ordered rule evaluation over the 5-tuple, MAC addresses and EtherType.
use vstd::prelude::*;
use crate::types::{InetAddr, MacAddr, Packet};

verus! {

/// One field test of a firewall rule.
#[derive(Clone, Copy, Debug, PartialEq, Eq, Structural)]
pub enum Filter {
    SrcMacAddress(MacAddr),
    DstMacAddress(MacAddr),
    EtherType(u16),
    SrcIpAddress(InetAddr),
    DstIpAddress(InetAddr),
    IPProtocol(u8),
    SrcPort(u16),
    DstPort(u16),
}

/// The fields of a packet that the firewall looks at.
#[derive(Clone, Copy, Debug, PartialEq, Eq, Structural)]
pub struct FirewallPacket {
    pub src_mac: MacAddr,
    pub dst_mac: MacAddr,
    pub ether_type: u16,
    pub src_ip: InetAddr,
    pub dst_ip: InetAddr,
    pub ip_version: u8,
    pub ip_protocol: u8,
    pub src_port: u16,
    pub dst_port: u16,
}

/// 4 for an IPv4 address, 6 for an IPv6 one.
pub open spec fn ip_version_of(a: InetAddr) -> u8 {
    match a {
        InetAddr::V4(_) => 4,
        InetAddr::V6(_) => 6,
    }
}

/// The low 16 bits of an optional port, zero when absent.
pub open spec fn port_field(p: Option<i32>) -> u16 {
    match p {
        Some(v) => v as u16,
        None => 0,
    }
}

impl FirewallPacket {
    pub fn new(
        src_mac: MacAddr,
        dst_mac: MacAddr,
        ether_type: u16,
        src_ip: InetAddr,
        dst_ip: InetAddr,
        ip_version: u8,
        ip_protocol: u8,
        src_port: u16,
        dst_port: u16,
    ) -> (r: FirewallPacket)
        ensures
            r == (FirewallPacket {
                src_mac,
                dst_mac,
                ether_type,
                src_ip,
                dst_ip,
                ip_version,
                ip_protocol,
                src_port,
                dst_port,
            }),
    {
        FirewallPacket {
            src_mac,
            dst_mac,
            ether_type,
            src_ip,
            dst_ip,
            ip_version,
            ip_protocol,
            src_port,
            dst_port,
        }
    }

    /// The firewall view of a stored packet: numbers truncated to their
    /// field widths, absent ports as 0, version from the source address.
    pub fn from_packet(packet: &Packet) -> (r: FirewallPacket)
        ensures
            r.src_mac == packet.src_mac,
            r.dst_mac == packet.dst_mac,
            r.ether_type == packet.ether_type as u16,
            r.src_ip == packet.src_ip,
            r.dst_ip == packet.dst_ip,
            r.ip_version == ip_version_of(packet.src_ip),
            r.ip_protocol == packet.ip_protocol as u8,
            r.src_port == port_field(packet.src_port),
            r.dst_port == port_field(packet.dst_port),
    {
        let ip_version: u8 = match packet.src_ip {
            InetAddr::V4(_) => 4,
            InetAddr::V6(_) => 6,
        };
        let src_port: u16 = match packet.src_port {
            Some(v) => v as u16,
            None => 0,
        };
        let dst_port: u16 = match packet.dst_port {
            Some(v) => v as u16,
            None => 0,
        };
        FirewallPacket {
            src_mac: packet.src_mac,
            dst_mac: packet.dst_mac,
            ether_type: packet.ether_type as u16,
            src_ip: packet.src_ip,
            dst_ip: packet.dst_ip,
            ip_version,
            ip_protocol: packet.ip_protocol as u8,
            src_port,
            dst_port,
        }
    }
}

/// Blacklist: allow unless a rule matches. Whitelist: deny unless a rule matches.
#[derive(Clone, Copy, Debug, PartialEq, Eq, Structural)]
pub enum Policy {
    Blacklist,
    Whitelist,
}

/// A filter with its priority; higher priorities are evaluated first.
#[derive(Clone, Copy, Debug, PartialEq, Eq, Structural)]
pub struct Rule {
    pub filter: Filter,
    pub priority: i32,
}

/// Whether a filter's field equals the packet's.
pub open spec fn filter_matches(f: Filter, p: FirewallPacket) -> bool {
    match f {
        Filter::SrcMacAddress(m) => p.src_mac == m,
        Filter::DstMacAddress(m) => p.dst_mac == m,
        Filter::EtherType(t) => p.ether_type == t,
        Filter::SrcIpAddress(a) => p.src_ip == a,
        Filter::DstIpAddress(a) => p.dst_ip == a,
        Filter::IPProtocol(n) => p.ip_protocol == n,
        Filter::SrcPort(n) => p.src_port == n,
        Filter::DstPort(n) => p.dst_port == n,
    }
}

/// Whether some rule matches the packet.
pub open spec fn any_rule_matches(rules: Seq<Rule>, p: FirewallPacket) -> bool {
    exists|i: int| 0 <= i < rules.len() && filter_matches(#[trigger] rules[i].filter, p)
}

/// The decision for a packet: true admits it.
pub open spec fn verdict(policy: Policy, rules: Seq<Rule>, p: FirewallPacket) -> bool {
    match policy {
        Policy::Blacklist => !any_rule_matches(rules, p),
        Policy::Whitelist => any_rule_matches(rules, p),
    }
}

/// Priorities never increase along the sequence.
pub open spec fn sorted_by_priority(rules: Seq<Rule>) -> bool {
    forall|i: int, j: int| 0 <= i < j < rules.len() ==> rules[i].priority >= rules[j].priority
}

/// Tests one filter against a packet.
pub fn matches_filter(f: &Filter, p: &FirewallPacket) -> (r: bool)
    ensures
        r == filter_matches(*f, *p),
{
    match f {
        Filter::SrcMacAddress(m) => p.src_mac == *m,
        Filter::DstMacAddress(m) => p.dst_mac == *m,
        Filter::EtherType(t) => p.ether_type == *t,
        Filter::SrcIpAddress(a) => p.src_ip == *a,
        Filter::DstIpAddress(a) => p.dst_ip == *a,
        Filter::IPProtocol(n) => p.ip_protocol == *n,
        Filter::SrcPort(n) => p.src_port == *n,
        Filter::DstPort(n) => p.dst_port == *n,
    }
}

/// A priority-ordered rule list under a policy.
pub struct IpFirewall {
    pub policy: Policy,
    pub rules: Vec<Rule>,
}

impl IpFirewall {
    /// The rules are sorted by descending priority.
    pub open spec fn wf(&self) -> bool {
        sorted_by_priority(self.rules@)
    }

    pub fn new(policy: Policy) -> (r: IpFirewall)
        ensures
            r.wf(),
            r.policy == policy,
            r.rules@.len() == 0,
    {
        IpFirewall { policy, rules: Vec::new() }
    }

    /// Inserts a rule after every rule of higher or equal priority and
    /// before every rule of lower priority.
    pub fn add_rule(&mut self, filter: Filter, priority: i32)
        requires
            old(self).wf(),
        ensures
            final(self).wf(),
            final(self).policy == old(self).policy,
            exists|pos: int|
                0 <= pos <= old(self).rules@.len() && final(self).rules@ == old(self).rules@.insert(
                    pos,
                    Rule { filter, priority },
                ) && (forall|i: int| 0 <= i < pos ==> old(self).rules@[i].priority >= priority) && (forall|
                    i: int,
                | pos <= i < old(self).rules@.len() ==> old(self).rules@[i].priority < priority),
    {
        let mut pos: usize = 0;
        while pos < self.rules.len() && self.rules[pos].priority >= priority
            invariant
                pos <= self.rules@.len(),
                forall|i: int| 0 <= i < pos ==> self.rules@[i].priority >= priority,
            decreases self.rules@.len() - pos,
        {
            pos = pos + 1;
        }
        let ghost old_rules = self.rules@;
        assert(forall|i: int| pos <= i < old_rules.len() ==> old_rules[i].priority < priority) by {
            assert forall|i: int| pos <= i < old_rules.len() implies old_rules[i].priority < priority by {
                if pos < old_rules.len() {
                    assert(old_rules[pos as int].priority < priority);
                    if i > pos {
                        assert(old_rules[pos as int].priority >= old_rules[i].priority);
                    }
                }
            }
        }
        self.rules.insert(pos, Rule { filter, priority });
        assert(sorted_by_priority(self.rules@)) by {
            let s = self.rules@;
            assert forall|i: int, j: int| 0 <= i < j < s.len() implies s[i].priority >= s[j].priority by {
                if i < pos && j > pos {
                    assert(old_rules[i].priority >= old_rules[j - 1].priority);
                } else if i > pos {
                    assert(old_rules[i - 1].priority >= old_rules[j - 1].priority);
                }
            }
        }
    }

    /// Evaluates the rules from the highest priority down; the first match
    /// decides under the policy, no match yields the policy's default.
    pub fn check(&self, packet: &FirewallPacket) -> (r: bool)
        ensures
            r == verdict(self.policy, self.rules@, *packet),
    {
        let mut i: usize = 0;
        while i < self.rules.len()
            invariant
                i <= self.rules@.len(),
                forall|k: int| 0 <= k < i ==> !filter_matches(#[trigger] self.rules@[k].filter, *packet),
            decreases self.rules@.len() - i,
        {
            if matches_filter(&self.rules[i].filter, packet) {
                return match self.policy {
                    Policy::Blacklist => false,
                    Policy::Whitelist => true,
                };
            }
            i = i + 1;
        }
        match self.policy {
            Policy::Blacklist => true,
            Policy::Whitelist => false,
        }
    }
}

/// With no rules, a blacklist admits every packet and a whitelist denies
/// every packet.
pub proof fn lemma_empty_rules_default(p: FirewallPacket)
    ensures
        verdict(Policy::Blacklist, Seq::<Rule>::empty(), p),
        !verdict(Policy::Whitelist, Seq::<Rule>::empty(), p),
{
}

} // verus!
