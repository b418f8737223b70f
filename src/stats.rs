//! Traffic statistics: totals and per-protocol and per-port counts.
use vstd::prelude::*;
use std::collections::HashMap;
use crate::metrics::bump;
use crate::types::Protocol;

verus! {

broadcast use vstd::std_specs::hash::group_hash_axioms;

/// A count in a map, zero when the key is absent.
pub open spec fn count_of<K>(m: Map<K, u64>, k: K) -> u64 {
    if m.contains_key(k) {
        m[k]
    } else {
        0
    }
}

fn bump_port(m: &mut HashMap<u16, u64>, k: u16)
    ensures
        final(m)@ == old(m)@.insert(k, bump(count_of(old(m)@, k))),
{
    let cur: u64 = match m.get(&k) {
        Some(v) => *v,
        None => 0,
    };
    m.insert(k, cur.wrapping_add(1));
}

fn bump_protocol(m: &mut HashMap<i32, u64>, k: i32)
    ensures
        final(m)@ == old(m)@.insert(k, bump(count_of(old(m)@, k))),
{
    let cur: u64 = match m.get(&k) {
        Some(v) => *v,
        None => 0,
    };
    m.insert(k, cur.wrapping_add(1));
}

/// Totals since `last_reset` (ms), with counts by protocol and by port.
pub struct PacketStats {
    pub total_packets: u64,
    pub total_bytes: u64,
    pub protocol_counts: HashMap<i32, u64>,
    pub port_counts: HashMap<u16, u64>,
    pub last_reset: i64,
}

impl PacketStats {
    pub fn new(now: i64) -> (r: PacketStats)
        ensures
            r.total_packets == 0,
            r.total_bytes == 0,
            r.protocol_counts@ == Map::<i32, u64>::empty(),
            r.port_counts@ == Map::<u16, u64>::empty(),
            r.last_reset == now,
    {
        PacketStats {
            total_packets: 0,
            total_bytes: 0,
            protocol_counts: HashMap::new(),
            port_counts: HashMap::new(),
            last_reset: now,
        }
    }

    /// Counts one packet of `size` bytes: the totals, its protocol, and each
    /// of its ports that is not zero. Counters wrap.
    pub fn update(&mut self, protocol: Protocol, size: u64, src_port: u16, dst_port: u16)
        ensures
            final(self).total_packets == bump(old(self).total_packets),
            final(self).total_bytes == old(self).total_bytes.wrapping_add(size),
            final(self).protocol_counts@ == old(self).protocol_counts@.insert(
                protocol.0,
                bump(count_of(old(self).protocol_counts@, protocol.0)),
            ),
            final(self).last_reset == old(self).last_reset,
            ({
                let p1 = if src_port > 0 {
                    old(self).port_counts@.insert(src_port, bump(count_of(old(self).port_counts@, src_port)))
                } else {
                    old(self).port_counts@
                };
                final(self).port_counts@ == if dst_port > 0 {
                    p1.insert(dst_port, bump(count_of(p1, dst_port)))
                } else {
                    p1
                }
            }),
    {
        self.total_packets = self.total_packets.wrapping_add(1);
        self.total_bytes = self.total_bytes.wrapping_add(size);
        bump_protocol(&mut self.protocol_counts, protocol.0);
        if src_port > 0 {
            bump_port(&mut self.port_counts, src_port);
        }
        if dst_port > 0 {
            bump_port(&mut self.port_counts, dst_port);
        }
    }
}

} // verus!
