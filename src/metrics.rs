//! Packet counters and their text snapshot.
use vstd::prelude::*;
use crate::text::{decimal, push_decimal};
use crate::types::PacketData;

verus! {

/// Thirteen wrapping counters.
#[derive(Clone, Copy, Debug, PartialEq, Eq, Structural)]
pub struct PacketMetrics {
    pub total_packets: u64,
    pub processed_packets: u64,
    pub dropped_packets: u64,
    pub ipv4_packets: u64,
    pub ipv6_packets: u64,
    pub arp_packets: u64,
    pub tcp_packets: u64,
    pub udp_packets: u64,
    pub icmp_packets: u64,
    pub parse_errors: u64,
    pub process_errors: u64,
    pub allowed_packets: u64,
    pub blocked_packets: u64,
}

/// `c + 1`, wrapping at the top.
pub open spec fn bump(c: u64) -> u64 {
    if c == u64::MAX {
        0
    } else {
        (c + 1) as u64
    }
}

/// The snapshot text.
pub open spec fn metrics_text(m: PacketMetrics) -> Seq<char> {
    "Packet Statistics:\nTotal: "@ + decimal(m.total_packets as nat) + ", Processed: "@ + decimal(
        m.processed_packets as nat,
    ) + ", Dropped: "@ + decimal(m.dropped_packets as nat) + "\nIPv4: "@ + decimal(m.ipv4_packets as nat)
        + ", IPv6: "@ + decimal(m.ipv6_packets as nat) + ", ARP: "@ + decimal(m.arp_packets as nat) + "\nTCP: "@
        + decimal(m.tcp_packets as nat) + ", UDP: "@ + decimal(m.udp_packets as nat) + ", ICMP: "@ + decimal(
        m.icmp_packets as nat,
    ) + "\nAllowed: "@ + decimal(m.allowed_packets as nat) + ", Blocked: "@ + decimal(m.blocked_packets as nat)
        + "\nErrors: Parse="@ + decimal(m.parse_errors as nat) + ", Process="@ + decimal(m.process_errors as nat)
}

/// The counters after one packet with EtherType `et` and IP protocol `ip`:
/// the total, the network protocol (IPv4, IPv6, ARP) and the transport
/// protocol (TCP, UDP, ICMP or ICMPv6).
pub open spec fn recorded(m: PacketMetrics, et: i32, ip: i32) -> PacketMetrics {
    PacketMetrics {
        total_packets: bump(m.total_packets),
        ipv4_packets: if et == 0x0800 {
            bump(m.ipv4_packets)
        } else {
            m.ipv4_packets
        },
        ipv6_packets: if et == 0x86DD {
            bump(m.ipv6_packets)
        } else {
            m.ipv6_packets
        },
        arp_packets: if et == 0x0806 {
            bump(m.arp_packets)
        } else {
            m.arp_packets
        },
        tcp_packets: if ip == 6 {
            bump(m.tcp_packets)
        } else {
            m.tcp_packets
        },
        udp_packets: if ip == 17 {
            bump(m.udp_packets)
        } else {
            m.udp_packets
        },
        icmp_packets: if ip == 1 || ip == 58 {
            bump(m.icmp_packets)
        } else {
            m.icmp_packets
        },
        ..m
    }
}

impl PacketMetrics {
    pub fn new() -> (r: PacketMetrics)
        ensures
            r == (PacketMetrics {
                total_packets: 0,
                processed_packets: 0,
                dropped_packets: 0,
                ipv4_packets: 0,
                ipv6_packets: 0,
                arp_packets: 0,
                tcp_packets: 0,
                udp_packets: 0,
                icmp_packets: 0,
                parse_errors: 0,
                process_errors: 0,
                allowed_packets: 0,
                blocked_packets: 0,
            }),
    {
        PacketMetrics {
            total_packets: 0,
            processed_packets: 0,
            dropped_packets: 0,
            ipv4_packets: 0,
            ipv6_packets: 0,
            arp_packets: 0,
            tcp_packets: 0,
            udp_packets: 0,
            icmp_packets: 0,
            parse_errors: 0,
            process_errors: 0,
            allowed_packets: 0,
            blocked_packets: 0,
        }
    }

    /// Counts a decoded packet: the total, its network protocol (IPv4,
    /// IPv6, ARP) and its transport protocol (TCP, UDP, ICMP or ICMPv6).
    pub fn record_packet(&mut self, packet_data: &PacketData)
        ensures
            *final(self) == recorded(*old(self), packet_data.ether_type.0, packet_data.ip_protocol.0),
    {
        self.total_packets = self.total_packets.wrapping_add(1);
        let et = packet_data.ether_type.0;
        if et == 0x0800 {
            self.ipv4_packets = self.ipv4_packets.wrapping_add(1);
        } else if et == 0x86DD {
            self.ipv6_packets = self.ipv6_packets.wrapping_add(1);
        } else if et == 0x0806 {
            self.arp_packets = self.arp_packets.wrapping_add(1);
        }
        let p = packet_data.ip_protocol.0;
        if p == 6 {
            self.tcp_packets = self.tcp_packets.wrapping_add(1);
        } else if p == 17 {
            self.udp_packets = self.udp_packets.wrapping_add(1);
        } else if p == 1 || p == 58 {
            self.icmp_packets = self.icmp_packets.wrapping_add(1);
        }
    }

    /// Counts a frame dropped before the firewall.
    pub fn record_dropped(&mut self)
        ensures
            *final(self) == (PacketMetrics { dropped_packets: bump(old(self).dropped_packets), ..*old(self) }),
    {
        self.dropped_packets = self.dropped_packets.wrapping_add(1);
    }

    /// Counts a frame that reached the firewall.
    pub fn record_processed(&mut self)
        ensures
            *final(self) == (PacketMetrics { processed_packets: bump(old(self).processed_packets), ..*old(self) }),
    {
        self.processed_packets = self.processed_packets.wrapping_add(1);
    }

    /// Counts a frame that could not be parsed.
    pub fn record_parse_error(&mut self)
        ensures
            *final(self) == (PacketMetrics { parse_errors: bump(old(self).parse_errors), ..*old(self) }),
    {
        self.parse_errors = self.parse_errors.wrapping_add(1);
    }

    /// Counts a firewall decision.
    pub fn record_decision(&mut self, allowed: bool)
        ensures
            allowed ==> *final(self) == (PacketMetrics { allowed_packets: bump(old(self).allowed_packets), ..*old(self) }),
            !allowed ==> *final(self) == (PacketMetrics { blocked_packets: bump(old(self).blocked_packets), ..*old(self) }),
    {
        if allowed {
            self.allowed_packets = self.allowed_packets.wrapping_add(1);
        } else {
            self.blocked_packets = self.blocked_packets.wrapping_add(1);
        }
    }

    /// The snapshot of all counters as text.
    pub fn format_metrics(&self) -> (r: String)
        ensures
            r@ == metrics_text(*self),
    {
        let mut s = String::new();
        s.append("Packet Statistics:\nTotal: ");
        push_decimal(&mut s, self.total_packets);
        s.append(", Processed: ");
        push_decimal(&mut s, self.processed_packets);
        s.append(", Dropped: ");
        push_decimal(&mut s, self.dropped_packets);
        s.append("\nIPv4: ");
        push_decimal(&mut s, self.ipv4_packets);
        s.append(", IPv6: ");
        push_decimal(&mut s, self.ipv6_packets);
        s.append(", ARP: ");
        push_decimal(&mut s, self.arp_packets);
        s.append("\nTCP: ");
        push_decimal(&mut s, self.tcp_packets);
        s.append(", UDP: ");
        push_decimal(&mut s, self.udp_packets);
        s.append(", ICMP: ");
        push_decimal(&mut s, self.icmp_packets);
        s.append("\nAllowed: ");
        push_decimal(&mut s, self.allowed_packets);
        s.append(", Blocked: ");
        push_decimal(&mut s, self.blocked_packets);
        s.append("\nErrors: Parse=");
        push_decimal(&mut s, self.parse_errors);
        s.append(", Process=");
        push_decimal(&mut s, self.process_errors);
        assert(s@ =~= metrics_text(*self));
        s
    }
}

} // verus!
