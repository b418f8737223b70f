//! Header decoding: Ethernet, IPv4, IPv6, ARP and the TCP/UDP port words.
use vstd::prelude::*;
use crate::bytes::{be16, ipv4_at, ipv6_at, read_be16, read_ipv4, read_ipv6, copy_from};
use crate::clock::now_millis;
use crate::ethernet::extract_mac_addresses;
use crate::types::{InetAddr, MacAddr, PacketData, Protocol, IP_PROTO_TCP, IP_PROTO_UDP,
    ETHER_TYPE_IPV4, ETHER_TYPE_IPV6, ETHER_TYPE_ARP};

verus! {

/// Length of an Ethernet header.
pub const ETHERNET_HEADER_LEN: usize = 14;
/// Deepest encapsulation level the decoder descends to.
pub const MAX_DECODE_DEPTH: u8 = 5;

/// What the network and transport layers of a frame yield.
#[derive(Clone, Copy, Debug, PartialEq, Eq, Structural)]
pub struct NetworkLayer {
    pub src_ip: InetAddr,
    pub dst_ip: InetAddr,
    pub ip_protocol: Protocol,
    pub src_port: u16,
    pub dst_port: u16,
    /// Offset of the transport header (end of the IP header).
    pub transport_offset: usize,
    /// Offset of the payload that follows the transport header.
    pub payload_offset: usize,
}

/// The layer of a frame whose network protocol is not decoded.
pub open spec fn unknown_layer() -> NetworkLayer {
    NetworkLayer {
        src_ip: InetAddr::V4(0),
        dst_ip: InetAddr::V4(0),
        ip_protocol: Protocol(0),
        src_port: 0,
        dst_port: 0,
        transport_offset: 14,
        payload_offset: 14,
    }
}

/// End of the IPv4 header: 14 + IHL * 4, IHL the low nibble of byte 14.
pub open spec fn ipv4_header_end(f: Seq<u8>) -> int {
    14 + (f[14] % 16) * 4
}

/// Whether the port words at `start` are read: TCP or UDP, and four bytes there.
pub open spec fn ports_present(f: Seq<u8>, proto: u8, start: int) -> bool {
    (proto == 6 || proto == 17) && f.len() >= start + 4
}

/// Offset of the IPv4 payload: past the TCP header (its data-offset nibble
/// times four) or past the 8-byte UDP header when the ports were read.
pub open spec fn ipv4_payload_offset(f: Seq<u8>, proto: u8, start: int) -> int {
    if ports_present(f, proto, start) {
        if proto == 6 && f.len() > start + 12 {
            start + (f[start + 12] / 16) * 4
        } else {
            start + 8
        }
    } else {
        start
    }
}

pub open spec fn port_at(f: Seq<u8>, proto: u8, start: int, i: int) -> u16 {
    if ports_present(f, proto, start) {
        be16(f, start + i) as u16
    } else {
        0
    }
}

/// The IPv4 layer of a frame of at least 34 bytes.
pub open spec fn ipv4_layer(f: Seq<u8>) -> NetworkLayer {
    let h = ipv4_header_end(f);
    let proto = f[23];
    NetworkLayer {
        src_ip: ipv4_at(f, 26),
        dst_ip: ipv4_at(f, 30),
        ip_protocol: Protocol(proto as i32),
        src_port: port_at(f, proto, h, 0),
        dst_port: port_at(f, proto, h, 2),
        transport_offset: h as usize,
        payload_offset: ipv4_payload_offset(f, proto, h) as usize,
    }
}

/// The IPv6 layer of a frame of more than 54 bytes.
pub open spec fn ipv6_layer(f: Seq<u8>) -> NetworkLayer {
    let proto = f[20];
    NetworkLayer {
        src_ip: ipv6_at(f, 22),
        dst_ip: ipv6_at(f, 38),
        ip_protocol: Protocol(proto as i32),
        src_port: port_at(f, proto, 54, 0),
        dst_port: port_at(f, proto, 54, 2),
        transport_offset: 54,
        payload_offset: 54,
    }
}

/// The ARP layer of a frame of at least 42 bytes: sender and target IPv4.
pub open spec fn arp_layer(f: Seq<u8>) -> NetworkLayer {
    NetworkLayer { src_ip: ipv4_at(f, 28), dst_ip: ipv4_at(f, 38), ..unknown_layer() }
}

/// The network layer of a frame of at least 14 bytes, by its EtherType.
pub open spec fn network_layer_of(f: Seq<u8>) -> NetworkLayer {
    let et = be16(f, 12);
    if et == 0x0800 && f.len() >= 34 {
        ipv4_layer(f)
    } else if et == 0x86DD && f.len() > 54 {
        ipv6_layer(f)
    } else if et == 0x0806 && f.len() >= 42 {
        arp_layer(f)
    } else {
        unknown_layer()
    }
}

/// In an IPv4 frame whose IHL is valid (at least five words, the header
/// inside the frame), the transport header starts at 14 + IHL * 4.
pub proof fn lemma_ipv4_transport_offset(f: Seq<u8>)
    requires
        f.len() >= 34,
        be16(f, 12) == 0x0800,
        f[14] % 16 >= 5,
        14 + (f[14] % 16) * 4 <= f.len(),
    ensures
        network_layer_of(f).transport_offset == 14 + (f[14] % 16) * 4,
{
}

/// The smaller of two integers.
pub open spec fn min_int(a: int, b: int) -> int {
    if a <= b {
        a
    } else {
        b
    }
}

/// The record for a frame too short to carry an Ethernet header.
pub open spec fn is_empty_record(p: PacketData, f: Seq<u8>, ts: i64) -> bool {
    &&& p.dst_mac@ == seq![0u8, 0u8, 0u8, 0u8, 0u8, 0u8]
    &&& p.src_mac@ == seq![0u8, 0u8, 0u8, 0u8, 0u8, 0u8]
    &&& p.ether_type == Protocol(0)
    &&& p.src_ip == InetAddr::V4(0)
    &&& p.dst_ip == InetAddr::V4(0)
    &&& p.src_port == 0
    &&& p.dst_port == 0
    &&& p.ip_protocol == Protocol(0)
    &&& p.timestamp == ts
    &&& p.data@.len() == 0
    &&& p.raw_packet@ == f
}

/// `p` is the record that decoding frame `f` at time `ts` yields.
pub open spec fn decoded_from(p: PacketData, f: Seq<u8>, ts: i64) -> bool {
    if f.len() < 14 {
        is_empty_record(p, f, ts)
    } else {
        let l = network_layer_of(f);
        &&& p.dst_mac@ == f.subrange(0, 6)
        &&& p.src_mac@ == f.subrange(6, 12)
        &&& p.ether_type == Protocol(be16(f, 12) as i32)
        &&& p.src_ip == l.src_ip
        &&& p.dst_ip == l.dst_ip
        &&& p.src_port == l.src_port as i32
        &&& p.dst_port == l.dst_port as i32
        &&& p.ip_protocol == l.ip_protocol
        &&& p.timestamp == ts
        &&& p.data@ == f.subrange(min_int(l.payload_offset as int, f.len() as int), f.len() as int)
        &&& p.raw_packet@ == f
    }
}

/// Decodes the IPv4 layer of a frame of at least 34 bytes.
pub fn parse_ipv4(f: &[u8]) -> (r: NetworkLayer)
    requires
        f@.len() >= 34,
    ensures
        r == ipv4_layer(f@),
        r.transport_offset == 14 + (f@[14] % 16) * 4,
{
    let h: usize = 14 + ((f[14] % 16) as usize) * 4;
    let proto = f[23];
    let (sp, dp) = PacketAnalyzer::extract_ports(f, proto, h);
    let mut off: usize = h;
    if (proto == IP_PROTO_TCP || proto == IP_PROTO_UDP) && f.len() >= h + 4 {
        if proto == IP_PROTO_TCP && f.len() > h + 12 {
            off = h + ((f[h + 12] / 16) as usize) * 4;
        } else {
            off = h + 8;
        }
    }
    NetworkLayer {
        src_ip: read_ipv4(f, 26),
        dst_ip: read_ipv4(f, 30),
        ip_protocol: Protocol::from_u8(proto),
        src_port: sp,
        dst_port: dp,
        transport_offset: h,
        payload_offset: off,
    }
}

/// Decodes the IPv6 layer of a frame of more than 54 bytes.
pub fn parse_ipv6(f: &[u8]) -> (r: NetworkLayer)
    requires
        f@.len() > 54,
    ensures
        r == ipv6_layer(f@),
{
    let proto = f[20];
    let (sp, dp) = PacketAnalyzer::extract_ports(f, proto, 54);
    NetworkLayer {
        src_ip: read_ipv6(f, 22),
        dst_ip: read_ipv6(f, 38),
        ip_protocol: Protocol::from_u8(proto),
        src_port: sp,
        dst_port: dp,
        transport_offset: 54,
        payload_offset: 54,
    }
}

/// Decodes the sender and target IPv4 addresses of an ARP frame of at least
/// 42 bytes.
pub fn parse_arp(f: &[u8]) -> (r: (InetAddr, InetAddr))
    requires
        f@.len() >= 42,
    ensures
        r.0 == ipv4_at(f@, 28),
        r.1 == ipv4_at(f@, 38),
{
    (read_ipv4(f, 28), read_ipv4(f, 38))
}

/// Decodes the network layer of a frame of at least 14 bytes.
pub fn parse_network_layer(f: &[u8]) -> (r: NetworkLayer)
    requires
        f@.len() >= 14,
    ensures
        r == network_layer_of(f@),
{
    let et = read_be16(f, 12);
    if et == ETHER_TYPE_IPV4 && f.len() >= 34 {
        parse_ipv4(f)
    } else if et == ETHER_TYPE_IPV6 && f.len() > 54 {
        parse_ipv6(f)
    } else if et == ETHER_TYPE_ARP && f.len() >= 42 {
        let (s, d) = parse_arp(f);
        NetworkLayer {
            src_ip: s,
            dst_ip: d,
            ip_protocol: Protocol::unknown(),
            src_port: 0,
            dst_port: 0,
            transport_offset: 14,
            payload_offset: 14,
        }
    } else {
        NetworkLayer {
            src_ip: InetAddr::unspecified(),
            dst_ip: InetAddr::unspecified(),
            ip_protocol: Protocol::unknown(),
            src_port: 0,
            dst_port: 0,
            transport_offset: 14,
            payload_offset: 14,
        }
    }
}

/// The record for a frame too short to decode.
pub fn create_empty_packet_data(f: &[u8], timestamp: i64) -> (r: PacketData)
    ensures
        is_empty_record(r, f@, timestamp),
{
    PacketData {
        src_mac: MacAddr::zero(),
        dst_mac: MacAddr::zero(),
        ether_type: Protocol::unknown(),
        src_ip: InetAddr::unspecified(),
        dst_ip: InetAddr::unspecified(),
        src_port: 0,
        dst_port: 0,
        ip_protocol: Protocol::unknown(),
        timestamp,
        data: Vec::new(),
        raw_packet: copy_all(f),
    }
}

/// Copies a whole frame.
pub fn copy_all(f: &[u8]) -> (r: Vec<u8>)
    ensures
        r@ == f@,
{
    let r = copy_from(f, 0);
    assert(f@.subrange(0, f@.len() as int) =~= f@);
    r
}

/// Decodes a captured frame at a given time. Never fails: a frame shorter
/// than an Ethernet header yields the empty record.
pub fn decode_frame(f: &[u8], timestamp: i64) -> (r: PacketData)
    ensures
        decoded_from(r, f@, timestamp),
        f@.len() >= 14 ==> r.src_mac@ == f@.subrange(6, 12) && r.dst_mac@ == f@.subrange(0, 6),
{
    inner_parse(f, 0, timestamp)
}

fn inner_parse(f: &[u8], depth: u8, timestamp: i64) -> (r: PacketData)
    requires
        depth <= MAX_DECODE_DEPTH,
    ensures
        decoded_from(r, f@, timestamp),
{
    if depth > MAX_DECODE_DEPTH || f.len() < ETHERNET_HEADER_LEN {
        return create_empty_packet_data(f, timestamp);
    }
    let (src_mac, dst_mac) = extract_mac_addresses(f);
    let ether_type = read_be16(f, 12);
    let l = parse_network_layer(f);
    let start: usize = if l.payload_offset <= f.len() {
        l.payload_offset
    } else {
        f.len()
    };
    PacketData {
        src_mac,
        dst_mac,
        ether_type: Protocol::from_u16(ether_type),
        src_ip: l.src_ip,
        dst_ip: l.dst_ip,
        src_port: l.src_port as i32,
        dst_port: l.dst_port as i32,
        ip_protocol: l.ip_protocol,
        timestamp,
        data: copy_from(f, start),
        raw_packet: copy_all(f),
    }
}

/// The frame decoder of the capture path.
pub struct PacketAnalyzer;

impl PacketAnalyzer {
    /// Reads the two port words at `start` when the protocol is TCP or UDP and
    /// four bytes are there; zero otherwise.
    pub fn extract_ports(f: &[u8], proto: u8, start: usize) -> (r: (u16, u16))
        requires
            start + 4 <= usize::MAX,
        ensures
            r.0 == port_at(f@, proto, start as int, 0),
            r.1 == port_at(f@, proto, start as int, 2),
    {
        if (proto == IP_PROTO_TCP || proto == IP_PROTO_UDP) && f.len() >= start + 4 {
            (read_be16(f, start), read_be16(f, start + 2))
        } else {
            (0, 0)
        }
    }

    /// Decodes a captured frame, stamped with the current time.
    pub fn analyze_packet(ethernet_frame: &[u8]) -> (r: PacketData)
        ensures
            decoded_from(r, ethernet_frame@, r.timestamp),
    {
        let now = now_millis();
        decode_frame(ethernet_frame, now)
    }
}

} // verus!
