//! Addresses, protocol numbers and the decoded packet records.
use vstd::prelude::*;

verus! {

/// EtherType of IPv4.
pub const ETHER_TYPE_IPV4: u16 = 0x0800;
/// EtherType of IPv6.
pub const ETHER_TYPE_IPV6: u16 = 0x86DD;
/// EtherType of ARP.
pub const ETHER_TYPE_ARP: u16 = 0x0806;
/// EtherType of RARP.
pub const ETHER_TYPE_RARP: u16 = 0x8035;
/// EtherType of an 802.1Q VLAN tag.
pub const ETHER_TYPE_VLAN: u16 = 0x8100;

/// IP protocol number of ICMP.
pub const IP_PROTO_ICMP: u8 = 1;
/// IP protocol number of TCP.
pub const IP_PROTO_TCP: u8 = 6;
/// IP protocol number of UDP.
pub const IP_PROTO_UDP: u8 = 17;
/// IP protocol number of ICMPv6.
pub const IP_PROTO_ICMP_V6: u8 = 58;

/// An Ethernet hardware address: six opaque bytes, in wire order.
#[derive(Clone, Copy, Debug, PartialEq, Eq, Structural, Hash)]
pub struct MacAddr(pub u8, pub u8, pub u8, pub u8, pub u8, pub u8);

impl MacAddr {
    /// The six bytes in wire order.
    pub open spec fn view(self) -> Seq<u8> {
        seq![self.0, self.1, self.2, self.3, self.4, self.5]
    }

    /// The all-zero address.
    pub fn zero() -> (r: MacAddr)
        ensures
            r@ == seq![0u8, 0u8, 0u8, 0u8, 0u8, 0u8],
    {
        MacAddr(0, 0, 0, 0, 0, 0)
    }
}

/// An Internet address: IPv4 as its 32-bit big-endian value, IPv6 as its
/// 128-bit big-endian value.
#[derive(Clone, Copy, Debug, PartialEq, Eq, Structural, Hash)]
pub enum InetAddr {
    V4(u32),
    V6(u128),
}

/// The IPv4 value of four octets in wire order.
pub open spec fn ipv4_value(a: u8, b: u8, c: u8, d: u8) -> int {
    a as int * 16777216 + b as int * 65536 + c as int * 256 + d as int
}

impl InetAddr {
    /// The IPv4 address `a.b.c.d`.
    pub fn v4(a: u8, b: u8, c: u8, d: u8) -> (r: InetAddr)
        ensures
            r == InetAddr::V4(ipv4_value(a, b, c, d) as u32),
    {
        let v: u32 = (a as u32) * 16777216 + (b as u32) * 65536 + (c as u32) * 256 + (d as u32);
        InetAddr::V4(v)
    }

    /// The IPv4 address `0.0.0.0`.
    pub fn unspecified() -> (r: InetAddr)
        ensures
            r == InetAddr::V4(0),
    {
        InetAddr::V4(0)
    }

    pub open spec fn spec_is_ipv4(self) -> bool {
        self is V4
    }

    /// Whether this is an IPv4 address.
    pub fn is_ipv4(&self) -> (r: bool)
        ensures
            r == self.spec_is_ipv4(),
    {
        match self {
            InetAddr::V4(_) => true,
            InetAddr::V6(_) => false,
        }
    }
}

/// A 16-bit EtherType value.
#[derive(Clone, Copy, Debug, PartialEq, Eq, Structural, Hash)]
pub struct EtherType(pub u16);

impl EtherType {
    pub fn new(value: u16) -> (r: EtherType)
        ensures
            r.0 == value,
    {
        EtherType(value)
    }

    pub fn value(&self) -> (r: u16)
        ensures
            r == self.0,
    {
        self.0
    }

    /// Whether the value lies in the EtherType range (at least 0x0800)
    /// rather than being an 802.3 length.
    pub fn is_ethernet_protocol(&self) -> (r: bool)
        ensures
            r == (self.0 >= 0x0800),
    {
        self.0 >= 0x0800
    }
}

impl From<u16> for EtherType {
    fn from(value: u16) -> (r: EtherType) {
        EtherType(value)
    }
}

impl vstd::std_specs::convert::FromSpecImpl<u16> for EtherType {
    open spec fn obeys_from_spec() -> bool {
        true
    }

    open spec fn from_spec(v: u16) -> EtherType {
        EtherType(v)
    }
}

/// An 8-bit IP protocol number.
#[derive(Clone, Copy, Debug, PartialEq, Eq, Structural, Hash)]
pub struct IpProtocol(pub u8);

impl IpProtocol {
    pub fn new(value: u8) -> (r: IpProtocol)
        ensures
            r.0 == value,
    {
        IpProtocol(value)
    }

    pub fn value(&self) -> (r: u8)
        ensures
            r == self.0,
    {
        self.0
    }

    /// Whether this is TCP or UDP.
    pub fn is_transport_protocol(&self) -> (r: bool)
        ensures
            r == (self.0 == IP_PROTO_TCP || self.0 == IP_PROTO_UDP),
    {
        self.0 == IP_PROTO_TCP || self.0 == IP_PROTO_UDP
    }

    /// Whether this is ICMP or ICMPv6.
    pub fn is_icmp(&self) -> (r: bool)
        ensures
            r == (self.0 == IP_PROTO_ICMP || self.0 == IP_PROTO_ICMP_V6),
    {
        self.0 == IP_PROTO_ICMP || self.0 == IP_PROTO_ICMP_V6
    }
}

impl From<u8> for IpProtocol {
    fn from(value: u8) -> (r: IpProtocol) {
        IpProtocol(value)
    }
}

impl vstd::std_specs::convert::FromSpecImpl<u8> for IpProtocol {
    open spec fn obeys_from_spec() -> bool {
        true
    }

    open spec fn from_spec(v: u8) -> IpProtocol {
        IpProtocol(v)
    }
}

/// A protocol number as the store keeps it: an EtherType or an IP protocol
/// number widened to `i32`. Zero stands for "unknown".
#[derive(Clone, Copy, Debug, PartialEq, Eq, Structural, Hash)]
pub struct Protocol(pub i32);

impl Protocol {
    /// A protocol value taken from an EtherType.
    pub fn ethernet(value: i32) -> (r: Protocol)
        ensures
            r.0 == value,
    {
        Protocol(value)
    }

    /// A protocol value taken from an IP protocol number.
    pub fn ip(value: i32) -> (r: Protocol)
        ensures
            r.0 == value,
    {
        Protocol(value)
    }

    pub fn unknown() -> (r: Protocol)
        ensures
            r.0 == 0,
    {
        Protocol(0)
    }

    pub fn from_u16(value: u16) -> (r: Protocol)
        ensures
            r.0 == value as i32,
    {
        Protocol(value as i32)
    }

    pub fn from_u8(value: u8) -> (r: Protocol)
        ensures
            r.0 == value as i32,
    {
        Protocol(value as i32)
    }

    pub fn as_i32(&self) -> (r: i32)
        ensures
            r == self.0,
    {
        self.0
    }

    /// Whether the value lies in the EtherType range.
    pub fn is_ethernet(&self) -> (r: bool)
        ensures
            r == (self.0 >= 0x0800),
    {
        self.0 >= 0x0800
    }

    /// Whether the value lies in the IP protocol range.
    pub fn is_ip(&self) -> (r: bool)
        ensures
            r == (0 < self.0 < 0x0800),
    {
        self.0 > 0 && self.0 < 0x0800
    }
}

/// A decoded frame, in the form the capture side produces and the writer
/// stores. `timestamp` is milliseconds since the Unix epoch, UTC.
#[derive(Clone, Debug)]
pub struct PacketData {
    pub src_mac: MacAddr,
    pub dst_mac: MacAddr,
    pub ether_type: Protocol,
    pub src_ip: InetAddr,
    pub dst_ip: InetAddr,
    pub src_port: i32,
    pub dst_port: i32,
    pub ip_protocol: Protocol,
    pub timestamp: i64,
    pub data: Vec<u8>,
    pub raw_packet: Vec<u8>,
}

/// A frame as read back from the store; ports may be absent.
#[derive(Clone, Debug)]
pub struct Packet {
    pub src_mac: MacAddr,
    pub dst_mac: MacAddr,
    pub ether_type: i32,
    pub src_ip: InetAddr,
    pub dst_ip: InetAddr,
    pub src_port: Option<i32>,
    pub dst_port: Option<i32>,
    pub ip_protocol: i32,
    pub timestamp: i64,
    pub data: Vec<u8>,
    pub raw_packet: Vec<u8>,
}

/// Copies a byte vector element by element.
pub fn copy_bytes(v: &Vec<u8>) -> (r: Vec<u8>)
    ensures
        r@ == v@,
{
    let mut r: Vec<u8> = Vec::with_capacity(v.len());
    let mut i: usize = 0;
    while i < v.len()
        invariant
            i <= v@.len(),
            r@ == v@.subrange(0, i as int),
        decreases v@.len() - i,
    {
        r.push(v[i]);
        i = i + 1;
    }
    assert(r@ =~= v@);
    r
}

impl PacketData {
    /// The stored-row form of this record: both ports present.
    pub fn to_packet(&self) -> (r: Packet)
        ensures
            r.src_mac == self.src_mac,
            r.dst_mac == self.dst_mac,
            r.ether_type == self.ether_type.0,
            r.src_ip == self.src_ip,
            r.dst_ip == self.dst_ip,
            r.src_port == Some(self.src_port),
            r.dst_port == Some(self.dst_port),
            r.ip_protocol == self.ip_protocol.0,
            r.timestamp == self.timestamp,
            r.data@ == self.data@,
            r.raw_packet@ == self.raw_packet@,
    {
        Packet {
            src_mac: self.src_mac,
            dst_mac: self.dst_mac,
            ether_type: self.ether_type.as_i32(),
            src_ip: self.src_ip,
            dst_ip: self.dst_ip,
            src_port: Some(self.src_port),
            dst_port: Some(self.dst_port),
            ip_protocol: self.ip_protocol.as_i32(),
            timestamp: self.timestamp,
            data: copy_bytes(&self.data),
            raw_packet: copy_bytes(&self.raw_packet),
        }
    }
}

/// Zero when absent, the value otherwise.
pub open spec fn port_or_zero(p: Option<i32>) -> i32 {
    match p {
        Some(v) => v,
        None => 0,
    }
}

impl Packet {
    /// The decoded-record form of this row. Protocol numbers pass through
    /// their low 16 bits; absent ports become 0.
    pub fn to_packet_data(&self) -> (r: PacketData)
        ensures
            r.src_mac == self.src_mac,
            r.dst_mac == self.dst_mac,
            r.ether_type.0 == (self.ether_type as u16) as i32,
            r.src_ip == self.src_ip,
            r.dst_ip == self.dst_ip,
            r.src_port == port_or_zero(self.src_port),
            r.dst_port == port_or_zero(self.dst_port),
            r.ip_protocol.0 == (self.ip_protocol as u16) as i32,
            r.timestamp == self.timestamp,
            r.data@ == self.data@,
            r.raw_packet@ == self.raw_packet@,
    {
        let sp: i32 = match self.src_port {
            Some(v) => v,
            None => 0,
        };
        let dp: i32 = match self.dst_port {
            Some(v) => v,
            None => 0,
        };
        PacketData {
            src_mac: self.src_mac,
            dst_mac: self.dst_mac,
            ether_type: Protocol::from_u16(self.ether_type as u16),
            src_ip: self.src_ip,
            dst_ip: self.dst_ip,
            src_port: sp,
            dst_port: dp,
            ip_protocol: Protocol::from_u16(self.ip_protocol as u16),
            timestamp: self.timestamp,
            data: copy_bytes(&self.data),
            raw_packet: copy_bytes(&self.raw_packet),
        }
    }
}

} // verus!

verus! {

/// The outcome of an intrusion or rate check on a frame.
#[derive(Clone, Copy, Debug, PartialEq, Eq, Structural)]
pub enum AnalyzeResult {
    Accept,
    Reject,
}

} // verus!
