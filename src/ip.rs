//! The IP header of an IPv4 or IPv6 packet.
use vstd::prelude::*;
use crate::bytes::{ipv4_at, ipv6_at, read_ipv4, read_ipv6};
use crate::types::{InetAddr, IpProtocol};

verus! {

#[derive(Clone, Copy, Debug, PartialEq, Eq, Structural)]
pub enum IpVersion {
    V4,
    V6,
}

/// Version, protocol, addresses and header length of an IP packet.
#[derive(Clone, Copy, Debug, PartialEq, Eq, Structural)]
pub struct IpHeader {
    pub version: IpVersion,
    pub ip_protocol: IpProtocol,
    pub src_ip: InetAddr,
    pub dst_ip: InetAddr,
    pub header_length: usize,
}

/// The header of the IP packet `d`, by the version nibble of its first
/// byte: IPv4 needs 20 bytes (protocol at 9, addresses at 12 and 16, length
/// IHL * 4), IPv6 needs 40 (next header at 6, addresses at 8 and 24, length
/// 40). Anything else has none.
pub open spec fn ip_header_of(d: Seq<u8>) -> Option<IpHeader> {
    if d.len() >= 20 && d[0] / 16 == 4 {
        Some(
            IpHeader {
                version: IpVersion::V4,
                ip_protocol: IpProtocol(d[9]),
                src_ip: ipv4_at(d, 12),
                dst_ip: ipv4_at(d, 16),
                header_length: ((d[0] % 16) * 4) as usize,
            },
        )
    } else if d.len() >= 40 && d[0] / 16 == 6 {
        Some(
            IpHeader {
                version: IpVersion::V6,
                ip_protocol: IpProtocol(d[6]),
                src_ip: ipv6_at(d, 8),
                dst_ip: ipv6_at(d, 24),
                header_length: 40,
            },
        )
    } else {
        None
    }
}

pub fn parse_ip_header(data: &[u8]) -> (r: Option<IpHeader>)
    ensures
        r == ip_header_of(data@),
{
    if data.len() == 0 {
        return None;
    }
    let version = data[0] / 16;
    if version == 4 && data.len() >= 20 {
        Some(
            IpHeader {
                version: IpVersion::V4,
                ip_protocol: IpProtocol::from(data[9]),
                src_ip: read_ipv4(data, 12),
                dst_ip: read_ipv4(data, 16),
                header_length: ((data[0] % 16) as usize) * 4,
            },
        )
    } else if version == 6 && data.len() >= 40 {
        Some(
            IpHeader {
                version: IpVersion::V6,
                ip_protocol: IpProtocol::from(data[6]),
                src_ip: read_ipv6(data, 8),
                dst_ip: read_ipv6(data, 24),
                header_length: 40,
            },
        )
    } else {
        None
    }
}

} // verus!
