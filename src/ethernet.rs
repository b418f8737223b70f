//! The Ethernet header.
use vstd::prelude::*;
use vstd::slice::slice_subrange;
use crate::bytes::{be16, read_be16};
use crate::types::{EtherType, MacAddr};

verus! {

/// Addresses and EtherType of an Ethernet frame.
#[derive(Clone, Copy, Debug, PartialEq, Eq, Structural)]
pub struct EthernetHeader {
    pub src_mac: MacAddr,
    pub dst_mac: MacAddr,
    pub ether_type: EtherType,
}

/// Source and destination MAC addresses: bytes [6, 12) and [0, 6).
pub fn extract_mac_addresses(f: &[u8]) -> (r: (MacAddr, MacAddr))
    requires
        f@.len() >= 12,
    ensures
        r.0@ == f@.subrange(6, 12),
        r.1@ == f@.subrange(0, 6),
{
    let dst = MacAddr(f[0], f[1], f[2], f[3], f[4], f[5]);
    let src = MacAddr(f[6], f[7], f[8], f[9], f[10], f[11]);
    assert(src@ =~= f@.subrange(6, 12));
    assert(dst@ =~= f@.subrange(0, 6));
    (src, dst)
}

/// The big-endian EtherType at bytes 12 and 13.
pub fn parse_ether_type(f: &[u8]) -> (r: EtherType)
    requires
        f@.len() >= 14,
    ensures
        r.0 as int == be16(f@, 12),
{
    EtherType::from(read_be16(f, 12))
}

/// Splits a frame into its Ethernet header and the bytes after it; `None`
/// for frames shorter than 14 bytes.
pub fn parse_ethernet_header(frame: &[u8]) -> (r: Option<(EthernetHeader, &[u8])>)
    ensures
        frame@.len() < 14 <==> r is None,
        r is Some ==> {
            let (h, rest) = r->Some_0;
            &&& h.dst_mac@ == frame@.subrange(0, 6)
            &&& h.src_mac@ == frame@.subrange(6, 12)
            &&& h.ether_type.0 as int == be16(frame@, 12)
            &&& rest@ == frame@.subrange(14, frame@.len() as int)
        },
{
    if frame.len() < 14 {
        return None;
    }
    let (src_mac, dst_mac) = extract_mac_addresses(frame);
    let ether_type = parse_ether_type(frame);
    let rest = slice_subrange(frame, 14, frame.len());
    Some((EthernetHeader { src_mac, dst_mac, ether_type }, rest))
}

} // verus!
