//! The transport header's port words and flags byte.
use vstd::prelude::*;
use crate::bytes::{be16, read_be16};
use crate::types::AnalyzeResult;

verus! {

/// Ports and flags byte of a transport header.
#[derive(Clone, Copy, Debug, PartialEq, Eq, Structural)]
pub struct TransportHeader {
    pub src_port: u16,
    pub dst_port: u16,
    pub flags: u8,
}

/// Offset of the transport header in an IPv4 packet: IHL * 4.
pub open spec fn transport_start(d: Seq<u8>) -> int {
    (d[0] % 16) * 4
}

/// Reads the transport header of an IPv4 packet (starting at its IP
/// header): ports from its first four bytes, flags from its byte 12. The
/// packet is rejected when it is shorter than an IP header or leaves fewer
/// than 14 transport bytes.
pub fn parse_transport_header(data: &[u8]) -> (r: Result<TransportHeader, AnalyzeResult>)
    ensures
        r is Ok <==> data@.len() >= 20 && data@.len() >= transport_start(data@) + 14,
        r is Err ==> r->Err_0 == AnalyzeResult::Reject,
        r is Ok ==> {
            let t = transport_start(data@);
            let h = r->Ok_0;
            &&& h.src_port as int == be16(data@, t)
            &&& h.dst_port as int == be16(data@, t + 2)
            &&& h.flags == data@[t + 12]
        },
{
    if data.len() < 20 {
        return Err(AnalyzeResult::Reject);
    }
    let ihl: usize = ((data[0] % 16) as usize) * 4;
    if data.len() < ihl || data.len() - ihl < 14 {
        return Err(AnalyzeResult::Reject);
    }
    Ok(TransportHeader {
        src_port: read_be16(data, ihl),
        dst_port: read_be16(data, ihl + 2),
        flags: data[ihl + 12],
    })
}

} // verus!
