//! ARP header validation and the one-bit "already processed" padding marker.
use vstd::prelude::*;
use crate::bytes::{be16, read_be16};
use crate::decoder::copy_all;
use crate::types::AnalyzeResult;

verus! {

/// Ethernet header, ARP fixed header and the four addresses: 14 + 8 + 20.
pub const MIN_ARP_PACKET_SIZE: usize = 42;

/// Hardware type Ethernet (1), protocol type IPv4 (0x0800), address lengths 6 and 4.
pub open spec fn arp_header_valid(f: Seq<u8>) -> bool {
    &&& be16(f, 14) == 1
    &&& be16(f, 16) == 0x0800
    &&& f[18] == 6
    &&& f[19] == 4
}

/// The padding after the ARP body is unmarked: the marker byte and all that
/// follow are zero (trivially so when there is no padding).
pub open spec fn padding_unmarked(f: Seq<u8>) -> bool {
    forall|j: int| 42 <= j < f.len() ==> f[j] == 0
}

/// The frame with its padding marker set, when it has padding.
pub open spec fn marked(f: Seq<u8>) -> Seq<u8> {
    if f.len() > 42 {
        f.update(42, 1u8)
    } else {
        f
    }
}

/// Checks that the padding is unmarked and zero, then sets the marker byte.
pub fn validate_and_mark_padding(frame: &mut Vec<u8>) -> (r: Result<(), AnalyzeResult>)
    ensures
        r is Ok <==> padding_unmarked(old(frame)@),
        r is Ok ==> final(frame)@ == marked(old(frame)@),
        r is Err ==> r == Err::<(), AnalyzeResult>(AnalyzeResult::Reject) && final(frame)@ == old(frame)@,
{
    if frame.len() <= MIN_ARP_PACKET_SIZE {
        return Ok(());
    }
    let marker = frame[MIN_ARP_PACKET_SIZE];
    if marker != 0 && marker != 1 {
        return Err(AnalyzeResult::Reject);
    }
    if marker == 1 {
        return Err(AnalyzeResult::Reject);
    }
    let mut i: usize = MIN_ARP_PACKET_SIZE + 1;
    while i < frame.len()
        invariant
            43 <= i <= frame@.len(),
            frame@ == old(frame)@,
            frame@[42] == 0,
            forall|j: int| 42 <= j < i ==> frame@[j] == 0,
        decreases frame@.len() - i,
    {
        if frame[i] != 0 {
            return Err(AnalyzeResult::Reject);
        }
        i = i + 1;
    }
    frame.set(MIN_ARP_PACKET_SIZE, 1);
    Ok(())
}

/// Validates an ARP frame. On acceptance returns a copy with the padding
/// marker set; frames too short, with a foreign header, or with marked or
/// dirty padding are rejected.
pub fn parse_arp_packet(ethernet_frame: &[u8]) -> (r: Result<Option<Vec<u8>>, AnalyzeResult>)
    ensures
        r is Ok <==> ethernet_frame@.len() >= 42 && arp_header_valid(ethernet_frame@) && padding_unmarked(
            ethernet_frame@,
        ),
        r is Ok ==> r->Ok_0 is Some && r->Ok_0->Some_0@ == marked(ethernet_frame@),
        r is Err ==> r->Err_0 == AnalyzeResult::Reject,
{
    if ethernet_frame.len() < MIN_ARP_PACKET_SIZE {
        return Err(AnalyzeResult::Reject);
    }
    let hardware_type = read_be16(ethernet_frame, 14);
    if hardware_type != 1 {
        return Err(AnalyzeResult::Reject);
    }
    let protocol_type = read_be16(ethernet_frame, 16);
    if protocol_type != 0x0800 {
        return Err(AnalyzeResult::Reject);
    }
    if ethernet_frame[18] != 6 {
        return Err(AnalyzeResult::Reject);
    }
    if ethernet_frame[19] != 4 {
        return Err(AnalyzeResult::Reject);
    }
    let mut frame = copy_all(ethernet_frame);
    match validate_and_mark_padding(&mut frame) {
        Ok(()) => Ok(Some(frame)),
        Err(e) => Err(e),
    }
}

} // verus!
