//! TTL / hop-limit decrement with IPv4 header checksum repair.
use vstd::prelude::*;
use crate::bytes::{be16, read_be16};
use crate::checksum::{checksum_of_sum, sum16, word_sum, write_header_checksum};

verus! {

/// `a - b`, or 0 when `b` exceeds `a`.
pub open spec fn sat_sub(a: u8, b: u8) -> u8 {
    if a >= b {
        (a - b) as u8
    } else {
        0
    }
}

/// Header length in bytes of the IPv4 header at `start`: IHL * 4.
pub open spec fn ihl_bytes(f: Seq<u8>, start: int) -> int {
    (f[start] % 16) * 4
}

/// Whether the IPv4 header at `start` has a valid IHL (at least 5 words, and
/// all of it inside the frame).
pub open spec fn valid_ihl(f: Seq<u8>, start: int) -> bool {
    ihl_bytes(f, start) >= 20 && start + ihl_bytes(f, start) <= f.len()
}

/// `g` is `f` with the IPv4 TTL at `start + 8` set to `ttl` and, when the
/// header lies inside the frame, its checksum recomputed.
pub open spec fn ipv4_rewritten(f: Seq<u8>, g: Seq<u8>, start: int, ttl: u8) -> bool {
    let n = ihl_bytes(f, start);
    let t = f.update(start + 8, ttl);
    &&& g.len() == f.len()
    &&& g[start + 8] == ttl
    &&& forall|j: int| 0 <= j < f.len() && j != start + 8 && j != start + 10 && j != start + 11 ==> g[j] == f[j]
    &&& if start + n <= f.len() {
        be16(g, start + 10) == checksum_of_sum(
            word_sum(t.update(start + 10, 0u8).update(start + 11, 0u8), start, (n / 2) as nat),
        )
    } else {
        g[start + 10] == f[start + 10] && g[start + 11] == f[start + 11]
    }
}

/// Decrements the TTL of IPv4 and the hop limit of IPv6 frames, refusing
/// those already below a minimum.
pub struct TtlHandler {
    pub min_ttl: u8,
    pub ttl_decrease: u8,
}

/// What processing a frame with the given minimum and decrement does:
/// whether it passes, and how the bytes change.
pub open spec fn ttl_processed(f: Seq<u8>, g: Seq<u8>, min_ttl: u8, dec: u8, r: bool) -> bool {
    if f.len() < 14 {
        !r && g == f
    } else if be16(f, 12) == 0x0800 {
        if f.len() < 34 || f[22] < min_ttl {
            !r && g == f
        } else {
            r && ipv4_rewritten(f, g, 14, sat_sub(f[22], dec))
        }
    } else if be16(f, 12) == 0x86DD {
        if f.len() < 54 || f[21] < min_ttl {
            !r && g == f
        } else {
            r && g == f.update(21, sat_sub(f[21], dec))
        }
    } else {
        r && g == f
    }
}

impl TtlHandler {
    pub fn new(min_ttl: u8, ttl_decrease: u8) -> (r: TtlHandler)
        ensures
            r.min_ttl == min_ttl,
            r.ttl_decrease == ttl_decrease,
    {
        TtlHandler { min_ttl, ttl_decrease }
    }

    /// Processes a frame in place. Returns false when the frame is to be
    /// dropped (too short, or TTL / hop limit under the minimum).
    pub fn process_packet(&self, ethernet_frame: &mut [u8]) -> (r: bool)
        ensures
            ttl_processed(old(ethernet_frame)@, final(ethernet_frame)@, self.min_ttl, self.ttl_decrease, r),
    {
        if ethernet_frame.len() < 14 {
            return false;
        }
        let ether_type = read_be16(ethernet_frame, 12);
        if ether_type == 0x0800 {
            self.process_ipv4(ethernet_frame, 14)
        } else if ether_type == 0x86DD {
            self.process_ipv6(ethernet_frame, 14)
        } else {
            true
        }
    }

    fn process_ipv4(&self, f: &mut [u8], start: usize) -> (r: bool)
        requires
            start == 14,
            old(f)@.len() >= 14,
        ensures
            if old(f)@.len() < start + 20 || old(f)@[start + 8] < self.min_ttl {
                !r && final(f)@ == old(f)@
            } else {
                r && ipv4_rewritten(old(f)@, final(f)@, start as int, sat_sub(old(f)@[start + 8], self.ttl_decrease))
            },
    {
        if f.len() < start + 20 {
            return false;
        }
        let current_ttl = f[start + 8];
        if current_ttl < self.min_ttl {
            return false;
        }
        let new_ttl = current_ttl.saturating_sub(self.ttl_decrease);
        f[start + 8] = new_ttl;
        self.recalculate_ipv4_checksum(f, start);
        true
    }

    fn process_ipv6(&self, f: &mut [u8], start: usize) -> (r: bool)
        requires
            start == 14,
        ensures
            if old(f)@.len() < start + 40 || old(f)@[start + 7] < self.min_ttl {
                !r && final(f)@ == old(f)@
            } else {
                r && final(f)@ == old(f)@.update(start + 7, sat_sub(old(f)@[start + 7], self.ttl_decrease))
            },
    {
        if f.len() < start + 40 {
            return false;
        }
        let current_hop_limit = f[start + 7];
        if current_hop_limit < self.min_ttl {
            return false;
        }
        f[start + 7] = current_hop_limit.saturating_sub(self.ttl_decrease);
        true
    }

    /// Recomputes the checksum of the IPv4 header at `start` when the whole
    /// header (IHL * 4 bytes) lies inside the frame.
    fn recalculate_ipv4_checksum(&self, f: &mut [u8], start: usize)
        requires
            start + 20 <= old(f)@.len(),
        ensures
            final(f)@.len() == old(f)@.len(),
            forall|j: int| 0 <= j < old(f)@.len() && j != start + 10 && j != start + 11 ==> final(f)@[j] == old(f)@[j],
            if start + ihl_bytes(old(f)@, start as int) <= old(f)@.len() {
                be16(final(f)@, start + 10) == checksum_of_sum(
                    word_sum(old(f)@.update(start + 10, 0u8).update(start + 11, 0u8), start as int,
                        (ihl_bytes(old(f)@, start as int) / 2) as nat),
                )
            } else {
                final(f)@ == old(f)@
            },
    {
        let ihl: usize = ((f[start] % 16) as usize) * 4;
        if f.len() - start < ihl {
            return;
        }
        write_header_checksum(f, start, ihl);
    }
}

/// After processing an IPv4 frame whose header is valid and whose TTL meets
/// the minimum, the TTL is the old one less the decrement (floored at zero)
/// and the header's one's-complement sum is 0xFFFF.
pub proof fn lemma_ipv4_ttl_and_checksum(f: Seq<u8>, g: Seq<u8>, min_ttl: u8, dec: u8, r: bool)
    requires
        ttl_processed(f, g, min_ttl, dec, r),
        f.len() >= 34,
        be16(f, 12) == 0x0800,
        f[22] >= min_ttl,
        valid_ihl(f, 14),
    ensures
        r,
        g[22] == sat_sub(f[22], dec),
        sum16(g, 14, (ihl_bytes(f, 14) / 2) as nat) == 65535,
{
    let n = ihl_bytes(f, 14);
    let t = f.update(22, sat_sub(f[22], dec));
    let z = t.update(24, 0u8).update(25, 0u8);
    crate::checksum::lemma_word_sum_one_word(z, g, 14, (n / 2) as nat);
    crate::checksum::lemma_word_sum_bounds(z, 14, (n / 2) as nat);
    crate::checksum::lemma_checksum_verifies(
        word_sum(z, 14, (n / 2) as nat),
        word_sum(g, 14, (n / 2) as nat),
    );
}

/// Fixed-decrement TTL processing for IPv4 headers at a known offset.
pub struct TtlProcessor {
    pub max_ttl: u8,
}

impl TtlProcessor {
    pub fn new() -> (r: TtlProcessor)
        ensures
            r.max_ttl == 64,
    {
        TtlProcessor { max_ttl: 64 }
    }

    /// A TTL is valid when it exceeds 1 and does not exceed the maximum.
    pub fn is_valid_ttl(&self, ttl: u8) -> (r: bool)
        ensures
            r == (ttl > 1 && ttl <= self.max_ttl),
    {
        ttl > 1 && ttl <= self.max_ttl
    }

    /// Decrements the TTL of the IPv4 header at `ip_header_offset` by one and
    /// rewrites the checksum over the 20-byte base header.
    pub fn process_packet(&self, packet: &mut [u8], ip_header_offset: usize)
        requires
            ip_header_offset + 20 <= old(packet)@.len(),
            old(packet)@[ip_header_offset + 8] >= 1,
        ensures
            final(packet)@.len() == old(packet)@.len(),
            final(packet)@[ip_header_offset + 8] == old(packet)@[ip_header_offset + 8] - 1,
            forall|j: int|
                0 <= j < old(packet)@.len() && j != ip_header_offset + 8 && j != ip_header_offset + 10
                    && j != ip_header_offset + 11 ==> final(packet)@[j] == old(packet)@[j],
            be16(final(packet)@, ip_header_offset + 10) == checksum_of_sum(
                word_sum(
                    old(packet)@.update(ip_header_offset + 8, (old(packet)@[ip_header_offset + 8] - 1) as u8).update(
                        ip_header_offset + 10,
                        0u8,
                    ).update(ip_header_offset + 11, 0u8),
                    ip_header_offset as int,
                    10,
                ),
            ),
            sum16(final(packet)@, ip_header_offset as int, 10) == 65535,
    {
        let t = packet[ip_header_offset + 8];
        packet[ip_header_offset + 8] = t - 1;
        self.update_ipv4_checksum(packet, ip_header_offset);
    }

    fn update_ipv4_checksum(&self, packet: &mut [u8], start: usize)
        requires
            start + 20 <= old(packet)@.len(),
        ensures
            final(packet)@.len() == old(packet)@.len(),
            forall|j: int| 0 <= j < old(packet)@.len() && j != start + 10 && j != start + 11 ==> final(packet)@[j] == old(packet)@[j],
            be16(final(packet)@, start + 10) == checksum_of_sum(
                word_sum(old(packet)@.update(start + 10, 0u8).update(start + 11, 0u8), start as int, 10),
            ),
            sum16(final(packet)@, start as int, 10) == 65535,
    {
        write_header_checksum(packet, start, 20);
    }
}

} // verus!
