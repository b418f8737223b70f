//! Short-horizon suppression of repeated frames and packet identities.
use vstd::prelude::*;
use crate::bytes::{ipv4_at, read_ipv4};
use crate::clock::now_millis;
use crate::decoder::copy_all;
use crate::types::{AnalyzeResult, InetAddr};

verus! {

/// Interval after which the frame history is cleared, in milliseconds.
pub const FRAME_CLEANUP_INTERVAL_MS: i64 = 5000;
/// Capacity of the identity cache; reaching it clears the cache.
pub const MAX_CACHE_SIZE: usize = 10000;
/// Age after which identities are swept, in seconds.
pub const CLEANUP_INTERVAL_SECS: u64 = 60;

/// A frame's fingerprint: its IPv4 addresses and its full bytes.
pub struct FrameFingerprint {
    pub src_ip: InetAddr,
    pub dst_ip: InetAddr,
    pub frame_content: Vec<u8>,
}

/// The abstract fingerprint of a frame of at least 34 bytes.
pub open spec fn fingerprint_of(f: Seq<u8>) -> (InetAddr, InetAddr, Seq<u8>) {
    (ipv4_at(f, 26), ipv4_at(f, 30), f)
}

impl FrameFingerprint {
    pub open spec fn view(&self) -> (InetAddr, InetAddr, Seq<u8>) {
        (self.src_ip, self.dst_ip, self.frame_content@)
    }
}

/// Milliseconds from `start` to `now`; zero when the clock went back.
pub open spec fn elapsed_ms(now: i64, start: i64) -> int {
    if now > start {
        now - start
    } else {
        0
    }
}

/// Byte-wise equality.
fn same_bytes(a: &Vec<u8>, b: &[u8]) -> (r: bool)
    ensures
        r == (a@ == b@),
{
    if a.len() != b.len() {
        return false;
    }
    let mut i: usize = 0;
    while i < a.len()
        invariant
            i <= a@.len(),
            a@.len() == b@.len(),
            forall|k: int| 0 <= k < i ==> a@[k] == b@[k],
        decreases a@.len() - i,
    {
        if a[i] != b[i] {
            return false;
        }
        i = i + 1;
    }
    assert(a@ =~= b@);
    true
}

/// Suppresses identical frames seen within the cleanup interval.
pub struct DuplicateChecker {
    pub packet_history: Vec<FrameFingerprint>,
    pub cleanup_interval: i64,
    pub last_cleanup: i64,
}

/// What checking frame `f` at `now` does: the history is cleared once the
/// interval has passed; then a frame of at least 34 bytes whose fingerprint
/// is held is rejected, any other such frame recorded; shorter frames pass
/// unrecorded.
pub open spec fn duplicate_step(c: DuplicateChecker, d: DuplicateChecker, f: Seq<u8>, now: i64, r: Option<AnalyzeResult>) -> bool {
    let cleared = elapsed_ms(now, c.last_cleanup) >= c.cleanup_interval;
    let h = if cleared { Seq::<(InetAddr, InetAddr, Seq<u8>)>::empty() } else { c.history() };
    &&& d.cleanup_interval == c.cleanup_interval
    &&& d.last_cleanup == (if cleared { now } else { c.last_cleanup })
    &&& if f.len() < 34 {
        r is None && d.history() == h
    } else if h.contains(fingerprint_of(f)) {
        r == Some(AnalyzeResult::Reject) && d.history() == h
    } else {
        r is None && d.history() == h.push(fingerprint_of(f))
    }
}

impl DuplicateChecker {
    /// The fingerprints held.
    pub open spec fn history(&self) -> Seq<(InetAddr, InetAddr, Seq<u8>)> {
        self.packet_history@.map_values(|p: FrameFingerprint| p@)
    }

    pub fn new_at(now: i64) -> (r: DuplicateChecker)
        ensures
            r.history().len() == 0,
            r.cleanup_interval == FRAME_CLEANUP_INTERVAL_MS,
            r.last_cleanup == now,
    {
        DuplicateChecker { packet_history: Vec::new(), cleanup_interval: FRAME_CLEANUP_INTERVAL_MS, last_cleanup: now }
    }

    pub fn new() -> (r: DuplicateChecker)
        ensures
            r.history().len() == 0,
            r.cleanup_interval == FRAME_CLEANUP_INTERVAL_MS,
    {
        DuplicateChecker::new_at(now_millis())
    }

    /// Clears the history when the interval has passed since the last clear.
    fn maybe_cleanup(&mut self, now: i64)
        ensures
            final(self).cleanup_interval == old(self).cleanup_interval,
            if elapsed_ms(now, old(self).last_cleanup) >= old(self).cleanup_interval {
                final(self).history() == Seq::<(InetAddr, InetAddr, Seq<u8>)>::empty() && final(self).last_cleanup == now
            } else {
                final(self).history() == old(self).history() && final(self).last_cleanup == old(self).last_cleanup
            },
    {
        let el: i128 = if now > self.last_cleanup {
            now as i128 - self.last_cleanup as i128
        } else {
            0
        };
        if el >= self.cleanup_interval as i128 {
            self.cleanup(now);
        }
    }

    fn cleanup(&mut self, now: i64)
        ensures
            final(self).history() == Seq::<(InetAddr, InetAddr, Seq<u8>)>::empty(),
            final(self).last_cleanup == now,
            final(self).cleanup_interval == old(self).cleanup_interval,
    {
        self.packet_history.clear();
        self.last_cleanup = now;
        assert(self.history() =~= Seq::<(InetAddr, InetAddr, Seq<u8>)>::empty());
    }

    /// Whether the history holds the fingerprint of `frame`.
    fn contains_frame(&self, frame: &[u8]) -> (r: bool)
        requires
            frame@.len() >= 34,
        ensures
            r == self.history().contains(fingerprint_of(frame@)),
    {
        let src = read_ipv4(frame, 26);
        let dst = read_ipv4(frame, 30);
        let mut i: usize = 0;
        while i < self.packet_history.len()
            invariant
                i <= self.packet_history@.len(),
                src == ipv4_at(frame@, 26),
                dst == ipv4_at(frame@, 30),
                forall|k: int| 0 <= k < i ==> self.history()[k] != fingerprint_of(frame@),
            decreases self.packet_history@.len() - i,
        {
            let p = &self.packet_history[i];
            if p.src_ip == src && p.dst_ip == dst && same_bytes(&p.frame_content, frame) {
                assert(self.history()[i as int] == fingerprint_of(frame@));
                return true;
            }
            i = i + 1;
        }
        false
    }

    /// Checks a frame at time `now`: after clearing an expired history, a
    /// frame whose fingerprint is held is rejected; any other frame of at
    /// least 34 bytes is recorded and passes (`None`). Shorter frames pass
    /// unrecorded.
    pub fn check_packet_at(&mut self, ethernet_frame: &[u8], now: i64) -> (r: Option<AnalyzeResult>)
        ensures
            duplicate_step(*old(self), *final(self), ethernet_frame@, now, r),
    {
        self.maybe_cleanup(now);
        if ethernet_frame.len() < 34 {
            return None;
        }
        if self.contains_frame(ethernet_frame) {
            return Some(AnalyzeResult::Reject);
        }
        let fp = FrameFingerprint {
            src_ip: read_ipv4(ethernet_frame, 26),
            dst_ip: read_ipv4(ethernet_frame, 30),
            frame_content: copy_all(ethernet_frame),
        };
        let ghost h0 = self.history();
        self.packet_history.push(fp);
        assert(self.history() =~= h0.push(fingerprint_of(ethernet_frame@)));
        None
    }

    /// Checks a frame at the current time.
    pub fn check_packet(&mut self, ethernet_frame: &[u8]) -> (r: Option<AnalyzeResult>)
        ensures
            exists|now: i64| duplicate_step(*old(self), *final(self), ethernet_frame@, now, r),
    {
        let now = now_millis();
        self.check_packet_at(ethernet_frame, now)
    }
}

/// The identity of a packet for post-decode duplicate detection; the
/// timestamp is in whole seconds since the epoch.
#[derive(Clone, Copy, Debug, PartialEq, Eq, Structural, Hash)]
pub struct PacketIdentifier {
    pub src_ip: InetAddr,
    pub dst_ip: InetAddr,
    pub src_port: u16,
    pub dst_port: u16,
    pub protocol: u8,
    pub timestamp: u64,
}

impl PacketIdentifier {
    pub fn new_at(src_ip: InetAddr, dst_ip: InetAddr, protocol: u8, src_port: u16, dst_port: u16, timestamp: u64) -> (r:
        PacketIdentifier)
        ensures
            r == (PacketIdentifier { src_ip, dst_ip, src_port, dst_port, protocol, timestamp }),
    {
        PacketIdentifier { src_ip, dst_ip, src_port, dst_port, protocol, timestamp }
    }

    /// An identity stamped with the current second.
    pub fn new(src_ip: InetAddr, dst_ip: InetAddr, protocol: u8, src_port: u16, dst_port: u16) -> (r: PacketIdentifier)
        ensures
            r.src_ip == src_ip && r.dst_ip == dst_ip && r.protocol == protocol,
            r.src_port == src_port && r.dst_port == dst_port,
    {
        let ms = now_millis();
        let secs: u64 = (ms / 1000) as u64;
        PacketIdentifier::new_at(src_ip, dst_ip, protocol, src_port, dst_port, secs)
    }
}

/// A bounded cache of recent packet identities.
pub struct PacketTracker {
    pub recent_packets: Vec<PacketIdentifier>,
    pub last_cleanup: u64,
}

/// Seconds from `start` to `now`; zero when the clock went back.
pub open spec fn elapsed_secs(now: u64, start: u64) -> int {
    if now > start {
        now - start
    } else {
        0
    }
}

impl PacketTracker {
    /// No identity held twice, and below capacity.
    pub open spec fn wf(&self) -> bool {
        &&& self.recent_packets@.no_duplicates()
        &&& self.recent_packets@.len() <= MAX_CACHE_SIZE
    }

    pub fn new_at(now_secs: u64) -> (r: PacketTracker)
        ensures
            r.wf(),
            r.recent_packets@.len() == 0,
            r.last_cleanup == now_secs,
    {
        PacketTracker { recent_packets: Vec::new(), last_cleanup: now_secs }
    }

    /// Whether the identity was seen; an unseen one is recorded, the cache
    /// being cleared first when full.
    pub fn is_duplicate(&mut self, identifier: &PacketIdentifier) -> (r: bool)
        requires
            old(self).wf(),
        ensures
            final(self).wf(),
            final(self).last_cleanup == old(self).last_cleanup,
            r == old(self).recent_packets@.contains(*identifier),
            r ==> final(self).recent_packets@ == old(self).recent_packets@,
            !r && old(self).recent_packets@.len() >= MAX_CACHE_SIZE ==> final(self).recent_packets@ == seq![*identifier],
            !r && old(self).recent_packets@.len() < MAX_CACHE_SIZE ==> final(self).recent_packets@
                == old(self).recent_packets@.push(*identifier),
    {
        let mut i: usize = 0;
        while i < self.recent_packets.len()
            invariant
                i <= self.recent_packets@.len(),
                *self == *old(self),
                self.wf(),
                forall|k: int| 0 <= k < i ==> self.recent_packets@[k] != *identifier,
            decreases self.recent_packets@.len() - i,
        {
            if self.recent_packets[i] == *identifier {
                assert(self.recent_packets@[i as int] == *identifier);
                return true;
            }
            i = i + 1;
        }
        if self.recent_packets.len() >= MAX_CACHE_SIZE {
            self.recent_packets.clear();
        }
        self.recent_packets.push(*identifier);
        proof {
            assert(self.recent_packets@.no_duplicates()) by {
                let s = self.recent_packets@;
                assert forall|a: int, b: int| 0 <= a < s.len() && 0 <= b < s.len() && a != b implies s[a] != s[b] by {
                    if a == s.len() - 1 || b == s.len() - 1 {
                    }
                }
            }
            if old(self).recent_packets@.len() >= MAX_CACHE_SIZE {
                assert(self.recent_packets@ =~= seq![*identifier]);
            }
        }
        false
    }

    /// At time `now_secs`, once the sweep interval has passed since the last
    /// sweep, drops identities at least that old and records the sweep.
    pub fn cleanup_if_needed_at(&mut self, now_secs: u64)
        requires
            old(self).wf(),
        ensures
            final(self).wf(),
            elapsed_secs(now_secs, old(self).last_cleanup) < CLEANUP_INTERVAL_SECS ==> *final(self) == *old(self),
            elapsed_secs(now_secs, old(self).last_cleanup) >= CLEANUP_INTERVAL_SECS ==> {
                &&& final(self).last_cleanup == now_secs
                &&& forall|p: PacketIdentifier| #[trigger]
                    final(self).recent_packets@.contains(p) <==> old(self).recent_packets@.contains(p)
                        && elapsed_secs(now_secs, p.timestamp) < CLEANUP_INTERVAL_SECS
            },
    {
        let el: u64 = if now_secs > self.last_cleanup {
            now_secs - self.last_cleanup
        } else {
            0
        };
        if el < CLEANUP_INTERVAL_SECS {
            return;
        }
        let ghost old_s = self.recent_packets@;
        let mut kept: Vec<PacketIdentifier> = Vec::new();
        let mut i: usize = 0;
        while i < self.recent_packets.len()
            invariant
                i <= self.recent_packets@.len(),
                self.recent_packets@ == old_s,
                old_s.no_duplicates(),
                kept@.len() <= i,
                kept@.no_duplicates(),
                forall|a: int| 0 <= a < kept@.len() ==> exists|b: int| 0 <= b < i && #[trigger] kept@[a] == old_s[b],
                forall|p: PacketIdentifier| #[trigger]
                    kept@.contains(p) <==> old_s.subrange(0, i as int).contains(p) && elapsed_secs(now_secs, p.timestamp)
                        < CLEANUP_INTERVAL_SECS,
            decreases self.recent_packets@.len() - i,
        {
            let p = self.recent_packets[i];
            let age: u64 = if now_secs > p.timestamp {
                now_secs - p.timestamp
            } else {
                0
            };
            let ghost before = kept@;
            if age < CLEANUP_INTERVAL_SECS {
                kept.push(p);
            }
            proof {
                let ii = i as int;
                let sub = old_s.subrange(0, ii);
                let sub2 = old_s.subrange(0, ii + 1);
                assert(sub2 =~= sub.push(p));
                assert forall|q: PacketIdentifier| #[trigger]
                    kept@.contains(q) <==> sub2.contains(q) && elapsed_secs(now_secs, q.timestamp)
                        < CLEANUP_INTERVAL_SECS by {
                    if kept@.contains(q) {
                        let idx = choose|idx: int| 0 <= idx < kept@.len() && kept@[idx] == q;
                        if idx < before.len() {
                            assert(before[idx] == q);
                            assert(before.contains(q));
                            let k = choose|k: int| 0 <= k < sub.len() && sub[k] == q;
                            assert(sub2[k] == q);
                        } else {
                            assert(sub2[ii] == q);
                        }
                    }
                    if sub2.contains(q) && elapsed_secs(now_secs, q.timestamp) < CLEANUP_INTERVAL_SECS {
                        let k = choose|k: int| 0 <= k < sub2.len() && sub2[k] == q;
                        if k < ii {
                            assert(sub[k] == q);
                            assert(before.contains(q));
                            let m = choose|m: int| 0 <= m < before.len() && before[m] == q;
                            assert(kept@[m] == q);
                        } else {
                            assert(kept@[kept@.len() - 1] == q);
                        }
                    }
                }
                assert forall|a: int| 0 <= a < kept@.len() implies exists|b: int|
                    0 <= b < ii + 1 && #[trigger] kept@[a] == old_s[b] by {
                    if a < before.len() {
                        assert(kept@[a] == before[a]);
                        let b = choose|b: int| 0 <= b < ii && before[a] == old_s[b];
                        assert(kept@[a] == old_s[b]);
                    } else {
                        assert(kept@[a] == old_s[ii]);
                    }
                }
                if age < CLEANUP_INTERVAL_SECS {
                    assert forall|a: int, b: int| 0 <= a < kept@.len() && 0 <= b < kept@.len() && a != b implies kept@[a]
                        != kept@[b] by {
                        if a == before.len() as int {
                            let x = choose|x: int| 0 <= x < ii && before[b] == old_s[x];
                            assert(kept@[b] == before[b]);
                        } else if b == before.len() as int {
                            let x = choose|x: int| 0 <= x < ii && before[a] == old_s[x];
                            assert(kept@[a] == before[a]);
                        } else {
                            assert(kept@[a] == before[a] && kept@[b] == before[b]);
                        }
                    }
                }
            }
            i = i + 1;
        }
        assert(old_s.subrange(0, old_s.len() as int) =~= old_s);
        self.recent_packets = kept;
        self.last_cleanup = now_secs;
    }
}

} // verus!
