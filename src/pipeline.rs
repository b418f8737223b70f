//! The capture path for one frame: intrusion checks, ARP validation and
//! rate control, duplicate suppression, TTL handling, then the firewall and
//! the write buffer.
use vstd::prelude::*;
use crate::arp::{arp_header_valid, marked, padding_unmarked, parse_arp_packet};
use crate::arp_controller::{arp_event, ArpController};
use crate::bytes::{be16, ipv4_at, read_be16, read_ipv4};
use crate::clock::now_millis;
use crate::dedup::{duplicate_step, DuplicateChecker};
use crate::errors::MonitorError;
use crate::idps::{enabled, inspect, violates, IDPSConfig, Violation};
use crate::metrics::{bump, recorded, PacketMetrics};
use crate::decoder::{decode_frame, network_layer_of};
use crate::ttl::{ttl_processed, TtlHandler};
use crate::types::{AnalyzeResult, ETHER_TYPE_ARP};
use crate::writer::{writer_step, PacketWriter};

verus! {

/// Why a frame was dropped before the firewall.
#[derive(Clone, Copy, Debug, PartialEq, Eq, Structural)]
pub enum DropReason {
    Intrusion(Violation),
    InvalidArp,
    ArpRate,
    Duplicate,
    Ttl,
}

/// What became of a frame.
#[derive(Clone, Copy, Debug, PartialEq, Eq, Structural)]
pub enum FrameOutcome {
    /// Admitted by the firewall and buffered for the store.
    Buffered,
    /// Denied by the firewall.
    Blocked,
    Dropped(DropReason),
}

/// Whether the detector rejects the frame: it is on, blocking, and an
/// enabled rule is broken.
pub open spec fn intrusion_blocks(cfg: &IDPSConfig, f: Seq<u8>) -> bool {
    cfg.enabled && cfg.block_violations && exists|v: Violation| enabled(&cfg.rules, v) && violates(v, f)
}

pub open spec fn is_arp_frame(f: Seq<u8>) -> bool {
    be16(f, 12) == 0x0806
}

/// An ARP frame that validation accepts.
pub open spec fn arp_acceptable(f: Seq<u8>) -> bool {
    f.len() >= 42 && arp_header_valid(f) && padding_unmarked(f)
}

/// The stages after the intrusion check and ARP validation, given their
/// results: `f` is the frame (its padding is marked when it is ARP), `pa`
/// the rate controller's decision, `d` the duplicate check's, `h` the
/// frame after TTL handling and `pt` that handler's decision, `w` the
/// firewall's. Each stage leaves later stages untouched once one drops
/// the frame.
pub open spec fn later_stages(
    c: CapturePipeline,
    n: CapturePipeline,
    f: Seq<u8>,
    now: i64,
    r: FrameOutcome,
    pa: bool,
    d: Option<AnalyzeResult>,
    h: Seq<u8>,
    pt: bool,
    w: bool,
) -> bool {
    let g = if is_arp_frame(f) { marked(f) } else { f };
    &&& if is_arp_frame(g) {
        arp_event(c.arp, n.arp, ipv4_at(g, 28), ipv4_at(g, 38), now, pa)
    } else {
        pa && n.arp == c.arp
    }
    &&& if !pa {
        r == FrameOutcome::Dropped(DropReason::ArpRate) && n.dedup == c.dedup && n.writer == c.writer
    } else {
        &&& duplicate_step(c.dedup, n.dedup, g, now, d)
        &&& if d is Some {
            r == FrameOutcome::Dropped(DropReason::Duplicate) && n.writer == c.writer
        } else {
            &&& ttl_processed(g, h, c.ttl.min_ttl, c.ttl.ttl_decrease, pt)
            &&& if !pt {
                r == FrameOutcome::Dropped(DropReason::Ttl) && n.writer == c.writer
            } else {
                writer_step(c.writer, n.writer, h, now, w) && r == (if w {
                    FrameOutcome::Buffered
                } else {
                    FrameOutcome::Blocked
                })
            }
        }
    }
}

/// The counters after frame `f` met outcome `r`: a frame too short to
/// parse counts as a parse error; any other is recorded by its protocols,
/// then counted as dropped, or as processed and allowed or blocked.
pub open spec fn counted(m: PacketMetrics, f: Seq<u8>, r: Result<FrameOutcome, MonitorError>) -> PacketMetrics {
    if f.len() < 14 {
        PacketMetrics { parse_errors: bump(m.parse_errors), ..m }
    } else {
        let m1 = recorded(m, be16(f, 12) as i32, network_layer_of(f).ip_protocol.0);
        match r {
            Ok(FrameOutcome::Buffered) => PacketMetrics {
                processed_packets: bump(m1.processed_packets),
                allowed_packets: bump(m1.allowed_packets),
                ..m1
            },
            Ok(FrameOutcome::Blocked) => PacketMetrics {
                processed_packets: bump(m1.processed_packets),
                blocked_packets: bump(m1.blocked_packets),
                ..m1
            },
            Ok(FrameOutcome::Dropped(_)) => PacketMetrics { dropped_packets: bump(m1.dropped_packets), ..m1 },
            Err(_) => m1,
        }
    }
}

/// What the capture path does to frame `f` at `now`: `c` before, `n` after.
pub open spec fn capture_step(c: CapturePipeline, n: CapturePipeline, f: Seq<u8>, now: i64, r: Result<FrameOutcome, MonitorError>) -> bool {
    &&& n.idps == c.idps
    &&& n.ttl == c.ttl
    &&& n.metrics == counted(c.metrics, f, r)
    &&& if f.len() < 14 {
        r == Err::<FrameOutcome, MonitorError>(MonitorError::InvalidPacketSize) && n.arp == c.arp && n.dedup == c.dedup
            && n.writer == c.writer
    } else if intrusion_blocks(&c.idps, f) {
        &&& r is Ok && r->Ok_0 is Dropped && r->Ok_0->Dropped_0 is Intrusion
        &&& enabled(&c.idps.rules, r->Ok_0->Dropped_0->Intrusion_0)
        &&& violates(r->Ok_0->Dropped_0->Intrusion_0, f)
        &&& n.arp == c.arp && n.dedup == c.dedup && n.writer == c.writer
    } else if is_arp_frame(f) && !arp_acceptable(f) {
        r == Ok::<FrameOutcome, MonitorError>(FrameOutcome::Dropped(DropReason::InvalidArp)) && n.arp == c.arp
            && n.dedup == c.dedup && n.writer == c.writer
    } else {
        exists|o: FrameOutcome, pa: bool, d: Option<AnalyzeResult>, h: Seq<u8>, pt: bool, w: bool|
            r == Ok::<FrameOutcome, MonitorError>(o) && #[trigger] later_stages(c, n, f, now, o, pa, d, h, pt, w)
    }
}

/// The stages of the capture path and their state.
pub struct CapturePipeline {
    pub idps: IDPSConfig,
    pub arp: ArpController,
    pub dedup: DuplicateChecker,
    pub ttl: TtlHandler,
    pub writer: PacketWriter,
    pub metrics: PacketMetrics,
}

impl CapturePipeline {
    pub open spec fn wf(&self) -> bool {
        self.arp.wf() && self.writer.wf()
    }

    /// A path with fresh ARP, duplicate and write state and the default
    /// write-side firewall.
    pub fn new(idps: IDPSConfig, ttl: TtlHandler, now: i64) -> (r: CapturePipeline)
        ensures
            r.wf(),
            r.writer.buffer@.len() == 0,
    {
        CapturePipeline {
            idps,
            arp: ArpController::new(),
            dedup: DuplicateChecker::new_at(now),
            ttl,
            writer: PacketWriter::new(),
            metrics: PacketMetrics::new(),
        }
    }

    /// Runs one captured frame, received at `now` (ms), through the path.
    /// Frames shorter than an Ethernet header are an error.
    pub fn process_frame_at(&mut self, frame: Vec<u8>, now: i64) -> (r: Result<FrameOutcome, MonitorError>)
        requires
            old(self).wf(),
        ensures
            final(self).wf(),
            capture_step(*old(self), *final(self), frame@, now, r),
    {
        if frame.len() < 14 {
            self.metrics.record_parse_error();
            return Err(MonitorError::InvalidPacketSize);
        }
        let ghost f0 = frame@;
        let ghost c = *self;
        let decoded = decode_frame(&frame, now);
        self.metrics.record_packet(&decoded);
        let (res, viol) = inspect(&self.idps, &frame);
        if let Some(v) = viol {
            if res == AnalyzeResult::Reject {
                self.metrics.record_dropped();
                return Ok(FrameOutcome::Dropped(DropReason::Intrusion(v)));
            }
        }
        assert(!intrusion_blocks(&self.idps, f0)) by {
            if viol is None && self.idps.enabled {
                assert(forall|v: Violation| enabled(&self.idps.rules, v) ==> !violates(v, f0));
            }
        }
        let mut frame = frame;
        let is_arp = read_be16(&frame, 12) == ETHER_TYPE_ARP;
        let mut pa = true;
        if is_arp {
            match parse_arp_packet(&frame) {
                Ok(Some(m)) => {
                    frame = m;
                },
                _ => {
                    self.metrics.record_dropped();
                    return Ok(FrameOutcome::Dropped(DropReason::InvalidArp));
                },
            }
            let sender = read_ipv4(&frame, 28);
            let target = read_ipv4(&frame, 38);
            pa = self.arp.should_process_at(sender, target, now);
        }
        let ghost g = frame@;
        assert(g == (if is_arp_frame(f0) { marked(f0) } else { f0 }));
        assert(is_arp_frame(g) == is_arp_frame(f0));
        if !pa {
            self.metrics.record_dropped();
            assert(later_stages(c, *self, f0, now, FrameOutcome::Dropped(DropReason::ArpRate), pa, None, g, true, true));
            return Ok(FrameOutcome::Dropped(DropReason::ArpRate));
        }
        let d = self.dedup.check_packet_at(&frame, now);
        if d.is_some() {
            self.metrics.record_dropped();
            assert(later_stages(c, *self, f0, now, FrameOutcome::Dropped(DropReason::Duplicate), pa, d, g, true, true));
            return Ok(FrameOutcome::Dropped(DropReason::Duplicate));
        }
        let pt = self.ttl.process_packet(frame.as_mut_slice());
        let ghost h = frame@;
        if !pt {
            self.metrics.record_dropped();
            assert(later_stages(c, *self, f0, now, FrameOutcome::Dropped(DropReason::Ttl), pa, d, h, pt, true));
            return Ok(FrameOutcome::Dropped(DropReason::Ttl));
        }
        let admitted = self.writer.process_packet_at(frame.as_slice(), now);
        self.metrics.record_processed();
        self.metrics.record_decision(admitted);
        let out = if admitted {
            FrameOutcome::Buffered
        } else {
            FrameOutcome::Blocked
        };
        assert(later_stages(c, *self, f0, now, out, pa, d, h, pt, admitted));
        Ok(out)
    }

    /// Runs one captured frame through the path, stamped with the current time.
    pub fn process_frame(&mut self, frame: Vec<u8>) -> (r: Result<FrameOutcome, MonitorError>)
        requires
            old(self).wf(),
        ensures
            final(self).wf(),
            exists|now: i64| capture_step(*old(self), *final(self), frame@, now, r),
    {
        let now = now_millis();
        self.process_frame_at(frame, now)
    }
}

} // verus!
