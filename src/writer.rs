//! The write path: admit decoded frames through the firewall into a buffer,
//! and drain the buffer in insert-sized batches.
use vstd::prelude::*;
use crate::clock::now_millis;
use crate::decoder::{decode_frame, decoded_from};
use crate::firewall::{ip_version_of, verdict, Filter, FirewallPacket, IpFirewall, Policy, Rule};
use crate::types::{InetAddr, PacketData};

verus! {

/// Rows per bulk insert statement.
pub const CHUNK_SIZE: usize = 1000;
/// Interval between writer ticks, in milliseconds.
pub const FLUSH_INTERVAL_MS: u64 = 100;

/// An ordered in-memory queue of accepted packets.
pub struct PacketBuffer {
    pub packets: Vec<PacketData>,
}

impl PacketBuffer {
    pub open spec fn view(&self) -> Seq<PacketData> {
        self.packets@
    }

    pub fn new() -> (r: PacketBuffer)
        ensures
            r@.len() == 0,
    {
        PacketBuffer { packets: Vec::new() }
    }

    /// Appends a packet at the end.
    pub fn push(&mut self, packet: PacketData)
        ensures
            final(self)@ == old(self)@.push(packet),
    {
        self.packets.push(packet);
    }

    /// Returns every buffered packet in insertion order and leaves the buffer empty.
    pub fn drain(&mut self) -> (r: Vec<PacketData>)
        ensures
            r@ == old(self)@,
            final(self)@.len() == 0,
    {
        let mut out: Vec<PacketData> = Vec::new();
        std::mem::swap(&mut self.packets, &mut out);
        out
    }

    pub fn len(&self) -> (r: usize)
        ensures
            r == self@.len(),
    {
        self.packets.len()
    }

    pub fn is_empty(&self) -> (r: bool)
        ensures
            r == (self@.len() == 0),
    {
        self.packets.len() == 0
    }
}

/// The contents of a buffer holding `b` after `ps` were pushed in order.
pub open spec fn pushed_all(b: Seq<PacketData>, ps: Seq<PacketData>) -> Seq<PacketData>
    decreases ps.len(),
{
    if ps.len() == 0 {
        b
    } else {
        pushed_all(b, ps.drop_last()).push(ps.last())
    }
}

/// Pushing a sequence of packets onto a buffer and then draining it yields
/// what the buffer held followed by the pushed packets, in insertion order;
/// from an empty buffer, exactly the pushed sequence.
pub proof fn lemma_push_then_drain(b: Seq<PacketData>, ps: Seq<PacketData>)
    ensures
        pushed_all(b, ps) == b + ps,
        pushed_all(Seq::empty(), ps) == ps,
    decreases ps.len(),
{
    if ps.len() > 0 {
        lemma_push_then_drain(b, ps.drop_last());
        assert(b + ps =~= (b + ps.drop_last()).push(ps.last()));
        lemma_push_then_drain(Seq::empty(), ps.drop_last());
        assert(ps =~= ps.drop_last().push(ps.last()));
    }
}

/// Pushing packets onto an empty buffer and then taking one tick's batches
/// (`take_batches`) yields exactly the pushed packets, in insertion order,
/// across the batches.
pub proof fn lemma_pushes_then_batches(ps: Seq<PacketData>, cs: Seq<Vec<PacketData>>)
    requires
        concat_batches(cs) == pushed_all(Seq::empty(), ps),
    ensures
        concat_batches(cs) == ps,
{
    lemma_push_then_drain(Seq::empty(), ps);
}

/// The concatenation of a sequence of batches.
pub open spec fn concat_batches(cs: Seq<Vec<PacketData>>) -> Seq<PacketData>
    decreases cs.len(),
{
    if cs.len() == 0 {
        Seq::empty()
    } else {
        concat_batches(cs.drop_last()) + cs.last()@
    }
}

/// Batches of `CHUNK_SIZE` packets, the last one possibly shorter, none empty.
pub open spec fn well_chunked(cs: Seq<Vec<PacketData>>) -> bool {
    &&& forall|i: int| 0 <= i < cs.len() ==> 0 < (#[trigger] cs[i])@.len() <= CHUNK_SIZE
    &&& forall|i: int| 0 <= i < cs.len() - 1 ==> (#[trigger] cs[i])@.len() == CHUNK_SIZE
}

proof fn lemma_ceil_chunks(n: int, k: int)
    requires
        (k == 0 && n == 0) || ((k - 1) * 1000 < n <= k * 1000),
    ensures
        (n + 1000 - 1) / 1000 == k,
{
    if k > 0 {
        let q = (n + 999) / 1000;
        assert(q == k) by (nonlinear_arith)
            requires
                q == (n + 999) / 1000,
                (k - 1) * 1000 < n <= k * 1000,
        ;
    }
}

/// The store's write side: batching and the insert statement.
pub struct PacketRepository;

impl PacketRepository {
    /// Splits packets into insert batches of `CHUNK_SIZE`, keeping their order.
    pub fn chunk_packets(packets: Vec<PacketData>) -> (r: Vec<Vec<PacketData>>)
        ensures
            concat_batches(r@) == packets@,
            well_chunked(r@),
            r@.len() == (packets@.len() + CHUNK_SIZE - 1) / (CHUNK_SIZE as int),
    {
        let ghost all = packets@;
        let mut rest = packets;
        let mut out: Vec<Vec<PacketData>> = Vec::new();
        while rest.len() > 0
            invariant
                concat_batches(out@) + rest@ == all,
                well_chunked(out@),
                rest@.len() > 0 && out@.len() > 0 ==> out@.last()@.len() == CHUNK_SIZE,
                rest@.len() > 0 ==> out@.len() * CHUNK_SIZE + rest@.len() == all.len(),
                rest@.len() == 0 ==> (out@.len() == 0 && all.len() == 0) || ((out@.len() - 1) * CHUNK_SIZE < all.len()
                    <= out@.len() * CHUNK_SIZE),
            decreases rest@.len(),
        {
            let at: usize = if rest.len() > CHUNK_SIZE {
                CHUNK_SIZE
            } else {
                rest.len()
            };
            let ghost before = rest@;
            let tail = rest.split_off(at);
            let ghost prev = out@;
            let ghost head = rest@;
            out.push(rest);
            rest = tail;
            proof {
                assert(out@.drop_last() =~= prev);
                assert(before =~= head + rest@);
                assert(concat_batches(out@) + rest@ =~= concat_batches(prev) + head + rest@);
                assert(well_chunked(out@)) by {
                    assert forall|i: int| 0 <= i < out@.len() - 1 implies (#[trigger] out@[i])@.len() == CHUNK_SIZE by {
                        assert(out@[i] == prev[i]);
                        if i == prev.len() - 1 {
                            assert(prev.last()@.len() == CHUNK_SIZE);
                        }
                    }
                    assert forall|i: int| 0 <= i < out@.len() implies 0 < (#[trigger] out@[i])@.len() <= CHUNK_SIZE by {
                        if i < prev.len() {
                            assert(out@[i] == prev[i]);
                        }
                    }
                }
                assert(out@.len() * CHUNK_SIZE == prev.len() * CHUNK_SIZE + CHUNK_SIZE) by (nonlinear_arith)
                    requires
                        out@.len() == prev.len() + 1,
                ;
            }
        }
        proof {
            assert(concat_batches(out@) =~= all);
            lemma_ceil_chunks(all.len() as int, out@.len() as int);
        }
        out
    }
}

/// The firewall view of a decoded record: numbers truncated to their field
/// widths, version from the source address.
pub open spec fn firewall_view(p: PacketData) -> FirewallPacket {
    FirewallPacket {
        src_mac: p.src_mac,
        dst_mac: p.dst_mac,
        ether_type: p.ether_type.0 as u16,
        src_ip: p.src_ip,
        dst_ip: p.dst_ip,
        ip_version: ip_version_of(p.src_ip),
        ip_protocol: p.ip_protocol.0 as u8,
        src_port: p.src_port as u16,
        dst_port: p.dst_port as u16,
    }
}

/// The rules the writer applies unless given others: blacklist
/// 160.251.175.134 (priority 100), destination port 13432 (90) and
/// destination port 2222 (80).
pub open spec fn default_rules() -> Seq<Rule> {
    seq![
        Rule { filter: Filter::DstIpAddress(InetAddr::V4(0xA0FB_AF86)), priority: 100 },
        Rule { filter: Filter::DstPort(13432), priority: 90 },
        Rule { filter: Filter::DstPort(2222), priority: 80 },
    ]
}

/// Builds the writer's default firewall.
pub fn default_firewall() -> (r: IpFirewall)
    ensures
        r.wf(),
        r.policy == Policy::Blacklist,
        r.rules@ == default_rules(),
{
    let mut fw = IpFirewall::new(Policy::Blacklist);
    let addr = InetAddr::v4(160, 251, 175, 134);
    assert(addr == InetAddr::V4(0xA0FB_AF86));
    let r0 = Rule { filter: Filter::DstIpAddress(addr), priority: 100 };
    let r1 = Rule { filter: Filter::DstPort(13432), priority: 90 };
    let r2 = Rule { filter: Filter::DstPort(2222), priority: 80 };
    fw.add_rule(Filter::DstIpAddress(addr), 100);
    assert(fw.rules@ =~= seq![r0]);
    let ghost s1 = fw.rules@;
    fw.add_rule(Filter::DstPort(13432), 90);
    proof {
        let pos = choose|pos: int|
            0 <= pos <= s1.len() && fw.rules@ == s1.insert(pos, r1) && (forall|i: int|
                0 <= i < pos ==> s1[i].priority >= 90) && (forall|i: int|
                pos <= i < s1.len() ==> s1[i].priority < 90);
        if pos == 0 {
            assert(s1[0].priority < 90);
        }
        assert(pos == 1);
        assert(fw.rules@ =~= seq![r0, r1]);
    }
    let ghost s2 = fw.rules@;
    fw.add_rule(Filter::DstPort(2222), 80);
    proof {
        let pos = choose|pos: int|
            0 <= pos <= s2.len() && fw.rules@ == s2.insert(pos, r2) && (forall|i: int|
                0 <= i < pos ==> s2[i].priority >= 80) && (forall|i: int|
                pos <= i < s2.len() ==> s2[i].priority < 80);
        if pos < 2 {
            assert(s2[pos].priority < 80);
        }
        assert(pos == 2);
        assert(fw.rules@ =~= seq![r0, r1, r2]);
    }
    assert(fw.rules@ =~= default_rules());
    fw
}

/// What handing frame `f`, captured at `now`, to writer `w` does (`v` is
/// the writer afterwards, `r` whether the frame was buffered): frames
/// shorter than an Ethernet header are ignored; any other is decoded and
/// buffered exactly when the firewall admits it.
pub open spec fn writer_step(w: PacketWriter, v: PacketWriter, f: Seq<u8>, now: i64, r: bool) -> bool {
    &&& v.firewall == w.firewall
    &&& f.len() < 14 ==> !r && v.buffer@ == w.buffer@
    &&& f.len() >= 14 ==> exists|p: PacketData|
        decoded_from(p, f, now) && r == verdict(w.firewall.policy, w.firewall.rules@, firewall_view(p))
            && v.buffer@ == (if r {
            w.buffer@.push(p)
        } else {
            w.buffer@
        })
}

/// The writer: decodes captured frames, filters them through its firewall,
/// and buffers the admitted ones for the next flush.
pub struct PacketWriter {
    pub buffer: PacketBuffer,
    pub firewall: IpFirewall,
}

impl PacketWriter {
    pub open spec fn wf(&self) -> bool {
        self.firewall.wf()
    }

    /// A writer with an empty buffer and the default rules.
    pub fn new() -> (r: PacketWriter)
        ensures
            r.wf(),
            r.buffer@.len() == 0,
            r.firewall.policy == Policy::Blacklist,
            r.firewall.rules@ == default_rules(),
    {
        PacketWriter { buffer: PacketBuffer::new(), firewall: default_firewall() }
    }

    /// A writer with an empty buffer and the given firewall.
    pub fn with_firewall(firewall: IpFirewall) -> (r: PacketWriter)
        requires
            firewall.wf(),
        ensures
            r.wf(),
            r.buffer@.len() == 0,
            r.firewall == firewall,
    {
        PacketWriter { buffer: PacketBuffer::new(), firewall }
    }

    /// Decodes a frame captured at `timestamp` and buffers it when the
    /// firewall admits it. Frames shorter than an Ethernet header are
    /// ignored. Returns whether the frame was buffered.
    pub fn process_packet_at(&mut self, ethernet_packet: &[u8], timestamp: i64) -> (r: bool)
        requires
            old(self).wf(),
        ensures
            final(self).wf(),
            writer_step(*old(self), *final(self), ethernet_packet@, timestamp, r),
    {
        if ethernet_packet.len() < 14 {
            return false;
        }
        let packet_data = decode_frame(ethernet_packet, timestamp);
        let packet = packet_data.to_packet();
        let firewall_packet = FirewallPacket::from_packet(&packet);
        assert(firewall_packet == firewall_view(packet_data));
        if self.firewall.check(&firewall_packet) {
            self.buffer.push(packet_data);
            true
        } else {
            false
        }
    }

    /// Decodes and filters a frame stamped with the current time.
    pub fn process_packet(&mut self, ethernet_packet: &[u8]) -> (r: bool)
        requires
            old(self).wf(),
        ensures
            final(self).wf(),
            exists|t: i64| writer_step(*old(self), *final(self), ethernet_packet@, t, r),
    {
        let now = now_millis();
        self.process_packet_at(ethernet_packet, now)
    }

    /// One flush tick: drains the buffer and splits its packets, in order,
    /// into insert batches.
    pub fn take_batches(&mut self) -> (r: Vec<Vec<PacketData>>)
        requires
            old(self).wf(),
        ensures
            final(self).wf(),
            final(self).firewall == old(self).firewall,
            final(self).buffer@.len() == 0,
            concat_batches(r@) == old(self).buffer@,
            well_chunked(r@),
            r@.len() == (old(self).buffer@.len() + CHUNK_SIZE - 1) / (CHUNK_SIZE as int),
    {
        let packets = self.buffer.drain();
        PacketRepository::chunk_packets(packets)
    }
}

/// Entry point of the write path for one captured frame.
pub fn rdb_tunnel_packet_write(writer: &mut PacketWriter, ethernet_packet: &[u8]) -> (r: bool)
    requires
        old(writer).wf(),
    ensures
        final(writer).wf(),
        exists|t: i64| writer_step(*old(writer), *final(writer), ethernet_packet@, t, r),
{
    writer.process_packet(ethernet_packet)
}

} // verus!
