//! The inject path's decisions: which store window to poll, which rows to
//! re-emit, and the size limit on emitted frames.
use vstd::prelude::*;
use crate::errors::PacketError;
use crate::types::{InetAddr, Packet};

verus! {

/// Largest frame the injector emits, in bytes.
pub const MAX_PACKET_SIZE: usize = 1500;
/// Interval between injector ticks, in milliseconds.
pub const POLL_INTERVAL_MS: u64 = 500;

/// The IPv4 limited broadcast address 255.255.255.255.
pub open spec fn is_limited_broadcast(a: InetAddr) -> bool {
    a == InetAddr::V4(0xFFFF_FFFF)
}

/// Multicast: 224.0.0.0/4 for IPv4, ff00::/8 for IPv6.
pub open spec fn is_multicast(a: InetAddr) -> bool {
    match a {
        InetAddr::V4(v) => v / 0x1000_0000 == 0xE,
        InetAddr::V6(v) => v / 0x0100_0000_0000_0000_0000_0000_0000_0000 == 0xFF,
    }
}

/// Inside the tunnel prefix 192.168.0.0/24.
pub open spec fn in_tunnel_prefix(a: InetAddr) -> bool {
    match a {
        InetAddr::V4(v) => v / 256 == 0xC0A800,
        InetAddr::V6(_) => false,
    }
}

/// Whether a row is re-emitted: addressed to us, broadcast or multicast, or
/// tunnel traffic by either address.
pub open spec fn admitted(my_ip: InetAddr, p: Packet) -> bool {
    p.dst_ip == my_ip || is_limited_broadcast(p.dst_ip) || is_multicast(p.dst_ip) || in_tunnel_prefix(p.src_ip)
        || in_tunnel_prefix(p.dst_ip)
}

/// The time bound of one store query.
#[derive(Clone, Copy, Debug, PartialEq, Eq, Structural)]
pub enum PollWindow {
    /// Rows of the last `n` seconds.
    LastSeconds(u32),
    /// Rows strictly after a timestamp (ms since the epoch).
    After(i64),
}

/// The subsequence of `ps` that satisfies `admitted`, in order.
pub open spec fn admitted_rows(my_ip: InetAddr, ps: Seq<Packet>) -> Seq<Packet>
    decreases ps.len(),
{
    if ps.len() == 0 {
        Seq::empty()
    } else if admitted(my_ip, ps.last()) {
        admitted_rows(my_ip, ps.drop_last()).push(ps.last())
    } else {
        admitted_rows(my_ip, ps.drop_last())
    }
}

/// Broadcast or multicast.
pub fn is_broadcast_ip(ip: &InetAddr) -> (r: bool)
    ensures
        r == (is_limited_broadcast(*ip) || is_multicast(*ip)),
{
    match ip {
        InetAddr::V4(v) => *v == 0xFFFF_FFFF || *v / 0x1000_0000 == 0xE,
        InetAddr::V6(v) => *v / 0x0100_0000_0000_0000_0000_0000_0000_0000 == 0xFF,
    }
}

/// Inside 192.168.0.0/24.
pub fn is_tunnel_address(ip: &InetAddr) -> (r: bool)
    ensures
        r == in_tunnel_prefix(*ip),
{
    match ip {
        InetAddr::V4(v) => *v / 256 == 0xC0A800,
        InetAddr::V6(_) => false,
    }
}

/// The emitting side of the injector.
pub struct PacketSender;

impl PacketSender {
    /// Rejects frames larger than `MAX_PACKET_SIZE`.
    pub fn check_packet_size(packet: &Packet) -> (r: Result<(), PacketError>)
        ensures
            r is Ok <==> packet.raw_packet@.len() <= MAX_PACKET_SIZE,
            r is Err ==> r == Err::<(), PacketError>(PacketError::PacketSizeTooLarge(packet.raw_packet@.len() as usize)),
    {
        let n = packet.raw_packet.len();
        if n > MAX_PACKET_SIZE {
            Err(PacketError::PacketSizeTooLarge(n))
        } else {
            Ok(())
        }
    }
}

/// The injector's state between ticks: the timestamp watermark, whether the
/// first poll is still to come, the local address and the tick's counts.
pub struct PacketReader {
    pub last_timestamp: Option<i64>,
    pub is_first_poll: bool,
    pub my_ip: InetAddr,
    pub packets_sent: u64,
    pub packets_failed: u64,
}

impl PacketReader {
    pub fn new(my_ip: InetAddr) -> (r: PacketReader)
        ensures
            r.last_timestamp is None,
            r.is_first_poll,
            r.my_ip == my_ip,
            r.packets_sent == 0,
            r.packets_failed == 0,
    {
        PacketReader { last_timestamp: None, is_first_poll: true, my_ip, packets_sent: 0, packets_failed: 0 }
    }

    /// Whether a row is re-emitted.
    pub fn should_process_packet(&self, packet: &Packet) -> (r: bool)
        ensures
            r == admitted(self.my_ip, *packet),
    {
        let is_tunnel_traffic = is_tunnel_address(&packet.src_ip) || is_tunnel_address(&packet.dst_ip);
        let is_for_me = packet.dst_ip == self.my_ip;
        let is_broadcast = is_broadcast_ip(&packet.dst_ip);
        is_for_me || is_broadcast || is_tunnel_traffic
    }

    /// The window of the next query: the last 30 s on the first tick, after
    /// the watermark when there is one, the last 5 s otherwise.
    pub fn poll_window(&self) -> (r: PollWindow)
        ensures
            self.is_first_poll ==> r == PollWindow::LastSeconds(30),
            !self.is_first_poll && self.last_timestamp is Some ==> r == PollWindow::After(self.last_timestamp->0),
            !self.is_first_poll && self.last_timestamp is None ==> r == PollWindow::LastSeconds(5),
    {
        if self.is_first_poll {
            PollWindow::LastSeconds(30)
        } else {
            match self.last_timestamp {
                Some(ts) => PollWindow::After(ts),
                None => PollWindow::LastSeconds(5),
            }
        }
    }

    /// Takes the rows a query returned (ascending by timestamp) at time
    /// `now`: moves the watermark to the last row's timestamp, or to `now`
    /// when there is none, ends the first-poll phase, and returns the rows
    /// to re-emit in order.
    pub fn finish_poll(&mut self, rows: Vec<Packet>, now: i64) -> (r: Vec<Packet>)
        ensures
            final(self).last_timestamp == Some(if rows@.len() > 0 { rows@.last().timestamp } else { now }),
            !final(self).is_first_poll,
            final(self).my_ip == old(self).my_ip,
            final(self).packets_sent == old(self).packets_sent,
            final(self).packets_failed == old(self).packets_failed,
            r@ == admitted_rows(old(self).my_ip, rows@),
    {
        let n = rows.len();
        if n > 0 {
            self.last_timestamp = Some(rows[n - 1].timestamp);
        } else {
            self.last_timestamp = Some(now);
        }
        self.is_first_poll = false;
        let mut out: Vec<Packet> = Vec::new();
        let mut rest = rows;
        let ghost all = rest@;
        let ghost mut taken: Seq<Packet> = Seq::empty();
        while rest.len() > 0
            invariant
                all == taken + rest@,
                out@ == admitted_rows(self.my_ip, taken),
            decreases rest@.len(),
        {
            let tail = rest.split_off(1);
            let ghost head = rest@;
            let p = rest.pop().unwrap();
            let keep = self.should_process_packet(&p);
            let ghost t0 = taken;
            proof {
                taken = taken.push(p);
            }
            if keep {
                out.push(p);
            }
            rest = tail;
            proof {
                assert(head =~= seq![p]);
                assert(taken.drop_last() =~= t0);
                assert(all =~= taken + rest@);
            }
        }
        assert(taken =~= all);
        out
    }

    /// Counts one send attempt of the current tick.
    pub fn record_send(&mut self, ok: bool)
        ensures
            final(self).my_ip == old(self).my_ip,
            final(self).last_timestamp == old(self).last_timestamp,
            final(self).is_first_poll == old(self).is_first_poll,
            ok ==> final(self).packets_sent == old(self).packets_sent.wrapping_add(1)
                && final(self).packets_failed == old(self).packets_failed,
            !ok ==> final(self).packets_failed == old(self).packets_failed.wrapping_add(1)
                && final(self).packets_sent == old(self).packets_sent,
    {
        if ok {
            self.packets_sent = self.packets_sent.wrapping_add(1);
        } else {
            self.packets_failed = self.packets_failed.wrapping_add(1);
        }
    }

    /// Returns the tick's (sent, failed) counts and resets them.
    pub fn take_counts(&mut self) -> (r: (u64, u64))
        ensures
            r == (old(self).packets_sent, old(self).packets_failed),
            final(self).packets_sent == 0,
            final(self).packets_failed == 0,
            final(self).my_ip == old(self).my_ip,
            final(self).last_timestamp == old(self).last_timestamp,
            final(self).is_first_poll == old(self).is_first_poll,
    {
        let r = (self.packets_sent, self.packets_failed);
        self.packets_sent = 0;
        self.packets_failed = 0;
        r
    }
}

} // verus!
