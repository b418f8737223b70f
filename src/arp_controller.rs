//! ARP rate control: a burst window and a normal window per
//! (source, destination) pair, with bounded memory.
use vstd::prelude::*;
use crate::clock::now_millis;
use crate::types::InetAddr;

verus! {

/// Limits of the ARP rate controller. Times are in milliseconds.
#[derive(Clone, Copy, Debug, PartialEq, Eq, Structural)]
pub struct ArpControlSettings {
    pub burst_window: u64,
    pub max_burst: u32,
    pub normal_window: u64,
    pub max_normal: u32,
    pub cleanup_threshold: usize,
    pub max_entries: usize,
}

/// 100 ms / 4 events, 1 s / 8 events, sweep from 1000 entries, at most
/// 5000. An event beyond a window's maximum is refused.
pub open spec fn default_settings() -> ArpControlSettings {
    ArpControlSettings {
        burst_window: 100,
        max_burst: 4,
        normal_window: 1000,
        max_normal: 8,
        cleanup_threshold: 1000,
        max_entries: 5000,
    }
}

impl ArpControlSettings {
    pub fn default() -> (r: ArpControlSettings)
        ensures
            r == default_settings(),
    {
        ArpControlSettings {
            burst_window: 100,
            max_burst: 4,
            normal_window: 1000,
            max_normal: 8,
            cleanup_threshold: 1000,
            max_entries: 5000,
        }
    }
}

/// One window of one (source, destination) pair: when it opened and how
/// many events it has counted.
#[derive(Clone, Copy, Debug, PartialEq, Eq, Structural)]
pub struct RateEntry {
    pub src: InetAddr,
    pub dst: InetAddr,
    pub start: i64,
    pub count: u32,
}

/// Milliseconds from `start` to `now`; zero when the clock went back.
pub open spec fn elapsed(now: i64, start: i64) -> int {
    if now > start {
        now - start
    } else {
        0
    }
}

/// No two entries share a pair.
pub open spec fn unique_pairs(s: Seq<RateEntry>) -> bool {
    forall|i: int, j: int|
        0 <= i < s.len() && 0 <= j < s.len() && i != j ==> !(s[i].src == s[j].src && s[i].dst == s[j].dst)
}

pub open spec fn has_pair(s: Seq<RateEntry>, src: InetAddr, dst: InetAddr) -> bool {
    exists|i: int| 0 <= i < s.len() && s[i].src == src && s[i].dst == dst
}

/// Index of the pair's entry, -1 when absent.
pub open spec fn pair_index(s: Seq<RateEntry>, src: InetAddr, dst: InetAddr) -> int {
    if has_pair(s, src, dst) {
        choose|i: int| 0 <= i < s.len() && s[i].src == src && s[i].dst == dst
    } else {
        -1
    }
}

/// Count plus one, staying at the maximum.
pub open spec fn inc_count(c: u32) -> u32 {
    if c < u32::MAX {
        (c + 1) as u32
    } else {
        c
    }
}

/// The entry a pair has after one event, given its entry beforehand.
pub open spec fn stepped_entry(s: Seq<RateEntry>, src: InetAddr, dst: InetAddr, now: i64, window: u64) -> RateEntry {
    let i = pair_index(s, src, dst);
    let start = if i >= 0 { s[i].start } else { now };
    let count = if i >= 0 { s[i].count } else { 0u32 };
    if elapsed(now, start) < window {
        RateEntry { src, dst, start, count: inc_count(count) }
    } else {
        RateEntry { src, dst, start: now, count: 1 }
    }
}

/// Whether one window lets the event through: it restarted, or its count
/// after the event does not exceed the maximum.
pub open spec fn window_passes(s: Seq<RateEntry>, src: InetAddr, dst: InetAddr, now: i64, window: u64, max: u32) -> bool {
    let i = pair_index(s, src, dst);
    let start = if i >= 0 { s[i].start } else { now };
    elapsed(now, start) >= window || stepped_entry(s, src, dst, now, window).count <= max
}

/// The table after one event of the pair.
pub open spec fn stepped_table(s: Seq<RateEntry>, src: InetAddr, dst: InetAddr, now: i64, window: u64) -> Seq<RateEntry> {
    let i = pair_index(s, src, dst);
    let e = stepped_entry(s, src, dst, now, window);
    if i >= 0 {
        s.update(i, e)
    } else {
        s.push(e)
    }
}

/// `t` keeps exactly the entries of `s` whose window has not elapsed at `now`.
pub open spec fn unexpired_of(s: Seq<RateEntry>, t: Seq<RateEntry>, now: i64, window: u64) -> bool {
    &&& forall|e: RateEntry| t.contains(e) ==> s.contains(e) && elapsed(now, e.start) < window
    &&& forall|e: RateEntry| s.contains(e) && elapsed(now, e.start) < window ==> t.contains(e)
}

/// `t` keeps `keep` entries of `s`, none older than any entry dropped.
pub open spec fn most_recent_of(s: Seq<RateEntry>, t: Seq<RateEntry>, keep: int) -> bool {
    &&& t.len() == keep
    &&& forall|e: RateEntry| t.contains(e) ==> s.contains(e)
    &&& forall|d: RateEntry, k: RateEntry|
        s.contains(d) && !t.contains(d) && t.contains(k) ==> d.start <= k.start
}

/// One table after a sweep at `now`: its expired entries dropped; then,
/// when more than half the capacity remains, only the most recent half kept.
pub open spec fn swept_table(
    settings: ArpControlSettings,
    t: Seq<RateEntry>,
    t2: Seq<RateEntry>,
    window: u64,
    now: i64,
) -> bool {
    exists|mid: Seq<RateEntry>|
        unexpired_of(t, mid, now, window) && if mid.len() > settings.max_entries / 2 {
            most_recent_of(mid, t2, (settings.max_entries / 2) as int)
        } else {
            t2 == mid
        }
}

/// The burst and normal tables after a sweep at `now`: the burst table
/// keeps exactly its unexpired entries; the normal table loses its expired
/// entries and is then cut to its most recent half of the capacity.
pub open spec fn swept(
    settings: ArpControlSettings,
    burst: Seq<RateEntry>,
    normal: Seq<RateEntry>,
    burst2: Seq<RateEntry>,
    normal2: Seq<RateEntry>,
    now: i64,
) -> bool {
    &&& unexpired_of(burst, burst2, now, settings.burst_window)
    &&& swept_table(settings, normal, normal2, settings.normal_window, now)
}

/// Finds the entry of a pair.
pub fn find_pair(v: &Vec<RateEntry>, src: InetAddr, dst: InetAddr) -> (r: Option<usize>)
    requires
        unique_pairs(v@),
    ensures
        r is Some ==> r->0 == pair_index(v@, src, dst) && 0 <= r->0 < v@.len(),
        r is None ==> !has_pair(v@, src, dst) && pair_index(v@, src, dst) == -1,
{
    let mut i: usize = 0;
    while i < v.len()
        invariant
            i <= v@.len(),
            unique_pairs(v@),
            forall|k: int| 0 <= k < i ==> !(v@[k].src == src && v@[k].dst == dst),
        decreases v@.len() - i,
    {
        if v[i].src == src && v[i].dst == dst {
            proof {
                let j = pair_index(v@, src, dst);
                assert(has_pair(v@, src, dst));
                assert(v@[j].src == src && v@[j].dst == dst);
                if j != i as int {
                    assert(!(v@[j].src == v@[i as int].src && v@[j].dst == v@[i as int].dst));
                }
            }
            return Some(i);
        }
        i = i + 1;
    }
    None
}

/// Counts one event of a pair in a window table; returns whether it passes.
fn step_window(v: &mut Vec<RateEntry>, src: InetAddr, dst: InetAddr, now: i64, window: u64, max: u32) -> (r: bool)
    requires
        unique_pairs(old(v)@),
    ensures
        final(v)@ == stepped_table(old(v)@, src, dst, now, window),
        r == window_passes(old(v)@, src, dst, now, window, max),
        unique_pairs(final(v)@),
{
    let found = find_pair(v, src, dst);
    let (start, count): (i64, u32) = match found {
        Some(i) => (v[i].start, v[i].count),
        None => (now, 0),
    };
    let el: i128 = if now > start {
        now as i128 - start as i128
    } else {
        0
    };
    let within = el < window as i128;
    let (entry, pass) = if within {
        let c = count.saturating_add(1);
        (RateEntry { src, dst, start, count: c }, c <= max)
    } else {
        (RateEntry { src, dst, start: now, count: 1 }, true)
    };
    match found {
        Some(i) => {
            v.set(i, entry);
        },
        None => {
            v.push(entry);
        },
    }
    proof {
        let s = old(v)@;
        let t = v@;
        assert forall|a: int, b: int| 0 <= a < t.len() && 0 <= b < t.len() && a != b implies !(t[a].src
            == t[b].src && t[a].dst == t[b].dst) by {
            if found is None {
                if a == s.len() as int {
                    assert(!(s[b].src == src && s[b].dst == dst));
                } else if b == s.len() as int {
                    assert(!(s[a].src == src && s[a].dst == dst));
                }
            } else {
                let i = found->0 as int;
                if a == i {
                    assert(!(s[b].src == s[i].src && s[b].dst == s[i].dst));
                } else if b == i {
                    assert(!(s[a].src == s[i].src && s[a].dst == s[i].dst));
                }
            }
        }
    }
    pass
}

/// Keeps the entries whose window has not elapsed at `now`.
fn retain_unexpired(v: &Vec<RateEntry>, now: i64, window: u64) -> (r: Vec<RateEntry>)
    requires
        unique_pairs(v@),
    ensures
        unexpired_of(v@, r@, now, window),
        unique_pairs(r@),
        r@.len() <= v@.len(),
{
    let mut out: Vec<RateEntry> = Vec::new();
    let mut i: usize = 0;
    while i < v.len()
        invariant
            i <= v@.len(),
            unique_pairs(v@),
            out@.len() <= i,
            forall|e: RateEntry| out@.contains(e) ==> v@.subrange(0, i as int).contains(e) && elapsed(now, e.start) < window,
            forall|e: RateEntry| v@.subrange(0, i as int).contains(e) && elapsed(now, e.start) < window ==> out@.contains(e),
            forall|a: int| 0 <= a < out@.len() ==> exists|b: int| 0 <= b < i && #[trigger] out@[a] == v@[b],
            unique_pairs(out@),
        decreases v@.len() - i,
    {
        let e = v[i];
        let el: i128 = if now > e.start {
            now as i128 - e.start as i128
        } else {
            0
        };
        let keep = el < window as i128;
        let ghost before = out@;
        if keep {
            out.push(e);
        }
        proof {
            let sub = v@.subrange(0, i as int);
            let sub2 = v@.subrange(0, i + 1);
            assert(sub2 =~= sub.push(e));
            assert forall|x: RateEntry| out@.contains(x) implies sub2.contains(x) && elapsed(now, x.start) < window by {
                let idx = choose|idx: int| 0 <= idx < out@.len() && out@[idx] == x;
                if idx < before.len() {
                    assert(before[idx] == x);
                    assert(before.contains(x));
                    let k = choose|k: int| 0 <= k < sub.len() && sub[k] == x;
                    assert(sub2[k] == x);
                } else {
                    assert(x == e);
                    assert(sub2[i as int] == e);
                }
            }
            assert forall|x: RateEntry| sub2.contains(x) && elapsed(now, x.start) < window implies out@.contains(x) by {
                let k = choose|k: int| 0 <= k < sub2.len() && sub2[k] == x;
                if k < i {
                    assert(sub[k] == x);
                    assert(before.contains(x));
                    let m = choose|m: int| 0 <= m < before.len() && before[m] == x;
                    assert(out@[m] == x);
                } else {
                    assert(out@[out@.len() - 1] == x);
                }
            }
            let ii = i as int;
            assert forall|a: int| 0 <= a < out@.len() implies exists|b: int| 0 <= b < ii + 1 && #[trigger] out@[a] == v@[b] by {
                if a < before.len() {
                    assert(out@[a] == before[a]);
                    let b = choose|b: int| 0 <= b < ii && before[a] == v@[b];
                    assert(out@[a] == v@[b]);
                } else {
                    assert(out@[a] == v@[ii]);
                }
            }
            if keep {
                assert forall|a: int, b: int| 0 <= a < out@.len() && 0 <= b < out@.len() && a != b implies !(out@[a].src
                    == out@[b].src && out@[a].dst == out@[b].dst) by {
                    if a == before.len() as int {
                        let x = choose|x: int| 0 <= x < ii && before[b] == v@[x];
                        assert(out@[b] == before[b]);
                    } else if b == before.len() as int {
                        let x = choose|x: int| 0 <= x < ii && before[a] == v@[x];
                        assert(out@[a] == before[a]);
                    } else {
                        assert(out@[a] == before[a] && out@[b] == before[b]);
                    }
                }
            }
        }
        i = i + 1;
    }
    proof {
        assert(v@.subrange(0, v@.len() as int) =~= v@);
    }
    out
}

/// Drops the oldest entries until `keep` remain.
fn trim_oldest(v: &mut Vec<RateEntry>, keep: usize)
    requires
        unique_pairs(old(v)@),
        old(v)@.len() > keep,
    ensures
        most_recent_of(old(v)@, final(v)@, keep as int),
        unique_pairs(final(v)@),
{
    let ghost orig = v@;
    while v.len() > keep
        invariant
            v@.len() >= keep,
            unique_pairs(v@),
            forall|e: RateEntry| v@.contains(e) ==> orig.contains(e),
            forall|d: RateEntry, k: RateEntry|
                orig.contains(d) && !v@.contains(d) && v@.contains(k) ==> d.start <= k.start,
        decreases v@.len(),
    {
        let mut mi: usize = 0;
        let mut j: usize = 1;
        while j < v.len()
            invariant
                mi < j <= v@.len(),
                forall|t: int| 0 <= t < j ==> v@[mi as int].start <= #[trigger] v@[t].start,
            decreases v@.len() - j,
        {
            if v[j].start < v[mi].start {
                mi = j;
            }
            j = j + 1;
        }
        let ghost prev = v@;
        let m = v.remove(mi);
        proof {
            let cur = v@;
            assert(cur == prev.remove(mi as int));
            assert forall|k: RateEntry| cur.contains(k) implies prev.contains(k) by {
                let t = choose|t: int| 0 <= t < cur.len() && cur[t] == k;
                if t < mi {
                    assert(prev[t] == k);
                } else {
                    assert(prev[t + 1] == k);
                }
            }
            assert forall|d: RateEntry| prev.contains(d) && !cur.contains(d) implies d == m by {
                let t = choose|t: int| 0 <= t < prev.len() && prev[t] == d;
                if t < mi {
                    assert(cur[t] == d);
                } else if t > mi {
                    assert(cur[t - 1] == d);
                }
            }
            assert forall|a: int, b: int| 0 <= a < cur.len() && 0 <= b < cur.len() && a != b implies !(cur[a].src
                == cur[b].src && cur[a].dst == cur[b].dst) by {
                let a2 = if a < mi { a } else { a + 1 };
                let b2 = if b < mi { b } else { b + 1 };
                assert(cur[a] == prev[a2] && cur[b] == prev[b2]);
            }
            assert forall|d: RateEntry, k: RateEntry|
                orig.contains(d) && !cur.contains(d) && cur.contains(k) implies d.start <= k.start by {
                assert(prev.contains(k));
                if prev.contains(d) {
                    assert(d == m);
                    let t = choose|t: int| 0 <= t < prev.len() && prev[t] == k;
                    assert(prev[mi as int].start <= prev[t].start);
                }
            }
        }
    }
}

/// The rate controller: a burst table and a normal table of windows.
pub struct ArpController {
    pub settings: ArpControlSettings,
    pub burst_count: Vec<RateEntry>,
    pub normal_count: Vec<RateEntry>,
}

/// What one event does to tables `b` and `n` once the sweep (if any) is
/// done: refuse when either table is at capacity; else count it in the burst window and, if that
/// passes, in the normal window.
pub open spec fn rate_step(
    settings: ArpControlSettings,
    b: Seq<RateEntry>,
    n: Seq<RateEntry>,
    src: InetAddr,
    dst: InetAddr,
    now: i64,
    b2: Seq<RateEntry>,
    n2: Seq<RateEntry>,
    r: bool,
) -> bool {
    if n.len() >= settings.max_entries || b.len() >= settings.max_entries {
        !r && b2 == b && n2 == n
    } else if !window_passes(b, src, dst, now, settings.burst_window, settings.max_burst) {
        !r && b2 == stepped_table(b, src, dst, now, settings.burst_window) && n2 == n
    } else {
        &&& b2 == stepped_table(b, src, dst, now, settings.burst_window)
        &&& n2 == stepped_table(n, src, dst, now, settings.normal_window)
        &&& r == window_passes(n, src, dst, now, settings.normal_window, settings.max_normal)
    }
}

/// What one event at `now` does to a controller: the sweep when either
/// table has reached the cleanup threshold (the sweep is the only place
/// where expired burst entries leave, so a full burst table must trigger it
/// too), then one rate step; `r` is
/// whether the event is processed.
pub open spec fn arp_event(c: ArpController, d: ArpController, src: InetAddr, dst: InetAddr, now: i64, r: bool) -> bool {
    &&& d.settings == c.settings
    &&& exists|b: Seq<RateEntry>, n: Seq<RateEntry>|
        (if c.normal_count@.len() >= c.settings.cleanup_threshold || c.burst_count@.len()
            >= c.settings.cleanup_threshold {
            swept(c.settings, c.burst_count@, c.normal_count@, b, n, now)
        } else {
            b == c.burst_count@ && n == c.normal_count@
        }) && rate_step(c.settings, b, n, src, dst, now, d.burst_count@, d.normal_count@, r)
}

impl ArpController {
    /// Default limits, no duplicate pairs, and both tables within capacity.
    pub open spec fn wf(&self) -> bool {
        &&& self.settings == default_settings()
        &&& unique_pairs(self.burst_count@)
        &&& unique_pairs(self.normal_count@)
        &&& self.normal_count@.len() <= self.settings.max_entries
        &&& self.burst_count@.len() <= self.settings.max_entries
    }

    pub fn new() -> (r: ArpController)
        ensures
            r.wf(),
            r.burst_count@.len() == 0,
            r.normal_count@.len() == 0,
    {
        ArpController { settings: ArpControlSettings::default(), burst_count: Vec::new(), normal_count: Vec::new() }
    }

    /// Number of pairs in the normal table.
    pub fn len(&self) -> (r: usize)
        ensures
            r == self.normal_count@.len(),
    {
        self.normal_count.len()
    }

    /// The eviction sweep at `now`.
    fn cleanup(&mut self, now: i64)
        requires
            old(self).wf(),
        ensures
            final(self).wf(),
            swept(old(self).settings, old(self).burst_count@, old(self).normal_count@, final(self).burst_count@,
                final(self).normal_count@, now),
    {
        let half = self.settings.max_entries / 2;
        let burst = retain_unexpired(&self.burst_count, now, self.settings.burst_window);
        let mut normal = retain_unexpired(&self.normal_count, now, self.settings.normal_window);
        let ghost mid = normal@;
        if normal.len() > half {
            trim_oldest(&mut normal, half);
        }
        self.burst_count = burst;
        self.normal_count = normal;
        assert(unexpired_of(old(self).normal_count@, mid, now, self.settings.normal_window));
    }

    /// Decides whether an ARP event from `src` to `dst` at time `now` (ms)
    /// is processed, and counts it.
    pub fn should_process_at(&mut self, src_ip: InetAddr, dst_ip: InetAddr, now: i64) -> (r: bool)
        requires
            old(self).wf(),
        ensures
            final(self).wf(),
            arp_event(*old(self), *final(self), src_ip, dst_ip, now, r),
    {
        if self.normal_count.len() >= self.settings.cleanup_threshold || self.burst_count.len()
            >= self.settings.cleanup_threshold {
            self.cleanup(now);
        }
        let ghost b = self.burst_count@;
        let ghost n = self.normal_count@;
        if self.normal_count.len() >= self.settings.max_entries || self.burst_count.len() >= self.settings.max_entries {
            assert(rate_step(self.settings, b, n, src_ip, dst_ip, now, self.burst_count@, self.normal_count@, false));
            return false;
        }
        let bw = self.settings.burst_window;
        let mb = self.settings.max_burst;
        if !step_window(&mut self.burst_count, src_ip, dst_ip, now, bw, mb) {
            assert(rate_step(self.settings, b, n, src_ip, dst_ip, now, self.burst_count@, self.normal_count@, false));
            return false;
        }
        let nw = self.settings.normal_window;
        let mn = self.settings.max_normal;
        let pass = step_window(&mut self.normal_count, src_ip, dst_ip, now, nw, mn);
        assert(rate_step(self.settings, b, n, src_ip, dst_ip, now, self.burst_count@, self.normal_count@, pass));
        pass
    }

    /// Decides on an ARP event at the current time.
    pub fn should_process(&mut self, src_ip: InetAddr, dst_ip: InetAddr) -> (r: bool)
        requires
            old(self).wf(),
        ensures
            final(self).wf(),
            exists|now: i64| arp_event(*old(self), *final(self), src_ip, dst_ip, now, r),
    {
        let now = now_millis();
        self.should_process_at(src_ip, dst_ip, now)
    }
}

/// Neither table of a well-formed controller holds more than 5000 pairs
/// (`should_process_at` keeps controllers well-formed).
pub proof fn lemma_table_bounded(c: ArpController)
    requires
        c.wf(),
    ensures
        c.normal_count@.len() <= 5000,
        c.burst_count@.len() <= 5000,
{
}

} // verus!
