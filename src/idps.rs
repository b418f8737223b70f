//! Intrusion detection: protocol-violation rules over IPv4 frames.
use vstd::prelude::*;
use crate::bytes::{be16, ipv4_at, read_be16, read_ipv4};
use crate::types::AnalyzeResult;

verus! {

#[derive(Clone, Copy, Debug, PartialEq, Eq, Structural)]
pub enum IPHeaderViolation {
    /// Protocol number 143 or above.
    UnknownProtocol,
    /// Source address equals destination address.
    LandAttack,
    /// Declared header shorter than the 20-byte minimum.
    ShortHeader,
    /// Total length beyond the captured bytes or under the header length.
    MalformedPacket,
}

#[derive(Clone, Copy, Debug, PartialEq, Eq, Structural)]
pub enum IPOptionViolation {
    MalformedOption,
    SecurityOption,
    LooseRouting,
    RecordRoute,
    StreamId,
    StrictRouting,
    Timestamp,
}

#[derive(Clone, Copy, Debug, PartialEq, Eq, Structural)]
pub enum FragmentViolation {
    /// Offset plus payload beyond the 65535-byte datagram limit.
    LargeOffset,
    /// A repeated fragment offset. Not detected: it needs a history of
    /// fragments across frames, and the detector checks one frame at a
    /// time, so enabling this rule has no effect.
    SameOffset,
    /// More-fragments with a payload that is not a multiple of 8 bytes, or
    /// with don't-fragment also set.
    InvalidFragment,
}

#[derive(Clone, Copy, Debug, PartialEq, Eq, Structural)]
pub enum ICMPViolation {
    SourceQuench,
    TimestampRequest,
    TimestampReply,
    InfoRequest,
    InfoReply,
    MaskRequest,
    MaskReply,
    /// Total length above 1024 bytes.
    TooLarge,
}

#[derive(Clone, Copy, Debug, PartialEq, Eq, Structural)]
pub enum UDPViolation {
    /// Length field under 8.
    ShortHeader,
    /// Length field beyond the IP payload.
    Bomb,
}

#[derive(Clone, Copy, Debug, PartialEq, Eq, Structural)]
pub enum TCPViolation {
    NoBitsSet,
    SynAndFin,
    FinNoAck,
}

#[derive(Clone, Copy, Debug, PartialEq, Eq, Structural)]
pub enum FTPViolation {
    /// A PORT command to port 21 naming a port outside 1024..=65535.
    ImproperPort,
}

/// The enabled rules of each category.
#[derive(Debug)]
pub struct DetectionRules {
    pub ip_header: Vec<IPHeaderViolation>,
    pub ip_option: Vec<IPOptionViolation>,
    pub fragment: Vec<FragmentViolation>,
    pub icmp: Vec<ICMPViolation>,
    pub udp: Vec<UDPViolation>,
    pub tcp: Vec<TCPViolation>,
    pub ftp: Vec<FTPViolation>,
}

#[derive(Debug)]
pub struct IDPSConfig {
    pub enabled: bool,
    pub rules: DetectionRules,
    pub log_violations: bool,
    pub block_violations: bool,
}

impl IDPSConfig {
    /// Enabled, logging and blocking, with no rules.
    pub fn default() -> (r: IDPSConfig)
        ensures
            r.enabled && r.log_violations && r.block_violations,
            r.rules.ip_header@.len() == 0 && r.rules.ip_option@.len() == 0 && r.rules.fragment@.len() == 0,
            r.rules.icmp@.len() == 0 && r.rules.udp@.len() == 0 && r.rules.tcp@.len() == 0 && r.rules.ftp@.len() == 0,
    {
        IDPSConfig {
            enabled: true,
            rules: DetectionRules {
                ip_header: Vec::new(),
                ip_option: Vec::new(),
                fragment: Vec::new(),
                icmp: Vec::new(),
                udp: Vec::new(),
                tcp: Vec::new(),
                ftp: Vec::new(),
            },
            log_violations: true,
            block_violations: true,
        }
    }
}

/// A rule that a frame broke.
#[derive(Clone, Copy, Debug, PartialEq, Eq, Structural)]
pub enum Violation {
    IpHeader(IPHeaderViolation),
    IpOption(IPOptionViolation),
    Fragment(FragmentViolation),
    Icmp(ICMPViolation),
    Udp(UDPViolation),
    Tcp(TCPViolation),
    Ftp(FTPViolation),
}

/// An IPv4 frame with its addresses present.
pub open spec fn is_ipv4_frame(f: Seq<u8>) -> bool {
    f.len() >= 34 && be16(f, 12) == 0x0800
}

/// IPv4 header length in bytes.
pub open spec fn hdr_len(f: Seq<u8>) -> int {
    (f[14] % 16) * 4
}

/// The total length field.
pub open spec fn total_len(f: Seq<u8>) -> int {
    be16(f, 16)
}

/// IP payload length by the header's fields (zero when they contradict).
pub open spec fn payload_len(f: Seq<u8>) -> int {
    if total_len(f) >= hdr_len(f) {
        total_len(f) - hdr_len(f)
    } else {
        0
    }
}

pub open spec fn ip_header_violated(v: IPHeaderViolation, f: Seq<u8>) -> bool {
    match v {
        IPHeaderViolation::UnknownProtocol => f[23] >= 143,
        IPHeaderViolation::LandAttack => ipv4_at(f, 26) == ipv4_at(f, 30),
        IPHeaderViolation::ShortHeader => hdr_len(f) < 20,
        IPHeaderViolation::MalformedPacket => total_len(f) > f.len() - 14 || total_len(f) < hdr_len(f),
    }
}

/// The option type that a rule names.
pub open spec fn option_type(v: IPOptionViolation) -> int {
    match v {
        IPOptionViolation::MalformedOption => -1,
        IPOptionViolation::SecurityOption => 130,
        IPOptionViolation::LooseRouting => 131,
        IPOptionViolation::RecordRoute => 7,
        IPOptionViolation::StreamId => 136,
        IPOptionViolation::StrictRouting => 137,
        IPOptionViolation::Timestamp => 68,
    }
}

/// Whether the option list from `p` to `end` breaks rule `v`: an option of
/// the named type occurs before the end-of-list, or (for the malformed
/// rule) an option's length byte is missing, under 2, or runs past `end`.
pub open spec fn options_violated(v: IPOptionViolation, f: Seq<u8>, p: int, end: int) -> bool
    decreases end - p,
{
    if p >= end || p < 0 || end > f.len() {
        false
    } else if f[p] == 0 {
        false
    } else if f[p] == 1 {
        options_violated(v, f, p + 1, end)
    } else if p + 1 >= end || f[p + 1] < 2 || p + f[p + 1] > end {
        v == IPOptionViolation::MalformedOption
    } else {
        f[p] as int == option_type(v) || options_violated(v, f, p + f[p + 1], end)
    }
}

pub open spec fn ip_option_violated(v: IPOptionViolation, f: Seq<u8>) -> bool {
    hdr_len(f) > 20 && 14 + hdr_len(f) <= f.len() && options_violated(v, f, 34, 14 + hdr_len(f))
}

/// The flags-and-offset word.
pub open spec fn frag_word(f: Seq<u8>) -> int {
    be16(f, 20)
}

pub open spec fn fragment_violated(v: FragmentViolation, f: Seq<u8>) -> bool {
    let w = frag_word(f);
    let more = (w / 8192) % 2 == 1;
    let dont = (w / 16384) % 2 == 1;
    match v {
        FragmentViolation::LargeOffset => (w % 8192) * 8 + payload_len(f) > 65535,
        FragmentViolation::SameOffset => false,
        FragmentViolation::InvalidFragment => more && (payload_len(f) % 8 != 0 || dont),
    }
}

/// Start of the transport header.
pub open spec fn l4(f: Seq<u8>) -> int {
    14 + hdr_len(f)
}

pub open spec fn icmp_violated(v: ICMPViolation, f: Seq<u8>) -> bool {
    f[23] == 1 && match v {
        ICMPViolation::TooLarge => total_len(f) > 1024,
        _ => l4(f) < f.len() && f[l4(f)] as int == match v {
            ICMPViolation::SourceQuench => 4int,
            ICMPViolation::TimestampRequest => 13,
            ICMPViolation::TimestampReply => 14,
            ICMPViolation::InfoRequest => 15,
            ICMPViolation::InfoReply => 16,
            ICMPViolation::MaskRequest => 17,
            _ => 18,
        },
    }
}

pub open spec fn udp_violated(v: UDPViolation, f: Seq<u8>) -> bool {
    f[23] == 17 && l4(f) + 8 <= f.len() && match v {
        UDPViolation::ShortHeader => be16(f, l4(f) + 4) < 8,
        UDPViolation::Bomb => be16(f, l4(f) + 4) > payload_len(f),
    }
}

pub open spec fn tcp_violated(v: TCPViolation, f: Seq<u8>) -> bool {
    let fl = f[l4(f) + 13];
    f[23] == 6 && l4(f) + 14 <= f.len() && match v {
        TCPViolation::NoBitsSet => fl % 64 == 0,
        TCPViolation::SynAndFin => fl % 2 == 1 && (fl / 2) % 2 == 1,
        TCPViolation::FinNoAck => fl % 2 == 1 && (fl / 16) % 2 == 0,
    }
}

/// The port that the argument of a PORT command names, read from `p` up to
/// `end` or a CR or LF: six comma-separated decimal fields of one to five
/// digits, the port being the fifth times 256 plus the sixth. `field` is
/// the index of the field being read, `cur` its value so far, `hi` the
/// fifth field once read, `digits` the digits of the current field.
pub open spec fn port_argument(f: Seq<u8>, p: int, end: int, field: nat, cur: int, hi: int, digits: nat) -> Option<int>
    decreases end - p,
{
    if p >= end || p < 0 || end > f.len() || f[p] == 13 || f[p] == 10 {
        if field == 5 && digits > 0 {
            Some(hi * 256 + cur)
        } else {
            None
        }
    } else if 48 <= f[p] <= 57 {
        if digits >= 5 {
            None
        } else {
            port_argument(f, p + 1, end, field, cur * 10 + (f[p] - 48), hi, digits + 1)
        }
    } else if f[p] == 44 {
        if digits == 0 || field >= 5 {
            None
        } else {
            port_argument(f, p + 1, end, field + 1, 0, if field == 4 { cur } else { hi }, 0)
        }
    } else {
        None
    }
}

/// Offset of the TCP payload.
pub open spec fn tcp_payload(f: Seq<u8>) -> int {
    l4(f) + (f[l4(f) + 12] / 16) * 4
}

/// A TCP segment to port 21 whose payload starts with "PORT " and names a
/// port outside 1024..=65535.
pub open spec fn ftp_violated(v: FTPViolation, f: Seq<u8>) -> bool {
    let q = tcp_payload(f);
    &&& f[23] == 6
    &&& l4(f) + 14 <= f.len()
    &&& be16(f, l4(f) + 2) == 21
    &&& q + 5 <= f.len()
    &&& f[q] == 80 && f[q + 1] == 79 && f[q + 2] == 82 && f[q + 3] == 84 && f[q + 4] == 32
    &&& match port_argument(f, q + 5, f.len() as int, 0, 0, 0, 0) {
        Some(port) => port < 1024 || port > 65535,
        None => false,
    }
}

/// Ten to the power `d`, for `d` up to 5.
pub open spec fn digits_bound(d: nat) -> int {
    if d == 0 {
        1
    } else if d == 1 {
        10
    } else if d == 2 {
        100
    } else if d == 3 {
        1000
    } else if d == 4 {
        10000
    } else {
        100000
    }
}

fn scan_port_argument(f: &[u8], p: usize, field: u64, cur: u64, hi: u64, digits: u64) -> (r: Option<u64>)
    requires
        p <= f@.len(),
        digits <= 5,
        cur < digits_bound(digits as nat),
        hi < 100000,
        field <= 5,
    ensures
        r is Some <==> port_argument(f@, p as int, f@.len() as int, field as nat, cur as int, hi as int, digits as nat) is Some,
        r is Some ==> r->Some_0 as int == port_argument(f@, p as int, f@.len() as int, field as nat, cur as int, hi as int, digits as nat)->Some_0,
    decreases f@.len() - p,
{
    if p >= f.len() || f[p] == 13 || f[p] == 10 {
        if field == 5 && digits > 0 {
            Some(hi * 256 + cur)
        } else {
            None
        }
    } else if 48 <= f[p] && f[p] <= 57 {
        if digits >= 5 {
            None
        } else {
            scan_port_argument(f, p + 1, field, cur * 10 + (f[p] - 48) as u64, hi, digits + 1)
        }
    } else if f[p] == 44 {
        if digits == 0 || field >= 5 {
            None
        } else {
            scan_port_argument(f, p + 1, field + 1, 0, if field == 4 { cur } else { hi }, 0)
        }
    } else {
        None
    }
}

/// Whether an IPv4 frame breaks rule `v`.
pub open spec fn violates(v: Violation, f: Seq<u8>) -> bool {
    is_ipv4_frame(f) && match v {
        Violation::IpHeader(x) => ip_header_violated(x, f),
        Violation::IpOption(x) => ip_option_violated(x, f),
        Violation::Fragment(x) => fragment_violated(x, f),
        Violation::Icmp(x) => icmp_violated(x, f),
        Violation::Udp(x) => udp_violated(x, f),
        Violation::Tcp(x) => tcp_violated(x, f),
        Violation::Ftp(x) => ftp_violated(x, f),
    }
}

/// Whether rule `v` is enabled.
pub open spec fn enabled(rules: &DetectionRules, v: Violation) -> bool {
    match v {
        Violation::IpHeader(x) => rules.ip_header@.contains(x),
        Violation::IpOption(x) => rules.ip_option@.contains(x),
        Violation::Fragment(x) => rules.fragment@.contains(x),
        Violation::Icmp(x) => rules.icmp@.contains(x),
        Violation::Udp(x) => rules.udp@.contains(x),
        Violation::Tcp(x) => rules.tcp@.contains(x),
        Violation::Ftp(x) => rules.ftp@.contains(x),
    }
}

fn check_options(v: IPOptionViolation, f: &[u8], p: usize, end: usize) -> (r: bool)
    requires
        end <= f@.len(),
        p <= end + 1,
    ensures
        r == options_violated(v, f@, p as int, end as int),
    decreases end - p,
{
    if p >= end {
        false
    } else if f[p] == 0 {
        false
    } else if f[p] == 1 {
        check_options(v, f, p + 1, end)
    } else if p + 1 >= end || f[p + 1] < 2 || f[p + 1] as usize > end - p {
        v == IPOptionViolation::MalformedOption
    } else {
        let ty: i64 = f[p] as i64;
        let named: i64 = match v {
            IPOptionViolation::MalformedOption => -1,
            IPOptionViolation::SecurityOption => 130,
            IPOptionViolation::LooseRouting => 131,
            IPOptionViolation::RecordRoute => 7,
            IPOptionViolation::StreamId => 136,
            IPOptionViolation::StrictRouting => 137,
            IPOptionViolation::Timestamp => 68,
        };
        ty == named || check_options(v, f, p + f[p + 1] as usize, end)
    }
}

/// Whether an IPv4 frame (at least 34 bytes, EtherType IPv4) breaks rule `v`.
pub fn check_violation(v: Violation, f: &[u8]) -> (r: bool)
    requires
        is_ipv4_frame(f@),
    ensures
        r == violates(v, f@),
{
    let h: usize = ((f[14] % 16) as usize) * 4;
    let tl: usize = read_be16(f, 16) as usize;
    let pl: usize = if tl >= h {
        tl - h
    } else {
        0
    };
    let proto = f[23];
    let t: usize = 14 + h;
    match v {
        Violation::IpHeader(x) => match x {
            IPHeaderViolation::UnknownProtocol => proto >= 143,
            IPHeaderViolation::LandAttack => read_ipv4(f, 26) == read_ipv4(f, 30),
            IPHeaderViolation::ShortHeader => h < 20,
            IPHeaderViolation::MalformedPacket => tl > f.len() - 14 || tl < h,
        },
        Violation::IpOption(x) => h > 20 && t <= f.len() && check_options(x, f, 34, t),
        Violation::Fragment(x) => {
            let w = read_be16(f, 20);
            let more = (w / 8192) % 2 == 1;
            let dont = (w / 16384) % 2 == 1;
            match x {
                FragmentViolation::LargeOffset => ((w % 8192) as usize) * 8 + pl > 65535,
                FragmentViolation::SameOffset => false,
                FragmentViolation::InvalidFragment => more && (pl % 8 != 0 || dont),
            }
        },
        Violation::Icmp(x) => proto == 1 && match x {
            ICMPViolation::TooLarge => tl > 1024,
            _ => t < f.len() && f[t] == match x {
                ICMPViolation::SourceQuench => 4u8,
                ICMPViolation::TimestampRequest => 13,
                ICMPViolation::TimestampReply => 14,
                ICMPViolation::InfoRequest => 15,
                ICMPViolation::InfoReply => 16,
                ICMPViolation::MaskRequest => 17,
                _ => 18,
            },
        },
        Violation::Udp(x) => proto == 17 && t + 8 <= f.len() && match x {
            UDPViolation::ShortHeader => read_be16(f, t + 4) < 8,
            UDPViolation::Bomb => (read_be16(f, t + 4) as usize) > pl,
        },
        Violation::Tcp(x) => proto == 6 && t + 14 <= f.len() && {
            let fl = f[t + 13];
            match x {
                TCPViolation::NoBitsSet => fl % 64 == 0,
                TCPViolation::SynAndFin => fl % 2 == 1 && (fl / 2) % 2 == 1,
                TCPViolation::FinNoAck => fl % 2 == 1 && (fl / 16) % 2 == 0,
            }
        },
        Violation::Ftp(_) => proto == 6 && t + 14 <= f.len() && read_be16(f, t + 2) == 21 && {
            let q: usize = t + ((f[t + 12] / 16) as usize) * 4;
            q + 5 <= f.len() && f[q] == 80 && f[q + 1] == 79 && f[q + 2] == 82 && f[q + 3] == 84 && f[q + 4] == 32
                && match scan_port_argument(f, q + 5, 0, 0, 0, 0) {
                Some(port) => port < 1024 || port > 65535,
                None => false,
            }
        },
    }
}


/// The first enabled rule of the IpHeader category that the frame breaks.
fn scan_ip_header(rules: &Vec<IPHeaderViolation>, f: &[u8]) -> (r: Option<Violation>)
    requires
        is_ipv4_frame(f@),
    ensures
        r is Some ==> (r->Some_0 is IpHeader) && rules@.contains(r->Some_0->IpHeader_0) && violates(r->Some_0, f@),
        r is None ==> forall|x: IPHeaderViolation| rules@.contains(x) ==> !violates(Violation::IpHeader(x), f@),
{
    let mut i: usize = 0;
    while i < rules.len()
        invariant
            i <= rules@.len(),
            is_ipv4_frame(f@),
            forall|k: int| 0 <= k < i ==> !violates(Violation::IpHeader(#[trigger] rules@[k]), f@),
        decreases rules@.len() - i,
    {
        let v = Violation::IpHeader(rules[i]);
        if check_violation(v, f) {
            assert(rules@.contains(rules@[i as int]));
            return Some(v);
        }
        i = i + 1;
    }
    proof {
        assert forall|x: IPHeaderViolation| rules@.contains(x) implies !violates(Violation::IpHeader(x), f@) by {
            let k = choose|k: int| 0 <= k < rules@.len() && rules@[k] == x;
        }
    }
    None
}


/// The first enabled rule of the IpOption category that the frame breaks.
fn scan_ip_option(rules: &Vec<IPOptionViolation>, f: &[u8]) -> (r: Option<Violation>)
    requires
        is_ipv4_frame(f@),
    ensures
        r is Some ==> (r->Some_0 is IpOption) && rules@.contains(r->Some_0->IpOption_0) && violates(r->Some_0, f@),
        r is None ==> forall|x: IPOptionViolation| rules@.contains(x) ==> !violates(Violation::IpOption(x), f@),
{
    let mut i: usize = 0;
    while i < rules.len()
        invariant
            i <= rules@.len(),
            is_ipv4_frame(f@),
            forall|k: int| 0 <= k < i ==> !violates(Violation::IpOption(#[trigger] rules@[k]), f@),
        decreases rules@.len() - i,
    {
        let v = Violation::IpOption(rules[i]);
        if check_violation(v, f) {
            assert(rules@.contains(rules@[i as int]));
            return Some(v);
        }
        i = i + 1;
    }
    proof {
        assert forall|x: IPOptionViolation| rules@.contains(x) implies !violates(Violation::IpOption(x), f@) by {
            let k = choose|k: int| 0 <= k < rules@.len() && rules@[k] == x;
        }
    }
    None
}


/// The first enabled rule of the Fragment category that the frame breaks.
fn scan_fragment(rules: &Vec<FragmentViolation>, f: &[u8]) -> (r: Option<Violation>)
    requires
        is_ipv4_frame(f@),
    ensures
        r is Some ==> (r->Some_0 is Fragment) && rules@.contains(r->Some_0->Fragment_0) && violates(r->Some_0, f@),
        r is None ==> forall|x: FragmentViolation| rules@.contains(x) ==> !violates(Violation::Fragment(x), f@),
{
    let mut i: usize = 0;
    while i < rules.len()
        invariant
            i <= rules@.len(),
            is_ipv4_frame(f@),
            forall|k: int| 0 <= k < i ==> !violates(Violation::Fragment(#[trigger] rules@[k]), f@),
        decreases rules@.len() - i,
    {
        let v = Violation::Fragment(rules[i]);
        if check_violation(v, f) {
            assert(rules@.contains(rules@[i as int]));
            return Some(v);
        }
        i = i + 1;
    }
    proof {
        assert forall|x: FragmentViolation| rules@.contains(x) implies !violates(Violation::Fragment(x), f@) by {
            let k = choose|k: int| 0 <= k < rules@.len() && rules@[k] == x;
        }
    }
    None
}


/// The first enabled rule of the Icmp category that the frame breaks.
fn scan_icmp(rules: &Vec<ICMPViolation>, f: &[u8]) -> (r: Option<Violation>)
    requires
        is_ipv4_frame(f@),
    ensures
        r is Some ==> (r->Some_0 is Icmp) && rules@.contains(r->Some_0->Icmp_0) && violates(r->Some_0, f@),
        r is None ==> forall|x: ICMPViolation| rules@.contains(x) ==> !violates(Violation::Icmp(x), f@),
{
    let mut i: usize = 0;
    while i < rules.len()
        invariant
            i <= rules@.len(),
            is_ipv4_frame(f@),
            forall|k: int| 0 <= k < i ==> !violates(Violation::Icmp(#[trigger] rules@[k]), f@),
        decreases rules@.len() - i,
    {
        let v = Violation::Icmp(rules[i]);
        if check_violation(v, f) {
            assert(rules@.contains(rules@[i as int]));
            return Some(v);
        }
        i = i + 1;
    }
    proof {
        assert forall|x: ICMPViolation| rules@.contains(x) implies !violates(Violation::Icmp(x), f@) by {
            let k = choose|k: int| 0 <= k < rules@.len() && rules@[k] == x;
        }
    }
    None
}


/// The first enabled rule of the Udp category that the frame breaks.
fn scan_udp(rules: &Vec<UDPViolation>, f: &[u8]) -> (r: Option<Violation>)
    requires
        is_ipv4_frame(f@),
    ensures
        r is Some ==> (r->Some_0 is Udp) && rules@.contains(r->Some_0->Udp_0) && violates(r->Some_0, f@),
        r is None ==> forall|x: UDPViolation| rules@.contains(x) ==> !violates(Violation::Udp(x), f@),
{
    let mut i: usize = 0;
    while i < rules.len()
        invariant
            i <= rules@.len(),
            is_ipv4_frame(f@),
            forall|k: int| 0 <= k < i ==> !violates(Violation::Udp(#[trigger] rules@[k]), f@),
        decreases rules@.len() - i,
    {
        let v = Violation::Udp(rules[i]);
        if check_violation(v, f) {
            assert(rules@.contains(rules@[i as int]));
            return Some(v);
        }
        i = i + 1;
    }
    proof {
        assert forall|x: UDPViolation| rules@.contains(x) implies !violates(Violation::Udp(x), f@) by {
            let k = choose|k: int| 0 <= k < rules@.len() && rules@[k] == x;
        }
    }
    None
}


/// The first enabled rule of the Tcp category that the frame breaks.
fn scan_tcp(rules: &Vec<TCPViolation>, f: &[u8]) -> (r: Option<Violation>)
    requires
        is_ipv4_frame(f@),
    ensures
        r is Some ==> (r->Some_0 is Tcp) && rules@.contains(r->Some_0->Tcp_0) && violates(r->Some_0, f@),
        r is None ==> forall|x: TCPViolation| rules@.contains(x) ==> !violates(Violation::Tcp(x), f@),
{
    let mut i: usize = 0;
    while i < rules.len()
        invariant
            i <= rules@.len(),
            is_ipv4_frame(f@),
            forall|k: int| 0 <= k < i ==> !violates(Violation::Tcp(#[trigger] rules@[k]), f@),
        decreases rules@.len() - i,
    {
        let v = Violation::Tcp(rules[i]);
        if check_violation(v, f) {
            assert(rules@.contains(rules@[i as int]));
            return Some(v);
        }
        i = i + 1;
    }
    proof {
        assert forall|x: TCPViolation| rules@.contains(x) implies !violates(Violation::Tcp(x), f@) by {
            let k = choose|k: int| 0 <= k < rules@.len() && rules@[k] == x;
        }
    }
    None
}


/// The first enabled rule of the Ftp category that the frame breaks.
fn scan_ftp(rules: &Vec<FTPViolation>, f: &[u8]) -> (r: Option<Violation>)
    requires
        is_ipv4_frame(f@),
    ensures
        r is Some ==> (r->Some_0 is Ftp) && rules@.contains(r->Some_0->Ftp_0) && violates(r->Some_0, f@),
        r is None ==> forall|x: FTPViolation| rules@.contains(x) ==> !violates(Violation::Ftp(x), f@),
{
    let mut i: usize = 0;
    while i < rules.len()
        invariant
            i <= rules@.len(),
            is_ipv4_frame(f@),
            forall|k: int| 0 <= k < i ==> !violates(Violation::Ftp(#[trigger] rules@[k]), f@),
        decreases rules@.len() - i,
    {
        let v = Violation::Ftp(rules[i]);
        if check_violation(v, f) {
            assert(rules@.contains(rules@[i as int]));
            return Some(v);
        }
        i = i + 1;
    }
    proof {
        assert forall|x: FTPViolation| rules@.contains(x) implies !violates(Violation::Ftp(x), f@) by {
            let k = choose|k: int| 0 <= k < rules@.len() && rules@[k] == x;
        }
    }
    None
}

/// The first enabled rule that the frame breaks, categories in the order
/// IP header, IP options, fragment, ICMP, UDP, TCP, FTP; `None` for frames
/// other than IPv4 and for frames that break no enabled rule.
pub fn find_violation(rules: &DetectionRules, f: &[u8]) -> (r: Option<Violation>)
    ensures
        r is Some ==> enabled(rules, r->Some_0) && violates(r->Some_0, f@),
        r is None ==> forall|v: Violation| enabled(rules, v) ==> !violates(v, f@),
{
    if f.len() < 34 || read_be16(f, 12) != 0x0800 {
        return None;
    }
    let r = scan_ip_header(&rules.ip_header, f);
    if r.is_some() {
        return r;
    }
    let r = scan_ip_option(&rules.ip_option, f);
    if r.is_some() {
        return r;
    }
    let r = scan_fragment(&rules.fragment, f);
    if r.is_some() {
        return r;
    }
    let r = scan_icmp(&rules.icmp, f);
    if r.is_some() {
        return r;
    }
    let r = scan_udp(&rules.udp, f);
    if r.is_some() {
        return r;
    }
    let r = scan_tcp(&rules.tcp, f);
    if r.is_some() {
        return r;
    }
    let r = scan_ftp(&rules.ftp, f);
    if r.is_some() {
        return r;
    }
    proof {
        assert forall|v: Violation| enabled(rules, v) implies !violates(v, f@) by {
            match v {
                Violation::IpHeader(x) => {},
                Violation::IpOption(x) => {},
                Violation::Fragment(x) => {},
                Violation::Icmp(x) => {},
                Violation::Udp(x) => {},
                Violation::Tcp(x) => {},
                Violation::Ftp(x) => {},
            }
        }
    }
    None
}

/// The decision of the detector on a frame, and the rule it broke.
pub open spec fn inspection(config: &IDPSConfig, f: Seq<u8>, r: (AnalyzeResult, Option<Violation>)) -> bool {
    &&& !config.enabled ==> r == (AnalyzeResult::Accept, Option::<Violation>::None)
    &&& config.enabled && r.1 is Some ==> enabled(&config.rules, r.1->Some_0) && violates(r.1->Some_0, f)
    &&& config.enabled && r.1 is None ==> forall|v: Violation| enabled(&config.rules, v) ==> !violates(v, f)
    &&& r.0 == (if r.1 is Some && config.block_violations { AnalyzeResult::Reject } else { AnalyzeResult::Accept })
}

/// Checks a frame against the enabled rules. A broken rule rejects the
/// frame when blocking is on; it is reported either way, for the log.
pub fn inspect(config: &IDPSConfig, frame: &[u8]) -> (r: (AnalyzeResult, Option<Violation>))
    ensures
        inspection(config, frame@, r),
{
    if !config.enabled {
        return (AnalyzeResult::Accept, None);
    }
    let v = find_violation(&config.rules, frame);
    match v {
        Some(x) => {
            if config.block_violations {
                (AnalyzeResult::Reject, Some(x))
            } else {
                (AnalyzeResult::Accept, Some(x))
            }
        },
        None => (AnalyzeResult::Accept, None),
    }
}

} // verus!
