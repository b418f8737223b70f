use rdb_tunnel::config::parse_tap_address;
use rdb_tunnel::dedup::{DuplicateChecker, PacketIdentifier, PacketTracker};
use rdb_tunnel::errors::{InterfaceError, TaskError};
use rdb_tunnel::idps::{
    inspect, DetectionRules, FTPViolation, ICMPViolation, IDPSConfig, IPHeaderViolation, IPOptionViolation, TCPViolation,
    UDPViolation, Violation,
};
use rdb_tunnel::logger::{set_log_file, set_output_mode, LogSettings, OutputMode};
use rdb_tunnel::metrics::PacketMetrics;
use rdb_tunnel::tasks::{handle_task_result, shutdown_step, task_ended_error, ShutdownStep, TaskKind, TaskOutcome, TaskState};
use rdb_tunnel::text::decimal_string;
use rdb_tunnel::types::{AnalyzeResult, EtherType, InetAddr, IpProtocol, PacketData, Protocol, MacAddr};

fn ipv4(src: [u8; 4], dst: [u8; 4], proto: u8, l4: &[u8]) -> Vec<u8> {
    let mut f = vec![0u8; 12];
    f.extend_from_slice(&[0x08, 0x00]);
    let tl = (20 + l4.len()) as u16;
    f.extend_from_slice(&[0x45, 0, (tl >> 8) as u8, tl as u8, 0, 0, 0x40, 0, 64, proto, 0, 0]);
    f.extend_from_slice(&src);
    f.extend_from_slice(&dst);
    f.extend_from_slice(l4);
    f
}

fn config_with(rules: DetectionRules) -> IDPSConfig {
    let mut c = IDPSConfig::default();
    c.rules = rules;
    c
}

fn no_rules() -> DetectionRules {
    IDPSConfig::default().rules
}

#[test]
fn land_attack_is_rejected() {
    let mut rules = no_rules();
    rules.ip_header.push(IPHeaderViolation::LandAttack);
    let c = config_with(rules);
    let f = ipv4([1, 2, 3, 4], [1, 2, 3, 4], 17, &[0, 1, 0, 2, 0, 8, 0, 0]);
    assert_eq!(inspect(&c, &f), (AnalyzeResult::Reject, Some(Violation::IpHeader(IPHeaderViolation::LandAttack))));
    let g = ipv4([1, 2, 3, 4], [1, 2, 3, 5], 17, &[0, 1, 0, 2, 0, 8, 0, 0]);
    assert_eq!(inspect(&c, &g), (AnalyzeResult::Accept, None));
}

#[test]
fn disabled_rules_and_detector_accept() {
    let f = ipv4([1, 2, 3, 4], [1, 2, 3, 4], 17, &[0, 1, 0, 2, 0, 8, 0, 0]);
    assert_eq!(inspect(&IDPSConfig::default(), &f), (AnalyzeResult::Accept, None));
    let mut rules = no_rules();
    rules.ip_header.push(IPHeaderViolation::LandAttack);
    let mut c = config_with(rules);
    c.block_violations = false;
    assert_eq!(inspect(&c, &f).0, AnalyzeResult::Accept);
    assert!(inspect(&c, &f).1.is_some());
    c.enabled = false;
    assert_eq!(inspect(&c, &f), (AnalyzeResult::Accept, None));
}

#[test]
fn protocol_rules() {
    let mut rules = no_rules();
    rules.ip_header.push(IPHeaderViolation::UnknownProtocol);
    rules.icmp.push(ICMPViolation::TimestampRequest);
    rules.udp.push(UDPViolation::ShortHeader);
    rules.tcp.push(TCPViolation::SynAndFin);
    let c = config_with(rules);
    let icmp = ipv4([1, 1, 1, 1], [2, 2, 2, 2], 1, &[13, 0, 0, 0, 0, 0, 0, 0]);
    assert_eq!(inspect(&c, &icmp).1, Some(Violation::Icmp(ICMPViolation::TimestampRequest)));
    let echo = ipv4([1, 1, 1, 1], [2, 2, 2, 2], 1, &[8, 0, 0, 0, 0, 0, 0, 0]);
    assert_eq!(inspect(&c, &echo).1, None);
    let udp = ipv4([1, 1, 1, 1], [2, 2, 2, 2], 17, &[0, 1, 0, 2, 0, 4, 0, 0]);
    assert_eq!(inspect(&c, &udp).1, Some(Violation::Udp(UDPViolation::ShortHeader)));
    let mut tcp_l4 = vec![0u8; 20];
    tcp_l4[13] = 0x03;
    let tcp = ipv4([1, 1, 1, 1], [2, 2, 2, 2], 6, &tcp_l4);
    assert_eq!(inspect(&c, &tcp).1, Some(Violation::Tcp(TCPViolation::SynAndFin)));
    let odd = ipv4([1, 1, 1, 1], [2, 2, 2, 2], 200, &[0; 8]);
    assert_eq!(inspect(&c, &odd).1, Some(Violation::IpHeader(IPHeaderViolation::UnknownProtocol)));
}

#[test]
fn record_route_option_is_found() {
    let mut rules = no_rules();
    rules.ip_option.push(IPOptionViolation::RecordRoute);
    rules.ip_option.push(IPOptionViolation::MalformedOption);
    let c = config_with(rules);
    let mut f = ipv4([1, 1, 1, 1], [2, 2, 2, 2], 17, &[0, 1, 0, 2, 0, 8, 0, 0]);
    f[14] = 0x46;
    f.splice(34..34, [1u8, 7, 3, 0]);
    assert_eq!(inspect(&c, &f).1, Some(Violation::IpOption(IPOptionViolation::RecordRoute)));
    f[36] = 9;
    assert_eq!(inspect(&c, &f).1, Some(Violation::IpOption(IPOptionViolation::MalformedOption)));
}

#[test]
fn identical_frames_within_interval_are_rejected() {
    let mut d = DuplicateChecker::new_at(0);
    let f = ipv4([1, 1, 1, 1], [2, 2, 2, 2], 17, &[0; 8]);
    assert_eq!(d.check_packet_at(&f, 100), None);
    assert_eq!(d.check_packet_at(&f, 200), Some(AnalyzeResult::Reject));
    assert_eq!(d.check_packet_at(&f, 5000), None);
    assert_eq!(d.check_packet_at(&f[..20], 5001), None);
    assert_eq!(d.check_packet_at(&f[..20], 5002), None);
}

#[test]
fn tracker_remembers_and_sweeps() {
    let mut t = PacketTracker::new_at(100);
    let a = PacketIdentifier::new_at(InetAddr::V4(1), InetAddr::V4(2), 6, 10, 20, 100);
    let b = PacketIdentifier::new_at(InetAddr::V4(1), InetAddr::V4(2), 6, 10, 20, 150);
    assert!(!t.is_duplicate(&a));
    assert!(t.is_duplicate(&a));
    assert!(!t.is_duplicate(&b));
    t.cleanup_if_needed_at(150);
    assert_eq!(t.recent_packets.len(), 2);
    t.cleanup_if_needed_at(170);
    assert_eq!(t.recent_packets, vec![b]);
    assert_eq!(t.last_cleanup, 170);
}

#[test]
fn metrics_count_and_format() {
    let mut m = PacketMetrics::new();
    let p = PacketData {
        src_mac: MacAddr(0, 0, 0, 0, 0, 0),
        dst_mac: MacAddr(0, 0, 0, 0, 0, 0),
        ether_type: Protocol(0x0800),
        src_ip: InetAddr::V4(0),
        dst_ip: InetAddr::V4(0),
        src_port: 0,
        dst_port: 0,
        ip_protocol: Protocol(17),
        timestamp: 0,
        data: vec![],
        raw_packet: vec![],
    };
    m.record_packet(&p);
    m.record_packet(&p);
    m.record_decision(false);
    assert_eq!(m.total_packets, 2);
    assert_eq!(m.ipv4_packets, 2);
    assert_eq!(m.udp_packets, 2);
    assert_eq!(
        m.format_metrics(),
        "Packet Statistics:\nTotal: 2, Processed: 0, Dropped: 0\nIPv4: 2, IPv6: 0, ARP: 0\nTCP: 0, UDP: 2, ICMP: 0\nAllowed: 0, Blocked: 1\nErrors: Parse=0, Process=0"
    );
}

#[test]
fn decimal_text() {
    assert_eq!(decimal_string(0), "0");
    assert_eq!(decimal_string(1024), "1024");
    assert_eq!(decimal_string(u64::MAX), "18446744073709551615");
}

#[test]
fn task_supervision_decisions() {
    let mut s = TaskState::new();
    assert!(s.is_all_inactive());
    s.set_all(true);
    assert_eq!(shutdown_step(&s, 0, 1000), ShutdownStep::Wait);
    assert_eq!(
        handle_task_result(&mut s, TaskKind::Writer, TaskOutcome::Failed("db down".to_string())),
        Err(TaskError::ExecutionError("db down".to_string()))
    );
    assert!(!s.writer_active && s.polling_active);
    assert_eq!(
        task_ended_error(&mut s, TaskKind::Polling, TaskOutcome::Completed, "ended".to_string()),
        TaskError::TaskExecutionError("ended".to_string())
    );
    assert_eq!(
        handle_task_result(&mut s, TaskKind::Analysis, TaskOutcome::Panicked("boom".to_string())),
        Err(TaskError::PanicError("boom".to_string()))
    );
    assert_eq!(shutdown_step(&s, 100, 1000), ShutdownStep::Done);
    s.update_task_state(TaskKind::Analysis, true);
    assert_eq!(shutdown_step(&s, 1000, 1000), ShutdownStep::TimedOut);
}

#[test]
fn log_settings_decide_when_to_open_the_file() {
    let mut s = LogSettings::new();
    assert!(!set_output_mode(&mut s, OutputMode::FileOnly));
    assert!(set_log_file(&mut s, "idps.log".to_string()));
    s.file_opened(true);
    assert!(!set_output_mode(&mut s, OutputMode::All));
    assert!(!set_log_file(&mut LogSettings { mode: OutputMode::ConsoleOnly, file_path: None, file_open: false }, "x".to_string()));
    assert!(!set_output_mode(&mut s, OutputMode::Disabled));
}

#[test]
fn tap_address_parses_cidr() {
    assert_eq!(parse_tap_address("10.0.0.1/24").unwrap(), (InetAddr::v4(10, 0, 0, 1), 24));
    assert_eq!(parse_tap_address("fe80::1/64").unwrap(), (InetAddr::V6(0xfe80_0000_0000_0000_0000_0000_0000_0001), 64));
    assert!(matches!(parse_tap_address("10.0.0.1/40"), Err(InterfaceError::PurseIpAddressError(_))));
    assert!(matches!(parse_tap_address("nonsense"), Err(InterfaceError::PurseIpAddressError(_))));
}

#[test]
fn protocol_number_helpers() {
    assert!(EtherType::new(0x0800).is_ethernet_protocol());
    assert!(!EtherType::new(0x05dc).is_ethernet_protocol());
    assert!(IpProtocol::new(17).is_transport_protocol());
    assert!(IpProtocol::new(58).is_icmp());
    assert!(!IpProtocol::new(2).is_icmp());
    assert_eq!(Protocol::from_u16(0x86dd).as_i32(), 0x86dd);
    assert!(Protocol::from_u8(6).is_ip());
    assert!(!Protocol::ethernet(0x0806).is_ip());
    assert!(Protocol::ip(0x0806).is_ethernet());
}

fn ftp_port_frame(arg: &str) -> Vec<u8> {
    let mut tcp = vec![0xc0, 0x00, 0x00, 21, 0, 0, 0, 1, 0, 0, 0, 0, 0x50, 0x18, 0xff, 0xff, 0, 0, 0, 0];
    tcp.extend_from_slice(format!("PORT {}\r\n", arg).as_bytes());
    ipv4([10, 0, 0, 1], [10, 0, 0, 2], 6, &tcp)
}

#[test]
fn ftp_port_outside_unprivileged_range_is_flagged() {
    let mut rules = no_rules();
    rules.ftp.push(FTPViolation::ImproperPort);
    let c = config_with(rules);
    assert_eq!(inspect(&c, &ftp_port_frame("10,0,0,1,0,21")).1, Some(Violation::Ftp(FTPViolation::ImproperPort)));
    assert_eq!(inspect(&c, &ftp_port_frame("10,0,0,1,4,1")), (AnalyzeResult::Accept, None));
    assert_eq!(inspect(&c, &ftp_port_frame("10,0,0,1,300,0")).1, Some(Violation::Ftp(FTPViolation::ImproperPort)));
    assert_eq!(inspect(&c, &ftp_port_frame("garbage")).1, None);
}

#[test]
fn stats_count_protocols_and_nonzero_ports() {
    let mut s = rdb_tunnel::stats::PacketStats::new(0);
    s.update(Protocol(6), 60, 1234, 80);
    s.update(Protocol(6), 40, 0, 80);
    s.update(Protocol(17), 100, 53, 0);
    assert_eq!(s.total_packets, 3);
    assert_eq!(s.total_bytes, 200);
    assert_eq!(s.protocol_counts.get(&6), Some(&2));
    assert_eq!(s.protocol_counts.get(&17), Some(&1));
    assert_eq!(s.port_counts.get(&80), Some(&2));
    assert_eq!(s.port_counts.get(&0), None);
    assert_eq!(s.port_counts.len(), 3);
}

#[test]
fn protocol_numbers_convert_from_raw_values() {
    assert_eq!(EtherType::from(0x86ddu16), EtherType::new(0x86dd));
    assert_eq!(IpProtocol::from(17u8).value(), 17);
}
