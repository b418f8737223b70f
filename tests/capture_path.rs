use rdb_tunnel::errors::MonitorError;
use rdb_tunnel::idps::{DetectionRules, IDPSConfig, IPHeaderViolation, Violation};
use rdb_tunnel::monitor::{InterfaceSide, NetworkMonitor};
use rdb_tunnel::pipeline::{CapturePipeline, DropReason, FrameOutcome};
use rdb_tunnel::ttl::TtlHandler;

fn udp_frame(src: [u8; 4], dst: [u8; 4], ttl: u8, dst_port: u16) -> Vec<u8> {
    let mut f = vec![2, 0, 0, 0, 0, 1, 2, 0, 0, 0, 0, 2, 0x08, 0x00];
    f.extend_from_slice(&[0x45, 0, 0, 28, 0, 0, 0, 0, ttl, 17, 0, 0]);
    f.extend_from_slice(&src);
    f.extend_from_slice(&dst);
    f.extend_from_slice(&[0x30, 0x39]);
    f.extend_from_slice(&dst_port.to_be_bytes());
    f.extend_from_slice(&[0, 8, 0, 0]);
    f
}

fn arp_frame(marker: u8) -> Vec<u8> {
    let mut f = vec![0xff; 6];
    f.extend_from_slice(&[2, 0, 0, 0, 0, 9, 0x08, 0x06]);
    f.extend_from_slice(&[0, 1, 8, 0, 6, 4, 0, 1]);
    f.extend_from_slice(&[2, 0, 0, 0, 0, 9, 10, 0, 0, 1]);
    f.extend_from_slice(&[0, 0, 0, 0, 0, 0, 10, 0, 0, 2]);
    f.extend_from_slice(&[marker, 0, 0, 0]);
    f
}

fn land_rules() -> IDPSConfig {
    let mut c = IDPSConfig::default();
    c.rules = DetectionRules {
        ip_header: vec![IPHeaderViolation::LandAttack],
        ip_option: vec![],
        fragment: vec![],
        icmp: vec![],
        udp: vec![],
        tcp: vec![],
        ftp: vec![],
    };
    c
}

#[test]
fn frames_flow_to_buffer_or_are_dropped() {
    let mut p = CapturePipeline::new(land_rules(), TtlHandler::new(2, 1), 0);
    assert_eq!(p.process_frame_at(vec![0; 5], 1), Err(MonitorError::InvalidPacketSize));
    assert_eq!(
        p.process_frame_at(udp_frame([1, 2, 3, 4], [1, 2, 3, 4], 64, 80), 1),
        Ok(FrameOutcome::Dropped(DropReason::Intrusion(Violation::IpHeader(IPHeaderViolation::LandAttack))))
    );
    assert_eq!(p.process_frame_at(udp_frame([1, 2, 3, 4], [5, 6, 7, 8], 64, 80), 2), Ok(FrameOutcome::Buffered));
    assert_eq!(
        p.process_frame_at(udp_frame([1, 2, 3, 4], [5, 6, 7, 8], 64, 80), 3),
        Ok(FrameOutcome::Dropped(DropReason::Duplicate))
    );
    assert_eq!(
        p.process_frame_at(udp_frame([1, 2, 3, 4], [5, 6, 7, 9], 1, 80), 4),
        Ok(FrameOutcome::Dropped(DropReason::Ttl))
    );
    assert_eq!(p.process_frame_at(udp_frame([1, 2, 3, 4], [5, 6, 7, 10], 64, 2222), 5), Ok(FrameOutcome::Blocked));
    let stored = p.writer.buffer.drain();
    assert_eq!(stored.len(), 1);
    assert_eq!(stored[0].raw_packet[22], 63);
    assert_eq!(p.metrics.allowed_packets, 1);
    assert_eq!(p.metrics.blocked_packets, 1);
    assert_eq!(p.metrics.parse_errors, 1);
    assert_eq!(p.metrics.total_packets, 5);
    assert_eq!(p.metrics.ipv4_packets, 5);
    assert_eq!(p.metrics.udp_packets, 5);
    assert_eq!(p.metrics.dropped_packets, 3);
    assert_eq!(p.metrics.processed_packets, 2);
}

#[test]
fn arp_frames_are_validated_marked_and_rate_limited() {
    let mut p = CapturePipeline::new(IDPSConfig::default(), TtlHandler::new(0, 0), 0);
    assert_eq!(p.process_frame_at(arp_frame(1), 10), Ok(FrameOutcome::Dropped(DropReason::InvalidArp)));
    assert_eq!(p.process_frame_at(arp_frame(0), 10), Ok(FrameOutcome::Buffered));
    let stored = p.writer.buffer.drain();
    assert_eq!(stored[0].raw_packet[42], 1);
    for t in 11..14 {
        let out = p.process_frame_at(arp_frame(0), t);
        assert_eq!(out, Ok(FrameOutcome::Dropped(DropReason::Duplicate)));
    }
}

#[test]
fn monitor_finds_tap_and_tags_errors() {
    let names = vec!["eth0".to_string(), "tap0".to_string(), "tap0".to_string()];
    assert_eq!(NetworkMonitor::find_tap0_interface(&names), Ok(1));
    assert_eq!(
        NetworkMonitor::find_tap0_interface(&vec!["lo".to_string()]),
        Err(MonitorError::InterfaceNotFound("tap0".to_string()))
    );
    assert_eq!(
        NetworkMonitor::interface_result(InterfaceSide::Tap, Err("down".to_string())),
        Err(MonitorError::TapInterfaceError("down".to_string()))
    );
    assert_eq!(NetworkMonitor::interface_result(InterfaceSide::Main, Ok(())), Ok(()));
}
