use rdb_tunnel::errors::PacketError;
use rdb_tunnel::reader::{is_broadcast_ip, PacketReader, PacketSender, PollWindow};
use rdb_tunnel::types::{InetAddr, MacAddr, Packet};

fn row(src: InetAddr, dst: InetAddr, ts: i64, size: usize) -> Packet {
    Packet {
        src_mac: MacAddr(0, 0, 0, 0, 0, 1),
        dst_mac: MacAddr(0, 0, 0, 0, 0, 2),
        ether_type: 0x0800,
        src_ip: src,
        dst_ip: dst,
        src_port: Some(1),
        dst_port: Some(2),
        ip_protocol: 17,
        timestamp: ts,
        data: vec![],
        raw_packet: vec![0; size],
    }
}

#[test]
fn inject_filter_admits_local_broadcast_and_multicast() {
    let me = InetAddr::v4(172, 17, 0, 2);
    let mut r = PacketReader::new(me);
    let other = InetAddr::v4(8, 8, 4, 4);
    let rows = vec![
        row(other, me, 1, 60),
        row(other, InetAddr::v4(255, 255, 255, 255), 2, 60),
        row(other, InetAddr::v4(224, 0, 0, 1), 3, 60),
        row(other, InetAddr::v4(9, 9, 9, 9), 4, 60),
    ];
    let out = r.finish_poll(rows, 100);
    let ts: Vec<i64> = out.iter().map(|p| p.timestamp).collect();
    assert_eq!(ts, vec![1, 2, 3]);
    assert_eq!(r.last_timestamp, Some(4));
}

#[test]
fn tunnel_prefix_is_admitted_by_either_address() {
    let me = InetAddr::v4(172, 17, 0, 2);
    let r = PacketReader::new(me);
    assert!(r.should_process_packet(&row(InetAddr::v4(192, 168, 0, 7), InetAddr::v4(9, 9, 9, 9), 0, 60)));
    assert!(r.should_process_packet(&row(InetAddr::v4(9, 9, 9, 9), InetAddr::v4(192, 168, 0, 200), 0, 60)));
    assert!(!r.should_process_packet(&row(InetAddr::v4(9, 9, 9, 9), InetAddr::v4(192, 168, 1, 1), 0, 60)));
}

#[test]
fn poll_windows_follow_the_watermark() {
    let mut r = PacketReader::new(InetAddr::v4(1, 1, 1, 1));
    assert_eq!(r.poll_window(), PollWindow::LastSeconds(30));
    let out = r.finish_poll(vec![], 777);
    assert!(out.is_empty());
    assert_eq!(r.poll_window(), PollWindow::After(777));
    r.last_timestamp = None;
    assert_eq!(r.poll_window(), PollWindow::LastSeconds(5));
}

#[test]
fn broadcast_classification() {
    assert!(is_broadcast_ip(&InetAddr::v4(255, 255, 255, 255)));
    assert!(is_broadcast_ip(&InetAddr::v4(239, 255, 255, 250)));
    assert!(!is_broadcast_ip(&InetAddr::v4(240, 0, 0, 1)));
    assert!(is_broadcast_ip(&InetAddr::V6(0xff02_0000_0000_0000_0000_0000_0000_0001)));
    assert!(!is_broadcast_ip(&InetAddr::V6(1)));
}

#[test]
fn oversize_frames_are_refused() {
    assert!(PacketSender::check_packet_size(&row(InetAddr::V4(1), InetAddr::V4(2), 0, 1500)).is_ok());
    assert_eq!(
        PacketSender::check_packet_size(&row(InetAddr::V4(1), InetAddr::V4(2), 0, 1501)),
        Err(PacketError::PacketSizeTooLarge(1501))
    );
}

#[test]
fn send_counts_reset_each_tick() {
    let mut r = PacketReader::new(InetAddr::V4(1));
    r.record_send(true);
    r.record_send(true);
    r.record_send(false);
    assert_eq!(r.take_counts(), (2, 1));
    assert_eq!(r.take_counts(), (0, 0));
}
