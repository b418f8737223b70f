
use rdb_tunnel::types::{InetAddr, MacAddr, PacketData, Protocol};
use rdb_tunnel::writer::{rdb_tunnel_packet_write, PacketBuffer, PacketRepository, PacketWriter};

fn record(n: i64) -> PacketData {
    PacketData {
        src_mac: MacAddr(0, 0, 0, 0, 0, 1),
        dst_mac: MacAddr(0, 0, 0, 0, 0, 2),
        ether_type: Protocol(0x0800),
        src_ip: InetAddr::V4(1),
        dst_ip: InetAddr::V4(2),
        src_port: 1,
        dst_port: 2,
        ip_protocol: Protocol(6),
        timestamp: n,
        data: vec![],
        raw_packet: vec![n as u8],
    }
}

fn frame_to(dst: [u8; 4], dst_port: u16) -> Vec<u8> {
    let mut f = vec![0u8; 12];
    f.extend_from_slice(&[0x08, 0x00]);
    f.extend_from_slice(&[0x45, 0, 0, 40, 0, 0, 0, 0, 64, 17, 0, 0, 10, 0, 0, 9]);
    f.extend_from_slice(&dst);
    f.extend_from_slice(&[0x30, 0x39]);
    f.extend_from_slice(&dst_port.to_be_bytes());
    f.extend_from_slice(&[0, 8, 0, 0]);
    f
}

#[test]
fn drain_returns_pushes_in_order_and_empties() {
    let mut b = PacketBuffer::new();
    for i in 0..5 {
        b.push(record(i));
    }
    let out = b.drain();
    let ts: Vec<i64> = out.iter().map(|p| p.timestamp).collect();
    assert_eq!(ts, vec![0, 1, 2, 3, 4]);
    assert!(b.is_empty());
    assert_eq!(b.len(), 0);
    assert!(b.drain().is_empty());
}

#[test]
fn twenty_five_hundred_packets_make_three_inserts() {
    let mut w = PacketWriter::new();
    for i in 0..2500 {
        w.buffer.push(record(i));
    }
    let batches = w.take_batches();
    let sizes: Vec<usize> = batches.iter().map(|b| b.len()).collect();
    assert_eq!(sizes, vec![1000, 1000, 500]);
    assert_eq!(batches[1][0].timestamp, 1000);
    assert_eq!(batches[2][499].timestamp, 2499);
    assert!(w.buffer.is_empty());
    let groups: Vec<usize> = batches
        .iter()
        .map(|b| PacketRepository::build_bulk_insert_query(b.len()).matches('(').count() - 1)
        .collect();
    assert_eq!(groups, vec![1000, 1000, 500]);
}

#[test]
fn chunking_small_and_empty_inputs() {
    assert!(PacketRepository::chunk_packets(vec![]).is_empty());
    let c = PacketRepository::chunk_packets(vec![record(1), record(2)]);
    assert_eq!(c.len(), 1);
    assert_eq!(c[0].len(), 2);
}

#[test]
fn insert_statement_numbers_placeholders_per_row() {
    let q = PacketRepository::build_bulk_insert_query(2);
    assert_eq!(
        q,
        "INSERT INTO packets (src_mac, dst_mac, ether_type, src_ip, dst_ip, src_port, dst_port, ip_protocol, timestamp, data, raw_packet) VALUES ($1,$2,$3,$4,$5,$6,$7,$8,$9,$10,$11),($12,$13,$14,$15,$16,$17,$18,$19,$20,$21,$22)"
    );
}

#[test]
fn writer_buffers_admitted_frames_only() {
    let mut w = PacketWriter::new();
    assert!(w.process_packet_at(&frame_to([10, 0, 0, 1], 80), 5));
    assert!(!w.process_packet_at(&frame_to([160, 251, 175, 134], 80), 6));
    assert!(!w.process_packet_at(&frame_to([10, 0, 0, 1], 13432), 7));
    assert!(!w.process_packet_at(&[0u8; 10], 8));
    assert!(rdb_tunnel_packet_write(&mut w, &frame_to([10, 0, 0, 3], 53)));
    let out = w.buffer.drain();
    assert_eq!(out.len(), 2);
    assert_eq!(out[0].timestamp, 5);
    assert_eq!(out[0].dst_port, 80);
    assert_eq!(out[1].dst_ip, InetAddr::v4(10, 0, 0, 3));
}
