use rdb_tunnel::decoder::{decode_frame, parse_network_layer, PacketAnalyzer};
use rdb_tunnel::ethernet::{parse_ethernet_header, parse_ether_type};
use rdb_tunnel::ip::{parse_ip_header, IpVersion};
use rdb_tunnel::transport::parse_transport_header;
use rdb_tunnel::types::{AnalyzeResult, InetAddr, MacAddr, Protocol};

fn eth(ether_type: u16) -> Vec<u8> {
    let mut f = vec![0x11, 0x22, 0x33, 0x44, 0x55, 0x66, 0xaa, 0xbb, 0xcc, 0xdd, 0xee, 0xff];
    f.push((ether_type >> 8) as u8);
    f.push((ether_type & 0xff) as u8);
    f
}

fn ipv4_tcp_frame() -> Vec<u8> {
    let mut f = eth(0x0800);
    // IPv4 header, IHL 5, protocol TCP, 10.0.0.1 -> 10.0.0.2
    f.extend_from_slice(&[0x45, 0, 0, 44, 0, 0, 0x40, 0, 64, 6, 0, 0, 10, 0, 0, 1, 10, 0, 0, 2]);
    // TCP header: 1234 -> 80, data offset 5
    f.extend_from_slice(&[0x04, 0xd2, 0x00, 0x50, 0, 0, 0, 1, 0, 0, 0, 0, 0x50, 0x18, 0xff, 0xff, 0, 0, 0, 0]);
    f.extend_from_slice(b"data");
    f
}

#[test]
fn macs_come_from_the_first_twelve_bytes() {
    let f = ipv4_tcp_frame();
    let p = decode_frame(&f, 7);
    assert_eq!(p.dst_mac, MacAddr(0x11, 0x22, 0x33, 0x44, 0x55, 0x66));
    assert_eq!(p.src_mac, MacAddr(0xaa, 0xbb, 0xcc, 0xdd, 0xee, 0xff));
    assert_eq!(p.timestamp, 7);
    assert_eq!(p.raw_packet, f);
}

#[test]
fn ipv4_tcp_frame_decodes_addresses_ports_and_payload() {
    let f = ipv4_tcp_frame();
    let p = decode_frame(&f, 0);
    assert_eq!(p.ether_type, Protocol(0x0800));
    assert_eq!(p.src_ip, InetAddr::v4(10, 0, 0, 1));
    assert_eq!(p.dst_ip, InetAddr::v4(10, 0, 0, 2));
    assert_eq!(p.ip_protocol, Protocol(6));
    assert_eq!(p.src_port, 1234);
    assert_eq!(p.dst_port, 80);
    assert_eq!(p.data, b"data".to_vec());
}

#[test]
fn ipv4_transport_offset_is_fourteen_plus_ihl_words() {
    let mut f = ipv4_tcp_frame();
    let l = parse_network_layer(&f);
    assert_eq!(l.transport_offset, 34);
    // IHL 6: one option word
    f[14] = 0x46;
    f.splice(34..34, [1u8, 1, 1, 0]);
    let l = parse_network_layer(&f);
    assert_eq!(l.transport_offset, 38);
    assert_eq!(l.src_port, 1234);
}

#[test]
fn udp_payload_follows_eight_byte_header() {
    let mut f = eth(0x0800);
    f.extend_from_slice(&[0x45, 0, 0, 32, 0, 0, 0, 0, 64, 17, 0, 0, 192, 168, 0, 1, 8, 8, 8, 8]);
    f.extend_from_slice(&[0x13, 0x88, 0x00, 0x35, 0, 12, 0, 0]);
    f.extend_from_slice(&[9, 9, 9, 9]);
    let p = decode_frame(&f, 0);
    assert_eq!(p.src_port, 5000);
    assert_eq!(p.dst_port, 53);
    assert_eq!(p.data, vec![9, 9, 9, 9]);
}

#[test]
fn ipv6_frame_decodes_addresses_and_ports() {
    let mut f = eth(0x86DD);
    f.extend_from_slice(&[0x60, 0, 0, 0, 0, 8, 17, 64]);
    let mut src = [0u8; 16];
    src[0] = 0xfe;
    src[1] = 0x80;
    src[15] = 1;
    let mut dst = [0u8; 16];
    dst[0] = 0xff;
    dst[1] = 0x02;
    dst[15] = 2;
    f.extend_from_slice(&src);
    f.extend_from_slice(&dst);
    f.extend_from_slice(&[0x02, 0x22, 0x02, 0x23, 0, 8, 0, 0]);
    let p = decode_frame(&f, 0);
    assert_eq!(p.src_ip, InetAddr::V6(u128::from_be_bytes(src)));
    assert_eq!(p.dst_ip, InetAddr::V6(u128::from_be_bytes(dst)));
    assert_eq!(p.ip_protocol, Protocol(17));
    assert_eq!(p.src_port, 546);
    assert_eq!(p.dst_port, 547);
    assert_eq!(p.data, f[54..].to_vec());
}

#[test]
fn arp_frame_yields_sender_and_target() {
    let mut f = eth(0x0806);
    f.extend_from_slice(&[0, 1, 8, 0, 6, 4, 0, 1]);
    f.extend_from_slice(&[0xaa, 0xbb, 0xcc, 0xdd, 0xee, 0xff, 10, 0, 0, 1]);
    f.extend_from_slice(&[0, 0, 0, 0, 0, 0, 10, 0, 0, 2]);
    let p = decode_frame(&f, 0);
    assert_eq!(p.src_ip, InetAddr::v4(10, 0, 0, 1));
    assert_eq!(p.dst_ip, InetAddr::v4(10, 0, 0, 2));
    assert_eq!(p.ip_protocol, Protocol(0));
    assert_eq!(p.data, f[14..].to_vec());
}

#[test]
fn unknown_ether_type_keeps_macs_and_zeroes_addresses() {
    let mut f = eth(0x1234);
    f.extend_from_slice(&[1, 2, 3]);
    let p = decode_frame(&f, 0);
    assert_eq!(p.src_mac, MacAddr(0xaa, 0xbb, 0xcc, 0xdd, 0xee, 0xff));
    assert_eq!(p.ether_type, Protocol(0x1234));
    assert_eq!(p.src_ip, InetAddr::V4(0));
    assert_eq!(p.dst_ip, InetAddr::V4(0));
    assert_eq!(p.src_port, 0);
    assert_eq!(p.data, vec![1, 2, 3]);
}

#[test]
fn short_frame_gives_empty_record() {
    let f = vec![1u8, 2, 3, 4, 5];
    let p = PacketAnalyzer::analyze_packet(&f);
    assert_eq!(p.src_mac, MacAddr(0, 0, 0, 0, 0, 0));
    assert_eq!(p.ether_type, Protocol(0));
    assert!(p.data.is_empty());
    assert_eq!(p.raw_packet, f);
}

#[test]
fn ethernet_header_splits_off_payload() {
    let f = ipv4_tcp_frame();
    let (h, rest) = parse_ethernet_header(&f).unwrap();
    assert_eq!(h.ether_type.value(), 0x0800);
    assert_eq!(h.dst_mac, MacAddr(0x11, 0x22, 0x33, 0x44, 0x55, 0x66));
    assert_eq!(rest, &f[14..]);
    assert_eq!(parse_ether_type(&f).value(), 0x0800);
    assert!(parse_ethernet_header(&f[..13]).is_none());
}

#[test]
fn ip_header_of_ipv4_and_ipv6() {
    let f = ipv4_tcp_frame();
    let h = parse_ip_header(&f[14..]).unwrap();
    assert_eq!(h.version, IpVersion::V4);
    assert_eq!(h.ip_protocol.value(), 6);
    assert_eq!(h.src_ip, InetAddr::v4(10, 0, 0, 1));
    assert_eq!(h.header_length, 20);
    assert!(parse_ip_header(&[0x45, 0, 0]).is_none());
    let mut v6 = vec![0x60u8; 40];
    v6[6] = 58;
    let h6 = parse_ip_header(&v6).unwrap();
    assert_eq!(h6.version, IpVersion::V6);
    assert_eq!(h6.ip_protocol.value(), 58);
    assert_eq!(h6.header_length, 40);
}

#[test]
fn transport_header_reads_ports_and_flags() {
    let f = ipv4_tcp_frame();
    let t = parse_transport_header(&f[14..]).unwrap();
    assert_eq!(t.src_port, 1234);
    assert_eq!(t.dst_port, 80);
    assert_eq!(t.flags, 0x50);
    assert_eq!(parse_transport_header(&f[14..40]).unwrap_err(), AnalyzeResult::Reject);
    assert_eq!(parse_transport_header(&[0x45; 10]).unwrap_err(), AnalyzeResult::Reject);
}
