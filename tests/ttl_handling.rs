use rdb_tunnel::ttl::{TtlHandler, TtlProcessor};

fn ipv4_frame(ttl: u8) -> Vec<u8> {
    let mut f = vec![0u8; 12];
    f.extend_from_slice(&[0x08, 0x00]);
    f.extend_from_slice(&[0x45, 0, 0, 0x54, 0, 0, 0x40, 0, ttl, 1, 0, 0, 10, 0, 0, 1, 10, 0, 0, 2]);
    let c = header_checksum(&f[14..34]);
    f[24] = (c >> 8) as u8;
    f[25] = (c & 0xff) as u8;
    f
}

fn header_checksum(h: &[u8]) -> u16 {
    let mut s: u32 = 0;
    for i in (0..h.len()).step_by(2) {
        if i == 10 {
            continue;
        }
        s += ((h[i] as u32) << 8) | h[i + 1] as u32;
    }
    while s >> 16 != 0 {
        s = (s & 0xffff) + (s >> 16);
    }
    !(s as u16)
}

fn ones_sum(h: &[u8]) -> u32 {
    let mut s: u32 = 0;
    for i in (0..h.len()).step_by(2) {
        s += ((h[i] as u32) << 8) | h[i + 1] as u32;
    }
    while s >> 16 != 0 {
        s = (s & 0xffff) + (s >> 16);
    }
    s
}

#[test]
fn ttl_sixty_four_becomes_sixty_three_with_incremental_checksum() {
    let mut f = ipv4_frame(64);
    assert_eq!(u16::from_be_bytes([f[24], f[25]]), 0x26a7);
    let h = TtlHandler::new(2, 1);
    assert!(h.process_packet(&mut f));
    assert_eq!(f[22], 63);
    assert_eq!(u16::from_be_bytes([f[24], f[25]]), 0x27a7);
    assert_eq!(ones_sum(&f[14..34]), 0xffff);
}

#[test]
fn ttl_at_minimum_still_passes() {
    let mut f = ipv4_frame(2);
    let h = TtlHandler::new(2, 1);
    assert!(h.process_packet(&mut f));
    assert_eq!(f[22], 1);
    assert_eq!(ones_sum(&f[14..34]), 0xffff);
}

#[test]
fn ttl_below_minimum_is_dropped_unchanged() {
    let mut f = ipv4_frame(1);
    let before = f.clone();
    let h = TtlHandler::new(2, 1);
    assert!(!h.process_packet(&mut f));
    assert_eq!(f, before);
}

#[test]
fn ttl_decrement_saturates_at_zero() {
    let mut f = ipv4_frame(3);
    let h = TtlHandler::new(0, 10);
    assert!(h.process_packet(&mut f));
    assert_eq!(f[22], 0);
    assert_eq!(ones_sum(&f[14..34]), 0xffff);
}

#[test]
fn ipv6_hop_limit_is_decremented() {
    let mut f = vec![0u8; 12];
    f.extend_from_slice(&[0x86, 0xdd]);
    f.extend_from_slice(&[0x60, 0, 0, 0, 0, 0, 59, 9]);
    f.extend_from_slice(&[0u8; 32]);
    let h = TtlHandler::new(2, 1);
    assert!(h.process_packet(&mut f));
    assert_eq!(f[21], 8);
    let mut short = f[..40].to_vec();
    assert!(!h.process_packet(&mut short));
}

#[test]
fn short_and_foreign_frames() {
    let h = TtlHandler::new(2, 1);
    let mut tiny = vec![0u8; 10];
    assert!(!h.process_packet(&mut tiny));
    let mut arp = vec![0u8; 12];
    arp.extend_from_slice(&[0x08, 0x06, 1, 2, 3]);
    let before = arp.clone();
    assert!(h.process_packet(&mut arp));
    assert_eq!(arp, before);
    let mut short_ip = ipv4_frame(64)[..30].to_vec();
    assert!(!h.process_packet(&mut short_ip));
}

#[test]
fn ttl_processor_decrements_and_repairs() {
    let mut f = ipv4_frame(64);
    let p = TtlProcessor::new();
    assert!(p.is_valid_ttl(64));
    assert!(!p.is_valid_ttl(65));
    assert!(!p.is_valid_ttl(1));
    p.process_packet(&mut f, 14);
    assert_eq!(f[22], 63);
    assert_eq!(u16::from_be_bytes([f[24], f[25]]), 0x27a7);
}
