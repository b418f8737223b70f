use rdb_tunnel::arp::{parse_arp_packet, validate_and_mark_padding};
use rdb_tunnel::arp_controller::ArpController;
use rdb_tunnel::types::{AnalyzeResult, InetAddr};

fn arp_frame(padding: &[u8]) -> Vec<u8> {
    let mut f = vec![0xff; 6];
    f.extend_from_slice(&[0xaa, 0xbb, 0xcc, 0xdd, 0xee, 0xff, 0x08, 0x06]);
    f.extend_from_slice(&[0, 1, 8, 0, 6, 4, 0, 1]);
    f.extend_from_slice(&[0xaa, 0xbb, 0xcc, 0xdd, 0xee, 0xff, 10, 0, 0, 1]);
    f.extend_from_slice(&[0, 0, 0, 0, 0, 0, 10, 0, 0, 2]);
    f.extend_from_slice(padding);
    f
}

#[test]
fn burst_of_five_refuses_the_fifth_then_recovers() {
    let mut c = ArpController::new();
    let src = InetAddr::v4(10, 0, 0, 1);
    let dst = InetAddr::v4(10, 0, 0, 2);
    let t0: i64 = 1_700_000_000_000;
    let results: Vec<bool> = (0..5).map(|i| c.should_process_at(src, dst, t0 + i * 10)).collect();
    assert_eq!(results, vec![true, true, true, true, false]);
    assert!(c.should_process_at(src, dst, t0 + 40 + 200));
}

#[test]
fn normal_window_refuses_the_ninth_event_in_a_second() {
    let mut c = ArpController::new();
    let src = InetAddr::v4(10, 0, 0, 1);
    let dst = InetAddr::v4(10, 0, 0, 3);
    let mut passed = 0;
    for i in 0..9 {
        if c.should_process_at(src, dst, 1000 + i * 101) {
            passed += 1;
        }
    }
    assert_eq!(passed, 8);
    assert!(c.should_process_at(src, dst, 1000 + 2000));
}

#[test]
fn pairs_are_counted_separately() {
    let mut c = ArpController::new();
    let a = InetAddr::v4(10, 0, 0, 1);
    for i in 0..4 {
        assert!(c.should_process_at(a, InetAddr::v4(10, 0, 0, 2), i));
    }
    assert!(c.should_process_at(a, InetAddr::v4(10, 0, 0, 3), 5));
    assert_eq!(c.len(), 2);
}

#[test]
fn table_stays_bounded_under_many_pairs() {
    let mut c = ArpController::new();
    for i in 0..6000u32 {
        c.should_process_at(InetAddr::V4(i), InetAddr::V4(1), 10);
        assert!(c.len() <= 5000);
        assert!(c.burst_count.len() <= 5000);
    }
    assert!(c.len() <= 2501);
    assert!(c.burst_count.len() <= 5000);
    // once the windows have elapsed, the sweep empties the table
    assert!(c.should_process_at(InetAddr::V4(999_999), InetAddr::V4(1), 5000));
    assert_eq!(c.len(), 1);
    assert_eq!(c.burst_count.len(), 1);
}

#[test]
fn valid_arp_is_marked_once() {
    let f = arp_frame(&[0, 0, 0, 0]);
    let marked = parse_arp_packet(&f).unwrap().unwrap();
    assert_eq!(marked[42], 1);
    assert_eq!(&marked[..42], &f[..42]);
    assert_eq!(parse_arp_packet(&marked).unwrap_err(), AnalyzeResult::Reject);
}

#[test]
fn arp_without_padding_is_accepted_unchanged() {
    let f = arp_frame(&[]);
    assert_eq!(parse_arp_packet(&f).unwrap().unwrap(), f);
}

#[test]
fn foreign_arp_headers_are_rejected() {
    let mut f = arp_frame(&[0]);
    f[15] = 6;
    assert_eq!(parse_arp_packet(&f).unwrap_err(), AnalyzeResult::Reject);
    let mut g = arp_frame(&[0]);
    g[19] = 16;
    assert_eq!(parse_arp_packet(&g).unwrap_err(), AnalyzeResult::Reject);
    assert_eq!(parse_arp_packet(&f[..30]).unwrap_err(), AnalyzeResult::Reject);
}

#[test]
fn dirty_padding_is_rejected() {
    let mut f = arp_frame(&[0, 0, 7, 0]);
    assert_eq!(validate_and_mark_padding(&mut f), Err(AnalyzeResult::Reject));
    assert_eq!(f[42], 0);
    let mut g = arp_frame(&[2]);
    assert_eq!(validate_and_mark_padding(&mut g), Err(AnalyzeResult::Reject));
}

#[test]
fn burst_table_stays_bounded_when_pairs_arrive_within_one_burst_window() {
    let mut c = ArpController::new();
    for i in 0..12000u32 {
        c.should_process_at(InetAddr::V4(i), InetAddr::V4(2), 1000 + (i as i64 % 50));
        assert!(c.burst_count.len() <= 5000);
        assert!(c.normal_count.len() <= 5000);
    }
}
