use rdb_tunnel::firewall::{Filter, FirewallPacket, IpFirewall, Policy};
use rdb_tunnel::types::{InetAddr, MacAddr, Packet};
use rdb_tunnel::writer::default_firewall;

fn packet(dst: InetAddr, dst_port: u16) -> FirewallPacket {
    FirewallPacket::new(
        MacAddr(1, 2, 3, 4, 5, 6),
        MacAddr(6, 5, 4, 3, 2, 1),
        0x0800,
        InetAddr::v4(10, 0, 0, 9),
        dst,
        4,
        6,
        40000,
        dst_port,
    )
}

#[test]
fn blacklist_hits_and_misses() {
    let mut fw = IpFirewall::new(Policy::Blacklist);
    fw.add_rule(Filter::DstIpAddress(InetAddr::v4(160, 251, 175, 134)), 100);
    fw.add_rule(Filter::DstPort(13432), 90);
    assert!(!fw.check(&packet(InetAddr::v4(160, 251, 175, 134), 80)));
    assert!(!fw.check(&packet(InetAddr::v4(10, 0, 0, 1), 13432)));
    assert!(fw.check(&packet(InetAddr::v4(10, 0, 0, 1), 80)));
}

#[test]
fn empty_rules_follow_the_policy_default() {
    let p = packet(InetAddr::v4(1, 2, 3, 4), 22);
    assert!(IpFirewall::new(Policy::Blacklist).check(&p));
    assert!(!IpFirewall::new(Policy::Whitelist).check(&p));
}

#[test]
fn whitelist_admits_only_matches() {
    let mut fw = IpFirewall::new(Policy::Whitelist);
    fw.add_rule(Filter::SrcMacAddress(MacAddr(1, 2, 3, 4, 5, 6)), 1);
    assert!(fw.check(&packet(InetAddr::v4(1, 1, 1, 1), 1)));
    let mut other = packet(InetAddr::v4(1, 1, 1, 1), 1);
    other.src_mac = MacAddr(0, 0, 0, 0, 0, 0);
    assert!(!fw.check(&other));
}

#[test]
fn rules_are_kept_in_descending_priority() {
    let mut fw = IpFirewall::new(Policy::Blacklist);
    fw.add_rule(Filter::DstPort(1), 10);
    fw.add_rule(Filter::DstPort(2), 30);
    fw.add_rule(Filter::DstPort(3), 20);
    fw.add_rule(Filter::DstPort(4), 20);
    let order: Vec<i32> = fw.rules.iter().map(|r| r.priority).collect();
    assert_eq!(order, vec![30, 20, 20, 10]);
    assert_eq!(fw.rules[1].filter, Filter::DstPort(3));
    assert_eq!(fw.rules[2].filter, Filter::DstPort(4));
}

#[test]
fn address_families_never_match_each_other() {
    let mut fw = IpFirewall::new(Policy::Blacklist);
    fw.add_rule(Filter::DstIpAddress(InetAddr::V6(0x0a00_0001)), 1);
    assert!(fw.check(&packet(InetAddr::V4(0x0a00_0001), 1)));
}

#[test]
fn other_filters_compare_their_fields() {
    let p = packet(InetAddr::v4(1, 1, 1, 1), 1);
    for (f, hit) in [
        (Filter::EtherType(0x0800), true),
        (Filter::EtherType(0x86dd), false),
        (Filter::IPProtocol(6), true),
        (Filter::IPProtocol(17), false),
        (Filter::SrcPort(40000), true),
        (Filter::SrcIpAddress(InetAddr::v4(10, 0, 0, 9)), true),
        (Filter::DstMacAddress(MacAddr(6, 5, 4, 3, 2, 1)), true),
    ] {
        let mut fw = IpFirewall::new(Policy::Whitelist);
        fw.add_rule(f, 5);
        assert_eq!(fw.check(&p), hit);
    }
}

#[test]
fn firewall_packet_from_stored_row() {
    let row = Packet {
        src_mac: MacAddr(1, 1, 1, 1, 1, 1),
        dst_mac: MacAddr(2, 2, 2, 2, 2, 2),
        ether_type: 0x86dd,
        src_ip: InetAddr::V6(5),
        dst_ip: InetAddr::V6(6),
        src_port: None,
        dst_port: Some(443),
        ip_protocol: 6,
        timestamp: 0,
        data: vec![],
        raw_packet: vec![],
    };
    let fp = FirewallPacket::from_packet(&row);
    assert_eq!(fp.ip_version, 6);
    assert_eq!(fp.src_port, 0);
    assert_eq!(fp.dst_port, 443);
    assert_eq!(fp.ether_type, 0x86dd);
}

#[test]
fn default_rules_block_the_three_targets() {
    let fw = default_firewall();
    assert!(!fw.check(&packet(InetAddr::v4(160, 251, 175, 134), 80)));
    assert!(!fw.check(&packet(InetAddr::v4(10, 0, 0, 1), 2222)));
    assert!(fw.check(&packet(InetAddr::v4(10, 0, 0, 1), 22)));
}
