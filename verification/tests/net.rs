use p2p_vpn::net::{show_ipv4, show_ipv6, IpAddr, IpNet};

#[test]
fn parses_networks_of_both_families() {
    assert_eq!(
        IpNet::parse("10.1.2.3/24"),
        Some(IpNet { addr: IpAddr::V4(0x0a010203), prefix_len: 24 })
    );
    assert_eq!(
        IpNet::parse("2001:db8::1/32"),
        Some(IpNet {
            addr: IpAddr::V6(0x2001_0db8_0000_0000_0000_0000_0000_0001),
            prefix_len: 32
        })
    );
    assert_eq!(IpNet::parse("10.1.2.3/33"), None);
    assert_eq!(IpNet::parse("10.1.2.3"), None);
    assert_eq!(IpNet::parse(""), None);
}

fn net(text: &str) -> IpNet {
    IpNet::parse(text).unwrap()
}

#[test]
fn networks_contain_their_subnets() {
    assert!(net("10.0.0.0/8").contains(&net("10.1.2.3/24")));
    assert!(net("10.200.0.7/8").contains(&net("10.1.2.3/24")));
    assert!(!net("10.1.2.0/24").contains(&net("10.0.0.0/8")));
    assert!(net("10.1.2.3/24").contains(&net("10.1.2.4/24")));
    assert!(net("0.0.0.0/0").contains(&net("255.255.255.255/32")));
    assert!(net("2001:db8::/32").contains(&net("2001:db8:cafe::42/48")));
    assert!(!net("2001:db8::/32").contains(&net("2001:db9::/48")));
    assert!(net("::/0").contains(&net("ffff::/16")));
    // Families are kept apart.
    assert!(!net("::/0").contains(&net("10.0.0.0/8")));
    assert!(!net("0.0.0.0/0").contains(&net("::/0")));
}

#[test]
fn containment_goes_by_the_addresses() {
    // 192.168.0.0/23 are the addresses from 192.168.0.0 up to 192.168.1.255.
    let outer = net("192.168.1.7/23");
    assert!(outer.contains(&net("192.168.0.0/32")));
    assert!(outer.contains(&net("192.168.1.255/32")));
    assert!(!outer.contains(&net("192.168.2.0/32")));
    assert!(!outer.contains(&net("192.167.255.255/32")));
}

#[test]
fn families_have_names_and_lengths() {
    let v4 = IpAddr::V4(1);
    let v6 = IpAddr::V6(1);
    assert_eq!((v4.family_label(), v4.host_prefix_len()), ("v4", 32));
    assert_eq!((v6.family_label(), v6.host_prefix_len()), ("v6", 128));
}

#[test]
fn addresses_are_written() {
    for (addr, text) in [(0, "0.0.0.0"), (0x0a010203, "10.1.2.3"), (u32::MAX, "255.255.255.255")] {
        assert_eq!(show_ipv4(addr), text);
    }
    assert_eq!(show_ipv6(1), "::1");
    assert_eq!(show_ipv6(0x20010db8 << 96 | 0xfe1), "2001:db8::fe1");
}
