use p2p_vpn::buffer_pool::BufferPool;
use p2p_vpn::net::{IpAddr, IpNet};
use p2p_vpn::tun::packet::{
    format_packet, inet_slice, join_packet_text, IcmpGateway, IcmpType, InternetSlice, PacketError,
    RxPacket, TxPacket,
};

/// Parses an address.
fn ip(text: &str) -> IpAddr {
    let prefix_len = if text.contains(':') { 128 } else { 32 };
    IpNet::parse(&format!("{}/{}", text, prefix_len)).unwrap().addr
}

// Minimal valid IPv4 UDP packet (20B IP + 8B UDP)
// Src: 192.168.1.10, Dst: 8.8.8.8
const MOCK_IPV4_PACKET: [u8; 28] = [
    0x45, 0x00, 0x00, 0x1c, 0x00, 0x00, 0x40, 0x00, 0x40, 0x11, 0xb8, 0x2d, 0xc0, 0xa8, 0x01,
    0x0a, 0x08, 0x08, 0x08, 0x08, 0x0b, 0xb8, 0x0b, 0xb8, 0x00, 0x08, 0x00, 0x00,
];

// Minimal valid IPv6 UDP packet (40B IP + 8B UDP)
// Src: 2001:db8::fe1, Dst: 2001:db8::fe2
const MOCK_IPV6_PACKET: [u8; 48] = [
    0x60, 0x00, 0x00, 0x00, 0x00, 0x08, 0x11, 0x40, 0x20, 0x01, 0x0d, 0xb8, 0x00, 0x00, 0x00,
    0x00, 0x00, 0x00, 0x00, 0x00, 0x00, 0x00, 0x0f, 0xe1, 0x20, 0x01, 0x0d, 0xb8, 0x00, 0x00,
    0x00, 0x00, 0x00, 0x00, 0x00, 0x00, 0x00, 0x00, 0x0f, 0xe2, 0x0b, 0xb8, 0x0b, 0xb8, 0x00,
    0x08, 0x00, 0x00,
];

#[test]
fn test_ipv4_mtu_too_large() {
    let gateway = IcmpGateway::from_addr(ip("8.8.4.4"));
    let mut buf = Vec::with_capacity(128);
    // Request MTU 1400 (0x0578)
    let to_addr = gateway
        .generate_reply(&mut buf, &MOCK_IPV4_PACKET, IcmpType::packet_too_big(1400))
        .unwrap();

    let expected = [
        // IPv4 Header
        0x45, 0x00, 0x00, 0x38, 0x00, 0x00, 0x00, 0x00, 0x40, 0x01, 0xad, 0x07, 0x08, 0x08,
        0x04, 0x04, 0xc0, 0xa8, 0x01, 0x0a,
        // ICMPv4 Header (Type 3, Code 4, Checksum, MTU 1400 at the end)
        0x03, 0x04, 0x90, 0xed, 0x00, 0x00, 0x05, 0x78, // Original payload
        0x45, 0x00, 0x00, 0x1c, 0x00, 0x00, 0x40, 0x00, 0x40, 0x11, 0xb8, 0x2d, 0xc0, 0xa8,
        0x01, 0x0a, 0x08, 0x08, 0x08, 0x08, 0x0b, 0xb8, 0x0b, 0xb8, 0x00, 0x08, 0x00, 0x00,
    ];

    assert_eq!(buf.as_slice(), &expected[..]);
    assert_eq!(to_addr, ip("192.168.1.10"));
}

#[test]
fn test_ipv6_mtu_too_large() {
    let gateway = IcmpGateway::from_addr(ip("2001:db8::1"));
    let mut buf = Vec::with_capacity(128);
    // Request MTU 1280 (0x00000500)
    let to_addr = gateway
        .generate_reply(&mut buf, &MOCK_IPV6_PACKET, IcmpType::packet_too_big(1280))
        .unwrap();

    let expected = [
        // IPv6 Header (Src: 2001:db8::1, Dst: 2001:db8::fe2, NextHeader: 58 (ICMPv6), PayloadLen: 56)
        0x60, 0x00, 0x00, 0x00, 0x00, 0x38, 0x3a, 0x40, 0x20, 0x01, 0x0d, 0xb8, 0x00, 0x00,
        0x00, 0x00, 0x00, 0x00, 0x00, 0x00, 0x00, 0x00, 0x00, 0x01, 0x20, 0x01, 0x0d, 0xb8,
        0x00, 0x00, 0x00, 0x00, 0x00, 0x00, 0x00, 0x00, 0x00, 0x00, 0x0f, 0xe1,
        // ICMPv6 Packet Too Big (Type: 2, Code: 0, Checksum, MTU: 0x00000500)
        0x02, 0x00, 0x89, 0x43, 0x00, 0x00, 0x05, 0x00,
        // Original payload appended (48B)
        0x60, 0x00, 0x00, 0x00, 0x00, 0x08, 0x11, 0x40, 0x20, 0x01, 0x0d, 0xb8, 0x00, 0x00,
        0x00, 0x00, 0x00, 0x00, 0x00, 0x00, 0x00, 0x00, 0x0f, 0xe1, 0x20, 0x01, 0x0d, 0xb8,
        0x00, 0x00, 0x00, 0x00, 0x00, 0x00, 0x00, 0x00, 0x00, 0x00, 0x0f, 0xe2, 0x0b, 0xb8,
        0x0b, 0xb8, 0x00, 0x08, 0x00, 0x00,
    ];

    assert_eq!(buf.as_slice(), &expected[..]);
    assert_eq!(to_addr, ip("2001:db8::fe1"));
}

#[test]
fn test_ipv4_no_route() {
    let gateway = IcmpGateway::from_addr(ip("8.8.4.4"));
    let mut buf = Vec::with_capacity(128);
    let to_addr = gateway
        .generate_reply(&mut buf, &MOCK_IPV4_PACKET, IcmpType::unreachable_net())
        .unwrap();

    // Expected output layout: 20B IP header + 8B ICMP header + 28B original packet
    let expected = [
        // IPv4 Header (Dst: 192.168.1.10, Src: 8.8.4.4, Proto: 1 (ICMP), Len: 56)
        0x45, 0x00, 0x00, 0x38, 0x00, 0x00, 0x00, 0x00, 0x40, 0x01, 0xad, 0x07, 0x08, 0x08,
        0x04, 0x04, 0xc0, 0xa8, 0x01, 0x0a,
        // ICMPv4 Header (Type: 3 (Unreachable), Code: 6 (Network Unreachable), Checksum)
        0x03, 0x06, 0x96, 0x63, 0x00, 0x00, 0x00, 0x00, // Original payload appended
        0x45, 0x00, 0x00, 0x1c, 0x00, 0x00, 0x40, 0x00, 0x40, 0x11, 0xb8, 0x2d, 0xc0, 0xa8,
        0x01, 0x0a, 0x08, 0x08, 0x08, 0x08, 0x0b, 0xb8, 0x0b, 0xb8, 0x00, 0x08, 0x00, 0x00,
    ];

    assert_eq!(buf.as_slice(), &expected[..]);
    assert_eq!(to_addr, ip("192.168.1.10"));
}

#[test]
fn test_ipv6_no_route() {
    let gateway = IcmpGateway::from_addr(ip("2001:db8::1"));
    let mut buf = Vec::with_capacity(128);
    let to_addr = gateway
        .generate_reply(&mut buf, &MOCK_IPV6_PACKET, IcmpType::unreachable_net())
        .unwrap();

    // Expected output layout: 40B IPv6 header + 8B ICMPv6 header + 48B original packet
    let expected = [
        // IPv6 Header (Src: 2001:db8::1, Dst: 2001:db8::fe2, NextHeader: 58 (ICMPv6), PayloadLen: 56)
        0x60, 0x00, 0x00, 0x00, 0x00, 0x38, 0x3a, 0x40, 0x20, 0x01, 0x0d, 0xb8, 0x00, 0x00,
        0x00, 0x00, 0x00, 0x00, 0x00, 0x00, 0x00, 0x00, 0x00, 0x01, 0x20, 0x01, 0x0d, 0xb8,
        0x00, 0x00, 0x00, 0x00, 0x00, 0x00, 0x00, 0x00, 0x00, 0x00, 0x0f, 0xe1,
        // ICMPv6 Header (Type: 1 (Unreachable), Code: 0 (No Route to Dest))
        0x01, 0x00, 0x8f, 0x43, 0x00, 0x00, 0x00, 0x00, // Original payload appended
        0x60, 0x00, 0x00, 0x00, 0x00, 0x08, 0x11, 0x40, 0x20, 0x01, 0x0d, 0xb8, 0x00, 0x00,
        0x00, 0x00, 0x00, 0x00, 0x00, 0x00, 0x00, 0x00, 0x0f, 0xe1, 0x20, 0x01, 0x0d, 0xb8,
        0x00, 0x00, 0x00, 0x00, 0x00, 0x00, 0x00, 0x00, 0x00, 0x00, 0x0f, 0xe2, 0x0b, 0xb8,
        0x0b, 0xb8, 0x00, 0x08, 0x00, 0x00,
    ];

    assert_eq!(buf.as_slice(), &expected[..]);
    assert_eq!(to_addr, ip("2001:db8::fe1"));
}

#[test]
fn unreachable_hosts_have_their_own_codes() {
    let mut buf = vec![];
    IcmpGateway::from_addr(ip("8.8.4.4"))
        .generate_reply(&mut buf, &MOCK_IPV4_PACKET, IcmpType::unreachable_host())
        .unwrap();
    assert_eq!(&buf[20..22], &[3, 1]);
    let mut buf = vec![];
    IcmpGateway::from_addr(ip("2001:db8::1"))
        .generate_reply(&mut buf, &MOCK_IPV6_PACKET, IcmpType::unreachable_host())
        .unwrap();
    assert_eq!(&buf[40..42], &[1, 3]);
}

#[test]
fn addresses_are_extracted() {
    assert_eq!(
        inet_slice(&MOCK_IPV4_PACKET),
        Ok(InternetSlice::Ipv4 { source: 0xc0a8010a, destination: 0x08080808 })
    );
    assert_eq!(
        inet_slice(&MOCK_IPV6_PACKET),
        Ok(InternetSlice::Ipv6 {
            source: 0x2001_0db8_0000_0000_0000_0000_0000_0fe1,
            destination: 0x2001_0db8_0000_0000_0000_0000_0000_0fe2,
        })
    );
    for packet in [&MOCK_IPV4_PACKET[..19], &[]] {
        let error = inet_slice(packet).unwrap_err();
        let cause = etherparse::SlicedPacket::from_ip(packet).err().unwrap();
        assert!(matches!(&error, PacketError::Parse(causes) if causes[0] == cause.to_string()));
        let expected = anyhow::Error::new(cause).context("parsing packet IP addresses");
        assert!(format!("{:?}", expected).starts_with(&error.message()), "{:?}", expected);
        assert!(error.message().contains("\n\nCaused by:\n    0: "), "{}", error.message());
    }
    assert_eq!(PacketError::NoNetwork.message(), "no network information in packet");
}

/// The sum of 16-bit words, folded to 16 bits.
fn folded_sum(bytes: &[u8]) -> u32 {
    let mut sum: u32 = 0;
    for word in bytes.chunks(2) {
        sum += 256 * word[0] as u32 + *word.get(1).unwrap_or(&0) as u32;
    }
    while sum > 0xffff {
        sum = (sum & 0xffff) + (sum >> 16);
    }
    sum
}

#[test]
fn answers_carry_checksums() {
    let gateway = IcmpGateway { own_ipv4: Some(0x08080404), own_ipv6: Some(0x20010db8 << 96) };
    // Payloads of even and of odd length.
    for len in [0, 1, 2, 27, 28, 63, 64, 80] {
        let original: Vec<u8> = (0..len).map(|i: u8| i.wrapping_mul(37)).collect();
        for icmp in [
            IcmpType::unreachable_net(),
            IcmpType::unreachable_host(),
            IcmpType::packet_too_big(1400),
        ] {
            let mut buf = vec![];
            let addresses = InternetSlice::Ipv4 { source: 0xc0a8010a, destination: 1 };
            gateway.reply_to(&mut buf, &original, addresses, icmp).unwrap();
            assert_eq!(folded_sum(&buf[..20]), 0xffff);
            assert_eq!(folded_sum(&buf[20..]), 0xffff);
            assert_ne!(&buf[10..12], &[0xff, 0xff]);
            assert_ne!(&buf[22..24], &[0xff, 0xff]);

            let mut buf = vec![];
            let addresses = InternetSlice::Ipv6 { source: 0x20010db8 << 96 | 9, destination: 1 };
            gateway.reply_to(&mut buf, &original, addresses, icmp).unwrap();
            // The addresses, the number of the protocol, the length, and the message.
            let mut summed = buf[8..40].to_vec();
            summed.extend([0, 58, 0, buf.len() as u8 - 40]);
            summed.extend(&buf[40..]);
            assert_eq!(folded_sum(&summed), 0xffff);
            assert_ne!(&buf[42..44], &[0xff, 0xff]);
        }
    }
}

/// What the parser shows of a packet.
fn shown(packet: &[u8]) -> String {
    let text = format!("{:?}", etherparse::SlicedPacket::from_ip(packet).unwrap().net.unwrap());
    assert!(text.starts_with("Ipv4(Ipv4Slice") || text.starts_with("Ipv6(Ipv6Slice"), "{}", text);
    text
}

#[test]
fn packets_without_an_answer_leave_the_buffer() {
    let v4 = IcmpGateway::from_addr(ip("8.8.4.4"));
    let v6 = IcmpGateway::from_addr(ip("2001:db8::1"));
    let icmp = IcmpType::packet_too_big(1280);
    let mut buf = vec![7u8];
    assert_eq!(v4.generate_reply(&mut buf, &[], icmp), Err(PacketError::Empty));
    let error = v4.generate_reply(&mut buf, &[0xff; 40], icmp).unwrap_err();
    assert!(matches!(error, PacketError::Parse(_)));
    let no_v6 = v4.generate_reply(&mut buf, &MOCK_IPV6_PACKET, icmp).unwrap_err();
    assert_eq!(no_v6, PacketError::NoAddress(shown(&MOCK_IPV6_PACKET), v4));
    let no_v4 = v6.generate_reply(&mut buf, &MOCK_IPV4_PACKET, icmp).unwrap_err();
    assert_eq!(no_v4, PacketError::NoAddress(shown(&MOCK_IPV4_PACKET), v6));
    assert_eq!(buf, vec![7]);
    assert_eq!(PacketError::Empty.message(), "Empty packet");
    assert_eq!(
        no_v6.message(),
        format!(
            "No address configured/available for protocol {}: IcmpGateway {{ own_ipv4: \
             Some(8.8.4.4), own_ipv6: None }}",
            shown(&MOCK_IPV6_PACKET)
        )
    );
    assert_eq!(
        no_v4.message(),
        format!(
            "No address configured/available for protocol {}: IcmpGateway {{ own_ipv4: None, \
             own_ipv6: Some(2001:db8::1) }}",
            shown(&MOCK_IPV4_PACKET)
        )
    );
    assert_eq!(
        PacketError::BuildIcmpv4(vec!["too long".to_string()]).message(),
        "building ICMPv4 packet\n\nCaused by:\n    too long"
    );
    assert_eq!(
        PacketError::BuildIcmpv6(vec!["too long".to_string()]).message(),
        "building ICMPv6 packet\n\nCaused by:\n    too long"
    );
}

#[test]
fn answers_are_appended() {
    let mut buf = vec![7u8];
    IcmpGateway::from_addr(ip("8.8.4.4"))
        .generate_reply(&mut buf, &MOCK_IPV4_PACKET, IcmpType::unreachable_net())
        .unwrap();
    assert_eq!(buf[0], 7);
    assert_eq!(buf.len(), 1 + 28 + 28);
    // The answer goes to where the packet comes from.
    assert_eq!(&buf[1 + 16..1 + 20], &MOCK_IPV4_PACKET[12..16]);
}

#[test]
fn answers_quote_no_more_than_64_bytes() {
    // A UDP packet with 100 bytes of payload.
    let mut packet = MOCK_IPV4_PACKET.to_vec();
    packet.extend((0..100).collect::<Vec<u8>>());
    packet[3] = 128;
    packet[25] = 108;
    let mut buf = vec![];
    IcmpGateway::from_addr(ip("8.8.4.4"))
        .generate_reply(&mut buf, &packet, IcmpType::packet_too_big(100))
        .unwrap();
    assert_eq!(buf.len(), 28 + 64);
    assert_eq!(&buf[28..], &packet[..64]);
    assert_eq!(&buf[2..4], &[0, 92]);

    // With the addresses given, the rest of the packet does not matter.
    let gateway = IcmpGateway { own_ipv4: Some(1), own_ipv6: Some(2) };
    let mut buf = vec![];
    let addresses = InternetSlice::Ipv6 { source: 3, destination: 4 };
    let to = gateway.reply_to(&mut buf, &[5; 70], addresses, IcmpType::packet_too_big(258));
    assert_eq!(to, Ok(Some(IpAddr::V6(3))));
    assert_eq!(buf.len(), 48 + 64);
    assert_eq!(buf[23], 2);
    assert_eq!(buf[39], 3);
    assert_eq!(&buf[40..42], &[2, 0]);
    assert_eq!(&buf[44..48], &[0, 0, 1, 2]);
    assert_eq!(&buf[48..], &[5; 64]);

    // Without a local address of the version there is no answer.
    let gateway = IcmpGateway { own_ipv4: Some(1), own_ipv6: None };
    let to = gateway.reply_to(&mut buf, &[5; 70], addresses, IcmpType::packet_too_big(258));
    assert_eq!(to, Ok(None));
    assert_eq!(buf.len(), 48 + 64);
}

#[test]
fn gateways_have_one_address() {
    assert_eq!(
        IcmpGateway::from_addr(IpAddr::V4(1)),
        IcmpGateway { own_ipv4: Some(1), own_ipv6: None }
    );
    assert_eq!(
        IcmpGateway::from_addr(IpAddr::V6(1)),
        IcmpGateway { own_ipv4: None, own_ipv6: Some(1) }
    );
}

#[test]
fn packets_are_shown_with_headers_and_bytes() {
    let text = format_packet(&MOCK_IPV4_PACKET);
    assert!(text.starts_with("TxPacket { sliced: PacketHeaders {"), "{}", text);
    assert!(text.contains(", payload: "), "{}", text);
    assert!(text.contains("45 00 00 1c"), "{}", text);
    assert!(text.ends_with(" }"), "{}", text);

    let text = format_packet(&[0xff, 0x01]);
    assert!(text.starts_with("TxPacket { payload: "), "{}", text);
    assert!(text.contains("ff 01"), "{}", text);

    assert_eq!(join_packet_text(Some("H"), "B"), "TxPacket { sliced: H, payload: B }");
    assert_eq!(join_packet_text(None, "B"), "TxPacket { payload: B }");
}

#[test]
fn packets_give_their_bytes() {
    assert_eq!(TxPacket::new(vec![1, 2]).as_slice(), &[1, 2]);
    let mut pool = BufferPool::new(1, 4);
    let mut buffer = pool.pop().unwrap();
    buffer.chunk_mut()[..2].copy_from_slice(&[8, 9]);
    assert_eq!(RxPacket::new(buffer.read_frame(2)).as_slice(), &[8, 9]);
}
