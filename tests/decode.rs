use sentinel_sniffer::dotted::dotted_quad;
use sentinel_sniffer::frame::{classify_protocol, decode, TransportProtocol};

fn ipv4_frame(protocol: u8, source: [u8; 4], destination: [u8; 4], payload_len: usize) -> Vec<u8> {
    let mut f = vec![
        0x11, 0x22, 0x33, 0x44, 0x55, 0x66, // destination hardware address
        0xaa, 0xbb, 0xcc, 0xdd, 0xee, 0xff, // source hardware address
        0x08, 0x00, // IPv4
    ];
    let total = 20 + payload_len;
    f.extend_from_slice(&[
        0x45,
        0x00,
        (total >> 8) as u8,
        total as u8,
        0x12,
        0x34,
        0x40,
        0x00,
        64,
        protocol,
        0xbe,
        0xef,
    ]);
    f.extend_from_slice(&source);
    f.extend_from_slice(&destination);
    f.extend(std::iter::repeat(0x5a).take(payload_len));
    f
}

#[test]
fn decode_tcp_frame_gives_header_values() {
    let f = ipv4_frame(6, [192, 168, 1, 10], [10, 0, 0, 255], 20);
    assert_eq!(f.len(), 54);
    let rec = decode(&f).expect("well-formed frame");
    assert_eq!(rec.protocol, TransportProtocol::Tcp);
    assert_eq!(rec.protocol.label(), "TCP");
    assert_eq!(rec.source_ip, "192.168.1.10");
    assert_eq!(rec.dest_ip, "10.0.0.255");
    assert_eq!(rec.size_bytes, 54);
}

#[test]
fn decode_udp_frame() {
    let f = ipv4_frame(17, [8, 8, 4, 4], [172, 16, 0, 1], 8);
    let rec = decode(&f).unwrap();
    assert_eq!(rec.protocol, TransportProtocol::Udp);
    assert_eq!(rec.protocol.label(), "UDP");
    assert_eq!(rec.source_ip, "8.8.4.4");
    assert_eq!(rec.dest_ip, "172.16.0.1");
    assert_eq!(rec.size_bytes, 42);
}

#[test]
fn decode_icmp_is_other() {
    let f = ipv4_frame(1, [1, 2, 3, 4], [5, 6, 7, 8], 0);
    let rec = decode(&f).unwrap();
    assert_eq!(rec.protocol, TransportProtocol::Other);
    assert_eq!(rec.protocol.label(), "Other");
    assert_eq!(rec.size_bytes, 34);
}

#[test]
fn classify_protocol_numbers() {
    assert_eq!(classify_protocol(6), TransportProtocol::Tcp);
    assert_eq!(classify_protocol(17), TransportProtocol::Udp);
    for n in 0..=255u8 {
        if n != 6 && n != 17 {
            assert_eq!(classify_protocol(n), TransportProtocol::Other);
        }
    }
}

#[test]
fn decode_rejects_short_ethernet() {
    let f = ipv4_frame(6, [1, 1, 1, 1], [2, 2, 2, 2], 0);
    for len in 0..14 {
        assert!(decode(&f[..len]).is_none());
    }
}

#[test]
fn decode_rejects_other_ethertypes() {
    let mut f = ipv4_frame(6, [1, 1, 1, 1], [2, 2, 2, 2], 10);
    for (hi, lo) in [(0x86u8, 0xddu8), (0x08, 0x06), (0x00, 0x08), (0x81, 0x00)] {
        f[12] = hi;
        f[13] = lo;
        assert!(decode(&f).is_none());
    }
}

#[test]
fn decode_rejects_short_ipv4_header() {
    let f = ipv4_frame(6, [1, 1, 1, 1], [2, 2, 2, 2], 0);
    assert!(decode(&f[..33]).is_none());
    assert!(decode(&f[..34]).is_some());
}

#[test]
fn decode_every_truncation_stays_in_bounds() {
    let f = ipv4_frame(17, [9, 9, 9, 9], [3, 3, 3, 3], 30);
    for len in 0..=f.len() {
        let r = decode(&f[..len]);
        assert_eq!(r.is_some(), len >= 34);
        if let Some(rec) = r {
            assert_eq!(rec.size_bytes, len);
            assert_eq!(rec.source_ip, "9.9.9.9");
        }
    }
}

#[test]
fn decode_ignores_bogus_header_length() {
    // IHL of 15 words and a total length far beyond the buffer.
    let mut f = ipv4_frame(6, [10, 1, 2, 3], [10, 3, 2, 1], 0);
    f[14] = 0x4f;
    f[16] = 0xff;
    f[17] = 0xff;
    let rec = decode(&f).unwrap();
    assert_eq!(rec.size_bytes, 34);
    assert_eq!(rec.dest_ip, "10.3.2.1");
}

#[test]
fn decode_large_adversarial_buffer() {
    let mut f = vec![0xffu8; 65535];
    f[12] = 0x08;
    f[13] = 0x00;
    let rec = decode(&f).unwrap();
    assert_eq!(rec.protocol, TransportProtocol::Other);
    assert_eq!(rec.source_ip, "255.255.255.255");
    assert_eq!(rec.dest_ip, "255.255.255.255");
    assert_eq!(rec.size_bytes, 65535);
}

#[test]
fn decode_size_is_whole_frame_length() {
    // A trailer after the IPv4 packet still counts towards the frame size.
    let mut f = ipv4_frame(6, [1, 2, 3, 4], [4, 3, 2, 1], 6);
    f.extend_from_slice(&[0u8; 10]);
    assert_eq!(decode(&f).unwrap().size_bytes, 14 + 26 + 10);
}

#[test]
fn dotted_quad_text() {
    assert_eq!(dotted_quad(&[0, 0, 0, 0]), "0.0.0.0");
    assert_eq!(dotted_quad(&[255, 10, 1, 100]), "255.10.1.100");
    assert_eq!(dotted_quad(&[127, 0, 0, 1]), "127.0.0.1");
    assert_eq!(dotted_quad(&[9, 99, 199, 200]), "9.99.199.200");
}
