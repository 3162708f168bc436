use default_net::interface::unix::{
    apply_indices, interfaces, sockaddr_to_network_addr, AddressRecord, IpAddress, Ipv4Address,
    Ipv6Address, SockaddrData, SockaddrLayout, AF_INET, AF_LINK, AF_PACKET,
};
use default_net::mac::MacAddr;

fn packet_record(name: &str, mac: [u8; 6]) -> AddressRecord {
    // Linux link-layer socket address: the six hardware bytes sit at
    // offset 12 of the 20-byte structure.
    let mut data = vec![0u8; 20];
    data[12..18].copy_from_slice(&mac);
    AddressRecord {
        name: name.to_string(),
        sockaddr: Some(SockaddrData {
            family: AF_PACKET,
            data,
        }),
    }
}

fn inet_record(name: &str, ip: [u8; 4]) -> AddressRecord {
    // IPv4 socket address: the four address bytes sit at offset 4 of
    // the 16-byte structure.
    let mut data = vec![0u8; 16];
    data[4..8].copy_from_slice(&ip);
    AddressRecord {
        name: name.to_string(),
        sockaddr: Some(SockaddrData {
            family: AF_INET,
            data,
        }),
    }
}

fn inet6_record(name: &str, addr: [u8; 16]) -> AddressRecord {
    // IPv6 socket address: the sixteen address bytes sit at offset 8
    // of the 28-byte structure.
    let mut data = vec![0u8; 28];
    data[8..24].copy_from_slice(&addr);
    AddressRecord {
        name: name.to_string(),
        sockaddr: Some(SockaddrData { family: 10, data }),
    }
}

#[test]
fn test_unix_interfaces() {
    let records = vec![
        packet_record("lo", [0, 0, 0, 0, 0, 0]),
        inet_record("lo", [127, 0, 0, 1]),
        packet_record("eth0", [0xaa, 0xbb, 0xcc, 0xdd, 0xee, 0xff]),
        inet_record("eth0", [192, 168, 1, 10]),
    ];
    let interfaces = interfaces(SockaddrLayout::Linux, &records);
    for interface in interfaces {
        println!("{:#?}", interface);
    }
}

#[test]
fn test_merge_mac_and_ipv4_one_entity() {
    // One hardware-address record and one IPv4 record for the same
    // name fold into a single interface carrying both.
    let records = vec![
        packet_record("eth0", [0xaa, 0xbb, 0xcc, 0xdd, 0xee, 0xff]),
        inet_record("eth0", [192, 168, 1, 10]),
    ];
    let out = interfaces(SockaddrLayout::Linux, &records);
    assert_eq!(out.len(), 1);
    assert_eq!(out[0].name, "eth0");
    assert_eq!(
        out[0].mac_addr,
        Some(MacAddr::new(0xaa, 0xbb, 0xcc, 0xdd, 0xee, 0xff))
    );
    assert_eq!(out[0].ipv4, vec![Ipv4Address(192, 168, 1, 10)]);
    assert!(out[0].ipv6.is_empty());
    assert_eq!(out[0].index, 0);
    assert!(out[0].description.is_none());
    assert!(out[0].gateway.is_none());
}

#[test]
fn test_duplicate_ipv4_records_kept() {
    // The same IPv4 record twice for one name yields two entries:
    // addresses are appended, never deduplicated.
    let records = vec![
        inet_record("eth1", [10, 0, 0, 2]),
        inet_record("eth1", [10, 0, 0, 2]),
    ];
    let out = interfaces(SockaddrLayout::Linux, &records);
    assert_eq!(out.len(), 1);
    assert_eq!(
        out[0].ipv4,
        vec![Ipv4Address(10, 0, 0, 2), Ipv4Address(10, 0, 0, 2)]
    );
}

#[test]
fn test_later_mac_overwrites() {
    let records = vec![
        packet_record("eth0", [1, 1, 1, 1, 1, 1]),
        packet_record("eth0", [2, 2, 2, 2, 2, 2]),
    ];
    let out = interfaces(SockaddrLayout::Linux, &records);
    assert_eq!(out.len(), 1);
    assert_eq!(out[0].mac_addr, Some(MacAddr::new(2, 2, 2, 2, 2, 2)));
}

#[test]
fn test_distinct_names_stay_separate() {
    let records = vec![
        inet_record("eth0", [192, 168, 0, 1]),
        inet_record("eth1", [192, 168, 0, 2]),
        inet_record("eth0", [192, 168, 0, 3]),
    ];
    let out = interfaces(SockaddrLayout::Linux, &records);
    assert_eq!(out.len(), 2);
    assert_eq!(out[0].name, "eth0");
    assert_eq!(
        out[0].ipv4,
        vec![Ipv4Address(192, 168, 0, 1), Ipv4Address(192, 168, 0, 3)]
    );
    assert_eq!(out[1].name, "eth1");
    assert_eq!(out[1].ipv4, vec![Ipv4Address(192, 168, 0, 2)]);
}

#[test]
fn test_null_sockaddr_still_creates_entity() {
    let records = vec![AddressRecord {
        name: "dummy0".to_string(),
        sockaddr: None,
    }];
    let out = interfaces(SockaddrLayout::Linux, &records);
    assert_eq!(out.len(), 1);
    assert_eq!(out[0].name, "dummy0");
    assert!(out[0].mac_addr.is_none());
    assert!(out[0].ipv4.is_empty());
    assert!(out[0].ipv6.is_empty());
}

#[test]
fn test_ipv6_segments_big_endian() {
    let mut addr = [0u8; 16];
    addr[0] = 0xfe;
    addr[1] = 0x80;
    addr[15] = 0x01;
    let records = vec![inet6_record("eth0", addr)];
    let out = interfaces(SockaddrLayout::Linux, &records);
    assert_eq!(out.len(), 1);
    assert_eq!(
        out[0].ipv6,
        vec![Ipv6Address(0xfe80, 0, 0, 0, 0, 0, 0, 1)]
    );
}

#[test]
fn test_decode_too_short_resolves_to_neither() {
    let sa = Some(SockaddrData {
        family: AF_PACKET,
        data: vec![0u8; 10],
    });
    assert_eq!(
        sockaddr_to_network_addr(SockaddrLayout::Linux, &sa),
        (None, None)
    );
}

#[test]
fn test_decode_unknown_family_resolves_to_neither() {
    let sa = Some(SockaddrData {
        family: 99,
        data: vec![0u8; 32],
    });
    assert_eq!(
        sockaddr_to_network_addr(SockaddrLayout::Linux, &sa),
        (None, None)
    );
    assert_eq!(
        sockaddr_to_network_addr(SockaddrLayout::Bsd, &sa),
        (None, None)
    );
}

#[test]
fn test_decode_bsd_link_offset_follows_name() {
    // BSD link-layer socket address: byte 5 holds the length of the
    // interface name, and the hardware bytes start at offset 8 plus
    // that length.
    let nlen = 4usize;
    let mut data = vec![0u8; 8 + nlen + 6];
    data[5] = nlen as u8;
    data[8 + nlen..8 + nlen + 6].copy_from_slice(&[9, 8, 7, 6, 5, 4]);
    let sa = Some(SockaddrData {
        family: AF_LINK,
        data,
    });
    assert_eq!(
        sockaddr_to_network_addr(SockaddrLayout::Bsd, &sa),
        (Some(MacAddr::new(9, 8, 7, 6, 5, 4)), None)
    );
}

#[test]
fn test_decode_linux_ipv4() {
    let rec = inet_record("x", [172, 16, 0, 1]);
    assert_eq!(
        sockaddr_to_network_addr(SockaddrLayout::Linux, &rec.sockaddr),
        (None, Some(IpAddress::V4(Ipv4Address(172, 16, 0, 1))))
    );
}

#[test]
fn test_apply_indices() {
    let records = vec![
        inet_record("eth0", [192, 168, 0, 1]),
        inet_record("eth1", [192, 168, 0, 2]),
    ];
    let out = interfaces(SockaddrLayout::Linux, &records);
    let resolved = apply_indices(out, &vec![Some(7), None]);
    assert_eq!(resolved.len(), 2);
    // A successful lookup sets the index; a failed one keeps the
    // placeholder.
    assert_eq!(resolved[0].index, 7);
    assert_eq!(resolved[0].name, "eth0");
    assert_eq!(resolved[1].index, 0);
    assert_eq!(resolved[1].name, "eth1");
}
