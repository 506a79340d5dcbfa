use ip6_codec::ip6_nh;
use ip6_codec::IP6Header;
use ip6_codec::IPAddr;
use ip6_codec::HeaderError;
use ip6_codec::MacAddr;

fn sample_wire_bytes() -> [u8; 40] {
    let mut b = [0u8; 40];
    // version 6, traffic class 0xab, flow label 0xcdef1
    b[0] = 0x6a;
    b[1] = 0xbc;
    b[2] = 0xde;
    b[3] = 0xf1;
    // payload length 0x1234, network order
    b[4] = 0x12;
    b[5] = 0x34;
    b[6] = ip6_nh::ICMP;
    b[7] = 0x80;
    for i in 0..16 {
        b[8 + i] = 0x10 + i as u8;
        b[24 + i] = 0xa0 + i as u8;
    }
    b
}

#[test]
fn parse_concrete_scenario() {
    let mut buf = [0u8; 40];
    buf[0] = 0x60;
    buf[4] = 0x00;
    buf[5] = 0x08;
    buf[6] = 0x06;
    buf[7] = 0x40;
    // src stays unspecified; dst is fe80::1
    buf[24] = 0xfe;
    buf[25] = 0x80;
    buf[39] = 0x01;

    let h = IP6Header::parse(&buf).unwrap();
    assert_eq!(h.get_version(), 6);
    assert_eq!(h.get_traffic_class(), 0);
    assert_eq!(h.get_flow_label(), 0);
    assert_eq!(h.get_payload_len(), 8);
    assert_eq!(h.get_next_header(), ip6_nh::TCP);
    assert_eq!(h.get_hop_limit(), 64);
    assert!(h.src_addr.is_unspecified());
    let mut fe80_1 = [0u8; 16];
    fe80_1[0] = 0xfe;
    fe80_1[1] = 0x80;
    fe80_1[15] = 0x01;
    assert_eq!(h.dst_addr.0, fe80_1);
    assert!(h.dst_addr.is_unicast_link_local());
    assert_eq!(h.get_total_len(), 48);
}

#[test]
fn round_trip_reproduces_buffer() {
    let b = sample_wire_bytes();
    let h = IP6Header::parse(&b).unwrap();
    let mut out = [0u8; 40];
    h.serialize(&mut out).unwrap();
    assert_eq!(out, b);
}

#[test]
fn parse_ignores_trailing_bytes() {
    let b = sample_wire_bytes();
    let mut long = [0u8; 48];
    long[..40].copy_from_slice(&b);
    for i in 40..48 {
        long[i] = 0xee;
    }
    let h = IP6Header::parse(&long).unwrap();
    let mut out = [0u8; 44];
    out[40] = 0x99;
    out[41] = 0x98;
    out[42] = 0x97;
    out[43] = 0x96;
    h.serialize(&mut out).unwrap();
    assert_eq!(&out[..40], &b[..]);
    // bytes past the fixed header are left untouched
    assert_eq!(&out[40..], &[0x99, 0x98, 0x97, 0x96]);
}

#[test]
fn serialize_writes_into_caller_buffer() {
    let h = IP6Header::new();
    let mut out = [0xffu8; 40];
    assert_eq!(h.serialize(&mut out), Ok(()));
    // the caller observes the wire image through its own buffer
    assert_eq!(out[0], 0x60);
    assert_eq!(out[1], 0x00);
    assert_eq!(out[4], 0x00);
    assert_eq!(out[5], 0x00);
    assert_eq!(out[6], ip6_nh::NO_NEXT);
    assert_eq!(out[7], 255);
    assert_eq!(&out[8..40], &[0u8; 32][..]);
}

#[test]
fn parse_buffer_too_short() {
    let b = sample_wire_bytes();
    for len in 0..40 {
        assert_eq!(
            IP6Header::parse(&b[..len]).unwrap_err(),
            HeaderError::BufferTooShort
        );
    }
    assert!(IP6Header::parse(&b[..40]).is_ok());
}

#[test]
fn serialize_buffer_too_short() {
    let h = IP6Header::parse(&sample_wire_bytes()).unwrap();
    for len in 0..40 {
        let mut out = vec![0x55u8; len];
        assert_eq!(h.serialize(&mut out), Err(HeaderError::BufferTooShort));
        // nothing was written, not even a truncated prefix
        assert!(out.iter().all(|&x| x == 0x55));
    }
    let mut out = vec![0u8; 40];
    assert_eq!(h.serialize(&mut out), Ok(()));
}

#[test]
fn new_header_defaults() {
    let h = IP6Header::new();
    assert_eq!(h.get_version(), 6);
    assert_eq!(h.get_traffic_class(), 0);
    assert_eq!(h.get_dscp(), 0);
    assert_eq!(h.get_ecn(), 0);
    assert_eq!(h.get_flow_label(), 0);
    assert_eq!(h.get_payload_len(), 0);
    assert_eq!(h.get_total_len(), 40);
    assert_eq!(h.get_next_header(), ip6_nh::NO_NEXT);
    assert_eq!(h.get_hop_limit(), 255);
    assert!(h.src_addr.is_unspecified());
    assert!(h.dst_addr.is_unspecified());
}

#[test]
fn traffic_class_set_get() {
    let mut h = IP6Header::new();
    for v in [0u8, 1, 0x0f, 0xa5, 0xf0, 0xff] {
        h.set_traffic_class(v);
        assert_eq!(h.get_traffic_class(), v);
        assert_eq!(h.get_version(), 6);
        assert_eq!(h.get_flow_label(), 0);
    }
}

#[test]
fn dscp_ecn_set_get_independent() {
    let mut h = IP6Header::new();
    h.set_ecn(3);
    assert_eq!(h.get_ecn(), 3);
    for d in [0u8, 1, 21, 42, 63] {
        h.set_dscp(d);
        assert_eq!(h.get_dscp(), d);
        // setting DSCP must not alter ECN
        assert_eq!(h.get_ecn(), 3);
    }
    h.set_dscp(21);
    for e in [0u8, 1, 2, 3] {
        h.set_ecn(e);
        assert_eq!(h.get_ecn(), e);
        // setting ECN must not alter DSCP
        assert_eq!(h.get_dscp(), 21);
    }
    assert_eq!(h.get_traffic_class(), (21 << 2) | 3);
    assert_eq!(h.get_version(), 6);
}

#[test]
fn flow_label_set_get() {
    let mut h = IP6Header::new();
    h.set_traffic_class(0xa5);
    for v in [0u32, 1, 0x12345, 0xfffff] {
        h.set_flow_label(v);
        assert_eq!(h.get_flow_label(), v);
        assert_eq!(h.get_traffic_class(), 0xa5);
        assert_eq!(h.get_version(), 6);
    }
}

#[test]
fn payload_len_set_get_network_order() {
    let mut h = IP6Header::new();
    for v in [0u16, 1, 8, 0x0102, 0xabcd, 0xffff] {
        h.set_payload_len(v);
        assert_eq!(h.get_payload_len(), v);
    }
    // the stored wire bytes are big-endian: 0x0102 serializes as 0x01, 0x02
    h.set_payload_len(0x0102);
    let mut out = [0u8; 40];
    h.serialize(&mut out).unwrap();
    assert_eq!(out[4], 0x01);
    assert_eq!(out[5], 0x02);
}

#[test]
fn total_len_is_40_plus_payload() {
    let mut h = IP6Header::new();
    for v in [0u16, 8, 1000, 65495] {
        h.set_payload_len(v);
        assert_eq!(h.get_total_len(), 40 + v);
    }
}

#[test]
fn next_header_and_hop_limit_set_get() {
    let mut h = IP6Header::new();
    for v in [
        ip6_nh::HOP_OPTS,
        ip6_nh::TCP,
        ip6_nh::UDP,
        ip6_nh::IP6,
        ip6_nh::ROUTING,
        ip6_nh::FRAGMENT,
        ip6_nh::ICMP,
        ip6_nh::NO_NEXT,
        ip6_nh::DST_OPTS,
        ip6_nh::MOBILITY,
        0xfe,
    ] {
        h.set_next_header(v);
        assert_eq!(h.get_next_header(), v);
    }
    for v in [0u8, 1, 64, 255] {
        h.set_hop_limit(v);
        assert_eq!(h.get_hop_limit(), v);
    }
}

#[test]
fn next_header_registry_values() {
    assert_eq!(ip6_nh::HOP_OPTS, 0);
    assert_eq!(ip6_nh::TCP, 6);
    assert_eq!(ip6_nh::UDP, 17);
    assert_eq!(ip6_nh::IP6, 41);
    assert_eq!(ip6_nh::ROUTING, 43);
    assert_eq!(ip6_nh::FRAGMENT, 44);
    assert_eq!(ip6_nh::ICMP, 58);
    assert_eq!(ip6_nh::NO_NEXT, 59);
    assert_eq!(ip6_nh::DST_OPTS, 60);
    assert_eq!(ip6_nh::MOBILITY, 135);
}

#[test]
fn unspecified_only_for_all_zero() {
    assert!(IPAddr::new().is_unspecified());
    for i in 0..16 {
        let mut a = IPAddr::new();
        a.0[i] = 1;
        assert!(!a.is_unspecified());
    }
}

#[test]
fn unicast_link_local_classification() {
    // fe80:0000:0000:0000:xxxx:xxxx:xxxx:xxxx is link-local
    let mut a = IPAddr::new();
    a.0[0] = 0xfe;
    a.0[1] = 0x80;
    for i in 8..16 {
        a.0[i] = 0x30 + i as u8;
    }
    assert!(a.is_unicast_link_local());

    // non-zero reserved bits: fe80:0001:...
    let mut b = a;
    b.0[3] = 0x01;
    assert!(!b.is_unicast_link_local());

    // wrong prefix: fe81:...
    let mut c = a;
    c.0[1] = 0x81;
    assert!(!c.is_unicast_link_local());

    // wrong first byte
    let mut d = a;
    d.0[0] = 0xff;
    assert!(!d.is_unicast_link_local());
}

#[test]
fn multicast_iff_first_byte_ff() {
    let mut a = IPAddr::new();
    assert!(!a.is_multicast());
    a.0[0] = 0xfe;
    assert!(!a.is_multicast());
    a.0[0] = 0xff;
    assert!(a.is_multicast());
}

#[test]
fn set_unicast_link_local_keeps_interface_id() {
    let mut a = IPAddr([0x77u8; 16]);
    a.set_unicast_link_local();
    assert_eq!(&a.0[..8], &[0xfe, 0x80, 0, 0, 0, 0, 0, 0]);
    assert_eq!(&a.0[8..], &[0x77u8; 8][..]);
    assert!(a.is_unicast_link_local());
}

#[test]
fn set_prefix_merges_partial_byte() {
    let mut a = IPAddr([0u8; 16]);
    a.0[0] = 0b0101_1010;
    a.set_prefix(&[0b1011_0000], 4);
    // top 4 bits become 1011, the low 4 bits keep their old value
    assert_eq!(a.0[0], 0b1011_1010);
    for i in 1..16 {
        assert_eq!(a.0[i], 0);
    }
}

#[test]
fn set_prefix_copies_full_bytes() {
    let mut a = IPAddr([0x11u8; 16]);
    a.set_prefix(&[0xaa, 0xbb], 16);
    assert_eq!(a.0[0], 0xaa);
    assert_eq!(a.0[1], 0xbb);
    for i in 2..16 {
        assert_eq!(a.0[i], 0x11);
    }

    let mut b = IPAddr([0x0fu8; 16]);
    b.set_prefix(&[0xaa, 0xbc], 12);
    assert_eq!(b.0[0], 0xaa);
    // byte 1: top 4 bits from the prefix, low 4 bits kept
    assert_eq!(b.0[1], 0xbf);
    for i in 2..16 {
        assert_eq!(b.0[i], 0x0f);
    }
}

#[test]
fn set_prefix_whole_address() {
    let src = sample_wire_bytes();
    let mut prefix = [0u8; 16];
    prefix.copy_from_slice(&src[8..24]);
    let mut a = IPAddr([0xc3u8; 16]);
    a.set_prefix(&prefix, 128);
    assert_eq!(a.0, prefix);
}

#[test]
fn mac_addr_variants_compare() {
    let s = MacAddr::ShortAddr(0x1234);
    let l = MacAddr::LongAddr([1, 2, 3, 4, 5, 6, 7, 8]);
    let s2 = s;
    assert!(s == s2);
    assert!(s != MacAddr::ShortAddr(0x1235));
    assert!(l == MacAddr::LongAddr([1, 2, 3, 4, 5, 6, 7, 8]));
    assert!(l != MacAddr::LongAddr([1, 2, 3, 4, 5, 6, 7, 9]));
    assert!(s != l);
}

#[test]
fn round_trip_every_field_combination_sample() {
    // a spread of field values, each pushed through set, serialize, parse
    let mut h = IP6Header::new();
    h.set_traffic_class(0x5a);
    h.set_flow_label(0xabcde);
    h.set_payload_len(1280);
    h.set_next_header(ip6_nh::UDP);
    h.set_hop_limit(1);
    h.src_addr.set_unicast_link_local();
    h.dst_addr.0[0] = 0xff;
    h.dst_addr.0[15] = 0x02;

    let mut wire = [0u8; 40];
    h.serialize(&mut wire).unwrap();
    let back = IP6Header::parse(&wire).unwrap();
    assert_eq!(back.get_version(), 6);
    assert_eq!(back.get_traffic_class(), 0x5a);
    assert_eq!(back.get_flow_label(), 0xabcde);
    assert_eq!(back.get_payload_len(), 1280);
    assert_eq!(back.get_next_header(), ip6_nh::UDP);
    assert_eq!(back.get_hop_limit(), 1);
    assert!(back.src_addr.is_unicast_link_local());
    assert!(back.dst_addr.is_multicast());

    let mut wire2 = [0u8; 40];
    back.serialize(&mut wire2).unwrap();
    assert_eq!(wire, wire2);
}
