use raw_socket::addr::{get_raw_addr, sockaddr_to_addr, SocketAddr, SocketAddrV4, SocketAddrV6};
use raw_socket::error::SocketError;
use raw_socket::layout::{u16_from_be, u16_to_be, u32_from_le, u32_to_le};
use raw_socket::winapi::{in6_addr, in_addr, sockaddr_in, sockaddr_in6, SOCKADDR_STORAGE_LH};

fn v4(ip: [u8; 4], port: u16) -> SocketAddr {
    SocketAddr::V4(SocketAddrV4 { ip, port })
}

fn v6(ip: [u16; 8], port: u16, flowinfo: u32, scope_id: u32) -> SocketAddr {
    SocketAddr::V6(SocketAddrV6 { ip, port, flowinfo, scope_id })
}

fn storage(family: u16, head: &[u8]) -> SOCKADDR_STORAGE_LH {
    let mut s = SOCKADDR_STORAGE_LH::zeroed();
    s.ss_family = family;
    s.ss_data[..head.len()].copy_from_slice(head);
    s
}

#[test]
fn zeroed_storage_is_all_zero() {
    let s = SOCKADDR_STORAGE_LH::zeroed();
    assert_eq!(s.ss_family, 0);
    assert_eq!(s.ss_data.len(), 126);
    assert!(s.ss_data.iter().all(|b| *b == 0));
}

#[test]
fn port_bytes_are_in_network_order() {
    assert_eq!(u16_to_be(0x1234), [0x12, 0x34]);
    assert_eq!(u16_to_be(0x0001), [0x00, 0x01]);
    assert_eq!(u16_to_be(0xff00), [0xff, 0x00]);
    assert_eq!(u16_from_be(0x12, 0x34), 0x1234);
    assert_eq!(u16_from_be(0x00, 0x50), 80);
    assert_eq!(u16_from_be(0xff, 0xff), 0xffff);
}

#[test]
fn port_bytes_agree_with_the_standard_library() {
    for x in [0u16, 1, 80, 255, 256, 443, 0x1234, 0x8000, 0xfffe, 0xffff] {
        assert_eq!(u16_to_be(x), x.to_be_bytes());
        let b = x.to_be_bytes();
        assert_eq!(u16_from_be(b[0], b[1]), x);
    }
}

#[test]
fn host_order_words_are_least_significant_byte_first() {
    assert_eq!(u32_to_le(0x0102_0304), [0x04, 0x03, 0x02, 0x01]);
    assert_eq!(u32_to_le(0), [0, 0, 0, 0]);
    assert_eq!(u32_to_le(u32::MAX), [0xff, 0xff, 0xff, 0xff]);
    assert_eq!(u32_from_le(0x04, 0x03, 0x02, 0x01), 0x0102_0304);
    assert_eq!(u32_from_le(0xff, 0xff, 0xff, 0xff), u32::MAX);
    for x in [0u32, 1, 0xff, 0x100, 0xdead_beef, 0x8000_0000, u32::MAX] {
        assert_eq!(u32_to_le(x), x.to_le_bytes());
        let b = x.to_le_bytes();
        assert_eq!(u32_from_le(b[0], b[1], b[2], b[3]), x);
    }
}

#[test]
fn encode_v4_gives_the_native_layout() {
    let (s, len) = get_raw_addr(&v4([127, 0, 0, 1], 8080));
    assert_eq!(len, 16);
    assert_eq!(s.ss_family, 2);
    assert_eq!(&s.ss_data[..6], &[0x1f, 0x90, 127, 0, 0, 1]);
    assert!(s.ss_data[6..].iter().all(|b| *b == 0));
}

#[test]
fn encode_v6_gives_the_native_layout() {
    let a = v6([0x2001, 0x0db8, 0, 0, 0, 0, 0, 1], 443, 0x0102_0304, 0x0a0b_0c0d);
    let (s, len) = get_raw_addr(&a);
    assert_eq!(len, 28);
    assert_eq!(s.ss_family, 23);
    let want: [u8; 26] = [
        0x01, 0xbb, // port
        0x04, 0x03, 0x02, 0x01, // flow label
        0x20, 0x01, 0x0d, 0xb8, 0, 0, 0, 0, 0, 0, 0, 0, 0, 0, 0, 0x01, // address
        0x0d, 0x0c, 0x0b, 0x0a, // scope id
    ];
    assert_eq!(&s.ss_data[..26], &want);
    assert!(s.ss_data[26..].iter().all(|b| *b == 0));
}

#[test]
fn decode_v4_reads_the_native_layout() {
    let s = storage(2, &[0x00, 0x50, 192, 168, 1, 20]);
    assert_eq!(sockaddr_to_addr(&s, 16), Ok(v4([192, 168, 1, 20], 80)));
}

#[test]
fn decode_v6_reads_the_native_layout() {
    let s = storage(
        23,
        &[
            0xc0, 0x01, 0x78, 0x56, 0x34, 0x12, 0xfe, 0x80, 0, 0, 0, 0, 0, 0, 0x02, 0x11, 0x22,
            0xff, 0xfe, 0x33, 0x44, 0x55, 0x07, 0x00, 0x00, 0x00,
        ],
    );
    assert_eq!(
        sockaddr_to_addr(&s, 28),
        Ok(v6([0xfe80, 0, 0, 0, 0x0211, 0x22ff, 0xfe33, 0x4455], 0xc001, 0x1234_5678, 7))
    );
}

#[test]
fn decode_looks_at_no_byte_behind_the_structure() {
    let mut s = storage(2, &[0x00, 0x50, 10, 0, 0, 1]);
    for b in s.ss_data[6..].iter_mut() {
        *b = 0xaa;
    }
    assert_eq!(sockaddr_to_addr(&s, 128), Ok(v4([10, 0, 0, 1], 80)));
    let mut s = storage(23, &[0u8; 26]);
    for b in s.ss_data[26..].iter_mut() {
        *b = 0xaa;
    }
    assert_eq!(sockaddr_to_addr(&s, 128), Ok(v6([0; 8], 0, 0, 0)));
}

#[test]
fn round_trip_v4() {
    let cases = [
        v4([0, 0, 0, 0], 0),
        v4([127, 0, 0, 1], 34254),
        v4([255, 255, 255, 255], 65535),
        v4([1, 2, 3, 4], 0x0100),
        v4([4, 3, 2, 1], 0x0001),
        v4([192, 168, 0, 255], 0x8000),
    ];
    for a in cases {
        let (s, len) = get_raw_addr(&a);
        assert!(s.covers(len));
        assert_eq!(sockaddr_to_addr(&s, len), Ok(a));
    }
}

#[test]
fn round_trip_v6() {
    let cases = [
        v6([0; 8], 0, 0, 0),
        v6([0, 0, 0, 0, 0, 0, 0, 1], 1, 0, 0),
        v6([0xffff; 8], 65535, u32::MAX, u32::MAX),
        v6([0x0100, 0x0001, 0x00ff, 0xff00, 0x1234, 0x4321, 0x8000, 0x0080], 0x0100, 1, 0x0100_0000),
        v6([0xfe80, 0, 0, 0, 1, 2, 3, 4], 0x0001, 0x0001_0000, 0x0000_0100),
    ];
    for a in cases {
        let (s, len) = get_raw_addr(&a);
        assert!(s.covers(len));
        assert_eq!(sockaddr_to_addr(&s, len), Ok(a));
    }
}

#[test]
fn round_trip_every_port_byte_pattern() {
    for hi in [0u8, 1, 0x7f, 0x80, 0xff] {
        for lo in [0u8, 1, 0x7f, 0x80, 0xff] {
            let port = u16::from_be_bytes([hi, lo]);
            let a = v4([10, 20, 30, 40], port);
            let (s, len) = get_raw_addr(&a);
            assert_eq!(&s.ss_data[..2], &[hi, lo]);
            assert_eq!(sockaddr_to_addr(&s, len), Ok(a));
        }
    }
}

#[test]
fn unknown_family_is_invalid_input() {
    for family in [0u16, 1, 3, 22, 24, 26, 32, 255, 0x0200, 0x1700, 65535] {
        let s = storage(family, &[0x00, 0x50, 127, 0, 0, 1]);
        assert_eq!(sockaddr_to_addr(&s, 128), Err(SocketError::InvalidInput));
        assert_eq!(sockaddr_to_addr(&s, 0), Err(SocketError::InvalidInput));
    }
    assert_eq!(
        sockaddr_to_addr(&SOCKADDR_STORAGE_LH::zeroed(), 128),
        Err(SocketError::InvalidInput)
    );
}

#[test]
fn reported_length_must_cover_the_structure() {
    let s4 = storage(2, &[]);
    assert!(!s4.covers(-1));
    assert!(!s4.covers(0));
    assert!(!s4.covers(15));
    assert!(s4.covers(16));
    assert!(s4.covers(128));
    let s6 = storage(23, &[]);
    assert!(!s6.covers(16));
    assert!(!s6.covers(27));
    assert!(s6.covers(28));
    assert!(s6.covers(i32::MAX));
    let other = storage(26, &[]);
    assert!(other.covers(0));
    assert!(other.covers(-5));
}

#[test]
fn sockaddr_in_write_then_read() {
    let s = sockaddr_in {
        sin_family: 2,
        sin_port: 0xabcd,
        sin_addr: in_addr { s_addr: [9, 8, 7, 6] },
        sin_zero: [1, 2, 3, 4, 5, 6, 7, 8],
    };
    let image = s.write();
    assert_eq!(image.ss_family, 2);
    assert_eq!(&image.ss_data[..14], &[0xab, 0xcd, 9, 8, 7, 6, 1, 2, 3, 4, 5, 6, 7, 8]);
    assert!(image.ss_data[14..].iter().all(|b| *b == 0));
    assert_eq!(sockaddr_in::read(&image), s);
}

#[test]
fn sockaddr_in6_write_then_read() {
    let s = sockaddr_in6 {
        sin6_family: 23,
        sin6_port: 0x0102,
        sin6_flowinfo: 0xa1b2_c3d4,
        sin6_addr: in6_addr { s6_addr: [1, 2, 3, 4, 5, 6, 7, 0xfffe] },
        sin6_scope_id: 0x1122_3344,
    };
    let image = s.write();
    assert_eq!(image.ss_family, 23);
    assert_eq!(
        &image.ss_data[..26],
        &[
            0x01, 0x02, 0xd4, 0xc3, 0xb2, 0xa1, 0, 1, 0, 2, 0, 3, 0, 4, 0, 5, 0, 6, 0, 7, 0xff,
            0xfe, 0x44, 0x33, 0x22, 0x11
        ]
    );
    assert_eq!(sockaddr_in6::read(&image), s);
}

#[test]
fn read_keeps_the_family_tag_it_finds() {
    let image = storage(77, &[0x12, 0x34, 1, 2, 3, 4]);
    assert_eq!(sockaddr_in::read(&image).sin_family, 77);
    assert_eq!(sockaddr_in::read(&image).sin_port, 0x1234);
    assert_eq!(sockaddr_in6::read(&image).sin6_family, 77);
    assert_eq!(sockaddr_in6::read(&image).sin6_flowinfo, 0x0403_0201);
}

#[test]
fn native_structures_of_endpoints() {
    let a = SocketAddrV4 { ip: [1, 2, 3, 4], port: 5 };
    let s = sockaddr_in::from_addr(&a);
    assert_eq!(s.sin_family, 2);
    assert_eq!(s.sin_port, 5);
    assert_eq!(s.sin_addr.s_addr, [1, 2, 3, 4]);
    assert_eq!(s.sin_zero, [0; 8]);
    assert_eq!(s.to_addr(), a);
    let b = SocketAddrV6 { ip: [1, 2, 3, 4, 5, 6, 7, 8], port: 9, flowinfo: 10, scope_id: 11 };
    let s = sockaddr_in6::from_addr(&b);
    assert_eq!(s.sin6_family, 23);
    assert_eq!(s.sin6_port, 9);
    assert_eq!(s.sin6_flowinfo, 10);
    assert_eq!(s.sin6_addr.s6_addr, [1, 2, 3, 4, 5, 6, 7, 8]);
    assert_eq!(s.sin6_scope_id, 11);
    assert_eq!(s.to_addr(), b);
}
