use tuntap::abi::{le16_bytes, le32_bytes, read_le16, read_le32, SIOCGIFFLAGS};
use tuntap::config::{
    assigned_name, create_request, flags_of, flags_query, index_of, index_query, ipv4_request,
    ipv6_octets, ipv6_request, mac_request, up_step, TunTapType,
};
use tuntap::error::TunError;
use tuntap::name::IfName;

fn name(s: &str) -> IfName {
    IfName::encode(s).unwrap()
}

fn answer_with(prefix: &[u8], at: usize, bytes: &[u8]) -> [u8; 40] {
    let mut a = [0u8; 40];
    a[..prefix.len()].copy_from_slice(prefix);
    a[at..at + bytes.len()].copy_from_slice(bytes);
    a
}

#[test]
fn encode_pads_with_zeros() {
    let n = name("tun0");
    let mut expected = [0u8; 16];
    expected[..4].copy_from_slice(b"tun0");
    assert_eq!(n.as_bytes(), expected);
}

#[test]
fn encode_accepts_fifteen_bytes() {
    let n = name("abcdefghijklmno");
    assert_eq!(n.to_text(), Ok("abcdefghijklmno".to_string()));
    assert_eq!(n.as_bytes()[15], 0);
}

#[test]
fn encode_rejects_sixteen_bytes() {
    assert_eq!(IfName::encode("abcdefghijklmnop"), Err(TunError::NameTooLong));
    assert_eq!(IfName::encode("a much longer interface name"), Err(TunError::NameTooLong));
}

#[test]
fn encode_counts_bytes_not_chars() {
    // eight two-byte characters: 16 bytes
    assert_eq!(IfName::encode("éééééééé"), Err(TunError::NameTooLong));
    assert_eq!(name("ééééééé").to_text(), Ok("ééééééé".to_string()));
}

#[test]
fn empty_name_round_trips() {
    let n = name("");
    assert_eq!(n.as_bytes(), [0u8; 16]);
    assert_eq!(n.to_text(), Ok(String::new()));
    assert_eq!(n.terminator(), Some(0));
}

#[test]
fn name_round_trips() {
    for s in ["tun0", "tap12", "x", "vpn-client_01"] {
        assert_eq!(name(s).to_text(), Ok(s.to_string()));
    }
}

#[test]
fn decode_without_terminator_is_invalid_state() {
    let n = IfName::from_bytes([b'a'; 16]);
    assert_eq!(n.terminator(), None);
    assert_eq!(n.to_text(), Err(TunError::InvalidState));
}

#[test]
fn decode_stops_at_first_terminator() {
    let mut b = [0u8; 16];
    b[..3].copy_from_slice(b"tun");
    b[4] = b'x';
    let n = IfName::from_bytes(b);
    assert_eq!(n.terminator(), Some(3));
    assert_eq!(n.to_text(), Ok("tun".to_string()));
}

#[test]
fn decode_rejects_invalid_utf8() {
    let mut b = [0u8; 16];
    b[0] = 0xff;
    b[1] = b'a';
    assert_eq!(IfName::from_bytes(b).to_text(), Err(TunError::InvalidState));
}

#[test]
fn little_endian_helpers() {
    assert_eq!(le16_bytes(0x1234), [0x34, 0x12]);
    assert_eq!(le32_bytes(0x12345678), [0x78, 0x56, 0x34, 0x12]);
    let a = answer_with(&[], 16, &[0x78, 0x56, 0x34, 0x12]);
    assert_eq!(read_le16(&a, 16), 0x5678);
    assert_eq!(read_le32(&a, 16), 0x12345678);
}

#[test]
fn create_request_tun_flags() {
    let r = create_request(&name("tun0"), TunTapType::Tun);
    assert_eq!(&r[..4], b"tun0");
    assert_eq!(&r[4..16], &[0u8; 12]);
    assert_eq!(&r[16..18], &[0x01, 0x10]);
    assert_eq!(&r[18..], &[0u8; 22]);
}

#[test]
fn create_request_tap_flags() {
    let r = create_request(&name("tap0"), TunTapType::Tap);
    assert_eq!(&r[16..18], &[0x02, 0x10]);
}

#[test]
fn assigned_name_is_taken_from_answer() {
    let a = answer_with(b"tun7", 16, &[0x01, 0x10]);
    let n = assigned_name(&a);
    assert_eq!(n.to_text(), Ok("tun7".to_string()));
}

#[test]
fn flags_query_layout() {
    let q = flags_query(&name("tun0"));
    assert_eq!(&q[..4], b"tun0");
    assert_eq!(&q[4..], &[0u8; 36]);
    let a = answer_with(b"tun0", 16, &[0x41, 0x10]);
    assert_eq!(flags_of(&a), 0x1041);
}

#[test]
fn up_step_sets_both_bits() {
    let n = name("tun0");
    let a = answer_with(b"tun0", 16, &[0x00, 0x10]);
    let r = up_step(&n, &a).unwrap();
    assert_eq!(&r[..4], b"tun0");
    assert_eq!(&r[16..18], &[0x41, 0x10]);
}

#[test]
fn up_step_with_only_up_bit_still_sets_running() {
    let n = name("tun0");
    let a = answer_with(b"tun0", 16, &[0x01, 0x00]);
    let r = up_step(&n, &a).unwrap();
    assert_eq!(&r[16..18], &[0x41, 0x00]);
    let a = answer_with(b"tun0", 16, &[0x40, 0x00]);
    let r = up_step(&n, &a).unwrap();
    assert_eq!(&r[16..18], &[0x41, 0x00]);
}

#[test]
fn up_step_is_noop_when_up_and_running() {
    let n = name("tun0");
    let a = answer_with(b"tun0", 16, &[0x41, 0x10]);
    assert_eq!(up_step(&n, &a), None);
}

#[test]
fn up_twice_sends_nothing_the_second_time() {
    let n = name("tun0");
    let first = answer_with(b"tun0", 16, &[0x02, 0x10]);
    let set = up_step(&n, &first).unwrap();
    assert_eq!(up_step(&n, &set), None);
    assert_eq!(flags_of(&set), 0x1043);
}

#[test]
fn ipv4_request_encodes_documentation_address() {
    let r = ipv4_request(&name("tun0"), [192, 0, 2, 1]);
    assert_eq!(&r[..4], b"tun0");
    assert_eq!(&r[16..24], &[2, 0, 0, 0, 0xc0, 0x00, 0x02, 0x01]);
    assert_eq!(&r[24..], &[0u8; 16]);
}

#[test]
fn index_query_layout_and_answer() {
    let q = index_query(&name("tun0"));
    assert_eq!(&q[16..20], &[0xff; 4]);
    let a = answer_with(b"tun0", 16, &[7, 0, 0, 0]);
    assert_eq!(index_of(&a), 7);
    let a = answer_with(b"tun0", 16, &[0xff, 0xff, 0xff, 0xff]);
    assert_eq!(index_of(&a), -1);
}

#[test]
fn ipv6_octets_high_byte_first() {
    assert_eq!(
        ipv6_octets([0x2001, 0, 0, 0, 0, 0, 0, 1]),
        [0x20, 0x01, 0, 0, 0, 0, 0, 0, 0, 0, 0, 0, 0, 0, 0, 0x01]
    );
    assert_eq!(ipv6_octets([0xfe80, 0xabcd, 0, 0, 0, 0, 0x1234, 0x00ff])[..4], [0xfe, 0x80, 0xab, 0xcd]);
}

#[test]
fn ipv6_request_layout() {
    let a = answer_with(b"tun0", 16, &[5, 1, 0, 0]);
    let r = ipv6_request(&a, [0x2001, 0, 0, 0, 0, 0, 0, 1], 64).unwrap();
    assert_eq!(
        &r[..16],
        &[0x20, 0x01, 0, 0, 0, 0, 0, 0, 0, 0, 0, 0, 0, 0, 0, 0x01]
    );
    assert_eq!(&r[16..20], &[64, 0, 0, 0]);
    assert_eq!(&r[20..24], &[5, 1, 0, 0]);
}

#[test]
fn ipv6_request_rejects_negative_index() {
    let a = answer_with(b"tun0", 16, &[0xff, 0xff, 0xff, 0xff]);
    assert_eq!(ipv6_request(&a, [0x2001, 0, 0, 0, 0, 0, 0, 1], 64), Err(TunError::InvalidState));
}

#[test]
fn mac_request_layout() {
    let r = mac_request(&name("tap0"), [0x02, 0x00, 0x00, 0x00, 0x00, 0x01]);
    assert_eq!(&r[..4], b"tap0");
    assert_eq!(&r[16..18], &[0x01, 0x00]);
    assert_eq!(&r[18..24], &[0x02, 0x00, 0x00, 0x00, 0x00, 0x01]);
    assert_eq!(&r[24..], &[0u8; 16]);
}

#[test]
fn command_codes() {
    assert_eq!(SIOCGIFFLAGS, 0x8913);
    assert_eq!(tuntap::abi::TUNSETIFF, 0x400454ca);
}

#[test]
fn encode_rejects_long_name_with_zero_byte() {
    assert_eq!(IfName::encode("abc\0defghijklmnop"), Err(TunError::NameTooLong));
}

#[test]
fn encode_copies_zero_byte_as_is() {
    let n = IfName::encode("ab\0c").unwrap();
    let mut expected = [0u8; 16];
    expected[..4].copy_from_slice(b"ab\0c");
    assert_eq!(n.as_bytes(), expected);
    assert_eq!(n.terminator(), Some(2));
    assert_eq!(n.to_text(), Ok("ab".to_string()));
}
