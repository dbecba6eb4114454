use rotating_cube::numeral::{parse_unsigned16, push_numeral};

fn written(n: u64) -> Vec<u8> {
    let mut out = Vec::new();
    push_numeral(&mut out, n);
    out
}

#[test]
fn numerals_have_no_leading_zeros() {
    assert_eq!(written(0), b"0".to_vec());
    assert_eq!(written(7), b"7".to_vec());
    assert_eq!(written(10), b"10".to_vec());
    assert_eq!(written(1000), b"1000".to_vec());
    assert_eq!(written(65535), b"65535".to_vec());
    assert_eq!(written(u64::MAX), b"18446744073709551615".to_vec());
}

#[test]
fn a_numeral_goes_after_what_is_there() {
    let mut out = b"n = ".to_vec();
    push_numeral(&mut out, 120);
    push_numeral(&mut out, 3);
    assert_eq!(out, b"n = 1203".to_vec());
}

#[test]
fn numerals_read_back() {
    for n in [0u16, 1, 9, 10, 11, 99, 100, 255, 256, 9999, 10000, 65534, 65535] {
        assert_eq!(parse_unsigned16(&written(n as u64)), Some(n));
    }
    assert_eq!(parse_unsigned16(&written(65536)), None);
}

#[test]
fn what_is_no_numeral_reads_as_nothing() {
    assert_eq!(parse_unsigned16(b""), None);
    assert_eq!(parse_unsigned16(b"+"), None);
    assert_eq!(parse_unsigned16(b"-1"), None);
    assert_eq!(parse_unsigned16(b"1,000"), None);
    assert_eq!(parse_unsigned16(b"12a"), None);
    assert_eq!(parse_unsigned16(b"a12"), None);
    assert_eq!(parse_unsigned16(&[0x31, 0xff]), None);
    assert_eq!(parse_unsigned16(b"/"), None);
    assert_eq!(parse_unsigned16(b":"), None);
    assert_eq!(parse_unsigned16(b"+12"), Some(12));
    assert_eq!(parse_unsigned16(b"012"), Some(12));
}
