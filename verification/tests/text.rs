use rotating_cube::text::{append, append_str};

#[test]
fn bytes_go_after_what_is_there() {
    let mut out = b"ab".to_vec();
    append(&mut out, b"cd");
    append(&mut out, b"");
    append_str(&mut out, "e\n");
    append_str(&mut out, "é");
    assert_eq!(out, vec![b'a', b'b', b'c', b'd', b'e', b'\n', 0xc3, 0xa9]);
}
