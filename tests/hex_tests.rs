use etcd_workbench::hex::{hex_to_vec, md5, vec_to_hex};

#[test]
fn hex_round_trip() {
    assert_eq!(vec_to_hex(&[0x00, 0xAB, 0x7F, 0x10]), "00AB7F10");
    assert_eq!(vec_to_hex(&[]), "");
    assert_eq!(hex_to_vec("00ab7F10"), Ok(vec![0x00, 0xAB, 0x7F, 0x10]));
    assert_eq!(hex_to_vec(""), Ok(vec![]));
    assert_eq!(hex_to_vec("+f"), Ok(vec![15]));
}

#[test]
fn hex_faults() {
    assert_eq!(hex_to_vec("abc"), Err(String::from("Hex string must have even length")));
    assert_eq!(hex_to_vec("00zz"), Err(String::from("Invalid hex at position 2: invalid digit found in string")));
    assert_eq!(hex_to_vec("a\u{e9}b"), Err(String::from("Invalid UTF-8 in hex string")));
    assert_eq!(hex_to_vec("\u{e9}"), Err(String::from("Invalid hex at position 0: invalid digit found in string")));
}

#[test]
fn md5_digests() {
    assert_eq!(md5(b""), "d41d8cd98f00b204e9800998ecf8427e");
    assert_eq!(md5(b"abc"), "900150983cd24fb0d6963f7d28e17f72");
}
