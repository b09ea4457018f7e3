use etcd_workbench::aes_util::{decrypt_128, encode_aes_block_content_16, encrypt_128, reencrypt_128};
use etcd_workbench::error::AesError;

const KEY: &'static str = "1234567890123!@#";

fn round_trip(content: &str) -> String {
    let encrypted = encrypt_128(KEY.as_bytes(), content.as_bytes()).unwrap();
    let decrypted = decrypt_128(KEY.as_bytes(), &encrypted).unwrap();
    String::from_utf8(decrypted).unwrap()
}

#[test]
fn test_aes() {
    let content = "h";
    assert_eq!(content, round_trip(content));

    let content = "123456789012345";
    assert_eq!(content, round_trip(content));

    let content = "hello!!你好啊";
    assert_eq!(content, round_trip(content));

    let content = "hello!!你好啊a";
    assert_eq!(content, round_trip(content));
}

#[test]
fn test_aes_long_content() {
    let content = "eyJuYW1lIjoiQzFfT25saW5lIiwiY29ubmVjdGlvbiI6eyJob3N0IjoiMTAuMC4wLjE3IiwicG9ydCI6MjMyMywibmFtZXNwYWNlIjpudWxsLCJ1c2VyIjp7InVzZXJuYW1lIjoicm9vdCIsInBhc3N3b3JkIjoiNlBUdWtBOEdWMnZYeFRrVHhxNXcifSwidGxzIjpudWxsLCJ";
    assert_eq!(content, round_trip(content));
}

#[test]
fn test_aes_json_content() {
    let content = "{\"name\":\"localhost\",\"connection\":{\"host\":\"127.0.0.1\",\"port\":2379,\"namespace\":null,\"user\":null,\"tls\":null,\"ssh\":null},\"keyCollection\":[\"/tz_mac/config/battle/config-server.json\"],\"keyMonitorList\":[]}";
    assert_eq!(content, round_trip(content));
}

#[test]
fn padding_shapes() {
    let one = encode_aes_block_content_16(b"h");
    assert_eq!(one.len(), 16);
    assert_eq!(one[1], 14);
    let fifteen = encode_aes_block_content_16(b"123456789012345");
    assert_eq!(fifteen.len(), 32);
    assert_eq!(fifteen[15], 16);
    let full = encode_aes_block_content_16(b"0123456789abcdef");
    assert_eq!(full, b"0123456789abcdef".to_vec());
    let mut ends_like_padding = vec![b'x'; 14];
    ends_like_padding.extend_from_slice(&[1, 0]);
    let padded = encode_aes_block_content_16(&ends_like_padding);
    assert_eq!(padded.len(), 32);
    assert_eq!(padded[16], 15);
}

#[test]
fn content_that_looks_padded_round_trips() {
    let mut content = vec![b'x'; 14];
    content.extend_from_slice(&[1, 0]);
    let encrypted = encrypt_128(KEY.as_bytes(), &content).unwrap();
    assert_eq!(decrypt_128(KEY.as_bytes(), &encrypted).unwrap(), content);
    let mut longer = vec![b'y'; 29];
    longer.extend_from_slice(&[2, 0, 0]);
    let encrypted = encrypt_128(KEY.as_bytes(), &longer).unwrap();
    assert_eq!(decrypt_128(KEY.as_bytes(), &encrypted).unwrap(), longer);
    let empty = encrypt_128(KEY.as_bytes(), b"").unwrap();
    assert!(empty.is_empty());
    assert_eq!(decrypt_128(KEY.as_bytes(), &empty).unwrap(), Vec::<u8>::new());
}

#[test]
fn key_and_block_faults() {
    assert!(matches!(encrypt_128(b"short", b"x"), Err(AesError::InvalidKeyLength(m)) if m == "Invalid aes key length: 5, expect: 16"));
    assert!(matches!(decrypt_128(b"short", b"x"), Err(AesError::InvalidKeyLength(_))));
    assert!(matches!(decrypt_128(KEY.as_bytes(), &[1, 2, 3]), Err(AesError::InvalidBlockLength)));
    assert_ne!(encrypt_128(KEY.as_bytes(), b"secret").unwrap(), b"secret".to_vec());
}

#[test]
fn reencrypt_changes_key() {
    let other = "abcdefghijklmnop";
    let old = encrypt_128(KEY.as_bytes(), b"payload").unwrap();
    let new = reencrypt_128(&old, KEY.as_bytes(), other.as_bytes()).unwrap();
    assert_eq!(decrypt_128(other.as_bytes(), &new).unwrap(), b"payload".to_vec());
}
