use archipelago_sync::codec::{decrypt_tsc, encrypt_tsc};

#[test]
fn round_trip_small_buffer() {
    let original: Vec<u8> = vec![1, 2, 3];
    let mut buf = original.clone();
    encrypt_tsc(&mut buf);
    decrypt_tsc(&mut buf);
    assert_eq!(buf, original);
}

#[test]
fn round_trip_script_text() {
    let original: Vec<u8> = b"#0100\r\n<MSGHello<NOD\r\n#0200\r\n<END".to_vec();
    let mut buf = original.clone();
    encrypt_tsc(&mut buf);
    assert_ne!(buf, original);
    decrypt_tsc(&mut buf);
    assert_eq!(buf, original);
}

#[test]
fn round_trip_other_direction() {
    let original: Vec<u8> = vec![0, 255, 128, 7, 42];
    let mut buf = original.clone();
    decrypt_tsc(&mut buf);
    encrypt_tsc(&mut buf);
    assert_eq!(buf, original);
}

#[test]
fn encrypt_known_value() {
    // Key byte is the middle one (value 2); every other byte gains the key.
    let mut buf: Vec<u8> = vec![1, 2, 3];
    encrypt_tsc(&mut buf);
    assert_eq!(buf, vec![3, 2, 5]);
}

#[test]
fn decrypt_known_value_wraps() {
    // Key byte 200: 100 - 200 wraps modulo 256 to 156.
    let mut buf: Vec<u8> = vec![100, 200, 250];
    decrypt_tsc(&mut buf);
    assert_eq!(buf, vec![156, 200, 50]);
}

#[test]
fn empty_buffer_is_untouched() {
    let mut buf: Vec<u8> = Vec::new();
    encrypt_tsc(&mut buf);
    assert!(buf.is_empty());
    decrypt_tsc(&mut buf);
    assert!(buf.is_empty());
}

#[test]
fn single_byte_is_its_own_key() {
    let mut buf: Vec<u8> = vec![77];
    encrypt_tsc(&mut buf);
    assert_eq!(buf, vec![77]);
}
