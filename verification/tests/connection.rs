use voicelink::connection::auth::{
    auth_packet, confirm_message, confirm_packet, encrypted_packet, get_auth_prefix,
    get_encryption_key, get_key, get_prefix, refresh_message, set_encryption_key, tag_body,
};
use voicelink::connection::{prefix_message, PrefixKind, Session};

fn is_alnum(b: u8) -> bool {
    b.is_ascii_alphanumeric()
}

#[test]
fn prefix_bytes() {
    assert_eq!(PrefixKind::Client.byte(), b'c');
    assert_eq!(PrefixKind::Encrypted.byte(), b'e');
    assert_eq!(get_auth_prefix(), PrefixKind::Client);
    assert_eq!(get_prefix(), PrefixKind::Encrypted);
}

#[test]
fn new_session_has_valid_id_and_no_key() {
    let session = Session::new();
    let id = session.conn_id();
    assert_eq!(id.len(), 4);
    assert!(id.iter().all(|b| is_alnum(*b)));
    assert!(get_encryption_key(&session).is_empty());
}

#[test]
fn key_read_gives_back_write() {
    let mut session = Session::new();
    let id_before = session.conn_id();
    set_encryption_key(&mut session, vec![1, 2, 3]);
    assert_eq!(get_encryption_key(&session), vec![1, 2, 3]);
    set_encryption_key(&mut session, vec![9]);
    assert_eq!(get_encryption_key(&session), vec![9]);
    assert_eq!(session.conn_id(), id_before);
}

#[test]
fn prefix_message_frames_and_drains() {
    let session = Session::new();
    let id = session.conn_id();
    let mut data = b"hello".to_vec();
    let packet = prefix_message(&session, PrefixKind::Client, &mut data);
    let mut expected = vec![b'c'];
    expected.extend_from_slice(&id);
    expected.push(b':');
    expected.extend_from_slice(b"hello");
    assert_eq!(packet, expected);
    assert!(data.is_empty());
    assert_eq!(packet.len(), 11);
}

#[test]
fn prefix_message_empty_body() {
    let session = Session::new();
    let mut data = Vec::new();
    let packet = prefix_message(&session, PrefixKind::Encrypted, &mut data);
    assert_eq!(packet.len(), 6);
    assert_eq!(packet[0], b'e');
    assert_eq!(packet[5], b':');
}

#[test]
fn encrypted_packet_prefix() {
    assert_eq!(encrypted_packet(vec![0xAA, 0xBB]), vec![b'e', b':', 0xAA, 0xBB]);
    assert_eq!(encrypted_packet(Vec::new()), b"e:".to_vec());
}

#[test]
fn confirm_and_refresh_messages() {
    assert_eq!(confirm_message(), b"c:c".to_vec());
    assert_eq!(refresh_message(), b"r:r".to_vec());
    assert_eq!(confirm_packet(vec![7, 8]), vec![b'e', b':', 7, 8]);
}

#[test]
fn tag_body_puts_tag_and_colon() {
    assert_eq!(tag_body(b't', b"xy".to_vec()), b"t:xy".to_vec());
}

#[test]
fn auth_packet_layout() {
    assert_eq!(auth_packet("alice", "test", &[1, 2, 3]), b"alice:test:AQID".to_vec());
    // Unpadded Base64: two bytes give three characters.
    assert_eq!(auth_packet("a", "r", &[0xff, 0xff]), b"a:r://8".to_vec());
    assert_eq!(auth_packet("", "", &[]), b"::".to_vec());
}

#[test]
fn key_is_sha256_of_token() {
    let key = get_key("test");
    assert_eq!(key.len(), 32);
    let hex: String = key.iter().map(|b| format!("{:02x}", b)).collect();
    assert_eq!(hex, "9f86d081884c7d659a2feaa0c55ad015a3bf4f1b2b0b822cd15d6c15b0f00a08");
    assert_eq!(get_key("test"), key);
    assert_ne!(get_key("tesu"), key);
}

#[test]
fn empty_token_key() {
    let hex: String = get_key("").iter().map(|b| format!("{:02x}", b)).collect();
    assert_eq!(hex, "e3b0c44298fc1c149afbf4c8996fb92427ae41e4649b934ca495991b7852b855");
}
