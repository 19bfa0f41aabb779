use hopper_forwarding::uuid::PlayerUuid;

#[test]
fn offline_identity_is_deterministic() {
    let a = PlayerUuid::offline_player("Notch").to_text();
    let b = PlayerUuid::offline_player("Notch").to_text();
    assert_eq!(a, b);
}

#[test]
fn different_names_give_different_identities() {
    let a = PlayerUuid::offline_player("Notch").to_text();
    let b = PlayerUuid::offline_player("jeb_").to_text();
    assert_ne!(a, b);
}

#[test]
fn offline_uuid_of_notch() {
    let text = PlayerUuid::offline_player("Notch").to_text();
    assert_eq!(text, b"b50ad385-829d-3141-a216-7e7d7539ba7f".to_vec());
}

#[test]
fn offline_uuid_matches_md5_derivation() {
    // The same derivation, spelled out against the digest crate directly.
    let name = "Dinnerbone";
    let mut data = b"OfflinePlayer:".to_vec();
    data.extend_from_slice(name.as_bytes());
    let mut digest = md5::compute(&data).0;
    digest[6] = (digest[6] & 0x0f) | 0x30;
    digest[8] = (digest[8] & 0x3f) | 0x80;
    let mut expected = Vec::new();
    for (i, byte) in digest.iter().enumerate() {
        expected.push(char::from_digit((byte >> 4) as u32, 16).unwrap() as u8);
        expected.push(char::from_digit((byte & 0x0f) as u32, 16).unwrap() as u8);
        if i == 3 || i == 5 || i == 7 || i == 9 {
            expected.push(b'-');
        }
    }
    assert_eq!(PlayerUuid::offline_player(name).to_text(), expected);
}

#[test]
fn uuid_text_has_canonical_shape() {
    let text = PlayerUuid::offline_player("Herobrine").to_text();
    assert_eq!(text.len(), 36);
    assert_eq!(text[8], b'-');
    assert_eq!(text[13], b'-');
    assert_eq!(text[18], b'-');
    assert_eq!(text[23], b'-');
    // A name-derived identifier: version 3, canonical variant.
    assert_eq!(text[14], b'3');
    assert!(matches!(text[19], b'8' | b'9' | b'a' | b'b'));
}

#[test]
fn empty_name_still_derives() {
    let a = PlayerUuid::offline_player("").to_text();
    let b = PlayerUuid::offline_player("").to_text();
    assert_eq!(a, b);
    assert_eq!(a.len(), 36);
}
