use peerstate::aheader::{format_header, Aheader, EncryptPreference};
use peerstate::key::{Fingerprint, FingerprintError, SignedPublicKey};
use peerstate::peerstate::{Peerstate, PeerstateKeyType, PeerstateVerifiedStatus, ToSave};
use peerstate::store::{PeerstateRecord, SaveAction};
use peerstate::text::{same_ignoring_case, uppercase};

fn fp(seed: u8) -> Fingerprint {
    Fingerprint::new(vec![seed; 20]).unwrap()
}

fn key(bytes: &[u8], seed: u8) -> SignedPublicKey {
    SignedPublicKey::new(bytes.to_vec(), fp(seed))
}

fn blank(addr: &str) -> Peerstate {
    Peerstate {
        addr: addr.to_string(),
        last_seen: 0,
        last_seen_autocrypt: 0,
        prefer_encrypt: EncryptPreference::NoPreference,
        public_key: None,
        public_key_fingerprint: None,
        gossip_key: None,
        gossip_timestamp: 0,
        gossip_key_fingerprint: None,
        verified_key: None,
        verified_key_fingerprint: None,
        to_save: None,
        fingerprint_changed: false,
    }
}

#[test]
fn fingerprint_requires_twenty_bytes() {
    assert!(Fingerprint::new(vec![1; 20]).is_ok());
    assert_eq!(Fingerprint::new(vec![1; 19]), Err(FingerprintError::WrongLength));
    assert_eq!(Fingerprint::new(vec![]), Err(FingerprintError::WrongLength));
}

#[test]
fn fingerprint_hex_is_upper_case() {
    let bytes: Vec<u8> = (0..20u8).map(|i| i * 13).collect();
    let f = Fingerprint::new(bytes).unwrap();
    assert_eq!(
        f.hex(),
        "000D1A2734414E5B6875828F9CA9B6C3D0DDEAF7"
    );
    assert_eq!(fp(0xab).hex(), "AB".repeat(20));
}

#[test]
fn fingerprint_parse_ignores_case_and_separators() {
    let text = "ab ab ab ab\nab-ab:ab ab ab ab ab ab ab ab ab ab ab ab ab ab";
    assert_eq!(Fingerprint::parse(text), Ok(fp(0xab)));
    assert_eq!(Fingerprint::parse(&fp(0xab).hex()), Ok(fp(0xab)));
    let bytes: Vec<u8> = (0..20u8).map(|i| i * 13).collect();
    let f = Fingerprint::new(bytes).unwrap();
    assert_eq!(Fingerprint::parse(&f.hex().to_lowercase()), Ok(f));
}

#[test]
fn fingerprint_parse_uses_unicode_uppercase() {
    // U+FB00 LATIN SMALL LIGATURE FF upper-cases to "FF".
    let text = "\u{fb00}".repeat(20);
    assert_eq!(Fingerprint::parse(&text), Ok(fp(0xff)));
    assert_eq!(uppercase("\u{fb00}x"), "FFX");
}

#[test]
fn fingerprint_parse_errors() {
    assert_eq!(Fingerprint::parse(""), Err(FingerprintError::WrongLength));
    assert_eq!(Fingerprint::parse("abc"), Err(FingerprintError::NotHex));
    assert_eq!(Fingerprint::parse("abcd"), Err(FingerprintError::WrongLength));
    assert_eq!(Fingerprint::parse(&"AB".repeat(21)), Err(FingerprintError::WrongLength));
    assert_eq!(Fingerprint::from_digits("ab".repeat(20).as_str()), Err(FingerprintError::WrongLength));
    assert_eq!(Fingerprint::from_digits(&"AB".repeat(20)), Ok(fp(0xab)));
}

#[test]
fn fingerprint_comparison() {
    assert!(fp(1).same_as(&fp(1)));
    assert!(!fp(1).same_as(&fp(2)));
    let k = key(b"xyz", 3);
    assert!(k.same_as(&key(b"xyz", 3)));
    assert!(!k.same_as(&key(b"xyz", 4)));
    assert!(!k.same_as(&key(b"xy", 3)));
    assert_eq!(k.to_bytes(), b"xyz".to_vec());
    assert_eq!(k.fingerprint(), fp(3));
}

#[test]
fn case_insensitive_address_comparison() {
    assert!(same_ignoring_case("Alice@Example.ORG", "alice@example.org"));
    assert!(!same_ignoring_case("alice@example.org", "bob@example.org"));
    assert!(same_ignoring_case("ÄLICE@example.org", "älice@EXAMPLE.org"));
}

#[test]
fn preference_codes() {
    assert_eq!(EncryptPreference::from_i32(0), Some(EncryptPreference::NoPreference));
    assert_eq!(EncryptPreference::from_i32(1), Some(EncryptPreference::Mutual));
    assert_eq!(EncryptPreference::from_i32(20), Some(EncryptPreference::Reset));
    assert_eq!(EncryptPreference::from_i32(2), None);
    assert_eq!(EncryptPreference::from_i32(-1), None);
    assert_eq!(EncryptPreference::Reset.to_i32(), 20);
    assert_eq!(EncryptPreference::Mutual.to_i32(), 1);
    assert_eq!(EncryptPreference::default(), EncryptPreference::NoPreference);
}

#[test]
fn header_text_wraps_keydata() {
    let keydata = "A".repeat(150);
    let text = format_header("a@b.c", EncryptPreference::NoPreference, &keydata);
    let expected = format!(
        "addr=a@b.c; keydata={} {} {}",
        "A".repeat(70),
        "A".repeat(78),
        "A".repeat(2)
    );
    assert_eq!(text, expected);
    let text = format_header("a@b.c", EncryptPreference::Mutual, "QUJD");
    assert_eq!(text, "addr=a@b.c; prefer-encrypt=mutual; keydata=QUJD");
    let text = format_header("a@b.c", EncryptPreference::Reset, "QUJD");
    assert_eq!(text, "addr=a@b.c; keydata=QUJD");
}

#[test]
fn header_to_string_encodes_key_in_base64() {
    let header = Aheader::new("bob@example.net".to_string(), key(b"hello", 1), EncryptPreference::Mutual);
    assert_eq!(header.to_string(), "addr=bob@example.net; prefer-encrypt=mutual; keydata=aGVsbG8=");
}

#[test]
fn from_header_and_from_gossip() {
    let header = Aheader::new("bob@example.net".to_string(), key(b"k", 5), EncryptPreference::Mutual);
    let ps = Peerstate::from_header(&header, 42);
    assert_eq!(ps.addr, "bob@example.net");
    assert_eq!(ps.last_seen, 42);
    assert_eq!(ps.last_seen_autocrypt, 42);
    assert_eq!(ps.prefer_encrypt, EncryptPreference::Mutual);
    assert_eq!(ps.public_key, Some(key(b"k", 5)));
    assert_eq!(ps.public_key_fingerprint, Some(fp(5)));
    assert_eq!(ps.gossip_key, None);
    assert_eq!(ps.gossip_timestamp, 0);
    assert_eq!(ps.to_save, Some(ToSave::All));
    assert!(!ps.fingerprint_changed);

    let ps = Peerstate::from_gossip(&header, 43);
    assert_eq!(ps.last_seen, 0);
    assert_eq!(ps.last_seen_autocrypt, 0);
    assert_eq!(ps.prefer_encrypt, EncryptPreference::NoPreference);
    assert_eq!(ps.public_key, None);
    assert_eq!(ps.gossip_key, Some(key(b"k", 5)));
    assert_eq!(ps.gossip_key_fingerprint, Some(fp(5)));
    assert_eq!(ps.gossip_timestamp, 43);
    assert_eq!(ps.to_save, Some(ToSave::All));
}

#[test]
fn header_for_other_address_is_ignored() {
    let mut ps = blank("alice@example.org");
    let header = Aheader::new("bob@example.org".to_string(), key(b"k", 1), EncryptPreference::Mutual);
    ps.apply_header(&header, 100);
    assert_eq!(ps, blank("alice@example.org"));
    ps.apply_gossip(&header, 100);
    assert_eq!(ps, blank("alice@example.org"));
}

#[test]
fn header_address_case_is_ignored() {
    let mut ps = blank("Alice@Example.org");
    let header = Aheader::new("alice@example.ORG".to_string(), key(b"k", 1), EncryptPreference::Mutual);
    ps.apply_header(&header, 100);
    assert_eq!(ps.last_seen, 100);
    assert_eq!(ps.public_key, Some(key(b"k", 1)));
    assert_eq!(ps.prefer_encrypt, EncryptPreference::Mutual);
}

#[test]
fn newer_header_replaces_key_and_flags_change() {
    let mut ps = blank("a@b.c");
    ps.public_key = Some(key(b"old", 1));
    ps.public_key_fingerprint = Some(fp(1));
    ps.last_seen = 10;
    let header = Aheader::new("a@b.c".to_string(), key(b"new", 2), EncryptPreference::NoPreference);
    ps.apply_header(&header, 20);
    assert_eq!(ps.public_key, Some(key(b"new", 2)));
    assert_eq!(ps.public_key_fingerprint, Some(fp(2)));
    assert!(ps.fingerprint_changed);
    assert_eq!(ps.to_save, Some(ToSave::All));
    assert_eq!(ps.last_seen, 20);
    assert_eq!(ps.last_seen_autocrypt, 20);
}

#[test]
fn newer_header_with_same_key_only_moves_timestamps() {
    let mut ps = blank("a@b.c");
    ps.public_key = Some(key(b"k", 1));
    ps.public_key_fingerprint = Some(fp(1));
    ps.prefer_encrypt = EncryptPreference::Mutual;
    let header = Aheader::new("a@b.c".to_string(), key(b"k", 1), EncryptPreference::Mutual);
    ps.apply_header(&header, 5);
    assert_eq!(ps.to_save, Some(ToSave::Timestamps));
    assert_eq!(ps.last_seen, 5);
    assert!(!ps.fingerprint_changed);
    // A reset preference in a header is not taken over.
    let header = Aheader::new("a@b.c".to_string(), key(b"k", 1), EncryptPreference::Reset);
    ps.apply_header(&header, 6);
    assert_eq!(ps.prefer_encrypt, EncryptPreference::Mutual);
    assert_eq!(ps.to_save, Some(ToSave::Timestamps));
}

#[test]
fn same_header_twice_is_applied_once() {
    let mut ps = blank("a@b.c");
    let header = Aheader::new("a@b.c".to_string(), key(b"k", 1), EncryptPreference::Mutual);
    ps.apply_header(&header, 7);
    let once = Peerstate::from_record(ps.to_record());
    let to_save = ps.to_save;
    ps.apply_header(&header, 7);
    assert_eq!(ps.to_save, to_save);
    assert_eq!(Peerstate::from_record(ps.to_record()), once);
}

#[test]
fn gossip_sets_gossip_key_and_raises_preference() {
    let mut ps = blank("a@b.c");
    let header = Aheader::new("a@b.c".to_string(), key(b"g", 3), EncryptPreference::Mutual);
    ps.apply_gossip(&header, 50);
    assert_eq!(ps.gossip_key, Some(key(b"g", 3)));
    assert_eq!(ps.gossip_key_fingerprint, Some(fp(3)));
    assert_eq!(ps.gossip_timestamp, 50);
    assert_eq!(ps.prefer_encrypt, EncryptPreference::Mutual);
    assert_eq!(ps.to_save, Some(ToSave::All));
    assert_eq!(ps.last_seen, 0);

    // Older gossip is ignored.
    let other = Aheader::new("a@b.c".to_string(), key(b"h", 4), EncryptPreference::Mutual);
    ps.apply_gossip(&other, 40);
    assert_eq!(ps.gossip_key, Some(key(b"g", 3)));

    // Once an Autocrypt header was seen, gossip does not raise the preference.
    let mut ps = blank("a@b.c");
    ps.last_seen_autocrypt = 1;
    ps.apply_gossip(&header, 50);
    assert_eq!(ps.prefer_encrypt, EncryptPreference::NoPreference);
}

#[test]
fn gossip_key_change_flags_only_without_public_fingerprint() {
    let mut ps = blank("a@b.c");
    ps.gossip_key = Some(key(b"g", 3));
    ps.gossip_key_fingerprint = Some(fp(3));
    let header = Aheader::new("a@b.c".to_string(), key(b"h", 4), EncryptPreference::NoPreference);
    ps.apply_gossip(&header, 1);
    assert!(ps.fingerprint_changed);
    assert_eq!(ps.gossip_key_fingerprint, Some(fp(4)));

    let mut ps = blank("a@b.c");
    ps.public_key = Some(key(b"p", 1));
    ps.public_key_fingerprint = Some(fp(1));
    ps.gossip_key = Some(key(b"g", 3));
    ps.gossip_key_fingerprint = Some(fp(3));
    ps.apply_gossip(&header, 1);
    assert!(!ps.fingerprint_changed);
    assert_eq!(ps.gossip_key_fingerprint, Some(fp(4)));
}

#[test]
fn recalc_fingerprint_fills_and_settles() {
    let mut ps = blank("a@b.c");
    ps.public_key = Some(key(b"p", 1));
    ps.gossip_key = Some(key(b"g", 2));
    ps.recalc_fingerprint();
    assert_eq!(ps.public_key_fingerprint, Some(fp(1)));
    assert_eq!(ps.gossip_key_fingerprint, Some(fp(2)));
    assert_eq!(ps.to_save, Some(ToSave::All));
    assert!(!ps.fingerprint_changed);
    ps.to_save = None;
    ps.recalc_fingerprint();
    assert_eq!(ps.to_save, None);

    // A stale stored fingerprint is replaced and flagged.
    ps.public_key_fingerprint = Some(fp(9));
    ps.recalc_fingerprint();
    assert_eq!(ps.public_key_fingerprint, Some(fp(1)));
    assert!(ps.fingerprint_changed);
}

#[test]
fn degrade_encryption_resets() {
    let mut ps = blank("a@b.c");
    ps.prefer_encrypt = EncryptPreference::Mutual;
    ps.degrade_encryption(77);
    assert_eq!(ps.prefer_encrypt, EncryptPreference::Reset);
    assert_eq!(ps.last_seen, 77);
    assert_eq!(ps.to_save, Some(ToSave::All));
}

#[test]
fn set_verified_and_has_verified_key() {
    let mut ps = blank("a@b.c");
    ps.public_key = Some(key(b"p", 1));
    ps.public_key_fingerprint = Some(fp(1));
    ps.gossip_key = Some(key(b"g", 2));
    ps.gossip_key_fingerprint = Some(fp(2));

    assert!(!ps.has_verified_key(&[fp(1)]));
    assert!(!ps.set_verified(PeerstateKeyType::PublicKey, &fp(1), PeerstateVerifiedStatus::Unverified));
    assert!(!ps.set_verified(PeerstateKeyType::PublicKey, &fp(2), PeerstateVerifiedStatus::BidirectVerified));
    assert_eq!(ps.verified_key, None);
    assert_eq!(ps.to_save, None);

    assert!(ps.set_verified(PeerstateKeyType::PublicKey, &fp(1), PeerstateVerifiedStatus::BidirectVerified));
    assert_eq!(ps.verified_key, Some(key(b"p", 1)));
    assert_eq!(ps.verified_key_fingerprint, Some(fp(1)));
    assert_eq!(ps.to_save, Some(ToSave::All));
    assert!(ps.has_verified_key(&[fp(3), fp(1)]));
    assert!(!ps.has_verified_key(&[fp(3)]));
    assert!(!ps.has_verified_key(&[]));

    assert!(ps.set_verified(PeerstateKeyType::GossipKey, &fp(2), PeerstateVerifiedStatus::BidirectVerified));
    assert_eq!(ps.verified_key, Some(key(b"g", 2)));
    assert!(ps.has_verified_key(&[fp(2)]));

    // A fingerprint without its key is no verified key.
    let mut ps = blank("a@b.c");
    ps.public_key_fingerprint = Some(fp(1));
    assert!(ps.set_verified(PeerstateKeyType::PublicKey, &fp(1), PeerstateVerifiedStatus::BidirectVerified));
    assert!(!ps.has_verified_key(&[fp(1)]));
}

#[test]
fn peek_and_take_key() {
    let mut ps = blank("a@b.c");
    assert_eq!(ps.peek_key(PeerstateVerifiedStatus::Unverified), None);
    ps.gossip_key = Some(key(b"g", 2));
    assert_eq!(ps.peek_key(PeerstateVerifiedStatus::Unverified), Some(&key(b"g", 2)));
    ps.public_key = Some(key(b"p", 1));
    assert_eq!(ps.peek_key(PeerstateVerifiedStatus::Unverified), Some(&key(b"p", 1)));
    assert_eq!(ps.peek_key(PeerstateVerifiedStatus::BidirectVerified), None);
    ps.verified_key = Some(key(b"v", 3));
    assert_eq!(ps.peek_key(PeerstateVerifiedStatus::BidirectVerified), Some(&key(b"v", 3)));

    let copy = Peerstate::from_record(ps.to_record());
    assert_eq!(copy.take_key(PeerstateVerifiedStatus::Unverified), Some(key(b"p", 1)));
    let copy = Peerstate::from_record(ps.to_record());
    assert_eq!(copy.take_key(PeerstateVerifiedStatus::BidirectVerified), Some(key(b"v", 3)));
    ps.public_key = None;
    assert_eq!(ps.take_key(PeerstateVerifiedStatus::Unverified), Some(key(b"g", 2)));
}

#[test]
fn render_gossip_header_text() {
    let mut ps = blank("bob@example.net");
    assert_eq!(ps.render_gossip_header(PeerstateVerifiedStatus::Unverified), None);
    ps.public_key = Some(key(b"hello", 1));
    ps.prefer_encrypt = EncryptPreference::Mutual;
    // No Autocrypt header seen yet: the preference is not told.
    assert_eq!(
        ps.render_gossip_header(PeerstateVerifiedStatus::Unverified),
        Some("addr=bob@example.net; keydata=aGVsbG8=".to_string())
    );
    ps.last_seen_autocrypt = 5;
    assert_eq!(
        ps.render_gossip_header(PeerstateVerifiedStatus::Unverified),
        Some("addr=bob@example.net; prefer-encrypt=mutual; keydata=aGVsbG8=".to_string())
    );
    assert_eq!(ps.render_gossip_header(PeerstateVerifiedStatus::BidirectVerified), None);
}

#[test]
fn save_action_by_state() {
    let mut ps = blank("a@b.c");
    assert!(matches!(ps.save_action(false), SaveAction::Nothing));
    assert!(matches!(ps.save_action(true), SaveAction::Insert(_)));
    ps.to_save = Some(ToSave::Timestamps);
    ps.last_seen = 3;
    match ps.save_action(false) {
        SaveAction::UpdateTimestamps(r) => {
            assert_eq!(r.addr, "a@b.c");
            assert_eq!(r.last_seen, 3);
        }
        other => panic!("unexpected {:?}", other),
    }
    ps.to_save = Some(ToSave::All);
    assert!(matches!(ps.save_action(false), SaveAction::Update(_)));
    assert!(matches!(ps.save_action(true), SaveAction::Insert(_)));
}

#[test]
fn load_reads_unknown_preference_as_none_and_bad_fingerprints_as_missing() {
    let record = PeerstateRecord {
        addr: "a@b.c".to_string(),
        last_seen: 1,
        last_seen_autocrypt: 2,
        prefer_encrypted: 7,
        public_key: Some(key(b"p", 1)),
        gossip_timestamp: 3,
        gossip_key: None,
        public_key_fingerprint: Some("01".repeat(20).to_lowercase()),
        gossip_key_fingerprint: Some("zz".to_string()),
        verified_key: None,
        verified_key_fingerprint: None,
    };
    let ps = Peerstate::from_record(record);
    assert_eq!(ps.prefer_encrypt, EncryptPreference::NoPreference);
    assert_eq!(ps.public_key_fingerprint, Some(fp(1)));
    assert_eq!(ps.gossip_key_fingerprint, None);
    assert_eq!(ps.to_save, None);
    assert!(!ps.fingerprint_changed);
}

#[test]
fn save_then_load_gives_state_back() {
    let mut ps = blank("a@b.c");
    let header = Aheader::new("a@b.c".to_string(), key(b"k", 1), EncryptPreference::Mutual);
    ps.apply_header(&header, 9);
    let gossip = Aheader::new("a@b.c".to_string(), key(b"g", 2), EncryptPreference::Mutual);
    ps.apply_gossip(&gossip, 8);
    ps.degrade_encryption(10);
    let loaded = Peerstate::from_record(ps.to_record());
    ps.to_save = None;
    assert_eq!(loaded, ps);
}
