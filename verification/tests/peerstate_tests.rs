use peerstate::aheader::{Aheader, EncryptPreference};
use peerstate::key::{Fingerprint, SignedPublicKey};
use peerstate::peerstate::{Peerstate, ToSave};
use peerstate::store::{PeerstateRecord, SaveAction};

fn fingerprint(seed: u8) -> Fingerprint {
    let bytes: Vec<u8> = (0..20u8).map(|i| i.wrapping_mul(7).wrapping_add(seed)).collect();
    Fingerprint::new(bytes).unwrap()
}

fn key(bytes: &[u8], seed: u8) -> SignedPublicKey {
    SignedPublicKey::new(bytes.to_vec(), fingerprint(seed))
}

fn alice_key() -> SignedPublicKey {
    key(b"alice public key bytes", 1)
}

fn empty_peerstate(addr: &str) -> Peerstate {
    Peerstate {
        addr: addr.to_string(),
        last_seen: 0,
        last_seen_autocrypt: 0,
        prefer_encrypt: EncryptPreference::NoPreference,
        public_key: None,
        public_key_fingerprint: None,
        gossip_key: None,
        gossip_timestamp: 0,
        gossip_key_fingerprint: None,
        verified_key: None,
        verified_key_fingerprint: None,
        to_save: None,
        fingerprint_changed: false,
    }
}

fn full_peerstate(addr: &str, pub_key: &SignedPublicKey, with_gossip: bool) -> Peerstate {
    Peerstate {
        addr: addr.into(),
        last_seen: 10,
        last_seen_autocrypt: 11,
        prefer_encrypt: EncryptPreference::Mutual,
        public_key: Some(pub_key.clone()),
        public_key_fingerprint: Some(pub_key.fingerprint()),
        gossip_key: if with_gossip { Some(pub_key.clone()) } else { None },
        gossip_timestamp: 12,
        gossip_key_fingerprint: if with_gossip { Some(pub_key.fingerprint()) } else { None },
        verified_key: if with_gossip { Some(pub_key.clone()) } else { None },
        verified_key_fingerprint: if with_gossip { Some(pub_key.fingerprint()) } else { None },
        to_save: Some(ToSave::All),
        fingerprint_changed: false,
    }
}

fn record_of(action: SaveAction) -> PeerstateRecord {
    match action {
        SaveAction::Insert(r) | SaveAction::Update(r) | SaveAction::UpdateTimestamps(r) => r,
        SaveAction::Nothing => panic!("nothing to save"),
    }
}

#[test]
fn test_peerstate_save_to_db() {
    let addr = "hello@mail.com";
    let pub_key = alice_key();
    let mut peerstate = full_peerstate(addr, &pub_key, true);

    let action = peerstate.save_action(true);
    assert!(matches!(action, SaveAction::Insert(_)), "failed to save to db");
    let record = record_of(action);
    assert_eq!(record.addr, addr);
    assert_eq!(record.last_seen, 10);
    assert_eq!(record.last_seen_autocrypt, 11);
    assert_eq!(record.gossip_timestamp, 12);
    assert_eq!(record.prefer_encrypted, 1);
    let fp_hex = pub_key.fingerprint().hex();
    assert_eq!(record.public_key_fingerprint.as_deref(), Some(fp_hex.as_str()));
    assert_eq!(record.gossip_key_fingerprint.as_deref(), Some(fp_hex.as_str()));

    let peerstate_new = Peerstate::from_record(record);

    // clear to_save, as that is not persisted
    peerstate.to_save = None;
    assert_eq!(peerstate, peerstate_new);
    let peerstate_new2 = Peerstate::from_record(peerstate_new.to_record());
    assert_eq!(peerstate, peerstate_new2);
}

#[test]
fn test_peerstate_double_create() {
    let addr = "hello@mail.com";
    let pub_key = alice_key();
    let peerstate = full_peerstate(addr, &pub_key, false);

    assert!(
        matches!(peerstate.save_action(true), SaveAction::Insert(_)),
        "failed to save"
    );
    assert!(
        matches!(peerstate.save_action(true), SaveAction::Insert(_)),
        "double-call with create failed"
    );
}

#[test]
fn test_peerstate_with_empty_gossip_key_save_to_db() {
    let addr = "hello@mail.com";
    let pub_key = alice_key();
    let mut peerstate = full_peerstate(addr, &pub_key, false);

    let action = peerstate.save_action(true);
    assert!(matches!(action, SaveAction::Insert(_)), "failed to save");
    let record = record_of(action);
    assert_eq!(record.gossip_key_fingerprint, None);
    let peerstate_new = Some(Peerstate::from_record(record));

    // clear to_save, as that is not persisted
    peerstate.to_save = None;
    assert_eq!(Some(peerstate), peerstate_new);
}

#[test]
fn test_peerstate_load_db_defaults() {
    let addr = "hello@mail.com";

    // A row written with only the address holds the columns' defaults, in
    // particular empty strings instead of NULL for the fingerprints.
    let record = PeerstateRecord {
        addr: addr.to_string(),
        last_seen: 0,
        last_seen_autocrypt: 0,
        prefer_encrypted: 0,
        public_key: None,
        gossip_timestamp: 0,
        gossip_key: None,
        public_key_fingerprint: Some(String::new()),
        gossip_key_fingerprint: Some(String::new()),
        verified_key: None,
        verified_key_fingerprint: Some(String::new()),
    };
    let peerstate = Peerstate::from_record(record);

    // Default values for fingerprints are treated like NULL.
    assert_eq!(peerstate.public_key_fingerprint, None);
    assert_eq!(peerstate.gossip_key_fingerprint, None);
    assert_eq!(peerstate.verified_key_fingerprint, None);
}

#[test]
fn test_peerstate_degrade_reordering() {
    let addr = "example@example.org";
    let pub_key = alice_key();
    let header = Aheader::new(addr.to_string(), pub_key, EncryptPreference::Mutual);

    let mut peerstate = empty_peerstate(addr);
    assert_eq!(peerstate.prefer_encrypt, EncryptPreference::NoPreference);

    peerstate.apply_header(&header, 100);
    assert_eq!(peerstate.prefer_encrypt, EncryptPreference::Mutual);

    peerstate.degrade_encryption(300);
    assert_eq!(peerstate.prefer_encrypt, EncryptPreference::Reset);

    // This has message time 200, while encryption was degraded at timestamp 300.
    // Because of reordering, header should not be applied.
    peerstate.apply_header(&header, 200);
    assert_eq!(peerstate.prefer_encrypt, EncryptPreference::Reset);

    // Same header will be applied in the future.
    peerstate.apply_header(&header, 400);
    assert_eq!(peerstate.prefer_encrypt, EncryptPreference::Mutual);
}
