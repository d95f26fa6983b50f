//! The database row of a peer state: what is written, when, and what is read back.
use vstd::prelude::*;
use crate::aheader::{preference_code, preference_of_code, EncryptPreference};
use crate::key::{
    copy_key_opt, hex_upper, opt_key_view, parse_fingerprint, Fingerprint, KeyView,
    SignedPublicKey,
};
use crate::peerstate::{Peerstate, PeerstateView, ToSave};

verus! {

/// The columns of a peer state's row. Keys are carried as keys: their bytes are
/// what is stored. Fingerprints are stored as hexadecimal text.
#[derive(Debug)]
pub struct PeerstateRecord {
    pub addr: String,
    pub last_seen: i64,
    pub last_seen_autocrypt: i64,
    pub prefer_encrypted: i32,
    pub public_key: Option<SignedPublicKey>,
    pub gossip_timestamp: i64,
    pub gossip_key: Option<SignedPublicKey>,
    pub public_key_fingerprint: Option<String>,
    pub gossip_key_fingerprint: Option<String>,
    pub verified_key: Option<SignedPublicKey>,
    pub verified_key_fingerprint: Option<String>,
}

/// The view of a row.
pub struct PeerstateRecordView {
    pub addr: Seq<char>,
    pub last_seen: i64,
    pub last_seen_autocrypt: i64,
    pub prefer_encrypted: i32,
    pub public_key: Option<KeyView>,
    pub gossip_timestamp: i64,
    pub gossip_key: Option<KeyView>,
    pub public_key_fingerprint: Option<Seq<char>>,
    pub gossip_key_fingerprint: Option<Seq<char>>,
    pub verified_key: Option<KeyView>,
    pub verified_key_fingerprint: Option<Seq<char>>,
}

/// The view of an optional text.
pub open spec fn opt_text_view(o: Option<String>) -> Option<Seq<char>> {
    match o {
        Some(s) => Some(s@),
        None => None,
    }
}

impl View for PeerstateRecord {
    type V = PeerstateRecordView;

    open spec fn view(&self) -> PeerstateRecordView {
        PeerstateRecordView {
            addr: self.addr@,
            last_seen: self.last_seen,
            last_seen_autocrypt: self.last_seen_autocrypt,
            prefer_encrypted: self.prefer_encrypted,
            public_key: opt_key_view(self.public_key),
            gossip_timestamp: self.gossip_timestamp,
            gossip_key: opt_key_view(self.gossip_key),
            public_key_fingerprint: opt_text_view(self.public_key_fingerprint),
            gossip_key_fingerprint: opt_text_view(self.gossip_key_fingerprint),
            verified_key: opt_key_view(self.verified_key),
            verified_key_fingerprint: opt_text_view(self.verified_key_fingerprint),
        }
    }
}

/// The fingerprint read from a fingerprint column: text that is no fingerprint
/// reads as none.
pub open spec fn loaded_fingerprint(text: Option<Seq<char>>) -> Option<Seq<u8>> {
    match text {
        Some(t) => match parse_fingerprint(t) {
            Ok(bytes) => Some(bytes),
            Err(_) => None,
        },
        None => None,
    }
}

/// The text written into a fingerprint column.
pub open spec fn stored_fingerprint(fp: Option<Seq<u8>>) -> Option<Seq<char>> {
    match fp {
        Some(bytes) => Some(hex_upper(bytes)),
        None => None,
    }
}

/// The preference read from the preference column: an unknown number reads as
/// no preference.
pub open spec fn loaded_preference(code: i32) -> EncryptPreference {
    match preference_of_code(code as int) {
        Some(p) => p,
        None => EncryptPreference::NoPreference,
    }
}

/// The state read from a row: nothing is left to save, and no fingerprint change
/// is pending.
pub open spec fn state_of_record(r: PeerstateRecordView) -> PeerstateView {
    PeerstateView {
        addr: r.addr,
        last_seen: r.last_seen,
        last_seen_autocrypt: r.last_seen_autocrypt,
        prefer_encrypt: loaded_preference(r.prefer_encrypted),
        public_key: r.public_key,
        public_key_fingerprint: loaded_fingerprint(r.public_key_fingerprint),
        gossip_key: r.gossip_key,
        gossip_timestamp: r.gossip_timestamp,
        gossip_key_fingerprint: loaded_fingerprint(r.gossip_key_fingerprint),
        verified_key: r.verified_key,
        verified_key_fingerprint: loaded_fingerprint(r.verified_key_fingerprint),
        to_save: None,
        fingerprint_changed: false,
    }
}

/// The row written for a state.
pub open spec fn record_of_state(s: PeerstateView) -> PeerstateRecordView {
    PeerstateRecordView {
        addr: s.addr,
        last_seen: s.last_seen,
        last_seen_autocrypt: s.last_seen_autocrypt,
        prefer_encrypted: preference_code(s.prefer_encrypt) as i32,
        public_key: s.public_key,
        gossip_timestamp: s.gossip_timestamp,
        gossip_key: s.gossip_key,
        public_key_fingerprint: stored_fingerprint(s.public_key_fingerprint),
        gossip_key_fingerprint: stored_fingerprint(s.gossip_key_fingerprint),
        verified_key: s.verified_key,
        verified_key_fingerprint: stored_fingerprint(s.verified_key_fingerprint),
    }
}

/// What saving a peer state writes.
#[derive(Debug)]
pub enum SaveAction {
    /// Insert a new row with all columns.
    Insert(PeerstateRecord),
    /// Update all columns of the peer's row.
    Update(PeerstateRecord),
    /// Update only `last_seen`, `last_seen_autocrypt` and `gossip_timestamp` of
    /// the peer's row.
    UpdateTimestamps(PeerstateRecord),
    /// Write nothing.
    Nothing,
}

fn load_fingerprint(text: &Option<String>) -> (r: Option<Fingerprint>)
    ensures
        crate::key::opt_fingerprint_view(r) == loaded_fingerprint(opt_text_view(*text)),
{
    match text {
        Some(t) => match Fingerprint::parse(t.as_str()) {
            Ok(fp) => Some(fp),
            Err(_) => None,
        },
        None => None,
    }
}

fn store_fingerprint(fp: &Option<Fingerprint>) -> (r: Option<String>)
    ensures
        opt_text_view(r) == stored_fingerprint(crate::key::opt_fingerprint_view(*fp)),
{
    match fp {
        Some(f) => Some(f.hex()),
        None => None,
    }
}

impl Peerstate {
    /// The state read from a row.
    pub fn from_record(record: PeerstateRecord) -> (ps: Peerstate)
        ensures
            ps@ == state_of_record(record@),
    {
        let prefer_encrypt = match EncryptPreference::from_i32(record.prefer_encrypted) {
            Some(p) => p,
            None => EncryptPreference::default(),
        };
        let public_key_fingerprint = load_fingerprint(&record.public_key_fingerprint);
        let gossip_key_fingerprint = load_fingerprint(&record.gossip_key_fingerprint);
        let verified_key_fingerprint = load_fingerprint(&record.verified_key_fingerprint);
        Peerstate {
            addr: record.addr,
            last_seen: record.last_seen,
            last_seen_autocrypt: record.last_seen_autocrypt,
            prefer_encrypt,
            public_key: record.public_key,
            public_key_fingerprint,
            gossip_key: record.gossip_key,
            gossip_key_fingerprint,
            gossip_timestamp: record.gossip_timestamp,
            verified_key: record.verified_key,
            verified_key_fingerprint,
            to_save: None,
            fingerprint_changed: false,
        }
    }

    /// The row written for this state.
    pub fn to_record(&self) -> (r: PeerstateRecord)
        ensures
            r@ == record_of_state(self@),
    {
        PeerstateRecord {
            addr: self.addr.clone(),
            last_seen: self.last_seen,
            last_seen_autocrypt: self.last_seen_autocrypt,
            prefer_encrypted: self.prefer_encrypt.to_i32(),
            public_key: copy_key_opt(&self.public_key),
            gossip_timestamp: self.gossip_timestamp,
            gossip_key: copy_key_opt(&self.gossip_key),
            public_key_fingerprint: store_fingerprint(&self.public_key_fingerprint),
            gossip_key_fingerprint: store_fingerprint(&self.gossip_key_fingerprint),
            verified_key: copy_key_opt(&self.verified_key),
            verified_key_fingerprint: store_fingerprint(&self.verified_key_fingerprint),
        }
    }

    /// What saving this state writes: a new row where `create` is set, the whole
    /// row where everything is to be saved, the timestamps where only they are,
    /// and nothing otherwise.
    pub fn save_action(&self, create: bool) -> (r: SaveAction)
        ensures
            match r {
                SaveAction::Insert(rec) => create && rec@ == record_of_state(self@),
                SaveAction::Update(rec) => !create && self.to_save == Some(ToSave::All) && rec@
                    == record_of_state(self@),
                SaveAction::UpdateTimestamps(rec) => !create && self.to_save == Some(
                    ToSave::Timestamps,
                ) && rec@ == record_of_state(self@),
                SaveAction::Nothing => !create && self.to_save is None,
            },
    {
        if create {
            return SaveAction::Insert(self.to_record());
        }
        match self.to_save {
            Some(ToSave::All) => SaveAction::Update(self.to_record()),
            Some(ToSave::Timestamps) => SaveAction::UpdateTimestamps(self.to_record()),
            None => SaveAction::Nothing,
        }
    }
}

} // verus!
