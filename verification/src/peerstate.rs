//! The Autocrypt peer state: what is known of one correspondent, and how the
//! Autocrypt and gossip headers of its messages update it.
use vstd::prelude::*;
use crate::aheader::{
    aheader_text, preference_code, preference_of_code, Aheader, AheaderView, EncryptPreference,
};
use crate::key::{
    copy_fingerprint_opt, copy_key_opt, hex_upper, opt_fingerprint_view, opt_key_view,
    parse_fingerprint, Fingerprint, KeyView, SignedPublicKey,
};
use crate::text::{same_ignoring_case, text_lowercase};

verus! {

/// Which of a peer's keys is meant.
#[derive(Debug)]
pub enum PeerstateKeyType {
    GossipKey,
    PublicKey,
}

/// How far a peer's key is verified.
#[derive(Debug, PartialEq, Eq, Clone, Copy, Structural)]
pub enum PeerstateVerifiedStatus {
    Unverified,
    BidirectVerified,
}

/// What of a peer state has changed since it was loaded, and must be written back.
#[derive(Debug, Copy, Clone, PartialEq, Eq, Structural)]
pub enum ToSave {
    /// Only the timestamps.
    Timestamps,
    /// Everything.
    All,
}

/// The state of an Autocrypt peer.
#[derive(Debug, PartialEq, Eq)]
pub struct Peerstate {
    pub addr: String,
    pub last_seen: i64,
    pub last_seen_autocrypt: i64,
    pub prefer_encrypt: EncryptPreference,
    pub public_key: Option<SignedPublicKey>,
    pub public_key_fingerprint: Option<Fingerprint>,
    pub gossip_key: Option<SignedPublicKey>,
    pub gossip_timestamp: i64,
    pub gossip_key_fingerprint: Option<Fingerprint>,
    pub verified_key: Option<SignedPublicKey>,
    pub verified_key_fingerprint: Option<Fingerprint>,
    pub to_save: Option<ToSave>,
    pub fingerprint_changed: bool,
}

/// The view of a peer state.
pub struct PeerstateView {
    pub addr: Seq<char>,
    pub last_seen: i64,
    pub last_seen_autocrypt: i64,
    pub prefer_encrypt: EncryptPreference,
    pub public_key: Option<KeyView>,
    pub public_key_fingerprint: Option<Seq<u8>>,
    pub gossip_key: Option<KeyView>,
    pub gossip_timestamp: i64,
    pub gossip_key_fingerprint: Option<Seq<u8>>,
    pub verified_key: Option<KeyView>,
    pub verified_key_fingerprint: Option<Seq<u8>>,
    pub to_save: Option<ToSave>,
    pub fingerprint_changed: bool,
}

impl View for Peerstate {
    type V = PeerstateView;

    open spec fn view(&self) -> PeerstateView {
        PeerstateView {
            addr: self.addr@,
            last_seen: self.last_seen,
            last_seen_autocrypt: self.last_seen_autocrypt,
            prefer_encrypt: self.prefer_encrypt,
            public_key: opt_key_view(self.public_key),
            public_key_fingerprint: opt_fingerprint_view(self.public_key_fingerprint),
            gossip_key: opt_key_view(self.gossip_key),
            gossip_timestamp: self.gossip_timestamp,
            gossip_key_fingerprint: opt_fingerprint_view(self.gossip_key_fingerprint),
            verified_key: opt_key_view(self.verified_key),
            verified_key_fingerprint: opt_fingerprint_view(self.verified_key_fingerprint),
            to_save: self.to_save,
            fingerprint_changed: self.fingerprint_changed,
        }
    }
}

/// The state first made for a peer from an Autocrypt header of a message sent at
/// `message_time`.
pub open spec fn state_from_header(h: AheaderView, message_time: i64) -> PeerstateView {
    PeerstateView {
        addr: h.addr,
        last_seen: message_time,
        last_seen_autocrypt: message_time,
        prefer_encrypt: h.prefer_encrypt,
        public_key: Some(h.public_key),
        public_key_fingerprint: Some(h.public_key.fingerprint),
        gossip_key: None,
        gossip_timestamp: 0,
        gossip_key_fingerprint: None,
        verified_key: None,
        verified_key_fingerprint: None,
        to_save: Some(ToSave::All),
        fingerprint_changed: false,
    }
}

/// The state first made for a peer from a gossip header of a message sent at
/// `message_time`.
pub open spec fn state_from_gossip(h: AheaderView, message_time: i64) -> PeerstateView {
    PeerstateView {
        addr: h.addr,
        last_seen: 0,
        last_seen_autocrypt: 0,
        prefer_encrypt: EncryptPreference::NoPreference,
        public_key: None,
        public_key_fingerprint: None,
        gossip_key: Some(h.public_key),
        gossip_timestamp: message_time,
        gossip_key_fingerprint: Some(h.public_key.fingerprint),
        verified_key: None,
        verified_key_fingerprint: None,
        to_save: Some(ToSave::All),
        fingerprint_changed: false,
    }
}

impl PeerstateView {
    /// The public key's fingerprint recomputed. A change marks the state for a
    /// full save, and so does a first fingerprint; a change of a fingerprint that
    /// was known marks the fingerprint as changed.
    pub open spec fn recalc_public(self) -> PeerstateView {
        match self.public_key {
            Some(k) => {
                let changed = self.public_key_fingerprint != Some(k.fingerprint);
                PeerstateView {
                    public_key_fingerprint: Some(k.fingerprint),
                    to_save: if changed {
                        Some(ToSave::All)
                    } else {
                        self.to_save
                    },
                    fingerprint_changed: self.fingerprint_changed || (changed
                        && self.public_key_fingerprint is Some),
                    ..self
                }
            },
            None => self,
        }
    }

    /// The gossip key's fingerprint recomputed, as for the public key; a change of
    /// a known gossip fingerprint counts as a fingerprint change only where no
    /// public key fingerprint is known.
    pub open spec fn recalc_gossip(self) -> PeerstateView {
        match self.gossip_key {
            Some(k) => {
                let changed = self.gossip_key_fingerprint != Some(k.fingerprint);
                PeerstateView {
                    gossip_key_fingerprint: Some(k.fingerprint),
                    to_save: if changed {
                        Some(ToSave::All)
                    } else {
                        self.to_save
                    },
                    fingerprint_changed: self.fingerprint_changed || (changed
                        && self.gossip_key_fingerprint is Some
                        && self.public_key_fingerprint is None),
                    ..self
                }
            },
            None => self,
        }
    }

    /// Both fingerprints recomputed from the keys.
    pub open spec fn recalc(self) -> PeerstateView {
        self.recalc_public().recalc_gossip()
    }

    /// The state after an Autocrypt header for this peer, of a message sent at
    /// `t`. Only a message newer than the last one seen counts: it moves both
    /// timestamps, takes over a mutual or no-preference preference, and takes
    /// over the header's key.
    pub open spec fn merge_header(self, h: AheaderView, t: i64) -> PeerstateView {
        if t > self.last_seen {
            let s1 = PeerstateView {
                last_seen: t,
                last_seen_autocrypt: t,
                to_save: Some(ToSave::Timestamps),
                ..self
            };
            let s2 = if (h.prefer_encrypt == EncryptPreference::Mutual || h.prefer_encrypt
                == EncryptPreference::NoPreference) && h.prefer_encrypt != s1.prefer_encrypt {
                PeerstateView { prefer_encrypt: h.prefer_encrypt, to_save: Some(ToSave::All), ..s1 }
            } else {
                s1
            };
            if s2.public_key != Some(h.public_key) {
                let s3 = PeerstateView { public_key: Some(h.public_key), ..s2 }.recalc();
                PeerstateView { to_save: Some(ToSave::All), ..s3 }
            } else {
                s2
            }
        } else {
            self
        }
    }

    /// The state after an Autocrypt header: a header for another address,
    /// compared without regard to letter case, changes nothing.
    pub open spec fn apply_header(self, h: AheaderView, t: i64) -> PeerstateView {
        if text_lowercase(self.addr) == text_lowercase(h.addr) {
            self.merge_header(h, t)
        } else {
            self
        }
    }

    /// The state after a gossip header for this peer, of a message sent at `t`.
    /// Only gossip newer than the last gossip counts: it moves the gossip
    /// timestamp, takes over the header's key as gossip key, and raises a
    /// no-preference to mutual where no Autocrypt header was ever seen.
    pub open spec fn merge_gossip(self, h: AheaderView, t: i64) -> PeerstateView {
        if t > self.gossip_timestamp {
            let s1 = PeerstateView {
                gossip_timestamp: t,
                to_save: Some(ToSave::Timestamps),
                ..self
            };
            let s2 = if s1.gossip_key != Some(h.public_key) {
                let s = PeerstateView { gossip_key: Some(h.public_key), ..s1 }.recalc();
                PeerstateView { to_save: Some(ToSave::All), ..s }
            } else {
                s1
            };
            if s2.last_seen_autocrypt == 0 && s2.prefer_encrypt == EncryptPreference::NoPreference
                && h.prefer_encrypt == EncryptPreference::Mutual {
                PeerstateView {
                    prefer_encrypt: EncryptPreference::Mutual,
                    to_save: Some(ToSave::All),
                    ..s2
                }
            } else {
                s2
            }
        } else {
            self
        }
    }

    /// The state after a gossip header: gossip for another address, compared
    /// without regard to letter case, changes nothing.
    pub open spec fn apply_gossip(self, h: AheaderView, t: i64) -> PeerstateView {
        if text_lowercase(self.addr) == text_lowercase(h.addr) {
            self.merge_gossip(h, t)
        } else {
            self
        }
    }

    /// The state after encryption was degraded by a message sent at `t`.
    pub open spec fn degrade(self, t: i64) -> PeerstateView {
        PeerstateView {
            prefer_encrypt: EncryptPreference::Reset,
            last_seen: t,
            to_save: Some(ToSave::All),
            ..self
        }
    }

    /// The key to use at the given verification level: the verified key, or
    /// else the public key, falling back to the gossip key.
    pub open spec fn peek_key(self, min_verified: PeerstateVerifiedStatus) -> Option<KeyView> {
        match min_verified {
            PeerstateVerifiedStatus::BidirectVerified => self.verified_key,
            PeerstateVerifiedStatus::Unverified => if self.public_key is Some {
                self.public_key
            } else {
                self.gossip_key
            },
        }
    }

    /// The gossip header that this state renders at the given level: the peer's
    /// address and key, with the preference where an Autocrypt header was seen.
    pub open spec fn gossip_header(self, min_verified: PeerstateVerifiedStatus) -> Option<
        AheaderView,
    > {
        match self.peek_key(min_verified) {
            Some(k) => Some(
                AheaderView {
                    addr: self.addr,
                    public_key: k,
                    prefer_encrypt: if self.last_seen_autocrypt > 0 {
                        self.prefer_encrypt
                    } else {
                        EncryptPreference::NoPreference
                    },
                },
            ),
            None => None,
        }
    }

    /// The state after marking a key as verified, and whether that was done:
    /// only a bidirectional verification of the key whose known fingerprint is
    /// the given one makes it the verified key.
    pub open spec fn set_verified(
        self,
        which_key: PeerstateKeyType,
        fingerprint: Seq<u8>,
        verified: PeerstateVerifiedStatus,
    ) -> (PeerstateView, bool) {
        if verified == PeerstateVerifiedStatus::BidirectVerified {
            match which_key {
                PeerstateKeyType::PublicKey => if self.public_key_fingerprint == Some(fingerprint) {
                    (
                        PeerstateView {
                            to_save: Some(ToSave::All),
                            verified_key: self.public_key,
                            verified_key_fingerprint: self.public_key_fingerprint,
                            ..self
                        },
                        true,
                    )
                } else {
                    (self, false)
                },
                PeerstateKeyType::GossipKey => if self.gossip_key_fingerprint == Some(fingerprint) {
                    (
                        PeerstateView {
                            to_save: Some(ToSave::All),
                            verified_key: self.gossip_key,
                            verified_key_fingerprint: self.gossip_key_fingerprint,
                            ..self
                        },
                        true,
                    )
                } else {
                    (self, false)
                },
            }
        } else {
            (self, false)
        }
    }

    /// Whether the state holds a verified key whose fingerprint is among the given ones.
    pub open spec fn has_verified_key(self, fingerprints: Seq<Seq<u8>>) -> bool {
        match self.verified_key_fingerprint {
            Some(fp) => fingerprints.contains(fp) && self.verified_key is Some,
            None => false,
        }
    }

    /// Each fingerprint that the state holds beside a key is that key's fingerprint.
    pub open spec fn fingerprints_match_keys(self) -> bool {
        &&& (self.public_key matches Some(k) ==> self.public_key_fingerprint == Some(k.fingerprint))
        &&& (self.gossip_key matches Some(k) ==> self.gossip_key_fingerprint == Some(k.fingerprint))
    }
}

impl Peerstate {
    /// The state first made for a peer from an Autocrypt header of a message
    /// sent at `message_time`.
    pub fn from_header(header: &Aheader, message_time: i64) -> (ps: Peerstate)
        ensures
            ps@ == state_from_header(header@, message_time),
    {
        Peerstate {
            addr: header.addr.clone(),
            last_seen: message_time,
            last_seen_autocrypt: message_time,
            prefer_encrypt: header.prefer_encrypt,
            public_key: Some(header.public_key.clone()),
            public_key_fingerprint: Some(header.public_key.fingerprint()),
            gossip_key: None,
            gossip_key_fingerprint: None,
            gossip_timestamp: 0,
            verified_key: None,
            verified_key_fingerprint: None,
            to_save: Some(ToSave::All),
            fingerprint_changed: false,
        }
    }

    /// The state first made for a peer from a gossip header of a message sent
    /// at `message_time`.
    pub fn from_gossip(gossip_header: &Aheader, message_time: i64) -> (ps: Peerstate)
        ensures
            ps@ == state_from_gossip(gossip_header@, message_time),
    {
        Peerstate {
            addr: gossip_header.addr.clone(),
            last_seen: 0,
            last_seen_autocrypt: 0,
            prefer_encrypt: EncryptPreference::default(),
            public_key: None,
            public_key_fingerprint: None,
            gossip_key: Some(gossip_header.public_key.clone()),
            gossip_key_fingerprint: Some(gossip_header.public_key.fingerprint()),
            gossip_timestamp: message_time,
            verified_key: None,
            verified_key_fingerprint: None,
            to_save: Some(ToSave::All),
            fingerprint_changed: false,
        }
    }

    /// Recomputes the fingerprints of the public and the gossip key.
    pub fn recalc_fingerprint(&mut self)
        ensures
            final(self)@ == old(self)@.recalc(),
    {
        let public_fp = match &self.public_key {
            Some(k) => Some(k.fingerprint()),
            None => None,
        };
        if let Some(fp) = public_fp {
            let changed = match &self.public_key_fingerprint {
                Some(old_fp) => !old_fp.same_as(&fp),
                None => true,
            };
            let had_old = self.public_key_fingerprint.is_some();
            self.public_key_fingerprint = Some(fp);
            if changed {
                self.to_save = Some(ToSave::All);
                if had_old {
                    self.fingerprint_changed = true;
                }
            }
        }
        let gossip_fp = match &self.gossip_key {
            Some(k) => Some(k.fingerprint()),
            None => None,
        };
        if let Some(fp) = gossip_fp {
            let changed = match &self.gossip_key_fingerprint {
                Some(old_fp) => !old_fp.same_as(&fp),
                None => true,
            };
            let had_old = self.gossip_key_fingerprint.is_some();
            self.gossip_key_fingerprint = Some(fp);
            if changed {
                self.to_save = Some(ToSave::All);
                if had_old && self.public_key_fingerprint.is_none() {
                    self.fingerprint_changed = true;
                }
            }
        }
    }

    /// Marks encryption as degraded by a message sent at `message_time`.
    pub fn degrade_encryption(&mut self, message_time: i64)
        ensures
            final(self)@ == old(self)@.degrade(message_time),
    {
        self.prefer_encrypt = EncryptPreference::Reset;
        self.last_seen = message_time;
        self.to_save = Some(ToSave::All);
    }

    /// Applies an Autocrypt header of a message sent at `message_time`; a header
    /// for another address changes nothing.
    pub fn apply_header(&mut self, header: &Aheader, message_time: i64)
        ensures
            final(self)@ == old(self)@.apply_header(header@, message_time),
    {
        if !same_ignoring_case(self.addr.as_str(), header.addr.as_str()) {
            return ;
        }
        self.merge_header(header, message_time);
    }

    /// Applies an Autocrypt header of a message sent at `message_time` whose
    /// address is this peer's.
    pub fn merge_header(&mut self, header: &Aheader, message_time: i64)
        ensures
            final(self)@ == old(self)@.merge_header(header@, message_time),
    {
        if message_time > self.last_seen {
            self.last_seen = message_time;
            self.last_seen_autocrypt = message_time;
            self.to_save = Some(ToSave::Timestamps);
            if (header.prefer_encrypt == EncryptPreference::Mutual || header.prefer_encrypt
                == EncryptPreference::NoPreference) && header.prefer_encrypt
                != self.prefer_encrypt {
                self.prefer_encrypt = header.prefer_encrypt;
                self.to_save = Some(ToSave::All);
            }
            let same_key = match &self.public_key {
                Some(k) => k.same_as(&header.public_key),
                None => false,
            };
            if !same_key {
                self.public_key = Some(header.public_key.clone());
                self.recalc_fingerprint();
                self.to_save = Some(ToSave::All);
            }
        }
    }

    /// Applies a gossip header of a message sent at `message_time`; gossip for
    /// another address changes nothing.
    pub fn apply_gossip(&mut self, gossip_header: &Aheader, message_time: i64)
        ensures
            final(self)@ == old(self)@.apply_gossip(gossip_header@, message_time),
    {
        if !same_ignoring_case(self.addr.as_str(), gossip_header.addr.as_str()) {
            return ;
        }
        self.merge_gossip(gossip_header, message_time);
    }

    /// Applies a gossip header of a message sent at `message_time` whose address
    /// is this peer's.
    pub fn merge_gossip(&mut self, gossip_header: &Aheader, message_time: i64)
        ensures
            final(self)@ == old(self)@.merge_gossip(gossip_header@, message_time),
    {
        if message_time > self.gossip_timestamp {
            self.gossip_timestamp = message_time;
            self.to_save = Some(ToSave::Timestamps);
            let same_key = match &self.gossip_key {
                Some(k) => k.same_as(&gossip_header.public_key),
                None => false,
            };
            if !same_key {
                self.gossip_key = Some(gossip_header.public_key.clone());
                self.recalc_fingerprint();
                self.to_save = Some(ToSave::All);
            }
            // Gossip raises the preference one way only, from no preference to
            // mutual, and only where no Autocrypt header was seen.
            if self.last_seen_autocrypt == 0 && self.prefer_encrypt
                == EncryptPreference::NoPreference && gossip_header.prefer_encrypt
                == EncryptPreference::Mutual {
                self.prefer_encrypt = EncryptPreference::Mutual;
                self.to_save = Some(ToSave::All);
            }
        }
    }

    /// The gossip header to send for this peer at the given verification level,
    /// or `None` where there is no key at that level.
    pub fn render_gossip_header(&self, min_verified: PeerstateVerifiedStatus) -> (r: Option<
        String,
    >)
        ensures
            match r {
                Some(text) => self@.gossip_header(min_verified) matches Some(h) && text@
                    == aheader_text(h),
                None => self@.gossip_header(min_verified) is None,
            },
    {
        match self.peek_key(min_verified) {
            Some(key) => {
                let header = Aheader::new(
                    self.addr.clone(),
                    key.clone(),
                    if self.last_seen_autocrypt > 0 {
                        self.prefer_encrypt
                    } else {
                        EncryptPreference::NoPreference
                    },
                );
                Some(header.to_string())
            },
            None => None,
        }
    }

    /// The key to use at the given verification level, taken out of the state.
    pub fn take_key(self, min_verified: PeerstateVerifiedStatus) -> (r: Option<SignedPublicKey>)
        ensures
            opt_key_view(r) == self@.peek_key(min_verified),
    {
        match min_verified {
            PeerstateVerifiedStatus::BidirectVerified => self.verified_key,
            PeerstateVerifiedStatus::Unverified => match self.public_key {
                Some(k) => Some(k),
                None => self.gossip_key,
            },
        }
    }

    /// The key to use at the given verification level.
    pub fn peek_key(&self, min_verified: PeerstateVerifiedStatus) -> (r: Option<&SignedPublicKey>)
        ensures
            match r {
                Some(k) => self@.peek_key(min_verified) == Some(k@),
                None => self@.peek_key(min_verified) is None,
            },
    {
        match min_verified {
            PeerstateVerifiedStatus::BidirectVerified => match &self.verified_key {
                Some(k) => Some(k),
                None => None,
            },
            PeerstateVerifiedStatus::Unverified => match &self.public_key {
                Some(k) => Some(k),
                None => match &self.gossip_key {
                    Some(k) => Some(k),
                    None => None,
                },
            },
        }
    }

    /// Marks the public or the gossip key as verified, where the verification is
    /// bidirectional and that key's known fingerprint is `fingerprint`; returns
    /// whether it did.
    pub fn set_verified(
        &mut self,
        which_key: PeerstateKeyType,
        fingerprint: &Fingerprint,
        verified: PeerstateVerifiedStatus,
    ) -> (r: bool)
        ensures
            (final(self)@, r) == old(self)@.set_verified(which_key, fingerprint@, verified),
    {
        if verified == PeerstateVerifiedStatus::BidirectVerified {
            match which_key {
                PeerstateKeyType::PublicKey => {
                    let matches = match &self.public_key_fingerprint {
                        Some(fp) => fp.same_as(fingerprint),
                        None => false,
                    };
                    if matches {
                        self.to_save = Some(ToSave::All);
                        self.verified_key = copy_key_opt(&self.public_key);
                        self.verified_key_fingerprint = copy_fingerprint_opt(
                            &self.public_key_fingerprint,
                        );
                        true
                    } else {
                        false
                    }
                },
                PeerstateKeyType::GossipKey => {
                    let matches = match &self.gossip_key_fingerprint {
                        Some(fp) => fp.same_as(fingerprint),
                        None => false,
                    };
                    if matches {
                        self.to_save = Some(ToSave::All);
                        self.verified_key = copy_key_opt(&self.gossip_key);
                        self.verified_key_fingerprint = copy_fingerprint_opt(
                            &self.gossip_key_fingerprint,
                        );
                        true
                    } else {
                        false
                    }
                },
            }
        } else {
            false
        }
    }

    /// Whether the state holds a verified key whose fingerprint is among
    /// `fingerprints`.
    pub fn has_verified_key(&self, fingerprints: &[Fingerprint]) -> (r: bool)
        ensures
            r == self@.has_verified_key(fingerprints@.map_values(|f: Fingerprint| f@)),
    {
        match &self.verified_key_fingerprint {
            Some(vkc) => {
                let ghost views = fingerprints@.map_values(|f: Fingerprint| f@);
                let n = fingerprints.len();
                let mut found = false;
                for i in 0..n
                    invariant
                        n == fingerprints@.len(),
                        views == fingerprints@.map_values(|f: Fingerprint| f@),
                        found == (exists|k: int| 0 <= k < i && #[trigger] views[k] == vkc@),
                {
                    let hit = fingerprints[i].same_as(vkc);
                    proof {
                        assert(views[i as int] == fingerprints@[i as int]@);
                    }
                    if hit {
                        found = true;
                    }
                }
                found && self.verified_key.is_some()
            },
            None => false,
        }
    }
}

} // verus!
