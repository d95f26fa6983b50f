//! What holds of the peer state across its operations.
use vstd::prelude::*;
use vstd::utf8::is_ascii_chars;
use crate::aheader::{
    header_text, preference_code, preference_of_code, wrap_keydata, AheaderView, EncryptPreference,
};
use crate::key::{
    digit_value, fingerprint_from_digits, hex_decode, hex_digit, hex_upper, is_hex_digit,
    keep_hex_digits, parse_fingerprint, FingerprintError,
};
use crate::peerstate::{
    state_from_gossip, state_from_header, PeerstateKeyType, PeerstateVerifiedStatus,
    PeerstateView, ToSave,
};
use crate::store::{
    loaded_preference, record_of_state, state_of_record, stored_fingerprint, PeerstateRecordView,
};
use crate::text::{ascii_lower_char, ascii_upper_char, text_lowercase, text_uppercase};

verus! {

proof fn lemma_hex_digit(d: int)
    requires
        0 <= d < 16,
    ensures
        is_hex_digit(hex_digit(d)),
        digit_value(hex_digit(d)) == d,
        ascii_upper_char(hex_digit(d)) == hex_digit(d),
        '\0' <= hex_digit(d) <= '\u{7f}',
{
}

proof fn lemma_keep_all_digits(s: Seq<char>)
    requires
        forall|i: int| 0 <= i < s.len() ==> is_hex_digit(#[trigger] s[i]),
    ensures
        keep_hex_digits(s) == s,
    decreases s.len(),
{
    if s.len() > 0 {
        lemma_keep_all_digits(s.drop_last());
        assert(s.drop_last().push(s.last()) =~= s);
    }
}

/// The upper-case hexadecimal text of 20 bytes is read back as those bytes:
/// a fingerprint written as text is loaded as the same fingerprint.
pub proof fn law_fingerprint_text_round_trip(bytes: Seq<u8>)
    requires
        bytes.len() == 20,
    ensures
        parse_fingerprint(hex_upper(bytes)) == Ok::<Seq<u8>, crate::key::FingerprintError>(bytes),
{
    let text = hex_upper(bytes);
    assert forall|i: int| 0 <= i < text.len() implies {
        &&& is_hex_digit(#[trigger] text[i])
        &&& ascii_upper_char(text[i]) == text[i]
        &&& '\0' <= text[i] <= '\u{7f}'
    } by {
        let b = bytes[i / 2] as int;
        if i % 2 == 0 {
            lemma_hex_digit(b / 16);
        } else {
            lemma_hex_digit(b % 16);
        }
    }
    assert(is_ascii_chars(text));
    assert(text.map_values(|c: char| ascii_upper_char(c)) =~= text);
    assert(text_uppercase(text) == text);
    lemma_keep_all_digits(text);
    let decoded = hex_decode(text).unwrap();
    assert forall|i: int| 0 <= i < bytes.len() implies #[trigger] decoded[i] == bytes[i] by {
        let b = bytes[i] as int;
        lemma_hex_digit(b / 16);
        lemma_hex_digit(b % 16);
        assert(text[2 * i] == hex_digit(b / 16));
        assert(text[2 * i + 1] == hex_digit(b % 16));
        assert((b / 16) * 16 + b % 16 == b) by (nonlinear_arith)
            requires
                0 <= b,
        ;
    }
    assert(decoded =~= bytes);
}

/// The preference written to a row is read back as the same preference.
pub proof fn law_preference_round_trip(p: EncryptPreference)
    ensures
        loaded_preference(preference_code(p) as i32) == p,
{
}

/// Writing a state to its row and reading the row back gives the same state,
/// with nothing left to save and no fingerprint change pending (every
/// fingerprint has 20 bytes).
pub proof fn law_save_load_round_trip(s: PeerstateView)
    requires
        s.public_key_fingerprint matches Some(f) ==> f.len() == 20,
        s.gossip_key_fingerprint matches Some(f) ==> f.len() == 20,
        s.verified_key_fingerprint matches Some(f) ==> f.len() == 20,
    ensures
        state_of_record(record_of_state(s)) == (PeerstateView {
            to_save: None,
            fingerprint_changed: false,
            ..s
        }),
{
    if let Some(f) = s.public_key_fingerprint {
        law_fingerprint_text_round_trip(f);
    }
    if let Some(f) = s.gossip_key_fingerprint {
        law_fingerprint_text_round_trip(f);
    }
    if let Some(f) = s.verified_key_fingerprint {
        law_fingerprint_text_round_trip(f);
    }
    law_preference_round_trip(s.prefer_encrypt);
}

/// An Autocrypt header of a message no newer than the last one seen changes
/// nothing; so a header that arrives after encryption was degraded by a newer
/// message does not undo the degradation.
pub proof fn law_stale_header_ignored(s: PeerstateView, h: AheaderView, t: i64)
    requires
        t <= s.last_seen,
    ensures
        s.apply_header(h, t) == s,
{
}

/// A header older than a degradation, applied after it, leaves the degraded state.
pub proof fn law_degrade_survives_older_header(
    s: PeerstateView,
    h: AheaderView,
    degraded_at: i64,
    t: i64,
)
    requires
        t <= degraded_at,
    ensures
        s.degrade(degraded_at).apply_header(h, t) == s.degrade(degraded_at),
        s.degrade(degraded_at).apply_header(h, t).prefer_encrypt == EncryptPreference::Reset,
{
}

/// Addresses are compared without regard to ASCII letter case: a header or
/// gossip whose address differs from the peer's only in case is applied.
pub proof fn law_address_case_ignored(s: PeerstateView, h: AheaderView, t: i64)
    requires
        is_ascii_chars(s.addr),
        is_ascii_chars(h.addr),
        s.addr.map_values(|c: char| ascii_lower_char(c)) == h.addr.map_values(
            |c: char| ascii_lower_char(c),
        ),
    ensures
        s.apply_header(h, t) == s.merge_header(h, t),
        s.apply_gossip(h, t) == s.merge_gossip(h, t),
{
}

/// Gossip no newer than the last gossip changes nothing.
pub proof fn law_stale_gossip_ignored(s: PeerstateView, h: AheaderView, t: i64)
    requires
        t <= s.gossip_timestamp,
    ensures
        s.apply_gossip(h, t) == s,
{
}

/// After a newer Autocrypt header for the peer's address, the header's key is
/// the peer's public key, with its fingerprint; both timestamps are the
/// message's; a mutual or no-preference preference is taken over, any other
/// leaves the old one; and the change is marked for saving. (The fingerprint is
/// the key's where the state's fingerprints matched its keys before.)
pub proof fn law_newer_header_applied(s: PeerstateView, h: AheaderView, t: i64)
    requires
        text_lowercase(s.addr) == text_lowercase(h.addr),
        t > s.last_seen,
    ensures
        s.apply_header(h, t).public_key == Some(h.public_key),
        s.fingerprints_match_keys() ==> s.apply_header(h, t).public_key_fingerprint == Some(
            h.public_key.fingerprint,
        ),
        s.apply_header(h, t).last_seen == t,
        s.apply_header(h, t).last_seen_autocrypt == t,
        s.apply_header(h, t).prefer_encrypt == if h.prefer_encrypt == EncryptPreference::Reset {
            s.prefer_encrypt
        } else {
            h.prefer_encrypt
        },
        s.apply_header(h, t).to_save is Some,
        s.apply_header(h, t).gossip_timestamp == s.gossip_timestamp,
        s.apply_header(h, t).verified_key == s.verified_key,
        s.apply_header(h, t).verified_key_fingerprint == s.verified_key_fingerprint,
{
}

/// Applying the same header twice, for the same message, is applying it once.
pub proof fn law_header_idempotent(s: PeerstateView, h: AheaderView, t: i64)
    ensures
        s.apply_header(h, t).apply_header(h, t) == s.apply_header(h, t),
{
}

/// Applying the same gossip twice, for the same message, is applying it once.
pub proof fn law_gossip_idempotent(s: PeerstateView, h: AheaderView, t: i64)
    ensures
        s.apply_gossip(h, t).apply_gossip(h, t) == s.apply_gossip(h, t),
{
}

/// After newer gossip for the peer's address, the gossip key is the header's
/// key, with its fingerprint, and the gossip timestamp is the message's; the
/// public key, the Autocrypt timestamps and the verified key stay. (The
/// fingerprint is the key's where the state's fingerprints matched its keys.)
pub proof fn law_newer_gossip_applied(s: PeerstateView, h: AheaderView, t: i64)
    requires
        text_lowercase(s.addr) == text_lowercase(h.addr),
        t > s.gossip_timestamp,
    ensures
        s.apply_gossip(h, t).gossip_key == Some(h.public_key),
        s.fingerprints_match_keys() ==> s.apply_gossip(h, t).gossip_key_fingerprint == Some(
            h.public_key.fingerprint,
        ),
        s.apply_gossip(h, t).gossip_timestamp == t,
        s.apply_gossip(h, t).public_key == s.public_key,
        s.apply_gossip(h, t).last_seen == s.last_seen,
        s.apply_gossip(h, t).last_seen_autocrypt == s.last_seen_autocrypt,
        s.apply_gossip(h, t).verified_key == s.verified_key,
        s.apply_gossip(h, t).to_save is Some,
{
}

/// A change of the gossip key is reported as a fingerprint change only where no
/// public key fingerprint is known: the public key from an Autocrypt header
/// overrides the gossip key. (Where a stored public fingerprint does not match
/// the public key, recomputing it on gossip reports that mismatch instead.)
pub proof fn law_gossip_change_silent_beside_public_key(s: PeerstateView, h: AheaderView, t: i64)
    requires
        s.fingerprints_match_keys(),
        s.public_key_fingerprint is Some,
    ensures
        s.apply_gossip(h, t).fingerprint_changed == s.fingerprint_changed,
{
}

/// Gossip changes the preference only from no preference to mutual, and only
/// where no Autocrypt header was ever seen.
pub proof fn law_gossip_preference_one_way(s: PeerstateView, h: AheaderView, t: i64)
    ensures
        s.apply_gossip(h, t).prefer_encrypt == s.prefer_encrypt || (s.prefer_encrypt
            == EncryptPreference::NoPreference && s.last_seen_autocrypt == 0
            && s.apply_gossip(h, t).prefer_encrypt == EncryptPreference::Mutual),
{
}

/// Headers and gossip never move their timestamps back.
pub proof fn law_timestamps_monotone(s: PeerstateView, h: AheaderView, t: i64)
    ensures
        s.apply_header(h, t).last_seen >= s.last_seen,
        s.apply_header(h, t).last_seen_autocrypt >= s.last_seen_autocrypt || s.apply_header(
            h,
            t,
        ).last_seen_autocrypt == t,
        s.apply_gossip(h, t).gossip_timestamp >= s.gossip_timestamp,
        s.apply_gossip(h, t).last_seen == s.last_seen,
{
}

/// Recomputing the fingerprints makes each one that stands beside a key that
/// key's fingerprint; doing it again changes nothing.
pub proof fn law_recalc_matches_and_settles(s: PeerstateView)
    ensures
        s.recalc().fingerprints_match_keys(),
        s.recalc().recalc() == s.recalc(),
{
}

/// Where the fingerprints already match the keys, recomputing them changes nothing.
pub proof fn law_recalc_keeps_matching_state(s: PeerstateView)
    requires
        s.fingerprints_match_keys(),
    ensures
        s.recalc() == s,
{
}

/// A new state has fingerprints that match its keys, and headers, gossip,
/// degradation and verification keep them matching.
pub proof fn law_fingerprints_stay_matched(
    s: PeerstateView,
    h: AheaderView,
    t: i64,
    which_key: PeerstateKeyType,
    fingerprint: Seq<u8>,
    verified: PeerstateVerifiedStatus,
)
    requires
        s.fingerprints_match_keys(),
    ensures
        state_from_header(h, t).fingerprints_match_keys(),
        state_from_gossip(h, t).fingerprints_match_keys(),
        s.apply_header(h, t).fingerprints_match_keys(),
        s.apply_gossip(h, t).fingerprints_match_keys(),
        s.degrade(t).fingerprints_match_keys(),
        s.set_verified(which_key, fingerprint, verified).0.fingerprints_match_keys(),
{
}

/// Marking the public key as verified succeeds exactly when the verification is
/// bidirectional and the public key's known fingerprint is the given one; then
/// the verified key is the public key, it is what the verified level yields,
/// and a set holding that fingerprint finds it where the key is known.
pub proof fn law_verify_public_key(
    s: PeerstateView,
    fingerprint: Seq<u8>,
    verified: PeerstateVerifiedStatus,
)
    ensures
        s.set_verified(PeerstateKeyType::PublicKey, fingerprint, verified).1 == (verified
            == PeerstateVerifiedStatus::BidirectVerified && s.public_key_fingerprint == Some(
            fingerprint,
        )),
        s.set_verified(PeerstateKeyType::PublicKey, fingerprint, verified).1 ==> {
            let after = s.set_verified(PeerstateKeyType::PublicKey, fingerprint, verified).0;
            &&& after.verified_key == s.public_key
            &&& after.verified_key_fingerprint == Some(fingerprint)
            &&& after.peek_key(PeerstateVerifiedStatus::BidirectVerified) == s.public_key
            &&& after.to_save == Some(ToSave::All)
            &&& after.has_verified_key(seq![fingerprint]) == s.public_key is Some
        },
        !s.set_verified(PeerstateKeyType::PublicKey, fingerprint, verified).1 ==> s.set_verified(
            PeerstateKeyType::PublicKey,
            fingerprint,
            verified,
        ).0 == s,
{
    assert(seq![fingerprint][0] == fingerprint);
}

/// Marking the gossip key as verified succeeds exactly when the verification is
/// bidirectional and the gossip key's known fingerprint is the given one; then
/// the verified key is the gossip key.
pub proof fn law_verify_gossip_key(
    s: PeerstateView,
    fingerprint: Seq<u8>,
    verified: PeerstateVerifiedStatus,
)
    ensures
        s.set_verified(PeerstateKeyType::GossipKey, fingerprint, verified).1 == (verified
            == PeerstateVerifiedStatus::BidirectVerified && s.gossip_key_fingerprint == Some(
            fingerprint,
        )),
        s.set_verified(PeerstateKeyType::GossipKey, fingerprint, verified).1 ==> {
            let after = s.set_verified(PeerstateKeyType::GossipKey, fingerprint, verified).0;
            &&& after.verified_key == s.gossip_key
            &&& after.verified_key_fingerprint == Some(fingerprint)
            &&& after.peek_key(PeerstateVerifiedStatus::BidirectVerified) == s.gossip_key
        },
        !s.set_verified(PeerstateKeyType::GossipKey, fingerprint, verified).1 ==> s.set_verified(
            PeerstateKeyType::GossipKey,
            fingerprint,
            verified,
        ).0 == s,
{
}

/// A gossip header is rendered exactly when there is a key at the level asked
/// for; unverified, the public key is preferred to the gossip key; and the
/// preference is told only where an Autocrypt header was seen.
pub proof fn law_gossip_header_choice(s: PeerstateView, min_verified: PeerstateVerifiedStatus)
    ensures
        s.gossip_header(min_verified) is Some <==> s.peek_key(min_verified) is Some,
        s.public_key is Some ==> s.peek_key(PeerstateVerifiedStatus::Unverified) == s.public_key,
        s.public_key is None ==> s.peek_key(PeerstateVerifiedStatus::Unverified) == s.gossip_key,
        s.peek_key(PeerstateVerifiedStatus::BidirectVerified) == s.verified_key,
        s.gossip_header(min_verified) matches Some(h) ==> {
            &&& Some(h.public_key) == s.peek_key(min_verified)
            &&& h.addr == s.addr
            &&& h.prefer_encrypt == (if s.last_seen_autocrypt > 0 {
                s.prefer_encrypt
            } else {
                EncryptPreference::NoPreference
            })
        },
{
}

/// Newer gossip for the peer's address with a mutual preference, where no
/// Autocrypt header was seen and the peer has no preference, makes the
/// preference mutual and marks everything for saving, whether or not the gossip
/// key changes.
pub proof fn law_gossip_raises_preference(s: PeerstateView, h: AheaderView, t: i64)
    requires
        text_lowercase(s.addr) == text_lowercase(h.addr),
        t > s.gossip_timestamp,
        s.last_seen_autocrypt == 0,
        s.prefer_encrypt == EncryptPreference::NoPreference,
        h.prefer_encrypt == EncryptPreference::Mutual,
    ensures
        s.apply_gossip(h, t).prefer_encrypt == EncryptPreference::Mutual,
        s.apply_gossip(h, t).to_save == Some(ToSave::All),
{
}

/// What newer gossip for the peer's address does, field by field: the gossip
/// key and timestamp are the header's; a changed gossip key recomputes both
/// fingerprints; the preference is raised as gossip allows; and the save mark
/// is everything where the key or the preference changed, else the timestamps.
pub proof fn law_newer_gossip_effect(s: PeerstateView, h: AheaderView, t: i64)
    requires
        text_lowercase(s.addr) == text_lowercase(h.addr),
        t > s.gossip_timestamp,
    ensures
        ({
            let r = s.apply_gossip(h, t);
            let key_changed = s.gossip_key != Some(h.public_key);
            let raised = s.last_seen_autocrypt == 0 && s.prefer_encrypt
                == EncryptPreference::NoPreference && h.prefer_encrypt
                == EncryptPreference::Mutual;
            let public_fp_after = if key_changed && s.public_key is Some {
                Some(s.public_key->0.fingerprint)
            } else {
                s.public_key_fingerprint
            };
            &&& r.addr == s.addr
            &&& r.gossip_timestamp == t
            &&& r.gossip_key == Some(h.public_key)
            &&& r.last_seen == s.last_seen
            &&& r.last_seen_autocrypt == s.last_seen_autocrypt
            &&& r.public_key == s.public_key
            &&& r.verified_key == s.verified_key
            &&& r.verified_key_fingerprint == s.verified_key_fingerprint
            &&& r.prefer_encrypt == (if raised {
                EncryptPreference::Mutual
            } else {
                s.prefer_encrypt
            })
            &&& r.to_save == (if key_changed || raised {
                Some(ToSave::All)
            } else {
                Some(ToSave::Timestamps)
            })
            &&& r.public_key_fingerprint == public_fp_after
            &&& r.gossip_key_fingerprint == (if key_changed {
                Some(h.public_key.fingerprint)
            } else {
                s.gossip_key_fingerprint
            })
            &&& r.fingerprint_changed == (s.fingerprint_changed || (key_changed && (
            (s.public_key is Some && s.public_key_fingerprint is Some
                && s.public_key_fingerprint != Some(s.public_key->0.fingerprint)) || (
            s.gossip_key_fingerprint is Some && s.gossip_key_fingerprint != Some(
                h.public_key.fingerprint,
            ) && public_fp_after is None))))
        }),
{
}

/// What a newer Autocrypt header for the peer's address does, field by field:
/// both Autocrypt timestamps are the message's, the key is the header's, a
/// changed key recomputes both fingerprints, a preference other than reset is
/// taken over, and the save mark is everything where the key or the preference
/// changed, else the timestamps.
pub proof fn law_newer_header_effect(s: PeerstateView, h: AheaderView, t: i64)
    requires
        text_lowercase(s.addr) == text_lowercase(h.addr),
        t > s.last_seen,
    ensures
        ({
            let r = s.apply_header(h, t);
            let key_changed = s.public_key != Some(h.public_key);
            let takes_preference = h.prefer_encrypt != EncryptPreference::Reset
                && h.prefer_encrypt != s.prefer_encrypt;
            &&& r.addr == s.addr
            &&& r.last_seen == t
            &&& r.last_seen_autocrypt == t
            &&& r.public_key == Some(h.public_key)
            &&& r.gossip_key == s.gossip_key
            &&& r.gossip_timestamp == s.gossip_timestamp
            &&& r.verified_key == s.verified_key
            &&& r.verified_key_fingerprint == s.verified_key_fingerprint
            &&& r.prefer_encrypt == (if takes_preference {
                h.prefer_encrypt
            } else {
                s.prefer_encrypt
            })
            &&& r.to_save == (if key_changed || takes_preference {
                Some(ToSave::All)
            } else {
                Some(ToSave::Timestamps)
            })
            &&& r.public_key_fingerprint == (if key_changed {
                Some(h.public_key.fingerprint)
            } else {
                s.public_key_fingerprint
            })
            &&& r.gossip_key_fingerprint == (if key_changed && s.gossip_key is Some {
                Some(s.gossip_key->0.fingerprint)
            } else {
                s.gossip_key_fingerprint
            })
            &&& r.fingerprint_changed == (s.fingerprint_changed || (key_changed
                && s.public_key_fingerprint is Some && s.public_key_fingerprint != Some(
                h.public_key.fingerprint,
            )))
        }),
{
}

/// A state made from an Autocrypt header or from gossip holds no verified key:
/// nothing is yielded at the verified level, and the state is new and to be
/// saved whole, with no fingerprint change.
pub proof fn law_new_state_unverified(h: AheaderView, t: i64)
    ensures
        state_from_header(h, t).verified_key is None,
        state_from_header(h, t).verified_key_fingerprint is None,
        state_from_header(h, t).peek_key(PeerstateVerifiedStatus::BidirectVerified) is None,
        state_from_header(h, t).gossip_header(PeerstateVerifiedStatus::BidirectVerified) is None,
        state_from_header(h, t).public_key == Some(h.public_key),
        state_from_header(h, t).public_key_fingerprint == Some(h.public_key.fingerprint),
        state_from_header(h, t).gossip_key is None,
        state_from_header(h, t).gossip_key_fingerprint is None,
        state_from_header(h, t).gossip_timestamp == 0,
        state_from_header(h, t).addr == h.addr,
        state_from_header(h, t).last_seen == t,
        state_from_header(h, t).last_seen_autocrypt == t,
        state_from_header(h, t).prefer_encrypt == h.prefer_encrypt,
        state_from_header(h, t).to_save == Some(ToSave::All),
        !state_from_header(h, t).fingerprint_changed,
        state_from_gossip(h, t).verified_key is None,
        state_from_gossip(h, t).verified_key_fingerprint is None,
        state_from_gossip(h, t).peek_key(PeerstateVerifiedStatus::BidirectVerified) is None,
        state_from_gossip(h, t).public_key is None,
        state_from_gossip(h, t).public_key_fingerprint is None,
        state_from_gossip(h, t).gossip_key == Some(h.public_key),
        state_from_gossip(h, t).gossip_key_fingerprint == Some(h.public_key.fingerprint),
        state_from_gossip(h, t).gossip_timestamp == t,
        state_from_gossip(h, t).addr == h.addr,
        state_from_gossip(h, t).last_seen == 0,
        state_from_gossip(h, t).last_seen_autocrypt == 0,
        state_from_gossip(h, t).prefer_encrypt == EncryptPreference::NoPreference,
        state_from_gossip(h, t).to_save == Some(ToSave::All),
        !state_from_gossip(h, t).fingerprint_changed,
{
}

/// The verified key is found among a list of fingerprints exactly when its
/// fingerprint occurs at some position of the list and the key is known.
pub proof fn law_has_verified_key_membership(s: PeerstateView, fingerprints: Seq<Seq<u8>>)
    ensures
        s.has_verified_key(fingerprints) == (s.verified_key is Some && exists|i: int|
            0 <= i < fingerprints.len() && s.verified_key_fingerprint == Some(
                #[trigger] fingerprints[i],
            )),
{
    if s.verified_key_fingerprint is Some {
        let f = s.verified_key_fingerprint->0;
        if fingerprints.contains(f) {
            let i = choose|i: int| 0 <= i < fingerprints.len() && fingerprints[i] == f;
            assert(s.verified_key_fingerprint == Some(fingerprints[i]));
        }
    }
}

/// Recomputing the fingerprints sets each known key's fingerprint, keeps an
/// unkeyed fingerprint as it was, marks the state for a full save where a
/// fingerprint was missing or different, and reports a fingerprint change only
/// where an earlier public fingerprint differs from the public key's, or an
/// earlier gossip fingerprint differs from the gossip key's while no public
/// fingerprint is known; filling in a missing fingerprint reports nothing.
pub proof fn law_recalc_effect(s: PeerstateView)
    ensures
        ({
            let r = s.recalc();
            let public_differs = s.public_key is Some && s.public_key_fingerprint != Some(
                s.public_key->0.fingerprint,
            );
            let gossip_differs = s.gossip_key is Some && s.gossip_key_fingerprint != Some(
                s.gossip_key->0.fingerprint,
            );
            let public_fp_after = if s.public_key is Some {
                Some(s.public_key->0.fingerprint)
            } else {
                s.public_key_fingerprint
            };
            &&& r.public_key_fingerprint == public_fp_after
            &&& r.gossip_key_fingerprint == (if s.gossip_key is Some {
                Some(s.gossip_key->0.fingerprint)
            } else {
                s.gossip_key_fingerprint
            })
            &&& r.to_save == (if public_differs || gossip_differs {
                Some(ToSave::All)
            } else {
                s.to_save
            })
            &&& r.fingerprint_changed == (s.fingerprint_changed || (public_differs
                && s.public_key_fingerprint is Some) || (gossip_differs
                && s.gossip_key_fingerprint is Some && public_fp_after is None))
            &&& r.addr == s.addr
            &&& r.public_key == s.public_key
            &&& r.gossip_key == s.gossip_key
            &&& r.verified_key == s.verified_key
            &&& r.verified_key_fingerprint == s.verified_key_fingerprint
            &&& r.prefer_encrypt == s.prefer_encrypt
            &&& r.last_seen == s.last_seen
            &&& r.last_seen_autocrypt == s.last_seen_autocrypt
            &&& r.gossip_timestamp == s.gossip_timestamp
        }),
        (s.public_key_fingerprint is None && (s.gossip_key matches Some(g)
            ==> s.gossip_key_fingerprint == Some(g.fingerprint))) ==> s.recalc().fingerprint_changed
            == s.fingerprint_changed,
{
}

/// Degrading encryption resets the preference, sets the last seen time, marks
/// everything for saving and leaves the rest alone.
pub proof fn law_degrade_effect(s: PeerstateView, t: i64)
    ensures
        s.degrade(t).prefer_encrypt == EncryptPreference::Reset,
        s.degrade(t).last_seen == t,
        s.degrade(t).to_save == Some(ToSave::All),
        s.degrade(t).addr == s.addr,
        s.degrade(t).last_seen_autocrypt == s.last_seen_autocrypt,
        s.degrade(t).public_key == s.public_key,
        s.degrade(t).public_key_fingerprint == s.public_key_fingerprint,
        s.degrade(t).gossip_key == s.gossip_key,
        s.degrade(t).gossip_key_fingerprint == s.gossip_key_fingerprint,
        s.degrade(t).gossip_timestamp == s.gossip_timestamp,
        s.degrade(t).verified_key == s.verified_key,
        s.degrade(t).verified_key_fingerprint == s.verified_key_fingerprint,
        s.degrade(t).fingerprint_changed == s.fingerprint_changed,
{
}

/// A successful verification changes only the verified key, its fingerprint
/// and the save mark.
pub proof fn law_verify_changes_only_verified_key(
    s: PeerstateView,
    which_key: PeerstateKeyType,
    fingerprint: Seq<u8>,
    verified: PeerstateVerifiedStatus,
)
    ensures
        ({
            let r = s.set_verified(which_key, fingerprint, verified).0;
            &&& r.addr == s.addr
            &&& r.last_seen == s.last_seen
            &&& r.last_seen_autocrypt == s.last_seen_autocrypt
            &&& r.prefer_encrypt == s.prefer_encrypt
            &&& r.public_key == s.public_key
            &&& r.public_key_fingerprint == s.public_key_fingerprint
            &&& r.gossip_key == s.gossip_key
            &&& r.gossip_key_fingerprint == s.gossip_key_fingerprint
            &&& r.gossip_timestamp == s.gossip_timestamp
            &&& r.fingerprint_changed == s.fingerprint_changed
        }),
{
}

/// An Autocrypt header or gossip for another address, compared without regard
/// to letter case, changes nothing.
pub proof fn law_other_address_ignored(s: PeerstateView, h: AheaderView, t: i64)
    requires
        text_lowercase(s.addr) != text_lowercase(h.addr),
    ensures
        s.apply_header(h, t) == s,
        s.apply_gossip(h, t) == s,
{
}

/// Hexadecimal digits are kept and every other character dropped, wherever
/// they stand: the digits of two texts joined are the digits of each, joined.
pub proof fn law_keep_digits_concat(a: Seq<char>, b: Seq<char>)
    ensures
        keep_hex_digits(a + b) == keep_hex_digits(a) + keep_hex_digits(b),
    decreases b.len(),
{
    if b.len() == 0 {
        assert(a + b =~= a);
        assert(keep_hex_digits(b) =~= Seq::<char>::empty());
        assert(keep_hex_digits(a) + keep_hex_digits(b) =~= keep_hex_digits(a));
    } else {
        law_keep_digits_concat(a, b.drop_last());
        assert((a + b).drop_last() =~= a + b.drop_last());
        assert((a + b).last() == b.last());
        if is_hex_digit(b.last()) {
            assert(keep_hex_digits(a) + keep_hex_digits(b.drop_last()).push(b.last())
                =~= (keep_hex_digits(a) + keep_hex_digits(b.drop_last())).push(b.last()));
        }
    }
}

/// A single character is kept exactly when it is an upper-case hexadecimal digit.
pub proof fn law_keep_digits_single(c: char)
    ensures
        keep_hex_digits(seq![c]) == (if is_hex_digit(c) {
            seq![c]
        } else {
            Seq::<char>::empty()
        }),
{
    assert(seq![c].drop_last() =~= Seq::<char>::empty());
    assert(keep_hex_digits(Seq::<char>::empty()) =~= Seq::<char>::empty());
    assert(seq![c].last() == c);
    assert(Seq::<char>::empty().push(c) =~= seq![c]);
}

proof fn lemma_digit_round_trip(c: char)
    requires
        is_hex_digit(c),
    ensures
        0 <= digit_value(c) < 16,
        hex_digit(digit_value(c)) == c,
{
}

proof fn lemma_byte_halves(hi: int, lo: int)
    requires
        0 <= hi < 16,
        0 <= lo < 16,
    ensures
        ((hi * 16 + lo) as u8) as int / 16 == hi,
        ((hi * 16 + lo) as u8) as int % 16 == lo,
{
    assert(0 <= hi * 16 + lo < 256) by (nonlinear_arith)
        requires
            0 <= hi < 16,
            0 <= lo < 16,
    ;
    assert((hi * 16 + lo) / 16 == hi && (hi * 16 + lo) % 16 == lo) by (nonlinear_arith)
        requires
            0 <= hi < 16,
            0 <= lo < 16,
    ;
}

/// An upper-cased text spells a fingerprint exactly when it holds 40
/// hexadecimal digits, and the fingerprint is the bytes those digits spell:
/// written back as hexadecimal text it gives the text's digits. An odd number of
/// digits is not hexadecimal; any other even number is the wrong length.
pub proof fn law_digits_spell_fingerprint(text: Seq<char>)
    ensures
        fingerprint_from_digits(text) is Ok <==> keep_hex_digits(text).len() == 40,
        fingerprint_from_digits(text) matches Ok(bytes) ==> bytes.len() == 20 && hex_upper(bytes)
            == keep_hex_digits(text),
        fingerprint_from_digits(text) == Err::<Seq<u8>, FingerprintError>(FingerprintError::NotHex)
            <==> keep_hex_digits(text).len() % 2 == 1,
        fingerprint_from_digits(text) == Err::<Seq<u8>, FingerprintError>(
            FingerprintError::WrongLength,
        ) <==> (keep_hex_digits(text).len() % 2 == 0 && keep_hex_digits(text).len() != 40),
{
    let d = keep_hex_digits(text);
    lemma_kept_are_digits(text);
    if d.len() % 2 == 0 {
        let bytes = hex_decode(d).unwrap();
        assert forall|i: int| 0 <= i < hex_upper(bytes).len() implies #[trigger] hex_upper(
            bytes,
        )[i] == d[i] by {
            let j = i / 2;
            lemma_digit_round_trip(d[2 * j]);
            lemma_digit_round_trip(d[2 * j + 1]);
            lemma_byte_halves(digit_value(d[2 * j]), digit_value(d[2 * j + 1]));
        }
        assert(hex_upper(bytes) =~= d);
    }
}

proof fn lemma_kept_are_digits(s: Seq<char>)
    ensures
        forall|k: int|
            0 <= k < keep_hex_digits(s).len() ==> is_hex_digit(#[trigger] keep_hex_digits(s)[k]),
    decreases s.len(),
{
    if s.len() > 0 {
        let rest = keep_hex_digits(s.drop_last());
        lemma_kept_are_digits(s.drop_last());
        assert forall|k: int|
            0 <= k < keep_hex_digits(s).len() implies is_hex_digit(
            #[trigger] keep_hex_digits(s)[k],
        ) by {
            if k < rest.len() {
                assert(keep_hex_digits(s)[k] == rest[k]);
            }
        }
    }
}

/// Fingerprint text is read without regard to letter case: the lower-case
/// hexadecimal text of 20 bytes is read back as those bytes.
pub proof fn law_fingerprint_lowercase_text(bytes: Seq<u8>)
    requires
        bytes.len() == 20,
    ensures
        parse_fingerprint(hex_upper(bytes).map_values(|c: char| ascii_lower_char(c))) == Ok::<
            Seq<u8>,
            FingerprintError,
        >(bytes),
{
    let upper = hex_upper(bytes);
    let lower = upper.map_values(|c: char| ascii_lower_char(c));
    assert forall|i: int| 0 <= i < upper.len() implies {
        &&& is_hex_digit(#[trigger] upper[i])
        &&& '\0' <= upper[i] <= '\u{7f}'
    } by {
        let b = bytes[i / 2] as int;
        if i % 2 == 0 {
            lemma_hex_digit(b / 16);
        } else {
            lemma_hex_digit(b % 16);
        }
    }
    assert forall|i: int| 0 <= i < lower.len() implies '\0' <= #[trigger] lower[i] <= '\u{7f}'
        && ascii_upper_char(lower[i]) == upper[i] by {
        assert(is_hex_digit(upper[i]));
    }
    assert(is_ascii_chars(lower));
    assert(text_uppercase(lower) =~= upper);
    law_fingerprint_text_round_trip(bytes);
    assert(is_ascii_chars(upper));
    assert(upper.map_values(|c: char| ascii_upper_char(c)) =~= upper);
}

/// The preference numbers: exactly 0, 1 and 20 name a preference, each names a
/// different one, and the number read back names the preference written.
pub proof fn law_preference_codes(code: int, p: EncryptPreference, q: EncryptPreference)
    ensures
        preference_of_code(code) is Some <==> (code == 0 || code == 1 || code == 20),
        preference_of_code(code) matches Some(r) ==> preference_code(r) == code,
        preference_of_code(preference_code(p)) == Some(p),
        p != q ==> preference_code(p) != preference_code(q),
        preference_of_code(0) == Some(EncryptPreference::NoPreference),
{
}

/// The row written for a state holds the state's columns as they are, the
/// preference as its number and each fingerprint as its hexadecimal text; the
/// state read from a row holds the row's columns, reads each fingerprint text
/// that spells one, and has nothing to save.
pub proof fn law_row_columns(s: PeerstateView, r: PeerstateRecordView)
    ensures
        record_of_state(s).addr == s.addr,
        record_of_state(s).last_seen == s.last_seen,
        record_of_state(s).last_seen_autocrypt == s.last_seen_autocrypt,
        record_of_state(s).gossip_timestamp == s.gossip_timestamp,
        record_of_state(s).prefer_encrypted as int == preference_code(s.prefer_encrypt),
        record_of_state(s).public_key == s.public_key,
        record_of_state(s).gossip_key == s.gossip_key,
        record_of_state(s).verified_key == s.verified_key,
        record_of_state(s).public_key_fingerprint == stored_fingerprint(s.public_key_fingerprint),
        record_of_state(s).gossip_key_fingerprint == stored_fingerprint(s.gossip_key_fingerprint),
        record_of_state(s).verified_key_fingerprint == stored_fingerprint(
            s.verified_key_fingerprint,
        ),
        s.public_key_fingerprint matches Some(f) ==> record_of_state(s).public_key_fingerprint
            == Some(hex_upper(f)),
        state_of_record(r).addr == r.addr,
        state_of_record(r).last_seen == r.last_seen,
        state_of_record(r).last_seen_autocrypt == r.last_seen_autocrypt,
        state_of_record(r).gossip_timestamp == r.gossip_timestamp,
        state_of_record(r).public_key == r.public_key,
        state_of_record(r).gossip_key == r.gossip_key,
        state_of_record(r).verified_key == r.verified_key,
        state_of_record(r).to_save is None,
        !state_of_record(r).fingerprint_changed,
        preference_of_code(r.prefer_encrypted as int) matches Some(p) ==> state_of_record(
            r,
        ).prefer_encrypt == p,
        preference_of_code(r.prefer_encrypted as int) is None ==> state_of_record(r).prefer_encrypt
            == EncryptPreference::NoPreference,
        state_of_record(r).public_key_fingerprint matches Some(f) ==> (r.public_key_fingerprint
            matches Some(t) && parse_fingerprint(t) == Ok::<Seq<u8>, FingerprintError>(f)),
        r.public_key_fingerprint is None ==> state_of_record(r).public_key_fingerprint is None,
        r.public_key_fingerprint matches Some(t) ==> (parse_fingerprint(t) matches Ok(b)
            ==> state_of_record(r).public_key_fingerprint == Some(b)),
        r.gossip_key_fingerprint matches Some(t) ==> (parse_fingerprint(t) matches Ok(b)
            ==> state_of_record(r).gossip_key_fingerprint == Some(b)),
        r.verified_key_fingerprint matches Some(t) ==> (parse_fingerprint(t) matches Ok(b)
            ==> state_of_record(r).verified_key_fingerprint == Some(b)),
        (r.public_key_fingerprint matches Some(t) && parse_fingerprint(t) is Err)
            ==> state_of_record(r).public_key_fingerprint is None,
        state_of_record(r).gossip_key_fingerprint matches Some(f) ==> (r.gossip_key_fingerprint
            matches Some(t) && parse_fingerprint(t) == Ok::<Seq<u8>, FingerprintError>(f)),
        state_of_record(r).verified_key_fingerprint matches Some(f) ==> (
        r.verified_key_fingerprint matches Some(t) && parse_fingerprint(t) == Ok::<
            Seq<u8>,
            FingerprintError,
        >(f)),
{
}

/// The key data is kept in order, with one space put in before the key data
/// characters at positions 70, 148, 226, ... (70 more than a multiple of 78):
/// character `i` of the key data stands at `i` plus the number of spaces put in
/// up to it, and the text has one space per such position.
pub proof fn law_keydata_wrapping(keydata: Seq<char>)
    ensures
        wrap_keydata(keydata).len() == keydata.len() + (keydata.len() + 7) / 78,
        forall|i: int|
            0 <= i < keydata.len() ==> wrap_keydata(keydata)[i + (i + 8) / 78] == #[trigger] keydata[i],
        forall|i: int|
            0 <= i < keydata.len() && i % 78 == 70 ==> #[trigger] wrap_keydata(keydata)[i + (i + 8)
                / 78 - 1] == ' ',
    decreases keydata.len(),
{
    if keydata.len() > 0 {
        let n = keydata.len() - 1;
        let prev = keydata.drop_last();
        law_keydata_wrapping(prev);
        let wp = wrap_keydata(prev);
        assert((n + 8) / 78 == (n + 7) / 78 + (if n % 78 == 70 {
            1int
        } else {
            0int
        }));
        assert forall|i: int| 0 <= i < keydata.len() implies wrap_keydata(keydata)[i + (i + 8)
            / 78] == #[trigger] keydata[i] by {
            if i < n {
                assert(i + (i + 8) / 78 < n + (n + 7) / 78);
                assert(prev[i] == keydata[i]);
            }
        }
        assert forall|i: int|
            0 <= i < keydata.len() && i % 78 == 70 implies #[trigger] wrap_keydata(keydata)[i + (i
                + 8) / 78 - 1] == ' ' by {
            if i < n {
                assert(i + (i + 8) / 78 - 1 < n + (n + 7) / 78);
                assert(wp[i + (i + 8) / 78 - 1] == ' ');
            } else {
                assert(i + (i + 8) / 78 - 1 == wp.len());
            }
        }
    }
}

/// The header text starts with `addr=`, the address and `;`, and ends with
/// ` keydata=` and the wrapped key data; a mutual preference adds exactly the
/// 23 characters ` prefer-encrypt=mutual;` between them, and any other
/// preference adds nothing.
pub proof fn law_header_text_shape(addr: Seq<char>, keydata: Seq<char>, p: EncryptPreference)
    ensures
        header_text(addr, EncryptPreference::NoPreference, keydata) == header_text(
            addr,
            EncryptPreference::Reset,
            keydata,
        ),
        header_text(addr, EncryptPreference::Mutual, keydata).len() == header_text(
            addr,
            EncryptPreference::NoPreference,
            keydata,
        ).len() + 23,
        header_text(addr, p, keydata).subrange(0, addr.len() + 6int) == "addr="@ + addr + ";"@,
        header_text(addr, p, keydata).subrange(
            header_text(addr, p, keydata).len() - wrap_keydata(keydata).len() - 9,
            header_text(addr, p, keydata).len() as int,
        ) == " keydata="@ + wrap_keydata(keydata),
{
    reveal_strlit("addr=");
    reveal_strlit(";");
    reveal_strlit(" prefer-encrypt=mutual;");
    reveal_strlit(" keydata=");
    let head = "addr="@ + addr + ";"@;
    let mid = if p == EncryptPreference::Mutual {
        " prefer-encrypt=mutual;"@
    } else {
        Seq::empty()
    };
    let tail = " keydata="@ + wrap_keydata(keydata);
    let t = header_text(addr, p, keydata);
    assert(t =~= head + mid + tail);
    assert(t.subrange(0, addr.len() + 6int) =~= head);
    assert(t.subrange(t.len() - wrap_keydata(keydata).len() - 9, t.len() as int) =~= tail);
}

/// ASCII case mapping changes letters only: lowercasing leaves no upper-case
/// letter and uppercasing no lower-case one, each turns a letter into the same
/// letter of the other case, and either leaves every other character alone.
pub proof fn law_ascii_case_mapping(c: char)
    ensures
        !('A' <= ascii_lower_char(c) && ascii_lower_char(c) <= 'Z'),
        !('a' <= ascii_upper_char(c) && ascii_upper_char(c) <= 'z'),
        ascii_lower_char(ascii_upper_char(c)) == ascii_lower_char(c),
        ascii_upper_char(ascii_lower_char(c)) == ascii_upper_char(c),
        ('A' <= c && c <= 'Z') ==> ascii_lower_char(c) != c,
        ('a' <= c && c <= 'z') ==> ascii_upper_char(c) != c,
        !('A' <= c && c <= 'Z') && !('a' <= c && c <= 'z') ==> ascii_lower_char(c) == c
            && ascii_upper_char(c) == c,
{
}

} // verus!
