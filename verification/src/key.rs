//! OpenPGP public keys as a peer state holds them, and their fingerprints.
use vstd::prelude::*;
use crate::text::{push_char, text_uppercase, uppercase};

verus! {

/// An upper-case hexadecimal digit: `0`..`9` or `A`..`F`.
pub open spec fn is_hex_digit(c: char) -> bool {
    ('0' <= c && c <= '9') || ('A' <= c && c <= 'F')
}

/// The upper-case hexadecimal digit of a value below 16.
pub open spec fn hex_digit(d: int) -> char {
    if d < 10 {
        (48 + d) as char
    } else {
        (55 + d) as char
    }
}

/// The value of an upper-case hexadecimal digit.
pub open spec fn digit_value(c: char) -> int {
    if c <= '9' {
        (c as int) - 48
    } else {
        (c as int) - 55
    }
}

/// Upper-case hexadecimal text of a byte string, two digits per byte, high half first.
pub open spec fn hex_upper(bytes: Seq<u8>) -> Seq<char> {
    Seq::new(
        2 * bytes.len(),
        |i: int|
            if i % 2 == 0 {
                hex_digit(bytes[i / 2] as int / 16)
            } else {
                hex_digit(bytes[i / 2] as int % 16)
            },
    )
}

/// The hexadecimal digits of a text, in order, with every other character dropped.
pub open spec fn keep_hex_digits(s: Seq<char>) -> Seq<char>
    decreases s.len(),
{
    if s.len() == 0 {
        Seq::empty()
    } else {
        let rest = keep_hex_digits(s.drop_last());
        if is_hex_digit(s.last()) {
            rest.push(s.last())
        } else {
            rest
        }
    }
}

/// The bytes that a string of hexadecimal digits spells, two digits per byte;
/// `None` for an odd number of digits.
pub open spec fn hex_decode(digits: Seq<char>) -> Option<Seq<u8>> {
    if digits.len() % 2 != 0 {
        None
    } else {
        Some(
            Seq::new(
                digits.len() / 2,
                |i: int| (digit_value(digits[2 * i]) * 16 + digit_value(digits[2 * i + 1])) as u8,
            ),
        )
    }
}

/// Why a text is not a fingerprint.
#[derive(Debug, Clone, Copy, PartialEq, Eq, Structural)]
pub enum FingerprintError {
    /// The hexadecimal digits in the text are odd in number.
    NotHex,
    /// The digits spell a byte string that is not 20 bytes long.
    WrongLength,
}

/// The fingerprint that an upper-cased text spells: its hexadecimal digits, read
/// two per byte, must give exactly 20 bytes.
pub open spec fn fingerprint_from_digits(text: Seq<char>) -> Result<Seq<u8>, FingerprintError> {
    match hex_decode(keep_hex_digits(text)) {
        None => Err(FingerprintError::NotHex),
        Some(bytes) => if bytes.len() == 20 {
            Ok(bytes)
        } else {
            Err(FingerprintError::WrongLength)
        },
    }
}

/// The fingerprint that a text spells, in any letter case and with any separators.
pub open spec fn parse_fingerprint(text: Seq<char>) -> Result<Seq<u8>, FingerprintError> {
    fingerprint_from_digits(text_uppercase(text))
}

/// The view of a fingerprint result.
pub open spec fn fingerprint_result_view(r: Result<Fingerprint, FingerprintError>) -> Result<
    Seq<u8>,
    FingerprintError,
> {
    match r {
        Ok(fp) => Ok(fp@),
        Err(e) => Err(e),
    }
}

/// The fingerprint of an OpenPGP key: 20 bytes.
#[derive(Debug, PartialEq, Eq, Hash)]
pub struct Fingerprint {
    bytes: Vec<u8>,
}

impl View for Fingerprint {
    type V = Seq<u8>;

    closed spec fn view(&self) -> Seq<u8> {
        self.bytes@
    }
}

impl Fingerprint {
    #[verifier::type_invariant]
    closed spec fn twenty_bytes(self) -> bool {
        self.bytes@.len() == 20
    }

    /// The fingerprint made of the given bytes; refused unless there are 20.
    pub fn new(bytes: Vec<u8>) -> (r: Result<Fingerprint, FingerprintError>)
        ensures
            bytes@.len() == 20 <==> r is Ok,
            r matches Ok(fp) ==> fp@ == bytes@,
            r matches Err(e) ==> e == FingerprintError::WrongLength,
    {
        if bytes.len() == 20 {
            Ok(Fingerprint { bytes })
        } else {
            Err(FingerprintError::WrongLength)
        }
    }

    /// The fingerprint's bytes as upper-case hexadecimal text.
    pub fn hex(&self) -> (r: String)
        ensures
            r@ == hex_upper(self@),
            r@.len() == 40,
    {
        proof {
            use_type_invariant(self);
        }
        let mut out = String::new();
        let n = self.bytes.len();
        for i in 0..n
            invariant
                n == self.bytes@.len(),
                out@ =~= hex_upper(self.bytes@.take(i as int)),
        {
            let b = self.bytes[i];
            let hi = hex_digit_char(b / 16);
            let lo = hex_digit_char(b % 16);
            push_char(&mut out, hi);
            push_char(&mut out, lo);
            proof {
                let prev = self.bytes@.take(i as int);
                let next = self.bytes@.take(i + 1);
                assert(next[i as int] == b);
                assert(hex_upper(next) =~= hex_upper(prev).push(hi).push(lo));
            }
        }
        proof {
            assert(self.bytes@.take(n as int) =~= self.bytes@);
        }
        out
    }

    /// The fingerprint that an upper-case text spells: its hexadecimal digits are
    /// read two per byte; any other character is skipped.
    pub fn from_digits(text: &str) -> (r: Result<Fingerprint, FingerprintError>)
        ensures
            fingerprint_result_view(r) == fingerprint_from_digits(text@),
    {
        let n = text.unicode_len();
        let mut digits: Vec<char> = Vec::new();
        for i in 0..n
            invariant
                n == text@.len(),
                digits@ == keep_hex_digits(text@.take(i as int)),
        {
            let c = text.get_char(i);
            proof {
                assert(text@.take(i + 1).drop_last() =~= text@.take(i as int));
            }
            if is_hex_digit_char(c) {
                digits.push(c);
            }
        }
        proof {
            assert(text@.take(n as int) =~= text@);
            lemma_kept_digits_are_hex(text@);
        }
        let count = digits.len();
        if count % 2 != 0 {
            return Err(FingerprintError::NotHex);
        }
        let ghost want = hex_decode(digits@).unwrap();
        let mut bytes: Vec<u8> = Vec::new();
        let half = count / 2;
        for j in 0..half
            invariant
                half == count / 2,
                count == digits@.len(),
                count % 2 == 0,
                want == hex_decode(digits@).unwrap(),
                forall|k: int| 0 <= k < digits@.len() ==> is_hex_digit(#[trigger] digits@[k]),
                bytes@ =~= want.take(j as int),
        {
            let hi = digit_value_of(digits[2 * j]);
            let lo = digit_value_of(digits[2 * j + 1]);
            bytes.push(hi * 16 + lo);
        }
        proof {
            assert(want.take(half as int) =~= want);
        }
        Fingerprint::new(bytes)
    }

    /// The fingerprint that a text spells, in any letter case and with any
    /// separators between the digits.
    pub fn parse(text: &str) -> (r: Result<Fingerprint, FingerprintError>)
        ensures
            fingerprint_result_view(r) == parse_fingerprint(text@),
    {
        let upper = uppercase(text);
        Fingerprint::from_digits(upper.as_str())
    }

    /// Whether two fingerprints are the same bytes.
    pub fn same_as(&self, other: &Fingerprint) -> (r: bool)
        ensures
            r == (self@ == other@),
    {
        bytes_equal(&self.bytes, &other.bytes)
    }
}

impl Clone for Fingerprint {
    fn clone(&self) -> (r: Self)
        ensures
            r@ == self@,
    {
        proof {
            use_type_invariant(self);
        }
        let bytes = copy_bytes(&self.bytes);
        Fingerprint { bytes }
    }
}

/// The view of an optional fingerprint.
pub open spec fn opt_fingerprint_view(o: Option<Fingerprint>) -> Option<Seq<u8>> {
    match o {
        Some(fp) => Some(fp@),
        None => None,
    }
}

/// A copy of an optional fingerprint.
pub fn copy_fingerprint_opt(o: &Option<Fingerprint>) -> (r: Option<Fingerprint>)
    ensures
        opt_fingerprint_view(r) == opt_fingerprint_view(*o),
{
    match o {
        Some(fp) => Some(fp.clone()),
        None => None,
    }
}

proof fn lemma_kept_digits_are_hex(s: Seq<char>)
    ensures
        forall|k: int|
            0 <= k < keep_hex_digits(s).len() ==> is_hex_digit(#[trigger] keep_hex_digits(s)[k]),
    decreases s.len(),
{
    if s.len() > 0 {
        let rest = keep_hex_digits(s.drop_last());
        lemma_kept_digits_are_hex(s.drop_last());
        assert forall|k: int|
            0 <= k < keep_hex_digits(s).len() implies is_hex_digit(
            #[trigger] keep_hex_digits(s)[k],
        ) by {
            if k < rest.len() {
                assert(keep_hex_digits(s)[k] == rest[k]);
            }
        }
    }
}

fn hex_digit_char(d: u8) -> (c: char)
    requires
        d < 16,
    ensures
        c == hex_digit(d as int),
        is_hex_digit(c),
{
    if d < 10 {
        (48 + d) as char
    } else {
        (55 + d) as char
    }
}

fn is_hex_digit_char(c: char) -> (r: bool)
    ensures
        r == is_hex_digit(c),
{
    ('0' <= c && c <= '9') || ('A' <= c && c <= 'F')
}

fn digit_value_of(c: char) -> (v: u8)
    requires
        is_hex_digit(c),
    ensures
        v as int == digit_value(c),
        v < 16,
{
    let code = c as u32;
    if code <= 57 {
        (code - 48) as u8
    } else {
        (code - 55) as u8
    }
}

fn bytes_equal(a: &Vec<u8>, b: &Vec<u8>) -> (r: bool)
    ensures
        r == (a@ == b@),
{
    if a.len() != b.len() {
        return false;
    }
    let n = a.len();
    for i in 0..n
        invariant
            n == a@.len(),
            n == b@.len(),
            forall|k: int| 0 <= k < i ==> a@[k] == b@[k],
    {
        if a[i] != b[i] {
            return false;
        }
    }
    proof {
        assert(a@ =~= b@);
    }
    true
}

fn copy_bytes(a: &Vec<u8>) -> (r: Vec<u8>)
    ensures
        r@ == a@,
{
    let mut out: Vec<u8> = Vec::new();
    let n = a.len();
    for i in 0..n
        invariant
            n == a@.len(),
            out@ =~= a@.take(i as int),
    {
        out.push(a[i]);
    }
    proof {
        assert(a@.take(n as int) =~= a@);
    }
    out
}

/// What `base64::encode` returns for a byte string: its standard, padded Base64 text.
pub uninterp spec fn base64_text(bytes: Seq<u8>) -> Seq<char>;

/// The length of the padded Base64 text of `n` bytes.
pub open spec fn base64_len(n: int) -> int {
    (n / 3) * 4 + if n % 3 == 0 {
        0int
    } else {
        4int
    }
}

/// Calls `base64::encode` (standard alphabet, padded). Its result is the name
/// `base64_text` applied to the bytes. The crate panics where the length of the
/// text would overflow `usize`; `requires` leaves those inputs out.
#[verifier::external_body]
fn base64_encode(bytes: &[u8]) -> (r: String)
    requires
        base64_len(bytes@.len() as int) <= usize::MAX,
    ensures
        r@ == base64_text(bytes@),
{
    base64::encode(bytes)
}

/// The view of a key: its serialized bytes and its fingerprint.
pub struct KeyView {
    pub bytes: Seq<u8>,
    pub fingerprint: Seq<u8>,
}

/// An OpenPGP public key: its serialized bytes (the transferable public key as
/// it is written to the database) together with its fingerprint.
#[derive(Debug, PartialEq, Eq, Hash)]
pub struct SignedPublicKey {
    bytes: Vec<u8>,
    fingerprint: Fingerprint,
}

impl View for SignedPublicKey {
    type V = KeyView;

    closed spec fn view(&self) -> KeyView {
        KeyView { bytes: self.bytes@, fingerprint: self.fingerprint@ }
    }
}

/// The view of an optional key.
pub open spec fn opt_key_view(o: Option<SignedPublicKey>) -> Option<KeyView> {
    match o {
        Some(k) => Some(k@),
        None => None,
    }
}

impl SignedPublicKey {
    /// A key is short enough for its Base64 text to be addressable.
    #[verifier::type_invariant]
    closed spec fn encodable(self) -> bool {
        base64_len(self.bytes@.len() as int) <= usize::MAX
    }

    /// The key with the given serialized bytes and fingerprint.
    pub fn new(bytes: Vec<u8>, fingerprint: Fingerprint) -> (k: SignedPublicKey)
        requires
            base64_len(bytes@.len() as int) <= usize::MAX,
        ensures
            k@ == (KeyView { bytes: bytes@, fingerprint: fingerprint@ }),
    {
        SignedPublicKey { bytes, fingerprint }
    }

    /// The key's fingerprint.
    pub fn fingerprint(&self) -> (fp: Fingerprint)
        ensures
            fp@ == self@.fingerprint,
    {
        self.fingerprint.clone()
    }

    /// The key's serialized bytes.
    pub fn to_bytes(&self) -> (b: Vec<u8>)
        ensures
            b@ == self@.bytes,
    {
        copy_bytes(&self.bytes)
    }

    /// The key's serialized bytes as Base64 text.
    pub fn to_base64(&self) -> (s: String)
        ensures
            s@ == base64_text(self@.bytes),
    {
        proof {
            use_type_invariant(self);
        }
        base64_encode(self.bytes.as_slice())
    }

    /// Whether two keys are the same key.
    pub fn same_as(&self, other: &SignedPublicKey) -> (r: bool)
        ensures
            r == (self@ == other@),
    {
        bytes_equal(&self.bytes, &other.bytes) && self.fingerprint.same_as(&other.fingerprint)
    }
}

impl Clone for SignedPublicKey {
    fn clone(&self) -> (r: Self)
        ensures
            r@ == self@,
    {
        proof {
            use_type_invariant(self);
        }
        SignedPublicKey { bytes: copy_bytes(&self.bytes), fingerprint: self.fingerprint.clone() }
    }
}

/// A copy of an optional key.
pub fn copy_key_opt(o: &Option<SignedPublicKey>) -> (r: Option<SignedPublicKey>)
    ensures
        opt_key_view(r) == opt_key_view(*o),
{
    match o {
        Some(k) => Some(k.clone()),
        None => None,
    }
}

} // verus!
