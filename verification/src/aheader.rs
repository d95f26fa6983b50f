//! Autocrypt headers: the encryption preference and the header a peer sends.
use vstd::prelude::*;
use crate::key::{base64_text, KeyView, SignedPublicKey};
use crate::text::push_char;

verus! {

/// A peer's encryption preference, as an Autocrypt header states it.
#[derive(Debug, Clone, Copy, PartialEq, Eq, Structural)]
pub enum EncryptPreference {
    NoPreference,
    Mutual,
    Reset,
}

impl Default for EncryptPreference {
    fn default() -> (r: Self)
        ensures
            r == EncryptPreference::NoPreference,
    {
        EncryptPreference::NoPreference
    }
}

/// The number under which a preference is stored: 0, 1 or 20.
pub open spec fn preference_code(p: EncryptPreference) -> int {
    match p {
        EncryptPreference::NoPreference => 0,
        EncryptPreference::Mutual => 1,
        EncryptPreference::Reset => 20,
    }
}

/// The preference stored under a number, if any.
pub open spec fn preference_of_code(code: int) -> Option<EncryptPreference> {
    if code == 0 {
        Some(EncryptPreference::NoPreference)
    } else if code == 1 {
        Some(EncryptPreference::Mutual)
    } else if code == 20 {
        Some(EncryptPreference::Reset)
    } else {
        None
    }
}

impl EncryptPreference {
    /// The preference stored under `code`; `None` for any other number.
    pub fn from_i32(code: i32) -> (r: Option<EncryptPreference>)
        ensures
            r == preference_of_code(code as int),
    {
        if code == 0 {
            Some(EncryptPreference::NoPreference)
        } else if code == 1 {
            Some(EncryptPreference::Mutual)
        } else if code == 20 {
            Some(EncryptPreference::Reset)
        } else {
            None
        }
    }

    /// The number under which the preference is stored.
    pub fn to_i32(&self) -> (code: i32)
        ensures
            code as int == preference_code(*self),
    {
        match self {
            EncryptPreference::NoPreference => 0,
            EncryptPreference::Mutual => 1,
            EncryptPreference::Reset => 20,
        }
    }
}

/// The view of an Autocrypt header.
pub struct AheaderView {
    pub addr: Seq<char>,
    pub public_key: KeyView,
    pub prefer_encrypt: EncryptPreference,
}

/// An Autocrypt header: the sender's address, its key and its encryption preference.
#[derive(Debug, PartialEq, Eq)]
pub struct Aheader {
    pub addr: String,
    pub public_key: SignedPublicKey,
    pub prefer_encrypt: EncryptPreference,
}

impl View for Aheader {
    type V = AheaderView;

    open spec fn view(&self) -> AheaderView {
        AheaderView {
            addr: self.addr@,
            public_key: self.public_key@,
            prefer_encrypt: self.prefer_encrypt,
        }
    }
}

/// The Base64 key data of a header with a space put before every character whose
/// position is 70 more than a multiple of 78, so that the header line can be
/// folded there.
pub open spec fn wrap_keydata(keydata: Seq<char>) -> Seq<char>
    decreases keydata.len(),
{
    if keydata.len() == 0 {
        Seq::empty()
    } else {
        let i = keydata.len() - 1;
        let before = wrap_keydata(keydata.drop_last());
        let spaced = if i % 78 == 70 {
            before.push(' ')
        } else {
            before
        };
        spaced.push(keydata.last())
    }
}

/// The text of a header with the given address, preference and Base64 key data:
/// `addr=ADDR;`, then ` prefer-encrypt=mutual;` where the preference is mutual,
/// then ` keydata=` and the wrapped key data.
pub open spec fn header_text(
    addr: Seq<char>,
    prefer: EncryptPreference,
    keydata: Seq<char>,
) -> Seq<char> {
    "addr="@ + addr + ";"@ + (if prefer == EncryptPreference::Mutual {
        " prefer-encrypt=mutual;"@
    } else {
        Seq::empty()
    }) + " keydata="@ + wrap_keydata(keydata)
}

/// The text of a header.
pub open spec fn aheader_text(h: AheaderView) -> Seq<char> {
    header_text(h.addr, h.prefer_encrypt, base64_text(h.public_key.bytes))
}

/// The text of a header with the given address, preference and Base64 key data.
pub fn format_header(addr: &str, prefer: EncryptPreference, keydata: &str) -> (r: String)
    ensures
        r@ == header_text(addr@, prefer, keydata@),
{
    let mut out = String::new();
    out.append("addr=");
    out.append(addr);
    out.append(";");
    if prefer == EncryptPreference::Mutual {
        out.append(" prefer-encrypt=mutual;");
    }
    out.append(" keydata=");
    let ghost head = out@;
    proof {
        assert(head =~= "addr="@ + addr@ + ";"@ + (if prefer == EncryptPreference::Mutual {
            " prefer-encrypt=mutual;"@
        } else {
            Seq::empty()
        }) + " keydata="@);
    }
    let n = keydata.unicode_len();
    for i in 0..n
        invariant
            n == keydata@.len(),
            out@ =~= head + wrap_keydata(keydata@.take(i as int)),
    {
        let c = keydata.get_char(i);
        if i % 78 == 70 {
            push_char(&mut out, ' ');
        }
        push_char(&mut out, c);
        proof {
            assert(keydata@.take(i + 1).drop_last() =~= keydata@.take(i as int));
        }
    }
    proof {
        assert(keydata@.take(n as int) =~= keydata@);
    }
    out
}

impl Aheader {
    /// The header with the given address, key and preference.
    pub fn new(addr: String, public_key: SignedPublicKey, prefer_encrypt: EncryptPreference) -> (h:
        Aheader)
        ensures
            h.addr == addr,
            h.public_key == public_key,
            h.prefer_encrypt == prefer_encrypt,
    {
        Aheader { addr, public_key, prefer_encrypt }
    }

    /// The header as it is written into a message.
    pub fn to_string(&self) -> (r: String)
        ensures
            r@ == aheader_text(self@),
    {
        let keydata = self.public_key.to_base64();
        format_header(self.addr.as_str(), self.prefer_encrypt, keydata.as_str())
    }
}

} // verus!
