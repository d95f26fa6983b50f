//! Text helpers: letter case and character-by-character string building.
use vstd::prelude::*;
use vstd::utf8::is_ascii_chars;

verus! {

/// What `str::to_lowercase` returns for a text: the Unicode lowercase mapping of
/// every character, concatenated.
pub uninterp spec fn unicode_lowercase(s: Seq<char>) -> Seq<char>;

/// What `str::to_uppercase` returns for a text: the Unicode uppercase mapping of
/// every character, concatenated.
pub uninterp spec fn unicode_uppercase(s: Seq<char>) -> Seq<char>;

/// ASCII lowercasing of one character: `A`..`Z` become `a`..`z`, all else stays.
pub open spec fn ascii_lower_char(c: char) -> char {
    if 'A' <= c && c <= 'Z' {
        ((c as int) + 32) as char
    } else {
        c
    }
}

/// ASCII uppercasing of one character: `a`..`z` become `A`..`Z`, all else stays.
pub open spec fn ascii_upper_char(c: char) -> char {
    if 'a' <= c && c <= 'z' {
        ((c as int) - 32) as char
    } else {
        c
    }
}

/// The lowercase form of a text: on ASCII text the ASCII mapping, elsewhere the
/// Unicode mapping.
pub open spec fn text_lowercase(s: Seq<char>) -> Seq<char> {
    if is_ascii_chars(s) {
        s.map_values(|c: char| ascii_lower_char(c))
    } else {
        unicode_lowercase(s)
    }
}

/// The uppercase form of a text: on ASCII text the ASCII mapping, elsewhere the
/// Unicode mapping.
pub open spec fn text_uppercase(s: Seq<char>) -> Seq<char> {
    if is_ascii_chars(s) {
        s.map_values(|c: char| ascii_upper_char(c))
    } else {
        unicode_uppercase(s)
    }
}

/// Calls `str::to_lowercase`. Its result is the name `unicode_lowercase` applied to
/// the text; on ASCII text, whose characters have no other lowercase mapping in
/// Unicode than the ASCII one, it is the ASCII lowercasing.
#[verifier::external_body]
fn std_to_lowercase(s: &str) -> (r: String)
    ensures
        r@ == unicode_lowercase(s@),
        is_ascii_chars(s@) ==> r@ == s@.map_values(|c: char| ascii_lower_char(c)),
{
    s.to_lowercase()
}

/// Calls `str::to_uppercase`. Its result is the name `unicode_uppercase` applied to
/// the text; on ASCII text, whose characters have no other uppercase mapping in
/// Unicode than the ASCII one, it is the ASCII uppercasing.
#[verifier::external_body]
fn std_to_uppercase(s: &str) -> (r: String)
    ensures
        r@ == unicode_uppercase(s@),
        is_ascii_chars(s@) ==> r@ == s@.map_values(|c: char| ascii_upper_char(c)),
{
    s.to_uppercase()
}

/// Calls `String::push`, which appends one character.
#[verifier::external_body]
pub(crate) fn push_char(s: &mut String, c: char)
    ensures
        final(s)@ == old(s)@.push(c),
{
    s.push(c)
}

/// The lowercase form of `s`.
pub fn lowercase(s: &str) -> (r: String)
    ensures
        r@ == text_lowercase(s@),
{
    std_to_lowercase(s)
}

/// The uppercase form of `s`.
pub fn uppercase(s: &str) -> (r: String)
    ensures
        r@ == text_uppercase(s@),
{
    std_to_uppercase(s)
}

/// Whether two texts are equal once both are lowercased.
pub fn same_ignoring_case(a: &str, b: &str) -> (r: bool)
    ensures
        r == (text_lowercase(a@) == text_lowercase(b@)),
{
    let la = lowercase(a);
    let lb = lowercase(b);
    la == lb
}

} // verus!
