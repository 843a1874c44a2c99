//! Content signatures: a deterministic fingerprint hash of canonical fields.
use vstd::prelude::*;

use crate::text::{lower_of, lowercase, trimmed};

verus! {

/// The lower-case hexadecimal MD5 digest of the UTF-8 encoding of a text.
pub uninterp spec fn md5_hex_of(s: Seq<char>) -> Seq<char>;

/// Relies on `md5::compute` and the `LowerHex` format of its digest: the MD5
/// digest of the text's bytes, as two lower-case hex digits per byte.
#[verifier::external_body]
fn md5_hex(fingerprint: &str) -> (r: String)
    ensures
        r@ == md5_hex_of(fingerprint@),
{
    format!("{:x}", md5::compute(fingerprint.as_bytes()))
}

/// The character of a decimal digit.
pub open spec fn digit_char(d: nat) -> char {
    ((48 + d) as u32) as char
}

/// Decimal digits of a natural number, most significant first.
pub open spec fn digits_of(n: nat) -> Seq<char>
    decreases n,
{
    if n < 10 {
        seq![digit_char(n)]
    } else {
        digits_of(n / 10).push(digit_char(n % 10))
    }
}

/// Decimal rendering of an integer, with a leading `-` when negative.
pub open spec fn decimal(n: int) -> Seq<char> {
    if n < 0 {
        seq!['-'] + digits_of((-n) as nat)
    } else {
        digits_of(n as nat)
    }
}

/// Relies on `i32`'s `Display`, through `ToString`: its decimal rendering.
#[verifier::external_body]
pub(crate) fn decimal_string(n: i32) -> (r: String)
    ensures
        r@ == decimal(n as int),
{
    n.to_string()
}

/// Joins the fingerprint parts with `.`.
pub open spec fn joined(parts: Seq<Seq<char>>) -> Seq<char>
    decreases parts.len(),
{
    if parts.len() == 0 {
        Seq::empty()
    } else if parts.len() == 1 {
        parts[0]
    } else {
        joined(parts.drop_last()) + seq!['.'] + parts.last()
    }
}

/// The fingerprint of some fields: the texts joined with `.`, in lower case.
pub open spec fn fingerprint(parts: Seq<Seq<char>>) -> Seq<char> {
    lower_of(joined(parts))
}

/// The signature of a fingerprint.
pub open spec fn signature_of(fingerprint: Seq<char>) -> Seq<char> {
    md5_hex_of(fingerprint)
}

/// Signs a fingerprint: its lower-case MD5 hex digest.
pub fn sign(fingerprint: &str) -> (r: String)
    ensures
        r@ == signature_of(fingerprint@),
{
    md5_hex(fingerprint)
}

/// The signature of a single-text entity (a gender, a product): the digest of
/// its trimmed, lower-case name.
pub open spec fn name_signature(name: Seq<char>) -> Seq<char> {
    signature_of(fingerprint(seq![trimmed(name)]))
}

/// Signs a single name.
pub fn sign_name(name: &str) -> (r: String)
    ensures
        r@ == name_signature(name@),
{
    let t = crate::text::trim(name);
    let fp = lowercase(t.as_str());
    assert(joined(seq![trimmed(name@)]) == trimmed(name@));
    sign(fp.as_str())
}

/// A name's signature depends only on its trimmed, lower-case form:
/// `" female "` and `"FEMALE"` are signed alike.
pub proof fn lemma_name_signature_deterministic(a: Seq<char>, b: Seq<char>)
    requires
        lower_of(trimmed(a)) == lower_of(trimmed(b)),
    ensures
        name_signature(a) == name_signature(b),
{
    assert(joined(seq![trimmed(a)]) == trimmed(a));
    assert(joined(seq![trimmed(b)]) == trimmed(b));
}

} // verus!
