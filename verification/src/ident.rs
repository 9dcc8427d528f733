//! Opaque identifiers: random 128-bit nonces in their textual form, and the
//! prefixed identifiers made from them.

use vstd::prelude::*;
use vstd::string::StringExecFns;

verus! {

/// Lower-case hexadecimal digit.
pub open spec fn is_hex_lower(c: char) -> bool {
    ('0' <= c && c <= '9') || ('a' <= c && c <= 'f')
}

/// The shape of a nonce: a random (version 4) UUID in hyphenated lower-case
/// form. That is 36 characters, hyphens after the 8th, 12th, 16th and 20th
/// digit, the version digit `4` and a variant digit of `8`, `9`, `a` or `b`.
pub open spec fn is_nonce(s: Seq<char>) -> bool {
    &&& s.len() == 36
    &&& forall|i: int|
        0 <= i < 36 ==> if i == 8 || i == 13 || i == 18 || i == 23 {
            #[trigger] s[i] == '-'
        } else {
            is_hex_lower(s[i])
        }
    &&& s[14] == '4'
    &&& (s[19] == '8' || s[19] == '9' || s[19] == 'a' || s[19] == 'b')
}

/// Prefix of artifact identifiers.
pub open spec fn image_prefix() -> Seq<char> {
    "img-"@
}

/// Prefix of session identifiers.
pub open spec fn session_prefix() -> Seq<char> {
    "s-"@
}

/// Calls `uuid::Uuid::new_v4` and formats the result with its `Display`
/// impl. Trusted: whatever the random bits are, the text is the hyphenated
/// lower-case form of a version 4 UUID. Nothing is claimed about which one;
/// two calls may return any two such texts. The outside function does not
/// return when the operating system's random source fails.
#[verifier::external_body]
pub(crate) fn random_uuid_text() -> (s: String)
    ensures
        is_nonce(s@),
{
    uuid::Uuid::new_v4().to_string()
}

/// The artifact identifier made from `nonce`.
pub fn image_id(nonce: &str) -> (id: String)
    ensures
        id@ == image_prefix() + nonce@,
{
    String::from_str("img-").concat(nonce)
}

/// The session identifier made from `nonce`.
pub fn session_id(nonce: &str) -> (id: String)
    ensures
        id@ == session_prefix() + nonce@,
{
    String::from_str("s-").concat(nonce)
}

/// Identifiers of one kind made from different nonces differ, and no
/// identifier is empty.
pub proof fn lemma_identifiers_follow_nonces(a: Seq<char>, b: Seq<char>)
    ensures
        image_prefix() + a == image_prefix() + b ==> a == b,
        session_prefix() + a == session_prefix() + b ==> a == b,
        (image_prefix() + a).len() == 4 + a.len(),
        (session_prefix() + a).len() == 2 + a.len(),
{
    reveal_strlit("img-");
    reveal_strlit("s-");
    if image_prefix() + a == image_prefix() + b {
        assert(a =~= (image_prefix() + a).skip(4));
        assert(b =~= (image_prefix() + b).skip(4));
    }
    if session_prefix() + a == session_prefix() + b {
        assert(a =~= (session_prefix() + a).skip(2));
        assert(b =~= (session_prefix() + b).skip(2));
    }
}

} // verus!
