//! The session negotiator: a pairing token in, a session identifier out.
//!
//! Every token is accepted. Nothing is recorded: a session is its
//! identifier and no more.

use vstd::prelude::*;
use crate::ident::{
    is_nonce, lemma_identifiers_follow_nonces, random_uuid_text, session_id, session_prefix,
};

verus! {

/// A session issued to a paired client.
#[derive(Debug, Clone)]
pub struct Session {
    pub session_id: String,
}

/// The session whose identifier is made from `nonce`.
pub fn open_session(nonce: &str) -> (s: Session)
    ensures
        s.session_id@ == session_prefix() + nonce@,
{
    Session { session_id: session_id(nonce) }
}

/// Issues a session for a pairing token.
///
/// Succeeds for every token, the empty one included, and the token has no
/// part in the result: the identifier is the session prefix followed by a
/// fresh nonce, so it is never empty.
pub fn pair(pair_token: &str) -> (s: Session)
    ensures
        exists|n: Seq<char>| is_nonce(n) && s.session_id@ == session_prefix() + n,
        s.session_id@.len() == 38,
{
    let nonce = random_uuid_text();
    proof {
        lemma_identifiers_follow_nonces(nonce@, nonce@);
    }
    open_session(nonce.as_str())
}

} // verus!
