use vstd::prelude::*;

use rand::Rng;

verus! {

/// Length of every CSRF token the site issues.
pub const CSRF_TOKEN_LEN: usize = 32;

/// A session read that failed (store unreachable or value unreadable).
#[derive(Debug)]
pub struct SessionError;

/// An ASCII letter or digit.
pub open spec fn is_alphanumeric(c: char) -> bool {
    ('A' <= c && c <= 'Z') || ('a' <= c && c <= 'z') || ('0' <= c && c <= '9')
}

/// `len` ASCII letters and digits.
pub open spec fn alphanumeric_of_len(s: Seq<char>, len: nat) -> bool {
    &&& s.len() == len
    &&& forall|i: int| 0 <= i < s.len() ==> is_alphanumeric(#[trigger] s[i])
}

/// Calls `rand::thread_rng().sample_iter(&Alphanumeric)` for `len` samples
/// and collects them as characters. Claimed, as the crate's source shows
/// (the sampler picks from `A-Z`, `a-z`, `0-9`): the text has `len`
/// characters and each is an ASCII letter or digit. Which ones is chance.
#[verifier::external_body]
fn random_alphanumeric(len: usize) -> (s: String)
    ensures
        alphanumeric_of_len(s@, len as nat),
{
    rand::thread_rng().sample_iter(&rand::distributions::Alphanumeric).take(len).map(char::from).collect()
}

/// A fresh random CSRF token.
pub fn generate_csrf_token() -> (token: String)
    ensures
        alphanumeric_of_len(token@, CSRF_TOKEN_LEN as nat),
        token@.len() == 32,
{
    random_alphanumeric(CSRF_TOKEN_LEN)
}

/// The token a page embeds, and whether it must be written to the session.
#[derive(Debug)]
pub struct EnsuredToken {
    pub token: String,
    pub store: bool,
}

/// Keeps the session's token when one could be read; otherwise issues a
/// fresh token that the caller must store in the session.
pub fn ensure_csrf_token(stored: Result<Option<String>, SessionError>) -> (r: EnsuredToken)
    ensures
        match stored {
            Ok(Some(t)) => r.token@ == t@ && !r.store,
            _ => r.store && alphanumeric_of_len(r.token@, CSRF_TOKEN_LEN as nat),
        },
{
    match stored {
        Ok(Some(t)) => EnsuredToken { token: t, store: false },
        _ => EnsuredToken { token: generate_csrf_token(), store: true },
    }
}

/// A submitted token is accepted exactly when the session holds a token
/// equal to it.
pub open spec fn csrf_accepts(stored: Result<Option<String>, SessionError>, token: Seq<char>) -> bool {
    match stored {
        Ok(Some(s)) => s@ == token,
        _ => false,
    }
}

/// Checks a submitted token against the session's token.
pub fn validate_csrf(stored: &Result<Option<String>, SessionError>, token: &String) -> (ok: bool)
    ensures
        ok == csrf_accepts(*stored, token@),
        match *stored {
            Ok(Some(s)) => ok == (s@ == token@),
            _ => !ok,
        },
{
    match stored {
        Ok(Some(s)) => *s == *token,
        _ => false,
    }
}

/// Whatever token a page was given, submitting it back against the session
/// that now holds it is accepted; and with no token stored (or an unreadable
/// session) nothing is accepted.
pub proof fn lemma_issued_token_is_accepted(stored: Result<Option<String>, SessionError>, issued: EnsuredToken, submitted: Seq<char>)
    requires
        match stored {
            Ok(Some(t)) => issued.token@ == t@ && !issued.store,
            _ => issued.store && alphanumeric_of_len(issued.token@, CSRF_TOKEN_LEN as nat),
        },
    ensures
        csrf_accepts(Ok(Some(issued.token)), issued.token@),
        !(stored matches Ok(Some(_))) ==> !csrf_accepts(stored, submitted),
        stored matches Ok(Some(t)) ==> (csrf_accepts(stored, submitted) <==> submitted == issued.token@),
{
}

} // verus!
