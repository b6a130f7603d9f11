use vstd::prelude::*;

use crate::text::digit_char;

verus! {

/// `bcrypt`'s error type, carried opaquely.
#[verifier::external_type_specification]
#[verifier::external_body]
pub struct ExBcryptError(bcrypt::BcryptError);

/// Work factor of stored password hashes (the `bcrypt` crate's default).
pub const PASSWORD_HASH_COST: u32 = 12;

/// What `bcrypt::verify` answers for a password and a stored hash:
/// `Some(matches)` when the hash could be read, `None` when it is malformed.
pub uninterp spec fn bcrypt_verify_outcome(password: Seq<char>, hash: Seq<char>) -> Option<bool>;

/// Number of non-empty pieces of a text between `$` signs.
pub open spec fn dollar_segments(s: Seq<char>) -> nat
    decreases s.len(),
{
    if s.len() == 0 {
        0
    } else {
        dollar_segments(s.drop_last()) + if s.last() != '$' && (s.len() == 1 || s[s.len() - 2] == '$') {
            1nat
        } else {
            0nat
        }
    }
}

/// Calls `bcrypt::verify(password, hash)`. Claimed: the outcome is a
/// function of the two texts alone (named `bcrypt_verify_outcome`), `Ok(b)`
/// standing for `Some(b)` and an error for `None`; and, as the crate's
/// `split_hash` shows, a hash that is not three non-empty `$`-separated
/// pieces (version, cost, salt and hash) is an error.
#[verifier::external_body]
fn bcrypt_verify(password: &str, hash: &str) -> (r: Result<bool, bcrypt::BcryptError>)
    ensures
        match r {
            Ok(b) => bcrypt_verify_outcome(password@, hash@) == Some(b) && dollar_segments(hash@) == 3,
            Err(_) => bcrypt_verify_outcome(password@, hash@) is None,
        },
{
    bcrypt::verify(password, hash)
}

/// The start of a stored bcrypt hash: version `2b` and the two-digit cost,
/// each behind a `$`.
pub open spec fn bcrypt_hash_prefix(cost: nat) -> Seq<char> {
    "$2b$"@ + seq![digit_char((cost / 10) as int), digit_char((cost % 10) as int)] + "$"@
}

/// Calls `bcrypt::hash(password, cost)`. Claimed, as the crate's source
/// shows: a cost outside 4..=31 is refused; a hash it returns is `$2b$`,
/// the cost in two digits, `$`, then 22 characters of salt and 31 of hash
/// (60 in all), and verifies against the same password (same salt and cost
/// are read back from it). With an allowed cost the only failure is the
/// system's random source; the salt is random, so the rest of the text is
/// not stated.
#[verifier::external_body]
fn bcrypt_hash(password: &str, cost: u32) -> (r: Result<String, bcrypt::BcryptError>)
    ensures
        !(4 <= cost <= 31) ==> r is Err,
        r matches Ok(h) ==> h@.len() == 60 && h@.subrange(0, 7) == bcrypt_hash_prefix(cost as nat),
        r matches Ok(h) ==> bcrypt_verify_outcome(password@, h@) == Some(true),
{
    bcrypt::hash(password, cost)
}

/// A password matches a stored hash; a malformed hash matches nothing.
pub open spec fn password_matches(password_hash: Seq<char>, password: Seq<char>) -> bool {
    bcrypt_verify_outcome(password, password_hash) == Some(true)
}

/// Checks a password against a stored hash.
pub fn verify_password_hash(password_hash: &String, password: &String) -> (ok: bool)
    ensures
        ok == password_matches(password_hash@, password@),
        ok <==> bcrypt_verify_outcome(password@, password_hash@) == Some(true),
        dollar_segments(password_hash@) != 3 ==> !ok,
{
    match bcrypt_verify(password.as_str(), password_hash.as_str()) {
        Ok(b) => b,
        Err(_) => false,
    }
}

/// Hashing a password failed (the system's random source was unavailable).
#[derive(Debug)]
pub struct PasswordHashError;

/// Hashes a password for storage, at cost `PASSWORD_HASH_COST`. Whether it
/// succeeds rests on the system's random source alone; a hash it gives is a
/// 60-character `$2b$12$` hash that the same password verifies against.
pub fn hash_password(password: &String) -> (r: Result<String, PasswordHashError>)
    ensures
        r matches Ok(h) ==> h@.len() == 60 && h@.subrange(0, 7) == "$2b$12$"@,
        r matches Ok(h) ==> password_matches(h@, password@),
{
    match bcrypt_hash(password.as_str(), PASSWORD_HASH_COST) {
        Ok(h) => {
            proof {
                reveal_strlit("$2b$");
                reveal_strlit("$");
                reveal_strlit("$2b$12$");
                assert(bcrypt_hash_prefix(PASSWORD_HASH_COST as nat) =~= "$2b$12$"@);
            }
            Ok(h)
        },
        Err(_) => Err(PasswordHashError),
    }
}

} // verus!
