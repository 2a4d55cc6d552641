//! Request authentication: a presented token is held against the stored
//! credential hash.

use vstd::prelude::*;

verus! {

#[verifier::external_type_specification]
#[verifier::external_body]
pub struct ExBcryptError(bcrypt::BcryptError);

/// What `bcrypt` finds when it holds a token against a hash: whether they
/// match; `None` where it reports an error.
pub uninterp spec fn bcrypt_verdict(token: Seq<char>, key_hash: Seq<char>) -> Option<bool>;

/// Holds `token` against `key_hash` with `bcrypt::verify`. The outcome is the
/// one named by `bcrypt_verdict`; a hash that is not sixty characters long
/// is reported as an error.
#[verifier::external_body]
fn verify_token(token: &str, key_hash: &str) -> (r: Result<bool, bcrypt::BcryptError>)
    ensures
        match r {
            Ok(matched) => bcrypt_verdict(token@, key_hash@) == Some(matched),
            Err(_) => bcrypt_verdict(token@, key_hash@) is None,
        },
        key_hash@.len() != 60 ==> r is Err,
{
    bcrypt::verify(token, key_hash)
}

/// Whether a request is let through: it presents a token, and the token
/// matches the hash. A missing token, a mismatch and an error all fail.
pub open spec fn accepts(token: Option<Seq<char>>, key_hash: Seq<char>) -> bool {
    token is Some && bcrypt_verdict(token->0, key_hash) == Some(true)
}

/// Whether the outcome of a verification lets the request through: only a
/// match does.
pub fn granted(verdict: Option<bool>) -> (r: bool)
    ensures
        r == (verdict == Some(true)),
{
    match verdict {
        Some(matched) => matched,
        None => false,
    }
}

/// Whether a request with this token is let through. `token` is the value of
/// the request's key header, `None` where the header is missing or is not
/// text.
pub fn authorize(token: Option<&str>, key_hash: &str) -> (r: bool)
    ensures
        r == accepts(
            match token {
                Some(t) => Some(t@),
                None => None,
            },
            key_hash@,
        ),
        key_hash@.len() != 60 ==> !r,
{
    match token {
        None => false,
        Some(t) => match verify_token(t, key_hash) {
            Ok(matched) => granted(Some(matched)),
            Err(_) => granted(None),
        },
    }
}

} // verus!
