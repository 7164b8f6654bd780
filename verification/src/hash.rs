//! One-way password hashing with bcrypt, through the `bcrypt` crate.

use vstd::prelude::*;
use crate::app_error::{internal, AppError};
use crate::path_variables::{digit, digit_text};
use crate::text::{occurs_at, starts_with};

verus! {

/// The bcrypt cost every stored password is hashed with.
pub const HASH_COST: u32 = 14;

/// What `bcrypt::verify` answers for a password and a stored hash: whether the
/// password fits the hash, or `None` where it reports an error (a hash it
/// cannot parse).
pub uninterp spec fn bcrypt_verdict(password: Seq<char>, hash: Seq<char>) -> Option<bool>;

/// Whether `password` is the one that `hash` was made from, as bcrypt judges.
pub open spec fn password_matches(password: Seq<char>, hash: Seq<char>) -> bool {
    bcrypt_verdict(password, hash) == Some(true)
}

/// Calls `bcrypt::hash`, which draws a random salt. Trusted: it succeeds only
/// for a cost from 4 to 31, and `bcrypt::verify` accepts the password against
/// the hash it returns, because it hashes the password again with the salt and
/// cost it reads back from that hash. Nothing is claimed of the hash itself.
#[verifier::external_body]
fn bcrypt_hash(password: &str, cost: u32) -> (hash: Option<String>)
    ensures
        hash matches Some(h) ==> 4 <= cost <= 31 && bcrypt_verdict(password@, h@) == Some(true),
{
    bcrypt::hash(password, cost).ok()
}

/// Calls `bcrypt::verify`. Trusted: the answer is the function
/// [`bcrypt_verdict`] of the two texts.
#[verifier::external_body]
fn bcrypt_verify(password: &str, hash: &str) -> (verdict: Option<bool>)
    ensures
        verdict == bcrypt_verdict(password@, hash@),
{
    bcrypt::verify(password, hash).ok()
}

/// How a bcrypt hash made at `cost` begins: the version `2b`, then the cost in
/// two digits, each between dollar signs.
pub open spec fn cost_tag(cost: u32) -> Seq<char> {
    "$2b$"@ + seq![digit((cost / 10) as nat), digit((cost % 10) as nat)] + "$"@
}

fn cost_tag_text(cost: u32) -> (tag: String)
    requires
        cost < 100,
    ensures
        tag@ == cost_tag(cost),
{
    let mut tag = "$2b$".to_owned();
    tag.append(digit_text((cost / 10) as u64));
    tag.append(digit_text((cost % 10) as u64));
    tag.append("$");
    assert(tag@ =~= cost_tag(cost));
    tag
}

/// What becomes of bcrypt's answer to a request for a hash at `cost`: the
/// hash is handed out exactly when there is one, the cost lies from 4 to 31
/// and the hash begins with the tag of that cost; everything else is the
/// generic internal error.
pub fn checked_hash(hash: Option<String>, cost: u32) -> (r: Result<String, AppError>)
    ensures
        match r {
            Ok(out) => hash == Some(out) && 4 <= cost <= 31 && occurs_at(cost_tag(cost), out@, 0),
            Err(e) => e@ == internal() && !(hash matches Some(h) && 4 <= cost <= 31 && occurs_at(
                cost_tag(cost),
                h@,
                0,
            )),
        },
{
    match hash {
        Some(h) => {
            if cost < 4 || cost > 31 {
                return Err(AppError::internal());
            }
            let tag = cost_tag_text(cost);
            if starts_with(h.as_str(), tag.as_str()) {
                Ok(h)
            } else {
                Err(AppError::internal())
            }
        },
        None => Err(AppError::internal()),
    }
}

/// Hashes `password` with a fresh salt at the given cost.
///
/// bcrypt's answer goes through [`checked_hash`], so a hash is handed out only
/// if it carries that cost; it is then one the password verifies against. A
/// cost outside 4 to 31 is refused; every failure is the generic internal
/// error.
pub fn hash_password_with_cost(password: &str, cost: u32) -> (r: Result<String, AppError>)
    ensures
        match r {
            Ok(h) => 4 <= cost <= 31 && password_matches(password@, h@) && occurs_at(
                cost_tag(cost),
                h@,
                0,
            ),
            Err(e) => e@ == internal(),
        },
        !(4 <= cost <= 31) ==> r is Err,
{
    checked_hash(bcrypt_hash(password, cost), cost)
}

/// Hashes `password` with a fresh salt at [`HASH_COST`]: every hash that is
/// returned begins with `$2b$14$`.
pub fn hash_password(password: &str) -> (r: Result<String, AppError>)
    ensures
        match r {
            Ok(h) => password_matches(password@, h@) && occurs_at("$2b$14$"@, h@, 0),
            Err(e) => e@ == internal(),
        },
{
    proof {
        reveal_strlit("$2b$");
        reveal_strlit("$");
        reveal_strlit("$2b$14$");
        assert(cost_tag(HASH_COST) =~= "$2b$14$"@);
    }
    hash_password_with_cost(password, HASH_COST)
}

/// What the caller of a verification is told, given bcrypt's answer: the
/// boolean, or the generic internal error where bcrypt could not read the hash.
pub fn password_verdict(verdict: Option<bool>) -> (r: Result<bool, AppError>)
    ensures
        match r {
            Ok(fits) => verdict == Some(fits),
            Err(e) => verdict is None && e@ == internal(),
        },
{
    match verdict {
        Some(fits) => Ok(fits),
        None => Err(AppError::internal()),
    }
}

/// Checks `password` against a stored hash.
///
/// `Ok(true)` exactly when the password fits, `Ok(false)` exactly when it does
/// not, and the generic internal error exactly when the hash cannot be read.
pub fn verify_password(password: &str, hash: &str) -> (r: Result<bool, AppError>)
    ensures
        match r {
            Ok(fits) => bcrypt_verdict(password@, hash@) == Some(fits),
            Err(e) => bcrypt_verdict(password@, hash@) is None && e@ == internal(),
        },
        r == Ok::<bool, AppError>(true) <==> password_matches(password@, hash@),
{
    password_verdict(bcrypt_verify(password, hash))
}

} // verus!
