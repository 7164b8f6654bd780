//! The checks that request bodies are held to: what an email address is comes
//! from the `validator` crate, and lengths are counted in characters.

use vstd::prelude::*;

verus! {

/// Whether `validator::validate_email` accepts `text` as an email address.
pub uninterp spec fn is_email(text: Seq<char>) -> bool;

/// Whether a length lies within optional bounds, both inclusive.
pub open spec fn within(length: nat, min: Option<u64>, max: Option<u64>) -> bool {
    &&& min matches Some(least) ==> least <= length
    &&& max matches Some(most) ==> length <= most
}

/// Calls `validator::validate_email`. Trusted: the answer is the function
/// [`is_email`] of the text.
#[verifier::external_body]
pub(crate) fn email_is_valid(text: &str) -> (valid: bool)
    ensures
        valid == is_email(text@),
{
    validator::validate_email(text)
}

/// Whether the number of characters of `text` lies within the bounds that are
/// given, both inclusive.
pub fn length_is_within(text: &str, min: Option<u64>, max: Option<u64>) -> (valid: bool)
    ensures
        valid == within(text@.len(), min, max),
{
    let length: usize = text.unicode_len();
    let long_enough = match min {
        Some(least) => least <= length as u64,
        None => true,
    };
    let short_enough = match max {
        Some(most) => length as u64 <= most,
        None => true,
    };
    long_enough && short_enough
}

} // verus!
