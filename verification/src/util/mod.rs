//! Randomness shared by the connection code.

use rand::distributions::{Alphanumeric, DistString};
use rand::rngs::ThreadRng;
use vstd::prelude::*;

pub mod hasher;

verus! {

#[verifier::external_type_specification]
#[verifier::external_body]
pub struct ExThreadRng(ThreadRng);

/// An ASCII letter or digit, as a byte: `0`-`9`, `A`-`Z` or `a`-`z`.
pub open spec fn is_alphanumeric_byte(b: u8) -> bool {
    (48 <= b <= 57) || (65 <= b <= 90) || (97 <= b <= 122)
}

/// An ASCII letter or digit: `0`-`9`, `A`-`Z` or `a`-`z`.
pub open spec fn is_alphanumeric_char(c: char) -> bool {
    (48 <= c as u32 <= 57) || (65 <= c as u32 <= 90) || (97 <= c as u32 <= 122)
}

/// Calls `rand::thread_rng`. Nothing is claimed of the generator it hands back.
#[verifier::external_body]
pub(crate) fn thread_rng() -> ThreadRng {
    rand::thread_rng()
}

/// Calls `Alphanumeric.sample_string(rng, length)` of rand. rand's source
/// appends `length` bytes, each drawn from the 62 letters and digits of
/// `Alphanumeric`; so the claim is that the string has `length` characters and
/// that each is an ASCII letter or digit. Which ones is chance and left unsaid.
#[verifier::external_body]
fn sample_alphanumeric(rng: &mut ThreadRng, length: usize) -> (s: String)
    ensures
        s@.len() == length,
        forall|i: int| 0 <= i < length ==> is_alphanumeric_char(#[trigger] s@[i]),
{
    Alphanumeric.sample_string(rng, length)
}

/// A random string of `length` ASCII letters and digits.
pub fn random_string(length: usize) -> (s: String)
    ensures
        s@.len() == length,
        forall|i: int| 0 <= i < length ==> is_alphanumeric_char(#[trigger] s@[i]),
{
    let mut rng = thread_rng();
    sample_alphanumeric(&mut rng, length)
}

} // verus!
