//! Short random object identifiers: collision-resistant keys drawn
//! uniformly from the 62-symbol alphanumeric alphabet.

use vstd::prelude::*;
use crate::text::ascii_to_string;
use rand::distr::Distribution;

verus! {

/// Is `b` the ASCII code of a decimal digit or a letter?
pub open spec fn is_alnum_byte(b: u8) -> bool {
    (48 <= b <= 57) || (65 <= b <= 90) || (97 <= b <= 122)
}

/// Is `c` an ASCII decimal digit or letter?
pub open spec fn is_alnum_char(c: char) -> bool {
    (48 <= c as u32 <= 57) || (65 <= c as u32 <= 90) || (97 <= c as u32 <= 122)
}

/// Relies on rand's `Alphanumeric` distribution sampled as a byte: every
/// sample is the ASCII code of a digit or letter, whatever the randomness.
#[verifier::external_body]
fn sample_alphanumeric() -> (r: u8)
    ensures
        is_alnum_byte(r),
{
    rand::distr::Alphanumeric.sample(&mut rand::rng())
}

/// Produces an identifier of exactly `length` characters, all alphanumeric,
/// from the process-wide random source. Collisions are accepted, not
/// checked for.
pub fn generate_id(length: u8) -> (r: String)
    ensures
        r@.len() == length as nat,
        forall|i: int| 0 <= i < r@.len() ==> is_alnum_char(#[trigger] r@[i]),
{
    let n = length as usize;
    let mut v: Vec<u8> = Vec::new();
    let mut i: usize = 0;
    while i < n
        invariant
            i <= n,
            v@.len() == i,
            forall|k: int| 0 <= k < v@.len() ==> is_alnum_byte(#[trigger] v@[k]),
        decreases n - i,
    {
        v.push(sample_alphanumeric());
        i += 1;
    }
    ascii_to_string(v)
}

} // verus!
