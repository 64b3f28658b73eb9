//! Names made by chance.

use vstd::prelude::*;
use rand::Rng;

verus! {

/// An ASCII letter or digit.
pub open spec fn is_alphanumeric(c: char) -> bool {
    ('a' <= c && c <= 'z') || ('A' <= c && c <= 'Z') || ('0' <= c && c <= '9')
}

/// A text of `len` ASCII letters and digits.
pub open spec fn is_random_name(s: Seq<char>, len: nat) -> bool {
    s.len() == len && forall|i: int| 0 <= i < s.len() ==> is_alphanumeric(#[trigger] s[i])
}

/// `rand::thread_rng().sample(rand::distributions::Alphanumeric)`: one
/// character drawn by the generator of the thread. Whatever is drawn, it is
/// one of the 62 ASCII letters and digits; which one is open. The generator
/// is seeded by the system at its first use, and gives up where the system
/// has no randomness to give.
#[verifier::external_body]
fn sample_alphanumeric() -> (c: char)
    ensures
        is_alphanumeric(c),
{
    rand::thread_rng().sample(rand::distributions::Alphanumeric)
}

/// A name of `len` letters and digits, drawn by chance.
pub fn random_name(len: usize) -> (r: String)
    ensures
        is_random_name(r@, len as nat),
{
    let mut name = String::new();
    let mut i: usize = 0;
    while i < len
        invariant
            i <= len,
            is_random_name(name@, i as nat),
        decreases len - i,
    {
        let c = sample_alphanumeric();
        name.push(c);
        i += 1;
    }
    name
}

} // verus!
