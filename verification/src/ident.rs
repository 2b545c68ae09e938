//! Random identifiers for generated records.

use rand::rngs::ThreadRng;
use vstd::prelude::*;

verus! {

/// The handle to the thread-local random generator of the rand crate.
/// Nothing is known of its state.
#[verifier::external_type_specification]
#[verifier::external_body]
pub struct ExThreadRng(ThreadRng);

/// `rand::thread_rng` hands out the calling thread's generator. Nothing is
/// assumed of it.
pub assume_specification[ rand::thread_rng ]() -> (rng: ThreadRng)
;

/// The number of characters in an identifier.
pub const IDENTIFIER_LENGTH: usize = 8;

/// Whether `c` is an ASCII letter or digit.
pub open spec fn is_alphanumeric(c: char) -> bool {
    ('A' <= c <= 'Z') || ('a' <= c <= 'z') || ('0' <= c <= '9')
}

/// Whether `s` has the form of an identifier: eight ASCII letters or digits.
pub open spec fn is_identifier(s: Seq<char>) -> bool {
    &&& s.len() == IDENTIFIER_LENGTH
    &&& forall|i: int| 0 <= i < s.len() ==> is_alphanumeric(#[trigger] s[i])
}

/// One random letter or digit.
///
/// Assumed, not proved: the body draws a byte from rand's `Alphanumeric`
/// distribution with `Rng::sample`. The distribution picks from the ASCII
/// letters and digits; which one comes out is left open.
#[verifier::external_body]
fn sample_alphanumeric(rng: &mut ThreadRng) -> (b: u8)
    ensures
        is_alphanumeric(b as char),
{
    rand::Rng::sample(rng, rand::distributions::Alphanumeric)
}

/// Draws a fresh identifier from `rng`. Two draws may well agree: nothing
/// makes identifiers unique.
pub fn random_identifier(rng: &mut ThreadRng) -> (id: String)
    ensures
        is_identifier(id@),
{
    let mut id = String::new();
    let mut n: usize = 0;
    while n < IDENTIFIER_LENGTH
        invariant
            n <= IDENTIFIER_LENGTH,
            id@.len() == n,
            forall|i: int| 0 <= i < id@.len() ==> is_alphanumeric(#[trigger] id@[i]),
        decreases IDENTIFIER_LENGTH - n,
    {
        let b: u8 = sample_alphanumeric(rng);
        id.push(b as char);
        n = n + 1;
    }
    id
}

/// Draws `count` fresh identifiers from `rng`.
pub fn random_identifiers(rng: &mut ThreadRng, count: usize) -> (ids: Vec<String>)
    ensures
        ids.len() == count,
        forall|i: int| 0 <= i < ids.len() ==> is_identifier(#[trigger] ids[i]@),
{
    let mut ids: Vec<String> = Vec::new();
    let mut n: usize = 0;
    while n < count
        invariant
            n <= count,
            ids.len() == n,
            forall|i: int| 0 <= i < ids.len() ==> is_identifier(#[trigger] ids[i]@),
        decreases count - n,
    {
        let id = random_identifier(rng);
        ids.push(id);
        n = n + 1;
    }
    ids
}

} // verus!
