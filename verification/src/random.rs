//! Drawing randomness for the PKCE verifier and the CSRF state.
//!
//! Random values cannot be pinned down by a contract; everything derived
//! from them is verified for every possible drawing.

use vstd::prelude::*;

verus! {

/// Relies on rand::random for one byte from the thread-local generator.
#[verifier::external_body]
fn random_byte() -> u8 {
    rand::random()
}

/// `n` freshly drawn random bytes.
pub fn random_bytes(n: usize) -> (v: Vec<u8>)
    ensures
        v@.len() == n,
{
    let mut v: Vec<u8> = Vec::new();
    let mut i: usize = 0;
    while i < n
        invariant
            i <= n,
            v@.len() == i,
        decreases n - i,
    {
        v.push(random_byte());
        i = i + 1;
    }
    v
}

} // verus!
