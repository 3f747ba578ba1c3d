//! Randomness of the operating system.

use vstd::prelude::*;

verus! {

/// `getrandom::fill` on a buffer of `count` bytes: that many bytes from the
/// operating system's generator, or `None` when it reports an error. Which bytes
/// come is left to chance.
#[verifier::external_body]
pub(crate) fn random_bytes(count: usize) -> (bytes: Option<Vec<u8>>)
    requires
        count <= 16,
    ensures
        bytes is Some ==> bytes->0@.len() == count,
{
    let mut bytes = vec![0u8; count];
    getrandom::fill(&mut bytes).ok()?;
    Some(bytes)
}

} // verus!
