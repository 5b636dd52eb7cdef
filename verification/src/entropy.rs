//! Random bytes from the operating system.

use rand::rngs::OsRng;
use rand::RngCore;
use vstd::prelude::*;

verus! {

/// Asks `rand`'s `OsRng` for `count` bytes with `try_fill_bytes`. The bytes
/// are random, so nothing is said of them but how many they are; nothing
/// comes back where the system has no randomness to give.
#[verifier::external_body]
pub(crate) fn random_bytes(count: usize) -> (bytes: Option<Vec<u8>>)
    ensures
        bytes matches Some(drawn) ==> drawn@.len() == count,
{
    let mut bytes = vec![0u8; count];
    OsRng.try_fill_bytes(&mut bytes).ok()?;
    Some(bytes)
}

} // verus!
