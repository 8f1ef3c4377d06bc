//! Access to the system's cryptographically secure random number generator.

use ring::rand::SecureRandom;
use vstd::prelude::*;

verus! {

/// Relies on ring's `SystemRandom::fill`: on success the buffer holds `n`
/// bytes drawn from the system CSPRNG. Nothing is promised of their values;
/// every caller must state what holds whatever bytes came back.
#[verifier::external_body]
pub(crate) fn random_bytes(n: usize) -> (r: Result<Vec<u8>, ()>)
    ensures
        r matches Ok(b) ==> b@.len() == n,
{
    let mut buf = vec![0u8; n];
    let rng = ring::rand::SystemRandom::new();
    rng.fill(&mut buf).map_err(|_| ())?;
    Ok(buf)
}

} // verus!
