//! Source of the "power-on noise" bytes that memory and the object palette
//! start from, mimicking undefined hardware startup state.

use rand::Rng;
use vstd::prelude::*;

verus! {

/// Relies on rand::rng and Rng::random: one byte drawn from the thread-local
/// generator.  Nothing is assumed of the value; every caller must be correct
/// for any byte that comes back.
#[verifier::external_body]
pub(crate) fn random_byte() -> u8 {
    rand::rng().random()
}

} // verus!
