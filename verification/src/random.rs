//! The source of random bytes.

use rand::Rng;
use vstd::prelude::*;

verus! {

/// A byte from the thread-local generator of the `rand` crate:
/// `rand::thread_rng().gen::<u8>()`. Nothing is claimed of the byte: any
/// value may come back, and two calls may differ. The generator seeds itself
/// from the operating system on first use in a thread and panics if that
/// fails.
#[verifier::external_body]
pub(crate) fn random_byte() -> u8 {
    let mut rng = rand::thread_rng();
    rng.gen()
}

} // verus!
