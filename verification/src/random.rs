//! The source of fresh identifiers.

use vstd::prelude::*;

verus! {

/// Draws 32 bits with `rand::random::<u32>()`. The number comes from the
/// thread's generator and differs from call to call: nothing is claimed of it.
#[verifier::external_body]
pub(crate) fn random_u32() -> (r: u32) {
    rand::random::<u32>()
}

} // verus!
