use vstd::prelude::*;

verus! {

/// Relies on rand::random_range over `0..n`: it returns a value drawn from
/// that range, so the result is always below `n`; it panics only on an empty
/// range, which the precondition rules out.
#[verifier::external_body]
pub(crate) fn random_below(n: u32) -> (r: u32)
    requires
        n > 0,
    ensures
        r < n,
{
    rand::random_range(0..n)
}

} // verus!
