use vstd::prelude::*;

verus! {

/// Relies on rand::random_range with an inclusive range: the result is a
/// value of the range, drawn uniformly at random from the thread-local
/// generator. The range `lo..=hi` is non-empty since `lo <= hi`, so the
/// call does not panic.
#[verifier::external_body]
pub(crate) fn random_coordinate(lo: u32, hi: u32) -> (r: u32)
    requires
        lo <= hi,
    ensures
        lo <= r <= hi,
{
    rand::random_range(lo..=hi)
}

} // verus!
