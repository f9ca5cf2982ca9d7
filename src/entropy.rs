//! Draws from the thread-local random generator of `rand`. Nothing is known
//! of a draw beyond the range it lies in; the engine states what holds for
//! every outcome.
use vstd::prelude::*;

verus! {

/// The elements of `s` are pairwise distinct.
pub open spec fn all_distinct(s: Seq<usize>) -> bool {
    forall|i: int, j: int| 0 <= i < s.len() && 0 <= j < s.len() && i != j ==> s[i] != s[j]
}

/// Relies on `rand::seq::index::sample`: exactly `amount` distinct indices
/// below `length`, in random order. It panics when `amount > length`.
#[verifier::external_body]
pub(crate) fn sample_positions(length: usize, amount: usize) -> (r: Vec<usize>)
    requires
        amount <= length,
    ensures
        r@.len() == amount,
        forall|i: int| 0 <= i < r@.len() ==> r@[i] < length,
        all_distinct(r@),
{
    rand::seq::index::sample(&mut rand::thread_rng(), length, amount).into_vec()
}

/// Relies on `rand::Rng::gen_range` over an inclusive range: a value in
/// `low..=high`. It panics when the range is empty.
#[verifier::external_body]
pub(crate) fn random_between(low: usize, high: usize) -> (r: usize)
    requires
        low <= high,
    ensures
        low <= r <= high,
{
    rand::Rng::gen_range(&mut rand::thread_rng(), low..=high)
}

} // verus!
