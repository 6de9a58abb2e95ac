//! Random numbers, drawn from the operating system's generator.

use rand::rngs::OsRng;
use rand::seq::IteratorRandom;
use vstd::prelude::*;

verus! {

/// `IteratorRandom::choose` on the range `start..end`, with `OsRng` as the
/// source. It returns a number of the range, or `None` if and only if the
/// range is empty; that is all the contract states. Which number comes is
/// left open: rand picks each with the same chance. `OsRng` panics if the
/// operating system cannot supply random bytes.
#[verifier::external_body]
pub(crate) fn choose_in_range(start: i32, end: i32) -> (pick: Option<i32>)
    ensures
        match pick {
            Some(n) => start <= n < end,
            None => start >= end,
        },
{
    (start..end).choose(&mut OsRng)
}

} // verus!
