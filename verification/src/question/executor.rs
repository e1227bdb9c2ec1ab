//! How a resolution run is bounded in time.

use vstd::prelude::*;

use std::time::Duration;

verus! {

/// Relies on the `Clone` impl of `std::time::Duration`, a `Copy` type whose
/// clone is the same value.
pub assume_specification[ <Duration as Clone>::clone ](d: &Duration) -> (r: Duration)
    ensures
        r == *d,
;

/// Time bound for a whole resolution run.
///
/// With [`Executor::Timeout`], the driver races the interaction against a
/// timer for the given duration and abandons it with a timeout failure when
/// the timer fires first. With [`Executor::Unbounded`] the interaction may
/// take any amount of time.
#[derive(Debug, Clone, PartialEq, PartialOrd, Ord, Eq)]
pub enum Executor {
    Unbounded,
    Timeout(Duration),
}

} // verus!
