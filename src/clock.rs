//! The monotonic clock that bounds a search.

use std::time::{Duration, Instant};
use vstd::prelude::*;

verus! {

#[verifier::external_type_specification]
#[verifier::external_body]
pub struct ExInstant(Instant);

/// Relies on `Instant::now`: the current instant, of which nothing is known.
#[verifier::external_body]
pub fn now() -> (r: Instant) {
    Instant::now()
}

/// The instant `ms` milliseconds after `start`, if the clock can represent it.
pub uninterp spec fn instant_after(start: Instant, ms: u64) -> Option<Instant>;

/// Whether instant `a` comes after instant `b`.
pub uninterp spec fn later_than(a: Instant, b: Instant) -> bool;

/// Relies on `Instant::checked_add` (with `Duration::from_millis` converting
/// the argument): the result depends on its arguments alone.
#[verifier::external_body]
pub fn millis_after(start: &Instant, ms: u64) -> (r: Option<Instant>)
    ensures
        r == instant_after(*start, ms),
{
    start.checked_add(Duration::from_millis(ms))
}

/// Relies on `PartialOrd::gt` for `Instant`: whether `a` comes after `b`.
#[verifier::external_body]
pub fn is_later(a: &Instant, b: &Instant) -> (r: bool)
    ensures
        r == later_than(*a, *b),
{
    *a > *b
}

/// Relies on `Instant::elapsed`: the whole milliseconds since `start`.
#[verifier::external_body]
pub fn millis_since(start: &Instant) -> (r: u128) {
    start.elapsed().as_millis()
}

} // verus!
