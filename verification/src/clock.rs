//! What this library takes on trust from `std::time`.
//!
//! An `Instant` is opaque: the only thing that can be learnt from one is how
//! far it lies from another. The timer keeps one instant as the origin of its
//! clock and works with the nanoseconds that lie between that origin and
//! every other instant it is shown.

use vstd::prelude::*;
use std::time::{Duration, Instant};

verus! {

#[verifier::external_type_specification]
#[verifier::external_body]
pub struct ExInstant(std::time::Instant);

/// `Instant::now` reads the monotonic clock. It always returns; which instant
/// comes back depends on when the call is made, so nothing is claimed of it.
pub assume_specification[ Instant::now ]() -> (now: Instant);

/// `Instant::saturating_duration_since` gives the time from `earlier` to
/// `later`, and a zero duration where `earlier` is the later of the two. It
/// returns for every pair of instants. Nothing is claimed of the duration:
/// verified code cannot look into either instant.
pub assume_specification[ Instant::saturating_duration_since ](
    later: &Instant,
    earlier: Instant,
) -> (elapsed: Duration);

/// `Duration::as_nanos` gives the whole duration in nanoseconds. It returns for
/// every duration. Nothing is claimed of the number: verified code cannot look
/// into the duration.
pub assume_specification[ Duration::as_nanos ](duration: &Duration) -> (nanos: u128);

} // verus!
