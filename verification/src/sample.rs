//! The one place the simulation draws randomness: a fresh direction
//! component for a served ball.
use vstd::prelude::*;
use crate::field::SCALE;

verus! {

/// Relies on `rand::random_range`: for an integer range `low..high` it
/// returns a uniform sample `r` with `low <= r < high`, and panics only
/// on an empty range; the range here is constant and non-empty.  This
/// mirrors sampling a direction component from [-1.0, 1.0), scaled to
/// counts.
#[verifier::external_body]
pub(crate) fn sample_direction() -> (r: i64)
    ensures
        -SCALE <= r < SCALE,
{
    rand::random_range(-SCALE..SCALE)
}

} // verus!
