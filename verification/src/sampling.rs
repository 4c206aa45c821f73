//! The rules of random sampling.
//!
//! A point is drawn from the cube or square that encloses the unit ball or
//! disk, and drawn again until it passes the test of `accepts`. A camera
//! draws a point of its lens only where the lens has a size.

use vstd::prelude::*;
use crate::key::ONE;

verus! {

/// A point with the given squared length lies inside the unit ball.
pub open spec fn inside(square: int) -> bool {
    square < ONE
}

/// Whether a drawn point is kept: its squared length, given as a key, lies
/// strictly below one. A point on the surface is drawn again.
pub fn accepts(square: i64) -> (r: bool)
    ensures
        r == inside(square as int),
{
    square < ONE
}

/// A camera with the given aperture draws points of its lens. With an
/// aperture of zero it is a pinhole: every ray starts at the eye.
pub open spec fn has_lens(aperture: int) -> bool {
    aperture != 0
}

/// Whether a ray's origin is moved to a random point of the lens. The
/// aperture is given as a key.
pub fn samples_lens(aperture: i64) -> (r: bool)
    ensures
        r == has_lens(aperture as int),
{
    aperture != 0
}

} // verus!
