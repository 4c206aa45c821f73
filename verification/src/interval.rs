//! The open range of ray parameters in which an intersection counts.

use vstd::prelude::*;

verus! {

/// The open interval `(lo, hi)` of ordered keys.
#[derive(Clone, Copy, Debug)]
pub struct Interval {
    pub lo: i64,
    pub hi: i64,
}

impl Interval {
    /// Whether `t` lies strictly between the two bounds.
    pub open spec fn holds(self, t: int) -> bool {
        self.lo < t && t < self.hi
    }

    pub fn new(lo: i64, hi: i64) -> (r: Interval)
        ensures
            r.lo == lo,
            r.hi == hi,
    {
        Interval { lo, hi }
    }

    /// Tests `lo < t < hi`; both ends are excluded.
    pub fn contains(&self, t: i64) -> (r: bool)
        ensures
            r == self.holds(t as int),
    {
        t < self.hi && t > self.lo
    }

    /// Lowers the upper bound to `t` where `t` is below it. The result
    /// holds exactly the parameters of `self` that are smaller than `t`, so
    /// an interval only ever shrinks.
    pub fn narrow(&self, t: i64) -> (r: Interval)
        ensures
            r.lo == self.lo,
            r.hi == if t < self.hi { t } else { self.hi },
            forall|x: int| r.holds(x) <==> (self.holds(x) && x < t),
    {
        if t < self.hi {
            Interval { lo: self.lo, hi: t }
        } else {
            *self
        }
    }
}

} // verus!
