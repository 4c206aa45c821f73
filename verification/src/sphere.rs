//! The two parameters at which a ray crosses a sphere, and the rule that
//! says which of them counts as the intersection.

use vstd::prelude::*;
use crate::interval::Interval;

verus! {

/// One of the two solutions of the quadratic of a ray and a sphere.
#[derive(Clone, Copy, Debug, PartialEq, Eq, Structural)]
pub enum Root {
    /// The smaller solution: where the ray enters.
    Near,
    /// The larger solution: where the ray leaves.
    Far,
}

/// Both solutions, as ordered keys, of a quadratic whose discriminant is
/// positive. The smaller one is never above the larger one.
#[derive(Clone, Copy, Debug)]
pub struct Roots {
    near: i64,
    far: i64,
}

impl View for Roots {
    type V = (int, int);

    closed spec fn view(&self) -> (int, int) {
        (self.near as int, self.far as int)
    }
}

impl Roots {
    #[verifier::type_invariant]
    spec fn inv(self) -> bool {
        self.near <= self.far
    }

    /// The smaller root is not above the larger one.
    pub open spec fn ordered(self) -> bool {
        self@.0 <= self@.1
    }

    /// The key of one root.
    pub open spec fn at(self, root: Root) -> int {
        match root {
            Root::Near => self@.0,
            Root::Far => self@.1,
        }
    }

    /// The root that counts in `range`: the near one where the range holds
    /// it, else the far one where the range holds that, else none.
    pub open spec fn first_in(self, range: Interval) -> Option<Root> {
        if range.holds(self@.0) {
            Some(Root::Near)
        } else if range.holds(self@.1) {
            Some(Root::Far)
        } else {
            None
        }
    }

    /// The parameter of the intersection in `range`, if there is one.
    pub open spec fn hit_in(self, range: Interval) -> Option<int> {
        match self.first_in(range) {
            Some(root) => Some(self.at(root)),
            None => None,
        }
    }

    /// Takes the two solutions in either order and keeps the smaller one
    /// as the near root.
    pub fn new(a: i64, b: i64) -> (r: Roots)
        ensures
            r@ == sorted(a as int, b as int),
            r.ordered(),
    {
        if a <= b {
            Roots { near: a, far: b }
        } else {
            Roots { near: b, far: a }
        }
    }

    pub fn near(&self) -> (r: i64)
        ensures
            r == self@.0,
            self.ordered(),
    {
        proof {
            use_type_invariant(self);
        }
        self.near
    }

    pub fn far(&self) -> (r: i64)
        ensures
            r == self@.1,
            self.ordered(),
    {
        proof {
            use_type_invariant(self);
        }
        self.far
    }

    /// The key of the root that `root` names.
    pub fn value(&self, root: Root) -> (r: i64)
        ensures
            r == self.at(root),
            self.ordered(),
    {
        proof {
            use_type_invariant(self);
        }
        match root {
            Root::Near => self.near,
            Root::Far => self.far,
        }
    }

    /// Tries the near root first and the far root second, each against the
    /// open range. A ray that starts inside the sphere thus hits the far
    /// surface.
    pub fn pick(&self, range: &Interval) -> (r: Option<Root>)
        ensures
            r == self.first_in(*range),
            self.ordered(),
    {
        proof {
            use_type_invariant(self);
        }
        if range.contains(self.near) {
            Some(Root::Near)
        } else if range.contains(self.far) {
            Some(Root::Far)
        } else {
            None
        }
    }
}

/// The two solutions in ascending order.
pub open spec fn sorted(a: int, b: int) -> (int, int) {
    if a <= b {
        (a, b)
    } else {
        (b, a)
    }
}

/// Where the ray crosses the sphere, from the discriminant of the quadratic
/// and its two solutions, all as keys. There is a crossing exactly where
/// the discriminant is positive: a ray that only touches the sphere does
/// not cross it.
pub fn crossing(discriminant: i64, a: i64, b: i64) -> (r: Option<Roots>)
    ensures
        r is Some <==> discriminant > 0,
        r matches Some(roots) ==> roots@ == sorted(a as int, b as int) && roots.ordered(),
{
    if discriminant > 0 {
        Some(Roots::new(a, b))
    } else {
        None
    }
}

/// The intersection test of one sphere. `crossing` is `None` where the
/// discriminant is not positive: the ray then misses, whatever the range.
pub fn hit(crossing: &Option<Roots>, range: &Interval) -> (r: Option<Root>)
    ensures
        r == spec_hit(*crossing, *range),
        crossing matches Some(roots) ==> roots.ordered(),
{
    match crossing {
        Some(roots) => roots.pick(range),
        None => None,
    }
}

/// What `hit` returns.
pub open spec fn spec_hit(crossing: Option<Roots>, range: Interval) -> Option<Root> {
    match crossing {
        Some(roots) => roots.first_in(range),
        None => None,
    }
}

/// A sphere is not hit exactly where the discriminant is zero or below, or
/// the range holds neither solution. Where it is hit, the parameter is the
/// smallest solution that the range holds.
pub proof fn lemma_hit_of_crossing(
    discriminant: int,
    a: int,
    b: int,
    crossing: Option<Roots>,
    range: Interval,
)
    requires
        crossing is Some <==> discriminant > 0,
        crossing matches Some(roots) ==> roots@ == sorted(a, b),
    ensures
        spec_hit(crossing, range) is None <==> discriminant <= 0 || (!range.holds(a)
            && !range.holds(b)),
        spec_hit(crossing, range) matches Some(root) ==> crossing->0.at(root) == (if range.holds(a)
            && range.holds(b) {
            sorted(a, b).0
        } else if range.holds(a) {
            a
        } else {
            b
        }),
{
}

/// The root that is chosen is the smallest root in the range, and none is
/// chosen only where the range holds neither root.
pub proof fn lemma_first_is_least(roots: Roots, range: Interval)
    requires
        roots.ordered(),
    ensures
        roots.hit_in(range) matches Some(t) ==> range.holds(t) && forall|root: Root|
            range.holds(roots.at(root)) ==> t <= #[trigger] roots.at(root),
        roots.hit_in(range) is None <==> forall|root: Root|
            !range.holds(#[trigger] roots.at(root)),
{
    if roots.hit_in(range) is None {
        assert forall|root: Root| !range.holds(#[trigger] roots.at(root)) by {
            match root {
                Root::Near => {},
                Root::Far => {},
            }
        }
    } else {
        assert(range.holds(roots.at(roots.first_in(range)->0)));
    }
}

} // verus!
