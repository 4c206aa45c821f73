//! The nearest intersection among the members of a scene.

use vstd::prelude::*;
use crate::interval::Interval;
use crate::sphere::{Root, Roots};

verus! {

/// The intersection that a scene reports for one ray.
#[derive(Clone, Copy, Debug, PartialEq, Eq)]
pub struct HitRecord {
    /// The position of the member that was hit.
    pub member: usize,
    /// Which of its two roots was taken.
    pub root: Root,
    /// The key of the ray parameter at that root.
    pub t: i64,
}

/// The parameter at which member `i` is hit within `range`, if it is.
pub open spec fn param(members: Seq<Option<Roots>>, range: Interval, i: int) -> Option<int> {
    match members[i] {
        Some(roots) => roots.hit_in(range),
        None => None,
    }
}

/// No member before position `n` is hit within `range`.
pub open spec fn all_miss(members: Seq<Option<Roots>>, range: Interval, n: int) -> bool {
    forall|j: int| 0 <= j < n ==> param(members, range, j) is None
}

/// `rec` is the hit of the first `n` members that has the smallest
/// parameter, and among those with that parameter the one that stands first.
pub open spec fn nearest_of(
    members: Seq<Option<Roots>>,
    range: Interval,
    n: int,
    rec: HitRecord,
) -> bool {
    &&& rec.member < n
    &&& members[rec.member as int] matches Some(roots) && roots.first_in(range) == Some(rec.root)
        && roots.at(rec.root) == rec.t
    &&& forall|j: int|
        0 <= j < n ==> (#[trigger] param(members, range, j) matches Some(t) ==> rec.t <= t)
    &&& forall|j: int|
        0 <= j < rec.member ==> (#[trigger] param(members, range, j) matches Some(t) ==> rec.t
            < t)
}

/// One pass over the members. The upper bound of the range is lowered to
/// each hit that is accepted, so a later member replaces the result only
/// with a strictly smaller parameter.
pub fn nearest(members: &Vec<Option<Roots>>, range: &Interval) -> (r: Option<HitRecord>)
    ensures
        r is None <==> all_miss(members@, *range, members@.len() as int),
        r matches Some(rec) ==> nearest_of(members@, *range, members@.len() as int, rec),
        all_ordered(members@),
{
    let mut window = *range;
    let mut closest: Option<HitRecord> = None;
    let mut i: usize = 0;
    while i < members.len()
        invariant
            0 <= i <= members@.len(),
            window.lo == range.lo,
            closest is None ==> window.hi == range.hi && all_miss(members@, *range, i as int),
            closest matches Some(rec) ==> window.hi == rec.t && nearest_of(
                members@,
                *range,
                i as int,
                rec,
            ),
            all_ordered(members@.take(i as int)),
        decreases members@.len() - i,
    {
        let found = crate::sphere::hit(&members[i], &window);
        match found {
            Some(root) => {
                let roots = members[i].unwrap();
                let t = roots.value(root);
                assert(param(members@, *range, i as int) == Some(t as int));
                closest = Some(HitRecord { member: i, root, t });
                window = window.narrow(t);
            },
            None => {
                assert(param(members@, *range, i as int) matches Some(t) ==> window.hi <= t);
            },
        }
        i = i + 1;
    }
    proof {
        assert(members@.take(i as int) =~= members@);
        if let Some(rec) = closest {
            assert(param(members@, *range, rec.member as int) is Some);
        }
    }
    closest
}

/// The key of one root of member `j`, where the ray crosses that member.
pub open spec fn crossing_at(members: Seq<Option<Roots>>, j: int, root: Root) -> Option<int> {
    match members[j] {
        Some(roots) => Some(roots.at(root)),
        None => None,
    }
}

/// In every member that is crossed, the near root is not above the far one.
pub open spec fn all_ordered(members: Seq<Option<Roots>>) -> bool {
    forall|j: int|
        0 <= j < members.len() ==> (#[trigger] members[j] matches Some(roots) ==> roots.ordered())
}

/// The parameter that `nearest` reports is in range and is the smallest
/// parameter in range at which the ray crosses any member, either root
/// counted.
pub proof fn lemma_nearest_is_global_minimum(
    members: Seq<Option<Roots>>,
    range: Interval,
    rec: HitRecord,
)
    requires
        nearest_of(members, range, members.len() as int, rec),
        all_ordered(members),
    ensures
        range.holds(rec.t as int),
        forall|j: int, root: Root|
            0 <= j < members.len() ==> (#[trigger] crossing_at(members, j, root) matches Some(t)
                ==> range.holds(t) ==> rec.t <= t),
{
    assert forall|j: int, root: Root| 0 <= j < members.len() implies (#[trigger] crossing_at(
        members,
        j,
        root,
    ) matches Some(t) ==> range.holds(t) ==> rec.t <= t) by {
        if let Some(roots) = members[j] {
            if range.holds(roots.at(root)) {
                crate::sphere::lemma_first_is_least(roots, range);
                assert(param(members, range, j) is Some);
            }
        }
    }
}

/// Where no member is hit, the range holds no root of any member.
pub proof fn lemma_miss_is_global(members: Seq<Option<Roots>>, range: Interval)
    requires
        all_miss(members, range, members.len() as int),
    ensures
        forall|j: int, root: Root|
            0 <= j < members.len() ==> (#[trigger] crossing_at(members, j, root) matches Some(t)
                ==> !range.holds(t)),
{
    assert forall|j: int, root: Root| 0 <= j < members.len() implies (#[trigger] crossing_at(
        members,
        j,
        root,
    ) matches Some(t) ==> !range.holds(t)) by {
        if let Some(roots) = members[j] {
            assert(param(members, range, j) is None);
            match root {
                Root::Near => {},
                Root::Far => {},
            }
        }
    }
}

} // verus!
