//! When a light path goes on and when it ends.
//!
//! A path is followed stop by stop. At each stop the scene is asked for the
//! nearest hit; where there is one and the path is not too deep, the
//! material is asked to scatter; where it does, the path goes on one level
//! deeper.

use vstd::prelude::*;

verus! {

/// The depth at which a path is cut off.
pub const MAX_DEPTH: usize = 50;

/// What a path contributes where it ends.
#[derive(Clone, Copy, Debug, PartialEq, Eq, Structural)]
pub enum Radiance {
    /// The background gradient, taken in the ray's direction.
    Sky,
    /// Nothing.
    Black,
}

/// What follows the scene's answer at a stop.
#[derive(Clone, Copy, Debug, PartialEq, Eq, Structural)]
pub enum AfterQuery {
    /// Nothing was hit: the path ends in the sky.
    Sky,
    /// Something was hit too deep: the path ends in black.
    Black,
    /// Ask the material that was hit to scatter the ray.
    Scatter,
}

/// What follows the material's answer at a stop.
#[derive(Clone, Copy, Debug, PartialEq, Eq, Structural)]
pub enum AfterScatter {
    /// The ray was swallowed: the path ends in black.
    Black,
    /// Follow the scattered ray at this depth, and weigh what it brings by
    /// the attenuation.
    Recurse(usize),
}

/// What is found at one stop of a path.
#[derive(Clone, Copy, Debug, PartialEq, Eq, Structural)]
pub enum Stop {
    /// The ray hits nothing.
    Miss,
    /// The ray hits a surface that swallows it.
    Absorbed,
    /// The ray hits a surface that sends it on.
    Scattered,
}

/// The step after the scene was asked.
pub open spec fn query_step(hit: bool, depth: nat) -> AfterQuery {
    if !hit {
        AfterQuery::Sky
    } else if depth < MAX_DEPTH {
        AfterQuery::Scatter
    } else {
        AfterQuery::Black
    }
}

/// The step after the material was asked.
pub open spec fn scatter_step(scattered: bool, depth: nat) -> AfterScatter {
    if scattered && depth < MAX_DEPTH {
        AfterScatter::Recurse((depth + 1) as usize)
    } else {
        AfterScatter::Black
    }
}

/// What the path finds at depth `d`.
pub open spec fn found(stops: spec_fn(nat) -> Stop, d: nat) -> Stop {
    stops(d)
}

/// How a path ends that starts at `depth` and finds `found(stops, d)` at
/// depth `d`.
pub open spec fn verdict(stops: spec_fn(nat) -> Stop, depth: nat) -> Radiance
    decreases MAX_DEPTH - depth,
{
    match query_step(found(stops, depth) != Stop::Miss, depth) {
        AfterQuery::Sky => Radiance::Sky,
        AfterQuery::Black => Radiance::Black,
        AfterQuery::Scatter => match scatter_step(found(stops, depth) == Stop::Scattered, depth) {
            AfterScatter::Recurse(deeper) => verdict(stops, deeper as nat),
            AfterScatter::Black => Radiance::Black,
        },
    }
}

/// The number of times the scene is asked on that path.
pub open spec fn queries(stops: spec_fn(nat) -> Stop, depth: nat) -> nat
    decreases MAX_DEPTH - depth,
{
    match query_step(found(stops, depth) != Stop::Miss, depth) {
        AfterQuery::Scatter => match scatter_step(found(stops, depth) == Stop::Scattered, depth) {
            AfterScatter::Recurse(deeper) => 1 + queries(stops, deeper as nat),
            AfterScatter::Black => 1,
        },
        _ => 1,
    }
}

/// Decides what follows the scene's answer: a miss ends the path in the
/// sky, a hit below the cut-off asks the material, a hit at or beyond it
/// ends the path in black.
pub fn on_query(hit: bool, depth: usize) -> (r: AfterQuery)
    ensures
        r == query_step(hit, depth as nat),
{
    if !hit {
        AfterQuery::Sky
    } else if depth < MAX_DEPTH {
        AfterQuery::Scatter
    } else {
        AfterQuery::Black
    }
}

/// Decides what follows the material's answer: a scattered ray is followed
/// one level deeper, a swallowed one ends the path in black.
pub fn on_scatter(scattered: bool, depth: usize) -> (r: AfterScatter)
    ensures
        r == scatter_step(scattered, depth as nat),
        r matches AfterScatter::Recurse(deeper) ==> deeper == depth + 1 && deeper <= MAX_DEPTH,
{
    if scattered && depth < MAX_DEPTH {
        AfterScatter::Recurse(depth + 1)
    } else {
        AfterScatter::Black
    }
}

/// A ray that hits nothing ends in the sky, at every depth.
pub proof fn lemma_miss_is_sky(stops: spec_fn(nat) -> Stop, depth: nat)
    requires
        found(stops, depth) == Stop::Miss,
    ensures
        verdict(stops, depth) == Radiance::Sky,
        queries(stops, depth) == 1,
{
}

/// A hit at or beyond the cut-off ends in black, whatever the material
/// would do.
pub proof fn lemma_cut_off_is_black(stops: spec_fn(nat) -> Stop, depth: nat)
    requires
        found(stops, depth) != Stop::Miss,
        depth >= MAX_DEPTH,
    ensures
        verdict(stops, depth) == Radiance::Black,
        queries(stops, depth) == 1,
{
}

/// Every path ends: from depth zero the scene is asked at most once per
/// level up to the cut-off.
pub proof fn lemma_path_is_bounded(stops: spec_fn(nat) -> Stop, depth: nat)
    requires
        depth <= MAX_DEPTH,
    ensures
        1 <= queries(stops, depth) <= MAX_DEPTH - depth + 1,
    decreases MAX_DEPTH - depth,
{
    if found(stops, depth) == Stop::Scattered && depth < MAX_DEPTH {
        lemma_path_is_bounded(stops, depth + 1);
    }
}

/// A path that is scattered at every stop, as between two facing mirrors,
/// ends in black when it reaches the cut-off.
pub proof fn lemma_endless_bounce_is_black(stops: spec_fn(nat) -> Stop, depth: nat)
    requires
        forall|d: nat| #[trigger] found(stops, d) == Stop::Scattered,
        depth <= MAX_DEPTH,
    ensures
        verdict(stops, depth) == Radiance::Black,
        queries(stops, depth) == MAX_DEPTH - depth + 1,
    decreases MAX_DEPTH - depth,
{
    if depth < MAX_DEPTH {
        lemma_endless_bounce_is_black(stops, depth + 1);
    }
}

} // verus!
