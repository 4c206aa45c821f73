//! What each material does with a ray that hits it.
//!
//! The quantities that a decision rests on are handed in as ordered keys,
//! which have the sign of the quantity.

use vstd::prelude::*;
use crate::key::ONE;

verus! {

/// The surface models.
#[derive(Clone, Copy, Debug, PartialEq, Eq, Structural)]
pub enum Material {
    /// A diffuse surface.
    Lambertian,
    /// A mirror, blurred by its roughness.
    Metal,
    /// Clear glass.
    Dielectric,
}

/// The direction in which a ray goes on from a surface.
#[derive(Clone, Copy, Debug, PartialEq, Eq, Structural)]
pub enum Lobe {
    /// The normal plus a random point of the unit ball.
    Diffuse,
    /// The mirror image of the incoming direction about the normal.
    Reflected,
    /// The incoming direction bent by Snell's law.
    Refracted,
}

/// The side of a glass surface from which a ray comes.
#[derive(Clone, Copy, Debug, PartialEq, Eq, Structural)]
pub enum Side {
    /// The ray enters the medium: the normal stands as it is and the ratio
    /// of indices is one over the medium's index.
    Outside,
    /// The ray leaves the medium: the normal is turned round and the ratio
    /// of indices is the medium's index.
    Inside,
}

/// What was measured at a hit. A field that the material at hand does not
/// read may hold any value.
#[derive(Clone, Copy, Debug)]
pub struct Probe {
    /// Metal: the dot product of the blurred mirror direction and the normal.
    pub facing: i64,
    /// Dielectric: the discriminant of the refraction formula.
    pub discriminant: i64,
    /// Dielectric: a uniform draw from the unit interval.
    pub draw: i64,
    /// Dielectric: the share of light that is reflected at this angle.
    pub reflectance: i64,
}

/// The roughness that a metal is built with: one where `fuzz` is at or
/// above one, else `fuzz`.
pub open spec fn clamped(fuzz: int) -> int {
    if fuzz >= ONE {
        ONE as int
    } else {
        fuzz
    }
}

/// The side from which a ray with the given dot product of direction and
/// normal comes.
pub open spec fn side_of(incidence: int) -> Side {
    if incidence > 0 {
        Side::Inside
    } else {
        Side::Outside
    }
}

/// Glass bends a ray wherever the discriminant is not negative; below zero
/// all light is reflected.
pub open spec fn bends(discriminant: int) -> bool {
    discriminant >= 0
}

impl Material {
    /// The outcome of a hit: `None` where the surface swallows the ray.
    pub open spec fn outcome(self, probe: Probe) -> Option<Lobe> {
        match self {
            Material::Lambertian => Some(Lobe::Diffuse),
            Material::Metal => if probe.facing > 0 {
                Some(Lobe::Reflected)
            } else {
                None
            },
            Material::Dielectric => if bends(probe.discriminant as int) && !(probe.draw
                < probe.reflectance) {
                Some(Lobe::Refracted)
            } else {
                Some(Lobe::Reflected)
            },
        }
    }

    /// Decides what becomes of the ray. A diffuse surface always scatters.
    /// A metal scatters where the blurred mirror direction points away from
    /// the surface. Glass always scatters: it reflects where the
    /// discriminant is negative or the draw falls below the reflectance,
    /// and bends the ray otherwise.
    pub fn scatter(&self, probe: &Probe) -> (r: Option<Lobe>)
        ensures
            r == self.outcome(*probe),
    {
        match self {
            Material::Lambertian => Some(Lobe::Diffuse),
            Material::Metal => {
                if probe.facing > 0 {
                    Some(Lobe::Reflected)
                } else {
                    None
                }
            },
            Material::Dielectric => {
                if refracts(probe.discriminant) {
                    if probe.draw < probe.reflectance {
                        Some(Lobe::Reflected)
                    } else {
                        Some(Lobe::Refracted)
                    }
                } else {
                    Some(Lobe::Reflected)
                }
            },
        }
    }
}

/// Caps the roughness of a metal, given as a key, at one.
pub fn clamp_fuzz(fuzz: i64) -> (r: i64)
    ensures
        r == clamped(fuzz as int),
{
    if fuzz >= ONE {
        ONE
    } else {
        fuzz
    }
}

/// Tells from the dot product of the ray's direction and the normal whether
/// the ray leaves the medium or enters it.
pub fn orientation(incidence: i64) -> (r: Side)
    ensures
        r == side_of(incidence as int),
{
    if incidence > 0 {
        Side::Inside
    } else {
        Side::Outside
    }
}

/// Whether a bent ray exists: the discriminant is zero or above. Only
/// then is a draw needed.
pub fn refracts(discriminant: i64) -> (r: bool)
    ensures
        r == bends(discriminant as int),
{
    discriminant >= 0
}

/// A diffuse surface never swallows a ray.
pub proof fn lemma_lambertian_always_scatters(probe: Probe)
    ensures
        Material::Lambertian.outcome(probe) == Some(Lobe::Diffuse),
{
}

/// A metal swallows the ray exactly where the blurred mirror direction does
/// not point away from the surface, and reflects it otherwise.
pub proof fn lemma_metal_absorbs_below_surface(probe: Probe)
    ensures
        Material::Metal.outcome(probe) is None <==> probe.facing <= 0,
        probe.facing > 0 ==> Material::Metal.outcome(probe) == Some(Lobe::Reflected),
{
}

/// Glass never swallows a ray. Under total internal reflection, a negative
/// discriminant, it reflects whatever was drawn; otherwise the draw decides.
pub proof fn lemma_total_internal_reflection(probe: Probe)
    ensures
        Material::Dielectric.outcome(probe) is Some,
        probe.discriminant < 0 ==> Material::Dielectric.outcome(probe) == Some(Lobe::Reflected),
        probe.discriminant >= 0 ==> Material::Dielectric.outcome(probe) == Some(
            if probe.draw < probe.reflectance {
                Lobe::Reflected
            } else {
                Lobe::Refracted
            },
        ),
{
}

} // verus!
