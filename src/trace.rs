//! The decisions of the recursive colour integrator.
//!
//! A ray with `depth` bounces left is cast into the scene only while `depth` is
//! positive. What the scene and the hit's material made of it decides the
//! colour: the sky gradient on a miss, black when the material absorbs the
//! ray, and otherwise the attenuation times the colour of the scattered ray,
//! traced with one bounce fewer.
use vstd::prelude::*;

verus! {

/// What became of a ray cast into the scene.
#[derive(Clone, Copy, Debug, PartialEq, Eq, Structural)]
pub enum Bounce {
    /// No object was hit inside the acceptance window.
    Missed,
    /// An object was hit and its material absorbed the ray.
    Absorbed,
    /// An object was hit and its material scattered the ray.
    Scattered,
}

/// How the colour of a ray is made.
#[derive(Clone, Copy, Debug, PartialEq, Eq, Structural)]
pub enum Shade {
    /// Exactly black.
    Black,
    /// The sky gradient along the ray's direction.
    Sky,
    /// The attenuation times the colour of the scattered ray, traced with the
    /// given number of bounces left.
    Attenuate(u32),
}

/// Whether the bounce budget is spent, so that the ray is black without being
/// cast into the scene.
pub fn exhausted(depth: u32) -> (r: bool)
    ensures
        r == (depth == 0),
{
    depth == 0
}

/// The colour rule for a ray with `depth` bounces left whose cast ended in
/// `bounce`. With no bounce left the ray is black whatever happened.
pub fn shade(depth: u32, bounce: Bounce) -> (s: Shade)
    ensures
        depth == 0 ==> s == Shade::Black,
        depth > 0 && bounce == Bounce::Missed ==> s == Shade::Sky,
        depth > 0 && bounce == Bounce::Absorbed ==> s == Shade::Black,
        depth > 0 && bounce == Bounce::Scattered ==> s == Shade::Attenuate((depth - 1) as u32),
{
    if depth == 0 {
        return Shade::Black;
    }
    match bounce {
        Bounce::Missed => Shade::Sky,
        Bounce::Absorbed => Shade::Black,
        Bounce::Scattered => Shade::Attenuate(depth - 1),
    }
}

} // verus!
