//! Choices made while building the random demonstration scene.

use vstd::prelude::*;

verus! {

/// The small spheres stand on a square grid of cells whose coordinates run
/// from `-GRID_RADIUS` to `GRID_RADIUS` on both axes.
pub const GRID_RADIUS: i32 = 11;

/// The highest value of the roll that picks a small sphere's material; rolls
/// run from 0 up to it, both ends included.
pub const MAX_ROLL: u32 = 100;

/// The material family of a small sphere.
#[derive(Clone, Copy, PartialEq, Eq, Structural, Debug)]
pub enum MaterialKind {
    /// A diffuse sphere that may drift upwards during the exposure.
    Diffuse,
    /// A metal sphere.
    Metal,
    /// A glass sphere.
    Glass,
}

/// The family that a roll picks: 0 to 79 diffuse, 80 to 94 metal, glass
/// above that.
pub open spec fn kind_of_roll(roll: int) -> MaterialKind {
    if roll <= 79 {
        MaterialKind::Diffuse
    } else if roll <= 94 {
        MaterialKind::Metal
    } else {
        MaterialKind::Glass
    }
}

/// The material family for a small sphere, from a roll between 0 and
/// `MAX_ROLL`.
pub fn material_for_roll(roll: u32) -> (k: MaterialKind)
    ensures
        k == kind_of_roll(roll as int),
{
    if roll <= 79 {
        MaterialKind::Diffuse
    } else if roll <= 94 {
        MaterialKind::Metal
    } else {
        MaterialKind::Glass
    }
}

} // verus!
