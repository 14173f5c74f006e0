use vstd::prelude::*;

use crate::material::Material;
use crate::point::Point3D;

verus! {

/// A sphere that owns its material.
#[derive(Clone, Copy, Debug, PartialEq)]
pub struct Sphere<S, C> {
    pub center: Point3D<S>,
    pub radius: S,
    pub material: Material<C, S>,
}

impl<S, C> Sphere<S, C> {
    pub fn new(center: Point3D<S>, radius: S, material: Material<C, S>) -> (r: Self)
        ensures
            r.center == center,
            r.radius == radius,
            r.material == material,
    {
        Sphere { center, radius, material }
    }
}

} // verus!
