use vstd::prelude::*;

verus! {

/// A point or direction in space, with coordinates of scalar type `S`.
#[derive(Clone, Copy, Debug, PartialEq)]
pub struct Point3D<S> {
    pub x: S,
    pub y: S,
    pub z: S,
}

impl<S: Copy> Point3D<S> {
    pub fn new(x: S, y: S, z: S) -> (r: Self)
        ensures
            r.x == x,
            r.y == y,
            r.z == z,
    {
        Point3D { x, y, z }
    }

    pub fn x(&self) -> (r: S)
        ensures
            r == self.x,
    {
        self.x
    }

    pub fn y(&self) -> (r: S)
        ensures
            r == self.y,
    {
        self.y
    }

    pub fn z(&self) -> (r: S)
        ensures
            r == self.z,
    {
        self.z
    }

    pub fn set_x(&mut self, x: S)
        ensures
            *final(self) == (Point3D { x, ..*old(self) }),
    {
        self.x = x;
    }

    pub fn set_y(&mut self, y: S)
        ensures
            *final(self) == (Point3D { y, ..*old(self) }),
    {
        self.y = y;
    }

    pub fn set_z(&mut self, z: S)
        ensures
            *final(self) == (Point3D { z, ..*old(self) }),
    {
        self.z = z;
    }
}

} // verus!
