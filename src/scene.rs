use vstd::prelude::*;

use crate::point::Point3D;
use crate::sky::Sky;
use crate::sphere::Sphere;

verus! {

/// A perspective camera: its eye point, the image plane it looks through
/// (the plane's lower left corner and its two spanning edges), and the
/// view parameters that plane was derived from.
#[derive(Clone, Copy, Debug, PartialEq)]
pub struct Camera<S> {
    pub origin: Point3D<S>,
    pub lower_left_corner: Point3D<S>,
    pub horizontal: Point3D<S>,
    pub vertical: Point3D<S>,
    pub look_at: Point3D<S>,
    pub view_up: Point3D<S>,
    pub vertical_fov: S,
    pub aspect_ratio: S,
}

/// Everything one render reads: image size, samples per pixel, bounce
/// budget, camera, objects and background.
#[derive(Clone, Debug)]
pub struct Config<S, C> {
    pub width: usize,
    pub height: usize,
    pub samples_per_pixel: u32,
    pub max_depth: usize,
    pub camera: Camera<S>,
    pub objects: Vec<Sphere<S, C>>,
    pub sky: Option<Sky>,
}

impl<S, C> Config<S, C> {
    /// A scene that can be rendered: at least one pixel and one sample.
    pub open spec fn wf(&self) -> bool {
        &&& self.width >= 1
        &&& self.height >= 1
        &&& self.samples_per_pixel >= 1
    }

    /// Whether the scene can be rendered.
    pub fn is_renderable(&self) -> (r: bool)
        ensures
            r == self.wf(),
    {
        self.width >= 1 && self.height >= 1 && self.samples_per_pixel >= 1
    }
}

} // verus!
