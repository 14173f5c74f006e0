//! Scene model and rendering rules of a Monte Carlo path tracer.
//!
//! The scalar and colour types of the scene are type parameters: the
//! library states and proves what does not depend on their arithmetic
//! (which objects are lights, which background applies, how a pixel
//! buffer is laid out), and the shading arithmetic is supplied by the
//! caller.
pub mod application;
pub mod display;
pub mod lights;
pub mod material;
pub mod point;
pub mod raster;
pub mod scene;
pub mod sky;
pub mod sphere;
pub mod trace;
