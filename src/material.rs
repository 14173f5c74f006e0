use vstd::prelude::*;

verus! {

/// Diffuse surface: scatters around the surface normal, tinted by `albedo`.
#[derive(Clone, Copy, Debug, PartialEq)]
pub struct Lambertian<C> {
    pub albedo: C,
}

/// Reflective surface; `fuzz` perturbs the mirror direction.
#[derive(Clone, Copy, Debug, PartialEq)]
pub struct Metal<C, S> {
    pub albedo: C,
    pub fuzz: S,
}

/// Dielectric surface that refracts or reflects.
#[derive(Clone, Copy, Debug, PartialEq)]
pub struct Glass<S> {
    pub refractive_index: S,
}

/// Emissive surface: ends the path it is hit by.
#[derive(Clone, Copy, Debug, PartialEq)]
pub struct Light {}

impl<C> Lambertian<C> {
    pub fn new(albedo: C) -> (r: Self)
        ensures
            r.albedo == albedo,
    {
        Lambertian { albedo }
    }
}

impl<C, S> Metal<C, S> {
    pub fn new(albedo: C, fuzz: S) -> (r: Self)
        ensures
            r.albedo == albedo,
            r.fuzz == fuzz,
    {
        Metal { albedo, fuzz }
    }
}

impl<S> Glass<S> {
    pub fn new(refractive_index: S) -> (r: Self)
        ensures
            r.refractive_index == refractive_index,
    {
        Glass { refractive_index }
    }
}

impl Light {
    pub fn new() -> (r: Self) {
        Light {}
    }
}

/// The closed set of surface behaviours; colour type `C`, scalar type `S`.
#[derive(Clone, Copy, Debug, PartialEq)]
pub enum Material<C, S> {
    Lambertian(Lambertian<C>),
    Metal(Metal<C, S>),
    Glass(Glass<S>),
    Light(Light),
}

/// Chance, in percent and per light, that a hit on an ordinary surface
/// samples the lights directly.
pub const LIGHT_SAMPLING_PERCENT: u64 = 10;

/// The same chance for a hit on glass, lower because refraction and
/// reflection already carry light through it.
pub const GLASS_LIGHT_SAMPLING_PERCENT: u64 = 5;

impl<C, S> Material<C, S> {
    pub open spec fn is_emissive(self) -> bool {
        self is Light
    }

    pub open spec fn sampling_percent(self) -> u64 {
        if self is Glass {
            GLASS_LIGHT_SAMPLING_PERCENT
        } else {
            LIGHT_SAMPLING_PERCENT
        }
    }

    /// Whether the material emits light (and so never scatters).
    pub fn is_light(&self) -> (r: bool)
        ensures
            r == self.is_emissive(),
    {
        match self {
            Material::Light(_) => true,
            _ => false,
        }
    }

    /// Whether the material is a dielectric.
    pub fn is_glass(&self) -> (r: bool)
        ensures
            r == (*self is Glass),
    {
        match self {
            Material::Glass(_) => true,
            _ => false,
        }
    }

    /// Per-light chance, in percent, of sampling the lights directly after
    /// a hit on this material.
    pub fn light_sampling_percent(&self) -> (r: u64)
        ensures
            r == self.sampling_percent(),
    {
        if self.is_glass() {
            GLASS_LIGHT_SAMPLING_PERCENT
        } else {
            LIGHT_SAMPLING_PERCENT
        }
    }
}

} // verus!
