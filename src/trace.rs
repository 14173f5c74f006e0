use vstd::prelude::*;

verus! {

/// Budget of the shadow rays cast towards lights: traced as a path whose
/// whole budget is this many bounces ...
pub const SHADOW_MAX_DEPTH: usize = 2;

/// ... and which starts with this many left.
pub const SHADOW_DEPTH: usize = 1;

/// Bounces left for the ray scattered at a hit with `depth` bounces left.
/// None where the budget is spent: such a path contributes black.
pub fn bounce_depth(depth: usize) -> (r: Option<usize>)
    ensures
        r is None <==> depth == 0,
        depth > 0 ==> r == Some((depth - 1) as usize),
{
    if depth == 0 {
        None
    } else {
        Some(depth - 1)
    }
}

/// Whether a hit with `depth` bounces left lies within the last two
/// bounces of a budget of `max_depth`.
pub fn in_light_sampling_window(depth: usize, max_depth: usize) -> (r: bool)
    ensures
        r == (depth + 2 > max_depth),
{
    depth as u128 + 2 > max_depth as u128
}

/// Whether a hit samples the lights directly: there are lights, the
/// random draw came out in favour, and the hit is within the window.
pub fn samples_lights(n_lights: usize, draw_passed: bool, depth: usize, max_depth: usize) -> (r: bool)
    ensures
        r == (n_lights > 0 && draw_passed && depth + 2 > max_depth),
{
    n_lights > 0 && draw_passed && in_light_sampling_window(depth, max_depth)
}

} // verus!
