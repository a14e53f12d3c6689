//! The Julia pixel function: the same escape-time recurrence as the
//! Mandelbrot kernel, with the roles swapped — the transformed pixel
//! coordinate is the starting point `z0` and `c` is a fixed external
//! constant.

use vstd::prelude::*;
use crate::fixed::Fixed;
use crate::common::PlaneTransform;
use crate::colouring::{Colour, map_to_colour, map_to_colour_spec};
use crate::mandelbrot::{
    ESCAPE_THRESHOLD_RAW,
    escape_count,
    escape_time,
    pixel_plane_point,
    lemma_escape_count_le_fuel,
};
use crate::{cap_or_default, DEFAULT_MAX_ITERATIONS};

verus! {

/// Real part of the Julia constant: -0.8 in Q31.32, rounded to nearest.
pub const JULIA_C_X_RAW: i64 = -3435973837;

/// Imaginary part of the Julia constant: 0.156 in Q31.32, rounded to
/// nearest.
pub const JULIA_C_Y_RAW: i64 = 670014898;

/// The Julia iteration count of a pixel: the orbit starts at the plane
/// point and `c` is the fixed Julia constant.
pub open spec fn julia_iterations(x: int, y: int, t: PlaneTransform, cap: nat) -> nat {
    let z0 = pixel_plane_point(t, x, y);
    escape_count(
        z0.0,
        z0.1,
        JULIA_C_X_RAW as int,
        JULIA_C_Y_RAW as int,
        ESCAPE_THRESHOLD_RAW as int,
        cap,
    )
}

/// The colour of a Julia pixel: its iteration count under the hue palette,
/// black at the cap.
pub open spec fn calculate_pixel_spec(x: int, y: int, t: PlaneTransform, cap: nat) -> Colour {
    map_to_colour_spec(julia_iterations(x, y, t, cap) as int, cap as int)
}

/// The colour of the pixel at `(x, y)` for the Julia set, under the given
/// transform from pixel coordinates to the complex plane; the cap defaults
/// to 100.
pub fn calculate_pixel(x: u32, y: u32, transform: &PlaneTransform, max_iterations: Option<u32>)
    -> (c: Colour)
    ensures
        c == calculate_pixel_spec(
            x as int,
            y as int,
            *transform,
            cap_or_default(max_iterations) as nat,
        ),
{
    let max: u32 = match max_iterations {
        Some(m) => m,
        None => DEFAULT_MAX_ITERATIONS,
    };
    let fx = Fixed::from_u32(x);
    let fy = Fixed::from_u32(y);
    let z0 = transform.transform((fx, fy));
    let r = escape_time(
        z0,
        (Fixed::from_raw(JULIA_C_X_RAW), Fixed::from_raw(JULIA_C_Y_RAW)),
        Fixed::from_raw(ESCAPE_THRESHOLD_RAW),
        max,
    );
    proof {
        let p = pixel_plane_point(*transform, x as int, y as int);
        lemma_escape_count_le_fuel(
            p.0,
            p.1,
            JULIA_C_X_RAW as int,
            JULIA_C_Y_RAW as int,
            ESCAPE_THRESHOLD_RAW as int,
            max as nat,
        );
    }
    map_to_colour(r.0, max)
}

} // verus!
