//! Maps iteration counts to colours.
//!
//! The hue palette linearly maps the number of iterations taken for the
//! orbit to escape to a hue at full saturation and value, and returns black
//! for points that reached the iteration cap.  The conversion from a hue to
//! an RGB triple is pure integer arithmetic with exactly stated rounding.

use vstd::prelude::*;
use crate::RenderError;
use crate::common::{linear_map, linear_map_spec};
use crate::fixed::quot_trunc;

verus! {

/// An RGB colour with channels in `[0, 255]`.
#[derive(Clone, Copy, PartialEq, Eq, Structural, Debug)]
pub struct Colour {
    pub r: u8,
    pub g: u8,
    pub b: u8,
}

/// The RGB channels of a fully saturated hue `h` in `[0, 360)`: each sector
/// of 60 degrees ramps one channel up or down by `255 / 60` per degree,
/// truncated toward zero.
pub open spec fn hue_rgb_spec(h: int) -> Colour {
    let f = h % 60;
    let up = ((f * 255) / 60) as u8;
    let down = (((60 - f) * 255) / 60) as u8;
    if h < 60 {
        Colour { r: 255, g: up, b: 0 }
    } else if h < 120 {
        Colour { r: down, g: 255, b: 0 }
    } else if h < 180 {
        Colour { r: 0, g: 255, b: up }
    } else if h < 240 {
        Colour { r: 0, g: down, b: 255 }
    } else if h < 300 {
        Colour { r: up, g: 0, b: 255 }
    } else {
        Colour { r: 255, g: 0, b: down }
    }
}

/// The hue palette: black at the cap, otherwise the hue proportional to the
/// iteration count, over the full circle.
pub open spec fn map_to_colour_spec(iterations: int, max_iterations: int) -> Colour {
    if iterations == max_iterations {
        Colour { r: 0, g: 0, b: 0 }
    } else {
        hue_rgb_spec(linear_map_spec(iterations, 0, max_iterations, 0, 360))
    }
}

/// The magenta-ramp palette: black at the cap, otherwise red and blue rise
/// together in proportion to the iteration count.
pub open spec fn map_to_purple_spec(iterations: int, max_iterations: int) -> Colour {
    if iterations == max_iterations {
        Colour { r: 0, g: 0, b: 0 }
    } else {
        let m = linear_map_spec(iterations, 0, max_iterations, 0, 255) as u8;
        Colour { r: m, g: 0, b: m }
    }
}

/// Converts a hue in `[0, 360)` at full saturation and value to RGB.
fn hue_to_rgb(hue: u32) -> (c: Colour)
    requires
        hue < 360,
    ensures
        c == hue_rgb_spec(hue as int),
{
    let f: u32 = hue % 60;
    proof {
        vstd::arithmetic::div_mod::lemma_div_is_ordered((f * 255) as int, 15045, 60);
        vstd::arithmetic::div_mod::lemma_div_is_ordered(((60 - f) * 255) as int, 15300, 60);
        vstd::arithmetic::div_mod::lemma_div_pos_is_pos((f * 255) as int, 60);
        vstd::arithmetic::div_mod::lemma_div_pos_is_pos(((60 - f) * 255) as int, 60);
    }
    let up: u8 = ((f * 255) / 60) as u8;
    let down: u8 = (((60 - f) * 255) / 60) as u8;
    if hue < 60 {
        Colour { r: 255, g: up, b: 0 }
    } else if hue < 120 {
        Colour { r: down, g: 255, b: 0 }
    } else if hue < 180 {
        Colour { r: 0, g: 255, b: up }
    } else if hue < 240 {
        Colour { r: 0, g: down, b: 255 }
    } else if hue < 300 {
        Colour { r: up, g: 0, b: 255 }
    } else {
        Colour { r: 255, g: 0, b: down }
    }
}

/// Maps an iteration count to the hue palette: black at the cap, otherwise a
/// hue proportional to the count.
pub fn map_to_colour(iterations: u32, max_iterations: u32) -> (c: Colour)
    requires
        iterations <= max_iterations,
    ensures
        c == map_to_colour_spec(iterations as int, max_iterations as int),
{
    if iterations == max_iterations {
        Colour { r: 0, g: 0, b: 0 }
    } else {
        let hue_wide: i64 = linear_map(iterations as i64, 0, max_iterations as i64, 0, 360);
        proof {
            let p = 360 * (iterations as int);
            let d = max_iterations as int;
            crate::fixed::lemma_quot_trunc(p, d);
            assert(quot_trunc(p, d) < 360) by (nonlinear_arith)
                requires
                    d * quot_trunc(p, d) <= p,
                    quot_trunc(p, d) >= 0,
                    p == 360 * (iterations as int),
                    (iterations as int) < d;
        }
        hue_to_rgb(hue_wide as u32)
    }
}

/// Maps an iteration count that may exceed the cap by wrapping it around the
/// cap first, then applying the hue palette.
pub fn map_to_colour_loop(iterations: u32, max_iterations: u32) -> (c: Colour)
    requires
        max_iterations > 0,
    ensures
        c == map_to_colour_spec(
            (iterations as int) % (max_iterations as int),
            max_iterations as int,
        ),
{
    let n: u32 = iterations % max_iterations;
    map_to_colour(n, max_iterations)
}

/// Smooth (continuous) colouring is recognised but not implemented; reported
/// as not supported rather than producing wrong output.
pub fn normalised_iter_count(iterations: u32, max_iterations: u32) -> (c: Result<
    Colour,
    RenderError,
>)
    ensures
        c == Err::<Colour, RenderError>(RenderError::NotSupported),
{
    Err(RenderError::NotSupported)
}

/// Selects a colour mapping by configuration, not by source edits.
#[derive(Clone, Copy, PartialEq, Eq, Structural, Debug)]
pub enum Palette {
    HueCycle,
    MagentaRamp,
}

/// The colour a palette assigns to an iteration count.
pub open spec fn palette_spec(palette: Palette, iterations: int, max_iterations: int) -> Colour {
    match palette {
        Palette::HueCycle => map_to_colour_spec(iterations, max_iterations),
        Palette::MagentaRamp => map_to_purple_spec(iterations, max_iterations),
    }
}

/// Applies the selected palette to an iteration count.
pub fn map_with_palette(palette: Palette, iterations: u32, max_iterations: u32) -> (c: Colour)
    requires
        iterations <= max_iterations,
    ensures
        c == palette_spec(palette, iterations as int, max_iterations as int),
{
    match palette {
        Palette::HueCycle => map_to_colour(iterations, max_iterations),
        Palette::MagentaRamp => map_to_purple(iterations, max_iterations),
    }
}

/// Maps an iteration count to the magenta-ramp palette: black at the cap,
/// otherwise red and blue proportional to the count.
pub fn map_to_purple(iterations: u32, max_iterations: u32) -> (c: Colour)
    requires
        iterations <= max_iterations,
    ensures
        c == map_to_purple_spec(iterations as int, max_iterations as int),
{
    if iterations == max_iterations {
        Colour { r: 0, g: 0, b: 0 }
    } else {
        let m_wide: i64 = linear_map(iterations as i64, 0, max_iterations as i64, 0, 255);
        Colour { r: m_wide as u8, g: 0, b: m_wide as u8 }
    }
}

} // verus!
