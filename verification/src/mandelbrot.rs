//! The escape-time kernel and the Mandelbrot pixel function.
//!
//! `calculate_pixel` transforms a pixel coordinate into a point of the
//! complex plane, iterates `z <- z^2 + c` from the origin until the squared
//! modulus exceeds 4 or the cap is reached, and maps the iteration count to
//! a colour.  The squared modulus avoids a square root per iteration, and
//! the escape test is strict (`>`, not `>=`) at the squared-radius-4
//! boundary.

use vstd::prelude::*;
use crate::fixed::{
    Fixed,
    FIXED_SCALE,
    fmul_raw,
    fadd_raw,
    fsub_raw,
    sat64,
    quot_trunc,
    lemma_quot_trunc,
    lemma_quot_trunc_bound,
};
use crate::common::{PlaneTransform, transform_axis_raw};
use crate::colouring::{Colour, map_to_colour, map_to_colour_spec};
use crate::{cap_or_default, DEFAULT_MAX_ITERATIONS};

verus! {

/// Raw squared-modulus escape threshold: 4, i.e. escape radius 2.
pub const ESCAPE_THRESHOLD_RAW: i64 = 0x4_0000_0000;

/// Raw squared modulus of a fixed-point complex number, with the kernel's
/// own truncated component products.
pub open spec fn norm_sqr_raw(zx: int, zy: int) -> int {
    fmul_raw(zx, zx) + fmul_raw(zy, zy)
}

/// Real component of one step of the recurrence `z <- z^2 + c`.
pub open spec fn step_zx_raw(zx: int, zy: int, cx: int) -> int {
    fadd_raw(fsub_raw(fmul_raw(zx, zx), fmul_raw(zy, zy)), cx)
}

/// Imaginary component of one step of the recurrence `z <- z^2 + c`.
pub open spec fn step_zy_raw(zx: int, zy: int, cy: int) -> int {
    fadd_raw(fadd_raw(fmul_raw(zx, zy), fmul_raw(zx, zy)), cy)
}

/// Number of iterations the orbit of `z` under `z <- z^2 + c` takes to
/// exceed the escape threshold `thr`, capped at `fuel`: the count equals
/// `fuel` exactly when the orbit never escapes within the cap.
pub open spec fn escape_count(zx: int, zy: int, cx: int, cy: int, thr: int, fuel: nat) -> nat
    decreases fuel,
{
    if fuel == 0 {
        0
    } else if norm_sqr_raw(zx, zy) > thr {
        0
    } else {
        1 + escape_count(
            step_zx_raw(zx, zy, cx),
            step_zy_raw(zx, zy, cy),
            cx,
            cy,
            thr,
            (fuel - 1) as nat,
        )
    }
}

/// Whether the orbit leaves the bounded region before the cap is reached.
pub open spec fn escapes(zx: int, zy: int, cx: int, cy: int, thr: int, fuel: nat) -> bool {
    escape_count(zx, zy, cx, cy, thr, fuel) < fuel
}

/// The escape count never exceeds the cap.
pub proof fn lemma_escape_count_le_fuel(zx: int, zy: int, cx: int, cy: int, thr: int, fuel: nat)
    ensures
        escape_count(zx, zy, cx, cy, thr, fuel) <= fuel,
    decreases fuel,
{
    if fuel > 0 && norm_sqr_raw(zx, zy) <= thr {
        lemma_escape_count_le_fuel(
            step_zx_raw(zx, zy, cx),
            step_zy_raw(zx, zy, cy),
            cx,
            cy,
            thr,
            (fuel - 1) as nat,
        );
    }
}

/// Iterates `z <- z^2 + c` from `z0` until the squared modulus exceeds the
/// threshold or the cap is reached.  Returns the iteration count and
/// whether the orbit escaped; the count equals the cap exactly when it did
/// not escape.
pub fn escape_time(z0: (Fixed, Fixed), c: (Fixed, Fixed), threshold: Fixed, max_iterations: u32)
    -> (r: (u32, bool))
    ensures
        r.0 == escape_count(
            z0.0.raw as int,
            z0.1.raw as int,
            c.0.raw as int,
            c.1.raw as int,
            threshold.raw as int,
            max_iterations as nat,
        ),
        r.1 == escapes(
            z0.0.raw as int,
            z0.1.raw as int,
            c.0.raw as int,
            c.1.raw as int,
            threshold.raw as int,
            max_iterations as nat,
        ),
        !r.1 ==> r.0 == max_iterations,
{
    let ghost total = escape_count(
        z0.0.raw as int,
        z0.1.raw as int,
        c.0.raw as int,
        c.1.raw as int,
        threshold.raw as int,
        max_iterations as nat,
    );
    let mut zx = z0.0;
    let mut zy = z0.1;
    let mut i: u32 = 0;
    let mut escaped: bool = false;
    while i < max_iterations
        invariant_except_break
            i <= max_iterations,
            !escaped,
            total == i + escape_count(
                zx.raw as int,
                zy.raw as int,
                c.0.raw as int,
                c.1.raw as int,
                threshold.raw as int,
                (max_iterations - i) as nat,
            ),
        ensures
            i <= max_iterations,
            total == i as nat,
            escaped == (i < max_iterations),
        decreases max_iterations - i,
    {
        let zx2 = zx.mul_sat(zx);
        let zy2 = zy.mul_sat(zy);
        let n: i128 = zx2.raw as i128 + zy2.raw as i128;
        if n > threshold.raw as i128 {
            proof {
                assert(escape_count(
                    zx.raw as int,
                    zy.raw as int,
                    c.0.raw as int,
                    c.1.raw as int,
                    threshold.raw as int,
                    (max_iterations - i) as nat,
                ) == 0);
            }
            escaped = true;
            break;
        }
        proof {
            assert(escape_count(
                zx.raw as int,
                zy.raw as int,
                c.0.raw as int,
                c.1.raw as int,
                threshold.raw as int,
                (max_iterations - i) as nat,
            ) == 1 + escape_count(
                step_zx_raw(zx.raw as int, zy.raw as int, c.0.raw as int),
                step_zy_raw(zx.raw as int, zy.raw as int, c.1.raw as int),
                c.0.raw as int,
                c.1.raw as int,
                threshold.raw as int,
                (max_iterations - i - 1) as nat,
            ));
        }
        let t = zx.mul_sat(zy);
        let new_zx = zx2.sub_sat(zy2).add_sat(c.0);
        let new_zy = t.add_sat(t).add_sat(c.1);
        zx = new_zx;
        zy = new_zy;
        i = i + 1;
    }
    (i, escaped)
}

/// The raw coordinates of the plane point a pixel is mapped to.
pub open spec fn pixel_plane_point(t: PlaneTransform, x: int, y: int) -> (int, int) {
    (
        transform_axis_raw(
            sat64(x * FIXED_SCALE),
            t.base_offset_x.raw as int,
            t.scale_x.raw as int,
            t.transformed_offset_x.raw as int,
        ),
        transform_axis_raw(
            sat64(y * FIXED_SCALE),
            t.base_offset_y.raw as int,
            t.scale_y.raw as int,
            t.transformed_offset_y.raw as int,
        ),
    )
}

/// The Mandelbrot iteration count of a pixel: the plane point is `c` and
/// the orbit starts at the origin.
pub open spec fn mandelbrot_iterations(x: int, y: int, t: PlaneTransform, cap: nat) -> nat {
    let c = pixel_plane_point(t, x, y);
    escape_count(0, 0, c.0, c.1, ESCAPE_THRESHOLD_RAW as int, cap)
}

/// The colour of a Mandelbrot pixel: its iteration count under the hue
/// palette, black at the cap.
pub open spec fn calculate_pixel_spec(x: int, y: int, t: PlaneTransform, cap: nat) -> Colour {
    map_to_colour_spec(mandelbrot_iterations(x, y, t, cap) as int, cap as int)
}

/// The colour of the pixel at `(x, y)` for the Mandelbrot set, under the
/// given transform from pixel coordinates to the complex plane; the cap
/// defaults to 100.
pub fn calculate_pixel(x: u32, y: u32, transform: &PlaneTransform, max_iterations: Option<u32>)
    -> (c: Colour)
    ensures
        c == calculate_pixel_spec(
            x as int,
            y as int,
            *transform,
            cap_or_default(max_iterations) as nat,
        ),
{
    let max: u32 = match max_iterations {
        Some(m) => m,
        None => DEFAULT_MAX_ITERATIONS,
    };
    let fx = Fixed::from_u32(x);
    let fy = Fixed::from_u32(y);
    let c = transform.transform((fx, fy));
    let r = escape_time(
        (Fixed::zero(), Fixed::zero()),
        c,
        Fixed::from_raw(ESCAPE_THRESHOLD_RAW),
        max,
    );
    proof {
        let cc = pixel_plane_point(*transform, x as int, y as int);
        lemma_escape_count_le_fuel(0, 0, cc.0, cc.1, ESCAPE_THRESHOLD_RAW as int, max as nat);
    }
    map_to_colour(r.0, max)
}

/// The Cauchy-Schwarz inequality for pairs, in its square-free integer
/// form.
#[verifier::rlimit(100)]
proof fn lemma_cauchy_schwarz(a1: int, a2: int, b1: int, b2: int)
    ensures
        (a1 * b1 + a2 * b2) * (a1 * b1 + a2 * b2) <= (a1 * a1 + a2 * a2) * (b1 * b1 + b2 * b2),
{
    let s = a1 * b1;
    let t = a2 * b2;
    let u = a1 * b2;
    let v = a2 * b1;
    assert(s * t == u * v) by (nonlinear_arith)
        requires
            s == a1 * b1,
            t == a2 * b2,
            u == a1 * b2,
            v == a2 * b1;
    assert((s + t) * (s + t) == s * s + 2 * (s * t) + t * t) by (nonlinear_arith);
    assert((u - v) * (u - v) == u * u - 2 * (u * v) + v * v) by (nonlinear_arith);
    let aa = a1 * a1;
    let bb = a2 * a2;
    let cc = b1 * b1;
    let dd = b2 * b2;
    assert(s * s == aa * cc) by (nonlinear_arith)
        requires
            s == a1 * b1,
            aa == a1 * a1,
            cc == b1 * b1;
    assert(t * t == bb * dd) by (nonlinear_arith)
        requires
            t == a2 * b2,
            bb == a2 * a2,
            dd == b2 * b2;
    assert(u * u == aa * dd) by (nonlinear_arith)
        requires
            u == a1 * b2,
            aa == a1 * a1,
            dd == b2 * b2;
    assert(v * v == bb * cc) by (nonlinear_arith)
        requires
            v == a2 * b1,
            bb == a2 * a2,
            cc == b1 * b1;
    assert((aa + bb) * (cc + dd) == aa * cc + aa * dd + bb * cc + bb * dd) by (nonlinear_arith);
    assert((u - v) * (u - v) >= 0) by (nonlinear_arith);
}

/// An integer whose square is bounded by the square of a nonnegative bound
/// lies within that bound.
proof fn lemma_sq_le(x: int, y: int)
    requires
        x * x <= y * y,
        y >= 0,
    ensures
        -y <= x <= y,
{
    assert(-y <= x <= y) by (nonlinear_arith)
        requires
            x * x <= y * y,
            y >= 0;
}

/// The triangle inequality for the squared Euclidean norm of pairs: vectors
/// within radii `p` and `q` sum to a vector within radius `p + q`.
proof fn lemma_norm_triangle(u1: int, u2: int, v1: int, v2: int, p: int, q: int)
    requires
        u1 * u1 + u2 * u2 <= p * p,
        v1 * v1 + v2 * v2 <= q * q,
        p >= 0,
        q >= 0,
    ensures
        (u1 + v1) * (u1 + v1) + (u2 + v2) * (u2 + v2) <= (p + q) * (p + q),
{
    lemma_cauchy_schwarz(u1, u2, v1, v2);
    let dot = u1 * v1 + u2 * v2;
    let a = u1 * u1 + u2 * u2;
    let b = v1 * v1 + v2 * v2;
    assert(u1 * u1 + u2 * u2 >= 0 && v1 * v1 + v2 * v2 >= 0) by (nonlinear_arith);
    assert(a * b <= (p * q) * (p * q)) by (nonlinear_arith)
        requires
            0 <= a <= p * p,
            0 <= b <= q * q,
            p >= 0,
            q >= 0;
    assert(p * q >= 0) by (nonlinear_arith)
        requires
            p >= 0,
            q >= 0;
    lemma_sq_le(dot, p * q);
    assert((u1 + v1) * (u1 + v1) + (u2 + v2) * (u2 + v2) <= (p + q) * (p + q))
        by (nonlinear_arith)
        requires
            u1 * u1 + u2 * u2 <= p * p,
            v1 * v1 + v2 * v2 <= q * q,
            u1 * v1 + u2 * v2 <= p * q;
}

/// Raw bound on the components of `c` under which the density lemma is
/// proved: a squared modulus of at most this value squared keeps `c` at
/// least three raw units inside the disk of radius 1/4.
pub const QUARTER_MARGIN_RAW: i64 = 0x3fff_fffd;

/// One step of the recurrence keeps the orbit within modulus 1/2 when `c`
/// is within the quarter-disk margin, and such a state has not escaped.
#[verifier::rlimit(100)]
proof fn lemma_step_stays_bounded(zx: int, zy: int, cx: int, cy: int)
    requires
        zx * zx + zy * zy <= 0x4000_0000_0000_0000,
        cx * cx + cy * cy <= 0x3fff_fffd * 0x3fff_fffd,
    ensures
        norm_sqr_raw(zx, zy) <= ESCAPE_THRESHOLD_RAW as int,
        step_zx_raw(zx, zy, cx) * step_zx_raw(zx, zy, cx) + step_zy_raw(zx, zy, cy) * step_zy_raw(
            zx,
            zy,
            cy,
        ) <= 0x4000_0000_0000_0000,
{
    let b = FIXED_SCALE as int;
    assert(b == 0x1_0000_0000);
    let pxx = zx * zx;
    let pyy = zy * zy;
    let pxy = zx * zy;
    assert(pxx >= 0 && pyy >= 0) by (nonlinear_arith)
        requires
            pxx == zx * zx,
            pyy == zy * zy;
    // |zx * zy| is at most half the squared modulus, so at most 2^61.
    assert((zx - zy) * (zx - zy) == pxx - 2 * pxy + pyy) by (nonlinear_arith)
        requires
            pxx == zx * zx,
            pyy == zy * zy,
            pxy == zx * zy;
    assert((zx + zy) * (zx + zy) == pxx + 2 * pxy + pyy) by (nonlinear_arith)
        requires
            pxx == zx * zx,
            pyy == zy * zy,
            pxy == zx * zy;
    assert((zx - zy) * (zx - zy) >= 0 && (zx + zy) * (zx + zy) >= 0) by (nonlinear_arith);
    let m = quot_trunc(pxx, b);
    let nn = quot_trunc(pyy, b);
    let k = quot_trunc(pxy, b);
    lemma_quot_trunc(pxx, b);
    lemma_quot_trunc(pyy, b);
    lemma_quot_trunc(pxy, b);
    lemma_quot_trunc_bound(pxx, b, 0x4000_0000);
    lemma_quot_trunc_bound(pyy, b, 0x4000_0000);
    lemma_quot_trunc_bound(pxy, b, 0x2000_0000);
    assert(fmul_raw(zx, zx) == m);
    assert(fmul_raw(zy, zy) == nn);
    assert(fmul_raw(zx, zy) == k);
    assert(norm_sqr_raw(zx, zy) == m + nn);
    // The current state has not escaped: its raw norm is at most 2^31.
    assert(norm_sqr_raw(zx, zy) <= ESCAPE_THRESHOLD_RAW as int);
    // Step components, free of saturation.
    assert(cx * cx >= 0 && cy * cy >= 0) by (nonlinear_arith);
    lemma_sq_le(cx, 0x3fff_fffd);
    lemma_sq_le(cy, 0x3fff_fffd);
    let s1 = m - nn + cx;
    let s2 = k + k + cy;
    assert(step_zx_raw(zx, zy, cx) == s1);
    assert(step_zy_raw(zx, zy, cy) == s2);
    // The exact complex square: (pxx - pyy, 2 pxy) has squared norm
    // (pxx + pyy)^2.
    assert(pxy * pxy == pxx * pyy) by (nonlinear_arith)
        requires
            pxx == zx * zx,
            pyy == zy * zy,
            pxy == zx * zy;
    assert((pxx - pyy) * (pxx - pyy) + (2 * pxy) * (2 * pxy) == (pxx + pyy) * (pxx + pyy))
        by (nonlinear_arith)
        requires
            pxy * pxy == pxx * pyy;
    assert((pxx + pyy) * (pxx + pyy) <= 0x4000_0000_0000_0000 * 0x4000_0000_0000_0000)
        by (nonlinear_arith)
        requires
            0 <= pxx + pyy <= 0x4000_0000_0000_0000;
    // Truncation errors of the three products.
    let e1 = pxx - b * m;
    let e2 = pyy - b * nn;
    let e3 = pxy - b * k;
    assert(0 <= e1 < b && 0 <= e2 < b && -b < e3 < b);
    assert((e2 - e1) * (e2 - e1) + (-2 * e3) * (-2 * e3) <= 0x3_0000_0000 * 0x3_0000_0000)
        by (nonlinear_arith)
        requires
            -0x1_0000_0000 < e1 < 0x1_0000_0000,
            -0x1_0000_0000 < e2 < 0x1_0000_0000,
            -0x1_0000_0000 < e3 < 0x1_0000_0000;
    // The truncated square is the exact square plus a perturbation of
    // magnitude under 3 raw units, scaled by the denominator.
    lemma_norm_triangle(
        pxx - pyy,
        2 * pxy,
        e2 - e1,
        -2 * e3,
        0x4000_0000_0000_0000,
        0x3_0000_0000,
    );
    assert(pxx - pyy + (e2 - e1) == 0x1_0000_0000 * (m - nn));
    assert(2 * pxy + (-2 * e3) == 0x2_0000_0000 * k);
    assert((0x1_0000_0000 * (m - nn)) * (0x1_0000_0000 * (m - nn)) + (0x2_0000_0000 * k) * (
        0x2_0000_0000 * k
    ) <= 0x4000_000c_0000_0000 * 0x4000_000c_0000_0000);
    // Cancel the common factor 2^64.
    let xx = (m - nn) * (m - nn);
    let kk = k * k;
    assert((0x1_0000_0000 * (m - nn)) * (0x1_0000_0000 * (m - nn)) == 0x1_0000_0000_0000_0000 * xx)
        by (nonlinear_arith)
        requires
            xx == (m - nn) * (m - nn);
    assert((0x2_0000_0000 * k) * (0x2_0000_0000 * k) == 0x4_0000_0000_0000_0000 * kk)
        by (nonlinear_arith)
        requires
            kk == k * k;
    assert((2 * k) * (2 * k) == 4 * kk) by (nonlinear_arith)
        requires
            kk == k * k;
    assert(xx + 4 * kk <= 0x4000_0003 * 0x4000_0003);
    assert((m - nn) * (m - nn) + (2 * k) * (2 * k) <= 0x4000_0003 * 0x4000_0003);
    // Add c: the margin makes the radii sum to exactly 2^31.
    lemma_norm_triangle(m - nn, 2 * k, cx, cy, 0x4000_0003, 0x3fff_fffd);
    assert(s1 == (m - nn) + cx && s2 == (2 * k) + cy);
    assert(s1 * s1 + s2 * s2 <= 0x4000_0000_0000_0000);
}

/// An orbit within modulus 1/2, driven by a `c` within the quarter-disk
/// margin, never escapes: the count always equals the cap.
proof fn lemma_bounded_orbit_never_escapes(zx: int, zy: int, cx: int, cy: int, fuel: nat)
    requires
        zx * zx + zy * zy <= 0x4000_0000_0000_0000,
        cx * cx + cy * cy <= 0x3fff_fffd * 0x3fff_fffd,
    ensures
        escape_count(zx, zy, cx, cy, ESCAPE_THRESHOLD_RAW as int, fuel) == fuel,
    decreases fuel,
{
    if fuel > 0 {
        lemma_step_stays_bounded(zx, zy, cx, cy);
        lemma_bounded_orbit_never_escapes(
            step_zx_raw(zx, zy, cx),
            step_zy_raw(zx, zy, cy),
            cx,
            cy,
            (fuel - 1) as nat,
        );
    }
}

/// Density invariant near the centre: a plane point `c` whose raw squared
/// modulus keeps it at least three raw units inside the disk of radius 1/4
/// around the origin never escapes, for every iteration cap.
pub proof fn lemma_inside_quarter_disk_never_escapes(cx: int, cy: int, fuel: nat)
    requires
        cx * cx + cy * cy <= QUARTER_MARGIN_RAW * QUARTER_MARGIN_RAW,
    ensures
        escape_count(0, 0, cx, cy, ESCAPE_THRESHOLD_RAW as int, fuel) == fuel,
        !escapes(0, 0, cx, cy, ESCAPE_THRESHOLD_RAW as int, fuel),
{
    lemma_bounded_orbit_never_escapes(0, 0, cx, cy, fuel);
}

/// The origin is a fixed point of the recurrence with `c = 0`, so it never
/// escapes: the count always equals the cap.
pub proof fn lemma_origin_never_escapes(thr: int, fuel: nat)
    requires
        thr >= 0,
    ensures
        escape_count(0, 0, 0, 0, thr, fuel) == fuel,
    decreases fuel,
{
    if fuel > 0 {
        assert(quot_trunc(0, FIXED_SCALE as int) == 0);
        assert(norm_sqr_raw(0, 0) == 0);
        assert(step_zx_raw(0, 0, 0) == 0);
        assert(step_zy_raw(0, 0, 0) == 0);
        lemma_origin_never_escapes(thr, (fuel - 1) as nat);
    }
}

/// With an iteration cap of zero every pixel reports zero iterations and is
/// mapped as "at the cap", hence black, for the whole image.
pub proof fn lemma_zero_cap_black(x: int, y: int, t: PlaneTransform)
    ensures
        mandelbrot_iterations(x, y, t, 0) == 0,
        calculate_pixel_spec(x, y, t, 0) == (Colour { r: 0, g: 0, b: 0 }),
{
}

} // verus!
