//! The plane transform from pixel coordinates to the evaluation plane, and a
//! few buffer helpers shared by the renderers.

use vstd::prelude::*;
use crate::fixed::{Fixed, FIXED_SCALE, fadd_raw, fsub_raw, fmul_raw, fhalf_raw, sat64, quot_trunc};
use crate::fixed::lemma_quot_trunc;

verus! {

/// Raw result of one axis of the transform:
/// `((x - base_offset) * scale) - transformed_offset` in saturating
/// fixed-point arithmetic.
pub open spec fn transform_axis_raw(x: int, base: int, scale: int, toff: int) -> int {
    fsub_raw(fmul_raw(fsub_raw(x, base), scale), toff)
}

/// Defines a transform from a base plane to a transformed plane, applied
/// independently per axis: `transform(p) = (p - base_offset) * scale -
/// transformed_offset`.  Constructed once per render request and immutable
/// during a render pass; a cheap value type.
#[derive(Clone, Copy, PartialEq, Eq, Structural, Debug)]
pub struct PlaneTransform {
    pub scale_x: Fixed,
    pub scale_y: Fixed,
    pub base_offset_x: Fixed,
    pub base_offset_y: Fixed,
    pub transformed_offset_x: Fixed,
    pub transformed_offset_y: Fixed,
}

impl PlaneTransform {
    /// The identity transform: scale 1, no offsets.
    pub fn new() -> (r: Self)
        ensures
            r.scale_x.raw == FIXED_SCALE,
            r.scale_y.raw == FIXED_SCALE,
            r.base_offset_x.raw == 0,
            r.base_offset_y.raw == 0,
            r.transformed_offset_x.raw == 0,
            r.transformed_offset_y.raw == 0,
    {
        PlaneTransform {
            scale_x: Fixed::one(),
            scale_y: Fixed::one(),
            base_offset_x: Fixed::zero(),
            base_offset_y: Fixed::zero(),
            transformed_offset_x: Fixed::zero(),
            transformed_offset_y: Fixed::zero(),
        }
    }

    /// Builder-style method: composes multiplicatively with the current scale.
    pub fn scale(self, scale: (Fixed, Fixed)) -> (r: Self)
        ensures
            r.scale_x.raw == fmul_raw(self.scale_x.raw as int, scale.0.raw as int),
            r.scale_y.raw == fmul_raw(self.scale_y.raw as int, scale.1.raw as int),
            r.base_offset_x == self.base_offset_x,
            r.base_offset_y == self.base_offset_y,
            r.transformed_offset_x == self.transformed_offset_x,
            r.transformed_offset_y == self.transformed_offset_y,
    {
        PlaneTransform {
            scale_x: self.scale_x.mul_sat(scale.0),
            scale_y: self.scale_y.mul_sat(scale.1),
            ..self
        }
    }

    /// Builder-style method.
    ///
    /// Offsets the origin in the base plane.
    pub fn base_offset(self, offset: (Fixed, Fixed)) -> (r: Self)
        ensures
            r.base_offset_x.raw == fadd_raw(self.base_offset_x.raw as int, offset.0.raw as int),
            r.base_offset_y.raw == fadd_raw(self.base_offset_y.raw as int, offset.1.raw as int),
            r.scale_x == self.scale_x,
            r.scale_y == self.scale_y,
            r.transformed_offset_x == self.transformed_offset_x,
            r.transformed_offset_y == self.transformed_offset_y,
    {
        PlaneTransform {
            base_offset_x: self.base_offset_x.add_sat(offset.0),
            base_offset_y: self.base_offset_y.add_sat(offset.1),
            ..self
        }
    }

    /// Builder-style method.
    ///
    /// Offsets the origin in the transformed plane.
    pub fn transformed_offset(self, offset: (Fixed, Fixed)) -> (r: Self)
        ensures
            r.transformed_offset_x.raw == fadd_raw(
                self.transformed_offset_x.raw as int,
                offset.0.raw as int,
            ),
            r.transformed_offset_y.raw == fadd_raw(
                self.transformed_offset_y.raw as int,
                offset.1.raw as int,
            ),
            r.scale_x == self.scale_x,
            r.scale_y == self.scale_y,
            r.base_offset_x == self.base_offset_x,
            r.base_offset_y == self.base_offset_y,
    {
        PlaneTransform {
            transformed_offset_x: self.transformed_offset_x.add_sat(offset.0),
            transformed_offset_y: self.transformed_offset_y.add_sat(offset.1),
            ..self
        }
    }

    /// Builder-style method.
    ///
    /// Centres the origin inside `base_dimensions` (dimensions in the base
    /// plane).  May change either of/both base and transformed offset: when
    /// the scale is at least 1 the base offset carries the translation, which
    /// is as accurate or more; otherwise the transformed offset does.
    pub fn centre(self, base_dimensions: (Fixed, Fixed)) -> (r: Self)
        ensures
            r.scale_x == self.scale_x,
            r.scale_y == self.scale_y,
            self.scale_x.raw >= FIXED_SCALE ==> {
                &&& r.base_offset_x.raw == fhalf_raw(base_dimensions.0.raw as int)
                &&& r.transformed_offset_x == self.transformed_offset_x
            },
            self.scale_x.raw < FIXED_SCALE ==> {
                &&& r.base_offset_x == self.base_offset_x
                &&& r.transformed_offset_x.raw == fmul_raw(
                    fhalf_raw(base_dimensions.0.raw as int),
                    self.scale_x.raw as int,
                )
            },
            self.scale_y.raw >= FIXED_SCALE ==> {
                &&& r.base_offset_y.raw == fhalf_raw(base_dimensions.1.raw as int)
                &&& r.transformed_offset_y == self.transformed_offset_y
            },
            self.scale_y.raw < FIXED_SCALE ==> {
                &&& r.base_offset_y == self.base_offset_y
                &&& r.transformed_offset_y.raw == fmul_raw(
                    fhalf_raw(base_dimensions.1.raw as int),
                    self.scale_y.raw as int,
                )
            },
    {
        let mut t = self;
        if t.scale_x.ge_one() {
            t = PlaneTransform { base_offset_x: base_dimensions.0.half(), ..t };
        } else {
            t = PlaneTransform {
                transformed_offset_x: base_dimensions.0.half().mul_sat(t.scale_x),
                ..t
            };
        }
        if t.scale_y.ge_one() {
            t = PlaneTransform { base_offset_y: base_dimensions.1.half(), ..t };
        } else {
            t = PlaneTransform {
                transformed_offset_y: base_dimensions.1.half().mul_sat(t.scale_y),
                ..t
            };
        }
        t
    }

    /// Applies the transform to a point, independently per axis.  Total for
    /// every representable input; saturating at the ends of the domain.
    pub fn transform(&self, coords: (Fixed, Fixed)) -> (r: (Fixed, Fixed))
        ensures
            r.0.raw == transform_axis_raw(
                coords.0.raw as int,
                self.base_offset_x.raw as int,
                self.scale_x.raw as int,
                self.transformed_offset_x.raw as int,
            ),
            r.1.raw == transform_axis_raw(
                coords.1.raw as int,
                self.base_offset_y.raw as int,
                self.scale_y.raw as int,
                self.transformed_offset_y.raw as int,
            ),
    {
        let x = coords.0.sub_sat(self.base_offset_x);
        let y = coords.1.sub_sat(self.base_offset_y);
        let tx = x.mul_sat(self.scale_x);
        let ty = y.mul_sat(self.scale_y);
        (tx.sub_sat(self.transformed_offset_x), ty.sub_sat(self.transformed_offset_y))
    }
}

/// After `centre`, applying the transform to the image's geometric centre
/// (the halved base dimension on each axis) is exact on both branches: with
/// `scale >= 1` the centre lands on the negated transformed offset, and with
/// `scale < 1` and a zero base offset it lands on the transformed-plane
/// origin.
pub proof fn lemma_centre_maps_centre_axis(scale: i64, toff: i64, dim: i64)
    ensures
        scale >= FIXED_SCALE ==> transform_axis_raw(
            fhalf_raw(dim as int),
            fhalf_raw(dim as int),
            scale as int,
            toff as int,
        ) == sat64(-(toff as int)),
        scale < FIXED_SCALE ==> transform_axis_raw(
            fhalf_raw(dim as int),
            0,
            scale as int,
            fmul_raw(fhalf_raw(dim as int), scale as int),
        ) == 0,
{
    let h = fhalf_raw(dim as int);
    lemma_quot_trunc(dim as int, 2);
    assert(i64::MIN <= h <= i64::MAX);
    if scale >= FIXED_SCALE {
        assert(fsub_raw(h, h) == 0);
        assert(quot_trunc(0, FIXED_SCALE as int) == 0);
        assert(fmul_raw(0, scale as int) == 0);
    } else {
        assert(fsub_raw(h, 0) == h);
        let q = fmul_raw(h, scale as int);
        assert(fsub_raw(q, q) == 0);
    }
}

/// Raw result of the linear map: `start2` plus the proportional part of the
/// target range, with the quotient truncated toward zero.
pub open spec fn linear_map_spec(
    value: int,
    start1: int,
    stop1: int,
    start2: int,
    stop2: int,
) -> int {
    start2 + quot_trunc((stop2 - start2) * (value - start1), stop1 - start1)
}

/// Maps `value` from the range `[start1, stop1]` into `[start2, stop2]`
/// proportionally, in integer arithmetic truncated toward zero.  The result
/// never leaves the target range.
pub fn linear_map(value: i64, start1: i64, stop1: i64, start2: i64, stop2: i64) -> (r: i64)
    requires
        start1 < stop1,
        start1 <= value <= stop1,
    ensures
        r == linear_map_spec(value as int, start1 as int, stop1 as int, start2 as int, stop2 as int),
        start2 <= stop2 ==> start2 <= r <= stop2,
        stop2 < start2 ==> stop2 <= r <= start2,
{
    let s2d: i128 = stop2 as i128 - start2 as i128;
    let neg: bool = s2d < 0;
    let mag: u128 = if s2d < 0 {
        (-s2d) as u128
    } else {
        s2d as u128
    };
    let dv: u128 = (value as i128 - start1 as i128) as u128;
    let den: u128 = (stop1 as i128 - start1 as i128) as u128;
    proof {
        assert(mag * dv <= mag * den <= 0xffff_ffff_ffff_ffff_ffff_ffff_ffff_ffffu128
            && mag * den >= 0) by (nonlinear_arith)
            requires
                0 <= mag < 0x1_0000_0000_0000_0000u128,
                0 <= dv <= den,
                den < 0x1_0000_0000_0000_0000u128;
    }
    let m: u128 = mag * dv;
    let q: u128 = m / den;
    proof {
        vstd::arithmetic::div_mod::lemma_div_is_ordered(m as int, (mag * den) as int, den as int);
        vstd::arithmetic::div_mod::lemma_div_multiples_vanish(mag as int, den as int);
        vstd::arithmetic::div_mod::lemma_div_pos_is_pos(m as int, den as int);
        assert(q <= mag);
        let num = (stop2 - start2) * (value - start1);
        if neg {
            assert(-(s2d as int) * (dv as int) == -((s2d as int) * (dv as int))) by (nonlinear_arith);
            assert(m == -num);
            assert(quot_trunc(num, den as int) == -(q as int));
        } else {
            assert(m == num);
            assert(quot_trunc(num, den as int) == q as int);
        }
    }
    if neg {
        (start2 as i128 - q as i128) as i64
    } else {
        (start2 as i128 + q as i128) as i64
    }
}

/// Packs three 8-bit channels into one `0RGB` 32-bit pixel (alpha zero).
pub fn to_0rgb_u8(r: u8, g: u8, b: u8) -> (argb: u32)
    ensures
        argb == r * 0x1_0000 + g * 0x100 + b,
{
    let ru: u32 = r as u32;
    let gu: u32 = g as u32;
    let bu: u32 = b as u32;
    proof {
        assert((ru << 16u32) | (gu << 8u32) | bu == ru * 0x1_0000 + gu * 0x100 + bu)
            by (bit_vector)
            requires
                ru < 256u32,
                gu < 256u32,
                bu < 256u32;
    }
    (ru << 16u32) | (gu << 8u32) | (bu)
}

/// Start of row `y`'s index range in a buffer whose rows hold `stride`
/// elements each.
pub open spec fn row_range_start(y: int, stride: int) -> int {
    y * stride
}

/// The row index ranges tile the buffer exactly: every index below
/// `stride * height` lies in the range of exactly one row.
pub proof fn lemma_rows_tile_buffer(stride: int, height: int, i: int)
    requires
        stride > 0,
        0 <= i < stride * height,
    ensures
        0 <= i / stride < height,
        row_range_start(i / stride, stride) <= i < row_range_start(i / stride, stride) + stride,
        forall|y: int| #[trigger] row_range_start(y, stride) <= i
            < row_range_start(y, stride) + stride ==> y == i / stride,
{
    vstd::arithmetic::div_mod::lemma_fundamental_div_mod(i, stride);
    vstd::arithmetic::div_mod::lemma_mod_division_less_than_divisor(i, stride);
    vstd::arithmetic::div_mod::lemma_div_pos_is_pos(i, stride);
    assert(i / stride < height) by (nonlinear_arith)
        requires
            stride > 0,
            i < stride * height,
            stride * (i / stride) <= i,
            0 <= i / stride;
    assert((i / stride) * stride == stride * (i / stride)) by (nonlinear_arith);
    assert(row_range_start(i / stride, stride) <= i < row_range_start(i / stride, stride) + stride);
    assert forall|y: int| #[trigger] row_range_start(y, stride) <= i
        < row_range_start(y, stride) + stride implies y == i / stride by {
        vstd::arithmetic::div_mod::lemma_fundamental_div_mod_converse_div(
            i,
            stride,
            y,
            i - y * stride,
        );
    }
}

/// Splits a buffer into `height` independent rows of `width` elements each;
/// any elements past `width * height` are dropped.  Row `y` holds exactly the
/// elements of the half-open index range starting at `y * width`.
pub fn into_rows_mut<T: Copy>(img_buffer: Vec<T>, width: u32, height: u32) -> (rows: Vec<Vec<T>>)
    requires
        height >= 1,
        width * height <= img_buffer@.len(),
    ensures
        rows@.len() == height as int,
        forall|y: int| 0 <= y < height as int ==> (#[trigger] rows@[y])@ == img_buffer@.subrange(
            y * (width as int),
            y * (width as int) + (width as int),
        ),
{
    let n: usize = img_buffer.len();
    let mut rows: Vec<Vec<T>> = Vec::new();
    let mut y: u32 = 0;
    while y < height
        invariant
            y <= height,
            n == img_buffer@.len(),
            width * height <= n,
            rows@.len() == y as int,
            forall|j: int| 0 <= j < y as int ==> (#[trigger] rows@[j])@ == img_buffer@.subrange(
                j * (width as int),
                j * (width as int) + (width as int),
            ),
        decreases height - y,
    {
        proof {
            assert((y as int) * (width as int) + (width as int) <= (width as int) * (height as int))
                by (nonlinear_arith)
                requires
                    0 <= (y as int) && (y as int) < (height as int);
        }
        let base: usize = (y as usize) * (width as usize);
        let mut row: Vec<T> = Vec::new();
        let mut x: u32 = 0;
        while x < width
            invariant
                x <= width,
                base == (y as int) * (width as int),
                n == img_buffer@.len(),
                base + width <= n,
                row@ == img_buffer@.subrange(base as int, base as int + x as int),
            decreases width - x,
        {
            row.push(img_buffer[base + (x as usize)]);
            proof {
                assert(row@ =~= img_buffer@.subrange(base as int, base as int + (x + 1) as int));
            }
            x = x + 1;
        }
        rows.push(row);
        y = y + 1;
    }
    rows
}

} // verus!
