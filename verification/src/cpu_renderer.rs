//! The CPU renderer: evaluates the selected fractal per pixel and writes
//! the colours into one of several caller-supplied buffer layouts, row by
//! row.
//!
//! Rows are independent: each row occupies a statically computable index
//! range of the destination buffer (see `row_range_start`), the ranges tile
//! the buffer exactly, and every pixel's output depends only on its own
//! coordinates, so the final contents are deterministic whatever order the
//! rows are produced in.  The row functions here are the unit an embedding
//! may hand out to worker threads; this module itself renders them in
//! sequence.

use vstd::prelude::*;
use crate::{
    FractalType,
    ImageBufferFormat,
    PixelArrayFormat,
    ChannelArrayFormat,
    RenderError,
    cap_or_default,
};
use crate::common::PlaneTransform;
use crate::colouring::Colour;
use crate::mandelbrot;
use crate::julia;

verus! {

/// Which threading strategy an embedding asks for; the rendered contents do
/// not depend on the choice.
#[derive(Clone, Copy, PartialEq, Eq, Structural, Debug)]
pub enum Threadedness {
    Singlethreaded,
    Multithreaded,
}

/// The colour of one pixel for the selected fractal variant.
pub open spec fn pixel_colour_spec(
    ft: FractalType,
    x: int,
    y: int,
    t: PlaneTransform,
    cap: nat,
) -> Colour {
    match ft {
        FractalType::MandelbrotSet => mandelbrot::calculate_pixel_spec(x, y, t, cap),
        FractalType::JuliaSet => julia::calculate_pixel_spec(x, y, t, cap),
    }
}

/// Channel `k` of a colour, in RGB order.
pub open spec fn chan_of(c: Colour, k: int) -> u8 {
    if k == 0 {
        c.r
    } else if k == 1 {
        c.g
    } else {
        c.b
    }
}

/// A colour packed as a `0RGB` 32-bit pixel.
pub open spec fn pack_0rgb(c: Colour) -> u32 {
    (c.r * 0x1_0000 + c.g * 0x100 + c.b) as u32
}

/// Row `y` of the packed 32-bit layout: `w` pixels.
pub open spec fn argb32_row_spec(
    ft: FractalType,
    y: int,
    w: int,
    t: PlaneTransform,
    cap: nat,
) -> Seq<u32> {
    Seq::new(w as nat, |x: int| pack_0rgb(pixel_colour_spec(ft, x, y, t, cap)))
}

/// Row `y` of the interleaved ARGB byte layout: `4 * w` bytes, alpha 255.
pub open spec fn argb8_row_spec(
    ft: FractalType,
    y: int,
    w: int,
    t: PlaneTransform,
    cap: nat,
) -> Seq<u8> {
    Seq::new(
        (4 * w) as nat,
        |j: int|
            if j % 4 == 0 {
                255u8
            } else {
                chan_of(pixel_colour_spec(ft, j / 4, y, t, cap), j % 4 - 1)
            },
    )
}

/// Row `y` of the interleaved RGB byte layout: `3 * w` bytes.
pub open spec fn rgb8_row_spec(
    ft: FractalType,
    y: int,
    w: int,
    t: PlaneTransform,
    cap: nat,
) -> Seq<u8> {
    Seq::new(
        (3 * w) as nat,
        |j: int| chan_of(pixel_colour_spec(ft, j / 3, y, t, cap), j % 3),
    )
}

/// The whole packed 32-bit image: `h` rows of `w` pixels.
pub open spec fn argb32_image_spec(
    ft: FractalType,
    w: int,
    h: int,
    t: PlaneTransform,
    cap: nat,
) -> Seq<u32> {
    Seq::new((h * w) as nat, |i: int| argb32_row_spec(ft, i / w, w, t, cap)[i % w])
}

/// The whole interleaved ARGB image: `h` rows of `4 * w` bytes.
pub open spec fn argb8_image_spec(
    ft: FractalType,
    w: int,
    h: int,
    t: PlaneTransform,
    cap: nat,
) -> Seq<u8> {
    Seq::new(
        (h * (4 * w)) as nat,
        |i: int| argb8_row_spec(ft, i / (4 * w), w, t, cap)[i % (4 * w)],
    )
}

/// The whole interleaved RGB image: `h` rows of `3 * w` bytes.
pub open spec fn rgb8_image_spec(
    ft: FractalType,
    w: int,
    h: int,
    t: PlaneTransform,
    cap: nat,
) -> Seq<u8> {
    Seq::new(
        (h * (3 * w)) as nat,
        |i: int| rgb8_row_spec(ft, i / (3 * w), w, t, cap)[i % (3 * w)],
    )
}

/// Index arithmetic of an interleaved layout: byte `k` of pixel `x` under
/// stride `s` sits at `s * x + k`, and that index decomposes back to
/// exactly `(x, k)`.
proof fn lemma_channel_index(s: int, x: int, k: int)
    requires
        s > 0,
        x >= 0,
        0 <= k < s,
    ensures
        (s * x + k) / s == x,
        (s * x + k) % s == k,
{
    assert(s * x == x * s) by (nonlinear_arith);
    vstd::arithmetic::div_mod::lemma_fundamental_div_mod_converse_div(s * x + k, s, x, k);
    vstd::arithmetic::div_mod::lemma_fundamental_div_mod_converse_mod(s * x + k, s, x, k);
}

/// Evaluates one pixel of the selected fractal variant.
fn pixel_colour(ft: FractalType, x: u32, y: u32, t: &PlaneTransform, max_iterations: u32) -> (c:
    Colour)
    ensures
        c == pixel_colour_spec(ft, x as int, y as int, *t, max_iterations as nat),
{
    match ft {
        FractalType::MandelbrotSet => mandelbrot::calculate_pixel(x, y, t, Some(max_iterations)),
        FractalType::JuliaSet => julia::calculate_pixel(x, y, t, Some(max_iterations)),
    }
}

/// Renders row `y` of the packed 32-bit layout.
pub fn render_row_argb32(
    fractal_type: FractalType,
    y: u32,
    width: u32,
    transform: &PlaneTransform,
    max_iterations: u32,
) -> (row: Vec<u32>)
    ensures
        row@ == argb32_row_spec(
            fractal_type,
            y as int,
            width as int,
            *transform,
            max_iterations as nat,
        ),
{
    let ghost spec_row = argb32_row_spec(
        fractal_type,
        y as int,
        width as int,
        *transform,
        max_iterations as nat,
    );
    let mut row: Vec<u32> = Vec::new();
    let mut x: u32 = 0;
    while x < width
        invariant
            x <= width,
            row@.len() == x as int,
            forall|j: int| 0 <= j < x as int ==> row@[j] == spec_row[j],
            spec_row == argb32_row_spec(
                fractal_type,
                y as int,
                width as int,
                *transform,
                max_iterations as nat,
            ),
        decreases width - x,
    {
        let c = pixel_colour(fractal_type, x, y, transform, max_iterations);
        row.push(crate::common::to_0rgb_u8(c.r, c.g, c.b));
        x = x + 1;
    }
    proof {
        assert(row@ =~= spec_row);
    }
    row
}

/// Renders row `y` of the interleaved ARGB byte layout; each pixel's four
/// bytes are written as one unit.
pub fn render_row_argb8(
    fractal_type: FractalType,
    y: u32,
    width: u32,
    transform: &PlaneTransform,
    max_iterations: u32,
) -> (row: Vec<u8>)
    ensures
        row@ == argb8_row_spec(
            fractal_type,
            y as int,
            width as int,
            *transform,
            max_iterations as nat,
        ),
{
    let ghost spec_row = argb8_row_spec(
        fractal_type,
        y as int,
        width as int,
        *transform,
        max_iterations as nat,
    );
    let mut row: Vec<u8> = Vec::new();
    let mut x: u32 = 0;
    while x < width
        invariant
            x <= width,
            row@.len() == 4 * (x as int),
            forall|j: int| 0 <= j < 4 * (x as int) ==> row@[j] == spec_row[j],
            spec_row == argb8_row_spec(
                fractal_type,
                y as int,
                width as int,
                *transform,
                max_iterations as nat,
            ),
        decreases width - x,
    {
        let c = pixel_colour(fractal_type, x, y, transform, max_iterations);
        row.push(255);
        row.push(c.r);
        row.push(c.g);
        row.push(c.b);
        proof {
            let xi = x as int;
            lemma_channel_index(4, xi, 0);
            lemma_channel_index(4, xi, 1);
            lemma_channel_index(4, xi, 2);
            lemma_channel_index(4, xi, 3);
        }
        x = x + 1;
    }
    proof {
        assert(row@ =~= spec_row);
    }
    row
}

/// Renders row `y` of the interleaved RGB byte layout; each pixel's three
/// bytes are written as one unit.
pub fn render_row_rgb8(
    fractal_type: FractalType,
    y: u32,
    width: u32,
    transform: &PlaneTransform,
    max_iterations: u32,
) -> (row: Vec<u8>)
    ensures
        row@ == rgb8_row_spec(
            fractal_type,
            y as int,
            width as int,
            *transform,
            max_iterations as nat,
        ),
{
    let ghost spec_row = rgb8_row_spec(
        fractal_type,
        y as int,
        width as int,
        *transform,
        max_iterations as nat,
    );
    let mut row: Vec<u8> = Vec::new();
    let mut x: u32 = 0;
    while x < width
        invariant
            x <= width,
            row@.len() == 3 * (x as int),
            forall|j: int| 0 <= j < 3 * (x as int) ==> row@[j] == spec_row[j],
            spec_row == rgb8_row_spec(
                fractal_type,
                y as int,
                width as int,
                *transform,
                max_iterations as nat,
            ),
        decreases width - x,
    {
        let c = pixel_colour(fractal_type, x, y, transform, max_iterations);
        row.push(c.r);
        row.push(c.g);
        row.push(c.b);
        proof {
            let xi = x as int;
            lemma_channel_index(3, xi, 0);
            lemma_channel_index(3, xi, 1);
            lemma_channel_index(3, xi, 2);
        }
        x = x + 1;
    }
    proof {
        assert(row@ =~= spec_row);
    }
    row
}

/// Builds the whole packed 32-bit image, row by row.
fn render_image_argb32(
    fractal_type: FractalType,
    width: u32,
    height: u32,
    transform: &PlaneTransform,
    max_iterations: u32,
) -> (out: Vec<u32>)
    ensures
        out@ == argb32_image_spec(
            fractal_type,
            width as int,
            height as int,
            *transform,
            max_iterations as nat,
        ),
{
    let ghost stride = width as int;
    let ghost spec_img = argb32_image_spec(
        fractal_type,
        width as int,
        height as int,
        *transform,
        max_iterations as nat,
    );
    let mut out: Vec<u32> = Vec::new();
    let mut y: u32 = 0;
    while y < height
        invariant
            y <= height,
            stride == width as int,
            out@.len() == y as int * stride,
            forall|i: int| 0 <= i < out@.len() ==> out@[i] == spec_img[i],
            spec_img == argb32_image_spec(
                fractal_type,
                width as int,
                height as int,
                *transform,
                max_iterations as nat,
            ),
        decreases height - y,
    {
        let row = render_row_argb32(fractal_type, y, width, transform, max_iterations);
        proof {
            assert((y as int) * stride + stride <= (height as int) * stride) by (nonlinear_arith)
                requires
                    0 <= (y as int) < (height as int),
                    stride >= 0;
        }
        let mut j: usize = 0;
        while j < row.len()
            invariant
                j <= row@.len(),
                row@.len() == stride,
                stride == width as int,
                (y as int) * stride + stride <= (height as int) * stride,
                spec_img.len() == (height as int) * stride,
                out@.len() == y as int * stride + j as int,
                forall|i: int| 0 <= i < out@.len() ==> out@[i] == spec_img[i],
                row@ == argb32_row_spec(
                    fractal_type,
                    y as int,
                    width as int,
                    *transform,
                    max_iterations as nat,
                ),
                spec_img == argb32_image_spec(
                    fractal_type,
                    width as int,
                    height as int,
                    *transform,
                    max_iterations as nat,
                ),
            decreases row@.len() - j,
        {
            proof {
                let ii = (y as int) * stride + (j as int);
                vstd::arithmetic::div_mod::lemma_fundamental_div_mod_converse_div(
                    ii,
                    stride,
                    y as int,
                    j as int,
                );
                vstd::arithmetic::div_mod::lemma_fundamental_div_mod_converse_mod(
                    ii,
                    stride,
                    y as int,
                    j as int,
                );
            }
            out.push(row[j]);
            j = j + 1;
        }
        proof {
            assert((y as int + 1) * stride == (y as int) * stride + stride) by (nonlinear_arith);
        }
        y = y + 1;
    }
    proof {
        assert(out@ =~= spec_img);
    }
    out
}

/// Builds the whole interleaved ARGB byte image, row by row.
fn render_image_argb8(
    fractal_type: FractalType,
    width: u32,
    height: u32,
    transform: &PlaneTransform,
    max_iterations: u32,
) -> (out: Vec<u8>)
    ensures
        out@ == argb8_image_spec(
            fractal_type,
            width as int,
            height as int,
            *transform,
            max_iterations as nat,
        ),
{
    let ghost stride = 4 * (width as int);
    let ghost spec_img = argb8_image_spec(
        fractal_type,
        width as int,
        height as int,
        *transform,
        max_iterations as nat,
    );
    let mut out: Vec<u8> = Vec::new();
    let mut y: u32 = 0;
    while y < height
        invariant
            y <= height,
            stride == 4 * (width as int),
            out@.len() == y as int * stride,
            forall|i: int| 0 <= i < out@.len() ==> out@[i] == spec_img[i],
            spec_img == argb8_image_spec(
                fractal_type,
                width as int,
                height as int,
                *transform,
                max_iterations as nat,
            ),
        decreases height - y,
    {
        let row = render_row_argb8(fractal_type, y, width, transform, max_iterations);
        proof {
            assert((y as int) * stride + stride <= (height as int) * stride) by (nonlinear_arith)
                requires
                    0 <= (y as int) < (height as int),
                    stride >= 0;
        }
        let mut j: usize = 0;
        while j < row.len()
            invariant
                j <= row@.len(),
                row@.len() == stride,
                stride == 4 * (width as int),
                (y as int) * stride + stride <= (height as int) * stride,
                spec_img.len() == (height as int) * stride,
                out@.len() == y as int * stride + j as int,
                forall|i: int| 0 <= i < out@.len() ==> out@[i] == spec_img[i],
                row@ == argb8_row_spec(
                    fractal_type,
                    y as int,
                    width as int,
                    *transform,
                    max_iterations as nat,
                ),
                spec_img == argb8_image_spec(
                    fractal_type,
                    width as int,
                    height as int,
                    *transform,
                    max_iterations as nat,
                ),
            decreases row@.len() - j,
        {
            proof {
                let ii = (y as int) * stride + (j as int);
                vstd::arithmetic::div_mod::lemma_fundamental_div_mod_converse_div(
                    ii,
                    stride,
                    y as int,
                    j as int,
                );
                vstd::arithmetic::div_mod::lemma_fundamental_div_mod_converse_mod(
                    ii,
                    stride,
                    y as int,
                    j as int,
                );
            }
            out.push(row[j]);
            j = j + 1;
        }
        proof {
            assert((y as int + 1) * stride == (y as int) * stride + stride) by (nonlinear_arith);
        }
        y = y + 1;
    }
    proof {
        assert(out@ =~= spec_img);
    }
    out
}

/// Builds the whole interleaved RGB byte image, row by row.
#[verifier::rlimit(100)]
fn render_image_rgb8(
    fractal_type: FractalType,
    width: u32,
    height: u32,
    transform: &PlaneTransform,
    max_iterations: u32,
) -> (out: Vec<u8>)
    ensures
        out@ == rgb8_image_spec(
            fractal_type,
            width as int,
            height as int,
            *transform,
            max_iterations as nat,
        ),
{
    let ghost stride = 3 * (width as int);
    let ghost spec_img = rgb8_image_spec(
        fractal_type,
        width as int,
        height as int,
        *transform,
        max_iterations as nat,
    );
    let mut out: Vec<u8> = Vec::new();
    let mut y: u32 = 0;
    while y < height
        invariant
            y <= height,
            stride == 3 * (width as int),
            out@.len() == y as int * stride,
            forall|i: int| 0 <= i < out@.len() ==> out@[i] == spec_img[i],
            spec_img == rgb8_image_spec(
                fractal_type,
                width as int,
                height as int,
                *transform,
                max_iterations as nat,
            ),
        decreases height - y,
    {
        let row = render_row_rgb8(fractal_type, y, width, transform, max_iterations);
        proof {
            assert((y as int) * stride + stride <= (height as int) * stride) by (nonlinear_arith)
                requires
                    0 <= (y as int) < (height as int),
                    stride >= 0;
        }
        let mut j: usize = 0;
        while j < row.len()
            invariant
                j <= row@.len(),
                row@.len() == stride,
                stride == 3 * (width as int),
                (y as int) * stride + stride <= (height as int) * stride,
                spec_img.len() == (height as int) * stride,
                out@.len() == y as int * stride + j as int,
                forall|i: int| 0 <= i < out@.len() ==> out@[i] == spec_img[i],
                row@ == rgb8_row_spec(
                    fractal_type,
                    y as int,
                    width as int,
                    *transform,
                    max_iterations as nat,
                ),
                spec_img == rgb8_image_spec(
                    fractal_type,
                    width as int,
                    height as int,
                    *transform,
                    max_iterations as nat,
                ),
            decreases row@.len() - j,
        {
            proof {
                let ii = (y as int) * stride + (j as int);
                vstd::arithmetic::div_mod::lemma_fundamental_div_mod_converse_div(
                    ii,
                    stride,
                    y as int,
                    j as int,
                );
                vstd::arithmetic::div_mod::lemma_fundamental_div_mod_converse_mod(
                    ii,
                    stride,
                    y as int,
                    j as int,
                );
            }
            out.push(row[j]);
            j = j + 1;
        }
        proof {
            assert((y as int + 1) * stride == (y as int) * stride + stride) by (nonlinear_arith);
        }
        y = y + 1;
    }
    proof {
        assert(out@ =~= spec_img);
    }
    out
}

/// Whether a buffer holds exactly the elements its layout needs for the
/// requested dimensions.
pub open spec fn buffer_len_matches(fmt: ImageBufferFormat, w: int, h: int) -> bool {
    match fmt {
        ImageBufferFormat::PixelArray(PixelArrayFormat::Argb32(v)) => v@.len() == h * w,
        ImageBufferFormat::ChannelArray(ChannelArrayFormat::Argb8(v)) => v@.len() == h * (4 * w),
        ImageBufferFormat::ChannelArray(ChannelArrayFormat::Rgb8(v)) => v@.len() == h * (3 * w),
    }
}

/// The buffer after a successful render: the same layout as before, with
/// contents pinned to the image of the request.
pub open spec fn rendered_to(
    oldf: ImageBufferFormat,
    newf: ImageBufferFormat,
    ft: FractalType,
    w: int,
    h: int,
    t: PlaneTransform,
    cap: nat,
) -> bool {
    match oldf {
        ImageBufferFormat::PixelArray(PixelArrayFormat::Argb32(_)) => match newf {
            ImageBufferFormat::PixelArray(PixelArrayFormat::Argb32(nv)) => nv@
                == argb32_image_spec(ft, w, h, t, cap),
            _ => false,
        },
        ImageBufferFormat::ChannelArray(ChannelArrayFormat::Argb8(_)) => match newf {
            ImageBufferFormat::ChannelArray(ChannelArrayFormat::Argb8(nv)) => nv@
                == argb8_image_spec(ft, w, h, t, cap),
            _ => false,
        },
        ImageBufferFormat::ChannelArray(ChannelArrayFormat::Rgb8(_)) => match newf {
            ImageBufferFormat::ChannelArray(ChannelArrayFormat::Rgb8(nv)) => nv@
                == rgb8_image_spec(ft, w, h, t, cap),
            _ => false,
        },
    }
}

/// Renders the specified fractal into the caller's buffer, in the format
/// specified; the cap defaults to 100.
///
/// A zero dimension or a buffer whose length does not match the layout is
/// rejected before any write begins, and the buffer is left untouched;
/// success is owed on exactly the remaining requests.
pub fn render_fractal_to(
    img_buffer_fmt: &mut ImageBufferFormat,
    fractal_type: FractalType,
    dimensions: (u32, u32),
    transform: &PlaneTransform,
    max_iterations: Option<u32>,
) -> (res: Result<(), RenderError>)
    ensures
        res == Ok::<(), RenderError>(()) <==> (dimensions.0 > 0 && dimensions.1 > 0
            && buffer_len_matches(
            *old(img_buffer_fmt),
            dimensions.0 as int,
            dimensions.1 as int,
        )),
        res is Ok ==> rendered_to(
            *old(img_buffer_fmt),
            *final(img_buffer_fmt),
            fractal_type,
            dimensions.0 as int,
            dimensions.1 as int,
            *transform,
            cap_or_default(max_iterations) as nat,
        ),
        res is Err ==> *final(img_buffer_fmt) == *old(img_buffer_fmt),
        (dimensions.0 == 0 || dimensions.1 == 0) ==> res == Err::<(), RenderError>(
            RenderError::ZeroDimension,
        ),
        dimensions.0 > 0 && dimensions.1 > 0 && !buffer_len_matches(
            *old(img_buffer_fmt),
            dimensions.0 as int,
            dimensions.1 as int,
        ) ==> res == Err::<(), RenderError>(RenderError::BufferSizeMismatch),
{
    let (width, height) = dimensions;
    let max: u32 = match max_iterations {
        Some(m) => m,
        None => crate::DEFAULT_MAX_ITERATIONS,
    };
    if width == 0 || height == 0 {
        return Err(RenderError::ZeroDimension);
    }
    proof {
        lemma_layout_lengths(width as int, height as int);
        assert((width as int) * (height as int) <= 0xffff_ffff_0000_0000) by (nonlinear_arith)
            requires
                0 <= (width as int) <= 0xffff_ffff,
                0 <= (height as int) <= 0xffff_ffff;
    }
    let expected: u128 = (width as u128) * (height as u128);
    match img_buffer_fmt {
        ImageBufferFormat::PixelArray(PixelArrayFormat::Argb32(v)) => {
            if v.len() as u128 != expected {
                return Err(RenderError::BufferSizeMismatch);
            }
            *v = render_image_argb32(fractal_type, width, height, transform, max);
            Ok(())
        },
        ImageBufferFormat::ChannelArray(ChannelArrayFormat::Argb8(v)) => {
            if v.len() as u128 != 4 * expected {
                return Err(RenderError::BufferSizeMismatch);
            }
            *v = render_image_argb8(fractal_type, width, height, transform, max);
            Ok(())
        },
        ImageBufferFormat::ChannelArray(ChannelArrayFormat::Rgb8(v)) => {
            if v.len() as u128 != 3 * expected {
                return Err(RenderError::BufferSizeMismatch);
            }
            *v = render_image_rgb8(fractal_type, width, height, transform, max);
            Ok(())
        },
    }
}

/// The element counts of the three layouts agree with their per-row forms.
proof fn lemma_layout_lengths(w: int, h: int)
    requires
        w >= 0,
        h >= 0,
    ensures
        h * w == w * h,
        h * (4 * w) == 4 * (w * h),
        h * (3 * w) == 3 * (w * h),
{
    assert(h * w == w * h && h * (4 * w) == 4 * (w * h) && h * (3 * w) == 3 * (w * h))
        by (nonlinear_arith);
}

/// An RGB image held as the image crate's pixel buffer.  Verus refuses a
/// declaration of the buffer type itself (its generics carry the crate's
/// pixel trait as a bound), so the handle is held opaquely and described
/// through the two names below.
#[verifier::external_body]
pub struct FractalImage {
    img: image::RgbImage,
}

/// The row-major bytes an image buffer holds.
pub uninterp spec fn rgb_image_raw(img: FractalImage) -> Seq<u8>;

/// The width and height an image buffer was created with.
pub uninterp spec fn rgb_image_dims(img: FractalImage) -> (int, int);

/// Relies on `image::ImageBuffer::from_raw`: a container of exactly
/// `3 * width * height` bytes is accepted, and the resulting buffer holds
/// those bytes under those dimensions.
#[verifier::external_body]
fn rgb_image_from_raw(width: u32, height: u32, buf: Vec<u8>) -> (r: FractalImage)
    requires
        buf@.len() == 3 * (width as int) * (height as int),
    ensures
        rgb_image_raw(r) == buf@,
        rgb_image_dims(r) == (width as int, height as int),
{
    FractalImage { img: image::RgbImage::from_raw(width, height, buf).unwrap() }
}

impl FractalImage {
    /// Relies on `image::ImageBuffer::into_raw`: returns the underlying
    /// container unchanged.
    #[verifier::external_body]
    pub fn into_raw(self) -> (r: Vec<u8>)
        ensures
            r@ == rgb_image_raw(self),
    {
        self.img.into_raw()
    }

    /// Relies on `image::ImageBuffer::dimensions`: the width and height the
    /// buffer was created with.
    #[verifier::external_body]
    pub fn dimensions(&self) -> (r: (u32, u32))
        ensures
            (r.0 as int, r.1 as int) == rgb_image_dims(*self),
    {
        self.img.dimensions()
    }
}

/// Generates an RGB image of the specified fractal, with given dimensions
/// and a defined transformation from the image coordinate plane to the
/// complex plane; the cap defaults to 100.
pub fn generate_fractal_image(
    fractal_type: FractalType,
    dimensions: (u32, u32),
    transform: &PlaneTransform,
    max_iterations: Option<u32>,
) -> (img: FractalImage)
    ensures
        rgb_image_raw(img) == rgb8_image_spec(
            fractal_type,
            dimensions.0 as int,
            dimensions.1 as int,
            *transform,
            cap_or_default(max_iterations) as nat,
        ),
        rgb_image_dims(img) == (dimensions.0 as int, dimensions.1 as int),
{
    let (width, height) = dimensions;
    let max: u32 = match max_iterations {
        Some(m) => m,
        None => crate::DEFAULT_MAX_ITERATIONS,
    };
    let buf = render_image_rgb8(fractal_type, width, height, transform, max);
    proof {
        lemma_layout_lengths(width as int, height as int);
    }
    rgb_image_from_raw(width, height, buf)
}

/// Rendering the same request twice yields byte-identical output: the
/// rendered contents are a function of the request alone, independent of
/// scheduling.
pub proof fn lemma_render_deterministic(
    a: Seq<u8>,
    b: Seq<u8>,
    ft: FractalType,
    w: int,
    h: int,
    t: PlaneTransform,
    cap: nat,
)
    requires
        a == rgb8_image_spec(ft, w, h, t, cap),
        b == rgb8_image_spec(ft, w, h, t, cap),
    ensures
        a == b,
{
}

} // verus!
