use fractals::cpu_renderer::{
    generate_fractal_image, render_fractal_to, render_row_argb32, render_row_argb8,
    render_row_rgb8, Threadedness,
};
use fractals::common::PlaneTransform;
use fractals::{ChannelArrayFormat, FractalType, ImageBufferFormat, PixelArrayFormat, RenderError};

fn rgb8_buffer(width: u32, height: u32) -> ImageBufferFormat {
    ImageBufferFormat::ChannelArray(ChannelArrayFormat::Rgb8(vec![
        0u8;
        (3 * width * height) as usize
    ]))
}

fn rgb8_bytes(fmt: &ImageBufferFormat) -> &Vec<u8> {
    match fmt {
        ImageBufferFormat::ChannelArray(ChannelArrayFormat::Rgb8(v)) => v,
        _ => panic!("expected an RGB byte buffer"),
    }
}

#[test]
fn render_rejects_zero_dimensions() {
    let mut fmt = rgb8_buffer(0, 4);
    let res = render_fractal_to(&mut fmt, FractalType::MandelbrotSet, (0, 4),
        &PlaneTransform::new(), Some(10));
    assert_eq!(res, Err(RenderError::ZeroDimension));
    assert_eq!(rgb8_bytes(&fmt).len(), 0);
}

#[test]
fn render_rejects_mismatched_buffer() {
    let mut fmt = ImageBufferFormat::ChannelArray(ChannelArrayFormat::Rgb8(vec![0u8; 5]));
    let res = render_fractal_to(&mut fmt, FractalType::MandelbrotSet, (4, 4),
        &PlaneTransform::new(), Some(10));
    assert_eq!(res, Err(RenderError::BufferSizeMismatch));
    // Rejected before any write: the buffer is untouched.
    assert_eq!(rgb8_bytes(&fmt), &vec![0u8; 5]);
}

#[test]
fn render_fills_rgb8_rows() {
    let (w, h) = (5u32, 4u32);
    let t = PlaneTransform::new();
    let mut fmt = rgb8_buffer(w, h);
    let res = render_fractal_to(&mut fmt, FractalType::MandelbrotSet, (w, h), &t, Some(20));
    assert_eq!(res, Ok(()));
    let bytes = rgb8_bytes(&fmt);
    for y in 0..h {
        let row = render_row_rgb8(FractalType::MandelbrotSet, y, w, &t, 20);
        let base = (y * 3 * w) as usize;
        assert_eq!(&bytes[base..base + (3 * w) as usize], &row[..]);
    }
}

#[test]
fn render_is_deterministic() {
    // The same request twice, into independent buffers: byte-identical.
    let (w, h) = (6u32, 5u32);
    let t = PlaneTransform::new().scale((
        fractals::fixed::Fixed::from_raw(fractals::fixed::FIXED_SCALE / 2),
        fractals::fixed::Fixed::from_raw(fractals::fixed::FIXED_SCALE / 2),
    ));
    let mut a = rgb8_buffer(w, h);
    let mut b = rgb8_buffer(w, h);
    assert_eq!(render_fractal_to(&mut a, FractalType::JuliaSet, (w, h), &t, Some(30)), Ok(()));
    assert_eq!(render_fractal_to(&mut b, FractalType::JuliaSet, (w, h), &t, Some(30)), Ok(()));
    assert_eq!(rgb8_bytes(&a), rgb8_bytes(&b));
}

#[test]
fn argb8_rows_carry_full_alpha() {
    let (w, h) = (3u32, 2u32);
    let t = PlaneTransform::new();
    let mut fmt = ImageBufferFormat::ChannelArray(ChannelArrayFormat::Argb8(vec![
        0u8;
        (4 * w * h) as usize
    ]));
    assert_eq!(
        render_fractal_to(&mut fmt, FractalType::MandelbrotSet, (w, h), &t, Some(15)),
        Ok(())
    );
    let bytes = match &fmt {
        ImageBufferFormat::ChannelArray(ChannelArrayFormat::Argb8(v)) => v,
        _ => panic!("expected an ARGB byte buffer"),
    };
    for px in 0..(w * h) as usize {
        assert_eq!(bytes[4 * px], 255);
    }
    for y in 0..h {
        let row = render_row_argb8(FractalType::MandelbrotSet, y, w, &t, 15);
        let base = (y * 4 * w) as usize;
        assert_eq!(&bytes[base..base + (4 * w) as usize], &row[..]);
    }
}

#[test]
fn argb32_matches_packed_rows() {
    let (w, h) = (4u32, 3u32);
    let t = PlaneTransform::new();
    let mut fmt = ImageBufferFormat::PixelArray(PixelArrayFormat::Argb32(vec![
        0u32;
        (w * h) as usize
    ]));
    assert_eq!(
        render_fractal_to(&mut fmt, FractalType::MandelbrotSet, (w, h), &t, Some(15)),
        Ok(())
    );
    let words = match &fmt {
        ImageBufferFormat::PixelArray(PixelArrayFormat::Argb32(v)) => v,
        _ => panic!("expected a packed pixel buffer"),
    };
    for y in 0..h {
        let row = render_row_argb32(FractalType::MandelbrotSet, y, w, &t, 15);
        let base = (y * w) as usize;
        assert_eq!(&words[base..base + w as usize], &row[..]);
    }
}

#[test]
fn generated_image_matches_rendered_bytes() {
    let (w, h) = (4u32, 4u32);
    let t = PlaneTransform::new();
    let img = generate_fractal_image(FractalType::MandelbrotSet, (w, h), &t, Some(20));
    assert_eq!(img.dimensions(), (w, h));
    let mut fmt = rgb8_buffer(w, h);
    assert_eq!(
        render_fractal_to(&mut fmt, FractalType::MandelbrotSet, (w, h), &t, Some(20)),
        Ok(())
    );
    assert_eq!(&img.into_raw(), rgb8_bytes(&fmt));
}

#[test]
fn generated_pixel_zero_is_black_under_identity() {
    // Pixel (0,0) maps to c = 0 under the identity transform: black.
    let img = generate_fractal_image(
        FractalType::MandelbrotSet,
        (4, 4),
        &PlaneTransform::new(),
        Some(50),
    );
    let raw = img.into_raw();
    assert_eq!(&raw[0..3], &[0, 0, 0]);
    assert_eq!(raw.len(), 4 * 4 * 3);
}

#[test]
fn threadedness_names_both_strategies() {
    assert!(matches!(Threadedness::Singlethreaded, Threadedness::Singlethreaded));
    assert!(matches!(Threadedness::Multithreaded, Threadedness::Multithreaded));
}
