use fractals::common::PlaneTransform;
use fractals::colouring::Colour;
use fractals::fixed::Fixed;
use fractals::mandelbrot::{calculate_pixel, escape_time, ESCAPE_THRESHOLD_RAW};
use fractals::julia;

fn black() -> Colour {
    Colour { r: 0, g: 0, b: 0 }
}

fn threshold() -> Fixed {
    Fixed::from_raw(ESCAPE_THRESHOLD_RAW)
}

fn origin() -> (Fixed, Fixed) {
    (Fixed::from_raw(0), Fixed::from_raw(0))
}

#[test]
fn origin_never_escapes() {
    // c = 0: the orbit stays at the origin for any cap.
    let (iters, escaped) = escape_time(origin(), origin(), threshold(), 50);
    assert_eq!(iters, 50);
    assert!(!escaped);
}

#[test]
fn point_two_two_escapes_within_two_iterations() {
    // c = 2 + 2i: |z_1|^2 = 8 exceeds 4 immediately.
    let c = (Fixed::from_int(2), Fixed::from_int(2));
    let (iters, escaped) = escape_time(origin(), c, threshold(), 50);
    assert!(escaped);
    assert!(iters <= 2);
    assert_eq!(iters, 1);
}

#[test]
fn small_c_never_escapes() {
    // c well inside the quarter disk around the origin: never escapes,
    // whatever the (positive) cap.
    let tenth = Fixed::from_raw(429496729);
    let (iters, escaped) = escape_time(origin(), (tenth, tenth), threshold(), 1000);
    assert_eq!(iters, 1000);
    assert!(!escaped);
}

#[test]
fn zero_cap_reports_zero_iterations_and_black() {
    let (iters, escaped) = escape_time(origin(), (Fixed::from_int(2), Fixed::from_int(2)),
        threshold(), 0);
    assert_eq!(iters, 0);
    assert!(!escaped);
    // The whole image is black at cap zero: every count equals the cap.
    let t = PlaneTransform::new();
    for x in 0..4u32 {
        for y in 0..4u32 {
            assert_eq!(calculate_pixel(x, y, &t, Some(0)), black());
        }
    }
}

#[test]
fn four_by_four_identity_scenario() {
    // width=4, height=4, identity transform, cap 50: pixel (0,0) maps to
    // c = 0 and never escapes, hence is black.
    let t = PlaneTransform::new();
    assert_eq!(calculate_pixel(0, 0, &t, Some(50)), black());
    // A pixel whose transformed c is 2 + 2i escapes within 2 iterations,
    // so its colour is not black.
    let c = (Fixed::from_int(2), Fixed::from_int(2));
    let (iters, escaped) = escape_time(origin(), c, threshold(), 50);
    assert!(escaped && iters <= 2);
    let coloured = calculate_pixel(2, 2, &t, Some(50));
    assert_ne!(coloured, black());
}

#[test]
fn default_cap_is_one_hundred() {
    let t = PlaneTransform::new();
    for x in 0..3u32 {
        assert_eq!(calculate_pixel(x, 1, &t, None), calculate_pixel(x, 1, &t, Some(100)));
    }
}

#[test]
fn julia_far_pixel_escapes_at_once() {
    // With the identity transform, pixel (1000, 1000) starts far outside
    // the escape radius: zero iterations, mapped to hue 0 (pure red).
    let t = PlaneTransform::new();
    let c = julia::calculate_pixel(1000, 1000, &t, Some(50));
    assert_eq!(c, Colour { r: 255, g: 0, b: 0 });
}

#[test]
fn julia_differs_from_mandelbrot() {
    // The two kernels swap the roles of z0 and c, so some pixel colours
    // differ under the same request.
    let t = PlaneTransform::new();
    let mut differs = false;
    for x in 0..4u32 {
        for y in 0..4u32 {
            if calculate_pixel(x, y, &t, Some(30)) != julia::calculate_pixel(x, y, &t, Some(30)) {
                differs = true;
            }
        }
    }
    assert!(differs);
}
