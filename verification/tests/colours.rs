use fractals::colouring::{
    map_to_colour, map_to_colour_loop, map_to_purple, map_with_palette, normalised_iter_count,
    Colour, Palette,
};
use fractals::RenderError;

#[test]
fn cap_maps_to_black() {
    assert_eq!(map_to_colour(50, 50), Colour { r: 0, g: 0, b: 0 });
    assert_eq!(map_to_colour(0, 0), Colour { r: 0, g: 0, b: 0 });
}

#[test]
fn zero_iterations_map_to_red() {
    // hue 0: full red.
    assert_eq!(map_to_colour(0, 100), Colour { r: 255, g: 0, b: 0 });
}

#[test]
fn quarter_iterations_map_into_second_sector() {
    // 25 of 100: hue 90, so red ramps down: (60 - 30) * 255 / 60 = 127.
    assert_eq!(map_to_colour(25, 100), Colour { r: 127, g: 255, b: 0 });
}

#[test]
fn half_iterations_map_to_cyan() {
    // 50 of 100: hue 180: (0, 255, 255).
    assert_eq!(map_to_colour(50, 100), Colour { r: 0, g: 255, b: 255 });
}

#[test]
fn colour_loop_wraps_the_count() {
    assert_eq!(map_to_colour_loop(150, 100), map_to_colour(50, 100));
    assert_eq!(map_to_colour_loop(100, 100), map_to_colour(0, 100));
}

#[test]
fn purple_ramp_is_proportional() {
    assert_eq!(map_to_purple(100, 100), Colour { r: 0, g: 0, b: 0 });
    assert_eq!(map_to_purple(50, 100), Colour { r: 127, g: 0, b: 127 });
    assert_eq!(map_to_purple(0, 100), Colour { r: 0, g: 0, b: 0 });
}

#[test]
fn smooth_colouring_is_not_supported() {
    assert_eq!(normalised_iter_count(10, 100), Err(RenderError::NotSupported));
}

#[test]
fn palettes_select_their_mapping() {
    assert_eq!(map_with_palette(Palette::HueCycle, 25, 100), map_to_colour(25, 100));
    assert_eq!(map_with_palette(Palette::MagentaRamp, 25, 100), map_to_purple(25, 100));
    assert_ne!(
        map_with_palette(Palette::HueCycle, 25, 100),
        map_with_palette(Palette::MagentaRamp, 25, 100),
    );
}
