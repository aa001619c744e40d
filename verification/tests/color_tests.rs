//! The canonical HSL to RGBA conversion on exact fixed-point values.

use platformer_core::components::Rgba;

#[test]
fn red_hue_at_spawn_saturation_and_lightness() {
    // h = 0, s = 0.8, l = 0.6: chroma 0.64, offset 0.28.
    let c = Rgba::from_hsl(0, 800, 600);
    assert_eq!(c, Rgba { r: 920, g: 280, b: 280, a: 1000 });
}

#[test]
fn green_hue_at_spawn_saturation_and_lightness() {
    let c = Rgba::from_hsl(120_000, 800, 600);
    assert_eq!(c, Rgba { r: 280, g: 920, b: 280, a: 1000 });
}

#[test]
fn blue_hue_at_spawn_saturation_and_lightness() {
    let c = Rgba::from_hsl(240_000, 800, 600);
    assert_eq!(c, Rgba { r: 280, g: 280, b: 920, a: 1000 });
}

#[test]
fn mid_sextant_hue_uses_the_secondary_component() {
    // h = 90 degrees: the hue offset is halfway, so the secondary
    // component is half the chroma: x = 0.32.
    let c = Rgba::from_hsl(90_000, 800, 600);
    assert_eq!(c, Rgba { r: 600, g: 920, b: 280, a: 1000 });
}

#[test]
fn zero_saturation_is_grey() {
    let c = Rgba::from_hsl(123_456, 0, 600);
    assert_eq!(c, Rgba { r: 600, g: 600, b: 600, a: 1000 });
}

#[test]
fn full_lightness_is_white() {
    let c = Rgba::from_hsl(300_000, 800, 1000);
    assert_eq!(c, Rgba { r: 1000, g: 1000, b: 1000, a: 1000 });
}

#[test]
fn channels_never_exceed_full_intensity() {
    let mut h: u32 = 0;
    while h < 360_000 {
        let c = Rgba::from_hsl(h, 800, 600);
        assert!(c.r <= 1000 && c.g <= 1000 && c.b <= 1000);
        assert_eq!(c.a, 1000);
        h += 7_919;
    }
}

#[test]
fn new_keeps_its_channels() {
    let c = Rgba::new(1, 2, 3, 4);
    assert_eq!((c.r, c.g, c.b, c.a), (1, 2, 3, 4));
}
