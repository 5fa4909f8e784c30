use css_core::color::ColorU;
use css_core::units::FloatValue;

#[test]
fn interpolate_midpoint_rounds_half_away_from_zero() {
    // Channel midpoint 127.5 rounds away from zero to 128.
    let black = ColorU::black();
    let white = ColorU::white();
    let half = FloatValue::from_scaled(500);
    let mid = black.interpolate(&white, &half);
    assert_eq!(mid, ColorU { r: 128, g: 128, b: 128, a: 255 });
}

#[test]
fn interpolate_with_itself_is_identity() {
    let colors = [
        ColorU::black(),
        ColorU::white(),
        ColorU { r: 13, g: 200, b: 77, a: 3 },
    ];
    let factors = [
        FloatValue(0),
        FloatValue::from_scaled(250),
        FloatValue::from_scaled(1000),
        FloatValue::from_scaled(-500),
        FloatValue::from_scaled(2000),
    ];
    for c in colors.iter() {
        for t in factors.iter() {
            assert_eq!(c.interpolate(c, t), *c);
        }
    }
}

#[test]
fn interpolate_endpoints() {
    let a = ColorU { r: 10, g: 20, b: 30, a: 40 };
    let b = ColorU { r: 50, g: 60, b: 70, a: 80 };
    assert_eq!(a.interpolate(&b, &FloatValue(0)), a);
    assert_eq!(a.interpolate(&b, &FloatValue(1000)), b);
}

#[test]
fn interpolate_clamps_outside_range() {
    // Extrapolating past the end saturates at the channel bounds.
    let a = ColorU { r: 0, g: 200, b: 0, a: 255 };
    let b = ColorU { r: 255, g: 255, b: 0, a: 255 };
    let t = FloatValue::from_scaled(2000);
    let r = a.interpolate(&b, &t);
    assert_eq!(r.r, 255);
    assert_eq!(r.g, 255);
}

#[test]
fn to_hash_is_lowercase_rrggbbaa() {
    assert_eq!(
        ColorU { r: 255, g: 0, b: 128, a: 255 }.to_hash(),
        "#ff0080ff"
    );
    assert_eq!(ColorU::black().to_hash(), "#000000ff");
    assert_eq!(
        ColorU { r: 0x12, g: 0xab, b: 0xcd, a: 0x00 }.to_hash(),
        "#12abcd00"
    );
}

#[test]
fn alpha_and_constructors() {
    assert!(!ColorU::black().has_alpha());
    assert!(ColorU::transparent().has_alpha());
    assert!(ColorU { r: 0, g: 0, b: 0, a: 254 }.has_alpha());
    assert_eq!(ColorU::new_rgb(1, 2, 3), ColorU { r: 1, g: 2, b: 3, a: 255 });
    assert_eq!(ColorU::red(), ColorU { r: 255, g: 0, b: 0, a: 255 });
    assert_eq!(ColorU::green(), ColorU { r: 0, g: 255, b: 0, a: 255 });
    assert_eq!(ColorU::blue(), ColorU { r: 0, g: 0, b: 255, a: 255 });
    assert_eq!(ColorU::default(), ColorU::black());
}
