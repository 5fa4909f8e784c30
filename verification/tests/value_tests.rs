use css_core::color::ColorU;
use css_core::property::{StyleFontSize, StyleTextAlign};
use css_core::units::PixelValue;
use css_core::value::Value;

#[test]
fn default_is_exact_of_payload_default() {
    // Default construction yields Exact(default), not Initial.
    let v: Value<ColorU> = Default::default();
    assert_eq!(v, Value::Exact(ColorU::black()));
    let v: Value<StyleTextAlign> = Default::default();
    assert_eq!(v, Value::Exact(StyleTextAlign::Left));
    let v: Value<StyleFontSize> = Default::default();
    assert_eq!(v, Value::Exact(StyleFontSize(PixelValue::const_em(1))));
}

#[test]
fn state_tests() {
    let auto: Value<u32> = Value::Auto;
    assert!(auto.is_auto());
    assert!(!auto.is_none());
    assert!(!auto.is_initial());
    assert!(!auto.is_inherit());
    let none: Value<u32> = Value::NoValue;
    assert!(none.is_none());
    let initial: Value<u32> = Value::Initial;
    assert!(initial.is_initial());
    let inherit: Value<u32> = Value::Inherit;
    assert!(inherit.is_inherit());
    let exact: Value<u32> = Value::Exact(3);
    assert!(!exact.is_auto() && !exact.is_none() && !exact.is_initial() && !exact.is_inherit());
}

#[test]
fn payload_extraction() {
    let exact: Value<u32> = Value::Exact(7);
    assert_eq!(exact.as_property(), Some(&7));
    assert_eq!(exact.to_property(), Some(7));
    let auto: Value<u32> = Value::Auto;
    assert_eq!(auto.as_property(), None);
    assert_eq!(auto.to_property(), None);
}

#[test]
fn to_property_or_default_resolves_keywords() {
    // Auto and Initial resolve to the type's default now; None and Inherit
    // defer to an external pass and stay absent.
    let auto: Value<StyleTextAlign> = Value::Auto;
    assert_eq!(auto.to_property_or_default(), Some(StyleTextAlign::Left));
    let initial: Value<StyleTextAlign> = Value::Initial;
    assert_eq!(initial.to_property_or_default(), Some(StyleTextAlign::Left));
    let exact: Value<StyleTextAlign> = Value::Exact(StyleTextAlign::Right);
    assert_eq!(exact.to_property_or_default(), Some(StyleTextAlign::Right));
    let none: Value<StyleTextAlign> = Value::NoValue;
    assert_eq!(none.to_property_or_default(), None);
    let inherit: Value<StyleTextAlign> = Value::Inherit;
    assert_eq!(inherit.to_property_or_default(), None);
}

#[test]
fn map_property_transforms_only_the_exact_payload() {
    let exact: Value<u32> = Value::Exact(21);
    assert_eq!(exact.map_property(double), Value::Exact(42));
    let auto: Value<u32> = Value::Auto;
    assert_eq!(auto.map_property(double), Value::Auto);
    let inherit: Value<u32> = Value::Inherit;
    assert_eq!(inherit.map_property(double), Value::Inherit);
}

fn double(x: u32) -> u32 {
    x.wrapping_mul(2)
}

#[test]
fn from_wraps_as_exact() {
    assert_eq!(Value::from(9u32), Value::Exact(9u32));
}
