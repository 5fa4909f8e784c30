use css_core::color::ColorU;
use css_core::property::{
    BorderStyle, BoxShadowClipMode, CombinedPropertyType, LayoutAxis, LayoutDisplay,
    LayoutFlexDirection, LayoutOverflow, LayoutPosition, LayoutWidth, Property, ScrollbarInfo,
    StyleCursor, StyleMixBlendMode, StyleOpacity, StyleTextColor, StyleTransformOrigin,
};
use css_core::units::{FloatValue, PercentageValue, PixelValue, SizeMetric};
use css_core::value::Value;

fn width_prop() -> Property {
    Property::Width(Value::Exact(LayoutWidth(PixelValue::const_px(10))))
}

fn color_prop() -> Property {
    Property::TextColor(Value::Exact(StyleTextColor(ColorU::black())))
}

#[test]
fn inheritable_properties() {
    assert!(color_prop().is_inheritable());
    assert!(Property::FontSize(Value::Auto).is_inheritable());
    assert!(Property::FontFamily(Value::Auto).is_inheritable());
    assert!(Property::LineHeight(Value::Auto).is_inheritable());
    assert!(Property::TextAlign(Value::Auto).is_inheritable());
    assert!(!width_prop().is_inheritable());
    assert!(!Property::Opacity(Value::Auto).is_inheritable());
}

#[test]
fn relayout_properties() {
    // Sizing and spacing re-measure; purely visual properties only repaint.
    assert!(width_prop().can_relayout());
    assert!(Property::MarginTop(Value::Auto).can_relayout());
    assert!(Property::FontSize(Value::Auto).can_relayout());
    assert!(Property::BorderTopWidth(Value::Auto).can_relayout());
    assert!(!color_prop().can_relayout());
    assert!(!Property::Opacity(Value::Auto).can_relayout());
    assert!(!Property::Transform(Value::Auto).can_relayout());
    assert!(!Property::BorderTopColor(Value::Auto).can_relayout());
    assert!(!Property::BoxShadowLeft(Value::Auto).can_relayout());
    assert!(!Property::Cursor(Value::Auto).can_relayout());
    assert!(!Property::TextShadow(Value::Auto).can_relayout());
}

#[test]
fn gpu_properties() {
    assert!(Property::Opacity(Value::Exact(StyleOpacity(PercentageValue::const_new(50))))
        .is_gpu_property());
    assert!(Property::Transform(Value::Auto).is_gpu_property());
    assert!(!width_prop().is_gpu_property());
    assert!(!color_prop().is_gpu_property());
}

#[test]
fn combined_property_type_from_str() {
    assert_eq!(
        CombinedPropertyType::from_str("border-radius"),
        Some(CombinedPropertyType::BorderRadius)
    );
    // Surrounding whitespace is ignored.
    assert_eq!(
        CombinedPropertyType::from_str("  margin\t"),
        Some(CombinedPropertyType::Margin)
    );
    assert_eq!(
        CombinedPropertyType::from_str("background-color"),
        Some(CombinedPropertyType::BackgroundColor)
    );
    assert_eq!(CombinedPropertyType::from_str("width"), None);
    assert_eq!(CombinedPropertyType::from_str(""), None);
}

#[test]
fn combined_property_type_round_trip() {
    let all = [
        CombinedPropertyType::BorderRadius,
        CombinedPropertyType::Overflow,
        CombinedPropertyType::Margin,
        CombinedPropertyType::Border,
        CombinedPropertyType::BorderLeft,
        CombinedPropertyType::BorderRight,
        CombinedPropertyType::BorderTop,
        CombinedPropertyType::BorderBottom,
        CombinedPropertyType::Padding,
        CombinedPropertyType::BoxShadow,
        CombinedPropertyType::BackgroundColor,
        CombinedPropertyType::BackgroundImage,
    ];
    for c in all.iter() {
        assert_eq!(CombinedPropertyType::from_str(c.to_str()), Some(*c));
    }
}

#[test]
fn layout_enum_helpers() {
    assert!(LayoutPosition::Relative.is_positioned());
    assert!(LayoutPosition::Absolute.is_positioned());
    assert!(!LayoutPosition::Static.is_positioned());

    assert_eq!(LayoutFlexDirection::Row.get_axis(), LayoutAxis::Horizontal);
    assert_eq!(LayoutFlexDirection::RowReverse.get_axis(), LayoutAxis::Horizontal);
    assert_eq!(LayoutFlexDirection::Column.get_axis(), LayoutAxis::Vertical);
    assert!(LayoutFlexDirection::RowReverse.is_reverse());
    assert!(LayoutFlexDirection::ColumnReverse.is_reverse());
    assert!(!LayoutFlexDirection::Row.is_reverse());

    assert!(LayoutOverflow::Scroll.needs_scrollbar(false));
    assert!(LayoutOverflow::Auto.needs_scrollbar(true));
    assert!(!LayoutOverflow::Auto.needs_scrollbar(false));
    assert!(!LayoutOverflow::Hidden.needs_scrollbar(true));
    assert!(!LayoutOverflow::Visible.needs_scrollbar(true));
    assert!(LayoutOverflow::Visible.is_overflow_visible());
    assert!(!LayoutOverflow::Hidden.is_overflow_visible());
    assert!(LayoutOverflow::Hidden.is_overflow_hidden());

    assert!(BorderStyle::Solid.is_normalized());
    assert!(!BorderStyle::NoStyle.is_normalized());
}

#[test]
fn property_defaults() {
    assert_eq!(LayoutDisplay::default(), LayoutDisplay::Flex);
    assert_eq!(LayoutOverflow::default(), LayoutOverflow::Auto);
    assert_eq!(StyleCursor::default(), StyleCursor::Arrow);
    assert_eq!(BorderStyle::default(), BorderStyle::Solid);
    assert_eq!(LayoutPosition::default(), LayoutPosition::Static);
    let origin = StyleTransformOrigin::default();
    assert_eq!(origin.x, PixelValue::const_percent(50));
    assert_eq!(origin.y, PixelValue::const_percent(50));
    let bar = ScrollbarInfo::default();
    assert_eq!(bar.width, LayoutWidth(PixelValue::const_px(17)));
}

#[test]
fn css_keyword_texts() {
    assert_eq!(BorderStyle::NoStyle.to_str(), "none");
    assert_eq!(BorderStyle::Dashed.to_str(), "dashed");
    assert_eq!(StyleMixBlendMode::ColorDodge.to_str(), "color-dodge");
    assert_eq!(StyleMixBlendMode::Normal.to_str(), "normal");
    assert_eq!(BoxShadowClipMode::Inset.to_str(), "inset");
}

#[test]
fn transform_origin_interpolate() {
    let a = StyleTransformOrigin { x: PixelValue::const_px(0), y: PixelValue::const_px(0) };
    let b = StyleTransformOrigin { x: PixelValue::const_px(10), y: PixelValue::const_px(20) };
    let half = FloatValue::from_scaled(500);
    let mid = a.interpolate(&b, &half);
    assert_eq!(mid.x.metric, SizeMetric::Px);
    assert_eq!(mid.x.number, FloatValue(5_000));
    assert_eq!(mid.y.number, FloatValue(10_000));
}

#[test]
fn text_color_interpolate_identity() {
    let c = StyleTextColor(ColorU::new_rgb(9, 8, 7));
    let t = FloatValue::from_scaled(333);
    assert_eq!(c.interpolate(&c, &t), c);
}
