use css_core::units::{
    AngleMetric, AngleValue, FloatValue, PercentageValue, PixelValue, SizeMetric,
};

#[test]
fn float_value_constructors() {
    assert_eq!(FloatValue::const_new(5), FloatValue(5000));
    assert_eq!(FloatValue::const_new(-2), FloatValue(-2000));
    assert_eq!(FloatValue::from_scaled(1500), FloatValue(1500));
    assert_eq!(FloatValue::default(), FloatValue(0));
    assert_eq!(FloatValue(1234).get_scaled(), 1234);
}

#[test]
fn float_value_interpolate_exact() {
    let a = FloatValue::const_new(1);
    let b = FloatValue::const_new(2);
    let half = FloatValue::from_scaled(500);
    assert_eq!(a.interpolate(&b, &half), FloatValue(1500));
    // t = 0 and t = 1 hit the endpoints exactly.
    assert_eq!(a.interpolate(&b, &FloatValue(0)), a);
    assert_eq!(a.interpolate(&b, &FloatValue(1000)), b);
    // Interpolating a value with itself is the identity.
    assert_eq!(a.interpolate(&a, &FloatValue(730)), a);
}

#[test]
fn percentage_value_basics() {
    assert_eq!(PercentageValue::const_new(50).get_scaled(), 50_000);
    assert_eq!(PercentageValue::from_scaled(12_500).get_scaled(), 12_500);
    let a = PercentageValue::const_new(0);
    let b = PercentageValue::const_new(100);
    let half = FloatValue::from_scaled(500);
    assert_eq!(a.interpolate(&b, &half).get_scaled(), 50_000);
}

#[test]
fn pixel_value_to_pixels() {
    let zero = FloatValue(0);
    // 10pt = 10 * 96 / 72 = 13.333... px, truncated in scaled form.
    assert_eq!(PixelValue::const_pt(10).to_pixels(&zero), FloatValue(13_333));
    // 2em = 32px exactly.
    assert_eq!(PixelValue::const_em(2).to_pixels(&zero), FloatValue(32_000));
    // 50% of a 200px basis = 100px.
    let basis = FloatValue::const_new(200);
    assert_eq!(PixelValue::const_percent(50).to_pixels(&basis), FloatValue(100_000));
    // Plain pixels pass through.
    assert_eq!(PixelValue::const_px(7).to_pixels(&basis), FloatValue(7_000));
}

#[test]
fn pixel_value_interpolate_same_metric() {
    let a = PixelValue::const_px(0);
    let b = PixelValue::const_px(10);
    let half = FloatValue::from_scaled(500);
    let r = a.interpolate(&b, &half);
    assert_eq!(r.metric, SizeMetric::Px);
    assert_eq!(r.number, FloatValue(5_000));
}

#[test]
fn pixel_value_interpolate_cross_metric_falls_back_to_px() {
    // Between 10px and 2em: the em side resolves to 32px, and the result
    // is re-wrapped as pixels.
    let a = PixelValue::const_px(10);
    let b = PixelValue::const_em(2);
    let half = FloatValue::from_scaled(500);
    let r = a.interpolate(&b, &half);
    assert_eq!(r.metric, SizeMetric::Px);
    assert_eq!(r.number, FloatValue(21_000));
    // A percentage resolves against a basis of zero in this fallback.
    let c = PixelValue::const_percent(50);
    let r2 = a.interpolate(&c, &FloatValue(1000));
    assert_eq!(r2.metric, SizeMetric::Px);
    assert_eq!(r2.number, FloatValue(0));
}

#[test]
fn angle_to_degrees_normalizes() {
    // 410deg wraps to 50deg.
    assert_eq!(AngleValue::const_deg(410).to_degrees(), FloatValue(50_000));
    // -90deg wraps to 270deg.
    assert_eq!(AngleValue::const_deg(-90).to_degrees(), FloatValue(270_000));
    // One full turn is zero.
    assert_eq!(AngleValue::const_turn(1).to_degrees(), FloatValue(0));
    // 50% of a turn is 180deg.
    assert_eq!(AngleValue::const_percent(50).to_degrees(), FloatValue(180_000));
    // 2 radians is about 114.591 degrees; 100 gradians is a right angle.
    assert_eq!(AngleValue::const_rad(2).to_degrees(), FloatValue(114_591));
    assert_eq!(AngleValue::const_grad(100).to_degrees(), FloatValue(90_000));
}

#[test]
fn angle_interpolate() {
    let a = AngleValue::const_deg(0);
    let b = AngleValue::const_deg(90);
    let half = FloatValue::from_scaled(500);
    let mid = a.interpolate(&b, &half);
    assert_eq!(mid.metric, AngleMetric::Degree);
    assert_eq!(mid.number, FloatValue(45_000));
    // Cross-metric operands are each resolved to degrees first: half a
    // turn is 180deg, so the midpoint of 0deg and 0.5turn is 90deg.
    let c = AngleValue::const_turn(1).interpolate(&AngleValue::const_deg(0), &half);
    assert_eq!(c.metric, AngleMetric::Degree);
    assert_eq!(c.number, FloatValue(0));
    let d = a.interpolate(&AngleValue::from_scaled(AngleMetric::Turn, 500), &half);
    assert_eq!(d.number, FloatValue(90_000));
}

#[test]
fn angle_constructors() {
    assert_eq!(AngleValue::zero(), AngleValue::const_deg(0));
    let a = AngleValue::const_from_metric(AngleMetric::Turn, 2);
    assert_eq!(a.metric, AngleMetric::Turn);
    assert_eq!(a.number, FloatValue(2_000));
    assert_eq!(AngleMetric::default(), AngleMetric::Degree);
    assert_eq!(SizeMetric::default(), SizeMetric::Px);
}

#[test]
fn metric_suffixes() {
    assert_eq!(AngleMetric::Degree.to_str(), "deg");
    assert_eq!(AngleMetric::Radians.to_str(), "rad");
    assert_eq!(AngleMetric::Grad.to_str(), "grad");
    assert_eq!(AngleMetric::Turn.to_str(), "turn");
    assert_eq!(AngleMetric::Percent.to_str(), "%");
    assert_eq!(SizeMetric::Px.to_str(), "px");
    assert_eq!(SizeMetric::Pt.to_str(), "pt");
    // Em lengths print with the point suffix, a long-standing quirk that
    // is kept for compatibility.
    assert_eq!(SizeMetric::Em.to_str(), "pt");
    assert_eq!(SizeMetric::Percent.to_str(), "%");
}

#[test]
fn pixel_value_zero_and_metric_constructors() {
    assert_eq!(PixelValue::zero(), PixelValue::const_px(0));
    let v = PixelValue::const_from_metric(SizeMetric::Percent, 50);
    assert_eq!(v.metric, SizeMetric::Percent);
    assert_eq!(v.number, FloatValue(50_000));
}
