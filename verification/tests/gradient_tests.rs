use css_core::color::ColorU;
use css_core::geometry::{LayoutPoint, LayoutRect, LayoutSize};
use css_core::gradient::{
    Direction, DirectionCorner, ExtendMode, LinearColorStop, RadialColorStop,
};
use css_core::gradient::DirectionCorner::{
    Bottom, BottomLeft, BottomRight, Left, Right, Top, TopLeft, TopRight,
};
use css_core::units::{AngleMetric, AngleValue, FloatValue, PercentageValue};

fn lin(offset_scaled: Option<i64>, c: u8) -> LinearColorStop {
    LinearColorStop {
        offset: offset_scaled.map(PercentageValue::from_scaled),
        color: ColorU::new_rgb(c, c, c),
    }
}

fn offsets(stops: &[LinearColorStop]) -> Vec<i64> {
    LinearColorStop::to_normalized(stops)
        .iter()
        .map(|s| s.offset.get_scaled())
        .collect()
}

#[test]
fn normalize_empty_is_empty() {
    assert!(LinearColorStop::to_normalized(&[]).is_empty());
}

#[test]
fn normalize_keeps_length_order_and_explicit_offsets() {
    let stops = [lin(Some(40_000), 1), lin(Some(10_000), 2), lin(Some(90_000), 3)];
    let normalized = LinearColorStop::to_normalized(&stops);
    assert_eq!(normalized.len(), 3);
    // Explicit offsets are returned unchanged, even though they are not
    // monotonic, and the colors stay in input order.
    assert_eq!(
        normalized.iter().map(|s| s.offset.get_scaled()).collect::<Vec<_>>(),
        vec![40_000, 10_000, 90_000]
    );
    assert_eq!(
        normalized.iter().map(|s| s.color).collect::<Vec<_>>(),
        stops.iter().map(|s| s.color).collect::<Vec<_>>()
    );
}

#[test]
fn normalize_two_implicit_stops_duplicate_boundary() {
    // A run of exactly two implicit stops bounded by explicit offsets 0 and
    // 30 takes [0, 30]: the last generated value coincides with the
    // following explicit stop's offset. This duplicate boundary is what the
    // even-spacing formula yields and is kept deliberately.
    let stops = [lin(Some(0), 0), lin(None, 1), lin(None, 2), lin(Some(30_000), 3)];
    assert_eq!(offsets(&stops), vec![0, 0, 30_000, 30_000]);
}

#[test]
fn normalize_single_implicit_stop_takes_run_lower_boundary() {
    // A run of exactly one implicit stop would divide by zero in the
    // even-spacing formula; the documented policy gives it the run's lower
    // boundary offset instead of an undefined value.
    let stops = [lin(Some(10_000), 0), lin(None, 1), lin(Some(30_000), 2)];
    assert_eq!(offsets(&stops), vec![10_000, 10_000, 30_000]);
    // The same policy at the very front of the list: the lower bound is 0.
    let stops2 = [lin(None, 0), lin(Some(20_000), 1)];
    assert_eq!(offsets(&stops2), vec![0, 20_000]);
}

#[test]
fn normalize_leading_and_trailing_runs() {
    // A leading run distributes from the domain's lower bound 0.
    let stops = [lin(None, 0), lin(None, 1), lin(Some(30_000), 2)];
    assert_eq!(offsets(&stops), vec![0, 30_000, 30_000]);
    // A trailing run distributes up to the domain's upper bound 100%.
    let stops2 = [lin(Some(40_000), 0), lin(None, 1), lin(None, 2)];
    assert_eq!(offsets(&stops2), vec![40_000, 40_000, 100_000]);
}

#[test]
fn normalize_all_implicit_spreads_over_whole_domain() {
    let stops = [lin(None, 0), lin(None, 1), lin(None, 2)];
    assert_eq!(offsets(&stops), vec![0, 50_000, 100_000]);
}

#[test]
fn normalize_radial_keeps_explicit_angles_and_fills_runs() {
    let stops = [
        RadialColorStop {
            offset: Some(AngleValue::const_turn(1)),
            color: ColorU::new_rgb(1, 1, 1),
        },
        RadialColorStop { offset: None, color: ColorU::new_rgb(2, 2, 2) },
        RadialColorStop {
            offset: Some(AngleValue::const_deg(180)),
            color: ColorU::new_rgb(3, 3, 3),
        },
    ];
    let normalized = RadialColorStop::to_normalized(&stops);
    assert_eq!(normalized.len(), 3);
    // The explicit one-turn angle is kept exactly as written, turn metric
    // included.
    assert_eq!(normalized[0].angle, AngleValue::const_turn(1));
    // The single implicit stop takes the run's lower boundary: one turn
    // normalizes to 0 degrees.
    assert_eq!(
        normalized[1].angle,
        AngleValue { metric: AngleMetric::Degree, number: FloatValue(0) }
    );
    assert_eq!(normalized[2].angle, AngleValue::const_deg(180));
}

#[test]
fn normalize_radial_trailing_run_uses_360_upper_bound() {
    let stops = [
        RadialColorStop {
            offset: Some(AngleValue::const_deg(90)),
            color: ColorU::new_rgb(1, 1, 1),
        },
        RadialColorStop { offset: None, color: ColorU::new_rgb(2, 2, 2) },
        RadialColorStop { offset: None, color: ColorU::new_rgb(3, 3, 3) },
    ];
    let normalized = RadialColorStop::to_normalized(&stops);
    // Distributed between 90deg and the 360deg upper bound.
    assert_eq!(
        normalized[1].angle,
        AngleValue { metric: AngleMetric::Degree, number: FloatValue(90_000) }
    );
    assert_eq!(
        normalized[2].angle,
        AngleValue { metric: AngleMetric::Degree, number: FloatValue(360_000) }
    );
}

fn rect(w: i64, h: i64) -> LayoutRect {
    LayoutRect { origin: LayoutPoint { x: 0, y: 0 }, size: LayoutSize { width: w, height: h } }
}

#[test]
fn from_to_top_bottom_yields_side_midpoints() {
    let d = Direction::FromTo(DirectionCorner::Top, DirectionCorner::Bottom);
    let (start, end) = d.to_points(&rect(100, 200));
    assert_eq!(start, LayoutPoint { x: 50, y: 0 });
    assert_eq!(end, LayoutPoint { x: 50, y: 200 });
}

#[test]
fn corner_points() {
    let r = rect(100, 200);
    assert_eq!(DirectionCorner::TopLeft.to_point(&r), LayoutPoint { x: 0, y: 0 });
    assert_eq!(DirectionCorner::BottomRight.to_point(&r), LayoutPoint { x: 100, y: 200 });
    assert_eq!(DirectionCorner::Left.to_point(&r), LayoutPoint { x: 0, y: 100 });
    assert_eq!(DirectionCorner::Right.to_point(&r), LayoutPoint { x: 100, y: 100 });
    assert_eq!(DirectionCorner::Bottom.to_point(&r), LayoutPoint { x: 50, y: 200 });
    assert_eq!(DirectionCorner::TopRight.to_point(&r), LayoutPoint { x: 100, y: 0 });
    assert_eq!(DirectionCorner::BottomLeft.to_point(&r), LayoutPoint { x: 0, y: 200 });
}

#[test]
fn corner_points_of_degenerate_rectangle() {
    // A rectangle with negative sides still resolves: halving truncates
    // toward zero, as integer division does.
    let r = rect(-7, -5);
    assert_eq!(DirectionCorner::Right.to_point(&r), LayoutPoint { x: -7, y: -2 });
    assert_eq!(DirectionCorner::Top.to_point(&r), LayoutPoint { x: -3, y: 0 });
    assert_eq!(DirectionCorner::BottomRight.to_point(&r), LayoutPoint { x: -7, y: -5 });
}

#[test]
fn corner_opposite_and_combine() {
    assert_eq!(Top.opposite(), Bottom);
    assert_eq!(TopLeft.opposite(), BottomRight);
    assert_eq!(Top.combine(&Right), Some(TopRight));
    assert_eq!(Right.combine(&Top), Some(TopRight));
    assert_eq!(Bottom.combine(&Left), Some(BottomLeft));
    assert_eq!(Top.combine(&Bottom), None);
    assert_eq!(TopLeft.combine(&Top), None);
}

#[test]
fn corner_texts() {
    assert_eq!(Top.to_str(), "top");
    assert_eq!(BottomLeft.to_str(), "bottom left");
    assert_eq!(TopRight.to_str(), "top right");
}

#[test]
fn direction_and_extend_mode_defaults() {
    assert_eq!(
        Direction::default(),
        Direction::FromTo(DirectionCorner::Top, DirectionCorner::Bottom)
    );
    assert_eq!(ExtendMode::default(), ExtendMode::Clamp);
}
