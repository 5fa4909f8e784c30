//! Fixed-precision scalar values and metric-tagged measurements.

use vstd::prelude::*;

verus! {

/// Scale factor between a stored integer and the quantity it denotes:
/// a stored value of 1000 means 1.0.
pub const FP_SCALE: i64 = 1000;

/// Largest magnitude a stored (already scaled) value may take. Keeping
/// every stored value inside this range lets every blend and unit
/// conversion be computed exactly in 128-bit intermediates.
pub const MAX_SCALED: i64 = 4_000_000_000_000_000;

/// Clamp a mathematical result into the representable range of stored values.
pub open spec fn sat_scaled(x: int) -> int {
    if x > MAX_SCALED as int {
        MAX_SCALED as int
    } else if x < -(MAX_SCALED as int) {
        -(MAX_SCALED as int)
    } else {
        x
    }
}

/// Division rounding toward zero, for a positive divisor.
pub open spec fn div_trunc(a: int, b: int) -> int
    recommends
        b > 0,
{
    if a >= 0 {
        a / b
    } else {
        -((-a) / b)
    }
}

/// The scaled result of the linear blend `a + (b - a) * t` of scaled
/// quantities, with `t` scaled by 1000: the exact blend, requantized with
/// truncation toward zero, saturated into the representable range.
pub open spec fn spec_interpolate(a: int, b: int, t: int) -> int {
    sat_scaled(a + div_trunc((b - a) * t, FP_SCALE as int))
}

/// Wrapper around a fractional quantity stored as an integer scaled by
/// [`FP_SCALE`], in order to provide deterministic equality, ordering and
/// hashing (the precision CSS needs is about three decimal digits).
#[derive(Debug, Copy, Clone, PartialEq, Eq, PartialOrd, Ord, Hash, Structural)]
pub struct FloatValue(pub i64);

impl FloatValue {
    /// A stored value inside the representable range.
    pub open spec fn wf(self) -> bool {
        -MAX_SCALED <= self.0 <= MAX_SCALED
    }

    /// Builds the value `value` (a whole number of units).
    pub fn const_new(value: i64) -> (r: Self)
        ensures
            r.0 == sat_scaled(value * FP_SCALE),
            r.wf(),
    {
        Self(sat_i128(value as i128 * FP_SCALE as i128))
    }

    /// Builds a value directly from its scaled representation,
    /// so `from_scaled(1500)` denotes 1.5.
    pub fn from_scaled(scaled: i64) -> (r: Self)
        ensures
            r.0 == sat_scaled(scaled as int),
            r.wf(),
    {
        Self(sat_i128(scaled as i128))
    }

    /// The scaled representation itself.
    pub fn get_scaled(&self) -> (r: i64)
        ensures
            r == self.0,
    {
        self.0
    }

    /// Linear blend `self + (other - self) * t`, where `t` is itself a
    /// fixed-precision factor (1000 denotes 1.0). The requantization of the
    /// exact blend truncates toward zero; a result beyond the representable
    /// range saturates.
    pub fn interpolate(&self, other: &Self, t: &Self) -> (r: Self)
        requires
            self.wf(),
            other.wf(),
            t.wf(),
        ensures
            r.0 == spec_interpolate(self.0 as int, other.0 as int, t.0 as int),
            r.wf(),
    {
        let diff: i128 = other.0 as i128 - self.0 as i128;
        proof {
            lemma_mul_bound(diff as int, t.0 as int, 2 * MAX_SCALED as int, MAX_SCALED as int);
        }
        let num: i128 = diff * t.0 as i128;
        let blended: i128 = self.0 as i128 + div_trunc_i128(num, FP_SCALE as i128);
        Self(sat_i128(blended))
    }
}

impl Default for FloatValue {
    /// The zero quantity.
    fn default() -> (r: Self)
        ensures
            r == FloatValue(0i64),
    {
        FloatValue(0)
    }
}

/// A product of bounded factors is bounded by the product of the bounds.
pub proof fn lemma_mul_bound(a: int, b: int, ba: int, bb: int)
    requires
        -ba <= a <= ba,
        -bb <= b <= bb,
        0 <= ba,
        0 <= bb,
    ensures
        -(ba * bb) <= a * b <= ba * bb,
{
    assert(-(ba * bb) <= a * b <= ba * bb) by (nonlinear_arith)
        requires
            -ba <= a <= ba,
            -bb <= b <= bb,
            0 <= ba,
            0 <= bb,
    ;
}

/// Saturate a 128-bit intermediate into the representable stored range.
pub(crate) fn sat_i128(x: i128) -> (r: i64)
    ensures
        r == sat_scaled(x as int),
{
    if x > MAX_SCALED as i128 {
        MAX_SCALED
    } else if x < -(MAX_SCALED as i128) {
        -MAX_SCALED
    } else {
        x as i64
    }
}

/// Division of a bounded 128-bit value by a positive divisor, rounding
/// toward zero.
pub(crate) fn div_trunc_i128(a: i128, b: i128) -> (r: i128)
    requires
        b > 0,
        -(i128::MAX as int) <= a,
    ensures
        r == div_trunc(a as int, b as int),
{
    if a >= 0 {
        a / b
    } else {
        -((-a) / b)
    }
}

/// Wrapper around [`FloatValue`] that represents a percentage instead of a
/// plain number, so a stored 5000 means `5%`.
#[derive(Default, Debug, Copy, Clone, PartialEq, Eq, PartialOrd, Ord, Hash, Structural)]
pub struct PercentageValue(FloatValue);

impl PercentageValue {
    pub open spec fn wf(self) -> bool {
        -MAX_SCALED <= self.spec_scaled() <= MAX_SCALED
    }

    /// The scaled representation of the percentage (1000 means 1%).
    pub closed spec fn spec_scaled(self) -> int {
        self.0.0 as int
    }

    /// Two percentages are the same value exactly when their scaled
    /// representations agree.
    pub proof fn lemma_scaled_injective(a: Self, b: Self)
        ensures
            (a == b) <==> (a.spec_scaled() == b.spec_scaled()),
    {
    }

    /// Builds the percentage `value` (a whole number of percent).
    pub fn const_new(value: i64) -> (r: Self)
        ensures
            r.spec_scaled() == sat_scaled(value * FP_SCALE),
            r.wf(),
    {
        Self(FloatValue::const_new(value))
    }

    /// Builds a percentage from its scaled representation.
    pub fn from_scaled(scaled: i64) -> (r: Self)
        ensures
            r.spec_scaled() == sat_scaled(scaled as int),
            r.wf(),
    {
        Self(FloatValue::from_scaled(scaled))
    }

    /// The scaled representation itself.
    pub fn get_scaled(&self) -> (r: i64)
        ensures
            r == self.spec_scaled(),
    {
        self.0.get_scaled()
    }

    /// Linear blend of two percentages; see [`FloatValue::interpolate`].
    pub fn interpolate(&self, other: &Self, t: &FloatValue) -> (r: Self)
        requires
            self.wf(),
            other.wf(),
            t.wf(),
        ensures
            r.spec_scaled() == spec_interpolate(self.spec_scaled(), other.spec_scaled(), t.0 as int),
            r.wf(),
    {
        Self(self.0.interpolate(&other.0, t))
    }
}

/// The unit an angle quantity is expressed in.
#[derive(Debug, Copy, Clone, PartialEq, Eq, PartialOrd, Ord, Hash, Structural)]
pub enum AngleMetric {
    Degree,
    Radians,
    Grad,
    Turn,
    Percent,
}

impl Default for AngleMetric {
    fn default() -> (r: AngleMetric)
        ensures
            r == AngleMetric::Degree,
    {
        AngleMetric::Degree
    }
}

/// The suffix an angle unit prints with.
pub open spec fn spec_angle_metric_str(m: AngleMetric) -> Seq<char> {
    match m {
        AngleMetric::Degree => "deg"@,
        AngleMetric::Radians => "rad"@,
        AngleMetric::Grad => "grad"@,
        AngleMetric::Turn => "turn"@,
        AngleMetric::Percent => "%"@,
    }
}

impl AngleMetric {
    /// The unit suffix, as it appears in CSS text.
    pub fn to_str(&self) -> (r: &'static str)
        ensures
            r@ == spec_angle_metric_str(*self),
    {
        match self {
            AngleMetric::Degree => "deg",
            AngleMetric::Radians => "rad",
            AngleMetric::Grad => "grad",
            AngleMetric::Turn => "turn",
            AngleMetric::Percent => "%",
        }
    }
}

/// One full turn, in scaled degrees.
pub const FULL_TURN_SCALED: i64 = 360_000;

/// Conversion of an angle quantity to scaled degrees, before normalization:
/// degrees are kept, turns multiply by 360, percent is a fraction of a full
/// turn, radians multiply by 360 over one full circumference and gradians
/// by 360/400, each applied as an exact rational with truncation toward
/// zero.
pub open spec fn spec_to_degrees_raw(metric: AngleMetric, scaled: int) -> int {
    match metric {
        AngleMetric::Degree => scaled,
        AngleMetric::Radians => div_trunc(scaled * 57_295_779_513, 1_000_000_000),
        AngleMetric::Grad => div_trunc(scaled * 360, 400),
        AngleMetric::Turn => scaled * 360,
        AngleMetric::Percent => div_trunc(scaled * 36, 10),
    }
}

/// Conversion of an angle quantity to scaled degrees in `[0, 360)`,
/// so that for example 410 degrees become 50 degrees.
pub open spec fn spec_to_degrees(metric: AngleMetric, scaled: int) -> int {
    spec_to_degrees_raw(metric, scaled) % (FULL_TURN_SCALED as int)
}

/// A [`FloatValue`] tagged with an angle unit.
#[derive(Debug, Default, Copy, Clone, PartialEq, Eq, PartialOrd, Ord, Hash, Structural)]
pub struct AngleValue {
    pub metric: AngleMetric,
    pub number: FloatValue,
}

impl AngleValue {
    pub open spec fn wf(self) -> bool {
        self.number.wf()
    }

    /// The zero angle.
    pub fn zero() -> (r: Self)
        ensures
            r == (AngleValue { metric: AngleMetric::Degree, number: FloatValue(0i64) }),
    {
        Self { metric: AngleMetric::Degree, number: FloatValue(0) }
    }

    /// Builds an angle of `value` degrees (a whole number).
    pub fn const_deg(value: i64) -> (r: Self)
        ensures
            r == Self::spec_const_from_metric(AngleMetric::Degree, value as int),
            r.wf(),
    {
        Self::const_from_metric(AngleMetric::Degree, value)
    }

    /// Builds an angle of `value` radians (a whole number).
    pub fn const_rad(value: i64) -> (r: Self)
        ensures
            r == Self::spec_const_from_metric(AngleMetric::Radians, value as int),
            r.wf(),
    {
        Self::const_from_metric(AngleMetric::Radians, value)
    }

    /// Builds an angle of `value` gradians (a whole number).
    pub fn const_grad(value: i64) -> (r: Self)
        ensures
            r == Self::spec_const_from_metric(AngleMetric::Grad, value as int),
            r.wf(),
    {
        Self::const_from_metric(AngleMetric::Grad, value)
    }

    /// Builds an angle of `value` turns (a whole number).
    pub fn const_turn(value: i64) -> (r: Self)
        ensures
            r == Self::spec_const_from_metric(AngleMetric::Turn, value as int),
            r.wf(),
    {
        Self::const_from_metric(AngleMetric::Turn, value)
    }

    /// Builds an angle of `value` percent of a full turn (a whole number).
    pub fn const_percent(value: i64) -> (r: Self)
        ensures
            r == Self::spec_const_from_metric(AngleMetric::Percent, value as int),
            r.wf(),
    {
        Self::const_from_metric(AngleMetric::Percent, value)
    }

    /// The angle a whole-number constructor yields.
    pub open spec fn spec_const_from_metric(metric: AngleMetric, value: int) -> AngleValue {
        AngleValue { metric, number: FloatValue(sat_scaled(value * FP_SCALE) as i64) }
    }

    /// Builds an angle of `value` whole units of the given metric.
    pub fn const_from_metric(metric: AngleMetric, value: i64) -> (r: Self)
        ensures
            r == Self::spec_const_from_metric(metric, value as int),
            r.wf(),
    {
        Self { metric, number: FloatValue::const_new(value) }
    }

    /// Builds an angle from the scaled representation of its number.
    pub fn from_scaled(metric: AngleMetric, scaled: i64) -> (r: Self)
        ensures
            r.metric == metric,
            r.number.0 == sat_scaled(scaled as int),
            r.wf(),
    {
        Self { metric, number: FloatValue::from_scaled(scaled) }
    }

    /// The value of the angle in scaled degrees, normalized into
    /// `[0, 360)` degrees.
    pub fn to_degrees(&self) -> (r: FloatValue)
        requires
            self.wf(),
        ensures
            r.0 == spec_to_degrees(self.metric, self.number.0 as int),
            0 <= r.0 < FULL_TURN_SCALED,
            r.wf(),
    {
        let s: i128 = self.number.0 as i128;
        let converted: i128 = match self.metric {
            AngleMetric::Degree => s,
            AngleMetric::Radians => {
                proof {
                    lemma_mul_bound(s as int, 57_295_779_513, MAX_SCALED as int, 57_295_779_513);
                }
                div_trunc_i128(s * 57_295_779_513, 1_000_000_000)
            },
            AngleMetric::Grad => div_trunc_i128(s * 360, 400),
            AngleMetric::Turn => s * 360,
            AngleMetric::Percent => div_trunc_i128(s * 36, 10),
        };
        FloatValue(euclid_mod_turn(converted))
    }

    /// Linear blend of two angles. Operands of one metric blend their
    /// numbers directly; operands of different metrics are each resolved
    /// to degrees and blended in degree space.
    pub fn interpolate(&self, other: &Self, t: &FloatValue) -> (r: Self)
        requires
            self.wf(),
            other.wf(),
            t.wf(),
        ensures
            r == spec_angle_interpolate(*self, *other, t.0 as int),
            r.wf(),
    {
        if self.metric == other.metric {
            Self { metric: self.metric, number: self.number.interpolate(&other.number, t) }
        } else {
            let a = self.to_degrees();
            let b = other.to_degrees();
            Self { metric: AngleMetric::Degree, number: a.interpolate(&b, t) }
        }
    }
}

/// Reduction of a value into `[0, 360)` scaled degrees: the mathematical
/// (Euclidean) remainder, so that -500 becomes 359500.
fn euclid_mod_turn(a: i128) -> (r: i64)
    requires
        -(i128::MAX as int) <= a,
    ensures
        r as int == (a as int) % (FULL_TURN_SCALED as int),
        0 <= r < FULL_TURN_SCALED,
{
    let n: i128 = FULL_TURN_SCALED as i128;
    if a >= 0 {
        (a % n) as i64
    } else {
        let neg = -a;
        let m = neg % n;
        proof {
            let q = (neg as int) / (n as int);
            vstd::arithmetic::div_mod::lemma_fundamental_div_mod(neg as int, n as int);
            if m == 0 {
                vstd::arithmetic::div_mod::lemma_fundamental_div_mod_converse(
                    a as int,
                    n as int,
                    -q,
                    0,
                );
            } else {
                vstd::arithmetic::div_mod::lemma_fundamental_div_mod_converse(
                    a as int,
                    n as int,
                    -q - 1,
                    n as int - m as int,
                );
            }
        }
        if m == 0 {
            0
        } else {
            (n - m) as i64
        }
    }
}

/// The angle [`AngleValue::interpolate`] yields: operands of one metric
/// blend their numbers directly; operands of different metrics are each
/// resolved to degrees in `[0, 360)` and blended there, re-wrapped as
/// degrees.
pub open spec fn spec_angle_interpolate(a: AngleValue, b: AngleValue, t: int) -> AngleValue {
    if a.metric == b.metric {
        AngleValue {
            metric: a.metric,
            number: FloatValue(spec_interpolate(a.number.0 as int, b.number.0 as int, t) as i64),
        }
    } else {
        let da = spec_to_degrees(a.metric, a.number.0 as int);
        let db = spec_to_degrees(b.metric, b.number.0 as int);
        AngleValue {
            metric: AngleMetric::Degree,
            number: FloatValue(spec_interpolate(da, db, t) as i64),
        }
    }
}

/// The unit a length quantity is expressed in.
#[derive(Debug, Copy, Clone, PartialEq, Eq, PartialOrd, Ord, Hash, Structural)]
pub enum SizeMetric {
    Px,
    Pt,
    Em,
    Percent,
}

impl Default for SizeMetric {
    fn default() -> (r: Self)
        ensures
            r == SizeMetric::Px,
    {
        SizeMetric::Px
    }
}

/// The suffix a length unit prints with. Em lengths have always printed
/// with the point suffix here; that quirk is kept for compatibility.
pub open spec fn spec_size_metric_str(m: SizeMetric) -> Seq<char> {
    match m {
        SizeMetric::Px => "px"@,
        SizeMetric::Pt => "pt"@,
        SizeMetric::Em => "pt"@,
        SizeMetric::Percent => "%"@,
    }
}

impl SizeMetric {
    /// The unit suffix, as it appears in CSS text.
    pub fn to_str(&self) -> (r: &'static str)
        ensures
            r@ == spec_size_metric_str(*self),
    {
        match self {
            SizeMetric::Px => "px",
            SizeMetric::Pt => "pt",
            SizeMetric::Em => "pt",
            SizeMetric::Percent => "%",
        }
    }
}

/// Height of one em, in pixels (a fixed root metric).
pub const EM_HEIGHT_PX: i64 = 16;

/// Resolution of a length to scaled pixels: pixels pass through, points are
/// multiplied by 96/72 (truncating toward zero), ems by the fixed root font
/// height, and percentages by the given basis (itself in scaled pixels).
pub open spec fn spec_to_pixels(metric: SizeMetric, scaled: int, percent_basis: int) -> int {
    match metric {
        SizeMetric::Px => scaled,
        SizeMetric::Pt => sat_scaled(div_trunc(scaled * 96, 72)),
        SizeMetric::Em => sat_scaled(scaled * EM_HEIGHT_PX),
        SizeMetric::Percent => sat_scaled(
            div_trunc(scaled * percent_basis, 100 * FP_SCALE as int),
        ),
    }
}

/// The length [`PixelValue::interpolate`] yields: operands of one metric
/// blend their numbers directly; operands of different metrics are each
/// resolved to pixels (a percentage against a basis of zero) and blended
/// in pixel space, re-wrapped as pixels — a deliberately lossy fallback,
/// kept for rendering compatibility.
pub open spec fn spec_pixel_interpolate(a: PixelValue, b: PixelValue, t: int) -> PixelValue {
    if a.metric == b.metric {
        PixelValue {
            metric: a.metric,
            number: FloatValue(spec_interpolate(a.number.0 as int, b.number.0 as int, t) as i64),
        }
    } else {
        let pa = spec_to_pixels(a.metric, a.number.0 as int, 0);
        let pb = spec_to_pixels(b.metric, b.number.0 as int, 0);
        PixelValue {
            metric: SizeMetric::Px,
            number: FloatValue(spec_interpolate(pa, pb, t) as i64),
        }
    }
}

/// A [`FloatValue`] tagged with a length unit.
#[derive(Debug, Default, Copy, Clone, PartialEq, Eq, PartialOrd, Ord, Hash, Structural)]
pub struct PixelValue {
    pub metric: SizeMetric,
    pub number: FloatValue,
}

impl PixelValue {
    pub open spec fn wf(self) -> bool {
        self.number.wf()
    }

    /// The zero length, in pixels.
    pub fn zero() -> (r: Self)
        ensures
            r == (PixelValue { metric: SizeMetric::Px, number: FloatValue(0i64) }),
    {
        Self { metric: SizeMetric::Px, number: FloatValue(0) }
    }

    /// The length a whole-number constructor yields.
    pub open spec fn spec_const_from_metric(metric: SizeMetric, value: int) -> PixelValue {
        PixelValue { metric, number: FloatValue(sat_scaled(value * FP_SCALE) as i64) }
    }

    /// Builds a length of `value` whole pixels.
    pub fn const_px(value: i64) -> (r: Self)
        ensures
            r == Self::spec_const_from_metric(SizeMetric::Px, value as int),
            r.wf(),
    {
        Self::const_from_metric(SizeMetric::Px, value)
    }

    /// Builds a length of `value` whole ems.
    pub fn const_em(value: i64) -> (r: Self)
        ensures
            r == Self::spec_const_from_metric(SizeMetric::Em, value as int),
            r.wf(),
    {
        Self::const_from_metric(SizeMetric::Em, value)
    }

    /// Builds a length of `value` whole points.
    pub fn const_pt(value: i64) -> (r: Self)
        ensures
            r == Self::spec_const_from_metric(SizeMetric::Pt, value as int),
            r.wf(),
    {
        Self::const_from_metric(SizeMetric::Pt, value)
    }

    /// Builds a length of `value` whole percent.
    pub fn const_percent(value: i64) -> (r: Self)
        ensures
            r == Self::spec_const_from_metric(SizeMetric::Percent, value as int),
            r.wf(),
    {
        Self::const_from_metric(SizeMetric::Percent, value)
    }

    /// Builds a length of `value` whole units of the given metric.
    pub fn const_from_metric(metric: SizeMetric, value: i64) -> (r: Self)
        ensures
            r == Self::spec_const_from_metric(metric, value as int),
            r.wf(),
    {
        Self { metric, number: FloatValue::const_new(value) }
    }

    /// Builds a length from the scaled representation of its number.
    pub fn from_scaled(metric: SizeMetric, scaled: i64) -> (r: Self)
        ensures
            r.metric == metric,
            r.number.0 == sat_scaled(scaled as int),
            r.wf(),
    {
        Self { metric, number: FloatValue::from_scaled(scaled) }
    }

    /// The value of the length in scaled pixels, resolving a percentage
    /// against `percent_basis` (also in scaled pixels).
    pub fn to_pixels(&self, percent_basis: &FloatValue) -> (r: FloatValue)
        requires
            self.wf(),
            percent_basis.wf(),
        ensures
            r.0 == spec_to_pixels(self.metric, self.number.0 as int, percent_basis.0 as int),
            r.wf(),
    {
        let s: i128 = self.number.0 as i128;
        match self.metric {
            SizeMetric::Px => FloatValue(self.number.0),
            SizeMetric::Pt => FloatValue(sat_i128(div_trunc_i128(s * 96, 72))),
            SizeMetric::Em => {
                proof {
                    lemma_mul_bound(s as int, EM_HEIGHT_PX as int, MAX_SCALED as int, 16);
                }
                FloatValue(sat_i128(s * EM_HEIGHT_PX as i128))
            },
            SizeMetric::Percent => {
                proof {
                    lemma_mul_bound(
                        s as int,
                        percent_basis.0 as int,
                        MAX_SCALED as int,
                        MAX_SCALED as int,
                    );
                }
                FloatValue(sat_i128(div_trunc_i128(s * percent_basis.0 as i128, 100_000)))
            },
        }
    }

    /// Linear blend of two lengths. Operands of one metric blend their
    /// numbers directly; operands of different metrics are each resolved to
    /// pixels (a percentage against a basis of zero) and blended in pixel
    /// space, a deliberately lossy fallback kept for rendering compatibility.
    pub fn interpolate(&self, other: &Self, t: &FloatValue) -> (r: Self)
        requires
            self.wf(),
            other.wf(),
            t.wf(),
        ensures
            r == spec_pixel_interpolate(*self, *other, t.0 as int),
            r.wf(),
    {
        if self.metric == other.metric {
            Self { metric: self.metric, number: self.number.interpolate(&other.number, t) }
        } else {
            let zero = FloatValue(0);
            let a = self.to_pixels(&zero);
            let b = other.to_pixels(&zero);
            Self { metric: SizeMetric::Px, number: a.interpolate(&b, t) }
        }
    }
}

/// A parsed pair of lengths, as a border-radius corner uses it.
#[derive(Default, Debug, Copy, Clone, PartialEq, Eq, PartialOrd, Ord, Hash, Structural)]
pub struct PixelSize {
    pub width: PixelValue,
    pub height: PixelValue,
}

impl PixelSize {
    pub fn new(width: PixelValue, height: PixelValue) -> (r: Self)
        ensures
            r == (PixelSize { width, height }),
    {
        Self { width, height }
    }

    pub fn zero() -> (r: Self)
        ensures
            r == (PixelSize {
                width: PixelValue::spec_const_from_metric(SizeMetric::Px, 0),
                height: PixelValue::spec_const_from_metric(SizeMetric::Px, 0),
            }),
    {
        Self::new(PixelValue::const_px(0), PixelValue::const_px(0))
    }
}

/// Offsets of the four sides, as border-width calculations use them.
#[derive(Debug, Copy, Clone, PartialEq, Eq, PartialOrd, Ord, Hash, Structural)]
pub struct LayoutSideOffsets {
    pub top: FloatValue,
    pub right: FloatValue,
    pub bottom: FloatValue,
    pub left: FloatValue,
}

} // verus!
