//! Gradient color stops, their normalization, and gradient direction
//! resolution against a target rectangle.

use vstd::prelude::*;
use crate::units::{
    FloatValue, PercentageValue, PixelValue, AngleValue, AngleMetric, sat_scaled, div_trunc,
    spec_to_degrees, MAX_SCALED,
};
use crate::color::ColorU;
use crate::geometry::{LayoutPoint, LayoutRect, LayoutSize};

verus! {

/// A named corner or side a gradient may run from or toward.
#[derive(Debug, Copy, Clone, PartialEq, Eq, PartialOrd, Ord, Hash, Structural)]
pub enum DirectionCorner {
    Right,
    Left,
    Top,
    Bottom,
    TopRight,
    TopLeft,
    BottomRight,
    BottomLeft,
}

/// The corner diametrically opposite a given one.
pub open spec fn spec_opposite(c: DirectionCorner) -> DirectionCorner {
    match c {
        DirectionCorner::Right => DirectionCorner::Left,
        DirectionCorner::Left => DirectionCorner::Right,
        DirectionCorner::Top => DirectionCorner::Bottom,
        DirectionCorner::Bottom => DirectionCorner::Top,
        DirectionCorner::TopRight => DirectionCorner::BottomLeft,
        DirectionCorner::BottomLeft => DirectionCorner::TopRight,
        DirectionCorner::TopLeft => DirectionCorner::BottomRight,
        DirectionCorner::BottomRight => DirectionCorner::TopLeft,
    }
}

/// Combination of a horizontal and a vertical side into a diagonal corner,
/// in either order; anything else does not combine.
pub open spec fn spec_combine(a: DirectionCorner, b: DirectionCorner) -> Option<DirectionCorner> {
    match (a, b) {
        (DirectionCorner::Right, DirectionCorner::Top) => Some(DirectionCorner::TopRight),
        (DirectionCorner::Top, DirectionCorner::Right) => Some(DirectionCorner::TopRight),
        (DirectionCorner::Left, DirectionCorner::Top) => Some(DirectionCorner::TopLeft),
        (DirectionCorner::Top, DirectionCorner::Left) => Some(DirectionCorner::TopLeft),
        (DirectionCorner::Right, DirectionCorner::Bottom) => Some(DirectionCorner::BottomRight),
        (DirectionCorner::Bottom, DirectionCorner::Right) => Some(DirectionCorner::BottomRight),
        (DirectionCorner::Left, DirectionCorner::Bottom) => Some(DirectionCorner::BottomLeft),
        (DirectionCorner::Bottom, DirectionCorner::Left) => Some(DirectionCorner::BottomLeft),
        _ => None,
    }
}

/// The fixed point of a rectangle a named corner denotes: sides map to the
/// midpoint of that side (halving rounds toward zero), diagonal corners to
/// the corner itself.
pub open spec fn spec_corner_point(c: DirectionCorner, rect: LayoutRect) -> LayoutPoint {
    let w = rect.size.width as int;
    let h = rect.size.height as int;
    match c {
        DirectionCorner::Right => LayoutPoint { x: w as i64, y: div_trunc(h, 2) as i64 },
        DirectionCorner::Left => LayoutPoint { x: 0i64, y: div_trunc(h, 2) as i64 },
        DirectionCorner::Top => LayoutPoint { x: div_trunc(w, 2) as i64, y: 0i64 },
        DirectionCorner::Bottom => LayoutPoint { x: div_trunc(w, 2) as i64, y: h as i64 },
        DirectionCorner::TopRight => LayoutPoint { x: w as i64, y: 0i64 },
        DirectionCorner::TopLeft => LayoutPoint { x: 0i64, y: 0i64 },
        DirectionCorner::BottomRight => LayoutPoint { x: w as i64, y: h as i64 },
        DirectionCorner::BottomLeft => LayoutPoint { x: 0i64, y: h as i64 },
    }
}

/// Halving with truncation toward zero, as a side midpoint uses it.
fn half(v: i64) -> (r: i64)
    ensures
        r == div_trunc(v as int, 2),
{
    if v == i64::MIN {
        -4_611_686_018_427_387_904
    } else if v >= 0 {
        v / 2
    } else {
        -((-v) / 2)
    }
}

impl DirectionCorner {
    pub fn opposite(&self) -> (r: Self)
        ensures
            r == spec_opposite(*self),
    {
        match *self {
            DirectionCorner::Right => DirectionCorner::Left,
            DirectionCorner::Left => DirectionCorner::Right,
            DirectionCorner::Top => DirectionCorner::Bottom,
            DirectionCorner::Bottom => DirectionCorner::Top,
            DirectionCorner::TopRight => DirectionCorner::BottomLeft,
            DirectionCorner::BottomLeft => DirectionCorner::TopRight,
            DirectionCorner::TopLeft => DirectionCorner::BottomRight,
            DirectionCorner::BottomRight => DirectionCorner::TopLeft,
        }
    }

    pub fn combine(&self, other: &Self) -> (r: Option<Self>)
        ensures
            r == spec_combine(*self, *other),
    {
        match (*self, *other) {
            (DirectionCorner::Right, DirectionCorner::Top) => Some(DirectionCorner::TopRight),
            (DirectionCorner::Top, DirectionCorner::Right) => Some(DirectionCorner::TopRight),
            (DirectionCorner::Left, DirectionCorner::Top) => Some(DirectionCorner::TopLeft),
            (DirectionCorner::Top, DirectionCorner::Left) => Some(DirectionCorner::TopLeft),
            (DirectionCorner::Right, DirectionCorner::Bottom) => Some(DirectionCorner::BottomRight),
            (DirectionCorner::Bottom, DirectionCorner::Right) => Some(DirectionCorner::BottomRight),
            (DirectionCorner::Left, DirectionCorner::Bottom) => Some(DirectionCorner::BottomLeft),
            (DirectionCorner::Bottom, DirectionCorner::Left) => Some(DirectionCorner::BottomLeft),
            _ => None,
        }
    }

    /// The fixed point of the target rectangle this corner denotes.
    pub fn to_point(&self, rect: &LayoutRect) -> (r: LayoutPoint)
        ensures
            r == spec_corner_point(*self, *rect),
    {
        match *self {
            DirectionCorner::Right => LayoutPoint {
                x: rect.size.width,
                y: half(rect.size.height),
            },
            DirectionCorner::Left => LayoutPoint { x: 0, y: half(rect.size.height) },
            DirectionCorner::Top => LayoutPoint { x: half(rect.size.width), y: 0 },
            DirectionCorner::Bottom => LayoutPoint {
                x: half(rect.size.width),
                y: rect.size.height,
            },
            DirectionCorner::TopRight => LayoutPoint { x: rect.size.width, y: 0 },
            DirectionCorner::TopLeft => LayoutPoint { x: 0, y: 0 },
            DirectionCorner::BottomRight => LayoutPoint {
                x: rect.size.width,
                y: rect.size.height,
            },
            DirectionCorner::BottomLeft => LayoutPoint { x: 0, y: rect.size.height },
        }
    }
}

/// The CSS text of a named corner or side.
pub open spec fn spec_corner_str(c: DirectionCorner) -> Seq<char> {
    match c {
        DirectionCorner::Right => "right"@,
        DirectionCorner::Left => "left"@,
        DirectionCorner::Top => "top"@,
        DirectionCorner::Bottom => "bottom"@,
        DirectionCorner::TopRight => "top right"@,
        DirectionCorner::TopLeft => "top left"@,
        DirectionCorner::BottomRight => "bottom right"@,
        DirectionCorner::BottomLeft => "bottom left"@,
    }
}

impl DirectionCorner {
    /// The CSS text of this corner or side.
    pub fn to_str(&self) -> (r: &'static str)
        ensures
            r@ == spec_corner_str(*self),
    {
        match self {
            DirectionCorner::Right => "right",
            DirectionCorner::Left => "left",
            DirectionCorner::Top => "top",
            DirectionCorner::Bottom => "bottom",
            DirectionCorner::TopRight => "top right",
            DirectionCorner::TopLeft => "top left",
            DirectionCorner::BottomRight => "bottom right",
            DirectionCorner::BottomLeft => "bottom left",
        }
    }
}

/// A gradient direction: a fixed angle, or a run from one named corner
/// toward another.
#[derive(Debug, Copy, Clone, PartialEq, Eq, PartialOrd, Ord, Hash, Structural)]
pub enum Direction {
    Angle(AngleValue),
    FromTo(DirectionCorner, DirectionCorner),
}

impl Default for Direction {
    /// Top to bottom.
    fn default() -> (r: Self)
        ensures
            r == Direction::FromTo(DirectionCorner::Top, DirectionCorner::Bottom),
    {
        Direction::FromTo(DirectionCorner::Top, DirectionCorner::Bottom)
    }
}

impl Direction {
    /// The two endpoints of the gradient line for a corner-to-corner
    /// direction. An angled direction is resolved by trigonometric
    /// projection, which floating-point collaborators perform outside this
    /// core, so it is excluded here.
    pub fn to_points(&self, rect: &LayoutRect) -> (r: (LayoutPoint, LayoutPoint))
        requires
            self matches Direction::FromTo(_, _),
        ensures
            *self matches Direction::FromTo(from, to) ==> r == (
                spec_corner_point(from, *rect),
                spec_corner_point(to, *rect),
            ),
    {
        match self {
            Direction::FromTo(from, to) => (from.to_point(rect), to.to_point(rect)),
            Direction::Angle(_) => {
                proof {
                    assert(false);
                }
                (LayoutPoint::zero(), LayoutPoint::zero())
            },
        }
    }
}

/// Whether a gradient is repeated or clamped beyond its last stop.
#[derive(Debug, Copy, Clone, PartialEq, Eq, PartialOrd, Ord, Hash, Structural)]
pub enum ExtendMode {
    Clamp,
    Repeat,
}

impl Default for ExtendMode {
    fn default() -> (r: Self)
        ensures
            r == ExtendMode::Clamp,
    {
        ExtendMode::Clamp
    }
}

/// A linear gradient color stop as parsed: the offset is absent when none
/// could be read from the source.
#[derive(Debug, Copy, Clone, PartialEq, Eq, PartialOrd, Ord, Hash)]
pub struct LinearColorStop {
    pub offset: Option<PercentageValue>,
    pub color: ColorU,
}

/// A linear gradient color stop with its offset made concrete.
#[derive(Debug, Clone, PartialEq, Eq, PartialOrd, Ord, Hash)]
pub struct NormalizedLinearColorStop {
    /// 0% to 100% along the gradient line.
    pub offset: PercentageValue,
    pub color: ColorU,
}

/// A radial gradient color stop as parsed: the angle is absent when none
/// could be read from the source.
#[derive(Debug, Copy, Clone, PartialEq, Eq, PartialOrd, Ord, Hash)]
pub struct RadialColorStop {
    pub offset: Option<AngleValue>,
    pub color: ColorU,
}

/// A radial gradient color stop with its angle made concrete.
#[derive(Debug, Clone, PartialEq, Eq, PartialOrd, Ord, Hash)]
pub struct NormalizedRadialColorStop {
    /// 0 to 360 degrees around the gradient.
    pub angle: AngleValue,
    pub color: ColorU,
}

/// First index of the maximal run of consecutive implicit offsets that
/// contains position `i`.
pub open spec fn run_start(offs: Seq<Option<int>>, i: int) -> int
    recommends
        0 <= i < offs.len(),
    decreases i,
{
    if i <= 0 {
        0
    } else if offs[i - 1] is Some {
        i
    } else {
        run_start(offs, i - 1)
    }
}

/// Last index of the maximal run of consecutive implicit offsets that
/// contains position `i`.
pub open spec fn run_end(offs: Seq<Option<int>>, i: int) -> int
    recommends
        0 <= i < offs.len(),
    decreases offs.len() - i,
{
    if i >= offs.len() - 1 {
        offs.len() - 1
    } else if offs[i + 1] is Some {
        i
    } else {
        run_end(offs, i + 1)
    }
}

/// The concrete offset normalization assigns to position `i`, over the
/// scaled offsets of the input stops.
///
/// An explicit offset is never altered, even when not monotonic. A run of
/// implicit offsets is spread evenly from the nearest explicit offset
/// before the run (the domain's lower bound, 0, when the run starts the
/// list) to the explicit offset that closes it (the domain's upper bound
/// when the run ends the list): the stop `j` positions into a run of
/// length `k` takes `prev + j * (next - prev) / (k - 1)`, with the
/// division truncating toward zero. A run of exactly one implicit stop,
/// where that divisor would be zero, deliberately takes the run's lower
/// boundary `prev` itself, so the result stays defined and deterministic.
pub open spec fn spec_stop_offset(offs: Seq<Option<int>>, i: int, upper: int) -> int
    recommends
        0 <= i < offs.len(),
{
    match offs[i] {
        Some(v) => v,
        None => {
            let a = run_start(offs, i);
            let b = run_end(offs, i);
            let prev = if a == 0 {
                0
            } else {
                offs[a - 1].unwrap()
            };
            let next = if b == offs.len() - 1 {
                upper
            } else {
                offs[b + 1].unwrap()
            };
            let k = b - a + 1;
            if k == 1 {
                prev
            } else {
                sat_scaled(prev + div_trunc((i - a) * (next - prev), k - 1))
            }
        },
    }
}

/// `run_start` is constant across a run: if everything from `a` to `m` is
/// implicit and `a` opens a run, the run containing `m` starts at `a`.
proof fn lemma_run_start_const(offs: Seq<Option<int>>, a: int, m: int)
    requires
        0 <= a <= m < offs.len(),
        forall|x: int| a <= x <= m ==> offs[x] is None,
        a == 0 || offs[a - 1] is Some,
    ensures
        run_start(offs, m) == a,
    decreases m - a,
{
    if m > a {
        lemma_run_start_const(offs, a, m - 1);
    }
}

/// `run_end` is constant across a run: if everything from `m` to `b` is
/// implicit and `b` closes a run, the run containing `m` ends at `b`.
proof fn lemma_run_end_const(offs: Seq<Option<int>>, m: int, b: int)
    requires
        0 <= m <= b < offs.len(),
        forall|x: int| m <= x <= b ==> offs[x] is None,
        b == offs.len() - 1 || offs[b + 1] is Some,
    ensures
        run_end(offs, m) == b,
    decreases b - m,
{
    if m < b {
        lemma_run_end_const(offs, m + 1, b);
    }
}

/// The scaled offsets of a parsed linear stop list.
pub open spec fn linear_offsets(s: Seq<LinearColorStop>) -> Seq<Option<int>> {
    Seq::new(
        s.len(),
        |i: int|
            match s[i].offset {
                Some(p) => Some(p.spec_scaled()),
                None => None,
            },
    )
}

/// The scaled-degree offsets of a parsed radial stop list.
pub open spec fn radial_offsets(s: Seq<RadialColorStop>) -> Seq<Option<int>> {
    Seq::new(
        s.len(),
        |i: int|
            match s[i].offset {
                Some(a) => Some(spec_to_degrees(a.metric, a.number.0 as int)),
                None => None,
            },
    )
}

/// Upper bound of the linear stop domain: 100%, scaled.
pub const LINEAR_STOP_UPPER: i64 = 100_000;

/// What normalization guarantees of entry `m` of a linear stop list: the
/// color is kept, an explicit offset is kept exactly, and the offset held
/// is in every case the one [`spec_stop_offset`] assigns.
pub open spec fn linear_normalized_ok(
    stops: Seq<LinearColorStop>,
    r: Seq<NormalizedLinearColorStop>,
    m: int,
) -> bool {
    &&& r[m].color == stops[m].color
    &&& (stops[m].offset matches Some(p) ==> r[m].offset == p)
    &&& r[m].offset.spec_scaled() == spec_stop_offset(
        linear_offsets(stops),
        m,
        LINEAR_STOP_UPPER as int,
    )
}

impl LinearColorStop {
    /// Converts a partially-specified linear stop list into an
    /// equal-length, order-preserving list where every stop has a concrete
    /// offset; see [`spec_stop_offset`] for the spacing rule, including
    /// the deliberate single-implicit-stop policy.
    #[verifier::rlimit(80)]
    pub fn to_normalized(stops: &[LinearColorStop]) -> (r: Vec<NormalizedLinearColorStop>)
        requires
            forall|i: int|
                0 <= i < stops@.len() ==> (#[trigger] stops@[i].offset matches Some(p) ==> p.wf()),
        ensures
            r@.len() == stops@.len(),
            forall|i: int| 0 <= i < stops@.len() ==> #[trigger] linear_normalized_ok(stops@, r@, i),
    {
        let ghost offs = linear_offsets(stops@);
        let n = stops.len();
        let mut out: Vec<NormalizedLinearColorStop> = Vec::new();
        let mut i: usize = 0;
        while i < n
            invariant
                0 <= i <= n,
                n == stops@.len(),
                offs == linear_offsets(stops@),
                forall|x: int|
                    0 <= x < stops@.len() ==> (#[trigger] stops@[x].offset matches Some(p)
                        ==> p.wf()),
                out@.len() == i,
                i == 0 || i == n || offs[i as int] is Some || offs[i as int - 1] is Some,
                forall|m: int| #![trigger out@[m]] 0 <= m < i ==> linear_normalized_ok(stops@, out@, m),
            decreases n - i,
        {
            match stops[i].offset {
                Some(p) => {
                    out.push(NormalizedLinearColorStop { offset: p, color: stops[i].color });
                    proof {
                        assert(offs[i as int] == Some(p.spec_scaled()));
                        assert(linear_normalized_ok(stops@, out@, i as int));
                    }
                    i = i + 1;
                },
                None => {
                    // Find the end of the implicit run starting here.
                    let mut j: usize = i;
                    while j < n && stops[j].offset.is_none()
                        invariant
                            i <= j <= n,
                            n == stops@.len(),
                            offs == linear_offsets(stops@),
                            forall|x: int| i <= x < j ==> offs[x] is None,
                        decreases n - j,
                    {
                        j = j + 1;
                    }
                    let prev: i64 = if i == 0 {
                        0
                    } else {
                        match &stops[i - 1].offset {
                            Some(p) => p.get_scaled(),
                            None => {
                                proof {
                                    assert(false);
                                }
                                0
                            },
                        }
                    };
                    let next: i64 = if j == n {
                        LINEAR_STOP_UPPER
                    } else {
                        match &stops[j].offset {
                            Some(p) => p.get_scaled(),
                            None => {
                                proof {
                                    assert(false);
                                }
                                0
                            },
                        }
                    };
                    let k: usize = j - i;
                    proof {
                        assert forall|x: int| i <= x < j implies run_start(offs, x) == i
                            && run_end(offs, x) == j - 1 by {
                            lemma_run_start_const(offs, i as int, x);
                            lemma_run_end_const(offs, x, j - 1);
                        }
                    }
                    let mut idx: usize = i;
                    while idx < j
                        invariant
                            i <= idx <= j <= n,
                            1 <= k,
                            k == j - i,
                            n == stops@.len(),
                            offs == linear_offsets(stops@),
                            forall|x: int|
                                0 <= x < stops@.len() ==> (#[trigger] stops@[x].offset matches Some(
                                    p,
                                ) ==> p.wf()),
                            forall|x: int| i <= x < j ==> offs[x] is None,
                            forall|x: int| i <= x < j ==> run_start(offs, x) == i,
                            forall|x: int| i <= x < j ==> run_end(offs, x) == j - 1,
                            i == 0 || offs[i as int - 1] is Some,
                            j == n || offs[j as int] is Some,
                            prev as int == (if i == 0 {
                                0
                            } else {
                                offs[i as int - 1].unwrap()
                            }),
                            -MAX_SCALED <= prev <= MAX_SCALED,
                            next as int == (if j == n {
                                LINEAR_STOP_UPPER as int
                            } else {
                                offs[j as int].unwrap()
                            }),
                            -MAX_SCALED <= next <= MAX_SCALED,
                            out@.len() == idx,
                            forall|m: int| #![trigger out@[m]]
                                0 <= m < idx ==> linear_normalized_ok(stops@, out@, m),
                        decreases j - idx,
                    {
                        let off: i64 = if k == 1 {
                            prev
                        } else {
                            let rel: i128 = (idx - i) as i128;
                            let delta: i128 = next as i128 - prev as i128;
                            proof {
                                crate::units::lemma_mul_bound(
                                    rel as int,
                                    delta as int,
                                    0x1_0000_0000_0000_0000,
                                    2 * MAX_SCALED as int,
                                );
                            }
                            let num: i128 = rel * delta;
                            let stepped: i128 = prev as i128 + crate::units::div_trunc_i128(
                                num,
                                (k - 1) as i128,
                            );
                            crate::units::sat_i128(stepped)
                        };
                        out.push(
                            NormalizedLinearColorStop {
                                offset: PercentageValue::from_scaled(off),
                                color: stops[idx].color,
                            },
                        );
                        proof {
                            assert(offs[idx as int] is None);
                            assert(stops@[idx as int].offset is None);
                            assert(linear_normalized_ok(stops@, out@, idx as int));
                        }
                        idx = idx + 1;
                    }
                    i = j;
                },
            }
        }
        out
    }
}

/// Upper bound of the radial stop domain: 360 degrees, scaled.
pub const RADIAL_STOP_UPPER: i64 = 360_000;

/// What normalization guarantees of entry `m` of a radial stop list: the
/// color is kept, an explicit angle is kept exactly as written, and an
/// implicit one takes, in degrees, the value [`spec_stop_offset`] assigns
/// over the degree-normalized neighbours.
pub open spec fn radial_normalized_ok(
    stops: Seq<RadialColorStop>,
    r: Seq<NormalizedRadialColorStop>,
    m: int,
) -> bool {
    &&& r[m].color == stops[m].color
    &&& (stops[m].offset matches Some(a) ==> r[m].angle == a)
    &&& (stops[m].offset is None ==> r[m].angle == (AngleValue {
        metric: AngleMetric::Degree,
        number: FloatValue(
            spec_stop_offset(radial_offsets(stops), m, RADIAL_STOP_UPPER as int) as i64,
        ),
    }))
}

impl RadialColorStop {
    /// Converts a partially-specified radial stop list into an
    /// equal-length, order-preserving list where every stop has a concrete
    /// angle. Explicit angles are kept exactly as written; the spacing of
    /// implicit runs is computed in degrees (each neighbouring explicit
    /// angle first normalized into `[0, 360)` degrees) by the same rule as
    /// [`spec_stop_offset`], including the single-implicit-stop policy.
    #[verifier::rlimit(80)]
    pub fn to_normalized(stops: &[RadialColorStop]) -> (r: Vec<NormalizedRadialColorStop>)
        requires
            forall|i: int|
                0 <= i < stops@.len() ==> (#[trigger] stops@[i].offset matches Some(a) ==> a.wf()),
        ensures
            r@.len() == stops@.len(),
            forall|i: int| 0 <= i < stops@.len() ==> #[trigger] radial_normalized_ok(stops@, r@, i),
    {
        let ghost offs = radial_offsets(stops@);
        let n = stops.len();
        let mut out: Vec<NormalizedRadialColorStop> = Vec::new();
        let mut i: usize = 0;
        while i < n
            invariant
                0 <= i <= n,
                n == stops@.len(),
                offs == radial_offsets(stops@),
                forall|x: int|
                    0 <= x < stops@.len() ==> (#[trigger] stops@[x].offset matches Some(a)
                        ==> a.wf()),
                out@.len() == i,
                i == 0 || i == n || offs[i as int] is Some || offs[i as int - 1] is Some,
                forall|m: int| #![trigger out@[m]] 0 <= m < i ==> radial_normalized_ok(stops@, out@, m),
            decreases n - i,
        {
            match stops[i].offset {
                Some(a) => {
                    out.push(NormalizedRadialColorStop { angle: a, color: stops[i].color });
                    proof {
                        assert(offs[i as int] is Some);
                        assert(radial_normalized_ok(stops@, out@, i as int));
                    }
                    i = i + 1;
                },
                None => {
                    let mut j: usize = i;
                    while j < n && stops[j].offset.is_none()
                        invariant
                            i <= j <= n,
                            n == stops@.len(),
                            offs == radial_offsets(stops@),
                            forall|x: int| i <= x < j ==> offs[x] is None,
                        decreases n - j,
                    {
                        j = j + 1;
                    }
                    let prev: i64 = if i == 0 {
                        0
                    } else {
                        match &stops[i - 1].offset {
                            Some(a) => a.to_degrees().0,
                            None => {
                                proof {
                                    assert(false);
                                }
                                0
                            },
                        }
                    };
                    let next: i64 = if j == n {
                        RADIAL_STOP_UPPER
                    } else {
                        match &stops[j].offset {
                            Some(a) => a.to_degrees().0,
                            None => {
                                proof {
                                    assert(false);
                                }
                                0
                            },
                        }
                    };
                    let k: usize = j - i;
                    proof {
                        assert forall|x: int| i <= x < j implies run_start(offs, x) == i
                            && run_end(offs, x) == j - 1 by {
                            lemma_run_start_const(offs, i as int, x);
                            lemma_run_end_const(offs, x, j - 1);
                        }
                    }
                    let mut idx: usize = i;
                    while idx < j
                        invariant
                            i <= idx <= j <= n,
                            1 <= k,
                            k == j - i,
                            n == stops@.len(),
                            offs == radial_offsets(stops@),
                            forall|x: int|
                                0 <= x < stops@.len() ==> (#[trigger] stops@[x].offset matches Some(
                                    a,
                                ) ==> a.wf()),
                            forall|x: int| i <= x < j ==> offs[x] is None,
                            forall|x: int| i <= x < j ==> run_start(offs, x) == i,
                            forall|x: int| i <= x < j ==> run_end(offs, x) == j - 1,
                            i == 0 || offs[i as int - 1] is Some,
                            j == n || offs[j as int] is Some,
                            prev as int == (if i == 0 {
                                0
                            } else {
                                offs[i as int - 1].unwrap()
                            }),
                            -MAX_SCALED <= prev <= MAX_SCALED,
                            next as int == (if j == n {
                                RADIAL_STOP_UPPER as int
                            } else {
                                offs[j as int].unwrap()
                            }),
                            -MAX_SCALED <= next <= MAX_SCALED,
                            out@.len() == idx,
                            forall|m: int| #![trigger out@[m]]
                                0 <= m < idx ==> radial_normalized_ok(stops@, out@, m),
                        decreases j - idx,
                    {
                        let off: i64 = if k == 1 {
                            prev
                        } else {
                            let rel: i128 = (idx - i) as i128;
                            let delta: i128 = next as i128 - prev as i128;
                            proof {
                                crate::units::lemma_mul_bound(
                                    rel as int,
                                    delta as int,
                                    0x1_0000_0000_0000_0000,
                                    2 * MAX_SCALED as int,
                                );
                            }
                            let num: i128 = rel * delta;
                            let stepped: i128 = prev as i128 + crate::units::div_trunc_i128(
                                num,
                                (k - 1) as i128,
                            );
                            crate::units::sat_i128(stepped)
                        };
                        out.push(
                            NormalizedRadialColorStop {
                                angle: AngleValue {
                                    metric: AngleMetric::Degree,
                                    number: FloatValue(off),
                                },
                                color: stops[idx].color,
                            },
                        );
                        proof {
                            assert(offs[idx as int] is None);
                            assert(stops@[idx as int].offset is None);
                            assert(radial_normalized_ok(stops@, out@, idx as int));
                        }
                        idx = idx + 1;
                    }
                    i = j;
                },
            }
        }
        out
    }
}

/// How a radial gradient's ending shape is sized against its box.
#[derive(Debug, Clone, PartialEq, Eq, PartialOrd, Ord, Hash, Structural)]
pub enum RadialGradientSize {
    /// The ending shape meets the side of the box closest to its center.
    ClosestSide,
    /// The ending shape exactly meets the closest corner of the box.
    ClosestCorner,
    /// The ending shape meets the side of the box farthest from its center.
    FarthestSide,
    /// The ending shape exactly meets the farthest corner of the box.
    FarthestCorner,
}

impl Default for RadialGradientSize {
    fn default() -> (r: Self)
        ensures
            r == RadialGradientSize::FarthestCorner,
    {
        RadialGradientSize::FarthestCorner
    }
}

impl RadialGradientSize {
    /// The concrete size of the gradient's ending shape against the given
    /// box; every mode currently resolves to the parent rectangle's size.
    pub fn get_size(
        &self,
        parent_rect: LayoutRect,
        _gradient_center: crate::property::LayoutPosition,
    ) -> (r: LayoutSize)
        ensures
            r == parent_rect.size,
    {
        parent_rect.size
    }
}

/// The shape of a radial gradient.
#[derive(Debug, Copy, Clone, PartialEq, Eq, PartialOrd, Ord, Hash, Structural)]
pub enum Shape {
    Ellipse,
    Circle,
}

impl Default for Shape {
    fn default() -> (r: Self)
        ensures
            r == Shape::Ellipse,
    {
        Shape::Ellipse
    }
}

/// Horizontal anchor of a background.
#[derive(Debug, Copy, Clone, PartialEq, Eq, PartialOrd, Ord, Hash, Structural)]
pub enum BackgroundPositionHorizontal {
    Left,
    Center,
    Right,
    Exact(PixelValue),
}

/// Vertical anchor of a background.
#[derive(Debug, Copy, Clone, PartialEq, Eq, PartialOrd, Ord, Hash, Structural)]
pub enum BackgroundPositionVertical {
    Top,
    Center,
    Bottom,
    Exact(PixelValue),
}

/// A `background-position` value.
#[derive(Debug, Copy, Clone, PartialEq, Eq, PartialOrd, Ord, Hash, Structural)]
pub struct StyleBackgroundPosition {
    pub horizontal: BackgroundPositionHorizontal,
    pub vertical: BackgroundPositionVertical,
}

impl Default for StyleBackgroundPosition {
    fn default() -> (r: Self)
        ensures
            r == (StyleBackgroundPosition {
                horizontal: BackgroundPositionHorizontal::Left,
                vertical: BackgroundPositionVertical::Top,
            }),
    {
        StyleBackgroundPosition {
            horizontal: BackgroundPositionHorizontal::Left,
            vertical: BackgroundPositionVertical::Top,
        }
    }
}

/// A linear gradient ready for rendering.
#[derive(Debug, Clone, PartialEq, Eq, PartialOrd, Ord, Hash)]
pub struct LinearGradient {
    pub direction: Direction,
    pub extend_mode: ExtendMode,
    pub stops: Vec<NormalizedLinearColorStop>,
}

impl Default for LinearGradient {
    fn default() -> (r: Self)
        ensures
            r.direction == Direction::FromTo(DirectionCorner::Top, DirectionCorner::Bottom),
            r.extend_mode == ExtendMode::Clamp,
            r.stops@ =~= Seq::<NormalizedLinearColorStop>::empty(),
    {
        LinearGradient {
            direction: Direction::FromTo(DirectionCorner::Top, DirectionCorner::Bottom),
            extend_mode: ExtendMode::Clamp,
            stops: Vec::new(),
        }
    }
}

/// A conic gradient ready for rendering.
#[derive(Debug, Clone, PartialEq, Eq, PartialOrd, Ord, Hash)]
pub struct ConicGradient {
    pub extend_mode: ExtendMode,
    pub center: StyleBackgroundPosition,
    pub angle: AngleValue,
    pub stops: Vec<NormalizedRadialColorStop>,
}

impl Default for ConicGradient {
    fn default() -> (r: Self)
        ensures
            r.extend_mode == ExtendMode::Clamp,
            r.center == (StyleBackgroundPosition {
                horizontal: BackgroundPositionHorizontal::Left,
                vertical: BackgroundPositionVertical::Top,
            }),
            r.angle == (AngleValue { metric: AngleMetric::Degree, number: FloatValue(0i64) }),
            r.stops@ =~= Seq::<NormalizedRadialColorStop>::empty(),
    {
        ConicGradient {
            extend_mode: ExtendMode::Clamp,
            center: Default::default(),
            angle: AngleValue::zero(),
            stops: Vec::new(),
        }
    }
}

/// A radial gradient ready for rendering.
#[derive(Debug, Clone, PartialEq, Eq, PartialOrd, Ord, Hash)]
pub struct RadialGradient {
    pub shape: Shape,
    pub size: RadialGradientSize,
    pub position: StyleBackgroundPosition,
    pub extend_mode: ExtendMode,
    pub stops: Vec<NormalizedLinearColorStop>,
}

impl Default for RadialGradient {
    fn default() -> (r: Self)
        ensures
            r.shape == Shape::Ellipse,
            r.size == RadialGradientSize::FarthestCorner,
            r.position == (StyleBackgroundPosition {
                horizontal: BackgroundPositionHorizontal::Left,
                vertical: BackgroundPositionVertical::Top,
            }),
            r.extend_mode == ExtendMode::Clamp,
            r.stops@ =~= Seq::<NormalizedLinearColorStop>::empty(),
    {
        RadialGradient {
            shape: Shape::Ellipse,
            size: RadialGradientSize::FarthestCorner,
            position: Default::default(),
            extend_mode: ExtendMode::Clamp,
            stops: Vec::new(),
        }
    }
}

/// One layer of a `background` value.
#[derive(Debug, Clone, PartialEq, Eq, PartialOrd, Ord, Hash)]
pub enum StyleBackgroundContent {
    LinearGradient(LinearGradient),
    RadialGradient(RadialGradient),
    ConicGradient(ConicGradient),
    Image(String),
    Color(ColorU),
}

impl Default for StyleBackgroundContent {
    /// Fully transparent black.
    fn default() -> (r: Self)
        ensures
            r == StyleBackgroundContent::Color(ColorU { r: 0u8, g: 0u8, b: 0u8, a: 0u8 }),
    {
        StyleBackgroundContent::Color(ColorU::transparent())
    }
}

impl From<String> for StyleBackgroundContent {
    /// Wraps an image identifier as a background image layer.
    fn from(id: String) -> (r: Self) {
        StyleBackgroundContent::Image(id)
    }
}

impl vstd::std_specs::convert::FromSpecImpl<String> for StyleBackgroundContent {
    open spec fn obeys_from_spec() -> bool {
        true
    }

    open spec fn from_spec(id: String) -> Self {
        StyleBackgroundContent::Image(id)
    }
}

/// A `background-size` value.
#[derive(Debug, Copy, Clone, PartialEq, Eq, PartialOrd, Ord, Hash, Structural)]
pub enum StyleBackgroundSize {
    ExactSize(PixelValue, PixelValue),
    Contain,
    Cover,
}

impl Default for StyleBackgroundSize {
    fn default() -> (r: Self)
        ensures
            r == StyleBackgroundSize::Contain,
    {
        StyleBackgroundSize::Contain
    }
}

/// A `background-repeat` value.
#[derive(Debug, Copy, Clone, PartialEq, Eq, PartialOrd, Ord, Hash, Structural)]
pub enum StyleBackgroundRepeat {
    NoRepeat,
    Repeat,
    RepeatX,
    RepeatY,
}

impl Default for StyleBackgroundRepeat {
    fn default() -> (r: Self)
        ensures
            r == StyleBackgroundRepeat::Repeat,
    {
        StyleBackgroundRepeat::Repeat
    }
}

} // verus!
