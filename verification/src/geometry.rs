//! Integer layout-space geometry: points, sizes and rectangles.

use vstd::prelude::*;

verus! {

/// Bound on the coordinates a layout value normally holds.
pub const COORD_LIMIT: i64 = 1_000_000_000_000_000;

/// Looser bound under which rectangle arithmetic is still exact; results of
/// one combination step stay far below it.
pub const COORD_WIDE_LIMIT: i64 = 1_000_000_000_000_000_000;

/// Point coordinate (x, y) in layout space; only used for calculations.
#[derive(Debug, Copy, Default, Clone, PartialEq, Eq, PartialOrd, Ord, Hash, Structural)]
pub struct LayoutPoint {
    pub x: i64,
    pub y: i64,
}

impl LayoutPoint {
    pub open spec fn wf(self) -> bool {
        &&& -COORD_LIMIT <= self.x <= COORD_LIMIT
        &&& -COORD_LIMIT <= self.y <= COORD_LIMIT
    }

    pub fn new(x: i64, y: i64) -> (r: Self)
        ensures
            r == (LayoutPoint { x, y }),
    {
        Self { x, y }
    }

    pub fn zero() -> (r: Self)
        ensures
            r == (LayoutPoint { x: 0i64, y: 0i64 }),
    {
        Self::new(0, 0)
    }
}

/// Size (width, height) in layout space; only used for calculations.
#[derive(Debug, Copy, Default, Clone, PartialEq, Eq, PartialOrd, Ord, Hash, Structural)]
pub struct LayoutSize {
    pub width: i64,
    pub height: i64,
}

impl LayoutSize {
    pub open spec fn wf(self) -> bool {
        &&& -COORD_LIMIT <= self.width <= COORD_LIMIT
        &&& -COORD_LIMIT <= self.height <= COORD_LIMIT
    }

    pub fn new(width: i64, height: i64) -> (r: Self)
        ensures
            r == (LayoutSize { width, height }),
    {
        Self { width, height }
    }

    pub fn zero() -> (r: Self)
        ensures
            r == (LayoutSize { width: 0i64, height: 0i64 }),
    {
        Self::new(0, 0)
    }
}

/// Rectangle (origin, size) in layout space; only used for calculations.
#[derive(Debug, Copy, Clone, PartialEq, Eq, PartialOrd, Ord, Hash, Structural)]
pub struct LayoutRect {
    pub origin: LayoutPoint,
    pub size: LayoutSize,
}

/// All four components within the given bound.
pub open spec fn rect_within(r: LayoutRect, bound: int) -> bool {
    &&& -bound <= r.origin.x <= bound
    &&& -bound <= r.origin.y <= bound
    &&& -bound <= r.size.width <= bound
    &&& -bound <= r.size.height <= bound
}

/// Combination state of [`LayoutRect::union`] over a non-empty prefix:
/// `(max_width, max_height, min_x, min_y)`. Each step widens the tracked
/// extent against the minima gathered so far, then lowers the minima, in
/// that order.
pub open spec fn spec_union_state(s: Seq<LayoutRect>) -> (int, int, int, int)
    recommends
        s.len() >= 1,
    decreases s.len(),
{
    if s.len() <= 1 {
        (s[0].size.width as int, s[0].size.height as int, s[0].origin.x as int, s[0].origin.y as int)
    } else {
        let prev = spec_union_state(s.drop_last());
        let r = s.last();
        let right = r.origin.x + r.size.width;
        let bottom = r.origin.y + r.size.height;
        (
            if right - prev.2 > prev.0 { right - prev.2 } else { prev.0 },
            if bottom - prev.3 > prev.1 { bottom - prev.3 } else { prev.1 },
            if r.origin.x < prev.2 { r.origin.x as int } else { prev.2 },
            if r.origin.y < prev.3 { r.origin.y as int } else { prev.3 },
        )
    }
}

/// The rectangle [`LayoutRect::union`] yields: none for an empty input, else
/// the combination state folded over the whole input.
pub open spec fn spec_union(s: Seq<LayoutRect>) -> Option<LayoutRect> {
    if s.len() == 0 {
        None
    } else {
        let st = spec_union_state(s);
        Some(
            LayoutRect {
                origin: LayoutPoint { x: st.2 as i64, y: st.3 as i64 },
                size: LayoutSize { width: st.0 as i64, height: st.1 as i64 },
            },
        )
    }
}

/// The combination state stays within a constant multiple of a bound on
/// the rectangles it was folded from.
pub proof fn lemma_union_state_bounded(s: Seq<LayoutRect>, b: int)
    requires
        s.len() >= 1,
        0 <= b,
        forall|i: int| 0 <= i < s.len() ==> rect_within(#[trigger] s[i], b),
    ensures
        ({
            let st = spec_union_state(s);
            &&& -b <= st.2 <= b
            &&& -b <= st.3 <= b
            &&& -b <= st.0 <= 3 * b
            &&& -b <= st.1 <= 3 * b
        }),
    decreases s.len(),
{
    if s.len() > 1 {
        lemma_union_state_bounded(s.drop_last(), b);
    }
}

impl LayoutRect {
    pub open spec fn wf(self) -> bool {
        &&& self.origin.wf()
        &&& self.size.wf()
    }

    pub fn new(origin: LayoutPoint, size: LayoutSize) -> (r: Self)
        ensures
            r == (LayoutRect { origin, size }),
    {
        Self { origin, size }
    }

    pub fn zero() -> (r: Self)
        ensures
            r == (LayoutRect {
                origin: LayoutPoint { x: 0i64, y: 0i64 },
                size: LayoutSize { width: 0i64, height: 0i64 },
            }),
    {
        Self::new(LayoutPoint::zero(), LayoutSize::zero())
    }

    pub open spec fn spec_max_x(self) -> int {
        self.origin.x + self.size.width
    }

    pub open spec fn spec_min_x(self) -> int {
        self.origin.x as int
    }

    pub open spec fn spec_max_y(self) -> int {
        self.origin.y + self.size.height
    }

    pub open spec fn spec_min_y(self) -> int {
        self.origin.y as int
    }

    pub fn max_x(&self) -> (r: i64)
        requires
            rect_within(*self, COORD_WIDE_LIMIT as int),
        ensures
            r == self.spec_max_x(),
    {
        self.origin.x + self.size.width
    }

    pub fn min_x(&self) -> (r: i64)
        ensures
            r == self.spec_min_x(),
    {
        self.origin.x
    }

    pub fn max_y(&self) -> (r: i64)
        requires
            rect_within(*self, COORD_WIDE_LIMIT as int),
        ensures
            r == self.spec_max_y(),
    {
        self.origin.y + self.size.height
    }

    pub fn min_y(&self) -> (r: i64)
        ensures
            r == self.spec_min_y(),
    {
        self.origin.y
    }

    pub fn width(&self) -> (r: i64)
        requires
            rect_within(*self, COORD_WIDE_LIMIT as int),
        ensures
            r == self.size.width,
    {
        self.max_x() - self.min_x()
    }

    pub fn height(&self) -> (r: i64)
        requires
            rect_within(*self, COORD_WIDE_LIMIT as int),
        ensures
            r == self.size.height,
    {
        self.max_y() - self.min_y()
    }

    /// Whether the point lies inside the rectangle (the left and top edges
    /// belong to it; the right and bottom edges do not).
    pub open spec fn spec_contains(self, p: LayoutPoint) -> bool {
        &&& self.spec_min_x() <= p.x < self.spec_max_x()
        &&& self.spec_min_y() <= p.y < self.spec_max_y()
    }

    pub fn contains(&self, other: &LayoutPoint) -> (r: bool)
        requires
            rect_within(*self, COORD_WIDE_LIMIT as int),
        ensures
            r == self.spec_contains(*other),
    {
        self.min_x() <= other.x && other.x < self.max_x() && self.min_y() <= other.y && other.y
            < self.max_y()
    }

    /// Same as [`Self::contains`], but with a strict interior test, and
    /// returning the (x, y) offset of the hit point from the top-left corner.
    pub fn hit_test(&self, other: &LayoutPoint) -> (r: Option<LayoutPoint>)
        requires
            rect_within(*self, COORD_WIDE_LIMIT as int),
            other.wf(),
        ensures
            r == (if self.spec_min_x() < other.x < self.spec_max_x() && self.spec_min_y() < other.y
                < self.spec_max_y() {
                Some(
                    LayoutPoint {
                        x: (other.x - self.spec_min_x()) as i64,
                        y: (other.y - self.spec_min_y()) as i64,
                    },
                )
            } else {
                None
            }),
    {
        let dx_left_edge = other.x - self.min_x();
        let dx_right_edge = self.max_x() - other.x;
        let dy_top_edge = other.y - self.min_y();
        let dy_bottom_edge = self.max_y() - other.y;
        if dx_left_edge > 0 && dx_right_edge > 0 && dy_top_edge > 0 && dy_bottom_edge > 0 {
            Some(LayoutPoint::new(dx_left_edge, dy_top_edge))
        } else {
            None
        }
    }

    /// Folds a sequence of rectangles into one extent, none for an empty
    /// input. The combination widens against the minima gathered so far, so
    /// the result depends on the input order; the fold is kept exactly as
    /// stated by [`spec_union_state`].
    pub fn union(rects: &[LayoutRect]) -> (r: Option<LayoutRect>)
        requires
            forall|i: int|
                0 <= i < rects@.len() ==> rect_within(
                    #[trigger] rects@[i],
                    COORD_WIDE_LIMIT as int,
                ),
        ensures
            r == spec_union(rects@),
    {
        let n = rects.len();
        if n == 0 {
            return None;
        }
        let first = rects[0];
        let mut max_width = first.size.width;
        let mut max_height = first.size.height;
        let mut min_x = first.origin.x;
        let mut min_y = first.origin.y;
        let mut i: usize = 1;
        proof {
            assert(rects@.subrange(0, 1) =~= seq![rects@[0]]);
        }
        while i < n
            invariant
                1 <= i <= n,
                n == rects@.len(),
                forall|j: int|
                    0 <= j < rects@.len() ==> rect_within(
                        #[trigger] rects@[j],
                        COORD_WIDE_LIMIT as int,
                    ),
                (max_width as int, max_height as int, min_x as int, min_y as int)
                    == spec_union_state(rects@.subrange(0, i as int)),
                -COORD_WIDE_LIMIT <= min_x <= COORD_WIDE_LIMIT,
                -COORD_WIDE_LIMIT <= min_y <= COORD_WIDE_LIMIT,
                -COORD_WIDE_LIMIT <= max_width <= 3 * COORD_WIDE_LIMIT,
                -COORD_WIDE_LIMIT <= max_height <= 3 * COORD_WIDE_LIMIT,
            decreases n - i,
        {
            let r = rects[i];
            let cur_lower_right_x = r.origin.x + r.size.width;
            let cur_lower_right_y = r.origin.y + r.size.height;
            let cand_w = cur_lower_right_x - min_x;
            let cand_h = cur_lower_right_y - min_y;
            if cand_w > max_width {
                max_width = cand_w;
            }
            if cand_h > max_height {
                max_height = cand_h;
            }
            if r.origin.x < min_x {
                min_x = r.origin.x;
            }
            if r.origin.y < min_y {
                min_y = r.origin.y;
            }
            proof {
                assert(rects@.subrange(0, i + 1).drop_last() =~= rects@.subrange(0, i as int));
                assert(rects@.subrange(0, i + 1).last() == rects@[i as int]);
            }
            i = i + 1;
        }
        proof {
            assert(rects@.subrange(0, n as int) =~= rects@);
        }
        Some(
            LayoutRect {
                origin: LayoutPoint { x: min_x, y: min_y },
                size: LayoutSize { width: max_width, height: max_height },
            },
        )
    }

    /// The scroll extent of a parent together with its children: the
    /// children's combined extent, folded once more with the parent.
    pub fn get_scroll_rect(&self, children: &[LayoutRect]) -> (r: Option<LayoutRect>)
        requires
            rect_within(*self, COORD_LIMIT as int),
            forall|i: int|
                0 <= i < children@.len() ==> rect_within(#[trigger] children@[i], COORD_LIMIT as int),
        ensures
            r == (match spec_union(children@) {
                None => None::<LayoutRect>,
                Some(u) => spec_union(seq![*self, u]),
            }),
    {
        let children_union = match Self::union(children) {
            Some(u) => u,
            None => {
                return None;
            },
        };
        let pair: [LayoutRect; 2] = [*self, children_union];
        proof {
            lemma_union_state_bounded(children@, COORD_LIMIT as int);
            assert(pair@ =~= seq![*self, children_union]);
        }
        Self::union(pair.as_slice())
    }

    /// Whether `b` lies entirely inside `self`.
    pub open spec fn spec_contains_rect(self, b: LayoutRect) -> bool {
        &&& b.origin.x >= self.origin.x
        &&& b.origin.y >= self.origin.y
        &&& b.origin.x + b.size.width <= self.origin.x + self.size.width
        &&& b.origin.y + b.size.height <= self.origin.y + self.size.height
    }

    pub fn contains_rect(&self, b: &LayoutRect) -> (r: bool)
        requires
            rect_within(*self, COORD_WIDE_LIMIT as int),
            rect_within(*b, COORD_WIDE_LIMIT as int),
        ensures
            r == self.spec_contains_rect(*b),
    {
        let a = self;
        let a_x = a.origin.x;
        let a_y = a.origin.y;
        let a_width = a.size.width;
        let a_height = a.size.height;
        let b_x = b.origin.x;
        let b_y = b.origin.y;
        let b_width = b.size.width;
        let b_height = b.size.height;
        b_x >= a_x && b_y >= a_y && b_x + b_width <= a_x + a_width && b_y + b_height <= a_y
            + a_height
    }
}

} // verus!
