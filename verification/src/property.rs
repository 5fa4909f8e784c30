//! The closed union over every style property, the concrete payload types
//! its arms carry, and the classification predicates that drive
//! incremental layout invalidation.

use vstd::prelude::*;
use std::sync::Arc;
use crate::color::{ColorU, interp_channel};
use crate::units::{
    FloatValue, PercentageValue, PixelValue, AngleValue, SizeMetric, spec_pixel_interpolate,
    FP_SCALE, MAX_SCALED,
};
use crate::gradient::{
    StyleBackgroundContent, StyleBackgroundPosition, StyleBackgroundSize, StyleBackgroundRepeat,
};
use crate::value::Value;
use crate::text::{trim_spec, trim_ws, str_eq};

verus! {

/// A `color` (text color) value.
#[derive(Debug, Copy, Clone, PartialEq, Eq, PartialOrd, Ord, Hash, Structural)]
pub struct StyleTextColor(pub ColorU);

impl StyleTextColor {
    /// Per-channel linear blend of the wrapped color; see
    /// [`ColorU::interpolate`].
    pub fn interpolate(&self, other: &Self, t: &FloatValue) -> (r: Self)
        requires
            t.wf(),
        ensures
            r.0.r as int == interp_channel(self.0.r as int, other.0.r as int, t.0 as int),
            r.0.g as int == interp_channel(self.0.g as int, other.0.g as int, t.0 as int),
            r.0.b as int == interp_channel(self.0.b as int, other.0.b as int, t.0 as int),
            r.0.a as int == interp_channel(self.0.a as int, other.0.a as int, t.0 as int),
            other == self ==> r == *self,
    {
        Self(self.0.interpolate(&other.0, t))
    }
}

/// A `font-size` value.
#[derive(Debug, Copy, Clone, PartialEq, Eq, PartialOrd, Ord, Hash, Structural)]
pub struct StyleFontSize(pub PixelValue);

impl Default for StyleFontSize {
    /// One em.
    fn default() -> (r: Self)
        ensures
            r == StyleFontSize(PixelValue::spec_const_from_metric(crate::units::SizeMetric::Em, 1)),
    {
        StyleFontSize(PixelValue::const_em(1))
    }
}

/// Already-decoded font bytes, shared by reference from style values.
#[derive(Debug, PartialEq, Eq, PartialOrd, Ord, Hash)]
pub struct FontData(pub Vec<u8>);

/// A `font-family` entry.
#[derive(Debug, Clone, PartialEq, Eq, PartialOrd, Ord, Hash)]
pub enum StyleFontFamily {
    /// Native font, such as "monospace".
    System(String),
    /// Font loaded from a file.
    File(String),
    /// Reference-counted, already-decoded font data, owned by an external
    /// font cache; this core only carries the reference.
    Ref(Arc<FontData>),
}

/// Horizontal text alignment.
#[derive(Debug, Copy, Clone, PartialEq, Eq, PartialOrd, Ord, Hash, Structural)]
pub enum StyleTextAlign {
    Left,
    Center,
    Right,
}

impl Default for StyleTextAlign {
    fn default() -> (r: Self)
        ensures
            r == StyleTextAlign::Left,
    {
        StyleTextAlign::Left
    }
}

/// A `letter-spacing` value.
#[derive(Debug, Copy, Clone, PartialEq, Eq, PartialOrd, Ord, Hash, Structural)]
pub struct StyleLetterSpacing(pub PixelValue);

impl Default for StyleLetterSpacing {
    fn default() -> (r: Self)
        ensures
            r == StyleLetterSpacing(
                PixelValue::spec_const_from_metric(crate::units::SizeMetric::Px, 0),
            ),
    {
        StyleLetterSpacing(PixelValue::const_px(0))
    }
}

/// A `line-height` value.
#[derive(Debug, Copy, Clone, PartialEq, Eq, PartialOrd, Ord, Hash, Structural)]
pub struct StyleLineHeight(pub PercentageValue);

impl Default for StyleLineHeight {
    /// One hundred percent.
    fn default() -> (r: Self)
        ensures
            r.0.spec_scaled() == 100 * FP_SCALE,
    {
        StyleLineHeight(PercentageValue::const_new(100))
    }
}

/// A `word-spacing` value.
#[derive(Debug, Copy, Clone, PartialEq, Eq, PartialOrd, Ord, Hash, Structural)]
pub struct StyleWordSpacing(pub PixelValue);

impl Default for StyleWordSpacing {
    fn default() -> (r: Self)
        ensures
            r == StyleWordSpacing(
                PixelValue::spec_const_from_metric(crate::units::SizeMetric::Px, 0),
            ),
    {
        StyleWordSpacing(PixelValue::const_px(0))
    }
}

/// A `tab-width` value.
#[derive(Debug, Copy, Clone, PartialEq, Eq, PartialOrd, Ord, Hash, Structural)]
pub struct StyleTabWidth(pub PercentageValue);

impl Default for StyleTabWidth {
    /// One hundred percent.
    fn default() -> (r: Self)
        ensures
            r.0.spec_scaled() == 100 * FP_SCALE,
    {
        StyleTabWidth(PercentageValue::const_new(100))
    }
}

/// A `cursor` value.
#[derive(Debug, Copy, Clone, PartialEq, Eq, PartialOrd, Ord, Hash, Structural)]
pub enum StyleCursor {
    /// `alias`
    Alias,
    /// `all-scroll`
    AllScroll,
    /// `cell`
    Cell,
    /// `col-resize`
    ColResize,
    /// `context-menu`
    ContextMenu,
    /// `copy`
    CopyCursor,
    /// `crosshair`
    Crosshair,
    /// `default` — the plain arrow cursor
    Arrow,
    /// `e-resize`
    EResize,
    /// `ew-resize`
    EwResize,
    /// `grab`
    Grab,
    /// `grabbing`
    Grabbing,
    /// `help`
    Help,
    /// `move`
    Move,
    /// `n-resize`
    NResize,
    /// `ns-resize`
    NsResize,
    /// `nesw-resize`
    NeswResize,
    /// `nwse-resize`
    NwseResize,
    /// `pointer`
    Pointer,
    /// `progress`
    Progress,
    /// `row-resize`
    RowResize,
    /// `s-resize`
    SResize,
    /// `se-resize`
    SeResize,
    /// `text`
    Text,
    /// `unset`
    Unset,
    /// `vertical-text`
    VerticalText,
    /// `w-resize`
    WResize,
    /// `wait`
    Wait,
    /// `zoom-in`
    ZoomIn,
    /// `zoom-out`
    ZoomOut,
}

impl Default for StyleCursor {
    fn default() -> (r: Self)
        ensures
            r == StyleCursor::Arrow,
    {
        StyleCursor::Arrow
    }
}

/// A `display` value.
#[derive(Debug, Copy, Clone, PartialEq, Eq, PartialOrd, Ord, Hash, Structural)]
pub enum LayoutDisplay {
    /// `display: none`
    NoDisplay,
    Flex,
    Block,
    InlineBlock,
}

impl Default for LayoutDisplay {
    fn default() -> (r: Self)
        ensures
            r == LayoutDisplay::Flex,
    {
        LayoutDisplay::Flex
    }
}

/// A `float` value.
#[derive(Debug, Copy, Clone, PartialEq, Eq, PartialOrd, Ord, Hash, Structural)]
pub enum LayoutFloat {
    Left,
    Right,
}

impl Default for LayoutFloat {
    fn default() -> (r: Self)
        ensures
            r == LayoutFloat::Left,
    {
        LayoutFloat::Left
    }
}

/// A `box-sizing` value.
#[derive(Debug, Copy, Clone, PartialEq, Eq, PartialOrd, Ord, Hash, Structural)]
pub enum LayoutBoxSizing {
    ContentBox,
    BorderBox,
}

impl Default for LayoutBoxSizing {
    fn default() -> (r: Self)
        ensures
            r == LayoutBoxSizing::ContentBox,
    {
        LayoutBoxSizing::ContentBox
    }
}

/// A `width` value.
#[derive(Debug, Copy, Clone, PartialEq, Eq, PartialOrd, Ord, Hash, Structural)]
pub struct LayoutWidth(pub PixelValue);

/// A `min-width` value.
#[derive(Debug, Copy, Clone, PartialEq, Eq, PartialOrd, Ord, Hash, Structural)]
pub struct LayoutMinWidth(pub PixelValue);

/// A `max-width` value.
#[derive(Debug, Copy, Clone, PartialEq, Eq, PartialOrd, Ord, Hash, Structural)]
pub struct LayoutMaxWidth(pub PixelValue);

/// A `height` value.
#[derive(Debug, Copy, Clone, PartialEq, Eq, PartialOrd, Ord, Hash, Structural)]
pub struct LayoutHeight(pub PixelValue);

/// A `min-height` value.
#[derive(Debug, Copy, Clone, PartialEq, Eq, PartialOrd, Ord, Hash, Structural)]
pub struct LayoutMinHeight(pub PixelValue);

/// A `max-height` value.
#[derive(Debug, Copy, Clone, PartialEq, Eq, PartialOrd, Ord, Hash, Structural)]
pub struct LayoutMaxHeight(pub PixelValue);

impl Default for LayoutWidth {
    fn default() -> (r: Self)
        ensures
            r == LayoutWidth(PixelValue::spec_const_from_metric(SizeMetric::Px, 0)),
    {
        LayoutWidth(PixelValue::const_px(0))
    }
}

impl Default for LayoutMinWidth {
    fn default() -> (r: Self)
        ensures
            r == LayoutMinWidth(PixelValue::spec_const_from_metric(SizeMetric::Px, 0)),
    {
        LayoutMinWidth(PixelValue::const_px(0))
    }
}

impl Default for LayoutHeight {
    fn default() -> (r: Self)
        ensures
            r == LayoutHeight(PixelValue::spec_const_from_metric(SizeMetric::Px, 0)),
    {
        LayoutHeight(PixelValue::const_px(0))
    }
}

impl Default for LayoutMinHeight {
    fn default() -> (r: Self)
        ensures
            r == LayoutMinHeight(PixelValue::spec_const_from_metric(SizeMetric::Px, 0)),
    {
        LayoutMinHeight(PixelValue::const_px(0))
    }
}

impl Default for LayoutMaxWidth {
    /// The largest representable pixel length.
    fn default() -> (r: Self)
        ensures
            r == LayoutMaxWidth(
                PixelValue { metric: SizeMetric::Px, number: FloatValue(MAX_SCALED) },
            ),
    {
        LayoutMaxWidth(PixelValue { metric: SizeMetric::Px, number: FloatValue(MAX_SCALED) })
    }
}

impl Default for LayoutMaxHeight {
    /// The largest representable pixel length.
    fn default() -> (r: Self)
        ensures
            r == LayoutMaxHeight(
                PixelValue { metric: SizeMetric::Px, number: FloatValue(MAX_SCALED) },
            ),
    {
        LayoutMaxHeight(PixelValue { metric: SizeMetric::Px, number: FloatValue(MAX_SCALED) })
    }
}

/// A `top` value.
#[derive(Debug, Copy, Clone, PartialEq, Eq, PartialOrd, Ord, Hash, Structural)]
pub struct LayoutTop(pub PixelValue);

/// A `left` value.
#[derive(Debug, Copy, Clone, PartialEq, Eq, PartialOrd, Ord, Hash, Structural)]
pub struct LayoutLeft(pub PixelValue);

/// A `right` value.
#[derive(Debug, Copy, Clone, PartialEq, Eq, PartialOrd, Ord, Hash, Structural)]
pub struct LayoutRight(pub PixelValue);

/// A `bottom` value.
#[derive(Debug, Copy, Clone, PartialEq, Eq, PartialOrd, Ord, Hash, Structural)]
pub struct LayoutBottom(pub PixelValue);

impl Default for LayoutTop {
    fn default() -> (r: Self)
        ensures
            r == LayoutTop(PixelValue::spec_const_from_metric(SizeMetric::Px, 0)),
    {
        LayoutTop(PixelValue::const_px(0))
    }
}

impl Default for LayoutLeft {
    fn default() -> (r: Self)
        ensures
            r == LayoutLeft(PixelValue::spec_const_from_metric(SizeMetric::Px, 0)),
    {
        LayoutLeft(PixelValue::const_px(0))
    }
}

impl Default for LayoutRight {
    fn default() -> (r: Self)
        ensures
            r == LayoutRight(PixelValue::spec_const_from_metric(SizeMetric::Px, 0)),
    {
        LayoutRight(PixelValue::const_px(0))
    }
}

impl Default for LayoutBottom {
    fn default() -> (r: Self)
        ensures
            r == LayoutBottom(PixelValue::spec_const_from_metric(SizeMetric::Px, 0)),
    {
        LayoutBottom(PixelValue::const_px(0))
    }
}

/// A `position` value. No inline positioning is supported.
#[derive(Debug, Copy, Clone, PartialEq, Eq, PartialOrd, Ord, Hash, Structural)]
pub enum LayoutPosition {
    Static,
    Relative,
    Absolute,
    Fixed,
}

impl LayoutPosition {
    /// Whether the node takes part in positioned layout, i.e. is anything
    /// but `static`.
    pub fn is_positioned(&self) -> (r: bool)
        ensures
            r == (*self != LayoutPosition::Static),
    {
        *self != LayoutPosition::Static
    }
}

impl Default for LayoutPosition {
    fn default() -> (r: Self)
        ensures
            r == LayoutPosition::Static,
    {
        LayoutPosition::Static
    }
}

/// A `flex-wrap` value.
#[derive(Debug, Copy, Clone, PartialEq, Eq, PartialOrd, Ord, Hash, Structural)]
pub enum LayoutFlexWrap {
    Wrap,
    NoWrap,
}

impl Default for LayoutFlexWrap {
    fn default() -> (r: Self)
        ensures
            r == LayoutFlexWrap::Wrap,
    {
        LayoutFlexWrap::Wrap
    }
}

/// A `flex-direction` value.
#[derive(Debug, Copy, Clone, PartialEq, Eq, PartialOrd, Ord, Hash, Structural)]
pub enum LayoutFlexDirection {
    Row,
    RowReverse,
    Column,
    ColumnReverse,
}

impl Default for LayoutFlexDirection {
    fn default() -> (r: Self)
        ensures
            r == LayoutFlexDirection::Column,
    {
        LayoutFlexDirection::Column
    }
}

/// The axis a flex direction lays out along, reverse or not.
#[derive(Debug, Copy, Clone, PartialEq, Eq, PartialOrd, Ord, Hash, Structural)]
pub enum LayoutAxis {
    Horizontal,
    Vertical,
}

impl LayoutFlexDirection {
    /// The axis of this direction: rows are horizontal, columns vertical.
    pub fn get_axis(&self) -> (r: LayoutAxis)
        ensures
            r == (match *self {
                LayoutFlexDirection::Row | LayoutFlexDirection::RowReverse => LayoutAxis::Horizontal,
                LayoutFlexDirection::Column | LayoutFlexDirection::ColumnReverse
                    => LayoutAxis::Vertical,
            }),
    {
        match self {
            LayoutFlexDirection::Row | LayoutFlexDirection::RowReverse => LayoutAxis::Horizontal,
            LayoutFlexDirection::Column | LayoutFlexDirection::ColumnReverse => LayoutAxis::Vertical,
        }
    }

    /// Whether this is a `row-reverse` or `column-reverse` direction.
    pub fn is_reverse(&self) -> (r: bool)
        ensures
            r == (*self == LayoutFlexDirection::RowReverse || *self
                == LayoutFlexDirection::ColumnReverse),
    {
        *self == LayoutFlexDirection::RowReverse || *self == LayoutFlexDirection::ColumnReverse
    }
}

/// A `flex-grow` value.
#[derive(Debug, Copy, Clone, PartialEq, Eq, PartialOrd, Ord, Hash, Structural)]
pub struct LayoutFlexGrow(pub FloatValue);

impl Default for LayoutFlexGrow {
    fn default() -> (r: Self)
        ensures
            r == LayoutFlexGrow(FloatValue(0i64)),
    {
        LayoutFlexGrow(FloatValue(0))
    }
}

/// A `flex-shrink` value.
#[derive(Debug, Copy, Clone, PartialEq, Eq, PartialOrd, Ord, Hash, Structural)]
pub struct LayoutFlexShrink(pub FloatValue);

impl Default for LayoutFlexShrink {
    fn default() -> (r: Self)
        ensures
            r == LayoutFlexShrink(FloatValue(0i64)),
    {
        LayoutFlexShrink(FloatValue(0))
    }
}

/// A `justify-content` value.
#[derive(Debug, Copy, Clone, PartialEq, Eq, PartialOrd, Ord, Hash, Structural)]
pub enum LayoutJustifyContent {
    /// Items are positioned at the beginning of the container.
    Start,
    /// Items are positioned at the end of the container.
    End,
    /// Items are positioned at the center of the container.
    Center,
    /// Items are positioned with space between the lines.
    SpaceBetween,
    /// Items are positioned with space before, between and after the lines.
    SpaceAround,
    /// Spacing between and around all alignment subjects is the same.
    SpaceEvenly,
}

impl Default for LayoutJustifyContent {
    fn default() -> (r: Self)
        ensures
            r == LayoutJustifyContent::Start,
    {
        LayoutJustifyContent::Start
    }
}

/// An `align-items` value.
#[derive(Debug, Copy, Clone, PartialEq, Eq, PartialOrd, Ord, Hash, Structural)]
pub enum LayoutAlignItems {
    /// Items are stretched to fit the container.
    Stretch,
    /// Items are positioned at the center of the container.
    Center,
    /// Items are positioned at the beginning of the container.
    FlexStart,
    /// Items are positioned at the end of the container.
    FlexEnd,
}

impl Default for LayoutAlignItems {
    fn default() -> (r: Self)
        ensures
            r == LayoutAlignItems::FlexStart,
    {
        LayoutAlignItems::FlexStart
    }
}

/// An `align-content` value.
#[derive(Debug, Copy, Clone, PartialEq, Eq, PartialOrd, Ord, Hash, Structural)]
pub enum LayoutAlignContent {
    /// Lines stretch to take up the remaining space.
    Stretch,
    /// Lines are packed toward the center of the flex container.
    Center,
    /// Lines are packed toward the start of the flex container.
    Start,
    /// Lines are packed toward the end of the flex container.
    End,
    /// Lines are evenly distributed in the flex container.
    SpaceBetween,
    /// As `SpaceBetween`, with half-size spaces on either end.
    SpaceAround,
}

impl Default for LayoutAlignContent {
    fn default() -> (r: Self)
        ensures
            r == LayoutAlignContent::Stretch,
    {
        LayoutAlignContent::Stretch
    }
}

/// An `overflow-x` or `overflow-y` value.
#[derive(Debug, Copy, Clone, PartialEq, Eq, PartialOrd, Ord, Hash, Structural)]
pub enum LayoutOverflow {
    /// Always shows a scroll bar, overflows on scroll.
    Scroll,
    /// Shows a scroll bar only when the content is overflowing.
    Auto,
    /// Never shows a scroll bar, clips the content.
    Hidden,
    /// No scroll bar, the content simply overflows.
    Visible,
}

impl Default for LayoutOverflow {
    fn default() -> (r: Self)
        ensures
            r == LayoutOverflow::Auto,
    {
        LayoutOverflow::Auto
    }
}

impl LayoutOverflow {
    /// Whether this overflow mode displays scrollbars: `scroll` always,
    /// `auto` only while the content currently overflows, the rest never.
    pub fn needs_scrollbar(&self, currently_overflowing: bool) -> (r: bool)
        ensures
            r == (match *self {
                LayoutOverflow::Scroll => true,
                LayoutOverflow::Auto => currently_overflowing,
                LayoutOverflow::Hidden | LayoutOverflow::Visible => false,
            }),
    {
        match self {
            LayoutOverflow::Scroll => true,
            LayoutOverflow::Auto => currently_overflowing,
            LayoutOverflow::Hidden | LayoutOverflow::Visible => false,
        }
    }

    /// Whether this is `overflow: visible`, the only mode that does not
    /// clip its children.
    pub fn is_overflow_visible(&self) -> (r: bool)
        ensures
            r == (*self == LayoutOverflow::Visible),
    {
        *self == LayoutOverflow::Visible
    }

    /// Whether this is `overflow: hidden`.
    pub fn is_overflow_hidden(&self) -> (r: bool)
        ensures
            r == (*self == LayoutOverflow::Hidden),
    {
        *self == LayoutOverflow::Hidden
    }
}

/// A `padding-top` value.
#[derive(Debug, Copy, Clone, PartialEq, Eq, PartialOrd, Ord, Hash, Structural)]
pub struct LayoutPaddingTop(pub PixelValue);

/// A `padding-left` value.
#[derive(Debug, Copy, Clone, PartialEq, Eq, PartialOrd, Ord, Hash, Structural)]
pub struct LayoutPaddingLeft(pub PixelValue);

/// A `padding-right` value.
#[derive(Debug, Copy, Clone, PartialEq, Eq, PartialOrd, Ord, Hash, Structural)]
pub struct LayoutPaddingRight(pub PixelValue);

/// A `padding-bottom` value.
#[derive(Debug, Copy, Clone, PartialEq, Eq, PartialOrd, Ord, Hash, Structural)]
pub struct LayoutPaddingBottom(pub PixelValue);

/// A `margin-top` value.
#[derive(Debug, Copy, Clone, PartialEq, Eq, PartialOrd, Ord, Hash, Structural)]
pub struct LayoutMarginTop(pub PixelValue);

/// A `margin-left` value.
#[derive(Debug, Copy, Clone, PartialEq, Eq, PartialOrd, Ord, Hash, Structural)]
pub struct LayoutMarginLeft(pub PixelValue);

/// A `margin-right` value.
#[derive(Debug, Copy, Clone, PartialEq, Eq, PartialOrd, Ord, Hash, Structural)]
pub struct LayoutMarginRight(pub PixelValue);

/// A `margin-bottom` value.
#[derive(Debug, Copy, Clone, PartialEq, Eq, PartialOrd, Ord, Hash, Structural)]
pub struct LayoutMarginBottom(pub PixelValue);

impl Default for LayoutPaddingTop {
    fn default() -> (r: Self)
        ensures
            r == LayoutPaddingTop(PixelValue::spec_const_from_metric(SizeMetric::Px, 0)),
    {
        LayoutPaddingTop(PixelValue::const_px(0))
    }
}

impl Default for LayoutPaddingLeft {
    fn default() -> (r: Self)
        ensures
            r == LayoutPaddingLeft(PixelValue::spec_const_from_metric(SizeMetric::Px, 0)),
    {
        LayoutPaddingLeft(PixelValue::const_px(0))
    }
}

impl Default for LayoutPaddingRight {
    fn default() -> (r: Self)
        ensures
            r == LayoutPaddingRight(PixelValue::spec_const_from_metric(SizeMetric::Px, 0)),
    {
        LayoutPaddingRight(PixelValue::const_px(0))
    }
}

impl Default for LayoutPaddingBottom {
    fn default() -> (r: Self)
        ensures
            r == LayoutPaddingBottom(PixelValue::spec_const_from_metric(SizeMetric::Px, 0)),
    {
        LayoutPaddingBottom(PixelValue::const_px(0))
    }
}

impl Default for LayoutMarginTop {
    fn default() -> (r: Self)
        ensures
            r == LayoutMarginTop(PixelValue::spec_const_from_metric(SizeMetric::Px, 0)),
    {
        LayoutMarginTop(PixelValue::const_px(0))
    }
}

impl Default for LayoutMarginLeft {
    fn default() -> (r: Self)
        ensures
            r == LayoutMarginLeft(PixelValue::spec_const_from_metric(SizeMetric::Px, 0)),
    {
        LayoutMarginLeft(PixelValue::const_px(0))
    }
}

impl Default for LayoutMarginRight {
    fn default() -> (r: Self)
        ensures
            r == LayoutMarginRight(PixelValue::spec_const_from_metric(SizeMetric::Px, 0)),
    {
        LayoutMarginRight(PixelValue::const_px(0))
    }
}

impl Default for LayoutMarginBottom {
    fn default() -> (r: Self)
        ensures
            r == LayoutMarginBottom(PixelValue::spec_const_from_metric(SizeMetric::Px, 0)),
    {
        LayoutMarginBottom(PixelValue::const_px(0))
    }
}

/// A `border-top-left-radius` value.
#[derive(Debug, Copy, Clone, PartialEq, Eq, PartialOrd, Ord, Hash, Structural)]
pub struct StyleBorderTopLeftRadius(pub PixelValue);

/// A `border-bottom-left-radius` value.
#[derive(Debug, Copy, Clone, PartialEq, Eq, PartialOrd, Ord, Hash, Structural)]
pub struct StyleBorderBottomLeftRadius(pub PixelValue);

/// A `border-top-right-radius` value.
#[derive(Debug, Copy, Clone, PartialEq, Eq, PartialOrd, Ord, Hash, Structural)]
pub struct StyleBorderTopRightRadius(pub PixelValue);

/// A `border-bottom-right-radius` value.
#[derive(Debug, Copy, Clone, PartialEq, Eq, PartialOrd, Ord, Hash, Structural)]
pub struct StyleBorderBottomRightRadius(pub PixelValue);

impl Default for StyleBorderTopLeftRadius {
    fn default() -> (r: Self)
        ensures
            r == StyleBorderTopLeftRadius(PixelValue::spec_const_from_metric(SizeMetric::Px, 0)),
    {
        StyleBorderTopLeftRadius(PixelValue::const_px(0))
    }
}

impl Default for StyleBorderBottomLeftRadius {
    fn default() -> (r: Self)
        ensures
            r == StyleBorderBottomLeftRadius(PixelValue::spec_const_from_metric(SizeMetric::Px, 0)),
    {
        StyleBorderBottomLeftRadius(PixelValue::const_px(0))
    }
}

impl Default for StyleBorderTopRightRadius {
    fn default() -> (r: Self)
        ensures
            r == StyleBorderTopRightRadius(PixelValue::spec_const_from_metric(SizeMetric::Px, 0)),
    {
        StyleBorderTopRightRadius(PixelValue::const_px(0))
    }
}

impl Default for StyleBorderBottomRightRadius {
    fn default() -> (r: Self)
        ensures
            r == StyleBorderBottomRightRadius(
                PixelValue::spec_const_from_metric(SizeMetric::Px, 0),
            ),
    {
        StyleBorderBottomRightRadius(PixelValue::const_px(0))
    }
}

/// A `border-top-color` value.
#[derive(Debug, Copy, Clone, PartialEq, Eq, PartialOrd, Ord, Hash, Structural)]
pub struct StyleBorderTopColor(pub ColorU);

/// A `border-left-color` value.
#[derive(Debug, Copy, Clone, PartialEq, Eq, PartialOrd, Ord, Hash, Structural)]
pub struct StyleBorderLeftColor(pub ColorU);

/// A `border-right-color` value.
#[derive(Debug, Copy, Clone, PartialEq, Eq, PartialOrd, Ord, Hash, Structural)]
pub struct StyleBorderRightColor(pub ColorU);

/// A `border-bottom-color` value.
#[derive(Debug, Copy, Clone, PartialEq, Eq, PartialOrd, Ord, Hash, Structural)]
pub struct StyleBorderBottomColor(pub ColorU);

impl Default for StyleBorderTopColor {
    fn default() -> (r: Self)
        ensures
            r == StyleBorderTopColor(ColorU { r: 0u8, g: 0u8, b: 0u8, a: 255u8 }),
    {
        StyleBorderTopColor(ColorU::black())
    }
}

impl Default for StyleBorderLeftColor {
    fn default() -> (r: Self)
        ensures
            r == StyleBorderLeftColor(ColorU { r: 0u8, g: 0u8, b: 0u8, a: 255u8 }),
    {
        StyleBorderLeftColor(ColorU::black())
    }
}

impl Default for StyleBorderRightColor {
    fn default() -> (r: Self)
        ensures
            r == StyleBorderRightColor(ColorU { r: 0u8, g: 0u8, b: 0u8, a: 255u8 }),
    {
        StyleBorderRightColor(ColorU::black())
    }
}

impl Default for StyleBorderBottomColor {
    fn default() -> (r: Self)
        ensures
            r == StyleBorderBottomColor(ColorU { r: 0u8, g: 0u8, b: 0u8, a: 255u8 }),
    {
        StyleBorderBottomColor(ColorU::black())
    }
}

/// The stroke style of a border: solid, double, dashed, and so on.
#[derive(Debug, Copy, Clone, PartialEq, Eq, PartialOrd, Ord, Hash, Structural)]
pub enum BorderStyle {
    /// `border-style: none`
    NoStyle,
    Solid,
    Double,
    Dotted,
    Dashed,
    Hidden,
    Groove,
    Ridge,
    Inset,
    Outset,
}

impl BorderStyle {
    /// Whether the border style draws anything at all.
    pub fn is_normalized(&self) -> (r: bool)
        ensures
            r == (*self != BorderStyle::NoStyle),
    {
        match self {
            BorderStyle::NoStyle => false,
            _ => true,
        }
    }
}

impl Default for BorderStyle {
    fn default() -> (r: Self)
        ensures
            r == BorderStyle::Solid,
    {
        BorderStyle::Solid
    }
}

/// The CSS keyword of a border style.
pub open spec fn spec_border_style_str(s: BorderStyle) -> Seq<char> {
    match s {
        BorderStyle::NoStyle => "none"@,
        BorderStyle::Solid => "solid"@,
        BorderStyle::Double => "double"@,
        BorderStyle::Dotted => "dotted"@,
        BorderStyle::Dashed => "dashed"@,
        BorderStyle::Hidden => "hidden"@,
        BorderStyle::Groove => "groove"@,
        BorderStyle::Ridge => "ridge"@,
        BorderStyle::Inset => "inset"@,
        BorderStyle::Outset => "outset"@,
    }
}

impl BorderStyle {
    /// The CSS keyword of this border style.
    pub fn to_str(&self) -> (r: &'static str)
        ensures
            r@ == spec_border_style_str(*self),
    {
        match self {
            BorderStyle::NoStyle => "none",
            BorderStyle::Solid => "solid",
            BorderStyle::Double => "double",
            BorderStyle::Dotted => "dotted",
            BorderStyle::Dashed => "dashed",
            BorderStyle::Hidden => "hidden",
            BorderStyle::Groove => "groove",
            BorderStyle::Ridge => "ridge",
            BorderStyle::Inset => "inset",
            BorderStyle::Outset => "outset",
        }
    }
}

/// A `border-top-style` value.
#[derive(Debug, Copy, Clone, PartialEq, Eq, PartialOrd, Ord, Hash, Structural)]
pub struct StyleBorderTopStyle(pub BorderStyle);

/// A `border-left-style` value.
#[derive(Debug, Copy, Clone, PartialEq, Eq, PartialOrd, Ord, Hash, Structural)]
pub struct StyleBorderLeftStyle(pub BorderStyle);

/// A `border-right-style` value.
#[derive(Debug, Copy, Clone, PartialEq, Eq, PartialOrd, Ord, Hash, Structural)]
pub struct StyleBorderRightStyle(pub BorderStyle);

/// A `border-bottom-style` value.
#[derive(Debug, Copy, Clone, PartialEq, Eq, PartialOrd, Ord, Hash, Structural)]
pub struct StyleBorderBottomStyle(pub BorderStyle);

impl Default for StyleBorderTopStyle {
    fn default() -> (r: Self)
        ensures
            r == StyleBorderTopStyle(BorderStyle::Solid),
    {
        StyleBorderTopStyle(BorderStyle::Solid)
    }
}

impl Default for StyleBorderLeftStyle {
    fn default() -> (r: Self)
        ensures
            r == StyleBorderLeftStyle(BorderStyle::Solid),
    {
        StyleBorderLeftStyle(BorderStyle::Solid)
    }
}

impl Default for StyleBorderRightStyle {
    fn default() -> (r: Self)
        ensures
            r == StyleBorderRightStyle(BorderStyle::Solid),
    {
        StyleBorderRightStyle(BorderStyle::Solid)
    }
}

impl Default for StyleBorderBottomStyle {
    fn default() -> (r: Self)
        ensures
            r == StyleBorderBottomStyle(BorderStyle::Solid),
    {
        StyleBorderBottomStyle(BorderStyle::Solid)
    }
}

/// A `border-top-width` value.
#[derive(Debug, Copy, Clone, PartialEq, Eq, PartialOrd, Ord, Hash, Structural)]
pub struct LayoutBorderTopWidth(pub PixelValue);

/// A `border-left-width` value.
#[derive(Debug, Copy, Clone, PartialEq, Eq, PartialOrd, Ord, Hash, Structural)]
pub struct LayoutBorderLeftWidth(pub PixelValue);

/// A `border-right-width` value.
#[derive(Debug, Copy, Clone, PartialEq, Eq, PartialOrd, Ord, Hash, Structural)]
pub struct LayoutBorderRightWidth(pub PixelValue);

/// A `border-bottom-width` value.
#[derive(Debug, Copy, Clone, PartialEq, Eq, PartialOrd, Ord, Hash, Structural)]
pub struct LayoutBorderBottomWidth(pub PixelValue);

impl Default for LayoutBorderTopWidth {
    fn default() -> (r: Self)
        ensures
            r == LayoutBorderTopWidth(PixelValue::spec_const_from_metric(SizeMetric::Px, 0)),
    {
        LayoutBorderTopWidth(PixelValue::const_px(0))
    }
}

impl Default for LayoutBorderLeftWidth {
    fn default() -> (r: Self)
        ensures
            r == LayoutBorderLeftWidth(PixelValue::spec_const_from_metric(SizeMetric::Px, 0)),
    {
        LayoutBorderLeftWidth(PixelValue::const_px(0))
    }
}

impl Default for LayoutBorderRightWidth {
    fn default() -> (r: Self)
        ensures
            r == LayoutBorderRightWidth(PixelValue::spec_const_from_metric(SizeMetric::Px, 0)),
    {
        LayoutBorderRightWidth(PixelValue::const_px(0))
    }
}

impl Default for LayoutBorderBottomWidth {
    fn default() -> (r: Self)
        ensures
            r == LayoutBorderBottomWidth(PixelValue::spec_const_from_metric(SizeMetric::Px, 0)),
    {
        LayoutBorderBottomWidth(PixelValue::const_px(0))
    }
}

/// The direction a `box-shadow` is clipped in.
#[derive(Debug, Copy, Clone, PartialEq, Eq, PartialOrd, Ord, Hash, Structural)]
pub enum BoxShadowClipMode {
    Outset,
    Inset,
}

/// The CSS keyword of a box-shadow clip mode.
pub open spec fn spec_clip_mode_str(m: BoxShadowClipMode) -> Seq<char> {
    match m {
        BoxShadowClipMode::Outset => "outset"@,
        BoxShadowClipMode::Inset => "inset"@,
    }
}

impl BoxShadowClipMode {
    /// The CSS keyword of this clip mode.
    pub fn to_str(&self) -> (r: &'static str)
        ensures
            r@ == spec_clip_mode_str(*self),
    {
        match self {
            BoxShadowClipMode::Outset => "outset",
            BoxShadowClipMode::Inset => "inset",
        }
    }
}

/// A `box-shadow` value.
#[derive(Debug, Copy, Clone, PartialEq, Eq, PartialOrd, Ord, Hash)]
pub struct StyleBoxShadow {
    pub offset: (PixelValue, PixelValue),
    pub color: ColorU,
    pub blur_radius: PixelValue,
    pub spread_radius: PixelValue,
    pub clip_mode: BoxShadowClipMode,
}

/// Everything needed to lay out and style one scrollbar.
#[derive(Debug, Clone, PartialEq, Eq, PartialOrd, Ord, Hash)]
pub struct ScrollbarInfo {
    /// Total width (or height, for horizontal scrollbars) of the scrollbar
    /// in pixels.
    pub width: LayoutWidth,
    /// Padding of the scrollbar tracker; the inner bar is `width - padding`
    /// pixels wide.
    pub padding_left: LayoutPaddingLeft,
    /// Padding of the scrollbar on the other side.
    pub padding_right: LayoutPaddingRight,
    /// Background of the scrollbar track.
    pub track: StyleBackgroundContent,
    /// Style of the scrollbar thumb.
    pub thumb: StyleBackgroundContent,
    /// Style of the directional buttons.
    pub button: StyleBackgroundContent,
    /// The corner where two scrollbars meet.
    pub corner: StyleBackgroundContent,
    /// The draggable resizing handle above that corner.
    pub resizer: StyleBackgroundContent,
}

impl Default for ScrollbarInfo {
    /// The conventional light-grey scrollbar: a 17-pixel bar, 2-pixel
    /// paddings, and grey track, thumb and button colors.
    fn default() -> (r: Self)
        ensures
            r.width == LayoutWidth(PixelValue::spec_const_from_metric(SizeMetric::Px, 17)),
            r.padding_left == LayoutPaddingLeft(
                PixelValue::spec_const_from_metric(SizeMetric::Px, 2),
            ),
            r.padding_right == LayoutPaddingRight(
                PixelValue::spec_const_from_metric(SizeMetric::Px, 2),
            ),
            r.track == StyleBackgroundContent::Color(
                ColorU { r: 241u8, g: 241u8, b: 241u8, a: 255u8 },
            ),
            r.thumb == StyleBackgroundContent::Color(
                ColorU { r: 193u8, g: 193u8, b: 193u8, a: 255u8 },
            ),
            r.button == StyleBackgroundContent::Color(
                ColorU { r: 163u8, g: 163u8, b: 163u8, a: 255u8 },
            ),
            r.corner == StyleBackgroundContent::Color(ColorU { r: 0u8, g: 0u8, b: 0u8, a: 0u8 }),
            r.resizer == StyleBackgroundContent::Color(ColorU { r: 0u8, g: 0u8, b: 0u8, a: 0u8 }),
    {
        ScrollbarInfo {
            width: LayoutWidth(PixelValue::const_px(17)),
            padding_left: LayoutPaddingLeft(PixelValue::const_px(2)),
            padding_right: LayoutPaddingRight(PixelValue::const_px(2)),
            track: StyleBackgroundContent::Color(ColorU { r: 241, g: 241, b: 241, a: 255 }),
            thumb: StyleBackgroundContent::Color(ColorU { r: 193, g: 193, b: 193, a: 255 }),
            button: StyleBackgroundContent::Color(ColorU { r: 163, g: 163, b: 163, a: 255 }),
            corner: Default::default(),
            resizer: Default::default(),
        }
    }
}

/// The styles of the two scrollbars of a scrollable element.
#[derive(Debug, Clone, PartialEq, Eq, PartialOrd, Ord, Hash)]
pub struct ScrollbarStyle {
    /// Style of the horizontal scrollbar.
    pub horizontal: ScrollbarInfo,
    /// Style of the vertical scrollbar.
    pub vertical: ScrollbarInfo,
}

impl Default for ScrollbarStyle {
    fn default() -> (r: Self)
        ensures
            call_ensures(<ScrollbarInfo as Default>::default, (), r.horizontal),
            call_ensures(<ScrollbarInfo as Default>::default, (), r.vertical),
    {
        ScrollbarStyle { horizontal: Default::default(), vertical: Default::default() }
    }
}

/// An `opacity` value.
#[derive(Debug, Copy, Clone, PartialEq, Eq, PartialOrd, Ord, Hash, Structural)]
pub struct StyleOpacity(pub PercentageValue);

impl Default for StyleOpacity {
    fn default() -> (r: Self)
        ensures
            r.0.spec_scaled() == 0,
    {
        StyleOpacity(PercentageValue::const_new(0))
    }
}

/// One transform operation of a `transform` list.
#[derive(Debug, Copy, Clone, PartialEq, Eq, PartialOrd, Ord, Hash, Structural)]
pub enum StyleTransform {
    Matrix(StyleTransformMatrix2D),
    Matrix3D(StyleTransformMatrix3D),
    Translate(StyleTransformTranslate2D),
    Translate3D(StyleTransformTranslate3D),
    TranslateX(PixelValue),
    TranslateY(PixelValue),
    TranslateZ(PixelValue),
    Rotate(AngleValue),
    Rotate3D(StyleTransformRotate3D),
    RotateX(AngleValue),
    RotateY(AngleValue),
    RotateZ(AngleValue),
    Scale(StyleTransformScale2D),
    Scale3D(StyleTransformScale3D),
    ScaleX(PercentageValue),
    ScaleY(PercentageValue),
    ScaleZ(PercentageValue),
    Skew(StyleTransformSkew2D),
    SkewX(PercentageValue),
    SkewY(PercentageValue),
    Perspective(PixelValue),
}

/// A 2D transform matrix.
#[derive(Debug, Copy, Clone, PartialEq, Eq, PartialOrd, Ord, Hash, Structural)]
pub struct StyleTransformMatrix2D {
    pub a: PixelValue,
    pub b: PixelValue,
    pub c: PixelValue,
    pub d: PixelValue,
    pub tx: PixelValue,
    pub ty: PixelValue,
}

/// A 3D transform matrix.
#[derive(Debug, Copy, Clone, PartialEq, Eq, PartialOrd, Ord, Hash, Structural)]
pub struct StyleTransformMatrix3D {
    pub m11: PixelValue,
    pub m12: PixelValue,
    pub m13: PixelValue,
    pub m14: PixelValue,
    pub m21: PixelValue,
    pub m22: PixelValue,
    pub m23: PixelValue,
    pub m24: PixelValue,
    pub m31: PixelValue,
    pub m32: PixelValue,
    pub m33: PixelValue,
    pub m34: PixelValue,
    pub m41: PixelValue,
    pub m42: PixelValue,
    pub m43: PixelValue,
    pub m44: PixelValue,
}

/// A 2D translation.
#[derive(Debug, Copy, Clone, PartialEq, Eq, PartialOrd, Ord, Hash, Structural)]
pub struct StyleTransformTranslate2D {
    pub x: PixelValue,
    pub y: PixelValue,
}

/// A 3D translation.
#[derive(Debug, Copy, Clone, PartialEq, Eq, PartialOrd, Ord, Hash, Structural)]
pub struct StyleTransformTranslate3D {
    pub x: PixelValue,
    pub y: PixelValue,
    pub z: PixelValue,
}

/// A rotation about an axis.
#[derive(Debug, Copy, Clone, PartialEq, Eq, PartialOrd, Ord, Hash, Structural)]
pub struct StyleTransformRotate3D {
    pub x: PercentageValue,
    pub y: PercentageValue,
    pub z: PercentageValue,
    pub angle: AngleValue,
}

/// A 2D scale.
#[derive(Debug, Copy, Clone, PartialEq, Eq, PartialOrd, Ord, Hash, Structural)]
pub struct StyleTransformScale2D {
    pub x: PercentageValue,
    pub y: PercentageValue,
}

/// A 3D scale.
#[derive(Debug, Copy, Clone, PartialEq, Eq, PartialOrd, Ord, Hash, Structural)]
pub struct StyleTransformScale3D {
    pub x: PercentageValue,
    pub y: PercentageValue,
    pub z: PercentageValue,
}

/// A 2D skew.
#[derive(Debug, Copy, Clone, PartialEq, Eq, PartialOrd, Ord, Hash, Structural)]
pub struct StyleTransformSkew2D {
    pub x: PercentageValue,
    pub y: PercentageValue,
}

/// A `transform-origin` value.
#[derive(Debug, Copy, Clone, PartialEq, Eq, PartialOrd, Ord, Hash, Structural)]
pub struct StyleTransformOrigin {
    pub x: PixelValue,
    pub y: PixelValue,
}

impl StyleTransformOrigin {
    /// Component-wise blend of the two coordinates; see
    /// [`PixelValue::interpolate`].
    pub fn interpolate(&self, other: &Self, t: &FloatValue) -> (r: Self)
        requires
            self.x.wf(),
            self.y.wf(),
            other.x.wf(),
            other.y.wf(),
            t.wf(),
        ensures
            r.x == spec_pixel_interpolate(self.x, other.x, t.0 as int),
            r.y == spec_pixel_interpolate(self.y, other.y, t.0 as int),
    {
        Self { x: self.x.interpolate(&other.x, t), y: self.y.interpolate(&other.y, t) }
    }
}

impl Default for StyleTransformOrigin {
    /// The center of the element: 50% in both directions.
    fn default() -> (r: Self)
        ensures
            r == (StyleTransformOrigin {
                x: PixelValue::spec_const_from_metric(SizeMetric::Percent, 50),
                y: PixelValue::spec_const_from_metric(SizeMetric::Percent, 50),
            }),
    {
        StyleTransformOrigin {
            x: PixelValue::const_percent(50),
            y: PixelValue::const_percent(50),
        }
    }
}

/// A `perspective-origin` value.
#[derive(Debug, Copy, Clone, PartialEq, Eq, PartialOrd, Ord, Hash, Structural)]
pub struct StylePerspectiveOrigin {
    pub x: PixelValue,
    pub y: PixelValue,
}

impl StylePerspectiveOrigin {
    /// Component-wise blend of the two coordinates; see
    /// [`PixelValue::interpolate`].
    pub fn interpolate(&self, other: &Self, t: &FloatValue) -> (r: Self)
        requires
            self.x.wf(),
            self.y.wf(),
            other.x.wf(),
            other.y.wf(),
            t.wf(),
        ensures
            r.x == spec_pixel_interpolate(self.x, other.x, t.0 as int),
            r.y == spec_pixel_interpolate(self.y, other.y, t.0 as int),
    {
        Self { x: self.x.interpolate(&other.x, t), y: self.y.interpolate(&other.y, t) }
    }
}

impl Default for StylePerspectiveOrigin {
    fn default() -> (r: Self)
        ensures
            r == (StylePerspectiveOrigin {
                x: PixelValue::spec_const_from_metric(SizeMetric::Px, 0),
                y: PixelValue::spec_const_from_metric(SizeMetric::Px, 0),
            }),
    {
        StylePerspectiveOrigin { x: PixelValue::const_px(0), y: PixelValue::const_px(0) }
    }
}

/// A `backface-visibility` value.
#[derive(Debug, Copy, Clone, PartialEq, Eq, PartialOrd, Ord, Hash, Structural)]
pub enum StyleBackfaceVisibility {
    Hidden,
    Visible,
}

impl Default for StyleBackfaceVisibility {
    fn default() -> (r: Self)
        ensures
            r == StyleBackfaceVisibility::Visible,
    {
        StyleBackfaceVisibility::Visible
    }
}

/// A `mix-blend-mode` value.
#[derive(Debug, Copy, Clone, PartialEq, Eq, PartialOrd, Ord, Hash, Structural)]
pub enum StyleMixBlendMode {
    Normal,
    Multiply,
    Screen,
    Overlay,
    Darken,
    Lighten,
    ColorDodge,
    ColorBurn,
    HardLight,
    SoftLight,
    Difference,
    Exclusion,
    Hue,
    Saturation,
    Color,
    Luminosity,
}

impl Default for StyleMixBlendMode {
    fn default() -> (r: Self)
        ensures
            r == StyleMixBlendMode::Normal,
    {
        StyleMixBlendMode::Normal
    }
}

/// The CSS keyword of a blend mode.
pub open spec fn spec_mix_blend_mode_str(m: StyleMixBlendMode) -> Seq<char> {
    match m {
        StyleMixBlendMode::Normal => "normal"@,
        StyleMixBlendMode::Multiply => "multiply"@,
        StyleMixBlendMode::Screen => "screen"@,
        StyleMixBlendMode::Overlay => "overlay"@,
        StyleMixBlendMode::Darken => "darken"@,
        StyleMixBlendMode::Lighten => "lighten"@,
        StyleMixBlendMode::ColorDodge => "color-dodge"@,
        StyleMixBlendMode::ColorBurn => "color-burn"@,
        StyleMixBlendMode::HardLight => "hard-light"@,
        StyleMixBlendMode::SoftLight => "soft-light"@,
        StyleMixBlendMode::Difference => "difference"@,
        StyleMixBlendMode::Exclusion => "exclusion"@,
        StyleMixBlendMode::Hue => "hue"@,
        StyleMixBlendMode::Saturation => "saturation"@,
        StyleMixBlendMode::Color => "color"@,
        StyleMixBlendMode::Luminosity => "luminosity"@,
    }
}

impl StyleMixBlendMode {
    /// The CSS keyword of this blend mode.
    pub fn to_str(&self) -> (r: &'static str)
        ensures
            r@ == spec_mix_blend_mode_str(*self),
    {
        match self {
            StyleMixBlendMode::Normal => "normal",
            StyleMixBlendMode::Multiply => "multiply",
            StyleMixBlendMode::Screen => "screen",
            StyleMixBlendMode::Overlay => "overlay",
            StyleMixBlendMode::Darken => "darken",
            StyleMixBlendMode::Lighten => "lighten",
            StyleMixBlendMode::ColorDodge => "color-dodge",
            StyleMixBlendMode::ColorBurn => "color-burn",
            StyleMixBlendMode::HardLight => "hard-light",
            StyleMixBlendMode::SoftLight => "soft-light",
            StyleMixBlendMode::Difference => "difference",
            StyleMixBlendMode::Exclusion => "exclusion",
            StyleMixBlendMode::Hue => "hue",
            StyleMixBlendMode::Saturation => "saturation",
            StyleMixBlendMode::Color => "color",
            StyleMixBlendMode::Luminosity => "luminosity",
        }
    }
}

/// One filter operation of a `filter` or `backdrop-filter` list.
#[derive(Debug, Clone, PartialEq, Eq, PartialOrd, Ord, Hash)]
pub enum StyleFilter {
    Blend(StyleMixBlendMode),
    Flood(ColorU),
    Blur(StyleBlur),
    Opacity(PercentageValue),
    ColorMatrix(StyleColorMatrix),
    DropShadow(StyleBoxShadow),
    ComponentTransfer,
    Offset(StyleFilterOffset),
    Composite(StyleCompositeFilter),
}

/// A blur extent.
#[derive(Debug, Clone, PartialEq, Eq, PartialOrd, Ord, Hash, Structural)]
pub struct StyleBlur {
    pub width: PixelValue,
    pub height: PixelValue,
}

/// A 5x4 color matrix.
#[derive(Debug, Clone, PartialEq, Eq, PartialOrd, Ord, Hash)]
pub struct StyleColorMatrix {
    pub matrix: [FloatValue; 20],
}

/// An offset filter.
#[derive(Debug, Clone, PartialEq, Eq, PartialOrd, Ord, Hash, Structural)]
pub struct StyleFilterOffset {
    pub x: PixelValue,
    pub y: PixelValue,
}

/// A compositing filter.
#[derive(Debug, Clone, PartialEq, Eq, PartialOrd, Ord, Hash)]
pub enum StyleCompositeFilter {
    Over,
    In,
    Atop,
    Out,
    Xor,
    Lighter,
    Arithmetic([FloatValue; 4]),
}

/// A CSS key without its value, such as `width` for [`Property::Width`].
#[derive(Debug, Copy, Clone, PartialEq, Eq, PartialOrd, Ord, Hash, Structural)]
pub enum PType {
    TextColor,
    FontSize,
    FontFamily,
    TextAlign,
    LetterSpacing,
    LineHeight,
    WordSpacing,
    TabWidth,
    Cursor,
    Display,
    Float,
    BoxSizing,
    Width,
    Height,
    MinWidth,
    MinHeight,
    MaxWidth,
    MaxHeight,
    Position,
    Top,
    Right,
    Left,
    Bottom,
    FlexWrap,
    FlexDirection,
    FlexGrow,
    FlexShrink,
    JustifyContent,
    AlignItems,
    AlignContent,
    BackgroundContent,
    BackgroundPosition,
    BackgroundSize,
    BackgroundRepeat,
    OverflowX,
    OverflowY,
    PaddingTop,
    PaddingLeft,
    PaddingRight,
    PaddingBottom,
    MarginTop,
    MarginLeft,
    MarginRight,
    MarginBottom,
    BorderTopLeftRadius,
    BorderTopRightRadius,
    BorderBottomLeftRadius,
    BorderBottomRightRadius,
    BorderTopColor,
    BorderRightColor,
    BorderLeftColor,
    BorderBottomColor,
    BorderTopStyle,
    BorderRightStyle,
    BorderLeftStyle,
    BorderBottomStyle,
    BorderTopWidth,
    BorderRightWidth,
    BorderLeftWidth,
    BorderBottomWidth,
    BoxShadowLeft,
    BoxShadowRight,
    BoxShadowTop,
    BoxShadowBottom,
    ScrollbarStyle,
    Opacity,
    Transform,
    TransformOrigin,
    PerspectiveOrigin,
    BackfaceVisibility,
    MixBlendMode,
    Filter,
    BackdropFilter,
    TextShadow,
}

/// One parsed CSS key-value pair, such as `width: 20px`, as a closed
/// tagged union: one arm per style property, each holding its concrete
/// value wrapped in a keyword-aware [`Value`] slot.
#[derive(Debug, Clone, PartialEq, Eq, Hash, PartialOrd, Ord)]
pub enum Property {
    TextColor(Value<StyleTextColor>),
    FontSize(Value<StyleFontSize>),
    FontFamily(Value<Vec<StyleFontFamily>>),
    TextAlign(Value<StyleTextAlign>),
    LetterSpacing(Value<StyleLetterSpacing>),
    LineHeight(Value<StyleLineHeight>),
    WordSpacing(Value<StyleWordSpacing>),
    TabWidth(Value<StyleTabWidth>),
    Cursor(Value<StyleCursor>),
    Display(Value<LayoutDisplay>),
    Float(Value<LayoutFloat>),
    BoxSizing(Value<LayoutBoxSizing>),
    Width(Value<LayoutWidth>),
    Height(Value<LayoutHeight>),
    MinWidth(Value<LayoutMaxWidth>),
    MinHeight(Value<LayoutMinHeight>),
    MaxWidth(Value<LayoutMaxWidth>),
    MaxHeight(Value<LayoutMaxHeight>),
    Position(Value<LayoutPosition>),
    Top(Value<LayoutTop>),
    Right(Value<LayoutRight>),
    Left(Value<LayoutLeft>),
    Bottom(Value<LayoutBottom>),
    FlexWrap(Value<LayoutFlexWrap>),
    FlexDirection(Value<LayoutFlexDirection>),
    FlexGrow(Value<LayoutFlexGrow>),
    FlexShrink(Value<LayoutFlexShrink>),
    JustifyContent(Value<LayoutJustifyContent>),
    AlignItems(Value<LayoutAlignItems>),
    AlignContent(Value<LayoutAlignContent>),
    BackgroundContent(Value<Vec<StyleBackgroundContent>>),
    BackgroundPosition(Value<Vec<StyleBackgroundPosition>>),
    BackgroundSize(Value<Vec<StyleBackgroundSize>>),
    BackgroundRepeat(Value<Vec<StyleBackgroundRepeat>>),
    OverflowX(Value<LayoutOverflow>),
    OverflowY(Value<LayoutOverflow>),
    PaddingTop(Value<LayoutPaddingTop>),
    PaddingLeft(Value<LayoutPaddingLeft>),
    PaddingRight(Value<LayoutPaddingRight>),
    PaddingBottom(Value<LayoutPaddingBottom>),
    MarginTop(Value<LayoutMarginTop>),
    MarginLeft(Value<LayoutMarginLeft>),
    MarginRight(Value<LayoutMarginRight>),
    MarginBottom(Value<LayoutMarginBottom>),
    BorderTopLeftRadius(Value<StyleBorderTopLeftRadius>),
    BorderTopRightRadius(Value<StyleBorderTopRightRadius>),
    BorderBottomLeftRadius(Value<StyleBorderBottomLeftRadius>),
    BorderBottomRightRadius(Value<StyleBorderBottomRightRadius>),
    BorderTopColor(Value<StyleBorderTopColor>),
    BorderRightColor(Value<StyleBorderRightColor>),
    BorderLeftColor(Value<StyleBorderLeftColor>),
    BorderBottomColor(Value<StyleBorderBottomColor>),
    BorderTopStyle(Value<StyleBorderTopStyle>),
    BorderRightStyle(Value<StyleBorderRightStyle>),
    BorderLeftStyle(Value<StyleBorderLeftStyle>),
    BorderBottomStyle(Value<StyleBorderBottomStyle>),
    BorderTopWidth(Value<LayoutBorderTopWidth>),
    BorderRightWidth(Value<LayoutBorderRightWidth>),
    BorderLeftWidth(Value<LayoutBorderLeftWidth>),
    BorderBottomWidth(Value<LayoutBorderBottomWidth>),
    BoxShadowLeft(Value<StyleBoxShadow>),
    BoxShadowRight(Value<StyleBoxShadow>),
    BoxShadowTop(Value<StyleBoxShadow>),
    BoxShadowBottom(Value<StyleBoxShadow>),
    ScrollbarStyle(Value<ScrollbarStyle>),
    Opacity(Value<StyleOpacity>),
    Transform(Value<Vec<StyleTransform>>),
    TransformOrigin(Value<StyleTransformOrigin>),
    PerspectiveOrigin(Value<StylePerspectiveOrigin>),
    BackfaceVisibility(Value<StyleBackfaceVisibility>),
    MixBlendMode(Value<StyleMixBlendMode>),
    Filter(Value<Vec<StyleFilter>>),
    BackdropFilter(Value<Vec<StyleFilter>>),
    TextShadow(Value<StyleBoxShadow>),
}

/// Whether the cascade copies this property from parent to child when the
/// child leaves it unset: true only for text color, font family and size,
/// line height and text alignment.
pub open spec fn spec_is_inheritable(p: Property) -> bool {
    match p {
        Property::TextColor(_)
        | Property::FontFamily(_)
        | Property::FontSize(_)
        | Property::LineHeight(_)
        | Property::TextAlign(_) => true,
        _ => false,
    }
}

/// Whether a change to this property can alter an element's measured size
/// or position, so that incremental layout must re-measure rather than
/// only repaint: false exactly for the purely visual properties (colors,
/// border styles, shadows, scrollbar style, opacity, transforms, blend
/// modes, filters, cursor), true for everything else.
pub open spec fn spec_can_relayout(p: Property) -> bool {
    match p {
        Property::TextColor(_)
        | Property::Cursor(_)
        | Property::BackgroundContent(_)
        | Property::BackgroundPosition(_)
        | Property::BackgroundSize(_)
        | Property::BackgroundRepeat(_)
        | Property::BorderTopLeftRadius(_)
        | Property::BorderTopRightRadius(_)
        | Property::BorderBottomLeftRadius(_)
        | Property::BorderBottomRightRadius(_)
        | Property::BorderTopColor(_)
        | Property::BorderRightColor(_)
        | Property::BorderLeftColor(_)
        | Property::BorderBottomColor(_)
        | Property::BorderTopStyle(_)
        | Property::BorderRightStyle(_)
        | Property::BorderLeftStyle(_)
        | Property::BorderBottomStyle(_)
        | Property::BoxShadowLeft(_)
        | Property::BoxShadowRight(_)
        | Property::BoxShadowTop(_)
        | Property::BoxShadowBottom(_)
        | Property::ScrollbarStyle(_)
        | Property::Opacity(_)
        | Property::Transform(_)
        | Property::TransformOrigin(_)
        | Property::PerspectiveOrigin(_)
        | Property::BackfaceVisibility(_)
        | Property::MixBlendMode(_)
        | Property::Filter(_)
        | Property::BackdropFilter(_)
        | Property::TextShadow(_) => false,
        _ => true,
    }
}

/// Whether the property can be animated on the compositor without
/// touching layout: true only for opacity and transforms.
pub open spec fn spec_is_gpu_property(p: Property) -> bool {
    match p {
        Property::Opacity(_) | Property::Transform(_) => true,
        _ => false,
    }
}

impl Property {
    /// Whether this property is inherited during cascading; see
    /// [`spec_is_inheritable`].
    pub fn is_inheritable(&self) -> (r: bool)
        ensures
            r == spec_is_inheritable(*self),
    {
        match self {
            Property::TextColor(_)
            | Property::FontFamily(_)
            | Property::FontSize(_)
            | Property::LineHeight(_)
            | Property::TextAlign(_) => true,
            _ => false,
        }
    }

    /// Whether this property can trigger a re-layout; see
    /// [`spec_can_relayout`]. A border width counts, since a border can
    /// grow past the content; font metrics count, since they can move
    /// text.
    pub fn can_relayout(&self) -> (r: bool)
        ensures
            r == spec_can_relayout(*self),
    {
        match self {
            Property::TextColor(_)
            | Property::Cursor(_)
            | Property::BackgroundContent(_)
            | Property::BackgroundPosition(_)
            | Property::BackgroundSize(_)
            | Property::BackgroundRepeat(_)
            | Property::BorderTopLeftRadius(_)
            | Property::BorderTopRightRadius(_)
            | Property::BorderBottomLeftRadius(_)
            | Property::BorderBottomRightRadius(_)
            | Property::BorderTopColor(_)
            | Property::BorderRightColor(_)
            | Property::BorderLeftColor(_)
            | Property::BorderBottomColor(_)
            | Property::BorderTopStyle(_)
            | Property::BorderRightStyle(_)
            | Property::BorderLeftStyle(_)
            | Property::BorderBottomStyle(_)
            | Property::BoxShadowLeft(_)
            | Property::BoxShadowRight(_)
            | Property::BoxShadowTop(_)
            | Property::BoxShadowBottom(_)
            | Property::ScrollbarStyle(_)
            | Property::Opacity(_)
            | Property::Transform(_)
            | Property::TransformOrigin(_)
            | Property::PerspectiveOrigin(_)
            | Property::BackfaceVisibility(_)
            | Property::MixBlendMode(_)
            | Property::Filter(_)
            | Property::BackdropFilter(_)
            | Property::TextShadow(_) => false,
            _ => true,
        }
    }

    /// Whether this property is animatable on a compositor fast path; see
    /// [`spec_is_gpu_property`].
    pub fn is_gpu_property(&self) -> (r: bool)
        ensures
            r == spec_is_gpu_property(*self),
    {
        match self {
            Property::Opacity(_) | Property::Transform(_) => true,
            _ => false,
        }
    }
}

/// A recognized shorthand CSS key, which an external pass expands into
/// several [`Property`] values.
#[derive(Debug, Copy, Clone, PartialEq, Eq, PartialOrd, Ord, Hash, Structural)]
pub enum CombinedPropertyType {
    BorderRadius,
    Overflow,
    Margin,
    Border,
    BorderLeft,
    BorderRight,
    BorderTop,
    BorderBottom,
    Padding,
    BoxShadow,
    BackgroundColor,
    BackgroundImage,
}

/// The shorthand a CSS key (already trimmed) denotes, if any.
pub open spec fn spec_combined_from(s: Seq<char>) -> Option<CombinedPropertyType> {
    if s == "border-radius"@ {
        Some(CombinedPropertyType::BorderRadius)
    } else if s == "overflow"@ {
        Some(CombinedPropertyType::Overflow)
    } else if s == "padding"@ {
        Some(CombinedPropertyType::Padding)
    } else if s == "margin"@ {
        Some(CombinedPropertyType::Margin)
    } else if s == "border"@ {
        Some(CombinedPropertyType::Border)
    } else if s == "border-left"@ {
        Some(CombinedPropertyType::BorderLeft)
    } else if s == "border-right"@ {
        Some(CombinedPropertyType::BorderRight)
    } else if s == "border-top"@ {
        Some(CombinedPropertyType::BorderTop)
    } else if s == "border-bottom"@ {
        Some(CombinedPropertyType::BorderBottom)
    } else if s == "box-shadow"@ {
        Some(CombinedPropertyType::BoxShadow)
    } else if s == "background-color"@ {
        Some(CombinedPropertyType::BackgroundColor)
    } else if s == "background-image"@ {
        Some(CombinedPropertyType::BackgroundImage)
    } else {
        None
    }
}

/// The canonical text of a shorthand key.
pub open spec fn spec_combined_str(c: CombinedPropertyType) -> Seq<char> {
    match c {
        CombinedPropertyType::BorderRadius => "border-radius"@,
        CombinedPropertyType::Overflow => "overflow"@,
        CombinedPropertyType::Margin => "margin"@,
        CombinedPropertyType::Border => "border"@,
        CombinedPropertyType::BorderLeft => "border-left"@,
        CombinedPropertyType::BorderRight => "border-right"@,
        CombinedPropertyType::BorderTop => "border-top"@,
        CombinedPropertyType::BorderBottom => "border-bottom"@,
        CombinedPropertyType::Padding => "padding"@,
        CombinedPropertyType::BoxShadow => "box-shadow"@,
        CombinedPropertyType::BackgroundColor => "background-color"@,
        CombinedPropertyType::BackgroundImage => "background-image"@,
    }
}

impl CombinedPropertyType {
    /// Parses a shorthand CSS key, ignoring surrounding whitespace.
    pub fn from_str(input: &str) -> (r: Option<Self>)
        ensures
            r == spec_combined_from(trim_spec(input@)),
    {
        let input = trim_ws(input);
        if str_eq(input, "border-radius") {
            Some(CombinedPropertyType::BorderRadius)
        } else if str_eq(input, "overflow") {
            Some(CombinedPropertyType::Overflow)
        } else if str_eq(input, "padding") {
            Some(CombinedPropertyType::Padding)
        } else if str_eq(input, "margin") {
            Some(CombinedPropertyType::Margin)
        } else if str_eq(input, "border") {
            Some(CombinedPropertyType::Border)
        } else if str_eq(input, "border-left") {
            Some(CombinedPropertyType::BorderLeft)
        } else if str_eq(input, "border-right") {
            Some(CombinedPropertyType::BorderRight)
        } else if str_eq(input, "border-top") {
            Some(CombinedPropertyType::BorderTop)
        } else if str_eq(input, "border-bottom") {
            Some(CombinedPropertyType::BorderBottom)
        } else if str_eq(input, "box-shadow") {
            Some(CombinedPropertyType::BoxShadow)
        } else if str_eq(input, "background-color") {
            Some(CombinedPropertyType::BackgroundColor)
        } else if str_eq(input, "background-image") {
            Some(CombinedPropertyType::BackgroundImage)
        } else {
            None
        }
    }

    /// The canonical text this shorthand was parsed from.
    pub fn to_str(&self) -> (r: &'static str)
        ensures
            r@ == spec_combined_str(*self),
    {
        match self {
            CombinedPropertyType::BorderRadius => "border-radius",
            CombinedPropertyType::Overflow => "overflow",
            CombinedPropertyType::Margin => "margin",
            CombinedPropertyType::Border => "border",
            CombinedPropertyType::BorderLeft => "border-left",
            CombinedPropertyType::BorderRight => "border-right",
            CombinedPropertyType::BorderTop => "border-top",
            CombinedPropertyType::BorderBottom => "border-bottom",
            CombinedPropertyType::Padding => "padding",
            CombinedPropertyType::BoxShadow => "box-shadow",
            CombinedPropertyType::BackgroundColor => "background-color",
            CombinedPropertyType::BackgroundImage => "background-image",
        }
    }
}

} // verus!
