//! Core reusable types for plot configuration and styling, and their
//! mathematical views (strings as character sequences).
use vstd::prelude::*;
use crate::model::number::{Real32, Real32View, Real64, Real64View};

verus! {

/// Stable identifier of a plotted series.
#[derive(Clone, Copy, Debug, PartialEq, Eq, Structural, Hash)]
pub struct SeriesId(pub u64);

/// Axis transformation mode.
#[derive(Clone, Copy, Debug, PartialEq, Eq, Structural)]
pub enum ScaleType {
    Linear,
    Log10,
    LogE,
}

/// Legend position inside plot area.
#[derive(Clone, Copy, Debug, PartialEq, Eq, Structural)]
pub enum LegendPosition {
    TopLeft,
    TopRight,
    BottomLeft,
    BottomRight,
}

/// RGBA color in 8-bit channels.
#[derive(Clone, Copy, Debug)]
pub struct Color {
    pub r: u8,
    pub g: u8,
    pub b: u8,
    pub a: u8,
}

/// Line pattern used for a series.
#[derive(Clone, Copy, Debug, PartialEq, Eq, Structural)]
pub enum LineStyle {
    Solid,
    Dashed,
    Dotted,
}

/// Marker shape variants.
#[derive(Clone, Copy, Debug, PartialEq, Eq, Structural)]
pub enum MarkerShape {
    Circle,
    Square,
    Triangle,
    Cross,
}

/// Axis selector for generic axis actions.
#[derive(Clone, Copy, Debug, PartialEq, Eq, Structural)]
pub enum AxisKind {
    X,
    Y,
}

/// Supported export image formats.
#[derive(Clone, Copy, Debug)]
pub enum ImageFormat {
    Png,
    Svg,
}

/// Export output pixel dimensions.
#[derive(Clone, Copy, Debug)]
pub struct ImageSize {
    pub width: u32,
    pub height: u32,
}

/// Axis range policy (`Auto` from data or fixed manual bounds).
#[derive(Debug)]
pub enum RangePolicy {
    Auto,
    Manual { min: Real64, max: Real64 },
}

/// Tick density controls used by mesh configuration.
#[derive(Debug)]
pub struct TickConfig {
    pub major_step: Option<Real64>,
    pub minor_per_major: u16,
}

/// Full axis setup edited by axis controls.
#[derive(Debug)]
pub struct AxisConfig {
    pub label: String,
    pub axis_title_font_size: u32,
    pub label_font_size: u32,
    pub scale: ScaleType,
    pub range: RangePolicy,
    pub ticks: TickConfig,
}

/// Pair of x/y axis configurations.
#[derive(Debug)]
pub struct AxesConfig {
    pub x: AxisConfig,
    pub y: AxisConfig,
}

/// Chart legend configuration.
#[derive(Debug)]
pub struct LegendConfig {
    pub visible: bool,
    pub title: Option<String>,
    pub position: LegendPosition,
    pub font_size: u32,
    pub font_color: Color,
}

/// Layout-level settings of the plot area and title style.
#[derive(Debug)]
pub struct LayoutConfig {
    pub title: String,
    pub x_label_area_size: u32,
    pub y_label_area_size: u32,
    pub margin: u32,
    pub title_font_size: u32,
    pub title_font_color: Color,
}

/// Marker configuration for point rendering.
#[derive(Debug)]
pub struct MarkerStyle {
    pub shape: MarkerShape,
    pub size: Real32,
}

/// Visual style of one plotted series.
#[derive(Debug)]
pub struct SeriesStyle {
    pub color: Color,
    pub line_width: Real32,
    pub line_style: LineStyle,
    pub marker: Option<MarkerStyle>,
}

pub enum RangePolicyView {
    Auto,
    Manual { min: Real64View, max: Real64View },
}

pub struct TickConfigView {
    pub major_step: Option<Real64View>,
    pub minor_per_major: u16,
}

pub struct AxisConfigView {
    pub label: Seq<char>,
    pub axis_title_font_size: u32,
    pub label_font_size: u32,
    pub scale: ScaleType,
    pub range: RangePolicyView,
    pub ticks: TickConfigView,
}

pub struct AxesConfigView {
    pub x: AxisConfigView,
    pub y: AxisConfigView,
}

pub struct LegendConfigView {
    pub visible: bool,
    pub title: Option<Seq<char>>,
    pub position: LegendPosition,
    pub font_size: u32,
    pub font_color: Color,
}

pub struct LayoutConfigView {
    pub title: Seq<char>,
    pub x_label_area_size: u32,
    pub y_label_area_size: u32,
    pub margin: u32,
    pub title_font_size: u32,
    pub title_font_color: Color,
}

pub struct MarkerStyleView {
    pub shape: MarkerShape,
    pub size: Real32View,
}

pub struct SeriesStyleView {
    pub color: Color,
    pub line_width: Real32View,
    pub line_style: LineStyle,
    pub marker: Option<MarkerStyleView>,
}

/// The view of an optional string.
pub open spec fn opt_text(s: Option<String>) -> Option<Seq<char>> {
    match s {
        Some(t) => Some(t@),
        None => None,
    }
}

/// The view of an optional binary64 value.
pub open spec fn opt_real64(v: Option<Real64>) -> Option<Real64View> {
    match v {
        Some(x) => Some(x@),
        None => None,
    }
}

/// The view of an optional marker.
pub open spec fn opt_marker(m: Option<MarkerStyle>) -> Option<MarkerStyleView> {
    match m {
        Some(x) => Some(x@),
        None => None,
    }
}

impl View for RangePolicy {
    type V = RangePolicyView;

    open spec fn view(&self) -> RangePolicyView {
        match self {
            RangePolicy::Auto => RangePolicyView::Auto,
            RangePolicy::Manual { min, max } => RangePolicyView::Manual { min: min@, max: max@ },
        }
    }
}

impl View for TickConfig {
    type V = TickConfigView;

    open spec fn view(&self) -> TickConfigView {
        TickConfigView {
            major_step: opt_real64(self.major_step),
            minor_per_major: self.minor_per_major,
        }
    }
}

impl View for AxisConfig {
    type V = AxisConfigView;

    open spec fn view(&self) -> AxisConfigView {
        AxisConfigView {
            label: self.label@,
            axis_title_font_size: self.axis_title_font_size,
            label_font_size: self.label_font_size,
            scale: self.scale,
            range: self.range@,
            ticks: self.ticks@,
        }
    }
}

impl View for AxesConfig {
    type V = AxesConfigView;

    open spec fn view(&self) -> AxesConfigView {
        AxesConfigView { x: self.x@, y: self.y@ }
    }
}

impl View for LegendConfig {
    type V = LegendConfigView;

    open spec fn view(&self) -> LegendConfigView {
        LegendConfigView {
            visible: self.visible,
            title: opt_text(self.title),
            position: self.position,
            font_size: self.font_size,
            font_color: self.font_color,
        }
    }
}

impl View for LayoutConfig {
    type V = LayoutConfigView;

    open spec fn view(&self) -> LayoutConfigView {
        LayoutConfigView {
            title: self.title@,
            x_label_area_size: self.x_label_area_size,
            y_label_area_size: self.y_label_area_size,
            margin: self.margin,
            title_font_size: self.title_font_size,
            title_font_color: self.title_font_color,
        }
    }
}

impl View for MarkerStyle {
    type V = MarkerStyleView;

    open spec fn view(&self) -> MarkerStyleView {
        MarkerStyleView { shape: self.shape, size: self.size@ }
    }
}

impl View for SeriesStyle {
    type V = SeriesStyleView;

    open spec fn view(&self) -> SeriesStyleView {
        SeriesStyleView {
            color: self.color,
            line_width: self.line_width@,
            line_style: self.line_style,
            marker: opt_marker(self.marker),
        }
    }
}

/// A copy of an optional string.
pub fn clone_opt_text(s: &Option<String>) -> (r: Option<String>)
    ensures
        opt_text(r) == opt_text(*s),
{
    match s {
        Some(t) => Some(t.clone()),
        None => None,
    }
}

/// A copy of an optional binary64 value.
pub fn clone_opt_real64(v: &Option<Real64>) -> (r: Option<Real64>)
    ensures
        opt_real64(r) == opt_real64(*v),
{
    match v {
        Some(x) => Some(x.clone()),
        None => None,
    }
}

/// A copy of an optional marker.
pub fn clone_opt_marker(m: &Option<MarkerStyle>) -> (r: Option<MarkerStyle>)
    ensures
        opt_marker(r) == opt_marker(*m),
{
    match m {
        Some(x) => Some(x.clone()),
        None => None,
    }
}

impl Clone for RangePolicy {
    fn clone(&self) -> (r: Self)
        ensures
            r@ == self@,
    {
        match self {
            RangePolicy::Auto => RangePolicy::Auto,
            RangePolicy::Manual { min, max } => RangePolicy::Manual {
                min: min.clone(),
                max: max.clone(),
            },
        }
    }
}

impl Clone for TickConfig {
    fn clone(&self) -> (r: Self)
        ensures
            r@ == self@,
    {
        TickConfig {
            major_step: clone_opt_real64(&self.major_step),
            minor_per_major: self.minor_per_major,
        }
    }
}

impl Clone for AxisConfig {
    fn clone(&self) -> (r: Self)
        ensures
            r@ == self@,
    {
        AxisConfig {
            label: self.label.clone(),
            axis_title_font_size: self.axis_title_font_size,
            label_font_size: self.label_font_size,
            scale: self.scale,
            range: self.range.clone(),
            ticks: self.ticks.clone(),
        }
    }
}

impl Clone for AxesConfig {
    fn clone(&self) -> (r: Self)
        ensures
            r@ == self@,
    {
        AxesConfig { x: self.x.clone(), y: self.y.clone() }
    }
}

impl Clone for LegendConfig {
    fn clone(&self) -> (r: Self)
        ensures
            r@ == self@,
    {
        LegendConfig {
            visible: self.visible,
            title: clone_opt_text(&self.title),
            position: self.position,
            font_size: self.font_size,
            font_color: self.font_color,
        }
    }
}

impl Clone for LayoutConfig {
    fn clone(&self) -> (r: Self)
        ensures
            r@ == self@,
    {
        LayoutConfig {
            title: self.title.clone(),
            x_label_area_size: self.x_label_area_size,
            y_label_area_size: self.y_label_area_size,
            margin: self.margin,
            title_font_size: self.title_font_size,
            title_font_color: self.title_font_color,
        }
    }
}

impl Clone for MarkerStyle {
    fn clone(&self) -> (r: Self)
        ensures
            r@ == self@,
    {
        MarkerStyle { shape: self.shape, size: self.size.clone() }
    }
}

impl Clone for SeriesStyle {
    fn clone(&self) -> (r: Self)
        ensures
            r@ == self@,
    {
        SeriesStyle {
            color: self.color,
            line_width: self.line_width.clone(),
            line_style: self.line_style,
            marker: clone_opt_marker(&self.marker),
        }
    }
}

} // verus!
