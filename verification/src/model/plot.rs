//! Plot aggregate state.
//!
//! `PlotModel` is the central in-memory document edited by UI controls and
//! consumed by rendering/export logic.
use vstd::prelude::*;
use crate::model::number::{Real32, Real32View};
use crate::model::types::{
    AxesConfig, AxesConfigView, AxisConfig, AxisConfigView, AxisKind, Color, LayoutConfig,
    LayoutConfigView, LegendConfig, LegendConfigView, LegendPosition, LineStyle, RangePolicy,
    RangePolicyView, ScaleType, SeriesId, SeriesStyle, SeriesStyleView, TickConfig, TickConfigView,
};

verus! {

/// Main plot document.
#[derive(Debug)]
pub struct PlotModel {
    pub axes: AxesConfig,
    pub series: Vec<SeriesModel>,
    pub legend: LegendConfig,
    pub layout: LayoutConfig,
}

/// One logical visual series on the chart.
#[derive(Debug)]
pub struct SeriesModel {
    pub id: SeriesId,
    pub name: String,
    pub x_column: String,
    pub y_column: String,
    pub style: SeriesStyle,
    pub visible: bool,
}

pub struct SeriesModelView {
    pub id: SeriesId,
    pub name: Seq<char>,
    pub x_column: Seq<char>,
    pub y_column: Seq<char>,
    pub style: SeriesStyleView,
    pub visible: bool,
}

pub struct PlotModelView {
    pub axes: AxesConfigView,
    pub series: Seq<SeriesModelView>,
    pub legend: LegendConfigView,
    pub layout: LayoutConfigView,
}

impl View for SeriesModel {
    type V = SeriesModelView;

    open spec fn view(&self) -> SeriesModelView {
        SeriesModelView {
            id: self.id,
            name: self.name@,
            x_column: self.x_column@,
            y_column: self.y_column@,
            style: self.style@,
            visible: self.visible,
        }
    }
}

/// The views of a sequence of series.
pub open spec fn series_views(s: Seq<SeriesModel>) -> Seq<SeriesModelView> {
    Seq::new(s.len(), |i: int| s[i]@)
}

impl View for PlotModel {
    type V = PlotModelView;

    open spec fn view(&self) -> PlotModelView {
        PlotModelView {
            axes: self.axes@,
            series: series_views(self.series@),
            legend: self.legend@,
            layout: self.layout@,
        }
    }
}

impl Clone for SeriesModel {
    fn clone(&self) -> (r: Self)
        ensures
            r@ == self@,
    {
        SeriesModel {
            id: self.id,
            name: self.name.clone(),
            x_column: self.x_column.clone(),
            y_column: self.y_column.clone(),
            style: self.style.clone(),
            visible: self.visible,
        }
    }
}

/// A copy of a list of series.
pub fn clone_series_list(v: &Vec<SeriesModel>) -> (r: Vec<SeriesModel>)
    ensures
        series_views(r@) == series_views(v@),
{
    let mut r: Vec<SeriesModel> = Vec::new();
    let mut i: usize = 0;
    while i < v.len()
        invariant
            i <= v.len(),
            r@.len() == i,
            forall|k: int| 0 <= k < i ==> #[trigger] r@[k]@ == v@[k]@,
        decreases v.len() - i,
    {
        r.push(v[i].clone());
        i = i + 1;
    }
    assert(series_views(r@) =~= series_views(v@));
    r
}

impl Clone for PlotModel {
    fn clone(&self) -> (r: Self)
        ensures
            r@ == self@,
    {
        PlotModel {
            axes: self.axes.clone(),
            series: clone_series_list(&self.series),
            legend: self.legend.clone(),
            layout: self.layout.clone(),
        }
    }
}

/// The configuration of one axis of the document.
pub open spec fn axis_of(m: PlotModelView, axis: AxisKind) -> AxisConfigView {
    match axis {
        AxisKind::X => m.axes.x,
        AxisKind::Y => m.axes.y,
    }
}

/// The document with the configuration of one axis replaced.
pub open spec fn with_axis(m: PlotModelView, axis: AxisKind, a: AxisConfigView) -> PlotModelView {
    match axis {
        AxisKind::X => PlotModelView { axes: AxesConfigView { x: a, ..m.axes }, ..m },
        AxisKind::Y => PlotModelView { axes: AxesConfigView { y: a, ..m.axes }, ..m },
    }
}

/// `i` is the first position of a series with identifier `id`.
pub open spec fn is_first_with_id(s: Seq<SeriesModelView>, id: SeriesId, i: int) -> bool {
    &&& 0 <= i < s.len()
    &&& s[i].id == id
    &&& forall|j: int| 0 <= j < i ==> s[j].id != id
}

/// The first position of a series with identifier `id`, if any.
pub open spec fn position_of(s: Seq<SeriesModelView>, id: SeriesId) -> Option<int> {
    if exists|i: int| is_first_with_id(s, id, i) {
        Some(choose|i: int| is_first_with_id(s, id, i))
    } else {
        None
    }
}

pub proof fn lemma_first_with_id_unique(s: Seq<SeriesModelView>, id: SeriesId, i: int, j: int)
    requires
        is_first_with_id(s, id, i),
        is_first_with_id(s, id, j),
    ensures
        i == j,
{
    if i < j {
        assert(s[i].id != id);
    } else if j < i {
        assert(s[j].id != id);
    }
}

pub proof fn lemma_position_of(s: Seq<SeriesModelView>, id: SeriesId, i: int)
    requires
        is_first_with_id(s, id, i),
    ensures
        position_of(s, id) == Some(i),
{
    let k = choose|k: int| is_first_with_id(s, id, k);
    lemma_first_with_id_unique(s, id, i, k);
}

/// The first position of a series with identifier `id`, if any.
pub fn find_position(series: &Vec<SeriesModel>, id: SeriesId) -> (r: Option<usize>)
    ensures
        match r {
            Some(i) => position_of(series_views(series@), id) == Some(i as int),
            None => position_of(series_views(series@), id) is None,
        },
{
    let ghost s = series_views(series@);
    let mut i: usize = 0;
    while i < series.len()
        invariant
            i <= series.len(),
            s == series_views(series@),
            forall|j: int| 0 <= j < i ==> s[j].id != id,
        decreases series.len() - i,
    {
        if series[i].id == id {
            proof {
                lemma_position_of(s, id, i as int);
            }
            return Some(i);
        }
        i = i + 1;
    }
    proof {
        if exists|k: int| is_first_with_id(s, id, k) {
            let k = choose|k: int| is_first_with_id(s, id, k);
            assert(s[k].id != id);
        }
    }
    None
}

/// Line width 2, the width a new series starts with.
pub open spec fn default_line_width() -> Real32View {
    Real32View { bits: 0x4000_0000, text: "2"@ }
}

pub fn make_default_line_width() -> (r: Real32)
    ensures
        r@ == default_line_width(),
{
    Real32 { bits: 0x4000_0000, text: "2".to_owned() }
}

/// The opaque red of the first series.
pub open spec fn first_series_color() -> Color {
    Color { r: 220, g: 50, b: 47, a: 255 }
}

/// The near-black of titles and legend text.
pub open spec fn text_color() -> Color {
    Color { r: 20, g: 20, b: 20, a: 255 }
}

/// The configuration an axis starts with, labelled `label`.
pub open spec fn default_axis(label: Seq<char>) -> AxisConfigView {
    AxisConfigView {
        label: label,
        axis_title_font_size: 18,
        label_font_size: 16,
        scale: ScaleType::Linear,
        range: RangePolicyView::Auto,
        ticks: TickConfigView { major_step: None, minor_per_major: 4 },
    }
}

/// The series a document starts with: "Series 1", bound to the columns `x` and `y`.
pub open spec fn first_series(x: Seq<char>, y: Seq<char>) -> SeriesModelView {
    SeriesModelView {
        id: SeriesId(1),
        name: "Series 1"@,
        x_column: x,
        y_column: y,
        style: SeriesStyleView {
            color: first_series_color(),
            line_width: default_line_width(),
            line_style: LineStyle::Solid,
            marker: None,
        },
        visible: true,
    }
}

/// The document a new editor starts with.
pub open spec fn default_model() -> PlotModelView {
    PlotModelView {
        axes: AxesConfigView { x: default_axis("X"@), y: default_axis("Y"@) },
        series: seq![first_series(Seq::empty(), Seq::empty())],
        legend: LegendConfigView {
            visible: true,
            title: Some("Legend"@),
            position: LegendPosition::TopRight,
            font_size: 16,
            font_color: text_color(),
        },
        layout: LayoutConfigView {
            title: "Plot"@,
            x_label_area_size: 35,
            y_label_area_size: 35,
            margin: 8,
            title_font_size: 24,
            title_font_color: text_color(),
        },
    }
}

fn make_default_axis(label: &str) -> (r: AxisConfig)
    ensures
        r@ == default_axis(label@),
{
    AxisConfig {
        label: label.to_owned(),
        axis_title_font_size: 18,
        label_font_size: 16,
        scale: ScaleType::Linear,
        range: RangePolicy::Auto,
        ticks: TickConfig { major_step: None, minor_per_major: 4 },
    }
}

/// The first series of a document, bound to the columns `x` and `y`.
pub fn make_first_series(x: String, y: String) -> (r: SeriesModel)
    ensures
        r@ == first_series(x@, y@),
{
    SeriesModel {
        id: SeriesId(1),
        name: "Series 1".to_owned(),
        x_column: x,
        y_column: y,
        style: SeriesStyle {
            color: Color { r: 220, g: 50, b: 47, a: 255 },
            line_width: make_default_line_width(),
            line_style: LineStyle::Solid,
            marker: None,
        },
        visible: true,
    }
}

impl Default for PlotModel {
    fn default() -> (r: Self)
        ensures
            r@ == default_model(),
    {
        let mut series: Vec<SeriesModel> = Vec::new();
        series.push(make_first_series(String::new(), String::new()));
        let r = PlotModel {
            axes: AxesConfig { x: make_default_axis("X"), y: make_default_axis("Y") },
            series: series,
            legend: LegendConfig {
                visible: true,
                title: Some("Legend".to_owned()),
                position: LegendPosition::TopRight,
                font_size: 16,
                font_color: Color { r: 20, g: 20, b: 20, a: 255 },
            },
            layout: LayoutConfig {
                title: "Plot".to_owned(),
                x_label_area_size: 35,
                y_label_area_size: 35,
                margin: 8,
                title_font_size: 24,
                title_font_color: Color { r: 20, g: 20, b: 20, a: 255 },
            },
        };
        assert(r@.series =~= default_model().series);
        r
    }
}

} // verus!
