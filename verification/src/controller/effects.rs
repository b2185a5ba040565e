//! What each editing action does to the document, stated over the action's own
//! inputs: the field it sets takes the requested value (trimmed or clamped as the
//! action's documentation says), nothing else in the document changes, and a
//! refused request leaves the document as it was.
use vstd::prelude::*;
use crate::controller::action::Action;
use crate::controller::command::CommandView;
use crate::controller::transition::{
    add_series, controller_wf, new_series, record, series_step, step, table_has, PlotControllerView,
};
use crate::controller::ControllerErrorView;
use crate::model::data::{column_names_of, DataTableView};
use crate::model::number::{less32, less64, Real32, Real64};
use crate::model::plot::{default_line_width, axis_of, position_of, with_axis, PlotModelView, SeriesModelView};
use crate::model::types::{
    AxisConfigView, AxisKind, Color, LayoutConfigView, LegendConfigView, LegendPosition,
    LineStyle, MarkerShape, MarkerStyleView, RangePolicy, RangePolicyView, ScaleType, SeriesId,
    SeriesStyleView, TickConfigView,
};
use crate::text::{decimal, trim};

verus! {

proof fn lemma_names_contain(t: DataTableView, name: Seq<char>)
    ensures
        column_names_of(t).contains(name) == table_has(t, name),
{
    if table_has(t, name) {
        let i = choose|i: int| 0 <= i < t.columns.len() && t.columns[i].name == name;
        assert(column_names_of(t)[i] == name);
    }
    if column_names_of(t).contains(name) {
        let i = choose|i: int| 0 <= i < column_names_of(t).len() && column_names_of(t)[i] == name;
        assert(t.columns[i].name == name);
    }
}

/// The document after `a` is `m`, and the request was accepted.
pub open spec fn accepted_with(s: PlotControllerView, a: Action, m: PlotModelView) -> bool {
    step(s, a).1 is Ok && step(s, a).0.model == m
}

/// The request was refused with `e`, and the document is as it was.
pub open spec fn refused_with(s: PlotControllerView, a: Action, e: ControllerErrorView) -> bool {
    step(s, a).1 == Err::<(), ControllerErrorView>(e) && step(s, a).0.model == s.model
}

/// The document with one axis changed to `x`.
pub open spec fn axis_set(s: PlotControllerView, axis: AxisKind, x: AxisConfigView) -> PlotModelView {
    with_axis(s.model, axis, x)
}

/// The document with the legend changed to `l`.
pub open spec fn legend_set(s: PlotControllerView, l: LegendConfigView) -> PlotModelView {
    PlotModelView { legend: l, ..s.model }
}

/// The document with the layout changed to `l`.
pub open spec fn layout_set(s: PlotControllerView, l: LayoutConfigView) -> PlotModelView {
    PlotModelView { layout: l, ..s.model }
}

/// The document with the series at `i` changed to `x`.
pub open spec fn series_set(s: PlotControllerView, i: int, x: SeriesModelView) -> PlotModelView {
    PlotModelView { series: s.model.series.update(i, x), ..s.model }
}

/// Law: an axis label is set to the request trimmed; an empty one is refused.
pub proof fn law_set_axis_label(s: PlotControllerView, axis: AxisKind, label: String)
    ensures
        ({
            let a = Action::SetAxisLabel { axis, label };
            if trim(label@).len() == 0 {
                refused_with(s, a, ControllerErrorView::EmptyAxisLabel)
            } else {
                accepted_with(s, a, axis_set(s, axis, AxisConfigView { label: trim(label@), ..axis_of(s.model, axis) }))
            }
        }),
{
}

/// Law: the tick label font size becomes the request, or 8 when smaller.
pub proof fn law_set_axis_label_font_size(s: PlotControllerView, axis: AxisKind, font_size: u32)
    ensures
        accepted_with(
            s,
            Action::SetAxisLabelFontSize { axis, font_size },
            axis_set(s, axis, AxisConfigView { label_font_size: if font_size < 8 { 8 } else { font_size }, ..axis_of(s.model, axis) }),
        ),
{
}

/// Law: the axis title font size becomes the request, or 8 when smaller.
pub proof fn law_set_axis_title_font_size(s: PlotControllerView, axis: AxisKind, font_size: u32)
    ensures
        accepted_with(
            s,
            Action::SetAxisTitleFontSize { axis, font_size },
            axis_set(s, axis, AxisConfigView { axis_title_font_size: if font_size < 8 { 8 } else { font_size }, ..axis_of(s.model, axis) }),
        ),
{
}

/// Law: the axis scale becomes the request.
pub proof fn law_set_axis_scale(s: PlotControllerView, axis: AxisKind, scale: ScaleType)
    ensures
        accepted_with(
            s,
            Action::SetAxisScale { axis, scale },
            axis_set(s, axis, AxisConfigView { scale, ..axis_of(s.model, axis) }),
        ),
{
}

/// Law: the axis range becomes the request; a manual range whose minimum is not below its maximum (NaN included) is refused.
pub proof fn law_set_axis_range(s: PlotControllerView, axis: AxisKind, range: RangePolicy)
    ensures
        ({
            let a = Action::SetAxisRange { axis, range };
            match range@ {
                RangePolicyView::Manual { min, max } if !less64(min.bits, max.bits) => refused_with(
                    s,
                    a,
                    ControllerErrorView::InvalidRange { min, max },
                ),
                _ => accepted_with(s, a, axis_set(s, axis, AxisConfigView { range: range@, ..axis_of(s.model, axis) })),
            }
        }),
{
}

/// Law: the major tick step becomes the request: the given step, or automatic (`None`), whatever it was before.
pub proof fn law_set_axis_major_tick_step(s: PlotControllerView, axis: AxisKind, step: Option<Real64>)
    ensures
        accepted_with(
            s,
            Action::SetAxisMajorTickStep { axis, step },
            axis_set(
                s,
                axis,
                AxisConfigView {
                    ticks: TickConfigView {
                        major_step: match step {
                            Some(v) => Some(v@),
                            None => None,
                        },
                        ..axis_of(s.model, axis).ticks
                    },
                    ..axis_of(s.model, axis)
                },
            ),
        ),
{
}

/// Law: the number of minor ticks per major step becomes the request.
pub proof fn law_set_axis_minor_ticks(s: PlotControllerView, axis: AxisKind, per_major: u16)
    ensures
        accepted_with(
            s,
            Action::SetAxisMinorTicks { axis, per_major },
            axis_set(
                s,
                axis,
                AxisConfigView { ticks: TickConfigView { minor_per_major: per_major, ..axis_of(s.model, axis).ticks }, ..axis_of(s.model, axis) },
            ),
        ),
{
}

/// Law: the chart title is set to the request trimmed; an empty one is refused.
pub proof fn law_set_chart_title(s: PlotControllerView, title: String)
    ensures
        ({
            let a = Action::SetChartTitle(title);
            if trim(title@).len() == 0 {
                refused_with(s, a, ControllerErrorView::EmptyChartTitle)
            } else {
                accepted_with(s, a, layout_set(s, LayoutConfigView { title: trim(title@), ..s.model.layout }))
            }
        }),
{
}

/// Law: the legend is shown or hidden as requested.
pub proof fn law_set_legend_visible(s: PlotControllerView, visible: bool)
    ensures
        accepted_with(s, Action::SetLegendVisible(visible), legend_set(s, LegendConfigView { visible: visible, ..s.model.legend })),
{
}

/// Law: the legend moves to the requested corner.
pub proof fn law_set_legend_position(s: PlotControllerView, position: LegendPosition)
    ensures
        accepted_with(s, Action::SetLegendPosition(position), legend_set(s, LegendConfigView { position: position, ..s.model.legend })),
{
}

/// Law: the legend font size becomes the request, or 8 when smaller.
pub proof fn law_set_legend_font_size(s: PlotControllerView, size: u32)
    ensures
        accepted_with(s, Action::SetLegendFontSize(size), legend_set(s, LegendConfigView { font_size: if size < 8 { 8 } else { size }, ..s.model.legend })),
{
}

/// Law: the legend font color becomes the request.
pub proof fn law_set_legend_font_color(s: PlotControllerView, color: Color)
    ensures
        accepted_with(s, Action::SetLegendFontColor(color), legend_set(s, LegendConfigView { font_color: color, ..s.model.legend })),
{
}

/// Law: the legend title becomes the request trimmed, and there is none when the request is `None` or only white space, whatever it was before.
pub proof fn law_set_legend_title(s: PlotControllerView, title: Option<String>)
    ensures
        accepted_with(
            s,
            Action::SetLegendTitle(title),
            legend_set(
                s,
                LegendConfigView {
                    title: match title {
                        Some(t) => if trim(t@).len() == 0 {
                            None
                        } else {
                            Some(trim(t@))
                        },
                        None => None,
                    },
                    ..s.model.legend
                },
            ),
        ),
{
}

/// Law: the outer margin becomes the request.
pub proof fn law_set_layout_margin(s: PlotControllerView, margin: u32)
    ensures
        accepted_with(s, Action::SetLayoutMargin(margin), layout_set(s, LayoutConfigView { margin: margin, ..s.model.layout })),
{
}

/// Law: the bottom label area becomes the request.
pub proof fn law_set_x_label_area_size(s: PlotControllerView, size: u32)
    ensures
        accepted_with(s, Action::SetXLabelAreaSize(size), layout_set(s, LayoutConfigView { x_label_area_size: size, ..s.model.layout })),
{
}

/// Law: the left label area becomes the request.
pub proof fn law_set_y_label_area_size(s: PlotControllerView, size: u32)
    ensures
        accepted_with(s, Action::SetYLabelAreaSize(size), layout_set(s, LayoutConfigView { y_label_area_size: size, ..s.model.layout })),
{
}

/// Law: the chart title font size becomes the request, or 8 when smaller.
pub proof fn law_set_title_font_size(s: PlotControllerView, size: u32)
    ensures
        accepted_with(s, Action::SetLabelFontSize(size), layout_set(s, LayoutConfigView { title_font_size: if size < 8 { 8 } else { size }, ..s.model.layout })),
{
}

/// Law: the chart title font color becomes the request.
pub proof fn law_set_title_font_color(s: PlotControllerView, color: Color)
    ensures
        accepted_with(s, Action::SetLabelFontColor(color), layout_set(s, LayoutConfigView { title_font_color: color, ..s.model.layout })),
{
}

/// Law: the first series with the identifier gets the requested name; an unknown identifier is refused.
pub proof fn law_rename_series(s: PlotControllerView, series_id: SeriesId, name: String)
    ensures
        ({
            let a = Action::RenameSeries { series_id, name };
            match position_of(s.model.series, series_id) {
                None => refused_with(s, a, ControllerErrorView::SeriesNotFound(series_id)),
                Some(i) => accepted_with(s, a, series_set(s, i, SeriesModelView { name: name@, ..s.model.series[i] })),
            }
        }),
{
}

/// Law: the series is shown or hidden as requested.
pub proof fn law_set_series_visibility(s: PlotControllerView, series_id: SeriesId, visible: bool)
    ensures
        ({
            let a = Action::SetSeriesVisibility { series_id, visible };
            match position_of(s.model.series, series_id) {
                None => refused_with(s, a, ControllerErrorView::SeriesNotFound(series_id)),
                Some(i) => accepted_with(s, a, series_set(s, i, SeriesModelView { visible, ..s.model.series[i] })),
            }
        }),
{
}

/// Law: the series' x column becomes the request, which must be a column of the loaded table.
pub proof fn law_set_series_x_column(s: PlotControllerView, series_id: SeriesId, x_column: String)
    ensures
        ({
            let a = Action::SetSeriesXColumn { series_id, x_column };
            match s.table {
                None => refused_with(s, a, ControllerErrorView::NoDataLoaded),
                Some(t) => if !column_names_of(t).contains(x_column@) {
                    refused_with(s, a, ControllerErrorView::ColumnNotFound(x_column@))
                } else {
                    match position_of(s.model.series, series_id) {
                None => refused_with(s, a, ControllerErrorView::SeriesNotFound(series_id)),
                Some(i) => accepted_with(s, a, series_set(s, i, SeriesModelView { x_column: x_column@, ..s.model.series[i] })),
            }
                },
            }
        }),
{
    if let Some(t) = s.table {
        lemma_names_contain(t, x_column@);
    }
}

/// Law: the series' y column becomes the request, which must be a column of the loaded table.
pub proof fn law_set_series_y_column(s: PlotControllerView, series_id: SeriesId, y_column: String)
    ensures
        ({
            let a = Action::SetSeriesYColumn { series_id, y_column };
            match s.table {
                None => refused_with(s, a, ControllerErrorView::NoDataLoaded),
                Some(t) => if !column_names_of(t).contains(y_column@) {
                    refused_with(s, a, ControllerErrorView::ColumnNotFound(y_column@))
                } else {
                    match position_of(s.model.series, series_id) {
                None => refused_with(s, a, ControllerErrorView::SeriesNotFound(series_id)),
                Some(i) => accepted_with(s, a, series_set(s, i, SeriesModelView { y_column: y_column@, ..s.model.series[i] })),
            }
                },
            }
        }),
{
    if let Some(t) = s.table {
        lemma_names_contain(t, y_column@);
    }
}

/// Law: the series color becomes the request.
pub proof fn law_set_series_color(s: PlotControllerView, series_id: SeriesId, color: Color)
    ensures
        ({
            let a = Action::SetSeriesColor { series_id, color };
            match position_of(s.model.series, series_id) {
                None => refused_with(s, a, ControllerErrorView::SeriesNotFound(series_id)),
                Some(i) => accepted_with(s, a, series_set(s, i, SeriesModelView { style: SeriesStyleView { color, ..s.model.series[i].style }, ..s.model.series[i] })),
            }
        }),
{
}

/// Law: the line width becomes the request, which must be above zero (not NaN).
pub proof fn law_set_series_line_width(s: PlotControllerView, series_id: SeriesId, width: Real32)
    ensures
        ({
            let a = Action::SetSeriesLineWidth { series_id, width };
            if !less32(0, width.bits) {
                refused_with(s, a, ControllerErrorView::InvalidLineWidth(width@))
            } else {
                match position_of(s.model.series, series_id) {
                None => refused_with(s, a, ControllerErrorView::SeriesNotFound(series_id)),
                Some(i) => accepted_with(s, a, series_set(s, i, SeriesModelView { style: SeriesStyleView { line_width: width@, ..s.model.series[i].style }, ..s.model.series[i] })),
            }
            }
        }),
{
}

/// Law: the line style becomes the request.
pub proof fn law_set_series_line_style(s: PlotControllerView, series_id: SeriesId, line_style: LineStyle)
    ensures
        ({
            let a = Action::SetSeriesLineStyle { series_id, line_style };
            match position_of(s.model.series, series_id) {
                None => refused_with(s, a, ControllerErrorView::SeriesNotFound(series_id)),
                Some(i) => accepted_with(s, a, series_set(s, i, SeriesModelView { style: SeriesStyleView { line_style, ..s.model.series[i].style }, ..s.model.series[i] })),
            }
        }),
{
}

/// Law: markers are switched off by `None` and set to the requested shape and size otherwise, whatever they were before.
pub proof fn law_set_series_marker(s: PlotControllerView, series_id: SeriesId, marker: Option<MarkerShape>, size: Real32)
    ensures
        ({
            let a = Action::SetSeriesMarker { series_id, marker, size };
            match position_of(s.model.series, series_id) {
                None => refused_with(s, a, ControllerErrorView::SeriesNotFound(series_id)),
                Some(i) => accepted_with(s, a, series_set(s, i, SeriesModelView {
                    style: SeriesStyleView {
                        marker: match marker {
                            Some(shape) => Some(MarkerStyleView { shape, size: size@ }),
                            None => None,
                        },
                        ..s.model.series[i].style
                    },
                    ..s.model.series[i]
                })),
            }
        }),
{
}

/// Law: "Add series" needs loaded data; an empty column name stands for the first
/// (x) or second (y) column of the table, and both columns must be columns of the
/// table, x checked first. An accepted request appends a visible series with the
/// next identifier, those columns, the given name (or "Series <id>" when it is only
/// white space), a solid line of the default width and no markers, and moves the
/// next identifier on by one; the series before it stay as they were.
#[verifier::rlimit(60)]
pub proof fn law_add_series(s: PlotControllerView, name: String, x_column: String, y_column: String)
    requires
        controller_wf(s),
        s.model.series.len() < usize::MAX,
        s.next_series_id < u64::MAX,
    ensures
        ({
            let a = Action::AddSeries { name, x_column, y_column };
            let (s1, r) = step(s, a);
            match s.table {
                None => refused_with(s, a, ControllerErrorView::NoDataLoaded),
                Some(t) => {
                    let names = column_names_of(t);
                    let x = if x_column@.len() == 0 { names[0] } else { x_column@ };
                    let y = if y_column@.len() == 0 { names[1] } else { y_column@ };
                    if !names.contains(x) {
                        refused_with(s, a, ControllerErrorView::ColumnNotFound(x))
                    } else if !names.contains(y) {
                        refused_with(s, a, ControllerErrorView::ColumnNotFound(y))
                    } else {
                        let n = s1.model.series.last();
                        &&& r is Ok
                        &&& s1.model == PlotModelView { series: s.model.series.push(n), ..s.model }
                        &&& n.id == SeriesId(s.next_series_id)
                        &&& s1.next_series_id == s.next_series_id + 1
                        &&& n.x_column == x
                        &&& n.y_column == y
                        &&& n.name == (if trim(name@).len() == 0 {
                            "Series "@ + decimal(s.next_series_id as nat)
                        } else {
                            name@
                        })
                        &&& n.visible
                        &&& n.style.line_width == default_line_width()
                        &&& n.style.line_style == LineStyle::Solid
                        &&& n.style.marker is None
                    }
                },
            }
        }),
{
    let a = Action::AddSeries { name, x_column, y_column };
    if let Some(t) = s.table {
        let names = column_names_of(t);
        let x = if x_column@.len() == 0 { names[0] } else { x_column@ };
        let y = if y_column@.len() == 0 { names[1] } else { y_column@ };
        lemma_names_contain(t, x);
        lemma_names_contain(t, y);
        let r = series_step(s, a);
        assert(r == add_series(s, name@, x_column@, y_column@));
        if names.contains(x) && names.contains(y) {
            let c = CommandView::AddSeries {
                series: new_series(s.next_series_id, name@, x, y),
                index: s.model.series.len() as usize,
            };
            let s2 = PlotControllerView { next_series_id: (s.next_series_id + 1) as u64, ..s };
            assert(r == record(s2, c));
            let ns = new_series(s.next_series_id, name@, x, y);
            assert(s.model.series.insert(s.model.series.len() as int, ns) =~= s.model.series.push(ns));
            let s1 = step(s, a).0;
            assert(s1.model.series == s.model.series.push(ns));
            assert(s1.model.series.last() == ns);
        }
    }
}

/// Law: "Remove series" removes the first series with the identifier; the last
/// remaining series cannot be removed and an unknown identifier is refused.
pub proof fn law_remove_series(s: PlotControllerView, series_id: SeriesId)
    requires
        s.model.series.len() <= usize::MAX,
    ensures
        ({
            let a = Action::RemoveSeries { series_id };
            if s.model.series.len() <= 1 {
                refused_with(s, a, ControllerErrorView::CannotRemoveLastSeries)
            } else {
                match position_of(s.model.series, series_id) {
                    None => refused_with(s, a, ControllerErrorView::SeriesNotFound(series_id)),
                    Some(i) => accepted_with(
                        s,
                        a,
                        PlotModelView { series: s.model.series.remove(i), ..s.model },
                    ),
                }
            }
        }),
{
    crate::controller::laws::lemma_series_position(s.model, series_id);
}

} // verus!
