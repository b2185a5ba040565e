//! What one dispatched action does to the controller's state, stated over the
//! views of that state, and the invariant that keeps undo and redo in bounds.
use vstd::prelude::*;
use crate::controller::action::Action;
use crate::controller::command::{
    apply, count_apply, count_apply_all, count_apply_all_ok, count_apply_ok, count_inverse, count_inverse_ok, inverse, CommandView,
};
use crate::controller::{error_message, ControllerErrorView, NotificationLevel, NotificationView};
use crate::model::data::{column_names_of, DataTableView};
use crate::model::number::{less32, less64};
use crate::model::plot::{
    axis_of, default_line_width, first_series, position_of, PlotModelView, SeriesModelView,
};
use crate::model::types::{
    opt_text, AxisConfigView, Color, LayoutConfigView, LegendConfigView, LineStyle,
    MarkerStyleView, RangePolicyView, SeriesId, SeriesStyleView,
};
use crate::text::{decimal, trim};

verus! {

/// The controller's state: the document, the undo and redo stacks (last element on
/// top), the loaded table, the status notification and the next series identifier.
pub struct PlotControllerView {
    pub model: PlotModelView,
    pub undo: Seq<CommandView>,
    pub redo: Seq<CommandView>,
    pub table: Option<DataTableView>,
    pub notification: Option<NotificationView>,
    pub next_series_id: u64,
}

/// The outcome of one step: the next state and the result handed to the caller.
pub type Step = (PlotControllerView, Result<(), ControllerErrorView>);

/// An informational notification.
pub open spec fn info(message: Seq<char>) -> Option<NotificationView> {
    Some(NotificationView { level: NotificationLevel::Info, message })
}

/// Records `c`: applies it to the document, pushes it on the undo stack and
/// clears the redo stack.
pub open spec fn record(s: PlotControllerView, c: CommandView) -> Step {
    (
        PlotControllerView {
            model: apply(s.model, c),
            undo: s.undo.push(c),
            redo: Seq::empty(),
            ..s
        },
        Ok(()),
    )
}

/// Fails with `e`, showing its message as an error notification.
pub open spec fn fail(s: PlotControllerView, e: ControllerErrorView) -> Step {
    (
        PlotControllerView {
            notification: Some(
                NotificationView { level: NotificationLevel::Error, message: error_message(e) },
            ),
            ..s
        },
        Err(e),
    )
}

/// Fails with `e`, leaving the state as it is.
pub open spec fn refuse(s: PlotControllerView, e: ControllerErrorView) -> Step {
    (s, Err(e))
}

/// A successful step ends with the notification "Updated".
pub open spec fn updated(p: Step) -> Step {
    if p.1 is Ok {
        (PlotControllerView { notification: info("Updated / Obnovleno"@), ..p.0 }, Ok(()))
    } else {
        p
    }
}

/// The larger of a requested font size and 8.
pub open spec fn at_least_8(n: u32) -> u32 {
    if n < 8 {
        8
    } else {
        n
    }
}

/// The table has a column named `name`.
pub open spec fn table_has(t: DataTableView, name: Seq<char>) -> bool {
    exists|i: int| 0 <= i < t.columns.len() && t.columns[i].name == name
}

/// The color given to the series with identifier `n`.
pub open spec fn series_color(n: u64) -> Color {
    let k = n % 6;
    if k == 0 {
        Color { r: 220, g: 50, b: 47, a: 255 }
    } else if k == 1 {
        Color { r: 38, g: 139, b: 210, a: 255 }
    } else if k == 2 {
        Color { r: 133, g: 153, b: 0, a: 255 }
    } else if k == 3 {
        Color { r: 203, g: 75, b: 22, a: 255 }
    } else if k == 4 {
        Color { r: 42, g: 161, b: 152, a: 255 }
    } else {
        Color { r: 108, g: 113, b: 196, a: 255 }
    }
}

/// The command that binds the series `first` to the columns `x` and `y`.
pub open spec fn bind_columns(first: SeriesModelView, x: Seq<char>, y: Seq<char>) -> CommandView {
    CommandView::Batch {
        commands: seq![
            CommandView::SetSeriesXColumn { series_id: first.id, old: first.x_column, new: x },
            CommandView::SetSeriesYColumn { series_id: first.id, old: first.y_column, new: y },
        ],
    }
}

/// Binding the columns keeps the number of series and stays within bounds.
pub proof fn lemma_bind_columns_count(first: SeriesModelView, x: Seq<char>, y: Seq<char>, n: int)
    ensures
        count_apply_ok(n, bind_columns(first, x, y)),
        count_apply(n, bind_columns(first, x, y)) == n,
{
    let cs = bind_columns(first, x, y)->Batch_commands;
    assert(cs.len() == 2);
    assert(cs[0] is SetSeriesXColumn && cs[1] is SetSeriesYColumn);
    assert(count_apply(n, cs[0]) == n && count_apply_ok(n, cs[0]));
    assert(count_apply(n, cs[1]) == n && count_apply_ok(n, cs[1]));
    assert(count_apply_all(n, cs, 0) == n && count_apply_all_ok(n, cs, 0));
    assert(count_apply_all(n, cs, 1) == n && count_apply_all_ok(n, cs, 1));
    assert(count_apply_all(n, cs, 2) == n && count_apply_all_ok(n, cs, 2));
}

/// Installs a loaded table: it needs two columns; the first series is bound to
/// the first two of them (a series "Series 1" is created when there is none).
/// Like every edit of the document, the binding is recorded as one command.
pub open spec fn install_table(s: PlotControllerView, t: DataTableView) -> Step {
    let names = column_names_of(t);
    if names.len() < 2 {
        fail(s, ControllerErrorView::DataLoadFailed("Need at least two numeric columns"@))
    } else {
        let c = if s.model.series.len() == 0 {
            CommandView::AddSeries { series: first_series(names[0], names[1]), index: 0 }
        } else {
            bind_columns(s.model.series[0], names[0], names[1])
        };
        (
            PlotControllerView {
                table: Some(t),
                notification: info("Data imported / Dannye zagruzheny"@),
                ..record(s, c).0
            },
            Ok(()),
        )
    }
}

/// An import: installs the table read from the file, or fails with the reason it
/// could not be read.
pub open spec fn import(s: PlotControllerView, table: Result<DataTableView, Seq<char>>) -> Step {
    match table {
        Ok(t) => install_table(s, t),
        Err(msg) => refuse(s, ControllerErrorView::DataLoadFailed(msg)),
    }
}

/// The series that an "Add series" request creates.
pub open spec fn new_series(id: u64, name: Seq<char>, x: Seq<char>, y: Seq<char>) -> SeriesModelView {
    SeriesModelView {
        id: SeriesId(id),
        name: if trim(name).len() == 0 {
            "Series "@ + decimal(id as nat)
        } else {
            name
        },
        x_column: x,
        y_column: y,
        style: SeriesStyleView {
            color: series_color(id),
            line_width: default_line_width(),
            line_style: LineStyle::Solid,
            marker: None,
        },
        visible: true,
    }
}

/// "Add series": an empty column name means the first (for x) or second (for y)
/// column of the table; both columns must exist; the new series gets the next
/// identifier and goes to the end.
pub open spec fn add_series(
    s: PlotControllerView,
    name: Seq<char>,
    x_column: Seq<char>,
    y_column: Seq<char>,
) -> Step {
    match s.table {
        None => refuse(s, ControllerErrorView::NoDataLoaded),
        Some(t) => {
            let names = column_names_of(t);
            if names.len() < 2 {
                refuse(s, ControllerErrorView::DataLoadFailed("Need at least two columns"@))
            } else {
                let x = if x_column.len() == 0 { names[0] } else { x_column };
                let y = if y_column.len() == 0 { names[1] } else { y_column };
                if !table_has(t, x) {
                    refuse(s, ControllerErrorView::ColumnNotFound(x))
                } else if !table_has(t, y) {
                    refuse(s, ControllerErrorView::ColumnNotFound(y))
                } else {
                    let id = s.next_series_id;
                    record(
                        PlotControllerView { next_series_id: (id + 1) as u64, ..s },
                        CommandView::AddSeries {
                            series: new_series(id, name, x, y),
                            index: s.model.series.len() as usize,
                        },
                    )
                }
            }
        },
    }
}

/// The table has column `name`, or the error that says why not.
pub open spec fn column_check(s: PlotControllerView, name: Seq<char>) -> Option<ControllerErrorView> {
    match s.table {
        None => Some(ControllerErrorView::NoDataLoaded),
        Some(t) => if table_has(t, name) {
            None
        } else {
            Some(ControllerErrorView::ColumnNotFound(name))
        },
    }
}

/// Records a change of the first series with identifier `id`, built by `f` from
/// that series; refused when there is none.
pub open spec fn series_edit(
    s: PlotControllerView,
    id: SeriesId,
    f: spec_fn(SeriesModelView) -> CommandView,
) -> Step {
    match position_of(s.model.series, id) {
        None => refuse(s, ControllerErrorView::SeriesNotFound(id)),
        Some(i) => record(s, f(s.model.series[i])),
    }
}

/// Records a replacement of the legend by `f` of the current one.
pub open spec fn legend_edit(s: PlotControllerView, f: spec_fn(LegendConfigView) -> LegendConfigView) -> Step {
    record(s, CommandView::ReplaceLegend { old: s.model.legend, new: f(s.model.legend) })
}

/// Records a replacement of the layout by `f` of the current one.
pub open spec fn layout_edit(s: PlotControllerView, f: spec_fn(LayoutConfigView) -> LayoutConfigView) -> Step {
    record(s, CommandView::ReplaceLayout { old: s.model.layout, new: f(s.model.layout) })
}

/// The legend title after a request: trimmed, and absent when empty.
pub open spec fn legend_title(title: Option<Seq<char>>) -> Option<Seq<char>> {
    match title {
        Some(t) => if trim(t).len() == 0 {
            None
        } else {
            Some(trim(t))
        },
        None => None,
    }
}

/// What an action on an axis does.
pub open spec fn axis_step(s: PlotControllerView, a: Action) -> Step {
    let m = s.model;
    match a {
        Action::SetAxisLabel { axis, label } => if trim(label@).len() == 0 {
            fail(s, ControllerErrorView::EmptyAxisLabel)
        } else {
            record(
                s,
                CommandView::SetAxisLabel { axis, old: axis_of(m, axis).label, new: trim(label@) },
            )
        },
        Action::SetAxisLabelFontSize { axis, font_size } => record(
            s,
            CommandView::SetAxisLabelFontSize {
                axis,
                old: axis_of(m, axis).label_font_size,
                new: at_least_8(font_size),
            },
        ),
        Action::SetAxisTitleFontSize { axis, font_size } => record(
            s,
            CommandView::SetAxisTitleFontSize {
                axis,
                old: axis_of(m, axis).axis_title_font_size,
                new: at_least_8(font_size),
            },
        ),
        Action::SetAxisScale { axis, scale } => record(
            s,
            CommandView::SetAxisScale { axis, old: axis_of(m, axis).scale, new: scale },
        ),
        Action::SetAxisRange { axis, range } => match range@ {
            RangePolicyView::Manual { min, max } if !less64(min.bits, max.bits) => fail(
                s,
                ControllerErrorView::InvalidRange { min, max },
            ),
            _ => record(s, CommandView::SetAxisRange { axis, old: axis_of(m, axis).range, new: range@ }),
        },
        Action::SetAxisMajorTickStep { axis, step } => record(
            s,
            CommandView::SetAxisMajorTickStep {
                axis,
                old: axis_of(m, axis).ticks.major_step,
                new: match step {
                    Some(v) => Some(v@),
                    None => None,
                },
            },
        ),
        Action::SetAxisMinorTicks { axis, per_major } => record(
            s,
            CommandView::SetAxisMinorTicks {
                axis,
                old: axis_of(m, axis).ticks.minor_per_major,
                new: per_major,
            },
        ),
        _ => (s, Ok(())),
    }
}

/// What an action on the chart title, the legend or the layout does.
pub open spec fn frame_step(s: PlotControllerView, a: Action) -> Step {
    let m = s.model;
    match a {
        Action::SetChartTitle(title) => if trim(title@).len() == 0 {
            fail(s, ControllerErrorView::EmptyChartTitle)
        } else {
            record(s, CommandView::SetChartTitle { old: m.layout.title, new: trim(title@) })
        },
        Action::SetLegendVisible(visible) => legend_edit(
            s,
            |l: LegendConfigView| LegendConfigView { visible, ..l },
        ),
        Action::SetLegendTitle(title) => legend_edit(
            s,
            |l: LegendConfigView| LegendConfigView { title: legend_title(opt_text(title)), ..l },
        ),
        Action::SetLegendPosition(position) => legend_edit(
            s,
            |l: LegendConfigView| LegendConfigView { position, ..l },
        ),
        Action::SetLegendFontSize(font_size) => legend_edit(
            s,
            |l: LegendConfigView| LegendConfigView { font_size: at_least_8(font_size), ..l },
        ),
        Action::SetLegendFontColor(color) => legend_edit(
            s,
            |l: LegendConfigView| LegendConfigView { font_color: color, ..l },
        ),
        Action::SetLayoutMargin(margin) => layout_edit(
            s,
            |l: LayoutConfigView| LayoutConfigView { margin, ..l },
        ),
        Action::SetXLabelAreaSize(size) => layout_edit(
            s,
            |l: LayoutConfigView| LayoutConfigView { x_label_area_size: size, ..l },
        ),
        Action::SetYLabelAreaSize(size) => layout_edit(
            s,
            |l: LayoutConfigView| LayoutConfigView { y_label_area_size: size, ..l },
        ),
        Action::SetLabelFontSize(size) => layout_edit(
            s,
            |l: LayoutConfigView| LayoutConfigView { title_font_size: at_least_8(size), ..l },
        ),
        Action::SetLabelFontColor(color) => layout_edit(
            s,
            |l: LayoutConfigView| LayoutConfigView { title_font_color: color, ..l },
        ),
        _ => (s, Ok(())),
    }
}

/// What an action on the series does.
pub open spec fn series_step(s: PlotControllerView, a: Action) -> Step {
    let m = s.model;
    match a {
        Action::AddSeries { name, x_column, y_column } => add_series(
            s,
            name@,
            x_column@,
            y_column@,
        ),
        Action::RemoveSeries { series_id } => if m.series.len() <= 1 {
            fail(s, ControllerErrorView::CannotRemoveLastSeries)
        } else {
            match position_of(m.series, series_id) {
                None => fail(s, ControllerErrorView::SeriesNotFound(series_id)),
                Some(i) => record(
                    s,
                    CommandView::RemoveSeries { series: m.series[i], index: i as usize },
                ),
            }
        },
        Action::RenameSeries { series_id, name } => series_edit(
            s,
            series_id,
            |x: SeriesModelView|
                CommandView::RenameSeries { series_id, old: x.name, new: name@ },
        ),
        Action::SetSeriesVisibility { series_id, visible } => series_edit(
            s,
            series_id,
            |x: SeriesModelView|
                CommandView::SetSeriesVisibility { series_id, old: x.visible, new: visible },
        ),
        Action::SetSeriesXColumn { series_id, x_column } => match column_check(s, x_column@) {
            Some(e) => refuse(s, e),
            None => series_edit(
                s,
                series_id,
                |x: SeriesModelView|
                    CommandView::SetSeriesXColumn { series_id, old: x.x_column, new: x_column@ },
            ),
        },
        Action::SetSeriesYColumn { series_id, y_column } => match column_check(s, y_column@) {
            Some(e) => refuse(s, e),
            None => series_edit(
                s,
                series_id,
                |x: SeriesModelView|
                    CommandView::SetSeriesYColumn { series_id, old: x.y_column, new: y_column@ },
            ),
        },
        Action::SetSeriesColor { series_id, color } => series_edit(
            s,
            series_id,
            |x: SeriesModelView|
                CommandView::SetSeriesColor { series_id, old: x.style.color, new: color },
        ),
        Action::SetSeriesLineWidth { series_id, width } => if !less32(0, width.bits) {
            fail(s, ControllerErrorView::InvalidLineWidth(width@))
        } else {
            series_edit(
                s,
                series_id,
                |x: SeriesModelView|
                    CommandView::SetSeriesLineWidth {
                        series_id,
                        old: x.style.line_width,
                        new: width@,
                    },
            )
        },
        Action::SetSeriesLineStyle { series_id, line_style } => series_edit(
            s,
            series_id,
            |x: SeriesModelView|
                CommandView::SetSeriesLineStyle {
                    series_id,
                    old: x.style.line_style,
                    new: line_style,
                },
        ),
        Action::SetSeriesMarker { series_id, marker, size } => series_edit(
            s,
            series_id,
            |x: SeriesModelView|
                CommandView::SetSeriesMarker {
                    series_id,
                    old: x.style.marker,
                    new: match marker {
                        Some(shape) => Some(MarkerStyleView { shape, size: size@ }),
                        None => None,
                    },
                },
        ),
        _ => (s, Ok(())),
    }
}

/// What an import, an export, undo, redo or a reset does.
pub open spec fn other_step(s: PlotControllerView, a: Action) -> Step {
    let m = s.model;
    match a {
        Action::ImportFromCsv { table, .. } | Action::ImportFromTxt { table, .. } => import(
            s,
            match table {
                Ok(t) => Ok(t@),
                Err(e) => Err(e@),
            },
        ),
        Action::RequestSaveAs { outcome, .. } => match outcome {
            Ok(()) => (s, Ok(())),
            Err(e) => refuse(s, e@),
        },
        Action::Undo => if s.undo.len() == 0 {
            (PlotControllerView { notification: info("Nothing to undo / Nechego otmenyat"@), ..s }, Ok(()))
        } else {
            let c = s.undo.last();
            (
                PlotControllerView {
                    model: inverse(m, c),
                    undo: s.undo.drop_last(),
                    redo: s.redo.push(c),
                    ..s
                },
                Ok(()),
            )
        },
        Action::Redo => if s.redo.len() == 0 {
            (PlotControllerView { notification: info("Nothing to redo / Nechego povtoryat"@), ..s }, Ok(()))
        } else {
            let c = s.redo.last();
            (
                PlotControllerView {
                    model: apply(m, c),
                    undo: s.undo.push(c),
                    redo: s.redo.drop_last(),
                    ..s
                },
                Ok(()),
            )
        },
        Action::ResetPlot => fail(s, ControllerErrorView::UnsupportedAction("ResetPlot"@)),
        _ => (s, Ok(())),
    }
}

/// Actions on an axis.
pub open spec fn is_axis_action(a: Action) -> bool {
    ||| a is SetAxisLabel
    ||| a is SetAxisLabelFontSize
    ||| a is SetAxisTitleFontSize
    ||| a is SetAxisScale
    ||| a is SetAxisRange
    ||| a is SetAxisMajorTickStep
    ||| a is SetAxisMinorTicks
}

/// Actions on the chart title, the legend or the layout.
pub open spec fn is_frame_action(a: Action) -> bool {
    ||| a is SetChartTitle
    ||| a is SetLegendVisible
    ||| a is SetLegendTitle
    ||| a is SetLegendPosition
    ||| a is SetLegendFontSize
    ||| a is SetLegendFontColor
    ||| a is SetLayoutMargin
    ||| a is SetXLabelAreaSize
    ||| a is SetYLabelAreaSize
    ||| a is SetLabelFontSize
    ||| a is SetLabelFontColor
}

/// Actions on the series.
pub open spec fn is_series_action(a: Action) -> bool {
    ||| a is AddSeries
    ||| a is RemoveSeries
    ||| a is RenameSeries
    ||| a is SetSeriesVisibility
    ||| a is SetSeriesXColumn
    ||| a is SetSeriesYColumn
    ||| a is SetSeriesColor
    ||| a is SetSeriesLineWidth
    ||| a is SetSeriesLineStyle
    ||| a is SetSeriesMarker
}

/// What an action does before the closing "Updated" notification.
pub open spec fn handle(s: PlotControllerView, a: Action) -> Step {
    if is_axis_action(a) {
        axis_step(s, a)
    } else if is_frame_action(a) {
        frame_step(s, a)
    } else if is_series_action(a) {
        series_step(s, a)
    } else {
        other_step(s, a)
    }
}

/// What dispatching `a` does: the action's own effect, then "Updated" after success.
pub open spec fn step(s: PlotControllerView, a: Action) -> Step {
    updated(handle(s, a))
}

/// Undoing every command of `undo`, from the top, stays within the bounds of the
/// series list and never leaves it empty, starting from `n` series.
pub open spec fn undo_chain(n: int, undo: Seq<CommandView>) -> bool
    decreases undo.len(),
{
    &&& n >= 1
    &&& (undo.len() > 0 ==> {
        &&& count_inverse_ok(n, undo.last())
        &&& undo_chain(count_inverse(n, undo.last()), undo.drop_last())
    })
}

/// Redoing every command of `redo`, from the top, stays within the bounds of the
/// series list and never leaves it empty, starting from `n` series.
pub open spec fn redo_chain(n: int, redo: Seq<CommandView>) -> bool
    decreases redo.len(),
{
    &&& n >= 1
    &&& (redo.len() > 0 ==> {
        &&& count_apply_ok(n, redo.last())
        &&& redo_chain(count_apply(n, redo.last()), redo.drop_last())
    })
}

/// The controller's invariant: the document has a series, both histories can be
/// replayed within bounds, and a loaded table has at least two columns.
pub open spec fn controller_wf(s: PlotControllerView) -> bool {
    &&& undo_chain(s.model.series.len() as int, s.undo)
    &&& redo_chain(s.model.series.len() as int, s.redo)
    &&& (s.table matches Some(t) ==> column_names_of(t).len() >= 2)
}

} // verus!
