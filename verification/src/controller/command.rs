//! Undoable state transitions.
//!
//! Commands keep old/new values so the controller can apply and reverse edits
//! safely. This module states what applying a command, and reversing it, does to
//! the document, and proves that reversing undoes applying.
use vstd::prelude::*;
use crate::model::number::{Real32, Real32View, Real64, Real64View};
use crate::model::plot::{
    axis_of, is_first_with_id, lemma_position_of, position_of, with_axis, PlotModelView,
    SeriesModel, SeriesModelView,
};
use crate::model::types::{
    opt_marker, opt_real64, AxisConfig, AxisConfigView, AxisKind, Color, LayoutConfig,
    LayoutConfigView, LegendConfig, LegendConfigView, LineStyle, MarkerStyle, MarkerStyleView,
    RangePolicy, RangePolicyView, ScaleType, SeriesId, SeriesStyleView, TickConfigView,
};

verus! {

/// EN: Mutations with old/new values for undo/redo-safe state transitions.
/// RU: Izmeneniya sostoyaniya s old/new dlya bezopasnogo undo/redo.
pub enum Command {
    SetChartTitle { old: String, new: String },
    SetAxisLabel { axis: AxisKind, old: String, new: String },
    SetAxisLabelFontSize { axis: AxisKind, old: u32, new: u32 },
    SetAxisTitleFontSize { axis: AxisKind, old: u32, new: u32 },
    SetAxisScale { axis: AxisKind, old: ScaleType, new: ScaleType },
    SetAxisRange { axis: AxisKind, old: RangePolicy, new: RangePolicy },
    SetAxisMajorTickStep { axis: AxisKind, old: Option<Real64>, new: Option<Real64> },
    SetAxisMinorTicks { axis: AxisKind, old: u16, new: u16 },
    ReplaceAxisConfig { axis: AxisKind, old: AxisConfig, new: AxisConfig },
    AddSeries { series: SeriesModel, index: usize },
    RemoveSeries { series: SeriesModel, index: usize },
    RenameSeries { series_id: SeriesId, old: String, new: String },
    SetSeriesVisibility { series_id: SeriesId, old: bool, new: bool },
    SetSeriesXColumn { series_id: SeriesId, old: String, new: String },
    SetSeriesYColumn { series_id: SeriesId, old: String, new: String },
    SetSeriesLineWidth { series_id: SeriesId, old: Real32, new: Real32 },
    SetSeriesLineStyle { series_id: SeriesId, old: LineStyle, new: LineStyle },
    SetSeriesColor { series_id: SeriesId, old: Color, new: Color },
    SetSeriesMarker { series_id: SeriesId, old: Option<MarkerStyle>, new: Option<MarkerStyle> },
    ReplaceLegend { old: LegendConfig, new: LegendConfig },
    ReplaceLayout { old: LayoutConfig, new: LayoutConfig },
    Batch { commands: Vec<Command> },
}

pub enum CommandView {
    SetChartTitle { old: Seq<char>, new: Seq<char> },
    SetAxisLabel { axis: AxisKind, old: Seq<char>, new: Seq<char> },
    SetAxisLabelFontSize { axis: AxisKind, old: u32, new: u32 },
    SetAxisTitleFontSize { axis: AxisKind, old: u32, new: u32 },
    SetAxisScale { axis: AxisKind, old: ScaleType, new: ScaleType },
    SetAxisRange { axis: AxisKind, old: RangePolicyView, new: RangePolicyView },
    SetAxisMajorTickStep { axis: AxisKind, old: Option<Real64View>, new: Option<Real64View> },
    SetAxisMinorTicks { axis: AxisKind, old: u16, new: u16 },
    ReplaceAxisConfig { axis: AxisKind, old: AxisConfigView, new: AxisConfigView },
    AddSeries { series: SeriesModelView, index: usize },
    RemoveSeries { series: SeriesModelView, index: usize },
    RenameSeries { series_id: SeriesId, old: Seq<char>, new: Seq<char> },
    SetSeriesVisibility { series_id: SeriesId, old: bool, new: bool },
    SetSeriesXColumn { series_id: SeriesId, old: Seq<char>, new: Seq<char> },
    SetSeriesYColumn { series_id: SeriesId, old: Seq<char>, new: Seq<char> },
    SetSeriesLineWidth { series_id: SeriesId, old: Real32View, new: Real32View },
    SetSeriesLineStyle { series_id: SeriesId, old: LineStyle, new: LineStyle },
    SetSeriesColor { series_id: SeriesId, old: Color, new: Color },
    SetSeriesMarker {
        series_id: SeriesId,
        old: Option<MarkerStyleView>,
        new: Option<MarkerStyleView>,
    },
    ReplaceLegend { old: LegendConfigView, new: LegendConfigView },
    ReplaceLayout { old: LayoutConfigView, new: LayoutConfigView },
    Batch { commands: Seq<CommandView> },
}

/// The view of a command.
pub open spec fn command_view(c: Command) -> CommandView
    decreases c,
{
    match c {
        Command::SetChartTitle { old, new } => CommandView::SetChartTitle { old: old@, new: new@ },
        Command::SetAxisLabel { axis, old, new } => CommandView::SetAxisLabel {
            axis,
            old: old@,
            new: new@,
        },
        Command::SetAxisLabelFontSize { axis, old, new } => CommandView::SetAxisLabelFontSize {
            axis,
            old,
            new,
        },
        Command::SetAxisTitleFontSize { axis, old, new } => CommandView::SetAxisTitleFontSize {
            axis,
            old,
            new,
        },
        Command::SetAxisScale { axis, old, new } => CommandView::SetAxisScale { axis, old, new },
        Command::SetAxisRange { axis, old, new } => CommandView::SetAxisRange {
            axis,
            old: old@,
            new: new@,
        },
        Command::SetAxisMajorTickStep { axis, old, new } => CommandView::SetAxisMajorTickStep {
            axis,
            old: opt_real64(old),
            new: opt_real64(new),
        },
        Command::SetAxisMinorTicks { axis, old, new } => CommandView::SetAxisMinorTicks {
            axis,
            old,
            new,
        },
        Command::ReplaceAxisConfig { axis, old, new } => CommandView::ReplaceAxisConfig {
            axis,
            old: old@,
            new: new@,
        },
        Command::AddSeries { series, index } => CommandView::AddSeries { series: series@, index },
        Command::RemoveSeries { series, index } => CommandView::RemoveSeries {
            series: series@,
            index,
        },
        Command::RenameSeries { series_id, old, new } => CommandView::RenameSeries {
            series_id,
            old: old@,
            new: new@,
        },
        Command::SetSeriesVisibility { series_id, old, new } => CommandView::SetSeriesVisibility {
            series_id,
            old,
            new,
        },
        Command::SetSeriesXColumn { series_id, old, new } => CommandView::SetSeriesXColumn {
            series_id,
            old: old@,
            new: new@,
        },
        Command::SetSeriesYColumn { series_id, old, new } => CommandView::SetSeriesYColumn {
            series_id,
            old: old@,
            new: new@,
        },
        Command::SetSeriesLineWidth { series_id, old, new } => CommandView::SetSeriesLineWidth {
            series_id,
            old: old@,
            new: new@,
        },
        Command::SetSeriesLineStyle { series_id, old, new } => CommandView::SetSeriesLineStyle {
            series_id,
            old,
            new,
        },
        Command::SetSeriesColor { series_id, old, new } => CommandView::SetSeriesColor {
            series_id,
            old,
            new,
        },
        Command::SetSeriesMarker { series_id, old, new } => CommandView::SetSeriesMarker {
            series_id,
            old: opt_marker(old),
            new: opt_marker(new),
        },
        Command::ReplaceLegend { old, new } => CommandView::ReplaceLegend { old: old@, new: new@ },
        Command::ReplaceLayout { old, new } => CommandView::ReplaceLayout { old: old@, new: new@ },
        Command::Batch { commands } => CommandView::Batch {
            commands: command_views(commands@, commands@.len() as int),
        },
    }
}

/// The views of the first `n` commands of `cs`.
pub open spec fn command_views(cs: Seq<Command>, n: int) -> Seq<CommandView>
    decreases cs, n,
{
    if n <= 0 || n > cs.len() {
        Seq::empty()
    } else {
        command_views(cs, n - 1).push(command_view(cs[n - 1]))
    }
}

impl View for Command {
    type V = CommandView;

    open spec fn view(&self) -> CommandView {
        command_view(*self)
    }
}

pub proof fn lemma_command_views(cs: Seq<Command>, n: int)
    requires
        0 <= n <= cs.len(),
    ensures
        command_views(cs, n).len() == n,
        forall|i: int| 0 <= i < n ==> #[trigger] command_views(cs, n)[i] == command_view(cs[i]),
    decreases n,
{
    if n > 0 {
        lemma_command_views(cs, n - 1);
    }
}

/// The document with one axis changed by `f`.
pub open spec fn map_axis(
    m: PlotModelView,
    axis: AxisKind,
    f: spec_fn(AxisConfigView) -> AxisConfigView,
) -> PlotModelView {
    with_axis(m, axis, f(axis_of(m, axis)))
}

/// The document with the first series of identifier `id` changed by `f`; unchanged
/// when there is none.
pub open spec fn map_series(
    m: PlotModelView,
    id: SeriesId,
    f: spec_fn(SeriesModelView) -> SeriesModelView,
) -> PlotModelView {
    match position_of(m.series, id) {
        Some(i) => PlotModelView { series: m.series.update(i, f(m.series[i])), ..m },
        None => m,
    }
}

/// Sets one field of an axis, or of the first series with an identifier, to a value.
pub open spec fn set_field(m: PlotModelView, c: CommandView, forward: bool) -> PlotModelView {
    match c {
        CommandView::SetChartTitle { old, new } => PlotModelView {
            layout: LayoutConfigView { title: if forward { new } else { old }, ..m.layout },
            ..m
        },
        CommandView::SetAxisLabel { axis, old, new } => map_axis(
            m,
            axis,
            |a: AxisConfigView| AxisConfigView { label: if forward { new } else { old }, ..a },
        ),
        CommandView::SetAxisLabelFontSize { axis, old, new } => map_axis(
            m,
            axis,
            |a: AxisConfigView|
                AxisConfigView { label_font_size: if forward { new } else { old }, ..a },
        ),
        CommandView::SetAxisTitleFontSize { axis, old, new } => map_axis(
            m,
            axis,
            |a: AxisConfigView|
                AxisConfigView { axis_title_font_size: if forward { new } else { old }, ..a },
        ),
        CommandView::SetAxisScale { axis, old, new } => map_axis(
            m,
            axis,
            |a: AxisConfigView| AxisConfigView { scale: if forward { new } else { old }, ..a },
        ),
        CommandView::SetAxisRange { axis, old, new } => map_axis(
            m,
            axis,
            |a: AxisConfigView| AxisConfigView { range: if forward { new } else { old }, ..a },
        ),
        CommandView::SetAxisMajorTickStep { axis, old, new } => map_axis(
            m,
            axis,
            |a: AxisConfigView|
                AxisConfigView {
                    ticks: TickConfigView { major_step: if forward { new } else { old }, ..a.ticks },
                    ..a
                },
        ),
        CommandView::SetAxisMinorTicks { axis, old, new } => map_axis(
            m,
            axis,
            |a: AxisConfigView|
                AxisConfigView {
                    ticks: TickConfigView {
                        minor_per_major: if forward { new } else { old },
                        ..a.ticks
                    },
                    ..a
                },
        ),
        CommandView::ReplaceAxisConfig { axis, old, new } => with_axis(
            m,
            axis,
            if forward { new } else { old },
        ),
        CommandView::RenameSeries { series_id, old, new } => map_series(
            m,
            series_id,
            |s: SeriesModelView| SeriesModelView { name: if forward { new } else { old }, ..s },
        ),
        CommandView::SetSeriesVisibility { series_id, old, new } => map_series(
            m,
            series_id,
            |s: SeriesModelView| SeriesModelView { visible: if forward { new } else { old }, ..s },
        ),
        CommandView::SetSeriesXColumn { series_id, old, new } => map_series(
            m,
            series_id,
            |s: SeriesModelView| SeriesModelView { x_column: if forward { new } else { old }, ..s },
        ),
        CommandView::SetSeriesYColumn { series_id, old, new } => map_series(
            m,
            series_id,
            |s: SeriesModelView| SeriesModelView { y_column: if forward { new } else { old }, ..s },
        ),
        CommandView::SetSeriesLineWidth { series_id, old, new } => map_series(
            m,
            series_id,
            |s: SeriesModelView|
                SeriesModelView {
                    style: SeriesStyleView { line_width: if forward { new } else { old }, ..s.style },
                    ..s
                },
        ),
        CommandView::SetSeriesLineStyle { series_id, old, new } => map_series(
            m,
            series_id,
            |s: SeriesModelView|
                SeriesModelView {
                    style: SeriesStyleView { line_style: if forward { new } else { old }, ..s.style },
                    ..s
                },
        ),
        CommandView::SetSeriesColor { series_id, old, new } => map_series(
            m,
            series_id,
            |s: SeriesModelView|
                SeriesModelView {
                    style: SeriesStyleView { color: if forward { new } else { old }, ..s.style },
                    ..s
                },
        ),
        CommandView::SetSeriesMarker { series_id, old, new } => map_series(
            m,
            series_id,
            |s: SeriesModelView|
                SeriesModelView {
                    style: SeriesStyleView { marker: if forward { new } else { old }, ..s.style },
                    ..s
                },
        ),
        CommandView::ReplaceLegend { old, new } => PlotModelView {
            legend: if forward { new } else { old },
            ..m
        },
        CommandView::ReplaceLayout { old, new } => PlotModelView {
            layout: if forward { new } else { old },
            ..m
        },
        _ => m,
    }
}

/// What applying `c` does to the document.
pub open spec fn apply(m: PlotModelView, c: CommandView) -> PlotModelView
    decreases c,
{
    match c {
        CommandView::AddSeries { series, index } => PlotModelView {
            series: m.series.insert(index as int, series),
            ..m
        },
        CommandView::RemoveSeries { index, .. } => PlotModelView {
            series: m.series.remove(index as int),
            ..m
        },
        CommandView::Batch { commands } => apply_all(m, commands, commands.len() as int),
        _ => set_field(m, c, true),
    }
}

/// Applies the first `n` commands of `cs`, in order.
pub open spec fn apply_all(m: PlotModelView, cs: Seq<CommandView>, n: int) -> PlotModelView
    decreases cs, n,
{
    if n <= 0 || n > cs.len() {
        m
    } else {
        apply(apply_all(m, cs, n - 1), cs[n - 1])
    }
}

/// What reversing `c` does to the document.
pub open spec fn inverse(m: PlotModelView, c: CommandView) -> PlotModelView
    decreases c,
{
    match c {
        CommandView::AddSeries { index, .. } => PlotModelView {
            series: m.series.remove(index as int),
            ..m
        },
        CommandView::RemoveSeries { series, index } => PlotModelView {
            series: m.series.insert(index as int, series),
            ..m
        },
        CommandView::Batch { commands } => inverse_all(m, commands, commands.len() as int),
        _ => set_field(m, c, false),
    }
}

/// Reverses the first `n` commands of `cs`, the last one first.
pub open spec fn inverse_all(m: PlotModelView, cs: Seq<CommandView>, n: int) -> PlotModelView
    decreases cs, n,
{
    if n <= 0 || n > cs.len() {
        m
    } else {
        inverse_all(inverse(m, cs[n - 1]), cs, n - 1)
    }
}

/// Applying `c` to a document with `n` series stays within bounds.
pub open spec fn count_apply_ok(n: int, c: CommandView) -> bool
    decreases c,
{
    match c {
        CommandView::AddSeries { index, .. } => index <= n,
        CommandView::RemoveSeries { index, .. } => index < n,
        CommandView::Batch { commands } => count_apply_all_ok(n, commands, commands.len() as int),
        _ => true,
    }
}

/// The number of series after applying `c` to a document with `n` series.
pub open spec fn count_apply(n: int, c: CommandView) -> int
    decreases c,
{
    match c {
        CommandView::AddSeries { .. } => n + 1,
        CommandView::RemoveSeries { .. } => n - 1,
        CommandView::Batch { commands } => count_apply_all(n, commands, commands.len() as int),
        _ => n,
    }
}

pub open spec fn count_apply_all_ok(n: int, cs: Seq<CommandView>, k: int) -> bool
    decreases cs, k,
{
    if k <= 0 || k > cs.len() {
        true
    } else {
        count_apply_all_ok(n, cs, k - 1) && count_apply_ok(count_apply_all(n, cs, k - 1), cs[k - 1])
    }
}

pub open spec fn count_apply_all(n: int, cs: Seq<CommandView>, k: int) -> int
    decreases cs, k,
{
    if k <= 0 || k > cs.len() {
        n
    } else {
        count_apply(count_apply_all(n, cs, k - 1), cs[k - 1])
    }
}

/// Reversing `c` on a document with `n` series stays within bounds.
pub open spec fn count_inverse_ok(n: int, c: CommandView) -> bool
    decreases c,
{
    match c {
        CommandView::AddSeries { index, .. } => index < n,
        CommandView::RemoveSeries { index, .. } => index <= n,
        CommandView::Batch { commands } => count_inverse_all_ok(n, commands, commands.len() as int),
        _ => true,
    }
}

/// The number of series after reversing `c` on a document with `n` series.
pub open spec fn count_inverse(n: int, c: CommandView) -> int
    decreases c,
{
    match c {
        CommandView::AddSeries { .. } => n - 1,
        CommandView::RemoveSeries { .. } => n + 1,
        CommandView::Batch { commands } => count_inverse_all(n, commands, commands.len() as int),
        _ => n,
    }
}

pub open spec fn count_inverse_all_ok(n: int, cs: Seq<CommandView>, k: int) -> bool
    decreases cs, k,
{
    if k <= 0 || k > cs.len() {
        true
    } else {
        count_inverse_ok(n, cs[k - 1]) && count_inverse_all_ok(
            count_inverse(n, cs[k - 1]),
            cs,
            k - 1,
        )
    }
}

pub open spec fn count_inverse_all(n: int, cs: Seq<CommandView>, k: int) -> int
    decreases cs, k,
{
    if k <= 0 || k > cs.len() {
        n
    } else {
        count_inverse_all(count_inverse(n, cs[k - 1]), cs, k - 1)
    }
}

/// Applying `c` to `m` stays within the bounds of its series list.
pub open spec fn apply_ok(m: PlotModelView, c: CommandView) -> bool {
    count_apply_ok(m.series.len() as int, c)
}

/// Reversing `c` on `m` stays within the bounds of its series list.
pub open spec fn inverse_ok(m: PlotModelView, c: CommandView) -> bool {
    count_inverse_ok(m.series.len() as int, c)
}

} // verus!

verus! {

/// The values that `c` records as "old" are those of `m`: reversing `c` right
/// after applying it to `m` gives `m` back.
pub open spec fn consistent(m: PlotModelView, c: CommandView) -> bool
    decreases c,
{
    match c {
        CommandView::AddSeries { .. } => true,
        CommandView::RemoveSeries { series, index } => index < m.series.len() ==> m.series[index as int]
            == series,
        CommandView::Batch { commands } => consistent_all(m, commands, commands.len() as int),
        _ => set_field(m, c, false) == m,
    }
}

/// Each of the first `n` commands of `cs` is consistent with the document that the
/// commands before it produce from `m`.
pub open spec fn consistent_all(m: PlotModelView, cs: Seq<CommandView>, n: int) -> bool
    decreases cs, n,
{
    if n <= 0 || n > cs.len() {
        true
    } else {
        consistent_all(m, cs, n - 1) && consistent(apply_all(m, cs, n - 1), cs[n - 1])
    }
}

proof fn lemma_position_after_update(s: Seq<SeriesModelView>, id: SeriesId, i: int, x: SeriesModelView)
    requires
        position_of(s, id) == Some(i),
        x.id == id,
    ensures
        position_of(s.update(i, x), id) == Some(i),
{
    assert(is_first_with_id(s, id, i));
    let t = s.update(i, x);
    assert forall|j: int| 0 <= j < i implies t[j].id != id by {
        assert(t[j] == s[j]);
    }
    assert(is_first_with_id(t, id, i));
    lemma_position_of(t, id, i);
}

proof fn lemma_rename_series_twice(m: PlotModelView, c: CommandView)
    requires
        c is RenameSeries,
    ensures
        set_field(set_field(m, c, true), c, false) == set_field(m, c, false),
        set_field(m, c, true).series.len() == m.series.len(),
        set_field(m, c, false).series.len() == m.series.len(),
{
    let id = c->RenameSeries_series_id;
    match position_of(m.series, id) {
        Some(i) => {
            let m1 = set_field(m, c, true);
            assert(m1.series == m.series.update(i, m1.series[i]));
            assert(m1.series[i].id == id);
            lemma_position_after_update(m.series, id, i, m1.series[i]);
            assert(set_field(m1, c, false).series =~= set_field(m, c, false).series);
        },
        None => {},
    }
}

proof fn lemma_set_series_visibility_twice(m: PlotModelView, c: CommandView)
    requires
        c is SetSeriesVisibility,
    ensures
        set_field(set_field(m, c, true), c, false) == set_field(m, c, false),
        set_field(m, c, true).series.len() == m.series.len(),
        set_field(m, c, false).series.len() == m.series.len(),
{
    let id = c->SetSeriesVisibility_series_id;
    match position_of(m.series, id) {
        Some(i) => {
            let m1 = set_field(m, c, true);
            assert(m1.series == m.series.update(i, m1.series[i]));
            assert(m1.series[i].id == id);
            lemma_position_after_update(m.series, id, i, m1.series[i]);
            assert(set_field(m1, c, false).series =~= set_field(m, c, false).series);
        },
        None => {},
    }
}

proof fn lemma_set_series_x_column_twice(m: PlotModelView, c: CommandView)
    requires
        c is SetSeriesXColumn,
    ensures
        set_field(set_field(m, c, true), c, false) == set_field(m, c, false),
        set_field(m, c, true).series.len() == m.series.len(),
        set_field(m, c, false).series.len() == m.series.len(),
{
    let id = c->SetSeriesXColumn_series_id;
    match position_of(m.series, id) {
        Some(i) => {
            let m1 = set_field(m, c, true);
            assert(m1.series == m.series.update(i, m1.series[i]));
            assert(m1.series[i].id == id);
            lemma_position_after_update(m.series, id, i, m1.series[i]);
            assert(set_field(m1, c, false).series =~= set_field(m, c, false).series);
        },
        None => {},
    }
}

proof fn lemma_set_series_y_column_twice(m: PlotModelView, c: CommandView)
    requires
        c is SetSeriesYColumn,
    ensures
        set_field(set_field(m, c, true), c, false) == set_field(m, c, false),
        set_field(m, c, true).series.len() == m.series.len(),
        set_field(m, c, false).series.len() == m.series.len(),
{
    let id = c->SetSeriesYColumn_series_id;
    match position_of(m.series, id) {
        Some(i) => {
            let m1 = set_field(m, c, true);
            assert(m1.series == m.series.update(i, m1.series[i]));
            assert(m1.series[i].id == id);
            lemma_position_after_update(m.series, id, i, m1.series[i]);
            assert(set_field(m1, c, false).series =~= set_field(m, c, false).series);
        },
        None => {},
    }
}

proof fn lemma_set_series_line_width_twice(m: PlotModelView, c: CommandView)
    requires
        c is SetSeriesLineWidth,
    ensures
        set_field(set_field(m, c, true), c, false) == set_field(m, c, false),
        set_field(m, c, true).series.len() == m.series.len(),
        set_field(m, c, false).series.len() == m.series.len(),
{
    let id = c->SetSeriesLineWidth_series_id;
    match position_of(m.series, id) {
        Some(i) => {
            let m1 = set_field(m, c, true);
            assert(m1.series == m.series.update(i, m1.series[i]));
            assert(m1.series[i].id == id);
            lemma_position_after_update(m.series, id, i, m1.series[i]);
            assert(set_field(m1, c, false).series =~= set_field(m, c, false).series);
        },
        None => {},
    }
}

proof fn lemma_set_series_line_style_twice(m: PlotModelView, c: CommandView)
    requires
        c is SetSeriesLineStyle,
    ensures
        set_field(set_field(m, c, true), c, false) == set_field(m, c, false),
        set_field(m, c, true).series.len() == m.series.len(),
        set_field(m, c, false).series.len() == m.series.len(),
{
    let id = c->SetSeriesLineStyle_series_id;
    match position_of(m.series, id) {
        Some(i) => {
            let m1 = set_field(m, c, true);
            assert(m1.series == m.series.update(i, m1.series[i]));
            assert(m1.series[i].id == id);
            lemma_position_after_update(m.series, id, i, m1.series[i]);
            assert(set_field(m1, c, false).series =~= set_field(m, c, false).series);
        },
        None => {},
    }
}

proof fn lemma_set_series_color_twice(m: PlotModelView, c: CommandView)
    requires
        c is SetSeriesColor,
    ensures
        set_field(set_field(m, c, true), c, false) == set_field(m, c, false),
        set_field(m, c, true).series.len() == m.series.len(),
        set_field(m, c, false).series.len() == m.series.len(),
{
    let id = c->SetSeriesColor_series_id;
    match position_of(m.series, id) {
        Some(i) => {
            let m1 = set_field(m, c, true);
            assert(m1.series == m.series.update(i, m1.series[i]));
            assert(m1.series[i].id == id);
            lemma_position_after_update(m.series, id, i, m1.series[i]);
            assert(set_field(m1, c, false).series =~= set_field(m, c, false).series);
        },
        None => {},
    }
}

proof fn lemma_set_series_marker_twice(m: PlotModelView, c: CommandView)
    requires
        c is SetSeriesMarker,
    ensures
        set_field(set_field(m, c, true), c, false) == set_field(m, c, false),
        set_field(m, c, true).series.len() == m.series.len(),
        set_field(m, c, false).series.len() == m.series.len(),
{
    let id = c->SetSeriesMarker_series_id;
    match position_of(m.series, id) {
        Some(i) => {
            let m1 = set_field(m, c, true);
            assert(m1.series == m.series.update(i, m1.series[i]));
            assert(m1.series[i].id == id);
            lemma_position_after_update(m.series, id, i, m1.series[i]);
            assert(set_field(m1, c, false).series =~= set_field(m, c, false).series);
        },
        None => {},
    }
}

#[verifier::rlimit(40)]
proof fn lemma_set_field_twice(m: PlotModelView, c: CommandView)
    ensures
        set_field(set_field(m, c, true), c, false) == set_field(m, c, false),
        set_field(m, c, true).series.len() == m.series.len(),
        set_field(m, c, false).series.len() == m.series.len(),
{
    match c {
        CommandView::RenameSeries { .. } => lemma_rename_series_twice(m, c),
        CommandView::SetSeriesVisibility { .. } => lemma_set_series_visibility_twice(m, c),
        CommandView::SetSeriesXColumn { .. } => lemma_set_series_x_column_twice(m, c),
        CommandView::SetSeriesYColumn { .. } => lemma_set_series_y_column_twice(m, c),
        CommandView::SetSeriesLineWidth { .. } => lemma_set_series_line_width_twice(m, c),
        CommandView::SetSeriesLineStyle { .. } => lemma_set_series_line_style_twice(m, c),
        CommandView::SetSeriesColor { .. } => lemma_set_series_color_twice(m, c),
        CommandView::SetSeriesMarker { .. } => lemma_set_series_marker_twice(m, c),
        _ => {},
    }
}

/// Applying `c` within bounds changes the number of series as `count_apply` says.
pub proof fn lemma_apply_count(m: PlotModelView, c: CommandView)
    requires
        apply_ok(m, c),
    ensures
        apply(m, c).series.len() == count_apply(m.series.len() as int, c),
    decreases c,
{
    match c {
        CommandView::Batch { commands } => {
            lemma_apply_all_count(m, commands, commands.len() as int);
        },
        CommandView::AddSeries { .. } | CommandView::RemoveSeries { .. } => {},
        _ => {
            lemma_set_field_twice(m, c);
        },
    }
}

pub proof fn lemma_apply_all_count(m: PlotModelView, cs: Seq<CommandView>, n: int)
    requires
        0 <= n <= cs.len(),
        count_apply_all_ok(m.series.len() as int, cs, n),
    ensures
        apply_all(m, cs, n).series.len() == count_apply_all(m.series.len() as int, cs, n),
    decreases cs, n,
{
    if n > 0 {
        lemma_apply_all_count(m, cs, n - 1);
        lemma_apply_count(apply_all(m, cs, n - 1), cs[n - 1]);
    }
}

/// Reversing `c` within bounds changes the number of series as `count_inverse` says.
pub proof fn lemma_inverse_count(m: PlotModelView, c: CommandView)
    requires
        inverse_ok(m, c),
    ensures
        inverse(m, c).series.len() == count_inverse(m.series.len() as int, c),
    decreases c,
{
    match c {
        CommandView::Batch { commands } => {
            lemma_inverse_all_count(m, commands, commands.len() as int);
        },
        CommandView::AddSeries { .. } | CommandView::RemoveSeries { .. } => {},
        _ => {
            lemma_set_field_twice(m, c);
        },
    }
}

pub proof fn lemma_inverse_all_count(m: PlotModelView, cs: Seq<CommandView>, n: int)
    requires
        0 <= n <= cs.len(),
        count_inverse_all_ok(m.series.len() as int, cs, n),
    ensures
        inverse_all(m, cs, n).series.len() == count_inverse_all(m.series.len() as int, cs, n),
    decreases cs, n,
{
    if n > 0 {
        lemma_inverse_count(m, cs[n - 1]);
        lemma_inverse_all_count(inverse(m, cs[n - 1]), cs, n - 1);
    }
}

/// Law: reversing a command right after applying it restores the document, for
/// every command whose recorded old values are those of the document and that
/// stays within the bounds of the series list.
pub proof fn lemma_inverse_undoes_apply(m: PlotModelView, c: CommandView)
    requires
        consistent(m, c),
        apply_ok(m, c),
    ensures
        inverse_ok(apply(m, c), c),
        inverse(apply(m, c), c) == m,
    decreases c,
{
    match c {
        CommandView::Batch { commands } => {
            lemma_inverse_undoes_apply_all(m, commands, commands.len() as int);
        },
        CommandView::AddSeries { series, index } => {
            assert(m.series.insert(index as int, series).remove(index as int) =~= m.series);
        },
        CommandView::RemoveSeries { series, index } => {
            assert(m.series.remove(index as int).insert(index as int, series) =~= m.series);
        },
        _ => {
            lemma_set_field_twice(m, c);
        },
    }
}

pub proof fn lemma_inverse_undoes_apply_all(m: PlotModelView, cs: Seq<CommandView>, n: int)
    requires
        0 <= n <= cs.len(),
        consistent_all(m, cs, n),
        count_apply_all_ok(m.series.len() as int, cs, n),
    ensures
        count_inverse_all_ok(apply_all(m, cs, n).series.len() as int, cs, n),
        inverse_all(apply_all(m, cs, n), cs, n) == m,
    decreases cs, n,
{
    if n > 0 {
        let prev = apply_all(m, cs, n - 1);
        let c = cs[n - 1];
        lemma_inverse_undoes_apply_all(m, cs, n - 1);
        lemma_apply_all_count(m, cs, n - 1);
        lemma_inverse_undoes_apply(prev, c);
        lemma_inverse_count(apply(prev, c), c);
    }
}

/// Law: redoing a command after undoing it gives back the document it produced.
pub proof fn lemma_redo_after_undo(m: PlotModelView, c: CommandView)
    requires
        consistent(m, c),
        apply_ok(m, c),
    ensures
        apply(inverse(apply(m, c), c), c) == apply(m, c),
{
    lemma_inverse_undoes_apply(m, c);
}

/// Reversing a command that was applied within bounds stays within bounds and
/// restores the number of series.
pub proof fn lemma_count_apply_inverse(n: int, c: CommandView)
    requires
        count_apply_ok(n, c),
    ensures
        count_inverse_ok(count_apply(n, c), c),
        count_inverse(count_apply(n, c), c) == n,
    decreases c,
{
    match c {
        CommandView::Batch { commands } => {
            lemma_count_apply_inverse_all(n, commands, commands.len() as int);
        },
        _ => {},
    }
}

proof fn lemma_count_apply_inverse_all(n: int, cs: Seq<CommandView>, k: int)
    requires
        0 <= k <= cs.len(),
        count_apply_all_ok(n, cs, k),
    ensures
        count_inverse_all_ok(count_apply_all(n, cs, k), cs, k),
        count_inverse_all(count_apply_all(n, cs, k), cs, k) == n,
    decreases cs, k,
{
    if k > 0 {
        lemma_count_apply_inverse_all(n, cs, k - 1);
        lemma_count_apply_inverse(count_apply_all(n, cs, k - 1), cs[k - 1]);
    }
}

/// Applying a command that was reversed within bounds stays within bounds and
/// restores the number of series.
pub proof fn lemma_count_inverse_apply(n: int, c: CommandView)
    requires
        count_inverse_ok(n, c),
    ensures
        count_apply_ok(count_inverse(n, c), c),
        count_apply(count_inverse(n, c), c) == n,
    decreases c,
{
    match c {
        CommandView::Batch { commands } => {
            lemma_count_inverse_apply_all(n, commands, commands.len() as int);
        },
        _ => {},
    }
}

proof fn lemma_count_inverse_apply_all(n: int, cs: Seq<CommandView>, k: int)
    requires
        0 <= k <= cs.len(),
        count_inverse_all_ok(n, cs, k),
    ensures
        count_apply_all_ok(count_inverse_all(n, cs, k), cs, k),
        count_apply_all(count_inverse_all(n, cs, k), cs, k) == n,
    decreases cs, k,
{
    if k > 0 {
        let n1 = count_inverse(n, cs[k - 1]);
        lemma_count_inverse_apply(n, cs[k - 1]);
        lemma_count_inverse_apply_all(n1, cs, k - 1);
    }
}

} // verus!
