//! The limits that the controller enforces on a document: font sizes of at least
//! 8, manual ranges whose maximum is above their minimum, line widths above zero.
//! Dispatching actions keeps them in the document and in every command of the
//! history, so that undo and redo lead only to documents within them.
use vstd::prelude::*;
use crate::controller::command::{
    apply, apply_all, apply_ok, count_apply_all_ok, count_inverse_all_ok, inverse, inverse_all,
    inverse_ok, CommandView,
};
use crate::controller::action::Action;
use crate::controller::laws::{
    law_edit_is_recorded, law_refusal_keeps_state, lemma_redo_step, lemma_series_position,
    lemma_undo_step,
};
use crate::controller::transition::{
    add_series, bind_columns, controller_wf, lemma_bind_columns_count, is_axis_action, is_frame_action, is_series_action, new_series,
    record, series_step, step, PlotControllerView,
};
use crate::model::data::column_names_of;
use crate::model::number::{less32, less64, Real32View};
use crate::model::plot::{position_of, PlotModelView, SeriesModelView};
use crate::model::types::{AxisConfigView, LayoutConfigView, LegendConfigView, RangePolicyView};

verus! {

/// A font size the controller accepts.
pub open spec fn size_ok(n: u32) -> bool {
    n >= 8
}

/// A manual range needs its minimum below its maximum (neither is NaN).
pub open spec fn range_ok(r: RangePolicyView) -> bool {
    match r {
        RangePolicyView::Manual { min, max } => less64(min.bits, max.bits),
        RangePolicyView::Auto => true,
    }
}

/// A line width the controller accepts: above zero (not NaN).
pub open spec fn width_ok(w: Real32View) -> bool {
    less32(0, w.bits)
}

pub open spec fn axis_ok(a: AxisConfigView) -> bool {
    &&& size_ok(a.label_font_size)
    &&& size_ok(a.axis_title_font_size)
    &&& range_ok(a.range)
}

pub open spec fn series_ok(x: SeriesModelView) -> bool {
    width_ok(x.style.line_width)
}

pub open spec fn legend_ok(l: LegendConfigView) -> bool {
    size_ok(l.font_size)
}

pub open spec fn layout_ok(l: LayoutConfigView) -> bool {
    size_ok(l.title_font_size)
}

/// The document keeps every limit.
pub open spec fn document_ok(m: PlotModelView) -> bool {
    &&& axis_ok(m.axes.x)
    &&& axis_ok(m.axes.y)
    &&& legend_ok(m.legend)
    &&& layout_ok(m.layout)
    &&& forall|i: int| 0 <= i < m.series.len() ==> #[trigger] series_ok(m.series[i])
}

/// Both values that a command records keep the limits.
pub open spec fn command_ok(c: CommandView) -> bool
    decreases c,
{
    match c {
        CommandView::SetAxisLabelFontSize { old, new, .. } => size_ok(old) && size_ok(new),
        CommandView::SetAxisTitleFontSize { old, new, .. } => size_ok(old) && size_ok(new),
        CommandView::SetAxisRange { old, new, .. } => range_ok(old) && range_ok(new),
        CommandView::ReplaceAxisConfig { old, new, .. } => axis_ok(old) && axis_ok(new),
        CommandView::SetSeriesLineWidth { old, new, .. } => width_ok(old) && width_ok(new),
        CommandView::AddSeries { series, .. } => series_ok(series),
        CommandView::RemoveSeries { series, .. } => series_ok(series),
        CommandView::ReplaceLegend { old, new } => legend_ok(old) && legend_ok(new),
        CommandView::ReplaceLayout { old, new } => layout_ok(old) && layout_ok(new),
        CommandView::Batch { commands } => commands_ok(commands, commands.len() as int),
        _ => true,
    }
}

/// The first `n` commands of `cs` keep the limits.
pub open spec fn commands_ok(cs: Seq<CommandView>, n: int) -> bool
    decreases cs, n,
{
    if n <= 0 || n > cs.len() {
        true
    } else {
        commands_ok(cs, n - 1) && command_ok(cs[n - 1])
    }
}

/// Every command of a history keeps the limits.
pub open spec fn history_ok(h: Seq<CommandView>) -> bool {
    forall|k: int| 0 <= k < h.len() ==> #[trigger] command_ok(h[k])
}

proof fn lemma_update_ok(m: PlotModelView, i: int, x: SeriesModelView)
    requires
        document_ok(m),
        0 <= i < m.series.len(),
        series_ok(x),
    ensures
        document_ok(PlotModelView { series: m.series.update(i, x), ..m }),
{
    let t = m.series.update(i, x);
    assert forall|j: int| 0 <= j < t.len() implies #[trigger] series_ok(t[j]) by {
        if j != i {
            assert(t[j] == m.series[j]);
        }
    }
}

proof fn lemma_insert_ok(m: PlotModelView, i: int, x: SeriesModelView)
    requires
        document_ok(m),
        0 <= i <= m.series.len(),
        series_ok(x),
    ensures
        document_ok(PlotModelView { series: m.series.insert(i, x), ..m }),
{
    let t = m.series.insert(i, x);
    assert forall|j: int| 0 <= j < t.len() implies #[trigger] series_ok(t[j]) by {
        if j < i {
            assert(t[j] == m.series[j]);
        } else if j > i {
            assert(t[j] == m.series[j - 1]);
        }
    }
}

proof fn lemma_remove_ok(m: PlotModelView, i: int)
    requires
        document_ok(m),
        0 <= i < m.series.len(),
    ensures
        document_ok(PlotModelView { series: m.series.remove(i), ..m }),
{
    let t = m.series.remove(i);
    assert forall|j: int| 0 <= j < t.len() implies #[trigger] series_ok(t[j]) by {
        if j < i {
            assert(t[j] == m.series[j]);
        } else {
            assert(t[j] == m.series[j + 1]);
        }
    }
}

/// Setting a field to a value that keeps the limits keeps a document within them.
#[verifier::rlimit(40)]
proof fn lemma_set_field_ok(m: PlotModelView, c: CommandView, forward: bool)
    requires
        document_ok(m),
        command_ok(c),
    ensures
        document_ok(crate::controller::command::set_field(m, c, forward)),
{
    let r = crate::controller::command::set_field(m, c, forward);
    match c {
        CommandView::RenameSeries { series_id, .. } | CommandView::SetSeriesVisibility {
            series_id,
            ..
        } | CommandView::SetSeriesXColumn { series_id, .. } | CommandView::SetSeriesYColumn {
            series_id,
            ..
        } | CommandView::SetSeriesLineWidth { series_id, .. } | CommandView::SetSeriesLineStyle {
            series_id,
            ..
        } | CommandView::SetSeriesColor { series_id, .. } | CommandView::SetSeriesMarker {
            series_id,
            ..
        } => {
            lemma_series_position(m, series_id);
            if let Some(i) = position_of(m.series, series_id) {
                let x = r.series[i];
                assert(r == PlotModelView { series: m.series.update(i, x), ..m });
                if c is SetSeriesLineWidth {
                    assert(x.style.line_width == if forward {
                        c->SetSeriesLineWidth_new
                    } else {
                        c->SetSeriesLineWidth_old
                    });
                } else {
                    assert(x.style.line_width == m.series[i].style.line_width);
                    assert(series_ok(m.series[i]));
                }
                lemma_update_ok(m, i, x);
            }
        },
        _ => {},
    }
}

/// A command that keeps the limits, applied within bounds, keeps a document within
/// them.
pub proof fn lemma_apply_ok(m: PlotModelView, c: CommandView)
    requires
        document_ok(m),
        command_ok(c),
        apply_ok(m, c),
    ensures
        document_ok(apply(m, c)),
    decreases c,
{
    match c {
        CommandView::AddSeries { series, index } => lemma_insert_ok(m, index as int, series),
        CommandView::RemoveSeries { index, .. } => lemma_remove_ok(m, index as int),
        CommandView::Batch { commands } => lemma_apply_all_ok(m, commands, commands.len() as int),
        _ => lemma_set_field_ok(m, c, true),
    }
}

proof fn lemma_apply_all_ok(m: PlotModelView, cs: Seq<CommandView>, n: int)
    requires
        0 <= n <= cs.len(),
        document_ok(m),
        commands_ok(cs, n),
        count_apply_all_ok(m.series.len() as int, cs, n),
    ensures
        document_ok(apply_all(m, cs, n)),
    decreases cs, n,
{
    if n > 0 {
        lemma_apply_all_ok(m, cs, n - 1);
        crate::controller::command::lemma_apply_all_count(m, cs, n - 1);
        lemma_apply_ok(apply_all(m, cs, n - 1), cs[n - 1]);
    }
}

/// A command that keeps the limits, reversed within bounds, keeps a document within
/// them.
pub proof fn lemma_inverse_ok(m: PlotModelView, c: CommandView)
    requires
        document_ok(m),
        command_ok(c),
        inverse_ok(m, c),
    ensures
        document_ok(inverse(m, c)),
    decreases c,
{
    match c {
        CommandView::AddSeries { index, .. } => lemma_remove_ok(m, index as int),
        CommandView::RemoveSeries { series, index } => lemma_insert_ok(m, index as int, series),
        CommandView::Batch { commands } => lemma_inverse_all_ok(m, commands, commands.len() as int),
        _ => lemma_set_field_ok(m, c, false),
    }
}

proof fn lemma_inverse_all_ok(m: PlotModelView, cs: Seq<CommandView>, n: int)
    requires
        0 <= n <= cs.len(),
        document_ok(m),
        commands_ok(cs, n),
        count_inverse_all_ok(m.series.len() as int, cs, n),
    ensures
        document_ok(inverse_all(m, cs, n)),
    decreases cs, n,
{
    if n > 0 {
        lemma_inverse_ok(m, cs[n - 1]);
        crate::controller::command::lemma_inverse_count(m, cs[n - 1]);
        lemma_inverse_all_ok(inverse(m, cs[n - 1]), cs, n - 1);
    }
}

} // verus!

verus! {

/// The state keeps the limits: the document and every command of both histories.
pub open spec fn limits_ok(s: PlotControllerView) -> bool {
    &&& document_ok(s.model)
    &&& history_ok(s.undo)
    &&& history_ok(s.redo)
}

/// The command that an accepted edit records keeps the limits: its new value was
/// checked or clamped, its old value comes from a document within them.
#[verifier::rlimit(60)]
proof fn lemma_edit_command_ok(s: PlotControllerView, a: Action)
    requires
        document_ok(s.model),
        is_axis_action(a) || is_frame_action(a) || is_series_action(a),
        s.model.series.len() <= usize::MAX,
        step(s, a).1 is Ok,
    ensures
        command_ok(step(s, a).0.undo.last()),
{
    if is_axis_action(a) {
    } else if is_frame_action(a) {
    } else {
        match a {
            Action::AddSeries { name, x_column, y_column } => {
                let r = series_step(s, a);
                assert(r == add_series(s, name@, x_column@, y_column@));
                let t = s.table->Some_0;
                let names = column_names_of(t);
                let x = if x_column@.len() == 0 { names[0] } else { x_column@ };
                let y = if y_column@.len() == 0 { names[1] } else { y_column@ };
                let c = CommandView::AddSeries {
                    series: new_series(s.next_series_id, name@, x, y),
                    index: s.model.series.len() as usize,
                };
                let s2 = PlotControllerView { next_series_id: (s.next_series_id + 1) as u64, ..s };
                assert(r == record(s2, c));
            },
            Action::RemoveSeries { series_id } | Action::SetSeriesLineWidth { series_id, .. } => {
                lemma_series_position(s.model, series_id);
                if let Some(i) = position_of(s.model.series, series_id) {
                    assert(series_ok(s.model.series[i]));
                }
            },
            _ => {},
        }
    }
}

proof fn lemma_push_ok(h: Seq<CommandView>, c: CommandView)
    requires
        history_ok(h),
        command_ok(c),
    ensures
        history_ok(h.push(c)),
{
    assert forall|k: int| 0 <= k < h.push(c).len() implies #[trigger] command_ok(h.push(c)[k]) by {
        if k < h.len() {
            assert(h.push(c)[k] == h[k]);
        }
    }
}

proof fn lemma_drop_ok(h: Seq<CommandView>)
    requires
        history_ok(h),
        h.len() > 0,
    ensures
        history_ok(h.drop_last()),
        command_ok(h.last()),
{
    assert forall|k: int| 0 <= k < h.drop_last().len() implies #[trigger] command_ok(
        h.drop_last()[k],
    ) by {
        assert(h.drop_last()[k] == h[k]);
    }
    assert(command_ok(h[h.len() - 1]));
}

#[verifier::spinoff_prover]
proof fn lemma_edit_keeps_limits(s: PlotControllerView, a: Action)
    requires
        limits_ok(s),
        s.model.series.len() <= usize::MAX,
        is_axis_action(a) || is_frame_action(a) || is_series_action(a),
        step(s, a).1 is Ok,
    ensures
        limits_ok(step(s, a).0),
{
    let s1 = step(s, a).0;
    law_edit_is_recorded(s, a);
    lemma_edit_command_ok(s, a);
    let c = s1.undo.last();
    lemma_apply_ok(s.model, c);
    lemma_push_ok(s.undo, c);
    assert(s1.redo =~= Seq::<CommandView>::empty());
}

#[verifier::spinoff_prover]
proof fn lemma_undo_keeps_limits(s: PlotControllerView)
    requires
        controller_wf(s),
        limits_ok(s),
        s.undo.len() > 0,
    ensures
        limits_ok(step(s, Action::Undo).0),
{
    lemma_undo_step(s);
    lemma_drop_ok(s.undo);
    let c = s.undo.last();
    lemma_inverse_ok(s.model, c);
    lemma_push_ok(s.redo, c);
}

#[verifier::spinoff_prover]
proof fn lemma_redo_keeps_limits(s: PlotControllerView)
    requires
        controller_wf(s),
        limits_ok(s),
        s.redo.len() > 0,
    ensures
        limits_ok(step(s, Action::Redo).0),
{
    lemma_redo_step(s);
    lemma_drop_ok(s.redo);
    let c = s.redo.last();
    lemma_apply_ok(s.model, c);
    lemma_push_ok(s.undo, c);
}

#[verifier::rlimit(60)]
proof fn lemma_other_keeps_limits(s: PlotControllerView, a: Action)
    requires
        controller_wf(s),
        limits_ok(s),
        !is_axis_action(a),
        !is_frame_action(a),
        !is_series_action(a),
        a is Undo ==> s.undo.len() == 0,
        a is Redo ==> s.redo.len() == 0,
    ensures
        limits_ok(step(s, a).0),
{
    let s1 = step(s, a).0;
    match a {
        Action::ImportFromCsv { table, .. } | Action::ImportFromTxt { table, .. } => {
            if let Ok(t) = table {
                let names = column_names_of(t@);
                if names.len() >= 2 {
                    let c = bind_columns(s.model.series[0], names[0], names[1]);
                    lemma_bind_columns_count(
                        s.model.series[0],
                        names[0],
                        names[1],
                        s.model.series.len() as int,
                    );
                    assert(command_ok(c)) by {
                        let cs = c->Batch_commands;
                        assert(cs.len() == 2);
                        assert(cs[0] is SetSeriesXColumn && cs[1] is SetSeriesYColumn);
                        assert(command_ok(cs[0]) && command_ok(cs[1]));
                        assert(commands_ok(cs, 0));
                        assert(commands_ok(cs, 1));
                        assert(commands_ok(cs, 2));
                    }
                    lemma_apply_ok(s.model, c);
                    lemma_push_ok(s.undo, c);
                    assert(s1.redo =~= Seq::<CommandView>::empty());
                }
            }
        },
        _ => {},
    }
}

/// Law: dispatching an action keeps every limit that the controller enforces:
/// font sizes of at least 8, manual ranges with the maximum above the minimum and
/// line widths above zero, in the document and in every command of the histories.
pub proof fn law_limits_are_kept(s: PlotControllerView, a: Action)
    requires
        controller_wf(s),
        limits_ok(s),
        s.model.series.len() <= usize::MAX,
    ensures
        limits_ok(step(s, a).0),
{
    if step(s, a).1 is Err {
        law_refusal_keeps_state(s, a);
    } else if is_axis_action(a) || is_frame_action(a) || is_series_action(a) {
        lemma_edit_keeps_limits(s, a);
    } else if a is Undo && s.undo.len() > 0 {
        lemma_undo_keeps_limits(s);
    } else if a is Redo && s.redo.len() > 0 {
        lemma_redo_keeps_limits(s);
    } else {
        lemma_other_keeps_limits(s, a);
    }
}

/// Law: a new editor starts within the limits.
pub proof fn law_initial_limits()
    ensures
        limits_ok(crate::controller::initial_state()),
{
}

} // verus!
