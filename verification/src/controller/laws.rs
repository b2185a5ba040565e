//! Laws of the controller, stated over `transition::step`: what undo and redo give
//! back, and what a refused action leaves alone.
use vstd::prelude::*;
use crate::controller::action::Action;
use crate::controller::command::{
    apply, apply_ok, consistent, inverse, lemma_inverse_undoes_apply, CommandView,
};
use crate::controller::transition::{
    add_series, new_series, record, table_has,
    axis_step, frame_step, handle, is_axis_action, is_frame_action, is_series_action, other_step,
    series_step, step, PlotControllerView, Step,
};
use crate::model::data::column_names_of;
use crate::model::plot::{position_of, PlotModelView};

verus! {

/// `after` records one command on top of `before`: the command is the new top of the
/// undo stack, it was applied to the document within bounds, its recorded old
/// values are those of the document it was applied to, and the redo stack is empty.
pub open spec fn records_one(before: PlotControllerView, after: PlotControllerView) -> bool {
    &&& after.undo.len() == before.undo.len() + 1
    &&& after.undo == before.undo.push(after.undo.last())
    &&& after.model == apply(before.model, after.undo.last())
    &&& consistent(before.model, after.undo.last())
    &&& apply_ok(before.model, after.undo.last())
    &&& after.redo.len() == 0
}

/// Nothing but the notification differs between `before` and `after`.
pub open spec fn only_notification_changed(before: PlotControllerView, after: PlotControllerView) -> bool {
    &&& after.model == before.model
    &&& after.undo == before.undo
    &&& after.redo == before.redo
    &&& after.table == before.table
    &&& after.next_series_id == before.next_series_id
}

proof fn lemma_same_series(m: PlotModelView, i: int)
    requires
        0 <= i < m.series.len(),
    ensures
        m.series.update(i, m.series[i]) == m.series,
{
    assert(m.series.update(i, m.series[i]) =~= m.series);
}

pub(crate) proof fn lemma_series_position(m: PlotModelView, id: crate::model::types::SeriesId)
    ensures
        position_of(m.series, id) matches Some(i) ==> 0 <= i < m.series.len() && m.series[i].id
            == id,
{
    if exists|i: int| crate::model::plot::is_first_with_id(m.series, id, i) {
    }
}

#[verifier::rlimit(60)]
proof fn lemma_axis_step(s: PlotControllerView, a: Action)
    requires
        is_axis_action(a),
    ensures
        axis_step(s, a).1 is Ok ==> records_one(s, axis_step(s, a).0),
        axis_step(s, a).1 is Err ==> only_notification_changed(s, axis_step(s, a).0),
{
}

#[verifier::rlimit(60)]
proof fn lemma_frame_step(s: PlotControllerView, a: Action)
    requires
        is_frame_action(a),
    ensures
        frame_step(s, a).1 is Ok ==> records_one(s, frame_step(s, a).0),
        frame_step(s, a).1 is Err ==> only_notification_changed(s, frame_step(s, a).0),
{
}

#[verifier::rlimit(60)]
proof fn lemma_series_step(s: PlotControllerView, a: Action)
    requires
        is_series_action(a),
        s.model.series.len() <= usize::MAX,
    ensures
        series_step(s, a).1 is Ok ==> records_one(
            PlotControllerView { next_series_id: series_step(s, a).0.next_series_id, ..s },
            series_step(s, a).0,
        ),
        series_step(s, a).1 is Err ==> only_notification_changed(s, series_step(s, a).0),
{
    match a {
        Action::AddSeries { name, x_column, y_column } => {
            let r = series_step(s, a);
            assert(r == add_series(s, name@, x_column@, y_column@));
            if r.1 is Ok {
                let t = s.table->Some_0;
                let names = column_names_of(t);
                let x = if x_column@.len() == 0 { names[0] } else { x_column@ };
                let y = if y_column@.len() == 0 { names[1] } else { y_column@ };
                let c = CommandView::AddSeries {
                    series: new_series(s.next_series_id, name@, x, y),
                    index: s.model.series.len() as usize,
                };
                let s2 = PlotControllerView { next_series_id: (s.next_series_id + 1) as u64, ..s };
                assert(r == record(s2, c));
                let after = r.0;
                let before = PlotControllerView { next_series_id: after.next_series_id, ..s };
                assert(after.undo.last() == c);
                assert(after.undo == before.undo.push(after.undo.last()));
                assert(after.model == apply(before.model, after.undo.last()));
                assert(records_one(before, after));
            }
        },
        Action::RemoveSeries { series_id } => {
            lemma_series_position(s.model, series_id);
        },
        Action::RenameSeries { series_id, .. } | Action::SetSeriesVisibility { series_id, .. }
        | Action::SetSeriesXColumn { series_id, .. } | Action::SetSeriesYColumn {
            series_id,
            ..
        } | Action::SetSeriesColor { series_id, .. } | Action::SetSeriesLineWidth {
            series_id,
            ..
        } | Action::SetSeriesLineStyle { series_id, .. } | Action::SetSeriesMarker {
            series_id,
            ..
        } => {
            lemma_series_position(s.model, series_id);
            if let Some(i) = position_of(s.model.series, series_id) {
                lemma_same_series(s.model, i);
            }
        },
        _ => {},
    }
}

proof fn lemma_other_step_failure(s: PlotControllerView, a: Action)
    requires
        !is_axis_action(a),
        !is_frame_action(a),
        !is_series_action(a),
    ensures
        other_step(s, a).1 is Err ==> only_notification_changed(s, other_step(s, a).0),
{
}

/// Law: an action that is refused changes nothing but the status notification: the
/// document, both histories, the table and the next series identifier stay.
pub proof fn law_refusal_keeps_state(s: PlotControllerView, a: Action)
    requires
        s.model.series.len() <= usize::MAX,
    ensures
        step(s, a).1 is Err ==> only_notification_changed(s, step(s, a).0),
{
    if is_axis_action(a) {
        lemma_axis_step(s, a);
    } else if is_frame_action(a) {
        lemma_frame_step(s, a);
    } else if is_series_action(a) {
        lemma_series_step(s, a);
    } else {
        lemma_other_step_failure(s, a);
    }
}

/// Law: every accepted edit of the document is recorded: it pushes one command,
/// consistent with the document it edits, and clears the redo stack.
pub proof fn law_edit_is_recorded(s: PlotControllerView, a: Action)
    requires
        s.model.series.len() <= usize::MAX,
        is_axis_action(a) || is_frame_action(a) || is_series_action(a),
    ensures
        step(s, a).1 is Ok ==> records_one(
            PlotControllerView { next_series_id: step(s, a).0.next_series_id, ..s },
            step(s, a).0,
        ),
{
    if is_axis_action(a) {
        lemma_axis_step(s, a);
    } else if is_frame_action(a) {
        lemma_frame_step(s, a);
    } else {
        lemma_series_step(s, a);
    }
}

/// Law: undo right after an accepted edit gives back the document as it was before
/// the edit, the undo stack as it was, and leaves the edit alone on the redo stack.
pub proof fn law_undo_after_edit(s: PlotControllerView, a: Action)
    requires
        s.model.series.len() <= usize::MAX,
        is_axis_action(a) || is_frame_action(a) || is_series_action(a),
        step(s, a).1 is Ok,
    ensures
        ({
            let s1 = step(s, a).0;
            let (s2, r2) = step(s1, Action::Undo);
            &&& r2 is Ok
            &&& s2.model == s.model
            &&& s2.undo == s.undo
            &&& s2.redo == seq![s1.undo.last()]
        }),
{
    law_edit_is_recorded(s, a);
    let s1 = step(s, a).0;
    let c = s1.undo.last();
    lemma_undo_step(s1);
    lemma_inverse_undoes_apply(s.model, c);
    assert(s1.undo.drop_last() =~= s.undo);
    assert(s1.redo.push(c) =~= seq![c]);
}

pub(crate) proof fn lemma_undo_step(s: PlotControllerView)
    requires
        s.undo.len() > 0,
    ensures
        step(s, Action::Undo).1 is Ok,
        step(s, Action::Undo).0.next_series_id == s.next_series_id,
        step(s, Action::Undo).0.model == inverse(s.model, s.undo.last()),
        step(s, Action::Undo).0.undo == s.undo.drop_last(),
        step(s, Action::Undo).0.redo == s.redo.push(s.undo.last()),
{
}

pub(crate) proof fn lemma_redo_step(s: PlotControllerView)
    requires
        s.redo.len() > 0,
    ensures
        step(s, Action::Redo).1 is Ok,
        step(s, Action::Redo).0.next_series_id == s.next_series_id,
        step(s, Action::Redo).0.model == apply(s.model, s.redo.last()),
        step(s, Action::Redo).0.undo == s.undo.push(s.redo.last()),
        step(s, Action::Redo).0.redo == s.redo.drop_last(),
{
}

/// Law: redo right after that undo gives back the document the edit produced, with
/// the edit on top of the undo stack again and the redo stack empty.
pub proof fn law_redo_after_undo(s: PlotControllerView, a: Action)
    requires
        s.model.series.len() <= usize::MAX,
        is_axis_action(a) || is_frame_action(a) || is_series_action(a),
        step(s, a).1 is Ok,
    ensures
        ({
            let s1 = step(s, a).0;
            let s2 = step(s1, Action::Undo).0;
            let (s3, r3) = step(s2, Action::Redo);
            &&& r3 is Ok
            &&& s3.model == s1.model
            &&& s3.undo == s1.undo
            &&& s3.redo.len() == 0
        }),
{
    law_undo_after_edit(s, a);
    law_edit_is_recorded(s, a);
    let s1 = step(s, a).0;
    let s2 = step(s1, Action::Undo).0;
    let c = s1.undo.last();
    lemma_redo_step(s2);
    lemma_inverse_undoes_apply(s.model, c);
    assert(s2.redo.last() == c);
    assert(s2.redo.drop_last() =~= Seq::<CommandView>::empty());
    assert(s2.undo.push(c) =~= s1.undo);
}

} // verus!
