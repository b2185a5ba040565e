//! Series identifiers. Dispatching actions keeps the identifiers of the series
//! distinct and below the next identifier to be handed out, in the document and in
//! every document that undo and redo lead to.
use vstd::prelude::*;
use crate::controller::command::{
    apply, apply_all, apply_ok, count_apply_all_ok, count_inverse_all_ok, inverse, inverse_all,
    inverse_ok, set_field, CommandView,
};
use crate::controller::action::Action;
use crate::controller::laws::{
    law_edit_is_recorded, law_refusal_keeps_state, lemma_redo_step, lemma_undo_step,
};
use crate::controller::transition::{
    add_series, bind_columns, controller_wf, lemma_bind_columns_count, is_axis_action, is_frame_action, is_series_action, new_series,
    record, step, PlotControllerView,
};
use crate::controller::command::{consistent, lemma_inverse_undoes_apply};
use crate::model::data::column_names_of;
use crate::model::plot::{is_first_with_id, position_of, PlotModelView, SeriesModelView};
use crate::model::types::SeriesId;

verus! {

/// The identifiers of a list of series, in order.
pub open spec fn ids_of(s: Seq<SeriesModelView>) -> Seq<SeriesId> {
    Seq::new(s.len(), |i: int| s[i].id)
}

/// No identifier occurs twice, and each is below `next`.
pub open spec fn fresh_ids(ids: Seq<SeriesId>, next: u64) -> bool {
    &&& forall|i: int, j: int| 0 <= i < j < ids.len() ==> ids[i] != ids[j]
    &&& forall|i: int| 0 <= i < ids.len() ==> (#[trigger] ids[i]).0 < next
}

/// What applying `c` does to the identifiers of the series.
pub open spec fn apply_ids(ids: Seq<SeriesId>, c: CommandView) -> Seq<SeriesId>
    decreases c,
{
    match c {
        CommandView::AddSeries { series, index } => ids.insert(index as int, series.id),
        CommandView::RemoveSeries { index, .. } => ids.remove(index as int),
        CommandView::Batch { commands } => apply_ids_all(ids, commands, commands.len() as int),
        _ => ids,
    }
}

/// Applies the first `n` commands of `cs` to the identifiers, in order.
pub open spec fn apply_ids_all(ids: Seq<SeriesId>, cs: Seq<CommandView>, n: int) -> Seq<SeriesId>
    decreases cs, n,
{
    if n <= 0 || n > cs.len() {
        ids
    } else {
        apply_ids(apply_ids_all(ids, cs, n - 1), cs[n - 1])
    }
}

/// What reversing `c` does to the identifiers of the series.
pub open spec fn inverse_ids(ids: Seq<SeriesId>, c: CommandView) -> Seq<SeriesId>
    decreases c,
{
    match c {
        CommandView::AddSeries { index, .. } => ids.remove(index as int),
        CommandView::RemoveSeries { series, index } => ids.insert(index as int, series.id),
        CommandView::Batch { commands } => inverse_ids_all(ids, commands, commands.len() as int),
        _ => ids,
    }
}

/// Reverses the first `n` commands of `cs` on the identifiers, the last one first.
pub open spec fn inverse_ids_all(ids: Seq<SeriesId>, cs: Seq<CommandView>, n: int) -> Seq<SeriesId>
    decreases cs, n,
{
    if n <= 0 || n > cs.len() {
        ids
    } else {
        inverse_ids_all(inverse_ids(ids, cs[n - 1]), cs, n - 1)
    }
}

proof fn lemma_insert_ids(s: Seq<SeriesModelView>, i: int, x: SeriesModelView)
    requires
        0 <= i <= s.len(),
    ensures
        ids_of(s.insert(i, x)) == ids_of(s).insert(i, x.id),
{
    assert(ids_of(s.insert(i, x)) =~= ids_of(s).insert(i, x.id));
}

proof fn lemma_remove_ids(s: Seq<SeriesModelView>, i: int)
    requires
        0 <= i < s.len(),
    ensures
        ids_of(s.remove(i)) == ids_of(s).remove(i),
{
    assert(ids_of(s.remove(i)) =~= ids_of(s).remove(i));
}

proof fn lemma_update_ids(s: Seq<SeriesModelView>, i: int, x: SeriesModelView)
    requires
        0 <= i < s.len(),
        x.id == s[i].id,
    ensures
        ids_of(s.update(i, x)) == ids_of(s),
{
    assert(ids_of(s.update(i, x)) =~= ids_of(s));
}

/// Setting a field of an axis or of a series leaves the identifiers alone.
proof fn lemma_set_field_ids(m: PlotModelView, c: CommandView, forward: bool)
    ensures
        ids_of(set_field(m, c, forward).series) == ids_of(m.series),
{
    match c {
        CommandView::RenameSeries { series_id, .. } | CommandView::SetSeriesVisibility {
            series_id,
            ..
        } | CommandView::SetSeriesXColumn { series_id, .. } | CommandView::SetSeriesYColumn {
            series_id,
            ..
        } | CommandView::SetSeriesLineWidth { series_id, .. } | CommandView::SetSeriesLineStyle {
            series_id,
            ..
        } | CommandView::SetSeriesColor { series_id, .. } | CommandView::SetSeriesMarker {
            series_id,
            ..
        } => {
            if exists|k: int| is_first_with_id(m.series, series_id, k) {
            }
            if let Some(i) = position_of(m.series, series_id) {
                lemma_update_ids(m.series, i, set_field(m, c, forward).series[i]);
                assert(set_field(m, c, forward).series == m.series.update(
                    i,
                    set_field(m, c, forward).series[i],
                ));
            }
        },
        _ => {},
    }
}

/// Applying `c` within bounds does to the identifiers what `apply_ids` says.
pub proof fn lemma_apply_ids(m: PlotModelView, c: CommandView)
    requires
        apply_ok(m, c),
    ensures
        ids_of(apply(m, c).series) == apply_ids(ids_of(m.series), c),
    decreases c,
{
    match c {
        CommandView::AddSeries { series, index } => {
            lemma_insert_ids(m.series, index as int, series);
        },
        CommandView::RemoveSeries { index, .. } => {
            lemma_remove_ids(m.series, index as int);
        },
        CommandView::Batch { commands } => {
            lemma_apply_ids_all(m, commands, commands.len() as int);
        },
        _ => {
            lemma_set_field_ids(m, c, true);
        },
    }
}

proof fn lemma_apply_ids_all(m: PlotModelView, cs: Seq<CommandView>, n: int)
    requires
        0 <= n <= cs.len(),
        count_apply_all_ok(m.series.len() as int, cs, n),
    ensures
        ids_of(apply_all(m, cs, n).series) == apply_ids_all(ids_of(m.series), cs, n),
    decreases cs, n,
{
    if n > 0 {
        lemma_apply_ids_all(m, cs, n - 1);
        crate::controller::command::lemma_apply_all_count(m, cs, n - 1);
        lemma_apply_ids(apply_all(m, cs, n - 1), cs[n - 1]);
    }
}

/// Reversing `c` within bounds does to the identifiers what `inverse_ids` says.
pub proof fn lemma_inverse_ids(m: PlotModelView, c: CommandView)
    requires
        inverse_ok(m, c),
    ensures
        ids_of(inverse(m, c).series) == inverse_ids(ids_of(m.series), c),
    decreases c,
{
    match c {
        CommandView::AddSeries { index, .. } => {
            lemma_remove_ids(m.series, index as int);
        },
        CommandView::RemoveSeries { series, index } => {
            lemma_insert_ids(m.series, index as int, series);
        },
        CommandView::Batch { commands } => {
            lemma_inverse_ids_all(m, commands, commands.len() as int);
        },
        _ => {
            lemma_set_field_ids(m, c, false);
        },
    }
}

proof fn lemma_inverse_ids_all(m: PlotModelView, cs: Seq<CommandView>, n: int)
    requires
        0 <= n <= cs.len(),
        count_inverse_all_ok(m.series.len() as int, cs, n),
    ensures
        ids_of(inverse_all(m, cs, n).series) == inverse_ids_all(ids_of(m.series), cs, n),
    decreases cs, n,
{
    if n > 0 {
        lemma_inverse_ids(m, cs[n - 1]);
        crate::controller::command::lemma_inverse_count(m, cs[n - 1]);
        lemma_inverse_ids_all(inverse(m, cs[n - 1]), cs, n - 1);
    }
}

} // verus!

verus! {

/// Going down the undo stack from the identifiers `ids`: every set of identifiers
/// met is fresh below `next`, and redoing each command gives back the identifiers
/// it was undone from.
pub open spec fn undo_ids_ok(ids: Seq<SeriesId>, undo: Seq<CommandView>, next: u64) -> bool
    decreases undo.len(),
{
    &&& fresh_ids(ids, next)
    &&& (undo.len() > 0 ==> {
        &&& apply_ids(inverse_ids(ids, undo.last()), undo.last()) == ids
        &&& undo_ids_ok(inverse_ids(ids, undo.last()), undo.drop_last(), next)
    })
}

/// Going down the redo stack from the identifiers `ids`: every set of identifiers
/// met is fresh below `next`, and undoing each command gives back the identifiers
/// it was redone from.
pub open spec fn redo_ids_ok(ids: Seq<SeriesId>, redo: Seq<CommandView>, next: u64) -> bool
    decreases redo.len(),
{
    &&& fresh_ids(ids, next)
    &&& (redo.len() > 0 ==> {
        &&& inverse_ids(apply_ids(ids, redo.last()), redo.last()) == ids
        &&& redo_ids_ok(apply_ids(ids, redo.last()), redo.drop_last(), next)
    })
}

/// The identifiers of the document, and of every document that undo or redo lead
/// to, are distinct and below the next identifier to be handed out.
pub open spec fn ids_wf(s: PlotControllerView) -> bool {
    &&& undo_ids_ok(ids_of(s.model.series), s.undo, s.next_series_id)
    &&& redo_ids_ok(ids_of(s.model.series), s.redo, s.next_series_id)
}

proof fn lemma_fresh_mono(ids: Seq<SeriesId>, n: u64, n2: u64)
    requires
        fresh_ids(ids, n),
        n <= n2,
    ensures
        fresh_ids(ids, n2),
{
}

proof fn lemma_undo_ids_mono(ids: Seq<SeriesId>, undo: Seq<CommandView>, n: u64, n2: u64)
    requires
        undo_ids_ok(ids, undo, n),
        n <= n2,
    ensures
        undo_ids_ok(ids, undo, n2),
    decreases undo.len(),
{
    if undo.len() > 0 {
        lemma_undo_ids_mono(inverse_ids(ids, undo.last()), undo.drop_last(), n, n2);
    }
}

proof fn lemma_fresh_insert(ids: Seq<SeriesId>, i: int, n: u64)
    requires
        fresh_ids(ids, n),
        0 <= i <= ids.len(),
        n < u64::MAX,
    ensures
        fresh_ids(ids.insert(i, SeriesId(n)), (n + 1) as u64),
{
    let t = ids.insert(i, SeriesId(n));
    assert forall|p: int, q: int| 0 <= p < q < t.len() implies t[p] != t[q] by {
        if p < i {
            if q < i {
                assert(t[p] == ids[p] && t[q] == ids[q]);
            } else if q > i {
                assert(t[p] == ids[p] && t[q] == ids[q - 1]);
            } else {
                assert(t[p] == ids[p]);
            }
        } else if p == i {
            assert(t[q] == ids[q - 1]);
        } else {
            assert(t[p] == ids[p - 1] && t[q] == ids[q - 1]);
        }
    }
    assert forall|p: int| 0 <= p < t.len() implies (#[trigger] t[p]).0 < n + 1 by {
        if p < i {
            assert(t[p] == ids[p]);
        } else if p > i {
            assert(t[p] == ids[p - 1]);
        }
    }
}

proof fn lemma_fresh_remove(ids: Seq<SeriesId>, i: int, n: u64)
    requires
        fresh_ids(ids, n),
        0 <= i < ids.len(),
    ensures
        fresh_ids(ids.remove(i), n),
{
    let t = ids.remove(i);
    assert forall|p: int, q: int| 0 <= p < q < t.len() implies t[p] != t[q] by {
        if q < i {
            assert(t[p] == ids[p] && t[q] == ids[q]);
        } else if p < i {
            assert(t[p] == ids[p] && t[q] == ids[q + 1]);
        } else {
            assert(t[p] == ids[p + 1] && t[q] == ids[q + 1]);
        }
    }
    assert forall|p: int| 0 <= p < t.len() implies (#[trigger] t[p]).0 < n by {
        if p < i {
            assert(t[p] == ids[p]);
        } else {
            assert(t[p] == ids[p + 1]);
        }
    }
}

} // verus!

verus! {

/// An accepted edit records a command that is no batch. A new series gets the
/// next identifier, which then moves on by one; any other edit keeps it.
#[verifier::rlimit(60)]
proof fn lemma_edit_shape(s: PlotControllerView, a: Action)
    requires
        is_axis_action(a) || is_frame_action(a) || is_series_action(a),
        s.model.series.len() <= usize::MAX,
        step(s, a).1 is Ok,
    ensures
        step(s, a).0.undo.last() !is Batch,
        step(s, a).0.undo.last() is AddSeries ==> {
            &&& a is AddSeries
            &&& step(s, a).0.undo.last()->AddSeries_series.id == SeriesId(s.next_series_id)
            &&& step(s, a).0.undo.last()->AddSeries_index == s.model.series.len()
            &&& step(s, a).0.next_series_id == (s.next_series_id + 1) as u64
        },
        step(s, a).0.undo.last() !is AddSeries ==> step(s, a).0.next_series_id
            == s.next_series_id,
{
    if is_axis_action(a) {
    } else if is_frame_action(a) {
    } else {
        match a {
            Action::AddSeries { name, x_column, y_column } => {
                let r = crate::controller::transition::series_step(s, a);
                assert(r == add_series(s, name@, x_column@, y_column@));
                let t = s.table->Some_0;
                let names = column_names_of(t);
                let x = if x_column@.len() == 0 { names[0] } else { x_column@ };
                let y = if y_column@.len() == 0 { names[1] } else { y_column@ };
                let c = CommandView::AddSeries {
                    series: new_series(s.next_series_id, name@, x, y),
                    index: s.model.series.len() as usize,
                };
                let s2 = PlotControllerView { next_series_id: (s.next_series_id + 1) as u64, ..s };
                assert(r == record(s2, c));
            },
            _ => {},
        }
    }
}

/// Recording `c` on a document whose undo stack keeps fresh identifiers keeps them
/// fresh, when a new series takes the next identifier `n0` and `n1` follows it.
#[verifier::spinoff_prover]
proof fn lemma_record_keeps_ids(
    m: PlotModelView,
    undo: Seq<CommandView>,
    c: CommandView,
    n0: u64,
    n1: u64,
)
    requires
        undo_ids_ok(ids_of(m.series), undo, n0),
        consistent(m, c),
        apply_ok(m, c),
        c !is Batch,
        c is AddSeries ==> {
            &&& c->AddSeries_series.id == SeriesId(n0)
            &&& n0 < u64::MAX
            &&& n1 == n0 + 1
        },
        c !is AddSeries ==> n1 == n0,
    ensures
        undo_ids_ok(ids_of(apply(m, c).series), undo.push(c), n1),
        redo_ids_ok(ids_of(apply(m, c).series), Seq::empty(), n1),
{
    let ids0 = ids_of(m.series);
    lemma_apply_ids(m, c);
    lemma_inverse_undoes_apply(m, c);
    lemma_inverse_ids(apply(m, c), c);
    let ids1 = ids_of(apply(m, c).series);
    assert(ids1 == apply_ids(ids0, c));
    assert(inverse_ids(ids1, c) == ids0);
    lemma_undo_ids_mono(ids0, undo, n0, n1);
    match c {
        CommandView::AddSeries { index, .. } => {
            lemma_fresh_insert(ids0, index as int, n0);
        },
        CommandView::RemoveSeries { index, .. } => {
            lemma_fresh_remove(ids0, index as int, n0);
        },
        _ => {},
    }
    assert(undo.push(c).drop_last() =~= undo);
    assert(undo.push(c).last() == c);
}

#[verifier::spinoff_prover]
proof fn lemma_edit_keeps_ids(s: PlotControllerView, a: Action)
    requires
        ids_wf(s),
        s.model.series.len() <= usize::MAX,
        is_axis_action(a) || is_frame_action(a) || is_series_action(a),
        a is AddSeries ==> s.next_series_id < u64::MAX,
        step(s, a).1 is Ok,
    ensures
        ids_wf(step(s, a).0),
{
    let s1 = step(s, a).0;
    law_edit_is_recorded(s, a);
    lemma_edit_shape(s, a);
    let c = s1.undo.last();
    lemma_record_keeps_ids(s.model, s.undo, c, s.next_series_id, s1.next_series_id);
    assert(s1.redo =~= Seq::<CommandView>::empty());
}

#[verifier::spinoff_prover]
proof fn lemma_undo_keeps_ids(s: PlotControllerView)
    requires
        controller_wf(s),
        ids_wf(s),
        s.undo.len() > 0,
    ensures
        ids_wf(step(s, Action::Undo).0),
{
    let s1 = step(s, Action::Undo).0;
    lemma_undo_step(s);
    let c = s.undo.last();
    let n = s.next_series_id;
    let ids0 = ids_of(s.model.series);
    assert(inverse_ok(s.model, c));
    lemma_inverse_ids(s.model, c);
    let ids1 = inverse_ids(ids0, c);
    assert(ids_of(s1.model.series) == ids1);
    assert(s1.next_series_id == n);
    assert(apply_ids(ids1, c) == ids0);
    assert(undo_ids_ok(ids1, s.undo.drop_last(), n));
    assert(fresh_ids(ids1, n));
    assert(s1.undo == s.undo.drop_last());
    assert(s1.redo.last() == c);
    assert(s1.redo.drop_last() =~= s.redo);
    assert(redo_ids_ok(ids0, s.redo, n));
    assert(redo_ids_ok(ids1, s1.redo, n));
}

#[verifier::spinoff_prover]
proof fn lemma_redo_keeps_ids(s: PlotControllerView)
    requires
        controller_wf(s),
        ids_wf(s),
        s.redo.len() > 0,
    ensures
        ids_wf(step(s, Action::Redo).0),
{
    let s1 = step(s, Action::Redo).0;
    lemma_redo_step(s);
    let c = s.redo.last();
    lemma_apply_ids(s.model, c);
    let ids1 = apply_ids(ids_of(s.model.series), c);
    assert(redo_ids_ok(ids1, s.redo.drop_last(), s.next_series_id));
    assert(fresh_ids(ids1, s.next_series_id));
    assert(s1.undo.last() == c);
    assert(s1.undo.drop_last() =~= s.undo);
}

/// Binding columns leaves the identifiers alone, applied or reversed.
proof fn lemma_bind_columns_ids(
    ids: Seq<SeriesId>,
    first: SeriesModelView,
    x: Seq<char>,
    y: Seq<char>,
)
    ensures
        apply_ids(ids, bind_columns(first, x, y)) == ids,
        inverse_ids(ids, bind_columns(first, x, y)) == ids,
{
    let cs = bind_columns(first, x, y)->Batch_commands;
    assert(cs.len() == 2);
    assert(cs[0] is SetSeriesXColumn && cs[1] is SetSeriesYColumn);
    assert(apply_ids(ids, cs[0]) == ids);
    assert(apply_ids(ids, cs[1]) == ids);
    assert(apply_ids_all(ids, cs, 0) == ids);
    assert(apply_ids_all(ids, cs, 1) == ids);
    assert(apply_ids_all(ids, cs, 2) == ids);
    assert(inverse_ids(ids, cs[0]) == ids);
    assert(inverse_ids(ids, cs[1]) == ids);
    assert(inverse_ids_all(ids, cs, 0) == ids);
    assert(inverse_ids_all(ids, cs, 1) == ids);
    assert(inverse_ids_all(ids, cs, 2) == ids);
}

#[verifier::rlimit(60)]
proof fn lemma_other_keeps_ids(s: PlotControllerView, a: Action)
    requires
        controller_wf(s),
        ids_wf(s),
        !is_axis_action(a),
        !is_frame_action(a),
        !is_series_action(a),
        a is Undo ==> s.undo.len() == 0,
        a is Redo ==> s.redo.len() == 0,
    ensures
        ids_wf(step(s, a).0),
{
    let s1 = step(s, a).0;
    match a {
        Action::ImportFromCsv { table, .. } | Action::ImportFromTxt { table, .. } => {
            if let Ok(t) = table {
                let names = column_names_of(t@);
                if names.len() >= 2 {
                    let c = bind_columns(s.model.series[0], names[0], names[1]);
                    lemma_bind_columns_count(
                        s.model.series[0],
                        names[0],
                        names[1],
                        s.model.series.len() as int,
                    );
                    lemma_bind_columns_ids(ids_of(s.model.series), s.model.series[0], names[0], names[1]);
                    lemma_apply_ids(s.model, c);
                    assert(s1.undo.drop_last() =~= s.undo);
                    assert(s1.redo =~= Seq::<CommandView>::empty());
                }
            }
        },
        _ => {},
    }
}

/// Law: dispatching an action keeps the identifiers of the series distinct and
/// below the next identifier to be handed out, in the document and in every
/// document that undo and redo lead to.
pub proof fn law_series_ids_stay_fresh(s: PlotControllerView, a: Action)
    requires
        controller_wf(s),
        ids_wf(s),
        s.model.series.len() <= usize::MAX,
        a is AddSeries ==> s.next_series_id < u64::MAX,
    ensures
        ids_wf(step(s, a).0),
{
    if step(s, a).1 is Err {
        law_refusal_keeps_state(s, a);
    } else if is_axis_action(a) || is_frame_action(a) || is_series_action(a) {
        lemma_edit_keeps_ids(s, a);
    } else if a is Undo && s.undo.len() > 0 {
        lemma_undo_keeps_ids(s);
    } else if a is Redo && s.redo.len() > 0 {
        lemma_redo_keeps_ids(s);
    } else {
        lemma_other_keeps_ids(s, a);
    }
}

/// Law: a new editor starts with fresh series identifiers.
pub proof fn law_initial_ids_fresh()
    ensures
        ids_wf(crate::controller::initial_state()),
{
}

} // verus!
