//! Executing commands on the document, forward (apply) and backward (reverse),
//! as `command::apply` and `command::inverse` state.
use vstd::prelude::*;
use crate::controller::command::{
    apply, apply_all, apply_ok, count_apply, count_apply_all, count_apply_all_ok, count_apply_ok,
    count_inverse, count_inverse_all, count_inverse_all_ok, count_inverse_ok, inverse, inverse_all,
    inverse_ok, lemma_apply_all_count, lemma_apply_count, lemma_command_views, lemma_inverse_count,
    set_field, Command, CommandView,
};
use crate::model::plot::{axis_of, find_position, series_views, with_axis, PlotModel, PlotModelView};
use crate::model::types::{clone_opt_marker, clone_opt_real64, AxisConfig, AxisKind};

verus! {

/// The configuration of one axis.
pub fn axis_ref(model: &PlotModel, axis: AxisKind) -> (r: &AxisConfig)
    ensures
        r@ == axis_of(model@, axis),
{
    match axis {
        AxisKind::X => &model.axes.x,
        AxisKind::Y => &model.axes.y,
    }
}

/// Replaces the configuration of one axis.
pub fn set_axis(model: &mut PlotModel, axis: AxisKind, a: AxisConfig)
    ensures
        final(model)@ == with_axis(old(model)@, axis, a@),
{
    match axis {
        AxisKind::X => model.axes.x = a,
        AxisKind::Y => model.axes.y = a,
    }
}

fn write_set_chart_title(model: &mut PlotModel, c: &Command, forward: bool)
    requires
        c@ is SetChartTitle,
    ensures
        final(model)@ == set_field(old(model)@, c@, forward),
{
    let ghost m0 = model@;
    match c {
        Command::SetChartTitle { old: before, new: after } => {
            model.layout.title = if forward { after.clone() } else { before.clone() };
        },
        _ => {},
    }
}

fn write_set_axis_label(model: &mut PlotModel, c: &Command, forward: bool)
    requires
        c@ is SetAxisLabel,
    ensures
        final(model)@ == set_field(old(model)@, c@, forward),
{
    let ghost m0 = model@;
    match c {
        Command::SetAxisLabel { axis, old: before, new: after } => {
            let mut a = axis_ref(model, *axis).clone();
            a.label = if forward { after.clone() } else { before.clone() };
            set_axis(model, *axis, a);
        },
        _ => {},
    }
}

fn write_set_axis_label_font_size(model: &mut PlotModel, c: &Command, forward: bool)
    requires
        c@ is SetAxisLabelFontSize,
    ensures
        final(model)@ == set_field(old(model)@, c@, forward),
{
    let ghost m0 = model@;
    match c {
        Command::SetAxisLabelFontSize { axis, old: before, new: after } => {
            let mut a = axis_ref(model, *axis).clone();
            a.label_font_size = if forward { *after } else { *before };
            set_axis(model, *axis, a);
        },
        _ => {},
    }
}

fn write_set_axis_title_font_size(model: &mut PlotModel, c: &Command, forward: bool)
    requires
        c@ is SetAxisTitleFontSize,
    ensures
        final(model)@ == set_field(old(model)@, c@, forward),
{
    let ghost m0 = model@;
    match c {
        Command::SetAxisTitleFontSize { axis, old: before, new: after } => {
            let mut a = axis_ref(model, *axis).clone();
            a.axis_title_font_size = if forward { *after } else { *before };
            set_axis(model, *axis, a);
        },
        _ => {},
    }
}

fn write_set_axis_scale(model: &mut PlotModel, c: &Command, forward: bool)
    requires
        c@ is SetAxisScale,
    ensures
        final(model)@ == set_field(old(model)@, c@, forward),
{
    let ghost m0 = model@;
    match c {
        Command::SetAxisScale { axis, old: before, new: after } => {
            let mut a = axis_ref(model, *axis).clone();
            a.scale = if forward { *after } else { *before };
            set_axis(model, *axis, a);
        },
        _ => {},
    }
}

fn write_set_axis_range(model: &mut PlotModel, c: &Command, forward: bool)
    requires
        c@ is SetAxisRange,
    ensures
        final(model)@ == set_field(old(model)@, c@, forward),
{
    let ghost m0 = model@;
    match c {
        Command::SetAxisRange { axis, old: before, new: after } => {
            let mut a = axis_ref(model, *axis).clone();
            a.range = if forward { after.clone() } else { before.clone() };
            set_axis(model, *axis, a);
        },
        _ => {},
    }
}

fn write_set_axis_major_tick_step(model: &mut PlotModel, c: &Command, forward: bool)
    requires
        c@ is SetAxisMajorTickStep,
    ensures
        final(model)@ == set_field(old(model)@, c@, forward),
{
    let ghost m0 = model@;
    match c {
        Command::SetAxisMajorTickStep { axis, old: before, new: after } => {
            let mut a = axis_ref(model, *axis).clone();
            a.ticks.major_step = if forward { clone_opt_real64(after) } else { clone_opt_real64(before) };
            set_axis(model, *axis, a);
        },
        _ => {},
    }
}

fn write_set_axis_minor_ticks(model: &mut PlotModel, c: &Command, forward: bool)
    requires
        c@ is SetAxisMinorTicks,
    ensures
        final(model)@ == set_field(old(model)@, c@, forward),
{
    let ghost m0 = model@;
    match c {
        Command::SetAxisMinorTicks { axis, old: before, new: after } => {
            let mut a = axis_ref(model, *axis).clone();
            a.ticks.minor_per_major = if forward { *after } else { *before };
            set_axis(model, *axis, a);
        },
        _ => {},
    }
}

fn write_replace_axis_config(model: &mut PlotModel, c: &Command, forward: bool)
    requires
        c@ is ReplaceAxisConfig,
    ensures
        final(model)@ == set_field(old(model)@, c@, forward),
{
    let ghost m0 = model@;
    match c {
        Command::ReplaceAxisConfig { axis, old: before, new: after } => {
            let a = if forward { after.clone() } else { before.clone() };
            set_axis(model, *axis, a);
        },
        _ => {},
    }
}

fn write_rename_series(model: &mut PlotModel, c: &Command, forward: bool)
    requires
        c@ is RenameSeries,
    ensures
        final(model)@ == set_field(old(model)@, c@, forward),
{
    let ghost m0 = model@;
    match c {
        Command::RenameSeries { series_id, old: before, new: after } => {
            if let Some(i) = find_position(&model.series, *series_id) {
                let mut s = model.series[i].clone();
                s.name = if forward { after.clone() } else { before.clone() };
                model.series.set(i, s);
                assert(series_views(model.series@) =~= m0.series.update(i as int, s@));
            }
        },
        _ => {},
    }
}

fn write_set_series_visibility(model: &mut PlotModel, c: &Command, forward: bool)
    requires
        c@ is SetSeriesVisibility,
    ensures
        final(model)@ == set_field(old(model)@, c@, forward),
{
    let ghost m0 = model@;
    match c {
        Command::SetSeriesVisibility { series_id, old: before, new: after } => {
            if let Some(i) = find_position(&model.series, *series_id) {
                let mut s = model.series[i].clone();
                s.visible = if forward { *after } else { *before };
                model.series.set(i, s);
                assert(series_views(model.series@) =~= m0.series.update(i as int, s@));
            }
        },
        _ => {},
    }
}

fn write_set_series_x_column(model: &mut PlotModel, c: &Command, forward: bool)
    requires
        c@ is SetSeriesXColumn,
    ensures
        final(model)@ == set_field(old(model)@, c@, forward),
{
    let ghost m0 = model@;
    match c {
        Command::SetSeriesXColumn { series_id, old: before, new: after } => {
            if let Some(i) = find_position(&model.series, *series_id) {
                let mut s = model.series[i].clone();
                s.x_column = if forward { after.clone() } else { before.clone() };
                model.series.set(i, s);
                assert(series_views(model.series@) =~= m0.series.update(i as int, s@));
            }
        },
        _ => {},
    }
}

fn write_set_series_y_column(model: &mut PlotModel, c: &Command, forward: bool)
    requires
        c@ is SetSeriesYColumn,
    ensures
        final(model)@ == set_field(old(model)@, c@, forward),
{
    let ghost m0 = model@;
    match c {
        Command::SetSeriesYColumn { series_id, old: before, new: after } => {
            if let Some(i) = find_position(&model.series, *series_id) {
                let mut s = model.series[i].clone();
                s.y_column = if forward { after.clone() } else { before.clone() };
                model.series.set(i, s);
                assert(series_views(model.series@) =~= m0.series.update(i as int, s@));
            }
        },
        _ => {},
    }
}

fn write_set_series_line_width(model: &mut PlotModel, c: &Command, forward: bool)
    requires
        c@ is SetSeriesLineWidth,
    ensures
        final(model)@ == set_field(old(model)@, c@, forward),
{
    let ghost m0 = model@;
    match c {
        Command::SetSeriesLineWidth { series_id, old: before, new: after } => {
            if let Some(i) = find_position(&model.series, *series_id) {
                let mut s = model.series[i].clone();
                s.style.line_width = if forward { after.clone() } else { before.clone() };
                model.series.set(i, s);
                assert(series_views(model.series@) =~= m0.series.update(i as int, s@));
            }
        },
        _ => {},
    }
}

fn write_set_series_line_style(model: &mut PlotModel, c: &Command, forward: bool)
    requires
        c@ is SetSeriesLineStyle,
    ensures
        final(model)@ == set_field(old(model)@, c@, forward),
{
    let ghost m0 = model@;
    match c {
        Command::SetSeriesLineStyle { series_id, old: before, new: after } => {
            if let Some(i) = find_position(&model.series, *series_id) {
                let mut s = model.series[i].clone();
                s.style.line_style = if forward { *after } else { *before };
                model.series.set(i, s);
                assert(series_views(model.series@) =~= m0.series.update(i as int, s@));
            }
        },
        _ => {},
    }
}

fn write_set_series_color(model: &mut PlotModel, c: &Command, forward: bool)
    requires
        c@ is SetSeriesColor,
    ensures
        final(model)@ == set_field(old(model)@, c@, forward),
{
    let ghost m0 = model@;
    match c {
        Command::SetSeriesColor { series_id, old: before, new: after } => {
            if let Some(i) = find_position(&model.series, *series_id) {
                let mut s = model.series[i].clone();
                s.style.color = if forward { *after } else { *before };
                model.series.set(i, s);
                assert(series_views(model.series@) =~= m0.series.update(i as int, s@));
            }
        },
        _ => {},
    }
}

fn write_set_series_marker(model: &mut PlotModel, c: &Command, forward: bool)
    requires
        c@ is SetSeriesMarker,
    ensures
        final(model)@ == set_field(old(model)@, c@, forward),
{
    let ghost m0 = model@;
    match c {
        Command::SetSeriesMarker { series_id, old: before, new: after } => {
            if let Some(i) = find_position(&model.series, *series_id) {
                let mut s = model.series[i].clone();
                s.style.marker = if forward { clone_opt_marker(after) } else { clone_opt_marker(before) };
                model.series.set(i, s);
                assert(series_views(model.series@) =~= m0.series.update(i as int, s@));
            }
        },
        _ => {},
    }
}

fn write_replace_legend(model: &mut PlotModel, c: &Command, forward: bool)
    requires
        c@ is ReplaceLegend,
    ensures
        final(model)@ == set_field(old(model)@, c@, forward),
{
    let ghost m0 = model@;
    match c {
        Command::ReplaceLegend { old: before, new: after } => {
            model.legend = if forward { after.clone() } else { before.clone() };
        },
        _ => {},
    }
}

fn write_replace_layout(model: &mut PlotModel, c: &Command, forward: bool)
    requires
        c@ is ReplaceLayout,
    ensures
        final(model)@ == set_field(old(model)@, c@, forward),
{
    let ghost m0 = model@;
    match c {
        Command::ReplaceLayout { old: before, new: after } => {
            model.layout = if forward { after.clone() } else { before.clone() };
        },
        _ => {},
    }
}

/// Writes the new (`forward`) or old value of a command that sets one field.
fn write_field(model: &mut PlotModel, c: &Command, forward: bool)
    requires
        !(c@ is AddSeries || c@ is RemoveSeries || c@ is Batch),
    ensures
        final(model)@ == set_field(old(model)@, c@, forward),
{
    match c {
        Command::SetChartTitle { .. } => write_set_chart_title(model, c, forward),
        Command::SetAxisLabel { .. } => write_set_axis_label(model, c, forward),
        Command::SetAxisLabelFontSize { .. } => write_set_axis_label_font_size(model, c, forward),
        Command::SetAxisTitleFontSize { .. } => write_set_axis_title_font_size(model, c, forward),
        Command::SetAxisScale { .. } => write_set_axis_scale(model, c, forward),
        Command::SetAxisRange { .. } => write_set_axis_range(model, c, forward),
        Command::SetAxisMajorTickStep { .. } => write_set_axis_major_tick_step(model, c, forward),
        Command::SetAxisMinorTicks { .. } => write_set_axis_minor_ticks(model, c, forward),
        Command::ReplaceAxisConfig { .. } => write_replace_axis_config(model, c, forward),
        Command::RenameSeries { .. } => write_rename_series(model, c, forward),
        Command::SetSeriesVisibility { .. } => write_set_series_visibility(model, c, forward),
        Command::SetSeriesXColumn { .. } => write_set_series_x_column(model, c, forward),
        Command::SetSeriesYColumn { .. } => write_set_series_y_column(model, c, forward),
        Command::SetSeriesLineWidth { .. } => write_set_series_line_width(model, c, forward),
        Command::SetSeriesLineStyle { .. } => write_set_series_line_style(model, c, forward),
        Command::SetSeriesColor { .. } => write_set_series_color(model, c, forward),
        Command::SetSeriesMarker { .. } => write_set_series_marker(model, c, forward),
        Command::ReplaceLegend { .. } => write_replace_legend(model, c, forward),
        Command::ReplaceLayout { .. } => write_replace_layout(model, c, forward),
        _ => {},
    }
}

} // verus!

verus! {

proof fn lemma_apply_all_ok_prefix(n: int, cs: Seq<CommandView>, j: int, k: int)
    requires
        0 <= j <= k <= cs.len(),
        count_apply_all_ok(n, cs, k),
    ensures
        count_apply_all_ok(n, cs, j),
    decreases k - j,
{
    if j < k {
        lemma_apply_all_ok_prefix(n, cs, j, k - 1);
    }
}

/// Applies `c` to the document.
pub fn apply_command(model: &mut PlotModel, c: &Command)
    requires
        apply_ok(old(model)@, c@),
    ensures
        final(model)@ == apply(old(model)@, c@),
    decreases c,
{
    let ghost m0 = model@;
    match c {
        Command::AddSeries { series, index } => {
            model.series.insert(*index, series.clone());
            assert(series_views(model.series@) =~= m0.series.insert(*index as int, series@));
        },
        Command::RemoveSeries { index, .. } => {
            model.series.remove(*index);
            assert(series_views(model.series@) =~= m0.series.remove(*index as int));
        },
        Command::Batch { commands } => {
            let ghost cv = c@->Batch_commands;
            proof {
                lemma_command_views(commands@, commands@.len() as int);
            }
            let mut i: usize = 0;
            while i < commands.len()
                invariant
                    i <= commands@.len(),
                    c@ == (CommandView::Batch { commands: cv }),
                    *c is Batch,
                    c->Batch_commands == *commands,
                    cv.len() == commands@.len(),
                    forall|k: int| 0 <= k < commands@.len() ==> #[trigger] cv[k] == commands@[k]@,
                    count_apply_all_ok(m0.series.len() as int, cv, cv.len() as int),
                    model@ == apply_all(m0, cv, i as int),
                decreases commands@.len() - i,
            {
                proof {
                    lemma_apply_all_ok_prefix(m0.series.len() as int, cv, i + 1, cv.len() as int);
                    lemma_apply_all_ok_prefix(m0.series.len() as int, cv, i as int, cv.len() as int);
                    lemma_apply_all_count(m0, cv, i as int);
                }
                proof {
                    assert(decreases_to!(*c => c->Batch_commands));
                    assert(decreases_to!(*commands => commands@));
                    assert(decreases_to!(commands@ => commands@[i as int]));
                }
                apply_command(model, &commands[i]);
                i = i + 1;
            }
        },
        _ => write_field(model, c, true),
    }
}

/// Reverses `c` on the document.
pub fn apply_inverse_command(model: &mut PlotModel, c: &Command)
    requires
        inverse_ok(old(model)@, c@),
    ensures
        final(model)@ == inverse(old(model)@, c@),
    decreases c,
{
    let ghost m0 = model@;
    match c {
        Command::AddSeries { index, .. } => {
            model.series.remove(*index);
            assert(series_views(model.series@) =~= m0.series.remove(*index as int));
        },
        Command::RemoveSeries { series, index } => {
            model.series.insert(*index, series.clone());
            assert(series_views(model.series@) =~= m0.series.insert(*index as int, series@));
        },
        Command::Batch { commands } => {
            let ghost cv = c@->Batch_commands;
            proof {
                lemma_command_views(commands@, commands@.len() as int);
            }
            let mut i: usize = commands.len();
            while i > 0
                invariant
                    i <= commands@.len(),
                    c@ == (CommandView::Batch { commands: cv }),
                    *c is Batch,
                    c->Batch_commands == *commands,
                    cv.len() == commands@.len(),
                    forall|k: int| 0 <= k < commands@.len() ==> #[trigger] cv[k] == commands@[k]@,
                    count_inverse_all_ok(model@.series.len() as int, cv, i as int),
                    inverse_all(model@, cv, i as int) == inverse_all(m0, cv, cv.len() as int),
                decreases i,
            {
                proof {
                    lemma_inverse_count(model@, cv[i - 1]);
                }
                proof {
                    assert(decreases_to!(*c => c->Batch_commands));
                    assert(decreases_to!(*commands => commands@));
                    assert(decreases_to!(commands@ => commands@[i - 1]));
                }
                apply_inverse_command(model, &commands[i - 1]);
                i = i - 1;
            }
        },
        _ => write_field(model, c, false),
    }
}

} // verus!
