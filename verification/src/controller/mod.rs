//! Controller module (MVC "C").
//!
//! Responsibilities:
//! - Accept `Action` values from the view.
//! - Validate and translate actions into `Command`s.
//! - Mutate `PlotModel` and data table state.
//! - Maintain undo/redo stacks.
//!
//! Actions are user intents; the controller validates them and turns them into
//! commands. Commands are the single source of truth for edits of the document,
//! enabling undo/redo.
pub mod action;
pub mod command;
pub mod edit;
pub mod effects;
pub mod identity;
pub mod laws;
pub mod limits;
pub mod transition;

pub use action::Action;
pub use command::Command;

use vstd::prelude::*;
use crate::model::number::{Real32, Real32View, Real64, Real64View};
use crate::model::types::SeriesId;
use crate::text::{decimal, push_decimal};

verus! {

/// EN: UI notification severity.
/// RU: Uroven uvedomleniya dlya UI.
#[derive(Clone, Copy, Debug, PartialEq, Eq, Structural)]
pub enum NotificationLevel {
    Info,
    Error,
}

/// EN: Notification shown in the status block of the editor.
/// RU: Soobshchenie v statuse redaktora.
#[derive(Debug)]
pub struct Notification {
    pub level: NotificationLevel,
    pub message: String,
}

pub struct NotificationView {
    pub level: NotificationLevel,
    pub message: Seq<char>,
}

impl View for Notification {
    type V = NotificationView;

    open spec fn view(&self) -> NotificationView {
        NotificationView { level: self.level, message: self.message@ }
    }
}

impl Clone for Notification {
    fn clone(&self) -> (r: Self)
        ensures
            r@ == self@,
    {
        Notification { level: self.level, message: self.message.clone() }
    }
}

/// EN: Controller-level error for validation and user-safe feedback.
/// RU: Oshibka kontrollera dlya validatsii i bezopasnoy obratnoy svyazi.
#[derive(Debug)]
pub enum ControllerError {
    EmptyAxisLabel,
    EmptyChartTitle,
    InvalidRange { min: Real64, max: Real64 },
    InvalidLineWidth(Real32),
    SeriesNotFound(SeriesId),
    ColumnNotFound(String),
    DataLoadFailed(String),
    ExportFailed(String),
    NoDataLoaded,
    CannotRemoveLastSeries,
    UnsupportedAction(&'static str),
}

pub enum ControllerErrorView {
    EmptyAxisLabel,
    EmptyChartTitle,
    InvalidRange { min: Real64View, max: Real64View },
    InvalidLineWidth(Real32View),
    SeriesNotFound(SeriesId),
    ColumnNotFound(Seq<char>),
    DataLoadFailed(Seq<char>),
    ExportFailed(Seq<char>),
    NoDataLoaded,
    CannotRemoveLastSeries,
    UnsupportedAction(Seq<char>),
}

impl View for ControllerError {
    type V = ControllerErrorView;

    open spec fn view(&self) -> ControllerErrorView {
        match self {
            ControllerError::EmptyAxisLabel => ControllerErrorView::EmptyAxisLabel,
            ControllerError::EmptyChartTitle => ControllerErrorView::EmptyChartTitle,
            ControllerError::InvalidRange { min, max } => ControllerErrorView::InvalidRange {
                min: min@,
                max: max@,
            },
            ControllerError::InvalidLineWidth(w) => ControllerErrorView::InvalidLineWidth(w@),
            ControllerError::SeriesNotFound(id) => ControllerErrorView::SeriesNotFound(*id),
            ControllerError::ColumnNotFound(n) => ControllerErrorView::ColumnNotFound(n@),
            ControllerError::DataLoadFailed(e) => ControllerErrorView::DataLoadFailed(e@),
            ControllerError::ExportFailed(e) => ControllerErrorView::ExportFailed(e@),
            ControllerError::NoDataLoaded => ControllerErrorView::NoDataLoaded,
            ControllerError::CannotRemoveLastSeries => ControllerErrorView::CannotRemoveLastSeries,
            ControllerError::UnsupportedAction(n) => ControllerErrorView::UnsupportedAction(n@),
        }
    }
}

/// The view of a result of the controller.
pub open spec fn result_view(r: Result<(), ControllerError>) -> Result<(), ControllerErrorView> {
    match r {
        Ok(()) => Ok(()),
        Err(e) => Err(e@),
    }
}

/// The text shown for an error.
pub open spec fn error_message(e: ControllerErrorView) -> Seq<char> {
    match e {
        ControllerErrorView::EmptyAxisLabel => "Axis label cannot be empty / Podpis osi ne mozhet byt pustoy"@,
        ControllerErrorView::EmptyChartTitle => "Chart title cannot be empty / Zagolovok ne mozhet byt pustym"@,
        ControllerErrorView::InvalidRange { min, max } => "Invalid range: min ("@ + min.text
            + ") must be < max ("@ + max.text + ") / Nekorrektnyy diapazon"@,
        ControllerErrorView::InvalidLineWidth(w) => "Invalid line width: "@ + w.text
            + " / Nekorrektnaya tolshchina linii"@,
        ControllerErrorView::SeriesNotFound(id) => "Series SeriesId("@ + decimal(id.0 as nat)
            + ") not found / Seriya ne naydena"@,
        ControllerErrorView::ColumnNotFound(name) => "Column not found: "@ + name
            + " / Stolbets ne naiden"@,
        ControllerErrorView::DataLoadFailed(err) => "Failed to load data: "@ + err
            + " / Ne udalos zagruzit dannye"@,
        ControllerErrorView::ExportFailed(err) => "Failed to export: "@ + err
            + " / Ne udalos sohranit grafik"@,
        ControllerErrorView::NoDataLoaded => "No data loaded / Dannye ne zagruzheny"@,
        ControllerErrorView::CannotRemoveLastSeries => "Cannot remove last series / Nelyzya udalit poslednyuyu seriyu"@,
        ControllerErrorView::UnsupportedAction(name) => "Action is not implemented yet: "@ + name
            + " / Deystvie poka ne realizovano"@,
    }
}

impl ControllerError {
    /// The text shown for this error in the status block.
    pub fn message(&self) -> (r: String)
        ensures
            r@ == error_message(self@),
    {
        match self {
            ControllerError::EmptyAxisLabel => "Axis label cannot be empty / Podpis osi ne mozhet byt pustoy".to_owned(),
            ControllerError::EmptyChartTitle => "Chart title cannot be empty / Zagolovok ne mozhet byt pustym".to_owned(),
            ControllerError::InvalidRange { min, max } => {
                let mut r = "Invalid range: min (".to_owned();
                r.append(min.text.as_str());
                r.append(") must be < max (");
                r.append(max.text.as_str());
                r.append(") / Nekorrektnyy diapazon");
                r
            },
            ControllerError::InvalidLineWidth(w) => {
                let mut r = "Invalid line width: ".to_owned();
                r.append(w.text.as_str());
                r.append(" / Nekorrektnaya tolshchina linii");
                r
            },
            ControllerError::SeriesNotFound(id) => {
                let mut r = "Series SeriesId(".to_owned();
                push_decimal(&mut r, id.0);
                r.append(") not found / Seriya ne naydena");
                r
            },
            ControllerError::ColumnNotFound(name) => {
                let mut r = "Column not found: ".to_owned();
                r.append(name.as_str());
                r.append(" / Stolbets ne naiden");
                r
            },
            ControllerError::DataLoadFailed(err) => {
                let mut r = "Failed to load data: ".to_owned();
                r.append(err.as_str());
                r.append(" / Ne udalos zagruzit dannye");
                r
            },
            ControllerError::ExportFailed(err) => {
                let mut r = "Failed to export: ".to_owned();
                r.append(err.as_str());
                r.append(" / Ne udalos sohranit grafik");
                r
            },
            ControllerError::NoDataLoaded => "No data loaded / Dannye ne zagruzheny".to_owned(),
            ControllerError::CannotRemoveLastSeries => "Cannot remove last series / Nelyzya udalit poslednyuyu seriyu".to_owned(),
            ControllerError::UnsupportedAction(name) => {
                let mut r = "Action is not implemented yet: ".to_owned();
                r.append(name);
                r.append(" / Deystvie poka ne realizovano");
                r
            },
        }
    }
}

} // verus!

use crate::controller::command::{
    apply, count_apply, count_apply_ok, count_inverse, count_inverse_ok, inverse, lemma_apply_count,
    lemma_count_apply_inverse, lemma_count_inverse_apply, lemma_inverse_count, CommandView,
};
use crate::controller::edit::{apply_command, apply_inverse_command, axis_ref};
use crate::controller::identity::{ids_wf, law_initial_ids_fresh, law_series_ids_stay_fresh};
use crate::controller::limits::{law_initial_limits, law_limits_are_kept, limits_ok};
use crate::controller::command::command_views;
use crate::controller::transition::{
    bind_columns, lemma_bind_columns_count, controller_wf, fail, handle, info, record, redo_chain, step, undo_chain, PlotControllerView,
};
use crate::model::data::{
    column_names_of, points_of, source_table, table_result, DataSource, DataTable,
    DataTableView, table_wf,
};
use crate::model::plot::{default_model, position_of, PlotModel, SeriesModel};
use crate::text::texts;

verus! {

/// EN: Main MVC controller. Owns model, data table, command history and notifications.
/// RU: Glavnyy MVC-kontroller. Hranit model, tablitsu dannyh, istoriyu komand i uvedomleniya.
pub struct PlotController {
    pub model: PlotModel,
    pub undo_stack: Vec<Command>,
    pub redo_stack: Vec<Command>,
    data_table: Option<DataTable>,
    notification: Option<Notification>,
    next_series_id: u64,
}

/// The views of a sequence of commands.
pub open spec fn command_list(s: Seq<Command>) -> Seq<CommandView> {
    Seq::new(s.len(), |i: int| s[i]@)
}

/// The view of an optional table.
pub open spec fn opt_table(t: Option<DataTable>) -> Option<DataTableView> {
    match t {
        Some(x) => Some(x@),
        None => None,
    }
}

/// The view of an optional notification.
pub open spec fn opt_notification(n: Option<Notification>) -> Option<NotificationView> {
    match n {
        Some(x) => Some(x@),
        None => None,
    }
}

impl View for PlotController {
    type V = PlotControllerView;

    closed spec fn view(&self) -> PlotControllerView {
        PlotControllerView {
            model: self.model@,
            undo: command_list(self.undo_stack@),
            redo: command_list(self.redo_stack@),
            table: opt_table(self.data_table),
            notification: opt_notification(self.notification),
            next_series_id: self.next_series_id,
        }
    }
}

/// The state of a new editor: default document, empty histories, no data.
pub open spec fn initial_state() -> PlotControllerView {
    PlotControllerView {
        model: default_model(),
        undo: Seq::empty(),
        redo: Seq::empty(),
        table: None,
        notification: info("Ready. Load CSV/TXT from Files menu / Gotovo. Zagruzite CSV/TXT"@),
        next_series_id: 2,
    }
}

/// The names of the loaded columns; none without data.
pub open spec fn available_columns_of(s: PlotControllerView) -> Seq<Seq<char>> {
    match s.table {
        Some(t) => column_names_of(t),
        None => Seq::empty(),
    }
}

/// The points of a series: its x and y columns paired row by row.
pub open spec fn series_points(s: PlotControllerView, id: SeriesId) -> Result<Seq<(u64, u64)>, ControllerErrorView> {
    match s.table {
        None => Err(ControllerErrorView::NoDataLoaded),
        Some(t) => match position_of(s.model.series, id) {
            None => Err(ControllerErrorView::SeriesNotFound(id)),
            Some(i) => match points_of(t, s.model.series[i].x_column, s.model.series[i].y_column) {
                Ok(p) => Ok(p),
                Err(e) => Err(ControllerErrorView::DataLoadFailed(e)),
            },
        },
    }
}

impl PlotController {
    /// EN: Empty initial state; data is loaded via File menu.
    /// RU: Pustoe nachalnoe sostoyanie; dannye zagruzhayutsya cherez File menu.
    pub fn new() -> (r: Self)
        ensures
            r@ == initial_state(),
            controller_wf(r@),
            ids_wf(r@),
            limits_ok(r@),
    {
        let r = PlotController {
            model: PlotModel::default(),
            undo_stack: Vec::new(),
            redo_stack: Vec::new(),
            data_table: None,
            notification: Some(
                Notification {
                    level: NotificationLevel::Info,
                    message: "Ready. Load CSV/TXT from Files menu / Gotovo. Zagruzite CSV/TXT".to_owned(),
                },
            ),
            next_series_id: 2,
        };
        assert(r@.undo =~= Seq::<CommandView>::empty());
        assert(r@.redo =~= Seq::<CommandView>::empty());
        proof {
            law_initial_ids_fresh();
            law_initial_limits();
        }
        r
    }

    /// Returns latest notification for status banner.
    pub fn notification(&self) -> (r: Option<&Notification>)
        ensures
            opt_notification(match r {
                Some(n) => Some(*n),
                None => None,
            }) == self@.notification,
    {
        match &self.notification {
            Some(n) => Some(n),
            None => None,
        }
    }

    /// Returns names of all loaded numeric columns.
    pub fn available_columns(&self) -> (r: Vec<String>)
        ensures
            texts(r@) == available_columns_of(self@),
    {
        match &self.data_table {
            Some(t) => t.column_names(),
            None => {
                let r: Vec<String> = Vec::new();
                assert(texts(r@) =~= Seq::<Seq<char>>::empty());
                r
            },
        }
    }

    /// The identifier that the next added series gets.
    pub fn next_series_id(&self) -> (r: u64)
        ensures
            r == self@.next_series_id,
    {
        self.next_series_id
    }

    /// Indicates whether any dataset has been loaded.
    pub fn has_data(&self) -> (r: bool)
        ensures
            r == self@.table is Some,
    {
        self.data_table.is_some()
    }

    /// The first series with this identifier.
    fn find_series(&self, series_id: SeriesId) -> (r: Result<&SeriesModel, ControllerError>)
        ensures
            match r {
                Ok(s) => position_of(self@.model.series, series_id) matches Some(i) && s@
                    == self@.model.series[i],
                Err(e) => position_of(self@.model.series, series_id) is None && e@
                    == ControllerErrorView::SeriesNotFound(series_id),
            },
    {
        match crate::model::plot::find_position(&self.model.series, series_id) {
            Some(i) => Ok(&self.model.series[i]),
            None => Err(ControllerError::SeriesNotFound(series_id)),
        }
    }

    /// Returns currently selected `(x, y)` points for a series, as binary64 bit
    /// patterns.
    pub fn points_for_series(&self, series_id: SeriesId) -> (r: Result<Vec<(u64, u64)>, ControllerError>)
        ensures
            match r {
                Ok(p) => series_points(self@, series_id) == Ok::<Seq<(u64, u64)>, ControllerErrorView>(p@),
                Err(e) => series_points(self@, series_id) == Err::<Seq<(u64, u64)>, ControllerErrorView>(e@),
            },
    {
        let table = match &self.data_table {
            Some(t) => t,
            None => return Err(ControllerError::NoDataLoaded),
        };
        let series = match self.find_series(series_id) {
            Ok(s) => s,
            Err(e) => return Err(e),
        };
        match table.points_for_columns(series.x_column.as_str(), series.y_column.as_str()) {
            Ok(p) => Ok(p),
            Err(e) => Err(ControllerError::DataLoadFailed(e)),
        }
    }

    /// Records `c`: applies it, pushes it on the undo stack, clears the redo stack.
    fn execute_command(&mut self, command: Command)
        requires
            controller_wf(old(self)@),
            count_apply_ok(old(self)@.model.series.len() as int, command@),
            count_apply(old(self)@.model.series.len() as int, command@) >= 1,
        ensures
            final(self)@ == record(old(self)@, command@).0,
            controller_wf(final(self)@),
    {
        let ghost s0 = self@;
        let ghost n = s0.model.series.len() as int;
        proof {
            lemma_apply_count(s0.model, command@);
            lemma_count_apply_inverse(n, command@);
        }
        apply_command(&mut self.model, &command);
        self.undo_stack.push(command);
        self.redo_stack.clear();
        proof {
            assert(self@.undo =~= s0.undo.push(command@));
            assert(self@.redo =~= Seq::<CommandView>::empty());
            let s1 = self@;
            let n1 = s1.model.series.len() as int;
            assert(s1.undo.drop_last() =~= s0.undo);
            assert(undo_chain(n1, s1.undo));
        }
    }

    /// Fails with `error`, showing its message.
    fn fail(&mut self, error: ControllerError) -> (r: Result<(), ControllerError>)
        ensures
            (final(self)@, result_view(r)) == fail(old(self)@, error@),
    {
        self.notification = Some(
            Notification { level: NotificationLevel::Error, message: error.message() },
        );
        Err(error)
    }
}

} // verus!

use crate::controller::transition::{
    axis_step, frame_step, import, install_table, is_axis_action, is_frame_action, is_series_action,
    other_step, series_color, series_step,
};
use crate::model::plot::{find_position, make_default_line_width, make_first_series};
use crate::model::types::{
    Color, LineStyle, MarkerStyle, RangePolicy, SeriesStyle,
};
use crate::text::trim_str;

verus! {

/// The color given to the series with identifier `n`.
fn color_for_series(n: u64) -> (r: Color)
    ensures
        r == series_color(n),
{
    let k = n % 6;
    if k == 0 {
        Color { r: 220, g: 50, b: 47, a: 255 }
    } else if k == 1 {
        Color { r: 38, g: 139, b: 210, a: 255 }
    } else if k == 2 {
        Color { r: 133, g: 153, b: 0, a: 255 }
    } else if k == 3 {
        Color { r: 203, g: 75, b: 22, a: 255 }
    } else if k == 4 {
        Color { r: 42, g: 161, b: 152, a: 255 }
    } else {
        Color { r: 108, g: 113, b: 196, a: 255 }
    }
}

proof fn lemma_wf_has_series(s: PlotControllerView)
    requires
        controller_wf(s),
    ensures
        s.model.series.len() >= 1,
{
}

impl PlotController {
    fn undo(&mut self) -> (r: Result<(), ControllerError>)
        requires
            controller_wf(old(self)@),
        ensures
            (final(self)@, result_view(r)) == other_step(old(self)@, Action::Undo),
            controller_wf(final(self)@),
    {
        let ghost s0 = self@;
        let ghost n = s0.model.series.len() as int;
        match self.undo_stack.pop() {
            Some(cmd) => {
                proof {
                    assert(s0.undo.last() == cmd@);
                    assert(s0.undo.drop_last() =~= command_list(self.undo_stack@));
                    lemma_inverse_count(s0.model, cmd@);
                    lemma_count_inverse_apply(n, cmd@);
                }
                apply_inverse_command(&mut self.model, &cmd);
                self.redo_stack.push(cmd);
                proof {
                    let s1 = self@;
                    assert(s1.redo =~= s0.redo.push(cmd@));
                    assert(s1.redo.drop_last() =~= s0.redo);
                    assert(s1.undo =~= s0.undo.drop_last());
                    let p = count_inverse(n, cmd@);
                    assert(undo_chain(p, s0.undo.drop_last()));
                    assert(p >= 1);
                    assert(s1.model.series.len() == p);
                    assert(count_apply(p, cmd@) == n);
                    assert(redo_chain(n, s0.redo));
                    assert(redo_chain(s1.model.series.len() as int, s1.redo));
                }
                Ok(())
            },
            None => {
                proof {
                    assert(s0.undo =~= Seq::<CommandView>::empty());
                }
                self.notification = Some(
                    Notification {
                        level: NotificationLevel::Info,
                        message: "Nothing to undo / Nechego otmenyat".to_owned(),
                    },
                );
                Ok(())
            },
        }
    }

    fn redo(&mut self) -> (r: Result<(), ControllerError>)
        requires
            controller_wf(old(self)@),
        ensures
            (final(self)@, result_view(r)) == other_step(old(self)@, Action::Redo),
            controller_wf(final(self)@),
    {
        let ghost s0 = self@;
        let ghost n = s0.model.series.len() as int;
        match self.redo_stack.pop() {
            Some(cmd) => {
                proof {
                    assert(s0.redo.last() == cmd@);
                    assert(s0.redo.drop_last() =~= command_list(self.redo_stack@));
                    lemma_apply_count(s0.model, cmd@);
                    lemma_count_apply_inverse(n, cmd@);
                }
                apply_command(&mut self.model, &cmd);
                self.undo_stack.push(cmd);
                proof {
                    let s1 = self@;
                    assert(s1.undo =~= s0.undo.push(cmd@));
                    assert(s1.undo.drop_last() =~= s0.undo);
                    assert(s1.redo =~= s0.redo.drop_last());
                    let p = count_apply(n, cmd@);
                    assert(redo_chain(p, s0.redo.drop_last()));
                    assert(p >= 1);
                    assert(s1.model.series.len() == p);
                    assert(count_inverse(p, cmd@) == n);
                    assert(undo_chain(n, s0.undo));
                    assert(undo_chain(s1.model.series.len() as int, s1.undo));
                }
                Ok(())
            },
            None => {
                proof {
                    assert(s0.redo =~= Seq::<CommandView>::empty());
                }
                self.notification = Some(
                    Notification {
                        level: NotificationLevel::Info,
                        message: "Nothing to redo / Nechego povtoryat".to_owned(),
                    },
                );
                Ok(())
            },
        }
    }

    /// Installs a loaded table (case of an import).
    fn set_table(&mut self, table: DataTable) -> (r: Result<(), ControllerError>)
        requires
            controller_wf(old(self)@),
        ensures
            (final(self)@, result_view(r)) == install_table(old(self)@, table@),
            controller_wf(final(self)@),
    {
        let ghost s0 = self@;
        let names = table.column_names();
        if names.len() < 2 {
            return self.fail(ControllerError::DataLoadFailed("Need at least two numeric columns".to_owned()));
        }
        let ghost t = table@;
        let x = names[0].clone();
        let y = names[1].clone();
        assert(x@ == column_names_of(t)[0]);
        assert(y@ == column_names_of(t)[1]);
        proof {
            lemma_wf_has_series(s0);
        }
        if self.model.series.len() == 0 {
            self.execute_command(Command::AddSeries { series: make_first_series(x, y), index: 0 });
        } else {
            let id = self.model.series[0].id;
            let old_x = self.model.series[0].x_column.clone();
            let old_y = self.model.series[0].y_column.clone();
            let mut commands: Vec<Command> = Vec::new();
            commands.push(Command::SetSeriesXColumn { series_id: id, old: old_x, new: x });
            commands.push(Command::SetSeriesYColumn { series_id: id, old: old_y, new: y });
            let ghost cs = commands@;
            let c = Command::Batch { commands };
            proof {
                crate::controller::command::lemma_command_views(cs, 2);
                let b = bind_columns(s0.model.series[0], column_names_of(t)[0], column_names_of(t)[1]);
                assert(command_views(cs, 2) =~= b->Batch_commands);
                assert(c@ == b);
                lemma_bind_columns_count(
                    s0.model.series[0],
                    column_names_of(t)[0],
                    column_names_of(t)[1],
                    s0.model.series.len() as int,
                );
            }
            self.execute_command(c);
        }
        self.data_table = Some(table);
        self.notification = Some(
            Notification {
                level: NotificationLevel::Info,
                message: "Data imported / Dannye zagruzheny".to_owned(),
            },
        );
        Ok(())
    }

    /// EN: Public API for embedding editor in another crate.
    /// RU: Public API dlya vstraivaniya redaktora v drugoy crate.
    ///
    /// The outcome is that of an import of the table, or the error, that the
    /// source's answers give (`source_table`, as `DataTable::from_data_source`
    /// builds it).
    pub fn load_from_data_source<S: DataSource>(&mut self, source: &S) -> (r: Result<(), ControllerError>)
        requires
            controller_wf(old(self)@),
        ensures
            controller_wf(final(self)@),
            (final(self)@, result_view(r)) == import(old(self)@, source_table(source)),
    {
        let res = DataTable::from_data_source(source);
        let ghost tr = table_result(res);
        match res {
            Ok(table) => {
                let ghost t = table@;
                let r = self.set_table(table);
                assert((self@, result_view(r)) == import(old(self)@, Ok::<DataTableView, Seq<char>>(t)));
                r
            },
            Err(e) => {
                let ghost m = e@;
                let r = Err(ControllerError::DataLoadFailed(e));
                assert((self@, result_view(r)) == import(old(self)@, Err::<DataTableView, Seq<char>>(m)));
                r
            },
        }
    }
}

} // verus!

verus! {

fn at_least_8(n: u32) -> (r: u32)
    ensures
        r == crate::controller::transition::at_least_8(n),
{
    if n < 8 {
        8
    } else {
        n
    }
}

impl PlotController {
    #[verifier::spinoff_prover]
    #[verifier::rlimit(50)]
    fn handle_axis(&mut self, action: Action) -> (r: Result<(), ControllerError>)
        requires
            controller_wf(old(self)@),
            is_axis_action(action),
        ensures
            (final(self)@, result_view(r)) == axis_step(old(self)@, action),
            controller_wf(final(self)@),
    {
        proof {
            lemma_wf_has_series(self@);
        }
        match action {
            Action::SetAxisLabel { axis, label } => {
                let trimmed = trim_str(label.as_str());
                if trimmed.as_str().is_empty() {
                    return self.fail(ControllerError::EmptyAxisLabel);
                }
                let old = axis_ref(&self.model, axis).label.clone();
                self.execute_command(Command::SetAxisLabel { axis, old, new: trimmed });
                Ok(())
            },
            Action::SetAxisLabelFontSize { axis, font_size } => {
                let old = axis_ref(&self.model, axis).label_font_size;
                self.execute_command(
                    Command::SetAxisLabelFontSize { axis, old, new: at_least_8(font_size) },
                );
                Ok(())
            },
            Action::SetAxisTitleFontSize { axis, font_size } => {
                let old = axis_ref(&self.model, axis).axis_title_font_size;
                self.execute_command(
                    Command::SetAxisTitleFontSize { axis, old, new: at_least_8(font_size) },
                );
                Ok(())
            },
            Action::SetAxisScale { axis, scale } => {
                let old = axis_ref(&self.model, axis).scale;
                self.execute_command(Command::SetAxisScale { axis, old, new: scale });
                Ok(())
            },
            Action::SetAxisRange { axis, range } => {
                if let RangePolicy::Manual { min, max } = &range {
                    if !min.less_than(max) {
                        return self.fail(
                            ControllerError::InvalidRange { min: min.clone(), max: max.clone() },
                        );
                    }
                }
                let old = axis_ref(&self.model, axis).range.clone();
                self.execute_command(Command::SetAxisRange { axis, old, new: range });
                Ok(())
            },
            Action::SetAxisMajorTickStep { axis, step } => {
                let old = crate::model::types::clone_opt_real64(&axis_ref(&self.model, axis).ticks.major_step);
                self.execute_command(Command::SetAxisMajorTickStep { axis, old, new: step });
                Ok(())
            },
            Action::SetAxisMinorTicks { axis, per_major } => {
                let old = axis_ref(&self.model, axis).ticks.minor_per_major;
                self.execute_command(Command::SetAxisMinorTicks { axis, old, new: per_major });
                Ok(())
            },
            _ => Ok(()),
        }
    }

    fn replace_legend(&mut self, next: crate::model::types::LegendConfig)
        requires
            controller_wf(old(self)@),
        ensures
            final(self)@ == record(
                old(self)@,
                CommandView::ReplaceLegend { old: old(self)@.model.legend, new: next@ },
            ).0,
            controller_wf(final(self)@),
    {
        proof {
            lemma_wf_has_series(self@);
        }
        let old = self.model.legend.clone();
        self.execute_command(Command::ReplaceLegend { old, new: next });
    }

    fn replace_layout(&mut self, next: crate::model::types::LayoutConfig)
        requires
            controller_wf(old(self)@),
        ensures
            final(self)@ == record(
                old(self)@,
                CommandView::ReplaceLayout { old: old(self)@.model.layout, new: next@ },
            ).0,
            controller_wf(final(self)@),
    {
        proof {
            lemma_wf_has_series(self@);
        }
        let old = self.model.layout.clone();
        self.execute_command(Command::ReplaceLayout { old, new: next });
    }

    fn handle_frame(&mut self, action: Action) -> (r: Result<(), ControllerError>)
        requires
            controller_wf(old(self)@),
            is_frame_action(action),
        ensures
            (final(self)@, result_view(r)) == frame_step(old(self)@, action),
            controller_wf(final(self)@),
    {
        proof {
            lemma_wf_has_series(self@);
        }
        match action {
            Action::SetChartTitle(new_title) => {
                let trimmed = trim_str(new_title.as_str());
                if trimmed.as_str().is_empty() {
                    return self.fail(ControllerError::EmptyChartTitle);
                }
                let old = self.model.layout.title.clone();
                self.execute_command(Command::SetChartTitle { old, new: trimmed });
                Ok(())
            },
            Action::SetLegendVisible(visible) => {
                let mut next = self.model.legend.clone();
                next.visible = visible;
                self.replace_legend(next);
                Ok(())
            },
            Action::SetLegendTitle(title) => {
                let mut next = self.model.legend.clone();
                next.title = match title {
                    Some(v) => {
                        let t = trim_str(v.as_str());
                        if t.as_str().is_empty() {
                            None
                        } else {
                            Some(t)
                        }
                    },
                    None => None,
                };
                self.replace_legend(next);
                Ok(())
            },
            Action::SetLegendPosition(position) => {
                let mut next = self.model.legend.clone();
                next.position = position;
                self.replace_legend(next);
                Ok(())
            },
            Action::SetLegendFontSize(font_size) => {
                let mut next = self.model.legend.clone();
                next.font_size = at_least_8(font_size);
                self.replace_legend(next);
                Ok(())
            },
            Action::SetLegendFontColor(color) => {
                let mut next = self.model.legend.clone();
                next.font_color = color;
                self.replace_legend(next);
                Ok(())
            },
            Action::SetLayoutMargin(margin) => {
                let mut next = self.model.layout.clone();
                next.margin = margin;
                self.replace_layout(next);
                Ok(())
            },
            Action::SetXLabelAreaSize(size) => {
                let mut next = self.model.layout.clone();
                next.x_label_area_size = size;
                self.replace_layout(next);
                Ok(())
            },
            Action::SetYLabelAreaSize(size) => {
                let mut next = self.model.layout.clone();
                next.y_label_area_size = size;
                self.replace_layout(next);
                Ok(())
            },
            Action::SetLabelFontSize(size) => {
                let mut next = self.model.layout.clone();
                next.title_font_size = at_least_8(size);
                self.replace_layout(next);
                Ok(())
            },
            Action::SetLabelFontColor(color) => {
                let mut next = self.model.layout.clone();
                next.title_font_color = color;
                self.replace_layout(next);
                Ok(())
            },
            _ => Ok(()),
        }
    }
}

} // verus!

use crate::controller::transition::{add_series, column_check, new_series, table_has};
use crate::text::push_decimal as append_decimal;

verus! {

impl PlotController {
    /// The first two column names of the loaded table.
    fn default_xy_columns(&self) -> (r: Result<(String, String), ControllerError>)
        ensures
            match r {
                Ok((x, y)) => self@.table matches Some(t) && column_names_of(t).len() >= 2
                    && x@ == column_names_of(t)[0] && y@ == column_names_of(t)[1],
                Err(e) => match self@.table {
                    None => e@ == ControllerErrorView::NoDataLoaded,
                    Some(t) => column_names_of(t).len() < 2 && e@
                        == ControllerErrorView::DataLoadFailed("Need at least two columns"@),
                },
            },
    {
        let table = match &self.data_table {
            Some(t) => t,
            None => return Err(ControllerError::NoDataLoaded),
        };
        let names = table.column_names();
        if names.len() < 2 {
            return Err(ControllerError::DataLoadFailed("Need at least two columns".to_owned()));
        }
        assert(names@[0]@ == texts(names@)[0]);
        assert(names@[1]@ == texts(names@)[1]);
        Ok((names[0].clone(), names[1].clone()))
    }

    /// Fails unless the loaded table has a column named `name`.
    fn ensure_column_exists(&self, name: &str) -> (r: Result<(), ControllerError>)
        ensures
            match r {
                Ok(()) => column_check(self@, name@) is None,
                Err(e) => column_check(self@, name@) == Some(e@),
            },
    {
        let table = match &self.data_table {
            Some(t) => t,
            None => return Err(ControllerError::NoDataLoaded),
        };
        if table.has_column(name) {
            Ok(())
        } else {
            Err(ControllerError::ColumnNotFound(name.to_owned()))
        }
    }

    fn add_series(&mut self, name: String, x_column: String, y_column: String) -> (r: Result<(), ControllerError>)
        requires
            controller_wf(old(self)@),
            old(self)@.next_series_id < u64::MAX,
        ensures
            (final(self)@, result_view(r)) == add_series(old(self)@, name@, x_column@, y_column@),
            controller_wf(final(self)@),
    {
        proof {
            lemma_wf_has_series(self@);
        }
        let (default_x, default_y) = match self.default_xy_columns() {
            Ok(p) => p,
            Err(e) => return Err(e),
        };
        let x_final = if x_column.as_str().is_empty() { default_x } else { x_column };
        let y_final = if y_column.as_str().is_empty() { default_y } else { y_column };
        match self.ensure_column_exists(x_final.as_str()) {
            Ok(()) => {},
            Err(e) => return Err(e),
        }
        match self.ensure_column_exists(y_final.as_str()) {
            Ok(()) => {},
            Err(e) => return Err(e),
        }
        let id = self.next_series_id;
        let trimmed = trim_str(name.as_str());
        let series_name = if trimmed.as_str().is_empty() {
            let mut n = "Series ".to_owned();
            append_decimal(&mut n, id);
            n
        } else {
            name
        };
        let series = SeriesModel {
            id: SeriesId(id),
            name: series_name,
            x_column: x_final,
            y_column: y_final,
            style: SeriesStyle {
                color: color_for_series(id),
                line_width: make_default_line_width(),
                line_style: LineStyle::Solid,
                marker: None,
            },
            visible: true,
        };
        assert(series@ == new_series(id, name@, x_final@, y_final@));
        self.next_series_id = id + 1;
        let index = self.model.series.len();
        self.execute_command(Command::AddSeries { series, index });
        Ok(())
    }

    #[verifier::rlimit(60)]
    fn handle_series(&mut self, action: Action) -> (r: Result<(), ControllerError>)
        requires
            controller_wf(old(self)@),
            is_series_action(action),
            action is AddSeries ==> old(self)@.next_series_id < u64::MAX,
        ensures
            (final(self)@, result_view(r)) == series_step(old(self)@, action),
            controller_wf(final(self)@),
    {
        proof {
            lemma_wf_has_series(self@);
        }
        match action {
            Action::AddSeries { name, x_column, y_column } => self.add_series(name, x_column, y_column),
            Action::RemoveSeries { series_id } => {
                if self.model.series.len() <= 1 {
                    return self.fail(ControllerError::CannotRemoveLastSeries);
                }
                match find_position(&self.model.series, series_id) {
                    None => self.fail(ControllerError::SeriesNotFound(series_id)),
                    Some(index) => {
                        let series = self.model.series[index].clone();
                        self.execute_command(Command::RemoveSeries { series, index });
                        Ok(())
                    },
                }
            },
            Action::RenameSeries { series_id, name } => {
                let old = match self.find_series(series_id) {
                    Ok(s) => s.name.clone(),
                    Err(e) => return Err(e),
                };
                self.execute_command(Command::RenameSeries { series_id, old, new: name });
                Ok(())
            },
            Action::SetSeriesVisibility { series_id, visible } => {
                let old = match self.find_series(series_id) {
                    Ok(s) => s.visible,
                    Err(e) => return Err(e),
                };
                self.execute_command(Command::SetSeriesVisibility { series_id, old, new: visible });
                Ok(())
            },
            Action::SetSeriesXColumn { series_id, x_column } => {
                match self.ensure_column_exists(x_column.as_str()) {
                    Ok(()) => {},
                    Err(e) => return Err(e),
                }
                let old = match self.find_series(series_id) {
                    Ok(s) => s.x_column.clone(),
                    Err(e) => return Err(e),
                };
                self.execute_command(Command::SetSeriesXColumn { series_id, old, new: x_column });
                Ok(())
            },
            Action::SetSeriesYColumn { series_id, y_column } => {
                match self.ensure_column_exists(y_column.as_str()) {
                    Ok(()) => {},
                    Err(e) => return Err(e),
                }
                let old = match self.find_series(series_id) {
                    Ok(s) => s.y_column.clone(),
                    Err(e) => return Err(e),
                };
                self.execute_command(Command::SetSeriesYColumn { series_id, old, new: y_column });
                Ok(())
            },
            Action::SetSeriesColor { series_id, color } => {
                let old = match self.find_series(series_id) {
                    Ok(s) => s.style.color,
                    Err(e) => return Err(e),
                };
                self.execute_command(Command::SetSeriesColor { series_id, old, new: color });
                Ok(())
            },
            Action::SetSeriesLineWidth { series_id, width } => {
                if !width.is_positive() {
                    return self.fail(ControllerError::InvalidLineWidth(width));
                }
                let old = match self.find_series(series_id) {
                    Ok(s) => s.style.line_width.clone(),
                    Err(e) => return Err(e),
                };
                self.execute_command(Command::SetSeriesLineWidth { series_id, old, new: width });
                Ok(())
            },
            Action::SetSeriesLineStyle { series_id, line_style } => {
                let old = match self.find_series(series_id) {
                    Ok(s) => s.style.line_style,
                    Err(e) => return Err(e),
                };
                self.execute_command(
                    Command::SetSeriesLineStyle { series_id, old, new: line_style },
                );
                Ok(())
            },
            Action::SetSeriesMarker { series_id, marker, size } => {
                let old = match self.find_series(series_id) {
                    Ok(s) => crate::model::types::clone_opt_marker(&s.style.marker),
                    Err(e) => return Err(e),
                };
                let new = match marker {
                    Some(shape) => Some(MarkerStyle { shape, size }),
                    None => None,
                };
                self.execute_command(Command::SetSeriesMarker { series_id, old, new });
                Ok(())
            },
            _ => Ok(()),
        }
    }

    fn handle_other(&mut self, action: Action) -> (r: Result<(), ControllerError>)
        requires
            controller_wf(old(self)@),
            !is_axis_action(action),
            !is_frame_action(action),
            !is_series_action(action),
        ensures
            (final(self)@, result_view(r)) == other_step(old(self)@, action),
            controller_wf(final(self)@),
    {
        match action {
            Action::ImportFromCsv { table, .. } | Action::ImportFromTxt { table, .. } => match table {
                Ok(t) => self.set_table(t),
                Err(msg) => Err(ControllerError::DataLoadFailed(msg)),
            },
            Action::RequestSaveAs { outcome, .. } => outcome,
            Action::Undo => self.undo(),
            Action::Redo => self.redo(),
            Action::ResetPlot => self.fail(ControllerError::UnsupportedAction("ResetPlot")),
            _ => Ok(()),
        }
    }

    /// Main action dispatcher invoked from the view each frame.
    pub fn dispatch(&mut self, action: Action) -> (r: Result<(), ControllerError>)
        requires
            controller_wf(old(self)@),
            action is AddSeries ==> old(self)@.next_series_id < u64::MAX,
        ensures
            (final(self)@, result_view(r)) == step(old(self)@, action),
            controller_wf(final(self)@),
            final(self)@.model.series.len() >= 1,
            ids_wf(old(self)@) ==> ids_wf(final(self)@),
            limits_ok(old(self)@) ==> limits_ok(final(self)@),
    {
        let ghost s0 = self@;
        let ghost a0 = action;
        proof {
            assert(s0.model.series.len() == self.model.series.len());
            if ids_wf(s0) {
                law_series_ids_stay_fresh(s0, a0);
            }
            if limits_ok(s0) {
                law_limits_are_kept(s0, a0);
            }
        }
        let result = if is_axis(&action) {
            self.handle_axis(action)
        } else if is_frame(&action) {
            self.handle_frame(action)
        } else if is_series(&action) {
            self.handle_series(action)
        } else {
            self.handle_other(action)
        };
        if result.is_ok() {
            self.notification = Some(
                Notification { level: NotificationLevel::Info, message: "Updated / Obnovleno".to_owned() },
            );
        }
        result
    }
}

fn is_axis(a: &Action) -> (r: bool)
    ensures
        r == is_axis_action(*a),
{
    match a {
        Action::SetAxisLabel { .. } | Action::SetAxisLabelFontSize { .. }
        | Action::SetAxisTitleFontSize { .. } | Action::SetAxisScale { .. }
        | Action::SetAxisRange { .. } | Action::SetAxisMajorTickStep { .. }
        | Action::SetAxisMinorTicks { .. } => true,
        _ => false,
    }
}

fn is_frame(a: &Action) -> (r: bool)
    ensures
        r == is_frame_action(*a),
{
    match a {
        Action::SetChartTitle(..) | Action::SetLegendVisible(..) | Action::SetLegendTitle(..)
        | Action::SetLegendPosition(..) | Action::SetLegendFontSize(..)
        | Action::SetLegendFontColor(..) | Action::SetLayoutMargin(..)
        | Action::SetXLabelAreaSize(..) | Action::SetYLabelAreaSize(..)
        | Action::SetLabelFontSize(..) | Action::SetLabelFontColor(..) => true,
        _ => false,
    }
}

fn is_series(a: &Action) -> (r: bool)
    ensures
        r == is_series_action(*a),
{
    match a {
        Action::AddSeries { .. } | Action::RemoveSeries { .. } | Action::RenameSeries { .. }
        | Action::SetSeriesVisibility { .. } | Action::SetSeriesXColumn { .. }
        | Action::SetSeriesYColumn { .. } | Action::SetSeriesColor { .. }
        | Action::SetSeriesLineWidth { .. } | Action::SetSeriesLineStyle { .. }
        | Action::SetSeriesMarker { .. } => true,
        _ => false,
    }
}

} // verus!
