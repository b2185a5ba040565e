use kithe_plot::controller::{Action, Command, ControllerError, NotificationLevel, PlotController};
use kithe_plot::model::data::{parse_delimited, ColumnData, DataSource, DataTable, Delimiter};
use kithe_plot::model::number::{Real32, Real64};
use kithe_plot::model::types::{
    AxisKind, Color, ImageFormat, ImageSize, LegendPosition, LineStyle, MarkerShape, RangePolicy,
    ScaleType, SeriesId,
};
use kithe_plot::model::plot::PlotModel;

fn number(s: &str) -> Option<u64> {
    s.parse::<f64>().ok().map(|v| v.to_bits())
}

fn real64(v: f64) -> Real64 {
    Real64 { bits: v.to_bits(), text: v.to_string() }
}

fn real32(v: f32) -> Real32 {
    Real32 { bits: v.to_bits(), text: v.to_string() }
}

fn message(c: &PlotController) -> String {
    c.notification().unwrap().message.clone()
}

fn level(c: &PlotController) -> NotificationLevel {
    c.notification().unwrap().level
}

fn csv(text: &str) -> Action {
    Action::ImportFromCsv {
        path: "data.csv".to_string(),
        table: parse_delimited(text, Delimiter::Comma, &number),
    }
}

fn loaded() -> PlotController {
    let mut c = PlotController::new();
    c.dispatch(csv("t,a,b\n0,1,2\n1,3,4\n")).unwrap();
    c
}

#[test]
fn new_controller_state() {
    let c = PlotController::new();
    assert_eq!(message(&c), "Ready. Load CSV/TXT from Files menu / Gotovo. Zagruzite CSV/TXT");
    assert_eq!(level(&c), NotificationLevel::Info);
    assert!(!c.has_data());
    assert!(c.available_columns().is_empty());
    assert!(c.undo_stack.is_empty());
    assert!(c.redo_stack.is_empty());
    assert_eq!(c.model.series.len(), 1);
    assert_eq!(c.model.layout.title, "Plot");
}

#[test]
fn default_document() {
    let m = PlotModel::default();
    assert_eq!(m.axes.x.label, "X");
    assert_eq!(m.axes.y.label, "Y");
    assert_eq!(m.axes.x.axis_title_font_size, 18);
    assert_eq!(m.axes.y.label_font_size, 16);
    assert_eq!(m.axes.x.ticks.minor_per_major, 4);
    assert!(m.axes.x.ticks.major_step.is_none());
    assert!(matches!(m.axes.y.range, RangePolicy::Auto));
    assert_eq!(m.series[0].id, SeriesId(1));
    assert_eq!(m.series[0].name, "Series 1");
    assert_eq!(m.series[0].style.line_width.bits, 2.0f32.to_bits());
    assert_eq!(m.series[0].style.line_width.text, 2.0f32.to_string());
    assert_eq!(m.series[0].style.color.r, 220);
    assert_eq!(m.legend.title.as_deref(), Some("Legend"));
    assert_eq!(m.legend.position, LegendPosition::TopRight);
    assert_eq!(m.legend.font_size, 16);
    assert_eq!(m.layout.x_label_area_size, 35);
    assert_eq!(m.layout.margin, 8);
    assert_eq!(m.layout.title_font_size, 24);
}

#[test]
fn title_is_trimmed_undone_and_redone() {
    let mut c = PlotController::new();
    c.dispatch(Action::SetChartTitle("  My plot ".to_string())).unwrap();
    assert_eq!(c.model.layout.title, "My plot");
    assert_eq!(c.undo_stack.len(), 1);
    assert_eq!(message(&c), "Updated / Obnovleno");
    c.dispatch(Action::Undo).unwrap();
    assert_eq!(c.model.layout.title, "Plot");
    assert_eq!(c.redo_stack.len(), 1);
    c.dispatch(Action::Redo).unwrap();
    assert_eq!(c.model.layout.title, "My plot");
    assert!(c.redo_stack.is_empty());
}

#[test]
fn empty_title_and_label_are_refused() {
    let mut c = PlotController::new();
    let e = c.dispatch(Action::SetChartTitle("   ".to_string())).unwrap_err();
    assert!(matches!(e, ControllerError::EmptyChartTitle));
    assert_eq!(message(&c), "Chart title cannot be empty / Zagolovok ne mozhet byt pustym");
    assert_eq!(level(&c), NotificationLevel::Error);
    assert!(c.undo_stack.is_empty());
    let e = c.dispatch(Action::SetAxisLabel { axis: AxisKind::Y, label: "".to_string() }).unwrap_err();
    assert!(matches!(e, ControllerError::EmptyAxisLabel));
    assert_eq!(message(&c), "Axis label cannot be empty / Podpis osi ne mozhet byt pustoy");
    c.dispatch(Action::SetAxisLabel { axis: AxisKind::Y, label: " Volts ".to_string() }).unwrap();
    assert_eq!(c.model.axes.y.label, "Volts");
    assert_eq!(c.model.axes.x.label, "X");
}

#[test]
fn font_sizes_are_at_least_eight() {
    let mut c = PlotController::new();
    c.dispatch(Action::SetAxisLabelFontSize { axis: AxisKind::X, font_size: 3 }).unwrap();
    assert_eq!(c.model.axes.x.label_font_size, 8);
    c.dispatch(Action::SetAxisTitleFontSize { axis: AxisKind::Y, font_size: 30 }).unwrap();
    assert_eq!(c.model.axes.y.axis_title_font_size, 30);
    c.dispatch(Action::SetLegendFontSize(0)).unwrap();
    assert_eq!(c.model.legend.font_size, 8);
    c.dispatch(Action::SetLabelFontSize(7)).unwrap();
    assert_eq!(c.model.layout.title_font_size, 8);
    assert_eq!(c.undo_stack.len(), 4);
    for _ in 0..4 {
        c.dispatch(Action::Undo).unwrap();
    }
    assert_eq!(c.model.axes.x.label_font_size, 16);
    assert_eq!(c.model.axes.y.axis_title_font_size, 18);
    assert_eq!(c.model.legend.font_size, 16);
    assert_eq!(c.model.layout.title_font_size, 24);
}

#[test]
fn axis_settings() {
    let mut c = PlotController::new();
    c.dispatch(Action::SetAxisScale { axis: AxisKind::X, scale: ScaleType::Log10 }).unwrap();
    assert_eq!(c.model.axes.x.scale, ScaleType::Log10);
    c.dispatch(Action::SetAxisMajorTickStep { axis: AxisKind::X, step: Some(real64(0.5)) }).unwrap();
    assert_eq!(c.model.axes.x.ticks.major_step.as_ref().unwrap().bits, 0.5f64.to_bits());
    c.dispatch(Action::SetAxisMinorTicks { axis: AxisKind::Y, per_major: 9 }).unwrap();
    assert_eq!(c.model.axes.y.ticks.minor_per_major, 9);
    c.dispatch(Action::SetAxisRange {
        axis: AxisKind::Y,
        range: RangePolicy::Manual { min: real64(-1.0), max: real64(1.0) },
    })
    .unwrap();
    assert!(matches!(c.model.axes.y.range, RangePolicy::Manual { .. }));
    c.dispatch(Action::Undo).unwrap();
    assert!(matches!(c.model.axes.y.range, RangePolicy::Auto));
}

#[test]
fn invalid_range_is_refused() {
    let mut c = PlotController::new();
    let e = c
        .dispatch(Action::SetAxisRange {
            axis: AxisKind::X,
            range: RangePolicy::Manual { min: real64(2.0), max: real64(1.0) },
        })
        .unwrap_err();
    assert!(matches!(e, ControllerError::InvalidRange { .. }));
    assert_eq!(message(&c), "Invalid range: min (2) must be < max (1) / Nekorrektnyy diapazon");
    let e = c
        .dispatch(Action::SetAxisRange {
            axis: AxisKind::X,
            range: RangePolicy::Manual { min: real64(1.5), max: real64(1.5) },
        })
        .unwrap_err();
    assert!(matches!(e, ControllerError::InvalidRange { .. }));
    let e = c
        .dispatch(Action::SetAxisRange {
            axis: AxisKind::X,
            range: RangePolicy::Manual { min: real64(f64::NAN), max: real64(1.0) },
        })
        .unwrap_err();
    assert!(matches!(e, ControllerError::InvalidRange { .. }));
    assert!(c.undo_stack.is_empty());
    assert!(matches!(c.model.axes.x.range, RangePolicy::Auto));
}

#[test]
fn legend_and_layout_edits() {
    let mut c = PlotController::new();
    c.dispatch(Action::SetLegendTitle(Some("  ".to_string()))).unwrap();
    assert!(c.model.legend.title.is_none());
    c.dispatch(Action::SetLegendTitle(Some(" Curves ".to_string()))).unwrap();
    assert_eq!(c.model.legend.title.as_deref(), Some("Curves"));
    c.dispatch(Action::SetLegendVisible(false)).unwrap();
    assert!(!c.model.legend.visible);
    c.dispatch(Action::SetLegendPosition(LegendPosition::BottomLeft)).unwrap();
    assert_eq!(c.model.legend.position, LegendPosition::BottomLeft);
    c.dispatch(Action::SetLegendFontColor(Color { r: 1, g: 2, b: 3, a: 4 })).unwrap();
    assert_eq!(c.model.legend.font_color.g, 2);
    c.dispatch(Action::SetLayoutMargin(20)).unwrap();
    c.dispatch(Action::SetXLabelAreaSize(50)).unwrap();
    c.dispatch(Action::SetYLabelAreaSize(60)).unwrap();
    c.dispatch(Action::SetLabelFontColor(Color { r: 9, g: 9, b: 9, a: 9 })).unwrap();
    assert_eq!(c.model.layout.margin, 20);
    assert_eq!(c.model.layout.x_label_area_size, 50);
    assert_eq!(c.model.layout.y_label_area_size, 60);
    assert_eq!(c.model.layout.title_font_color.b, 9);
    assert!(matches!(c.undo_stack.last(), Some(Command::ReplaceLayout { .. })));
    c.dispatch(Action::Undo).unwrap();
    assert_eq!(c.model.layout.title_font_color.b, 20);
}

#[test]
fn import_binds_first_series() {
    let c = loaded();
    assert!(c.has_data());
    assert_eq!(c.available_columns(), vec!["t", "a", "b"]);
    assert_eq!(c.model.series[0].x_column, "t");
    assert_eq!(c.model.series[0].y_column, "a");
    assert_eq!(message(&c), "Updated / Obnovleno");
    assert_eq!(c.undo_stack.len(), 1);
    assert!(matches!(c.undo_stack.last(), Some(Command::Batch { .. })));
    let p = c.points_for_series(SeriesId(1)).unwrap();
    assert_eq!(p, vec![(0.0f64.to_bits(), 1.0f64.to_bits()), (1.0f64.to_bits(), 3.0f64.to_bits())]);
    assert!(matches!(c.points_for_series(SeriesId(7)), Err(ControllerError::SeriesNotFound(SeriesId(7)))));
    let mut c = c;
    c.dispatch(Action::Undo).unwrap();
    assert!(c.has_data());
    assert_eq!(c.model.series[0].x_column, "");
    assert_eq!(c.model.series[0].y_column, "");
    c.dispatch(Action::Redo).unwrap();
    assert_eq!(c.model.series[0].x_column, "t");
    assert_eq!(c.model.series[0].y_column, "a");
}

#[test]
fn import_failures() {
    let mut c = PlotController::new();
    let e = c.dispatch(csv("only\n1\n")).unwrap_err();
    assert!(matches!(e, ControllerError::DataLoadFailed(_)));
    assert_eq!(
        message(&c),
        "Failed to load data: Need at least two numeric columns / Ne udalos zagruzit dannye"
    );
    assert!(!c.has_data());
    let mut c = PlotController::new();
    let e = c
        .dispatch(Action::ImportFromTxt { path: "x.txt".to_string(), table: Err("Failed to read TXT: gone".to_string()) })
        .unwrap_err();
    assert!(matches!(e, ControllerError::DataLoadFailed(ref m) if m == "Failed to read TXT: gone"));
    assert_eq!(message(&c), "Ready. Load CSV/TXT from Files menu / Gotovo. Zagruzite CSV/TXT");
    assert!(matches!(c.points_for_series(SeriesId(1)), Err(ControllerError::NoDataLoaded)));
}

#[test]
fn add_series_needs_data() {
    let mut c = PlotController::new();
    let e = c
        .dispatch(Action::AddSeries { name: String::new(), x_column: String::new(), y_column: String::new() })
        .unwrap_err();
    assert!(matches!(e, ControllerError::NoDataLoaded));
    assert_eq!(message(&c), "Ready. Load CSV/TXT from Files menu / Gotovo. Zagruzite CSV/TXT");
    assert_eq!(c.model.series.len(), 1);
}

#[test]
fn add_series_defaults_and_undo() {
    let mut c = loaded();
    c.dispatch(Action::AddSeries { name: " ".to_string(), x_column: String::new(), y_column: "b".to_string() })
        .unwrap();
    assert_eq!(c.model.series.len(), 2);
    let s = &c.model.series[1];
    assert_eq!(s.id, SeriesId(2));
    assert_eq!(s.name, "Series 2");
    assert_eq!(s.x_column, "t");
    assert_eq!(s.y_column, "b");
    assert_eq!((s.style.color.r, s.style.color.g, s.style.color.b), (133, 153, 0));
    assert_eq!(s.style.line_style, LineStyle::Solid);
    assert!(s.style.marker.is_none());
    assert!(s.visible);
    c.dispatch(Action::AddSeries { name: "mine".to_string(), x_column: "a".to_string(), y_column: String::new() })
        .unwrap();
    assert_eq!(c.model.series[2].id, SeriesId(3));
    assert_eq!(c.model.series[2].name, "mine");
    assert_eq!(c.model.series[2].style.color.r, 203);
    c.dispatch(Action::Undo).unwrap();
    assert_eq!(c.model.series.len(), 2);
    c.dispatch(Action::Redo).unwrap();
    assert_eq!(c.model.series.len(), 3);
    assert_eq!(c.model.series[2].name, "mine");
    let e = c
        .dispatch(Action::AddSeries { name: String::new(), x_column: "nope".to_string(), y_column: String::new() })
        .unwrap_err();
    assert!(matches!(e, ControllerError::ColumnNotFound(ref n) if n == "nope"));
}

#[test]
fn remove_series_rules() {
    let mut c = loaded();
    let e = c.dispatch(Action::RemoveSeries { series_id: SeriesId(1) }).unwrap_err();
    assert!(matches!(e, ControllerError::CannotRemoveLastSeries));
    assert_eq!(message(&c), "Cannot remove last series / Nelyzya udalit poslednyuyu seriyu");
    c.dispatch(Action::AddSeries { name: String::new(), x_column: String::new(), y_column: String::new() })
        .unwrap();
    let e = c.dispatch(Action::RemoveSeries { series_id: SeriesId(9) }).unwrap_err();
    assert!(matches!(e, ControllerError::SeriesNotFound(SeriesId(9))));
    assert_eq!(message(&c), "Series SeriesId(9) not found / Seriya ne naydena");
    c.dispatch(Action::RemoveSeries { series_id: SeriesId(1) }).unwrap();
    assert_eq!(c.model.series.len(), 1);
    assert_eq!(c.model.series[0].id, SeriesId(2));
    c.dispatch(Action::Undo).unwrap();
    assert_eq!(c.model.series.len(), 2);
    assert_eq!(c.model.series[0].id, SeriesId(1));
    assert_eq!(c.model.series[0].x_column, "t");
}

#[test]
fn series_edits() {
    let mut c = loaded();
    let id = SeriesId(1);
    c.dispatch(Action::RenameSeries { series_id: id, name: " raw ".to_string() }).unwrap();
    assert_eq!(c.model.series[0].name, " raw ");
    c.dispatch(Action::SetSeriesVisibility { series_id: id, visible: false }).unwrap();
    assert!(!c.model.series[0].visible);
    c.dispatch(Action::SetSeriesXColumn { series_id: id, x_column: "b".to_string() }).unwrap();
    c.dispatch(Action::SetSeriesYColumn { series_id: id, y_column: "t".to_string() }).unwrap();
    assert_eq!(c.model.series[0].x_column, "b");
    assert_eq!(c.model.series[0].y_column, "t");
    c.dispatch(Action::SetSeriesColor { series_id: id, color: Color { r: 1, g: 1, b: 1, a: 1 } }).unwrap();
    assert_eq!(c.model.series[0].style.color.r, 1);
    c.dispatch(Action::SetSeriesLineWidth { series_id: id, width: real32(3.5) }).unwrap();
    assert_eq!(c.model.series[0].style.line_width.bits, 3.5f32.to_bits());
    c.dispatch(Action::SetSeriesLineStyle { series_id: id, line_style: LineStyle::Dotted }).unwrap();
    assert_eq!(c.model.series[0].style.line_style, LineStyle::Dotted);
    c.dispatch(Action::SetSeriesMarker { series_id: id, marker: Some(MarkerShape::Cross), size: real32(4.0) })
        .unwrap();
    let m = c.model.series[0].style.marker.as_ref().unwrap();
    assert_eq!(m.shape, MarkerShape::Cross);
    assert_eq!(m.size.bits, 4.0f32.to_bits());
    assert_eq!(c.undo_stack.len(), 9);
    for _ in 0..8 {
        c.dispatch(Action::Undo).unwrap();
    }
    let s = &c.model.series[0];
    assert_eq!(s.name, "Series 1");
    assert!(s.visible);
    assert_eq!(s.x_column, "t");
    assert_eq!(s.y_column, "a");
    assert_eq!(s.style.color.r, 220);
    assert_eq!(s.style.line_width.bits, 2.0f32.to_bits());
    assert_eq!(s.style.line_style, LineStyle::Solid);
    assert!(s.style.marker.is_none());
}

#[test]
fn series_edit_failures_keep_notification() {
    let mut c = loaded();
    let e = c.dispatch(Action::RenameSeries { series_id: SeriesId(5), name: "n".to_string() }).unwrap_err();
    assert!(matches!(e, ControllerError::SeriesNotFound(SeriesId(5))));
    assert_eq!(message(&c), "Updated / Obnovleno");
    let e = c.dispatch(Action::SetSeriesXColumn { series_id: SeriesId(1), x_column: "zz".to_string() }).unwrap_err();
    assert!(matches!(e, ControllerError::ColumnNotFound(ref n) if n == "zz"));
    let e = c.dispatch(Action::SetSeriesLineWidth { series_id: SeriesId(1), width: real32(0.0) }).unwrap_err();
    assert!(matches!(e, ControllerError::InvalidLineWidth(_)));
    assert_eq!(message(&c), "Invalid line width: 0 / Nekorrektnaya tolshchina linii");
    let e = c.dispatch(Action::SetSeriesLineWidth { series_id: SeriesId(1), width: real32(-2.0) }).unwrap_err();
    assert!(matches!(e, ControllerError::InvalidLineWidth(_)));
    let e = c.dispatch(Action::SetSeriesLineWidth { series_id: SeriesId(1), width: real32(f32::NAN) }).unwrap_err();
    assert!(matches!(e, ControllerError::InvalidLineWidth(_)));
    let mut fresh = PlotController::new();
    let e = fresh.dispatch(Action::SetSeriesYColumn { series_id: SeriesId(1), y_column: "a".to_string() }).unwrap_err();
    assert!(matches!(e, ControllerError::NoDataLoaded));
}

#[test]
fn empty_history_undo_and_redo() {
    let mut c = PlotController::new();
    c.dispatch(Action::Undo).unwrap();
    assert_eq!(message(&c), "Updated / Obnovleno");
    c.dispatch(Action::Redo).unwrap();
    assert_eq!(c.model.layout.title, "Plot");
}

#[test]
fn new_edit_clears_redo() {
    let mut c = PlotController::new();
    c.dispatch(Action::SetLayoutMargin(1)).unwrap();
    c.dispatch(Action::SetLayoutMargin(2)).unwrap();
    c.dispatch(Action::Undo).unwrap();
    assert_eq!(c.redo_stack.len(), 1);
    c.dispatch(Action::SetLayoutMargin(3)).unwrap();
    assert!(c.redo_stack.is_empty());
    assert_eq!(c.undo_stack.len(), 2);
    c.dispatch(Action::Undo).unwrap();
    c.dispatch(Action::Undo).unwrap();
    assert_eq!(c.model.layout.margin, 8);
}

#[test]
fn reset_is_not_supported() {
    let mut c = PlotController::new();
    let e = c.dispatch(Action::ResetPlot).unwrap_err();
    assert!(matches!(e, ControllerError::UnsupportedAction("ResetPlot")));
    assert_eq!(message(&c), "Action is not implemented yet: ResetPlot / Deystvie poka ne realizovano");
}

#[test]
fn export_outcome_is_reported() {
    let mut c = loaded();
    let e = c
        .dispatch(Action::RequestSaveAs {
            path: "out.png".to_string(),
            format: ImageFormat::Png,
            size: ImageSize { width: 10, height: 10 },
            outcome: Err(ControllerError::ExportFailed("disk full".to_string())),
        })
        .unwrap_err();
    assert!(matches!(e, ControllerError::ExportFailed(_)));
    assert_eq!(message(&c), "Updated / Obnovleno");
    c.dispatch(Action::SetLayoutMargin(5)).unwrap();
    c.dispatch(Action::RequestSaveAs {
        path: "out.svg".to_string(),
        format: ImageFormat::Svg,
        size: ImageSize { width: 10, height: 10 },
        outcome: Ok(()),
    })
    .unwrap();
    assert_eq!(message(&c), "Updated / Obnovleno");
    assert_eq!(c.undo_stack.len(), 2);
}

#[test]
fn error_messages() {
    assert_eq!(ControllerError::ColumnNotFound("z".to_string()).message(), "Column not found: z / Stolbets ne naiden");
    assert_eq!(ControllerError::ExportFailed("e".to_string()).message(), "Failed to export: e / Ne udalos sohranit grafik");
    assert_eq!(ControllerError::NoDataLoaded.message(), "No data loaded / Dannye ne zagruzheny");
    assert_eq!(
        ControllerError::InvalidLineWidth(real32(-1.5)).message(),
        "Invalid line width: -1.5 / Nekorrektnaya tolshchina linii"
    );
}

struct Host;

impl DataSource for Host {
    fn column(&self, name: &str) -> Option<Vec<u64>> {
        match name {
            "x" => Some(vec![1, 2, 3]),
            "y" => Some(vec![4, 5]),
            _ => None,
        }
    }
    fn column_names(&self) -> Vec<String> {
        vec!["x".to_string(), "y".to_string()]
    }
    fn len(&self) -> usize {
        3
    }
}

#[test]
fn load_from_host_source() {
    let mut c = PlotController::new();
    c.load_from_data_source(&Host).unwrap();
    assert_eq!(c.available_columns(), vec!["x", "y"]);
    assert_eq!(message(&c), "Data imported / Dannye zagruzheny");
    assert_eq!(c.points_for_series(SeriesId(1)).unwrap(), vec![(1, 4), (2, 5)]);
    let t = DataTable { columns: vec![ColumnData { name: "only".to_string(), values: vec![1] }], row_count: 1 };
    let mut c = PlotController::new();
    let e = c.load_from_data_source(&t).unwrap_err();
    assert!(matches!(e, ControllerError::DataLoadFailed(ref m) if m == "Need at least two numeric columns"));
    assert!(!c.has_data());
}

#[test]
fn load_from_table_source_then_add_series() {
    let src = DataTable {
        columns: vec![
            ColumnData { name: "x".to_string(), values: vec![0.0f64.to_bits(), 1.0f64.to_bits()] },
            ColumnData { name: "sin(x)".to_string(), values: vec![0.0f64.to_bits(), 0.5f64.to_bits()] },
            ColumnData { name: "cos(x/2)".to_string(), values: vec![1.0f64.to_bits(), 0.9f64.to_bits()] },
        ],
        row_count: 2,
    };
    let mut c = PlotController::new();
    c.load_from_data_source(&src).unwrap();
    assert!(c.has_data());
    assert_eq!(c.available_columns(), vec!["x", "sin(x)", "cos(x/2)"]);
    assert_eq!(c.model.series.len(), 1);
    assert_eq!(c.model.series[0].x_column, "x");
    assert_eq!(c.model.series[0].y_column, "sin(x)");
    assert_eq!(
        c.points_for_series(SeriesId(1)).unwrap(),
        vec![(0.0f64.to_bits(), 0.0f64.to_bits()), (1.0f64.to_bits(), 0.5f64.to_bits())]
    );
    c.dispatch(Action::AddSeries { name: String::new(), x_column: String::new(), y_column: String::new() })
        .unwrap();
    let s = &c.model.series[1];
    assert_eq!((s.id, s.name.as_str(), s.x_column.as_str(), s.y_column.as_str()), (SeriesId(2), "Series 2", "x", "sin(x)"));
}

fn assert_fresh_ids(c: &PlotController) {
    let ids: Vec<u64> = c.model.series.iter().map(|s| s.id.0).collect();
    for (i, a) in ids.iter().enumerate() {
        assert!(*a < c.next_series_id());
        for b in &ids[i + 1..] {
            assert_ne!(a, b);
        }
    }
}

#[test]
fn series_ids_stay_distinct_through_history() {
    let mut c = loaded();
    let add = || Action::AddSeries { name: String::new(), x_column: String::new(), y_column: String::new() };
    c.dispatch(add()).unwrap();
    c.dispatch(add()).unwrap();
    assert_fresh_ids(&c);
    c.dispatch(Action::RemoveSeries { series_id: SeriesId(2) }).unwrap();
    assert_fresh_ids(&c);
    c.dispatch(Action::Undo).unwrap();
    assert_fresh_ids(&c);
    c.dispatch(Action::Undo).unwrap();
    c.dispatch(Action::Undo).unwrap();
    assert_eq!(c.model.series.len(), 1);
    c.dispatch(add()).unwrap();
    assert_eq!(c.model.series[1].id, SeriesId(4));
    assert_fresh_ids(&c);
    c.dispatch(Action::Undo).unwrap();
    c.dispatch(Action::Redo).unwrap();
    assert_fresh_ids(&c);
    assert_eq!(c.next_series_id(), 5);
}

#[test]
fn limits_hold_through_history() {
    let mut c = loaded();
    c.dispatch(Action::SetLegendFontSize(3)).unwrap();
    c.dispatch(Action::SetAxisLabelFontSize { axis: AxisKind::X, font_size: 0 }).unwrap();
    c.dispatch(Action::SetAxisRange {
        axis: AxisKind::Y,
        range: RangePolicy::Manual { min: real64(-2.0), max: real64(5.0) },
    })
    .unwrap();
    assert!(c
        .dispatch(Action::SetAxisRange {
            axis: AxisKind::Y,
            range: RangePolicy::Manual { min: real64(5.0), max: real64(5.0) },
        })
        .is_err());
    assert!(c
        .dispatch(Action::SetSeriesLineWidth { series_id: SeriesId(1), width: real32(0.0) })
        .is_err());
    let check = |c: &PlotController| {
        assert!(c.model.legend.font_size >= 8);
        assert!(c.model.layout.title_font_size >= 8);
        for a in [&c.model.axes.x, &c.model.axes.y] {
            assert!(a.label_font_size >= 8 && a.axis_title_font_size >= 8);
            if let RangePolicy::Manual { min, max } = &a.range {
                assert!(f64::from_bits(max.bits) > f64::from_bits(min.bits));
            }
        }
        for s in &c.model.series {
            assert!(f32::from_bits(s.style.line_width.bits) > 0.0);
        }
    };
    check(&c);
    assert_eq!(c.model.legend.font_size, 8);
    for _ in 0..3 {
        c.dispatch(Action::Undo).unwrap();
        check(&c);
    }
    assert_eq!(c.model.legend.font_size, 16);
    for _ in 0..3 {
        c.dispatch(Action::Redo).unwrap();
        check(&c);
    }
    assert_eq!(c.model.axes.x.label_font_size, 8);
}
