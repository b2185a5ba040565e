# kithe_plot

A small, embeddable plot editor. The editing logic is a library verified with
Verus; the window, file dialogs, file reading and image export are a thin egui
program around it.

Dataflow: `View -> Action -> Controller -> Model`; the view re-renders from the
model after every action.

## Layout

- `src/` — the verified library.
  - `text.rs` — trimming and splitting of text by characters.
  - `model/` — plot configuration, series, the numeric data table and the parser
    of delimited text (CSV / whitespace-separated). Floating-point values are held
    by their IEEE-754 bit patterns (`Real64`, `Real32`, `u64` data values).
  - `controller/` — actions, commands with undo/redo, and the controller. Each
    action's effect is stated as a transition on the controller's view
    (`transition.rs`); `laws.rs` and `command.rs` prove what undo and redo give
    back and what a refused action leaves alone; `identity.rs` proves that series
    identifiers stay distinct in every document that the history can lead to;
    `limits.rs` proves that font sizes, manual ranges and line widths stay within
    the limits that the controller enforces, through undo and redo too.
  - `view/labels.rs` — the texts that the view shows for enum values.
- `app/` — the egui program: drawing, file dialogs, reading files, plotting with
  `egui_plotter` and exporting PNG/SVG with `plotters`. It hands the library plain
  values (the parsed table, the export outcome) inside actions.
- `tests/` — tests of the library.
