//! View-side text: the labels shown for the choices of the editor's controls.
pub mod labels;
