//! Plot editor core: the document model, the numeric data table with its text
//! parser, and the controller that validates user intents, records them as
//! undoable commands and keeps the undo/redo history.
use vstd::prelude::*;

pub mod controller;
pub mod model;
pub mod text;
pub mod view;

verus! {

} // verus!
