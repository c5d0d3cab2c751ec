//! Verified editor and panel logic of the DNA OneCalc host user interface:
//! the formula editor's state, commands, overlay geometry and syntax
//! projection, and the view models that the panels render.
pub mod adapters;
pub mod services;
pub mod state;
pub mod text;
pub mod ui;
