//! Interaction logic shared by the command-line and terminal interfaces:
//! default step selection, input validation and the step list model.
pub mod cli;
pub mod popup;
pub mod tui;
