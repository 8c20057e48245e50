//! Decision core of a command-line dialog utility: the form model of a custom
//! dialog, the rules that decide when the form may close, the response record
//! it reports, and the progress feed that drives a progress bar.

pub mod cli;
pub mod custom_dialog;
pub mod date;
pub mod gui;
pub mod json;
pub mod listener;
pub mod loader;
pub mod pattern;
pub mod response;
pub mod text;
