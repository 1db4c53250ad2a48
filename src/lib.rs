//! Session transport for a desktop workspace: a registry of pseudo-terminal
//! sessions keyed by segment id, the text framing of their output, and the
//! small decisions around launching applications and browser surfaces.

pub mod accessibility;
pub mod app_info;
pub mod launcher;
pub mod laws;
pub mod model;
pub mod models;
pub mod navigation;
pub mod process_table;
pub mod shell;
pub mod terminal;
mod text;
pub mod workspace_apps;
