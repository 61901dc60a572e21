//! Core logic of a small tray task tracker: task lists, titles, settings,
//! panel placement, calendar boundaries and ordering of active tasks.

pub mod text;
pub mod title;
pub mod task_list;
pub mod panel_layout;
pub mod settings;
pub mod calendar;
pub mod ordering;
pub mod tray;
pub mod schema;
