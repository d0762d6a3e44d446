//! The board logic of a personal kanban task tracker.
pub mod text;
pub mod model;
pub mod app;
pub mod event;
pub mod theme;
pub mod ui;
pub mod keymap;
