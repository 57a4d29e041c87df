//! A terminal to-do list: checkbox items, keyboard-driven selection that skips
//! hidden items, a small interaction state machine and a line-based file format.
mod text;
pub mod todo;
pub mod app;
pub mod ui_state;
pub mod list_state;
pub mod add_state;
pub mod delete_state;
pub mod config;
pub mod storage;
