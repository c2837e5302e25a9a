//! The desktop front end's rules: its settings, the page it shows, the
//! check of the task input and the name of its log file.

pub mod config;
pub mod context;
pub mod logs;
pub mod pages;
