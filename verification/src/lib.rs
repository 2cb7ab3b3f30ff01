//! A terminal command centre for Flutter projects: tab and list navigation,
//! the table of commands behind each entry, and the text shown on screen.

pub mod text;
pub mod state;
pub mod list;
pub mod app;
pub mod keys;
pub mod screen;
pub mod throbber;
pub mod vote;
pub mod laws;
pub mod layout;
