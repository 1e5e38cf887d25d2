//! Window lookup logic: the window tree, its searches and lazy loading,
//! the filter, the hotkey and command-line handling, and the texts the finder shows.
pub mod text;
pub mod window_info;
pub mod ui;
pub mod windows_api;
pub mod clipboard;
pub mod hotkey;
pub mod cli;
pub mod finder;
pub mod icon;
