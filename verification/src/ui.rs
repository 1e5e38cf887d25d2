//! The logic behind the finder's views.
pub mod tree_helper;
pub mod app_state;
pub mod locate_mode;
