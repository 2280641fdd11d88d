//! The layout of windows.
pub mod opening_window;
