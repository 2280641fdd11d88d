//! Decision logic of a scrollable-tiling Wayland compositor.
pub mod backend;
pub mod config;
pub mod geometry;
pub mod input;
pub mod layout;
pub mod niri;
pub mod render_helpers;
pub mod spike;
pub mod utils;
