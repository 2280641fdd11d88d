//! How input turns into actions.
pub mod action;
pub mod binds;
pub mod carry;
pub mod clicks;
pub mod events;
pub mod grab;
pub mod keyboard;
pub mod keys;
pub mod libinput;
pub mod perform;
pub mod plan;
pub mod pointer;
pub mod same;
pub mod sense;
