//! The state of the compositor and the rules by which it changes.
pub mod cursor;
pub mod depth;
pub mod focus;
pub mod handlers;
pub mod lock;
pub mod output_config;
pub mod outputs;
pub mod placement;
pub mod pointer;
pub mod presentation;
pub mod redraw;
pub mod refresh;
pub mod reload;
pub mod scene;
pub mod screenshot;
pub mod space;
pub mod start;
pub mod under;

use std::collections::HashMap;

use vstd::prelude::*;

use crate::backend::Backend;
use crate::input::binds::Key;
use crate::input::keyboard::InputState;
use crate::niri::focus::KeyboardState;
use crate::niri::lock::{LockState, SessionLock};
use crate::niri::pointer::PointerState;
use crate::niri::redraw::OutputState;
use crate::niri::space::OutputSpace;

verus! {

/// Work that follows from a change of state and that the event loop or a client carries out.
#[derive(Clone, Copy, Debug, PartialEq, Eq, Structural)]
pub enum Effect {
    /// Take a timer out of the event loop.
    RemoveTimer(u64),
    /// Start the timer after which lock surfaces are no longer waited for.
    StartLockDeadline(u64),
    /// Tell a screen locker that the session is locked.
    ConfirmLock(SessionLock),
    /// Tell a screen locker that the session will not be locked.
    DenyLock(SessionLock),
    /// Start the timer that hides the pointer.
    StartInactivityTimer { token: u64, timeout_ms: u32 },
    /// Show the default cursor image.
    ResetCursorImage,
    /// Show a cross as the cursor image.
    ShowCrosshair,
    /// End what the pointer is busy with, such as dragging something.
    EndPointerGrab,
    /// Start the timer after which a bind has rested.
    StartBindCooldown { key: Key, ms: u64 },
    /// Start the timer that sets off a bind again, at first after a delay and then so many times a
    /// second.
    StartKeyRepeat { token: u64, delay_ms: u16, rate: u8 },
}

/// The screenshot selection.
#[derive(Clone, Debug)]
pub enum ScreenshotUi {
    Closed,
    /// A selection is being made on an output, to be saved at a path if one is given.
    Open { selection_output: u64, path: Option<String> },
}

/// The state of the compositor.
#[derive(Debug)]
pub struct Niri {
    /// All outputs at their global positions.
    pub global_space: OutputSpace,
    /// What is kept for every connected output.
    pub output_state: Vec<OutputState>,
    /// When false, the monitors are powered off.
    pub monitors_active: bool,
    pub lock_state: LockState,
    pub screenshot_ui: ScreenshotUi,
    pub exit_confirm_dialog_open: bool,
    pub pointer: PointerState,
    pub keyboard: KeyboardState,
    pub input: InputState,
    /// The keyboard layout that was last used on a surface.
    pub surface_layouts: HashMap<u64, u32>,
    /// Whether the outputs have to be reported on the control socket.
    pub ipc_outputs_changed: bool,
    /// The surface that follows the pointer as something is being dragged.
    pub dnd_icon: Option<u64>,
    /// Whether the compositor was started a short time ago.
    pub is_at_startup: bool,
    /// Whether it is shown that the configuration could not be loaded.
    pub config_error_shown: bool,
}

/// The compositor and what it runs on.
#[derive(Debug)]
pub struct State {
    pub backend: Backend,
    pub niri: Niri,
}

impl ScreenshotUi {
    /// Whether a selection is being made.
    pub fn is_open(&self) -> (r: bool)
        ensures
            r == (*self is Open),
    {
        matches!(self, ScreenshotUi::Open { .. })
    }
}

} // verus!
