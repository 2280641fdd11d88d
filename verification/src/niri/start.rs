//! How the compositor starts.
use std::collections::{HashMap, HashSet};

use vstd::prelude::*;

use crate::input::binds::{mods_with_mouse_binds, mods_with_wheel_binds, Binds, ModKey};
use crate::input::keyboard::InputState;
use crate::niri::focus::{KeyboardFocus, KeyboardState};
use crate::niri::lock::LockState;
use crate::niri::pointer::{PointerState, PointerVisibility};
use crate::niri::redraw::states_unique;
use crate::niri::reload::mods_match;
use crate::niri::scene::PointContents;
use crate::niri::space::OutputSpace;
use crate::niri::{Effect, Niri, ScreenshotUi};

verus! {

broadcast use vstd::std_specs::hash::group_hash_axioms;

impl Niri {
    /// The compositor as it starts: without outputs, unlocked, with the overview of the hotkeys shown
    /// unless that is turned off, and with the pointer soon to hide if that is configured.
    ///
    /// `token` names the timer for that, which is to be started if one is.
    pub fn new(
        mod_key: ModKey,
        binds: &Binds,
        skip_hotkey_overlay: bool,
        hide_after_inactive_ms: Option<u32>,
        token: u64,
    ) -> (r: (Niri, Vec<Effect>))
        ensures
            ({
                let niri = r.0;
                &&& niri.global_space.wf()
                &&& niri.global_space.outputs@.len() == 0
                &&& niri.global_space.sorted@.len() == 0
                &&& niri.output_state@.len() == 0
                &&& states_unique(niri.output_state@)
                &&& niri.monitors_active
                &&& niri.lock_state == LockState::Unlocked
                &&& !niri.locked()
                &&& niri.screenshot_ui is Closed
                &&& !niri.exit_confirm_dialog_open
                &&& niri.pointer == (PointerState {
                    visibility: PointerVisibility::Visible,
                    contents: PointContents::nothing(),
                    inactivity_timer: if hide_after_inactive_ms is Some {
                        Some(token)
                    } else {
                        None
                    },
                    inactivity_timer_got_reset: hide_after_inactive_ms is Some,
                    inside_hot_corner: false,
                    notified_activity_this_iteration: false,
                })
                &&& niri.keyboard.focus == (KeyboardFocus::Layout { surface: None })
                &&& niri.keyboard.layer_shell_on_demand_focus is None
                &&& niri.keyboard.popup_grab is None
                &&& niri.surface_layouts@ == Map::<u64, u32>::empty()
                &&& niri.input.suppressed_keys@ == Set::<u32>::empty()
                &&& niri.input.suppressed_buttons@ == Set::<u32>::empty()
                &&& niri.input.bind_cooldown_timers@.len() == 0
                &&& niri.input.bind_repeat_timer is None
                &&& mods_match(niri.input, mod_key, binds.0@)
                &&& niri.input.hotkey_overlay_open == !skip_hotkey_overlay
                &&& niri.input.devices@ == Set::<u64>::empty()
                &&& !niri.ipc_outputs_changed
                &&& niri.dnd_icon is None
                &&& niri.is_at_startup
                &&& !niri.config_error_shown
            }),
            r.1@ == (match hide_after_inactive_ms {
                Some(timeout_ms) => seq![Effect::StartInactivityTimer { token, timeout_ms }],
                None => Seq::empty(),
            }),
    {
        let input = InputState {
            suppressed_keys: HashSet::new(),
            suppressed_buttons: HashSet::new(),
            bind_cooldown_timers: Vec::new(),
            bind_repeat_timer: None,
            mods_with_mouse_binds: mods_with_mouse_binds(mod_key, binds),
            mods_with_wheel_binds: mods_with_wheel_binds(mod_key, binds),
            hotkey_overlay_open: !skip_hotkey_overlay,
            devices: HashSet::new(),
        };
        let mut niri = Niri {
            global_space: OutputSpace { outputs: Vec::new(), sorted: Vec::new() },
            output_state: Vec::new(),
            monitors_active: true,
            lock_state: LockState::Unlocked,
            screenshot_ui: ScreenshotUi::Closed,
            exit_confirm_dialog_open: false,
            pointer: PointerState {
                visibility: PointerVisibility::Visible,
                contents: PointContents::empty(),
                inactivity_timer: None,
                inactivity_timer_got_reset: false,
                inside_hot_corner: false,
                notified_activity_this_iteration: false,
            },
            keyboard: KeyboardState {
                focus: KeyboardFocus::Layout { surface: None },
                layer_shell_on_demand_focus: None,
                popup_grab: None,
            },
            input,
            surface_layouts: HashMap::new(),
            ipc_outputs_changed: false,
            dnd_icon: None,
            is_at_startup: true,
            config_error_shown: false,
        };
        let effects = niri.reset_pointer_inactivity_timer(hide_after_inactive_ms, token);
        (niri, effects)
    }
}

} // verus!
