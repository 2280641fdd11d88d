//! Carrying out what actions come to, as far as the compositor itself is concerned.
use vstd::prelude::*;

use crate::backend::TtyRequest;
use crate::input::keyboard::InputState;
use crate::input::plan::Command;
use crate::niri::focus::KeyboardState;
use crate::niri::outputs::all_queued;
use crate::niri::redraw::{has_state, state_index, states_unique};
use crate::niri::{Niri, ScreenshotUi, State};

verus! {

broadcast use vstd::std_specs::hash::group_hash_axioms;

/// Whether all of a command concerns the compositor itself, so that nothing is left to be done.
pub open spec fn is_own(command: Command) -> bool {
    match command {
        Command::ClearOnDemandLayerFocus
        | Command::QueueRedrawAll
        | Command::QueueRedraw(_)
        | Command::ChangeVt(_)
        | Command::Suspend
        | Command::ClearSuppressedKeys
        | Command::DeactivateMonitors
        | Command::ActivateMonitors
        | Command::CloseScreenshotUi
        | Command::MoveScreenshotToOutput(_) => true,
        _ => false,
    }
}

/// Whether the outputs change as a command asks for.
pub open spec fn outputs_follow(before: Niri, after: Niri, command: Command) -> bool {
    let states = before.output_state@;
    after.output_state@ == (match command {
        Command::QueueRedrawAll => all_queued(states),
        Command::QueueRedraw(output) => if has_state(states, output) {
            states.update(
                state_index(states, output),
                states[state_index(states, output)].queued(),
            )
        } else {
            states
        },
        Command::ActivateMonitors => if before.monitors_active {
            states
        } else {
            all_queued(states)
        },
        _ => states,
    })
}

/// Whether the terminal is asked for what a command asks for, and for nothing else.
pub open spec fn backend_follows(before: State, after: State, command: Command) -> bool {
    match command {
        Command::ChangeVt(vt) => before.backend.asked(after.backend, TtyRequest::ChangeVt(vt)),
        Command::Suspend => before.backend.asked(after.backend, TtyRequest::Suspend),
        Command::DeactivateMonitors if before.niri.monitors_active => before.backend.asked(
            after.backend,
            TtyRequest::SetMonitorsActive(false),
        ),
        Command::ActivateMonitors if !before.niri.monitors_active => before.backend.asked(
            after.backend,
            TtyRequest::SetMonitorsActive(true),
        ),
        _ => after.backend == before.backend,
    }
}

impl State {
    /// Carries out a command that concerns the compositor itself. Returns any other one, which has to be
    /// carried out by whoever holds the windows, the clients and the screen.
    pub fn carry_out(&mut self, command: Command) -> (r: Option<Command>)
        requires
            states_unique(old(self).niri.output_state@),
        ensures
            r == (if is_own(command) {
                None
            } else {
                Some(command)
            }),
            ({
                let before = old(self).niri;
                let after = final(self).niri;
                after == (Niri {
                    keyboard: KeyboardState {
                        layer_shell_on_demand_focus: if command is ClearOnDemandLayerFocus {
                            None
                        } else {
                            before.keyboard.layer_shell_on_demand_focus
                        },
                        ..before.keyboard
                    },
                    input: InputState {
                        suppressed_keys: after.input.suppressed_keys,
                        ..before.input
                    },
                    monitors_active: match command {
                        Command::DeactivateMonitors => false,
                        Command::ActivateMonitors => true,
                        _ => before.monitors_active,
                    },
                    screenshot_ui: match (command, before.screenshot_ui) {
                        (Command::CloseScreenshotUi, _) => ScreenshotUi::Closed,
                        (
                            Command::MoveScreenshotToOutput(output),
                            ScreenshotUi::Open { path, .. },
                        ) => ScreenshotUi::Open { selection_output: output, path },
                        _ => before.screenshot_ui,
                    },
                    output_state: after.output_state,
                    ..before
                })
            }),
            final(self).niri.input.suppressed_keys@ == (if command is ClearSuppressedKeys {
                Set::<u32>::empty()
            } else {
                old(self).niri.input.suppressed_keys@
            }),
            outputs_follow(old(self).niri, final(self).niri, command),
            backend_follows(*old(self), *final(self), command),
    {
        match command {
            Command::ClearOnDemandLayerFocus => {
                self.niri.keyboard.layer_shell_on_demand_focus = None;
                None
            },
            Command::QueueRedrawAll => {
                self.niri.queue_redraw_all();
                None
            },
            Command::QueueRedraw(output) => {
                if self.niri.output_exists(output) {
                    self.niri.queue_redraw(output);
                }
                None
            },
            Command::ChangeVt(vt) => {
                self.backend.change_vt(vt);
                None
            },
            Command::Suspend => {
                self.backend.suspend();
                None
            },
            Command::ClearSuppressedKeys => {
                self.niri.input.suppressed_keys.clear();
                None
            },
            Command::DeactivateMonitors => {
                self.niri.deactivate_monitors(&mut self.backend);
                None
            },
            Command::ActivateMonitors => {
                self.niri.activate_monitors(&mut self.backend);
                None
            },
            Command::CloseScreenshotUi => {
                self.niri.screenshot_ui = ScreenshotUi::Closed;
                None
            },
            Command::MoveScreenshotToOutput(output) => {
                let mut ui = ScreenshotUi::Closed;
                std::mem::swap(&mut ui, &mut self.niri.screenshot_ui);
                if let ScreenshotUi::Open { path, .. } = ui {
                    self.niri.screenshot_ui = ScreenshotUi::Open { selection_output: output, path };
                }
                None
            },
            other => Some(other),
        }
    }
}

} // verus!
