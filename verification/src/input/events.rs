//! Input events of any sort: what all of them do before and after they are handled.
use vstd::prelude::*;

use crate::backend::TtyRequest;
use crate::input::keyboard::InputState;
use crate::input::libinput::{apply_libinput_settings, device_settings, DeviceSetting, InputDevice, Mouse};
use crate::niri::outputs::all_queued;
use crate::niri::{Effect, Niri, State};

verus! {

broadcast use vstd::std_specs::hash::group_hash_axioms;

/// The sorts of input events.
#[derive(Clone, Copy, Debug, PartialEq, Eq, Structural)]
pub enum InputEvent {
    DeviceAdded,
    DeviceRemoved,
    Keyboard { pressed: bool },
    PointerMotion,
    PointerMotionAbsolute,
    PointerButton { pressed: bool },
    PointerAxis,
    GestureSwipeBegin,
    GestureSwipeUpdate,
    GestureSwipeEnd,
    GesturePinchBegin,
    GesturePinchUpdate,
    GesturePinchEnd,
    GestureHoldBegin,
    GestureHoldEnd,
    TouchDown,
    TouchMotion,
    TouchUp,
    TouchCancel,
    TouchFrame,
    SwitchToggle,
    TabletToolAxis,
    TabletToolProximity,
    TabletToolTip,
    TabletToolButton,
    Special,
}

impl InputEvent {
    /// Whether a key or a mouse button goes down.
    pub open spec fn is_press(self) -> bool {
        self == (InputEvent::Keyboard { pressed: true }) || self == (InputEvent::PointerButton {
            pressed: true,
        })
    }

    /// Whether the event wakes the monitors.
    pub open spec fn wakes(self) -> bool {
        self.dismisses() || self is PointerMotion || self is PointerMotionAbsolute
            || self is GestureHoldBegin
    }

    /// Whether the event makes dialogs go away.
    pub open spec fn dismisses(self) -> bool {
        self.is_press() || self is PointerAxis || self is GestureSwipeBegin
            || self is GesturePinchBegin || self is TouchDown || self is TouchMotion
    }

    /// Whether the event comes from the user.
    pub open spec fn is_activity(self) -> bool {
        !(self is DeviceAdded || self is DeviceRemoved)
    }

    /// Whether the event comes from the pointer.
    pub open spec fn uses_pointer(self) -> bool {
        self is PointerAxis || self is PointerButton || self is PointerMotion
            || self is PointerMotionAbsolute
    }
}

/// Whether an event wakes the monitors. Devices that come and go, releases and the ends of gestures
/// do not.
pub fn should_activate_monitors(event: &InputEvent) -> (r: bool)
    ensures
        r == event.wakes(),
{
    match event {
        InputEvent::Keyboard { pressed } if *pressed => true,
        InputEvent::PointerButton { pressed } if *pressed => true,
        InputEvent::PointerMotion | InputEvent::PointerMotionAbsolute | InputEvent::PointerAxis
        | InputEvent::GestureSwipeBegin | InputEvent::GesturePinchBegin
        | InputEvent::GestureHoldBegin | InputEvent::TouchDown | InputEvent::TouchMotion => true,
        _ => false,
    }
}

/// Whether an event hides the overview of the hotkeys.
pub fn should_hide_hotkey_overlay(event: &InputEvent) -> (r: bool)
    ensures
        r == event.dismisses(),
{
    match event {
        InputEvent::Keyboard { pressed } if *pressed => true,
        InputEvent::PointerButton { pressed } if *pressed => true,
        InputEvent::PointerAxis | InputEvent::GestureSwipeBegin | InputEvent::GesturePinchBegin
        | InputEvent::TouchDown | InputEvent::TouchMotion => true,
        _ => false,
    }
}

/// Whether an event hides the dialog that asks before quitting.
pub fn should_hide_exit_confirm_dialog(event: &InputEvent) -> (r: bool)
    ensures
        r == event.dismisses(),
{
    match event {
        InputEvent::Keyboard { pressed } if *pressed => true,
        InputEvent::PointerButton { pressed } if *pressed => true,
        InputEvent::PointerAxis | InputEvent::GestureSwipeBegin | InputEvent::GesturePinchBegin
        | InputEvent::TouchDown | InputEvent::TouchMotion => true,
        _ => false,
    }
}

/// Whether an event shows that the user is not idle.
pub fn should_notify_activity(event: &InputEvent) -> (r: bool)
    ensures
        r == event.is_activity(),
{
    !matches!(event, InputEvent::DeviceAdded | InputEvent::DeviceRemoved)
}

/// Whether an event keeps the pointer from hiding.
pub fn should_reset_pointer_inactivity_timer(event: &InputEvent) -> (r: bool)
    ensures
        r == event.uses_pointer(),
{
    matches!(
        event,
        InputEvent::PointerAxis | InputEvent::PointerButton { .. } | InputEvent::PointerMotion
        | InputEvent::PointerMotionAbsolute
    )
}

/// What is found before an input event is handled.
#[derive(Debug)]
pub struct InputStart {
    /// Whether those that wait for the user to be idle have to be told.
    pub notify_idle: bool,
    pub effects: Vec<Effect>,
    /// Whether the overview of the hotkeys goes away afterwards.
    pub hide_hotkey_overlay: bool,
    /// Whether the dialog that asks before quitting goes away afterwards.
    pub hide_exit_confirm_dialog: bool,
}

/// Whether an event counts as activity: any does that comes from the user, but while the monitors are
/// off only one that wakes them.
pub open spec fn counts_as_activity(niri: Niri, event: InputEvent) -> bool {
    if niri.monitors_active {
        event.is_activity()
    } else {
        event.wakes()
    }
}

/// Whether the timer that hides the pointer is started anew.
pub open spec fn restarts_timer(niri: Niri, event: InputEvent) -> bool {
    event.uses_pointer() && !niri.pointer.inactivity_timer_got_reset
}

impl State {
    /// Does what every input event does before it is handled: wakes the monitors, notes the activity
    /// and keeps the pointer from hiding.
    ///
    /// `token` names the timer to start, if one is started.
    pub fn process_input_event(
        &mut self,
        event: &InputEvent,
        hide_after_inactive_ms: Option<u32>,
        token: u64,
    ) -> (r: InputStart)
        ensures
            ({
                let before = old(self).niri;
                let after = final(self).niri;
                let active = counts_as_activity(before, *event);
                let wakes = !before.monitors_active && event.wakes();
                let restarts = restarts_timer(before, *event);
                &&& r.notify_idle == (active && !before.pointer.notified_activity_this_iteration)
                &&& r.hide_hotkey_overlay == (before.input.hotkey_overlay_open && event.dismisses())
                &&& r.hide_exit_confirm_dialog == (before.exit_confirm_dialog_open
                    && event.dismisses())
                &&& r.effects@ == (if restarts {
                    (match before.pointer.inactivity_timer {
                        Some(running) => seq![Effect::RemoveTimer(running)],
                        None => Seq::empty(),
                    }) + (match hide_after_inactive_ms {
                        Some(timeout_ms) => seq![Effect::StartInactivityTimer { token, timeout_ms }],
                        None => Seq::empty(),
                    })
                } else {
                    Seq::empty()
                })
                &&& after == (Niri {
                    monitors_active: before.monitors_active || wakes,
                    output_state: after.output_state,
                    pointer: crate::niri::pointer::PointerState {
                        notified_activity_this_iteration:
                            before.pointer.notified_activity_this_iteration || active,
                        inactivity_timer: if !restarts {
                            before.pointer.inactivity_timer
                        } else if hide_after_inactive_ms is Some {
                            Some(token)
                        } else {
                            None
                        },
                        inactivity_timer_got_reset: before.pointer.inactivity_timer_got_reset
                            || restarts && hide_after_inactive_ms is Some,
                        ..before.pointer
                    },
                    ..before
                })
                &&& after.output_state@ == (if wakes {
                    all_queued(before.output_state@)
                } else {
                    before.output_state@
                })
                &&& if wakes {
                    old(self).backend.asked(final(self).backend, TtyRequest::SetMonitorsActive(true))
                } else {
                    final(self).backend == old(self).backend
                }
            }),
    {
        let mut notify_idle = false;
        let mut effects: Vec<Effect> = Vec::new();
        if self.niri.monitors_active {
            if should_notify_activity(event) {
                notify_idle = self.niri.notify_activity();
            }
        } else {
            if should_activate_monitors(event) {
                self.niri.activate_monitors(&mut self.backend);
                notify_idle = self.niri.notify_activity();
            }
        }
        if should_reset_pointer_inactivity_timer(event) {
            effects = self.niri.reset_pointer_inactivity_timer(hide_after_inactive_ms, token);
        }
        let hide_hotkey_overlay = self.niri.input.hotkey_overlay_open && should_hide_hotkey_overlay(
            event,
        );
        let hide_exit_confirm_dialog = self.niri.exit_confirm_dialog_open
            && should_hide_exit_confirm_dialog(event);
        InputStart { notify_idle, effects, hide_hotkey_overlay, hide_exit_confirm_dialog }
    }

    /// Does what every input event does after it was handled: hides what was open before the event.
    /// What the event itself has opened stays.
    pub fn finish_input_event(&mut self, start: &InputStart)
        ensures
            ({
                let before = old(self).niri;
                let after = final(self).niri;
                let hides_overlay = start.hide_hotkey_overlay && before.input.hotkey_overlay_open;
                let hides_dialog = start.hide_exit_confirm_dialog && before.exit_confirm_dialog_open;
                &&& after == (Niri {
                    input: InputState {
                        hotkey_overlay_open: before.input.hotkey_overlay_open && !hides_overlay,
                        ..before.input
                    },
                    exit_confirm_dialog_open: before.exit_confirm_dialog_open && !hides_dialog,
                    output_state: after.output_state,
                    ..before
                })
                &&& after.output_state@ == (if hides_overlay || hides_dialog {
                    all_queued(before.output_state@)
                } else {
                    before.output_state@
                })
                &&& final(self).backend == old(self).backend
            }),
    {
        let mut redraw = false;
        if start.hide_hotkey_overlay && self.niri.input.hotkey_overlay_open {
            self.niri.input.hotkey_overlay_open = false;
            redraw = true;
        }
        if start.hide_exit_confirm_dialog && self.niri.exit_confirm_dialog_open {
            self.niri.exit_confirm_dialog_open = false;
            redraw = true;
        }
        if redraw {
            self.niri.queue_redraw_all();
        }
    }

    /// Notes a device that has come. Returns whether its lights have to be set, and its settings.
    pub fn device_added(&mut self, id: u64, device: &InputDevice, config: &Mouse) -> (r: (
        bool,
        Vec<DeviceSetting>,
    ))
        ensures
            r.0 == device.is_keyboard,
            r.1@ == device_settings(*config, *device),
            final(self).niri.input.devices@ == old(self).niri.input.devices@.insert(id),
            *final(self) == (State {
                niri: Niri {
                    input: InputState {
                        devices: final(self).niri.input.devices,
                        ..old(self).niri.input
                    },
                    ..old(self).niri
                },
                ..*old(self)
            }),
    {
        self.niri.input.devices.insert(id);
        (device.is_keyboard, apply_libinput_settings(config, device))
    }

    /// Forgets a device that has gone.
    pub fn device_removed(&mut self, id: u64)
        ensures
            final(self).niri.input.devices@ == old(self).niri.input.devices@.remove(id),
            *final(self) == (State {
                niri: Niri {
                    input: InputState {
                        devices: final(self).niri.input.devices,
                        ..old(self).niri.input
                    },
                    ..old(self).niri
                },
                ..*old(self)
            }),
    {
        self.niri.input.devices.remove(&id);
    }
}

/// Whatever makes a dialog go away also wakes the monitors, and all that wakes them is activity.
pub proof fn law_waking_is_activity(event: InputEvent)
    ensures
        event.dismisses() ==> event.wakes(),
        event.wakes() ==> event.is_activity(),
{
}

/// Going down dismisses a dialog and wakes the monitors, moving the pointer only wakes them, and coming up
/// does neither.
pub proof fn law_what_events_do(event: InputEvent)
    ensures
        event == (InputEvent::Keyboard { pressed: true }) || event == (InputEvent::PointerButton {
            pressed: true,
        }) || event is TouchDown || event is PointerAxis ==> event.dismisses() && event.wakes(),
        event is PointerMotion || event is PointerMotionAbsolute ==> event.wakes()
            && !event.dismisses(),
        event == (InputEvent::Keyboard { pressed: false }) || event == (InputEvent::PointerButton {
            pressed: false,
        }) || event is TouchUp || event is DeviceAdded || event is DeviceRemoved ==> !event.wakes()
            && !event.dismisses(),
        event.dismisses() ==> event.wakes(),
        event.is_activity() == !(event is DeviceAdded || event is DeviceRemoved),
        event.uses_pointer() <==> event is PointerMotion || event is PointerMotionAbsolute
            || event is PointerButton || event is PointerAxis,
{
}

} // verus!
