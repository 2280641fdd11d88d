//! Keys: what becomes of a key event, and how binds rest and repeat.
use std::collections::HashSet;

use vstd::prelude::*;

use crate::input::action::{allowed_when_locked, works_when_locked, Action};
use crate::input::binds::{
    effective_bind, found_bind, hardcoded_overview_bind, is_intercepted, overview_bind,
    should_intercept_key, suppressed_after, Bind, FilterResult, FoundBind, Key, ModKey, Modifiers,
    ModifiersState, KEY_ESCAPE, KEY_RETURN, KEY_SPACE,
};
use crate::input::grab::PointerGrab;
use crate::input::perform::action_plan;
use crate::input::plan::{ActionContext, Plan};
use crate::niri::focus::KeyboardFocus;
use crate::niri::pointer::PointerState;
use crate::niri::pointer::PointerVisibility;
use crate::niri::{Effect, Niri, State};

verus! {

broadcast use vstd::std_specs::hash::group_hash_axioms;

/// What is kept from one input event to the next.
#[derive(Debug)]
pub struct InputState {
    /// The keys whose release is to be swallowed, because their press was.
    pub suppressed_keys: HashSet<u32>,
    /// The mouse buttons whose release is to be swallowed.
    pub suppressed_buttons: HashSet<u32>,
    /// The keys of the binds that rest, each once.
    pub bind_cooldown_timers: Vec<Key>,
    /// The timer that repeats a bind.
    pub bind_repeat_timer: Option<u64>,
    /// All sets of modifiers with which a mouse button can set off a bind.
    pub mods_with_mouse_binds: Vec<Modifiers>,
    /// All sets of modifiers with which the wheel can set off a bind.
    pub mods_with_wheel_binds: Vec<Modifiers>,
    pub hotkey_overlay_open: bool,
    /// The input devices.
    pub devices: HashSet<u64>,
}

/// A key event, with what the keyboard layout makes of the key.
#[derive(Clone, Copy, Debug, PartialEq, Eq, Structural)]
pub struct KeyEvent {
    pub key_code: u32,
    pub pressed: bool,
    /// The symbol of the key with the modifiers applied.
    pub modified: u32,
    /// The symbol that binds are matched against.
    pub raw: Option<u32>,
    pub mods: ModifiersState,
}

/// What a key event finds.
#[derive(Debug)]
pub struct KeyView {
    pub grab: Option<PointerGrab>,
    /// What the screenshot selection would make of the key.
    pub screenshot_action: Option<Action>,
    pub disable_power_key_handling: bool,
}

/// What a key event does besides going somewhere.
#[derive(Clone, Copy, Debug, PartialEq, Eq, Structural)]
pub enum KeyCommand {
    /// Quit.
    Stop,
    /// End the pointer grab.
    UnsetPointerGrab,
    /// Tell the screenshot selection whether the space bar is held.
    SetSpaceDown(bool),
}

/// What becomes of a key event.
#[derive(Debug)]
pub struct Filtered {
    pub commands: Vec<KeyCommand>,
    pub result: FilterResult,
}

/// Whether a key press answers the dialog that asks before quitting.
pub open spec fn answers_dialog(niri: Niri, event: KeyEvent) -> bool {
    niri.exit_confirm_dialog_open && event.pressed
}

/// Whether a key press ends a pointer grab.
pub open spec fn ends_grab(event: KeyEvent, view: KeyView) -> bool {
    &&& event.pressed
    &&& event.raw == Some(KEY_ESCAPE)
    &&& view.grab matches Some(grab) && grab.ends_on_escape()
}

/// The bind that a key sets off: a configured one, or else one of the overview.
pub open spec fn key_bind(
    niri: Niri,
    event: KeyEvent,
    view: KeyView,
    binds: Seq<Bind>,
    mod_key: ModKey,
) -> Option<FoundBind> {
    let found = found_bind(
        binds,
        mod_key,
        event.modified,
        event.raw,
        event.mods,
        view.disable_power_key_handling,
    );
    match effective_bind(
        found,
        binds,
        event.raw,
        niri.screenshot_ui is Open,
        view.screenshot_action,
    ) {
        Some(bind) => Some(bind),
        None => match event.raw {
            Some(raw) if niri.keyboard.focus is Overview => match overview_bind(raw, event.mods) {
                Some(bind) => Some(FoundBind::Fixed(bind)),
                None => None,
            },
            _ => None,
        },
    }
}

/// Whether a key press stays here.
pub open spec fn press_stays(
    niri: Niri,
    event: KeyEvent,
    view: KeyView,
    binds: Seq<Bind>,
    mod_key: ModKey,
) -> bool {
    answers_dialog(niri, event) || ends_grab(event, view) || key_bind(
        niri,
        event,
        view,
        binds,
        mod_key,
    ) is Some
}

/// Where a key event goes, and which bind it sets off.
pub open spec fn filter_result(
    niri: Niri,
    event: KeyEvent,
    view: KeyView,
    binds: Seq<Bind>,
    mod_key: ModKey,
) -> FilterResult {
    if is_intercepted(
        niri.input.suppressed_keys@,
        event.key_code,
        event.pressed,
        press_stays(niri, event, view, binds, mod_key),
    ) {
        FilterResult::Intercept(
            if event.pressed && !answers_dialog(niri, event) && !ends_grab(event, view) {
                key_bind(niri, event, view, binds, mod_key)
            } else {
                None
            },
        )
    } else {
        FilterResult::Forward
    }
}

/// What a key event does besides going somewhere.
pub open spec fn key_commands(niri: Niri, event: KeyEvent, view: KeyView) -> Seq<KeyCommand> {
    if answers_dialog(niri, event) {
        if event.raw == Some(KEY_RETURN) {
            seq![KeyCommand::Stop]
        } else {
            Seq::empty()
        }
    } else if ends_grab(event, view) {
        seq![KeyCommand::UnsetPointerGrab]
    } else if event.raw == Some(KEY_SPACE) {
        seq![KeyCommand::SetSpaceDown(event.pressed)]
    } else {
        Seq::empty()
    }
}

/// What setting off a bind leads to.
#[derive(Debug)]
pub struct BindRun {
    pub effects: Vec<Effect>,
    pub plan: Plan,
}

/// Whether a bind does nothing because it rests.
pub open spec fn rests(niri: Niri, bind: Bind) -> bool {
    bind.cooldown is Some && niri.input.bind_cooldown_timers@.contains(bind.key)
}

/// Whether a bind is set off in a session that is locked against it.
pub open spec fn locked_out(niri: Niri, bind: Bind) -> bool {
    niri.locked() && !(bind.allow_when_locked || works_when_locked(bind.action))
}

/// The keys of the binds that rest after a bind was set off.
pub open spec fn resting_after(niri: Niri, bind: Bind) -> Seq<Key> {
    if bind.cooldown is Some && !locked_out(niri, bind) && !rests(niri, bind) {
        niri.input.bind_cooldown_timers@.push(bind.key)
    } else {
        niri.input.bind_cooldown_timers@
    }
}

/// What a bind that is set off does.
pub open spec fn bind_plan(niri: Niri, ctx: ActionContext, bind: Bind) -> Plan {
    if locked_out(niri, bind) || rests(niri, bind) {
        Plan::Done
    } else {
        action_plan(niri, ctx, bind.action)
    }
}

/// Looks for a key.
fn key_place(keys: &Vec<Key>, key: Key) -> (r: Option<usize>)
    ensures
        match r {
            Some(i) => i < keys@.len() && keys@[i as int] == key,
            None => !keys@.contains(key),
        },
{
    let mut i: usize = 0;
    while i < keys.len()
        invariant
            i <= keys@.len(),
            forall|j: int| 0 <= j < i ==> #[trigger] keys@[j] != key,
        decreases keys.len() - i,
    {
        if keys[i] == key {
            return Some(i);
        }
        i = i + 1;
    }
    None
}

impl State {
    /// Begins a key event: a release stops the repetition of a bind, and a press may hide the
    /// cursor. Returns what to do and whether all has to be drawn anew.
    pub fn on_keyboard(&mut self, pressed: bool, hide_when_typing: bool) -> (r: (Vec<Effect>, bool))
        ensures
            ({
                let before = old(self).niri;
                let hides = pressed && hide_when_typing && before.pointer.visibility is Visible;
                &&& r.0@ == match before.input.bind_repeat_timer {
                    Some(token) if !pressed => seq![Effect::RemoveTimer(token)],
                    _ => Seq::empty(),
                }
                &&& r.1 == hides
                &&& *final(self) == (State {
                    niri: Niri {
                        input: InputState {
                            bind_repeat_timer: if pressed {
                                before.input.bind_repeat_timer
                            } else {
                                None
                            },
                            ..before.input
                        },
                        pointer: PointerState {
                            visibility: if hides {
                                PointerVisibility::Hidden
                            } else {
                                before.pointer.visibility
                            },
                            ..before.pointer
                        },
                        ..before
                    },
                    ..*old(self)
                })
            }),
    {
        let mut effects: Vec<Effect> = Vec::new();
        let mut redraw = false;
        if !pressed {
            if let Some(token) = self.niri.input.bind_repeat_timer {
                self.niri.input.bind_repeat_timer = None;
                effects.push(Effect::RemoveTimer(token));
            }
        }
        if pressed {
            redraw = self.hide_cursor_if_needed(hide_when_typing);
        }
        (effects, redraw)
    }

    /// Decides where a key event goes and which bind it sets off.
    pub fn filter_key(
        &mut self,
        event: &KeyEvent,
        view: KeyView,
        binds: &Vec<Bind>,
        mod_key: ModKey,
    ) -> (r: Filtered)
        ensures
            r.result == filter_result(old(self).niri, *event, view, binds@, mod_key),
            r.commands@ == key_commands(old(self).niri, *event, view),
            final(self).niri.input.suppressed_keys@ == suppressed_after(
                old(self).niri.input.suppressed_keys@,
                event.key_code,
                event.pressed,
                press_stays(old(self).niri, *event, view, binds@, mod_key),
            ),
            *final(self) == (State {
                niri: Niri {
                    input: InputState {
                        suppressed_keys: final(self).niri.input.suppressed_keys,
                        ..old(self).niri.input
                    },
                    ..old(self).niri
                },
                ..*old(self)
            }),
            r.result matches FilterResult::Intercept(Some(found)) ==> event.pressed && found.within(
                binds@,
            ),
    {
        let mut commands: Vec<KeyCommand> = Vec::new();
        if self.niri.exit_confirm_dialog_open && event.pressed {
            if event.raw == Some(KEY_RETURN) {
                commands.push(KeyCommand::Stop);
            }
            self.niri.input.suppressed_keys.insert(event.key_code);
            return Filtered { commands, result: FilterResult::Intercept(None) };
        }
        if event.pressed && event.raw == Some(KEY_ESCAPE) {
            if let Some(grab) = &view.grab {
                if grab.grab_can_be_cancelled_with_esc() {
                    commands.push(KeyCommand::UnsetPointerGrab);
                    self.niri.input.suppressed_keys.insert(event.key_code);
                    return Filtered { commands, result: FilterResult::Intercept(None) };
                }
            }
        }
        if event.raw == Some(KEY_SPACE) {
            commands.push(KeyCommand::SetSpaceDown(event.pressed));
        }
        let selecting = self.niri.screenshot_ui.is_open();
        let result = should_intercept_key(
            &mut self.niri.input.suppressed_keys,
            binds,
            mod_key,
            event.key_code,
            event.modified,
            event.raw,
            event.pressed,
            event.mods,
            selecting,
            view.screenshot_action,
            view.disable_power_key_handling,
        );
        if matches!(result, FilterResult::Forward) {
            if matches!(self.niri.keyboard.focus, KeyboardFocus::Overview) && event.pressed {
                if let Some(raw) = event.raw {
                    if let Some(bind) = hardcoded_overview_bind(raw, event.mods) {
                        self.niri.input.suppressed_keys.insert(event.key_code);
                        return Filtered {
                            commands,
                            result: FilterResult::Intercept(Some(FoundBind::Fixed(bind))),
                        };
                    }
                }
            }
        }
        Filtered { commands, result }
    }

    /// Starts to repeat a bind that is meant to, in place of the one that was repeated before. With a
    /// rate of zero nothing repeats.
    ///
    /// `token` names the timer to start, if one is started.
    pub fn start_key_repeat(&mut self, bind: &Bind, rate: u8, delay_ms: u16, token: u64) -> (r: Vec<
        Effect,
    >)
        ensures
            ({
                let before = old(self).niri.input.bind_repeat_timer;
                &&& *final(self) == (State {
                    niri: Niri {
                        input: InputState {
                            bind_repeat_timer: if !bind.repeat {
                                before
                            } else if rate == 0 {
                                None
                            } else {
                                Some(token)
                            },
                            ..old(self).niri.input
                        },
                        ..old(self).niri
                    },
                    ..*old(self)
                })
                &&& r@ == (if !bind.repeat {
                    Seq::empty()
                } else {
                    (match before {
                        Some(running) => seq![Effect::RemoveTimer(running)],
                        None => Seq::empty(),
                    }) + (if rate == 0 {
                        Seq::empty()
                    } else {
                        seq![Effect::StartKeyRepeat { token, delay_ms, rate }]
                    })
                })
            }),
    {
        let mut effects: Vec<Effect> = Vec::new();
        if !bind.repeat {
            return effects;
        }
        if let Some(running) = self.niri.input.bind_repeat_timer {
            self.niri.input.bind_repeat_timer = None;
            effects.push(Effect::RemoveTimer(running));
        }
        if rate == 0 {
            return effects;
        }
        effects.push(Effect::StartKeyRepeat { token, delay_ms, rate });
        self.niri.input.bind_repeat_timer = Some(token);
        effects
    }

    /// Sets off a bind. One with a cooldown then rests for that long, and does nothing if it rests
    /// already. In a session that is locked against it, nothing happens at all.
    pub fn handle_bind(&mut self, ctx: &ActionContext, bind: Bind) -> (r: BindRun)
        requires
            old(self).niri.global_space.wf(),
        ensures
            r.plan == bind_plan(old(self).niri, *ctx, bind),
            r.effects@ == match bind.cooldown {
                Some(ms) if !locked_out(old(self).niri, bind) && !rests(old(self).niri, bind) => seq![
                    Effect::StartBindCooldown { key: bind.key, ms },
                ],
                _ => Seq::empty(),
            },
            final(self).niri.input.bind_cooldown_timers@ == resting_after(old(self).niri, bind),
            *final(self) == (State {
                niri: Niri {
                    input: InputState {
                        bind_cooldown_timers: final(self).niri.input.bind_cooldown_timers,
                        ..old(self).niri.input
                    },
                    ..old(self).niri
                },
                ..*old(self)
            }),
    {
        let mut effects: Vec<Effect> = Vec::new();
        let plan = match bind.cooldown {
            None => self.do_action(ctx, bind.action, bind.allow_when_locked),
            Some(ms) => {
                if self.niri.is_locked() && !(bind.allow_when_locked || allowed_when_locked(
                    &bind.action,
                )) {
                    return BindRun { effects, plan: Plan::Done };
                }
                match key_place(&self.niri.input.bind_cooldown_timers, bind.key) {
                    Some(i) => {
                        assert(self.niri.input.bind_cooldown_timers@[i as int] == bind.key);
                        Plan::Done
                    },
                    None => {
                        let plan = self.do_action(ctx, bind.action, bind.allow_when_locked);
                        self.niri.input.bind_cooldown_timers.push(bind.key);
                        effects.push(Effect::StartBindCooldown { key: bind.key, ms });
                        plan
                    },
                }
            },
        };
        BindRun { effects, plan }
    }
}

impl Niri {
    /// Ends the rest of a bind. Returns whether it was resting.
    pub fn bind_cooldown_over(&mut self, key: Key) -> (r: bool)
        ensures
            r == old(self).input.bind_cooldown_timers@.contains(key),
            final(self).input.bind_cooldown_timers@ == old(
                self,
            ).input.bind_cooldown_timers@.remove_value(key),
            *final(self) == (Niri {
                input: InputState {
                    bind_cooldown_timers: final(self).input.bind_cooldown_timers,
                    ..old(self).input
                },
                ..*old(self)
            }),
    {
        let ghost before = self.input.bind_cooldown_timers@;
        let mut i: usize = 0;
        while i < self.input.bind_cooldown_timers.len()
            invariant
                before == old(self).input.bind_cooldown_timers@,
                self.input.bind_cooldown_timers@ == before,
                *self == *old(self),
                i <= before.len(),
                forall|j: int| 0 <= j < i ==> #[trigger] before[j] != key,
            decreases before.len() - i,
        {
            if self.input.bind_cooldown_timers[i] == key {
                proof {
                    before.index_of_first_ensures(key);
                    let first = before.index_of_first(key).unwrap();
                    assert(before[i as int] == key);
                    assert(first == i);
                }
                self.input.bind_cooldown_timers.remove(i);
                return true;
            }
            i = i + 1;
        }
        proof {
            before.index_of_first_ensures(key);
        }
        false
    }
}

/// A bind that the session is locked against leads to nothing, and does not come to rest by it.
pub proof fn law_locked_bind_does_not_rest(niri: Niri, ctx: ActionContext, bind: Bind)
    requires
        niri.locked(),
        !bind.allow_when_locked,
        !works_when_locked(bind.action),
    ensures
        bind_plan(niri, ctx, bind) is Done,
        resting_after(niri, bind) == niri.input.bind_cooldown_timers@,
{
}

/// A bind with a cooldown does nothing when it is set off again, until it has rested. No bind rests
/// twice at a time.
pub proof fn law_bind_rests(before: Niri, after: Niri, ctx: ActionContext, bind: Bind)
    requires
        before.input.bind_cooldown_timers@.no_duplicates(),
        bind.cooldown is Some,
        after.input.bind_cooldown_timers@ == resting_after(before, bind),
        after.lock_state == before.lock_state,
    ensures
        after.input.bind_cooldown_timers@.no_duplicates(),
        bind_plan(after, ctx, bind) is Done,
        !locked_out(before, bind) ==> !resting_after(before, bind).remove_value(bind.key).contains(
            bind.key,
        ),
{
    let keys = before.input.bind_cooldown_timers@;
    let resting = resting_after(before, bind);
    if !locked_out(before, bind) {
        if rests(before, bind) {
            let i = keys.index_of(bind.key);
            assert(resting[i] == bind.key);
        } else {
            assert(resting[keys.len() as int] == bind.key);
        }
        resting.index_of_first_ensures(bind.key);
        let at = resting.index_of_first(bind.key).unwrap();
        assert forall|j: int| 0 <= j < resting.remove(at).len() implies #[trigger] resting.remove(
            at,
        )[j] != bind.key by {
            if j < at {
                assert(resting.remove(at)[j] == resting[j]);
            } else {
                assert(resting.remove(at)[j] == resting[j + 1]);
            }
        }
    }
}

} // verus!
