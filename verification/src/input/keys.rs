//! What keys are for.
use vstd::prelude::*;

use crate::input::action::{works_during_screenshot, Action};
use crate::input::binds::{
    effective_bind, first_set_off, found_bind, is_first_set_off, overview_bind, sets_off, Bind,
    FilterResult, FoundBind, ModKey, ModifiersState, Trigger,
};
use crate::input::clicks::is_down;
use crate::input::grab::PointerGrab;
use crate::input::keyboard::{
    bind_plan, filter_result, key_bind, key_commands, KeyCommand, KeyEvent, KeyView,
};
use crate::input::perform::action_plan;
use crate::input::plan::ActionContext;
use crate::niri::Niri;

verus! {

/// The dialog that asks before quitting takes every key that goes down. The return key quits, and no other
/// does.
pub proof fn law_return_quits(
    niri: Niri,
    event: KeyEvent,
    view: KeyView,
    binds: Seq<Bind>,
    mod_key: ModKey,
)
    ensures
        ({
            let stops = key_commands(niri, event, view).contains(KeyCommand::Stop);
            let asked = niri.exit_confirm_dialog_open && event.pressed;
            &&& stops <==> asked && event.raw == Some(0xFF0Du32)
            &&& asked ==> filter_result(niri, event, view, binds, mod_key) == FilterResult::Intercept(
                None,
            )
        }),
{
    let commands = key_commands(niri, event, view);
    if commands.contains(KeyCommand::Stop) {
        assert(commands[commands.index_of(KeyCommand::Stop)] == KeyCommand::Stop);
    } else if niri.exit_confirm_dialog_open && event.pressed && event.raw == Some(0xFF0Du32) {
        assert(commands[0] == KeyCommand::Stop);
    }
}

/// The escape key gives up picking a window or a color, and dragging something. No other key does, and
/// moving or resizing a window goes on.
pub proof fn law_escape_gives_up(niri: Niri, event: KeyEvent, view: KeyView)
    requires
        !niri.exit_confirm_dialog_open,
    ensures
        key_commands(niri, event, view).contains(KeyCommand::UnsetPointerGrab) <==> event.pressed
            && event.raw == Some(0xFF1Bu32) && (match view.grab {
            Some(PointerGrab::PickWindow) | Some(PointerGrab::PickColor)
            | Some(PointerGrab::DragAndDrop) => true,
            _ => false,
        }),
{
    let commands = key_commands(niri, event, view);
    let unset = KeyCommand::UnsetPointerGrab;
    if commands.contains(unset) {
        assert(commands[commands.index_of(unset)] == unset);
    } else if event.pressed && event.raw == Some(0xFF1Bu32) && (match view.grab {
        Some(PointerGrab::PickWindow) | Some(PointerGrab::PickColor)
        | Some(PointerGrab::DragAndDrop) => true,
        _ => false,
    }) {
        assert(commands[0] == unset);
    }
}

/// A key that goes down and sets off a bind stays here, and one that does not goes to the client. One that
/// comes up stays here just if it did so as it went down.
pub proof fn law_bound_keys_stay(
    niri: Niri,
    event: KeyEvent,
    view: KeyView,
    binds: Seq<Bind>,
    mod_key: ModKey,
)
    requires
        !niri.exit_confirm_dialog_open,
        view.grab is None,
    ensures
        ({
            let result = filter_result(niri, event, view, binds, mod_key);
            if event.pressed {
                match key_bind(niri, event, view, binds, mod_key) {
                    Some(bind) => result == FilterResult::Intercept(Some(bind)),
                    None => result is Forward,
                }
            } else if niri.input.suppressed_keys@.contains(event.key_code) {
                result == FilterResult::Intercept(None)
            } else {
                result is Forward
            }
        }),
{
}

/// A key sets off a bind for that key whose modifiers are held, and of several the first.
pub proof fn law_key_sets_off_its_bind(
    binds: Seq<Bind>,
    mod_key: ModKey,
    modified: u32,
    raw: Option<u32>,
    mods: ModifiersState,
    disable_power_key_handling: bool,
    i: usize,
)
    requires
        binds.len() <= usize::MAX,
        found_bind(binds, mod_key, modified, raw, mods, disable_power_key_handling) == Some(
            FoundBind::Configured(i),
        ),
    ensures
        i < binds.len(),
        raw is Some,
        binds[i as int].key.trigger == Trigger::Keysym(raw->0),
        sets_off(binds[i as int], mod_key, Trigger::Keysym(raw->0), mods),
        forall|j: int|
            0 <= j < i ==> !sets_off(#[trigger] binds[j], mod_key, Trigger::Keysym(raw->0), mods),
{
    let trigger = Trigger::Keysym(raw->0);
    let k = choose|k: int| is_first_set_off(binds, mod_key, trigger, mods, k);
    assert(first_set_off(binds, mod_key, trigger, mods) == Some(k));
    assert(is_first_set_off(binds, mod_key, trigger, mods, k));
}

/// The keys that switch to a virtual terminal do so, from the first to the twelfth, and the power key sends
/// the machine to sleep unless that is left to others. No bind comes before that.
pub proof fn law_hardware_keys(
    binds: Seq<Bind>,
    mod_key: ModKey,
    modified: u32,
    raw: Option<u32>,
    mods: ModifiersState,
    disable_power_key_handling: bool,
)
    ensures
        ({
            let found = found_bind(binds, mod_key, modified, raw, mods, disable_power_key_handling);
            &&& 0x1008FE01 <= modified <= 0x1008FE0C ==> (found matches Some(FoundBind::Fixed(bind))
                && bind.action == Action::ChangeVt((modified - 0x1008FE00) as i32))
            &&& modified == 0x1008FF2A && !disable_power_key_handling ==> (found matches Some(
                FoundBind::Fixed(bind),
            ) && bind.action == Action::Suspend)
            &&& found matches Some(FoundBind::Fixed(bind)) ==> (0x1008FE01 <= modified <= 0x1008FE0C
                || modified == 0x1008FF2A && !disable_power_key_handling)
        }),
{
}

/// In the overview the arrow keys go where they point, and the escape and return keys close it. That is so
/// without any modifier.
pub proof fn law_keys_in_overview(raw: u32, mods: ModifiersState)
    ensures
        ({
            let bare = forall|key: ModKey| !#[trigger] is_down(mods, key);
            let bind = overview_bind(raw, mods);
            &&& !bare ==> bind is None
            &&& bare && raw == 0xFF51 ==> (bind matches Some(b) && b.action == Action::FocusColumnLeft)
            &&& bare && raw == 0xFF53 ==> (bind matches Some(b) && b.action == Action::FocusColumnRight)
            &&& bare && raw == 0xFF52 ==> (bind matches Some(b) && b.action
                == Action::FocusWindowOrWorkspaceUp)
            &&& bare && raw == 0xFF54 ==> (bind matches Some(b) && b.action
                == Action::FocusWindowOrWorkspaceDown)
            &&& bare && (raw == 0xFF1B || raw == 0xFF0D) ==> (bind matches Some(b) && b.action
                == Action::ToggleOverview && !b.repeat)
            &&& bind is Some ==> raw == 0xFF51 || raw == 0xFF52 || raw == 0xFF53 || raw == 0xFF54
                || raw == 0xFF1B || raw == 0xFF0D
        }),
{
    if forall|key: ModKey| !#[trigger] is_down(mods, key) {
        assert(!is_down(mods, ModKey::Ctrl));
        assert(!is_down(mods, ModKey::Shift));
        assert(!is_down(mods, ModKey::Alt));
        assert(!is_down(mods, ModKey::Super));
        assert(!is_down(mods, ModKey::IsoLevel3Shift));
        assert(!is_down(mods, ModKey::IsoLevel5Shift));
    }
}

/// While a screenshot is being selected, a bind is set off only if it is one that works then. Else the
/// selection gets the key.
pub proof fn law_selection_gets_keys(
    found: Option<FoundBind>,
    binds: Seq<Bind>,
    raw: u32,
    screenshot_action: Option<Action>,
)
    ensures
        ({
            let bind = effective_bind(found, binds, Some(raw), true, screenshot_action);
            let works = found matches Some(f) && works_during_screenshot(f.get(binds).action);
            &&& works ==> bind == found
            &&& !works ==> match screenshot_action {
                Some(action) => bind matches Some(FoundBind::Fixed(b)) && b.action == action
                    && b.key.trigger == Trigger::Keysym(raw),
                None => bind is None,
            }
            &&& effective_bind(found, binds, Some(raw), false, screenshot_action) == found
        }),
{
}

/// In a locked session a bind does nothing, unless it says that it may, or what it does is always possible.
/// A bind that rests does nothing either. Any other does what its action says.
pub proof fn law_bind_does_its_action(niri: Niri, ctx: ActionContext, bind: Bind)
    ensures
        ({
            let plan = bind_plan(niri, ctx, bind);
            let always = bind.action is Quit || bind.action is ChangeVt || bind.action is Suspend
                || bind.action is PowerOffMonitors || bind.action is PowerOnMonitors
                || bind.action is SwitchLayout;
            let rests = bind.cooldown is Some && niri.input.bind_cooldown_timers@.contains(bind.key);
            &&& niri.locked() && !bind.allow_when_locked && !always ==> plan is Done
            &&& rests ==> plan is Done
            &&& (!niri.locked() || bind.allow_when_locked || always) && !rests ==> plan == action_plan(
                niri,
                ctx,
                bind.action,
            )
        }),
{
}

} // verus!
