//! What clicks and turns of the wheel are for.
use vstd::prelude::*;

use crate::input::action::Action;
use crate::input::binds::{
    first_set_off, held, is_first_set_off, sets_off, Bind, FoundBind, ModKey, Modifiers,
    ModifiersState, Trigger,
};
use crate::input::pointer::{
    after_commands, button_bind, button_end, double_resize, horizontal_binds, is_held_back,
    middle_target, motion_commands, motion_start, press, trigger_of, vertical_binds, wheel_run,
    wheel_use, AfterMotion, ButtonEvent, ButtonView, ConstraintView, MotionStart, MotionView,
    MouseButton, PointerCommand, PointerConstraint, WheelUse, WindowAtCursor,
};
use crate::niri::scene::SurfaceHit;
use crate::niri::{Niri, ScreenshotUi};
use crate::utils::ResizeEdge;

verus! {

/// Whether the key of a modifier is held down.
pub open spec fn is_down(mods: ModifiersState, key: ModKey) -> bool {
    match key {
        ModKey::Ctrl => mods.ctrl,
        ModKey::Shift => mods.shift,
        ModKey::Alt => mods.alt,
        ModKey::Super => mods.logo,
        ModKey::IsoLevel3Shift => mods.iso_level3_shift,
        ModKey::IsoLevel5Shift => mods.iso_level5_shift,
    }
}

/// Whether the modifier of a key is among some modifiers.
pub open spec fn is_among(modifiers: Modifiers, key: ModKey) -> bool {
    match key {
        ModKey::Ctrl => modifiers.ctrl,
        ModKey::Shift => modifiers.shift,
        ModKey::Alt => modifiers.alt,
        ModKey::Super => modifiers.super_key,
        ModKey::IsoLevel3Shift => modifiers.iso_level3_shift,
        ModKey::IsoLevel5Shift => modifiers.iso_level5_shift,
    }
}

/// A modifier counts as held just while its key is down, whatever locks are on.
pub proof fn law_held_keys(mods: ModifiersState, key: ModKey)
    ensures
        held(mods).has(key) == is_down(mods, key),
        !held(mods).compositor,
{
}

/// A bind is set off by its trigger, with just its own modifiers held. The compositor's own modifier
/// stands for the key that is configured as such.
pub proof fn law_bind_needs_its_modifiers(
    bind: Bind,
    mod_key: ModKey,
    trigger: Trigger,
    mods: ModifiersState,
)
    ensures
        sets_off(bind, mod_key, trigger, mods) <==> bind.key.trigger == trigger && (forall|
            key: ModKey,
        | #[trigger]
            is_down(mods, key) <==> is_among(bind.key.modifiers, key) || (bind.key.modifiers.compositor
                && key == mod_key)),
{
    let m = bind.key.modifiers;
    let needs = |key: ModKey| is_among(m, key) || (m.compositor && key == mod_key);
    if forall|key: ModKey| #[trigger] is_down(mods, key) <==> needs(key) {
        assert(is_down(mods, ModKey::Ctrl) <==> needs(ModKey::Ctrl));
        assert(is_down(mods, ModKey::Shift) <==> needs(ModKey::Shift));
        assert(is_down(mods, ModKey::Alt) <==> needs(ModKey::Alt));
        assert(is_down(mods, ModKey::Super) <==> needs(ModKey::Super));
        assert(is_down(mods, ModKey::IsoLevel3Shift) <==> needs(ModKey::IsoLevel3Shift));
        assert(is_down(mods, ModKey::IsoLevel5Shift) <==> needs(ModKey::IsoLevel5Shift));
    }
}

/// A mouse button sets off the binds of that button and no others, and only as it goes down.
pub proof fn law_button_sets_off_its_bind(
    niri: Niri,
    event: ButtonEvent,
    binds: Seq<Bind>,
    mod_key: ModKey,
)
    ensures
        button_bind(niri, event, binds, mod_key) matches Some(i) ==> {
            &&& event.pressed
            &&& 0 <= i < binds.len()
            &&& match binds[i].key.trigger {
                Trigger::MouseLeft => event.button == Some(MouseButton::Left),
                Trigger::MouseRight => event.button == Some(MouseButton::Right),
                Trigger::MouseMiddle => event.button == Some(MouseButton::Middle),
                Trigger::MouseBack => event.button == Some(MouseButton::Back),
                Trigger::MouseForward => event.button == Some(MouseButton::Forward),
                _ => false,
            }
            &&& sets_off(binds[i], mod_key, binds[i].key.trigger, event.mods)
        },
{
    if let Some(trigger) = trigger_of(event.button) {
        if exists|i: int| is_first_set_off(binds, mod_key, trigger, event.mods, i) {
            let i = choose|i: int| is_first_set_off(binds, mod_key, trigger, event.mods, i);
            assert(is_first_set_off(binds, mod_key, trigger, event.mods, i));
        }
    }
}

/// Without the compositor's own modifier and outside of the overview, a click does nothing to a window
/// but give it the focus, and goes on to the client. Beside all windows it gives the focus to the output.
pub proof fn law_plain_click_goes_to_the_client(event: ButtonEvent, view: ButtonView)
    requires
        !view.overview_open,
    ensures
        !press(event, false, view).all,
        view.window matches Some(window) ==> press(event, false, view).commands == seq![
            PointerCommand::ActivateWindow(window.id),
            PointerCommand::QueueRedrawAll,
        ],
        view.window is None ==> (view.output matches Some(output) ==> press(
            event,
            false,
            view,
        ).commands == seq![PointerCommand::FocusOutput(output), PointerCommand::QueueRedrawAll]),
        view.window is None && view.output is None ==> press(event, false, view).commands.len() == 0,
{
    if let Some(window) = view.window {
        assert(press(event, false, view).commands =~= seq![
            PointerCommand::ActivateWindow(window.id),
            PointerCommand::QueueRedrawAll,
        ]);
    }
}

/// Whether a command begins to move, resize or scroll something with the pointer.
pub open spec fn begins_gesture(command: PointerCommand) -> bool {
    match command {
        PointerCommand::StartMoveGrab { .. } | PointerCommand::StartResizeGrab { .. }
        | PointerCommand::StartSpatialGrab { .. } | PointerCommand::BeginViewOffsetGesture { .. }
        | PointerCommand::ToggleFullWidth | PointerCommand::ResetWindowHeight(_)
        | PointerCommand::SetLastResize { .. } => true,
        _ => false,
    }
}

/// While the pointer is busy with something, no click begins anything else.
pub proof fn law_one_gesture_at_a_time(event: ButtonEvent, mod_down: bool, view: ButtonView, i: int)
    requires
        view.pointer_grabbed,
        0 <= i < press(event, mod_down, view).commands.len(),
    ensures
        !begins_gesture(press(event, mod_down, view).commands[i]),
{
}

/// The middle button, and the other buttons beside the left and right ones, never move or resize a window,
/// and a click beside all windows does not either.
pub proof fn law_only_windows_are_dragged(
    event: ButtonEvent,
    mod_down: bool,
    view: ButtonView,
    i: int,
)
    requires
        view.window is None || !(event.button == Some(MouseButton::Left) || event.button == Some(
            MouseButton::Right,
        )),
        0 <= i < press(event, mod_down, view).commands.len(),
    ensures
        ({
            let command = press(event, mod_down, view).commands[i];
            !(command is StartMoveGrab) && !(command is StartResizeGrab) && !(
            command is ToggleFullWidth) && !(command is ResetWindowHeight) && !(
            command is ActivateWindow && view.window is None)
        }),
{
}

/// The left button moves the window that it is pressed on: in the overview always, and else with the
/// compositor's own modifier held.
pub proof fn law_left_button_moves_windows(
    event: ButtonEvent,
    mod_down: bool,
    view: ButtonView,
    id: u64,
    show: bool,
)
    ensures
        press(event, mod_down, view).commands.contains(
            PointerCommand::StartMoveGrab { window: id, show },
        ) <==> {
            &&& event.button == Some(MouseButton::Left)
            &&& !view.pointer_grabbed
            &&& view.overview_open || mod_down
            &&& view.window matches Some(window) && window.id == id
            &&& show == !view.overview_open
        },
{
    let commands = press(event, mod_down, view).commands;
    let wanted = PointerCommand::StartMoveGrab { window: id, show };
    if commands.contains(wanted) {
        let i = commands.index_of(wanted);
        assert(commands[i] is StartMoveGrab);
    } else if event.button == Some(MouseButton::Left) && !view.pointer_grabbed && (
    view.overview_open || mod_down) && view.window is Some {
        if view.overview_open {
            assert(commands[0] is StartMoveGrab);
        } else {
            assert(commands[1] is StartMoveGrab);
        }
    }
}

/// Whether some edge is there.
pub open spec fn has_edge(edges: ResizeEdge) -> bool {
    edges.left || edges.right || edges.top || edges.bottom
}

/// Whether a window was last resized within four tenths of a second. Floating windows do not count.
pub open spec fn was_just_resized(window: WindowAtCursor, time: u64) -> bool {
    !window.is_floating && (window.last_resize matches Some(last) && time <= last.time
        + 400_000_000)
}

/// Whether a click is for resizing a window: one with the right button and the compositor's own modifier,
/// where the window has an edge near, unless in the overview the workspace is scrolled.
pub open spec fn is_for_resizing(event: ButtonEvent, mod_down: bool, view: ButtonView) -> bool {
    &&& event.button == Some(MouseButton::Right)
    &&& mod_down
    &&& !view.pointer_grabbed
    &&& view.window matches Some(window) && has_edge(window.edges)
    &&& !(view.overview_open && view.workspace_beside is Some)
}

/// The right button with the compositor's own modifier resizes the window that it is pressed on, by the
/// edges that are near, unless that is the second such click in short order.
pub proof fn law_right_button_resizes_windows(
    event: ButtonEvent,
    mod_down: bool,
    view: ButtonView,
    id: u64,
    edges: ResizeEdge,
)
    ensures
        press(event, mod_down, view).commands.contains(
            PointerCommand::StartResizeGrab { window: id, edges },
        ) <==> {
            &&& is_for_resizing(event, mod_down, view)
            &&& view.window->0.id == id
            &&& view.window->0.edges == edges
            &&& !was_just_resized(view.window->0, event.time)
        },
{
    let commands = press(event, mod_down, view).commands;
    let wanted = PointerCommand::StartResizeGrab { window: id, edges };
    if commands.contains(wanted) {
        let i = commands.index_of(wanted);
        assert(commands[i] is StartResizeGrab);
    } else if is_for_resizing(event, mod_down, view) && !was_just_resized(
        view.window->0,
        event.time,
    ) {
        assert(commands[2] is StartResizeGrab);
    }
}

/// Two clicks to resize in short order make the column as wide as the output if both were at the left or
/// both at the right, and give the window its height back if both were at the top or both at the bottom.
/// Neither happens otherwise.
pub proof fn law_double_click_resets_size(
    event: ButtonEvent,
    mod_down: bool,
    view: ButtonView,
    id: u64,
)
    ensures
        ({
            let commands = press(event, mod_down, view).commands;
            let window = view.window->0;
            let last = window.last_resize->0.edges;
            let double = is_for_resizing(event, mod_down, view) && was_just_resized(
                window,
                event.time,
            );
            &&& commands.contains(PointerCommand::ToggleFullWidth) <==> double && (
            window.edges.left && last.left || window.edges.right && last.right)
            &&& commands.contains(PointerCommand::ResetWindowHeight(id)) <==> double && (
            window.edges.top && last.top || window.edges.bottom && last.bottom) && id == window.id
            &&& press(event, mod_down, view).all && view.window is Some && !view.overview_open
                && event.button == Some(MouseButton::Right) ==> double
            &&& double ==> press(event, mod_down, view).all
        }),
{
    let commands = press(event, mod_down, view).commands;
    if view.window is Some {
        let window = view.window->0;
        let last = window.last_resize->0.edges;
        let wide = PointerCommand::ToggleFullWidth;
        let high = PointerCommand::ResetWindowHeight(id);
        let double = is_for_resizing(event, mod_down, view) && was_just_resized(window, event.time);
        if double {
            assert(commands == double_resize(window));
            let side = window.edges.left && last.left || window.edges.right && last.right;
            let end = window.edges.top && last.top || window.edges.bottom && last.bottom;
            if side {
                assert(commands[2] == wide);
            }
            if end {
                let n: int = if side {
                    4
                } else {
                    2
                };
                assert(commands[n] == PointerCommand::ResetWindowHeight(window.id));
            }
        }
        if commands.contains(wide) {
            let i = commands.index_of(wide);
            assert(commands[i] == wide);
        }
        if commands.contains(high) {
            let i = commands.index_of(high);
            assert(commands[i] == high);
        }
    } else {
        if commands.contains(PointerCommand::ToggleFullWidth) {
            let i = commands.index_of(PointerCommand::ToggleFullWidth);
            assert(commands[i] is ToggleFullWidth);
        }
        if commands.contains(PointerCommand::ResetWindowHeight(id)) {
            let i = commands.index_of(PointerCommand::ResetWindowHeight(id));
            assert(commands[i] is ResetWindowHeight);
        }
    }
}

/// A workspace is scrolled with the right button in the overview, and with the middle button and the
/// compositor's own modifier: the one under the cursor in the overview, and else the active one.
pub proof fn law_workspaces_are_scrolled(
    event: ButtonEvent,
    mod_down: bool,
    view: ButtonView,
    output: u64,
    workspace: u64,
    is_view_offset: bool,
)
    ensures
        press(event, mod_down, view).commands.contains(
            PointerCommand::StartSpatialGrab { output, workspace, is_view_offset },
        ) <==> !view.pointer_grabbed && {
            let here = view.overview_open && (view.workspace_beside matches Some(ws) && ws.output
                == output && ws.id == workspace);
            let active = !view.overview_open && view.output == Some(output) && view.active_workspace
                == Some(workspace);
            if is_view_offset {
                event.button == Some(MouseButton::Right) && here
            } else {
                event.button == Some(MouseButton::Middle) && mod_down && (here || active)
            }
        },
{
    let commands = press(event, mod_down, view).commands;
    let wanted = PointerCommand::StartSpatialGrab { output, workspace, is_view_offset };
    if commands.contains(wanted) {
        let i = commands.index_of(wanted);
        assert(commands[i] is StartSpatialGrab);
    } else if !view.pointer_grabbed && event.button == Some(MouseButton::Right)
        && view.overview_open && view.workspace_beside is Some {
        assert(commands[2] is StartSpatialGrab);
    } else if !view.pointer_grabbed && event.button == Some(MouseButton::Middle) && mod_down
        && middle_target(view) is Some {
        assert(commands[1] is StartSpatialGrab);
    }
}

/// A click on a workspace in the overview, beside all windows, closes the overview on that workspace.
pub proof fn law_click_closes_overview(
    event: ButtonEvent,
    mod_down: bool,
    view: ButtonView,
    index: usize,
)
    requires
        view.window is None,
        event.button == Some(MouseButton::Left),
    ensures
        press(event, mod_down, view).commands.contains(
            PointerCommand::ToggleOverviewToWorkspace(index),
        ) <==> view.overview_open && (view.workspace matches Some(ws) && ws.index == index),
{
    let commands = press(event, mod_down, view).commands;
    let wanted = PointerCommand::ToggleOverviewToWorkspace(index);
    if commands.contains(wanted) {
        let i = commands.index_of(wanted);
        assert(commands[i] is ToggleOverviewToWorkspace);
    } else if view.overview_open && view.workspace is Some {
        assert(commands[1] is ToggleOverviewToWorkspace);
    }
}

/// A button goes to the client at the end, and before that to a screenshot selection: the left button
/// begins a selection as it goes down and ends it as it goes up.
pub proof fn law_button_ends(
    niri: Niri,
    event: ButtonEvent,
    mod_down: bool,
    output_under: Option<u64>,
)
    ensures
        ({
            let commands = button_end(niri, event, mod_down, output_under);
            let n = commands.len() as int;
            &&& n >= 2
            &&& commands[n - 2] is Button
            &&& commands[n - 1] is Frame
            &&& n == 2 || n == 3
            &&& n == 3 ==> event.button == Some(MouseButton::Left) && niri.screenshot_ui is Open
            &&& n == 3 && !event.pressed ==> commands[0] is ScreenshotPointerUp
            &&& n == 3 && event.pressed ==> (commands[0] matches
                PointerCommand::ScreenshotPointerDown { output, move_selection } && move_selection
                == mod_down && (if mod_down {
                niri.screenshot_ui matches ScreenshotUi::Open { selection_output, .. }
                    && selection_output == output
            } else {
                output_under == Some(output)
            }))
            &&& event.button == Some(MouseButton::Left) && niri.screenshot_ui is Open && !event.pressed
                ==> n == 3
        }),
{
}

/// What a turn of the wheel sets off in the overview: up and down go through the workspaces, left and right
/// through the columns, and so do up and down with the shift key held. It is done once for every tick.
pub proof fn law_wheel_in_overview(
    binds: Seq<Bind>,
    mod_key: ModKey,
    mods: ModifiersState,
    selecting: bool,
    ticks: i8,
)
    requires
        forall|key: ModKey| #[trigger] is_down(mods, key) ==> key == ModKey::Shift,
        ticks != 0,
    ensures
        ({
            let along = wheel_run(vertical_binds(true, binds, mod_key, mods, selecting), ticks);
            let across = wheel_run(horizontal_binds(true, binds, mod_key, mods, selecting), ticks);
            let times = if ticks > 0 {
                ticks as int
            } else {
                -ticks
            };
            &&& along matches Some(run) && run.times == times && (run.bind matches FoundBind::Fixed(
                bind,
            ) && bind.action == (if is_down(mods, ModKey::Shift) {
                if ticks > 0 {
                    Action::FocusColumnRightUnderMouse
                } else {
                    Action::FocusColumnLeftUnderMouse
                }
            } else {
                if ticks > 0 {
                    Action::FocusWorkspaceDownUnderMouse
                } else {
                    Action::FocusWorkspaceUpUnderMouse
                }
            }))
            &&& !is_down(mods, ModKey::Shift) ==> (across matches Some(run) && run.times == times && (
            run.bind matches FoundBind::Fixed(bind) && bind.action == (if ticks > 0 {
                Action::FocusColumnRightUnderMouse
            } else {
                Action::FocusColumnLeftUnderMouse
            })))
        }),
{
    assert(!is_down(mods, ModKey::Ctrl));
    assert(!is_down(mods, ModKey::Alt));
    assert(!is_down(mods, ModKey::Super));
    assert(!is_down(mods, ModKey::IsoLevel3Shift));
    assert(!is_down(mods, ModKey::IsoLevel5Shift));
}

/// A configured bind that a turn of the wheel sets off is one for the direction of the turn.
pub proof fn law_wheel_direction(
    binds: Seq<Bind>,
    mod_key: ModKey,
    mods: ModifiersState,
    selecting: bool,
    ticks: i8,
    i: usize,
)
    requires
        binds.len() <= usize::MAX,
    ensures
        wheel_run(vertical_binds(false, binds, mod_key, mods, selecting), ticks) matches Some(run)
            && run.bind == FoundBind::Configured(i) ==> {
            &&& i < binds.len()
            &&& ticks > 0 ==> binds[i as int].key.trigger == Trigger::WheelScrollDown
            &&& ticks < 0 ==> binds[i as int].key.trigger == Trigger::WheelScrollUp
            &&& ticks != 0
            &&& sets_off(binds[i as int], mod_key, binds[i as int].key.trigger, mods)
        },
        wheel_run(horizontal_binds(false, binds, mod_key, mods, selecting), ticks) matches Some(run)
            && run.bind == FoundBind::Configured(i) ==> {
            &&& i < binds.len()
            &&& ticks > 0 ==> binds[i as int].key.trigger == Trigger::WheelScrollRight
            &&& ticks < 0 ==> binds[i as int].key.trigger == Trigger::WheelScrollLeft
            &&& ticks != 0
            &&& sets_off(binds[i as int], mod_key, binds[i as int].key.trigger, mods)
        },
        !(wheel_run(vertical_binds(false, binds, mod_key, mods, selecting), ticks) matches Some(run)
            && run.bind is Fixed),
        !(wheel_run(horizontal_binds(false, binds, mod_key, mods, selecting), ticks) matches Some(run)
            && run.bind is Fixed),
{
    lemma_first(binds, mod_key, Trigger::WheelScrollDown, mods);
    lemma_first(binds, mod_key, Trigger::WheelScrollUp, mods);
    lemma_first(binds, mod_key, Trigger::WheelScrollLeft, mods);
    lemma_first(binds, mod_key, Trigger::WheelScrollRight, mods);
}

/// A bind that is found is set off.
proof fn lemma_first(binds: Seq<Bind>, mod_key: ModKey, trigger: Trigger, mods: ModifiersState)
    ensures
        first_set_off(binds, mod_key, trigger, mods) matches Some(i) ==> 0 <= i < binds.len()
            && sets_off(binds[i], mod_key, trigger, mods),
{
    if exists|i: int| is_first_set_off(binds, mod_key, trigger, mods, i) {
        let i = choose|i: int| is_first_set_off(binds, mod_key, trigger, mods, i);
        assert(is_first_set_off(binds, mod_key, trigger, mods, i));
    }
}

/// A hot corner opens or closes the overview if the pointer comes into it with nothing in its way.
pub proof fn law_hot_corner_opens_overview(after: AfterMotion)
    requires
        after.grab is None,
    ensures
        after_commands(after).contains(PointerCommand::ToggleOverview) <==> after.hot_corner
            && !after.focused && !after.was_inside_hot_corner,
        after_commands(after).contains(PointerCommand::ActivateConstraint),
        !(after_commands(after).last() is DndUpdate),
{
    let commands = after_commands(after);
    let toggle = PointerCommand::ToggleOverview;
    if after.hot_corner && !after.focused && !after.was_inside_hot_corner {
        assert(commands[0] == toggle);
        assert(commands[1] == PointerCommand::ActivateConstraint);
    } else {
        assert(commands[0] == PointerCommand::ActivateConstraint);
        if commands.contains(toggle) {
            assert(commands[commands.index_of(toggle)] == toggle);
        }
    }
}

/// A pointer that is confined to a surface moves only where that surface is, and within its region. A pointer
/// that is not confined moves freely.
pub proof fn law_confined_pointer_stays(confined: Option<SurfaceHit>, view: MotionView)
    ensures
        confined is None ==> !is_held_back(confined, view),
        confined is Some ==> (is_held_back(confined, view) <==> !view.in_region || !(
        view.under.surface matches Some(hit) && hit.surface == confined->0.surface)),
{
}

/// The wheel sets off binds in the overview, and where binds have the modifiers that are held. Otherwise it
/// goes to the client, and other ways to scroll always do. A layer surface gets the wheel in the overview
/// too.
pub proof fn law_what_the_wheel_is_for(
    niri: Niri,
    is_wheel: bool,
    mods: ModifiersState,
    overview_open: bool,
    focus_root: Option<u64>,
    mapped_layers: Seq<u64>,
)
    ensures
        ({
            let used = wheel_use(niri, is_wheel, mods, overview_open, focus_root, mapped_layers);
            let bound = niri.input.mods_with_wheel_binds@.contains(held(mods));
            let on_layer = focus_root matches Some(root) && mapped_layers.contains(root);
            &&& used is Pass <==> !is_wheel
            &&& is_wheel && overview_open && !on_layer ==> used == (WheelUse::Binds {
                in_overview: true,
            })
            &&& is_wheel && !(overview_open && !on_layer) && bound ==> used == (WheelUse::Binds {
                in_overview: false,
            })
            &&& is_wheel && !(overview_open && !on_layer) && !bound ==> used is ResetAndPass
        }),
{
}

/// The pointer is free unless a surface under it has an active constraint, within whose region it is. Then it
/// does not move, or stays within the surface, as the constraint says.
pub proof fn law_how_a_motion_begins(niri: Niri, view: Option<ConstraintView>)
    ensures
        ({
            let start = motion_start(niri, view);
            let holds = niri.pointer.contents.surface is Some && (view matches Some(v) && v.active
                && v.in_region);
            let none = niri.global_space.outputs@.len() == 0;
            &&& start is Nowhere <==> none
            &&& start is Free <==> !none && !holds
            &&& start matches MotionStart::Locked(hit) ==> holds && niri.pointer.contents.surface
                == Some(hit) && view->0.constraint == PointerConstraint::Locked
            &&& start matches MotionStart::Confined(hit) ==> holds && niri.pointer.contents.surface
                == Some(hit) && view->0.constraint == PointerConstraint::Confined
        }),
{
}

/// What a motion sends: the surface under the pointer learns where it is and how it moved, in this order, and
/// a frame ends it. A pointer that is held back tells only how it was moved, and only its own surface.
pub proof fn law_what_a_motion_sends(ui: ScreenshotUi, confined: Option<SurfaceHit>, view: MotionView)
    ensures
        ({
            let commands = motion_commands(ui, confined, view);
            let n = commands.len() as int;
            let held_back = confined is Some && (!view.in_region || !(view.under.surface matches Some(
                hit,
            ) && hit.surface == confined->0.surface));
            &&& n >= 2
            &&& commands[n - 1] is Frame
            &&& held_back ==> commands[n - 2] == PointerCommand::RelativeMotion(confined)
                && forall|i: int| 0 <= i < n ==> !(#[trigger] commands[i] is Motion)
            &&& !held_back ==> n >= 3 && commands[n - 3] == PointerCommand::Motion(view.under.surface)
                && commands[n - 2] == PointerCommand::RelativeMotion(view.under.surface)
            &&& ui matches ScreenshotUi::Open { selection_output, .. } ==> commands[0]
                == PointerCommand::ScreenshotMotion(selection_output)
        }),
{
}

} // verus!
