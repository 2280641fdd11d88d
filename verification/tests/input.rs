use std::collections::HashSet;

use niri::backend::{Backend, Tty, TtyRequest};
use niri::geometry::{FinePoint, FloatBits, Point, Rectangle, Size};
use niri::input::action::{
    allowed_during_screenshot, allowed_when_locked, Action, SizeChange, WorkspaceReference,
};
use niri::input::binds::{
    find_bind, find_configured_bind, hardcoded_overview_bind, mods_with_binds,
    mods_with_mouse_binds, mods_with_wheel_binds, modifiers_from_state, should_intercept_key, Bind,
    Binds, FilterResult, FoundBind, Key, ModKey, Modifiers, ModifiersState, Trigger, KEY_ESCAPE,
    KEY_LEFT, KEY_RETURN, KEY_SPACE, KEY_XF86POWEROFF, KEY_XF86SWITCH_VT_1,
};
use niri::input::events::{
    should_activate_monitors, should_hide_exit_confirm_dialog, should_hide_hotkey_overlay,
    should_notify_activity, should_reset_pointer_inactivity_timer, InputEvent,
};
use niri::input::grab::{PointerGrab, PointerWrap};
use niri::input::keyboard::{KeyCommand, KeyEvent, KeyView};
use niri::input::libinput::{
    apply_libinput_settings, AccelProfile, DeviceSetting, InputDevice, Mouse, ScrollMethod,
};
use niri::input::plan::{ActionContext, Command, LayoutOp, Plan, Question, WindowView};
use niri::input::pointer::{
    AfterMotion, ButtonEvent, ButtonStart, ButtonView, ConstraintView, MotionStart, MotionView,
    MouseButton, PointerClip, PointerCommand, PointerConstraint, ResizeStart, WheelUse,
    WindowAtCursor, WorkspaceUnder, DOUBLE_CLICK_TIME,
};
use niri::niri::focus::KeyboardFocus;
use niri::niri::lock::{LockState, SessionLock};
use niri::niri::pointer::{FollowView, PointerVisibility};
use niri::niri::redraw::{LockRenderState, OutputState, RedrawState};
use niri::niri::scene::{KeyboardInteractivity, PointContents, SurfaceHit};
use niri::niri::space::{OutputSpace, PlacedOutput};
use niri::niri::{Effect, Niri, ScreenshotUi, State};
use niri::utils::transform::Transform;
use niri::utils::ResizeEdge;

fn rect(x: i32, y: i32, w: i32, h: i32) -> Rectangle {
    Rectangle { loc: Point { x, y }, size: Size { w, h } }
}

fn state() -> State {
    let (mut niri, _) = Niri::new(ModKey::Super, &Binds(vec![]), true, None, 1);
    for id in [1, 2] {
        niri.output_state.push(OutputState {
            id,
            redraw_state: RedrawState::Idle,
            unfinished_animations_remain: false,
            frame_callback_sequence: 0,
            lock_render_state: LockRenderState::Unlocked,
            lock_surface: None,
            screen_transition: false,
        });
    }
    niri.global_space = OutputSpace {
        outputs: vec![
            PlacedOutput { id: 1, geo: rect(0, 0, 100, 100) },
            PlacedOutput { id: 2, geo: rect(100, 0, 100, 100) },
        ],
        sorted: vec![1, 2],
    };
    let backend = Backend::Tty(Tty { seat_name: "seat0".to_string(), requests: vec![] });
    State { backend, niri }
}

fn no_mods() -> ModifiersState {
    ModifiersState {
        ctrl: false,
        alt: false,
        shift: false,
        caps_lock: false,
        logo: false,
        num_lock: false,
        iso_level3_shift: false,
        iso_level5_shift: false,
    }
}

fn super_held() -> ModifiersState {
    ModifiersState { logo: true, ..no_mods() }
}

fn with_mod() -> Modifiers {
    Modifiers { compositor: true, ..Modifiers::empty() }
}

fn bind(trigger: Trigger, modifiers: Modifiers, action: Action) -> Bind {
    Bind {
        key: Key { trigger, modifiers },
        action,
        repeat: true,
        cooldown: None,
        allow_when_locked: false,
        hotkey_overlay_title: None,
    }
}

fn context() -> ActionContext {
    ActionContext {
        active_output: Some(1),
        focus: Some(7),
        focus_with_output: Some((7, 1)),
        windows: vec![
            WindowView { id: 7, output: Some(1), focus_timestamp: Some(30) },
            WindowView { id: 8, output: Some(2), focus_timestamp: Some(20) },
            WindowView { id: 9, output: Some(2), focus_timestamp: None },
        ],
        workspace_windows: vec![],
        active_window: None,
        workspace_under_cursor: Some((2, 20)),
        monitor_under_cursor: Some(2),
        referenced_workspace: None,
        named_output: None,
        workspace_auto_back_and_forth: false,
        num_keyboard_layouts: 2,
        has_config_watcher: true,
    }
}

/// Carries a plan out, with the same answer to every question.
fn carry_out(plan: &Plan, answer: bool) -> Vec<String> {
    match plan {
        Plan::Done => vec![],
        Plan::Do(command, rest) => {
            let mut done = vec![format!("{command:?}")];
            done.extend(carry_out(rest, answer));
            done
        }
        Plan::Ask(question, yes, no) => {
            let mut done = vec![format!("{question:?}")];
            done.extend(carry_out(if answer { yes } else { no }, answer));
            done
        }
    }
}

fn act(state: &State, ctx: &ActionContext, action: Action) -> Vec<String> {
    carry_out(&state.do_action(ctx, action, false), false)
}

fn said(command: Command) -> String {
    format!("{command:?}")
}

#[test]
fn actions_move_the_focus() {
    let state = state();
    assert_eq!(
        act(&state, &context(), Action::FocusColumnLeft),
        vec![
            said(Command::Layout(LayoutOp::FocusLeft)),
            said(Command::WarpCursorToFocus),
            said(Command::ClearOnDemandLayerFocus),
            said(Command::QueueRedrawAll),
        ]
    );
    assert_eq!(
        act(&state, &context(), Action::MoveColumnLeft),
        vec![
            said(Command::Layout(LayoutOp::MoveLeft)),
            said(Command::WarpCursorToFocus),
            said(Command::QueueRedrawAll),
        ]
    );
    let done = act(&state, &context(), Action::FocusMonitorRight);
    assert_eq!(done[0], said(Command::Layout(LayoutOp::FocusOutput(2))));
    assert!(done.contains(&said(Command::MoveCursorToOutput(2))));
    assert!(act(&state, &context(), Action::FocusMonitorLeft).is_empty());
}

#[test]
fn windows_are_acted_on_by_id() {
    let state = state();
    assert_eq!(
        act(&state, &context(), Action::CloseWindow),
        vec![said(Command::CloseWindow(7))]
    );
    assert_eq!(
        act(&state, &context(), Action::CloseWindowById(9)),
        vec![said(Command::CloseWindow(9))]
    );
    assert!(act(&state, &context(), Action::CloseWindowById(99)).is_empty());
    // The window that had the focus before is the one with the latest time.
    let done = act(&state, &context(), Action::FocusWindowPrevious);
    assert!(done.contains(&said(Command::Layout(LayoutOp::ActivateWindow(8)))));
    assert_eq!(carry_out(&state.focus_window(&context(), 8), true)[0].contains("8"), true);
}

#[test]
fn workspaces_are_found_by_reference() {
    let mut ctx = context();
    let index = WorkspaceReference::Index(3);
    assert_eq!(Niri::find_output_and_workspace_index(&ctx, &index), Some((None, 2)));
    let zero = WorkspaceReference::Index(0);
    assert_eq!(Niri::find_output_and_workspace_index(&ctx, &zero), Some((None, 0)));
    let name = WorkspaceReference::Name("a".to_string());
    assert_eq!(Niri::find_output_and_workspace_index(&ctx, &name), None);
    ctx.referenced_workspace = Some((4, Some(2)));
    assert_eq!(Niri::find_output_and_workspace_index(&ctx, &name), Some((Some(2), 4)));
}

#[test]
fn a_locked_session_is_shielded() {
    let mut state = state();
    state.niri.lock_state = LockState::Locked(SessionLock { id: 1, client: 1 });
    assert!(act(&state, &context(), Action::FocusColumnLeft).is_empty());
    assert!(act(&state, &context(), Action::Spawn(vec!["a".to_string()])).is_empty());
    let forced = state.do_action(&context(), Action::Spawn(vec!["a".to_string()]), true);
    assert_eq!(carry_out(&forced, true).len(), 1);
    assert_eq!(
        act(&state, &context(), Action::ChangeVt(2))[0],
        said(Command::ChangeVt(2))
    );
    assert!(allowed_when_locked(&Action::PowerOffMonitors));
    assert!(!allowed_when_locked(&Action::CloseWindow));
}

#[test]
fn a_selection_is_steered() {
    let mut state = state();
    state.niri.screenshot_ui = ScreenshotUi::Open { selection_output: 1, path: None };
    let done = act(&state, &context(), Action::MoveColumnLeft);
    assert!(done[0].contains("MoveScreenshotSelection"));
    let done = act(&state, &context(), Action::SetColumnWidth(SizeChange::SetFixed(5)));
    assert_eq!(done[0], said(Command::SetScreenshotWidth(SizeChange::SetFixed(5))));
    assert!(!allowed_during_screenshot(&Action::FocusColumnLeft));
    assert!(allowed_during_screenshot(&Action::MoveWindowUp));
}

#[test]
fn quitting_asks_first() {
    let state = state();
    let plan = state.do_action(&context(), Action::Quit(false), false);
    assert_eq!(
        carry_out(&plan, true)[0],
        format!("{:?}", Question::ShowExitConfirmDialog)
    );
    assert!(!carry_out(&plan, true).contains(&said(Command::Stop)));
    assert_eq!(act(&state, &context(), Action::Quit(true)), vec![said(Command::Stop)]);
}

#[test]
fn binds_are_found_by_their_modifiers() {
    let binds = vec![
        bind(Trigger::Keysym(0x61), with_mod(), Action::CloseWindow),
        bind(
            Trigger::Keysym(0x61),
            Modifiers { ctrl: true, ..Modifiers::empty() },
            Action::ToggleOverview,
        ),
    ];
    let key = Trigger::Keysym(0x61);
    let find = |mods| find_configured_bind(&binds, ModKey::Super, key, mods);
    assert_eq!(find(super_held()), Some(0));
    assert_eq!(find(ModifiersState { ctrl: true, ..no_mods() }), Some(1));
    assert_eq!(find(no_mods()), None);
    assert_eq!(find(ModifiersState { ctrl: true, ..super_held() }), None);
    assert_eq!(
        find_configured_bind(&binds, ModKey::Alt, key, ModifiersState { alt: true, ..no_mods() }),
        Some(0)
    );
    // Locks do not count.
    assert_eq!(find(ModifiersState { caps_lock: true, num_lock: true, ..super_held() }), Some(0));
    assert!(modifiers_from_state(super_held()).super_key);
}

#[test]
fn some_binds_are_always_there() {
    let none = vec![];
    let find = |modified, disabled| {
        find_bind(&none, ModKey::Super, modified, None, no_mods(), disabled)
    };
    let Some(FoundBind::Fixed(vt)) = find(KEY_XF86SWITCH_VT_1 + 4, false) else { panic!() };
    assert!(matches!(vt.action, Action::ChangeVt(5)));
    let Some(FoundBind::Fixed(power)) = find(KEY_XF86POWEROFF, false) else { panic!() };
    assert!(matches!(power.action, Action::Suspend));
    assert!(find(KEY_XF86POWEROFF, true).is_none());
    assert!(matches!(
        hardcoded_overview_bind(KEY_LEFT, no_mods()).map(|b| b.action),
        Some(Action::FocusColumnLeft)
    ));
    assert!(matches!(
        hardcoded_overview_bind(KEY_ESCAPE, no_mods()).map(|b| b.action),
        Some(Action::ToggleOverview)
    ));
    assert!(hardcoded_overview_bind(KEY_LEFT, super_held()).is_none());
}

#[test]
fn terminals_can_always_be_switched() {
    let mut state = state();
    state.niri.screenshot_ui = ScreenshotUi::Open { selection_output: 1, path: None };
    let event = KeyEvent {
        key_code: 10,
        pressed: true,
        modified: KEY_XF86SWITCH_VT_1,
        raw: Some(0x61),
        mods: super_held(),
    };
    let binds = vec![bind(Trigger::Keysym(0x61), with_mod(), Action::CloseWindow)];
    let view = KeyView {
        grab: None,
        screenshot_action: Some(Action::CancelScreenshot),
        disable_power_key_handling: true,
    };
    let filtered = state.filter_key(&event, view, &binds, ModKey::Super);
    assert!(matches!(
        filtered.result,
        FilterResult::Intercept(Some(FoundBind::Fixed(Bind { action: Action::ChangeVt(1), .. })))
    ));
}

#[test]
fn a_third_click_resizes_again() {
    let mut state = state();
    let edges = ResizeEdge { top: true, bottom: false, left: false, right: false };
    let window = WindowAtCursor { id: 7, is_floating: false, edges, last_resize: None };
    let third = button(MouseButton::Right, super_held(), 10);
    let start =
        state.on_pointer_button(&third, &button_view(Some(window)), &vec![], ModKey::Super);
    let ButtonStart::GoOn(commands) = start else { panic!() };
    assert!(commands.contains(&PointerCommand::StartResizeGrab { window: 7, edges }));
}

#[test]
fn absolute_motion_moves_the_pointer() {
    let mut state = state();
    let under = PointContents { surface: Some(hit(4)), ..PointContents::empty() };
    let view = MotionView { under, in_region: false, follow: follow() };
    let (_, commands) = state.on_pointer_motion_absolute(Some(view));
    assert!(commands.contains(&PointerCommand::Motion(Some(hit(4)))));
    assert_eq!(state.niri.pointer.contents, under);
    let (_, commands) = state.on_pointer_motion_absolute(None);
    assert!(commands.is_empty());
}

#[test]
fn a_release_follows_its_press() {
    let binds = vec![bind(Trigger::Keysym(0x61), with_mod(), Action::CloseWindow)];
    let mut suppressed: HashSet<u32> = HashSet::new();
    let mut press = |pressed, mods| {
        let result = should_intercept_key(
            &mut suppressed,
            &binds,
            ModKey::Super,
            38,
            0x61,
            Some(0x61),
            pressed,
            mods,
            false,
            None,
            false,
        );
        match result {
            FilterResult::Forward => None,
            FilterResult::Intercept(found) => Some(found.is_some()),
        }
    };
    assert_eq!(press(true, super_held()), Some(true));
    // The modifier was released first.
    assert_eq!(press(false, no_mods()), Some(false));
    assert_eq!(press(false, no_mods()), None);
    assert_eq!(press(true, no_mods()), None);
}

#[test]
fn modifiers_of_binds_are_collected() {
    let binds = Binds(vec![
        bind(Trigger::MouseLeft, with_mod(), Action::CloseWindow),
        bind(Trigger::WheelScrollUp, Modifiers::empty(), Action::CloseWindow),
        bind(Trigger::Keysym(0x61), Modifiers { alt: true, ..Modifiers::empty() }, Action::Suspend),
    ]);
    let held = Modifiers { super_key: true, ..Modifiers::empty() };
    assert_eq!(mods_with_mouse_binds(ModKey::Super, &binds), vec![held]);
    assert_eq!(mods_with_wheel_binds(ModKey::Super, &binds), vec![Modifiers::empty()]);
    assert!(mods_with_binds(ModKey::Super, &binds, &vec![Trigger::MouseBack]).is_empty());
}

fn key_event(raw: u32, pressed: bool) -> KeyEvent {
    KeyEvent { key_code: 10, pressed, modified: raw, raw: Some(raw), mods: no_mods() }
}

fn key_view(grab: Option<PointerGrab>) -> KeyView {
    KeyView { grab, screenshot_action: None, disable_power_key_handling: false }
}

#[test]
fn keys_answer_the_dialog() {
    let mut state = state();
    state.niri.exit_confirm_dialog_open = true;
    let none = vec![];
    let filtered =
        state.filter_key(&key_event(KEY_RETURN, true), key_view(None), &none, ModKey::Super);
    assert_eq!(filtered.commands, vec![KeyCommand::Stop]);
    assert!(matches!(filtered.result, FilterResult::Intercept(None)));
    let filtered =
        state.filter_key(&key_event(KEY_RETURN, false), key_view(None), &none, ModKey::Super);
    assert!(matches!(filtered.result, FilterResult::Intercept(None)));
    let filtered =
        state.filter_key(&key_event(KEY_SPACE, true), key_view(None), &none, ModKey::Super);
    assert!(filtered.commands.is_empty());
}

#[test]
fn escape_ends_some_grabs() {
    let mut state = state();
    let none = vec![];
    let event = key_event(KEY_ESCAPE, true);
    let filtered =
        state.filter_key(&event, key_view(Some(PointerGrab::PickColor)), &none, ModKey::Super);
    assert_eq!(filtered.commands, vec![KeyCommand::UnsetPointerGrab]);
    let filtered =
        state.filter_key(&event, key_view(Some(PointerGrab::Resize)), &none, ModKey::Super);
    assert!(matches!(filtered.result, FilterResult::Forward));
    state.niri.keyboard.focus = KeyboardFocus::Overview;
    let filtered = state.filter_key(&event, key_view(None), &none, ModKey::Super);
    assert!(matches!(
        filtered.result,
        FilterResult::Intercept(Some(FoundBind::Fixed(Bind { action: Action::ToggleOverview, .. })))
    ));
    let filtered =
        state.filter_key(&key_event(KEY_SPACE, true), key_view(None), &none, ModKey::Super);
    assert_eq!(filtered.commands, vec![KeyCommand::SetSpaceDown(true)]);
}

#[test]
fn held_keys_repeat() {
    let mut state = state();
    let repeating = bind(Trigger::Keysym(1), with_mod(), Action::CloseWindow);
    assert_eq!(
        state.start_key_repeat(&repeating, 25, 600, 4),
        vec![Effect::StartKeyRepeat { token: 4, delay_ms: 600, rate: 25 }]
    );
    assert_eq!(
        state.start_key_repeat(&repeating, 25, 600, 5),
        vec![
            Effect::RemoveTimer(4),
            Effect::StartKeyRepeat { token: 5, delay_ms: 600, rate: 25 },
        ]
    );
    let (effects, redraw) = state.on_keyboard(false, true);
    assert_eq!(effects, vec![Effect::RemoveTimer(5)]);
    assert!(!redraw);
    assert!(state.start_key_repeat(&repeating, 0, 600, 6).is_empty());
    let once = Bind { repeat: false, ..repeating };
    assert!(state.start_key_repeat(&once, 25, 600, 7).is_empty());
    let (effects, redraw) = state.on_keyboard(true, true);
    assert!(effects.is_empty() && redraw);
    assert_eq!(state.niri.pointer.visibility, PointerVisibility::Hidden);
}

#[test]
fn binds_rest() {
    let mut state = state();
    let mut resting = bind(Trigger::WheelScrollUp, with_mod(), Action::FocusColumnLeft);
    resting.cooldown = Some(150);
    let key = resting.key;
    let run = state.handle_bind(&context(), resting.clone());
    assert_eq!(run.effects, vec![Effect::StartBindCooldown { key, ms: 150 }]);
    assert!(!matches!(run.plan, Plan::Done));
    let run = state.handle_bind(&context(), resting.clone());
    assert!(run.effects.is_empty() && matches!(run.plan, Plan::Done));
    assert!(state.niri.bind_cooldown_over(key));
    assert!(!state.niri.bind_cooldown_over(key));
    state.niri.lock_state = LockState::Locked(SessionLock { id: 1, client: 1 });
    let run = state.handle_bind(&context(), resting);
    assert!(run.effects.is_empty() && matches!(run.plan, Plan::Done));
    assert!(state.niri.input.bind_cooldown_timers.is_empty());
}

#[test]
fn events_wake_and_dismiss() {
    let press = InputEvent::Keyboard { pressed: true };
    let release = InputEvent::Keyboard { pressed: false };
    assert!(should_activate_monitors(&press));
    assert!(!should_activate_monitors(&release));
    assert!(should_hide_hotkey_overlay(&press) && !should_hide_hotkey_overlay(&release));
    assert!(should_hide_exit_confirm_dialog(&InputEvent::PointerButton { pressed: true }));
    assert!(!should_hide_exit_confirm_dialog(&InputEvent::PointerMotion));
    assert!(should_notify_activity(&release));
    assert!(!should_notify_activity(&InputEvent::DeviceAdded));
    assert!(should_reset_pointer_inactivity_timer(&InputEvent::PointerAxis));
    assert!(!should_reset_pointer_inactivity_timer(&press));
    let mut state = state();
    state.niri.monitors_active = false;
    state.niri.exit_confirm_dialog_open = true;
    let start = state.process_input_event(&release, Some(100), 3);
    assert!(!start.notify_idle && !state.niri.monitors_active);
    let start = state.process_input_event(&press, Some(100), 3);
    assert!(start.notify_idle && state.niri.monitors_active);
    assert_eq!(state.backend.tty().requests, vec![TtyRequest::SetMonitorsActive(true)]);
    assert!(start.hide_exit_confirm_dialog);
    state.finish_input_event(&start);
    assert!(!state.niri.exit_confirm_dialog_open);
    let start = state.process_input_event(&InputEvent::PointerMotion, Some(100), 3);
    assert_eq!(start.effects, vec![Effect::StartInactivityTimer { token: 3, timeout_ms: 100 }]);
}

#[test]
fn mice_are_set_up() {
    let config = Mouse {
        off: false,
        natural_scroll: true,
        accel_speed: FloatBits { bits: 0 },
        accel_profile: Some(AccelProfile::Flat),
        scroll_method: Some(ScrollMethod::OnButtonDown),
        scroll_button: Some(274),
        scroll_button_lock: true,
        left_handed: false,
        middle_emulation: false,
        scroll_factor: None,
    };
    let mouse = InputDevice {
        tap_finger_count: 0,
        is_pointer: true,
        is_keyboard: false,
        default_accel_profile: Some(AccelProfile::Adaptive),
        default_scroll_method: None,
    };
    let settings = apply_libinput_settings(&config, &mouse);
    assert_eq!(
        settings,
        vec![
            DeviceSetting::SendEvents(true),
            DeviceSetting::NaturalScroll(true),
            DeviceSetting::AccelSpeed(FloatBits { bits: 0 }),
            DeviceSetting::LeftHanded(false),
            DeviceSetting::MiddleEmulation(false),
            DeviceSetting::AccelProfile(AccelProfile::Flat),
            DeviceSetting::ScrollMethod(ScrollMethod::OnButtonDown),
            DeviceSetting::ScrollButton(274),
            DeviceSetting::ScrollButtonLock(true),
        ]
    );
    let touchpad = InputDevice { tap_finger_count: 3, ..mouse };
    assert!(apply_libinput_settings(&config, &touchpad).is_empty());
    let mut state = state();
    let keyboard = InputDevice { is_pointer: false, is_keyboard: true, ..mouse };
    let (lights, settings) = state.device_added(5, &keyboard, &config);
    assert!(lights && settings.is_empty());
    assert!(state.niri.input.devices.contains(&5));
    state.device_removed(5);
    assert!(state.niri.input.devices.is_empty());
}

#[test]
fn grabs_differ() {
    assert!(PointerGrab::DragAndDrop.is_dnd_grab());
    assert!(PointerGrab::PickWindow.grab_can_be_cancelled_with_esc());
    assert!(!PointerGrab::Popup.grab_can_be_cancelled_with_esc());
    assert!(!PointerGrab::Resize.grab_allows_hot_corner());
    let moving = PointerGrab::Move { is_move: true, view_offset_output: None };
    assert!(moving.grab_allows_hot_corner());
    let scrolling = PointerGrab::Move { is_move: false, view_offset_output: Some(2) };
    assert!(!scrolling.grab_allows_hot_corner());
    assert_eq!(scrolling.wrap(), Some(PointerWrap { output: 2, horizontal: true }));
    let spatial =
        PointerGrab::SpatialMovement { view_offset_output: None, workspace_switch_output: Some(1) };
    assert_eq!(spatial.wrap(), Some(PointerWrap { output: 1, horizontal: false }));
    assert_eq!(moving.wrap(), None);
}

fn hit(surface: u64) -> SurfaceHit {
    let zero = FloatBits { bits: 0 };
    SurfaceHit { surface, location: FinePoint { x: zero, y: zero } }
}

#[test]
fn the_pointer_stays_on_the_outputs() {
    let state = state();
    let inside = Point { x: 10, y: 10 };
    let beyond = Point { x: 10, y: 300 };
    assert_eq!(state.niri.clip_pointer(inside, Point { x: 150, y: 5 }), PointerClip::Free);
    assert_eq!(
        state.niri.clip_pointer(inside, beyond),
        PointerClip::Within(rect(0, 0, 100, 100))
    );
    assert_eq!(
        state.niri.clip_pointer(beyond, beyond),
        PointerClip::At(Point { x: 50, y: 50 })
    );
    let area = state.niri.compute_absolute_location(Some(2), None, Transform::Normal).unwrap();
    assert_eq!(area.geo, rect(100, 0, 100, 100));
    let other = state.niri.compute_absolute_location(Some(9), Some(1), Transform::_90).unwrap();
    assert_eq!(other.geo, rect(0, 0, 100, 100));
    assert_eq!(other.transform, Transform::_90);
    assert!(state.niri.compute_absolute_location(None, None, Transform::Normal).is_none());
}

#[test]
fn constraints_hold_the_pointer() {
    let mut state = state();
    let contents = PointContents { surface: Some(hit(4)), ..PointContents::empty() };
    state.niri.pointer.contents = contents;
    let locked =
        ConstraintView { constraint: PointerConstraint::Locked, active: true, in_region: true };
    let (_, start) = state.on_pointer_motion(Some(locked));
    assert_eq!(start, MotionStart::Locked(hit(4)));
    let confined = ConstraintView { constraint: PointerConstraint::Confined, ..locked };
    let (_, start) = state.on_pointer_motion(Some(confined));
    assert_eq!(start, MotionStart::Confined(hit(4)));
    let (_, start) = state.on_pointer_motion(Some(ConstraintView { active: false, ..locked }));
    assert_eq!(start, MotionStart::Free);
    let idle = ConstraintView { active: false, ..locked };
    assert!(state.niri.maybe_activate_pointer_constraint(Some(4), Some(idle)));
    assert!(!state.niri.maybe_activate_pointer_constraint(Some(5), Some(idle)));
    assert!(!state.niri.maybe_activate_pointer_constraint(Some(4), None));
}

fn follow() -> FollowView {
    FollowView {
        config: None,
        pointer_grabbed: false,
        current: PointContents::empty(),
        overview_open: false,
        triggers: false,
        scrolls_too_far: false,
    }
}

#[test]
fn a_confined_pointer_does_not_leave() {
    let mut state = state();
    let inside = PointContents { surface: Some(hit(4)), ..PointContents::empty() };
    let view = MotionView { under: inside, in_region: true, follow: follow() };
    let (moved, commands) = state.move_pointer(Some(hit(4)), &view);
    assert!(moved);
    assert!(commands.contains(&PointerCommand::Motion(Some(hit(4)))));
    let outside = PointContents { surface: Some(hit(5)), ..PointContents::empty() };
    let view = MotionView { under: outside, in_region: true, follow: follow() };
    let (moved, commands) = state.move_pointer(Some(hit(4)), &view);
    assert!(!moved);
    assert!(!commands.contains(&PointerCommand::Motion(Some(hit(5)))));
}

#[test]
fn a_hot_corner_triggers_once() {
    let mut state = state();
    let first = AfterMotion {
        was_inside_hot_corner: false,
        hot_corner: true,
        focused: false,
        grab: None,
        output: Some(1),
    };
    let commands = state.finish_pointer_motion(&first);
    assert!(commands.contains(&PointerCommand::ToggleOverview));
    assert!(state.niri.pointer.inside_hot_corner);
    let second = AfterMotion { was_inside_hot_corner: true, ..first };
    assert!(!state.finish_pointer_motion(&second).contains(&PointerCommand::ToggleOverview));
    let dragging = AfterMotion { grab: Some(PointerGrab::DragAndDrop), ..first };
    assert!(state.finish_pointer_motion(&dragging).contains(&PointerCommand::DndUpdate(1)));
    let resizing = AfterMotion { grab: Some(PointerGrab::Resize), ..first };
    assert!(!state.finish_pointer_motion(&resizing).contains(&PointerCommand::ToggleOverview));
}

fn button(button: MouseButton, mods: ModifiersState, time: u64) -> ButtonEvent {
    ButtonEvent { button: Some(button), code: 272, pressed: true, mods, time }
}

fn button_view(window: Option<WindowAtCursor>) -> ButtonView {
    ButtonView {
        overview_open: false,
        pointer_grabbed: false,
        workspace_beside: None,
        workspace: None,
        output: Some(1),
        active_workspace: Some(10),
        window,
    }
}

#[test]
fn clicks_on_windows() {
    let mut state = state();
    let right = ResizeEdge { top: false, bottom: false, left: false, right: true };
    let window = WindowAtCursor { id: 7, is_floating: false, edges: right, last_resize: None };
    let none = vec![];
    let view = button_view(Some(window));
    let plain = button(MouseButton::Left, no_mods(), 0);
    let ButtonStart::GoOn(commands) = state.on_pointer_button(&plain, &view, &none, ModKey::Super)
    else {
        panic!()
    };
    assert_eq!(
        commands,
        vec![PointerCommand::ActivateWindow(7), PointerCommand::QueueRedrawAll]
    );
    let grab = button(MouseButton::Left, super_held(), 0);
    let ButtonStart::GoOn(commands) = state.on_pointer_button(&grab, &view, &none, ModKey::Super)
    else {
        panic!()
    };
    assert!(commands.contains(&PointerCommand::StartMoveGrab { window: 7, show: true }));
    let resize = button(MouseButton::Right, super_held(), 1000);
    let ButtonStart::GoOn(commands) =
        state.on_pointer_button(&resize, &view, &none, ModKey::Super)
    else {
        panic!()
    };
    assert!(commands.contains(&PointerCommand::StartResizeGrab { window: 7, edges: right }));
    // A second click in time makes the column wide.
    let again = WindowAtCursor {
        last_resize: Some(ResizeStart { time: 1000, edges: right }),
        ..window
    };
    let second = button(MouseButton::Right, super_held(), 1000 + DOUBLE_CLICK_TIME);
    let ButtonStart::Done(commands) =
        state.on_pointer_button(&second, &button_view(Some(again)), &none, ModKey::Super)
    else {
        panic!()
    };
    assert!(commands.contains(&PointerCommand::ToggleFullWidth));
    assert!(commands.contains(&PointerCommand::SetLastResize { window: 7, start: None }));
    let late = button(MouseButton::Right, super_held(), 1001 + DOUBLE_CLICK_TIME);
    let start =
        state.on_pointer_button(&late, &button_view(Some(again)), &none, ModKey::Super);
    assert!(matches!(start, ButtonStart::GoOn(_)));
}

#[test]
fn clicks_elsewhere() {
    let mut state = state();
    let none = vec![];
    let plain = button(MouseButton::Left, no_mods(), 0);
    let ButtonStart::GoOn(commands) =
        state.on_pointer_button(&plain, &button_view(None), &none, ModKey::Super)
    else {
        panic!()
    };
    assert_eq!(commands, vec![PointerCommand::FocusOutput(1), PointerCommand::QueueRedrawAll]);
    let mut overview = button_view(None);
    overview.overview_open = true;
    overview.workspace = Some(WorkspaceUnder { output: 2, id: 20, index: 1 });
    let ButtonStart::GoOn(commands) =
        state.on_pointer_button(&plain, &overview, &none, ModKey::Super)
    else {
        panic!()
    };
    assert!(commands.contains(&PointerCommand::ToggleOverviewToWorkspace(1)));
    let middle = button(MouseButton::Middle, super_held(), 0);
    let ButtonStart::Done(commands) =
        state.on_pointer_button(&middle, &button_view(None), &none, ModKey::Super)
    else {
        panic!()
    };
    assert!(commands.contains(&PointerCommand::StartSpatialGrab {
        output: 1,
        workspace: 10,
        is_view_offset: false
    }));
}

#[test]
fn buttons_set_off_binds() {
    let mut state = state();
    let binds = vec![bind(Trigger::MouseLeft, with_mod(), Action::CloseWindow)];
    let held = Modifiers { super_key: true, ..Modifiers::empty() };
    state.niri.input.mods_with_mouse_binds = vec![held];
    let event = button(MouseButton::Left, super_held(), 0);
    let start = state.on_pointer_button(&event, &button_view(None), &binds, ModKey::Super);
    assert!(matches!(start, ButtonStart::Bind(0)));
    let release = ButtonEvent { pressed: false, ..event };
    let start = state.on_pointer_button(&release, &button_view(None), &binds, ModKey::Super);
    assert!(matches!(start, ButtonStart::Swallowed));
    let start = state.on_pointer_button(&release, &button_view(None), &binds, ModKey::Super);
    assert!(matches!(start, ButtonStart::GoOn(commands) if commands.is_empty()));
}

#[test]
fn a_button_event_ends() {
    let mut state = state();
    state.niri.screenshot_ui = ScreenshotUi::Open { selection_output: 1, path: None };
    let event = button(MouseButton::Left, no_mods(), 0);
    let (_, _, commands) = state.finish_pointer_button(
        &event,
        ModKey::Super,
        PointContents::empty(),
        KeyboardInteractivity::Never,
        Some(2),
    );
    assert_eq!(
        commands,
        vec![
            PointerCommand::ScreenshotPointerDown { output: 2, move_selection: false },
            PointerCommand::Button,
            PointerCommand::Frame,
        ]
    );
    let held = button(MouseButton::Left, super_held(), 0);
    let (_, _, commands) = state.finish_pointer_button(
        &held,
        ModKey::Super,
        PointContents::empty(),
        KeyboardInteractivity::Never,
        Some(2),
    );
    assert_eq!(
        commands[0],
        PointerCommand::ScreenshotPointerDown { output: 1, move_selection: true }
    );
}

#[test]
fn the_wheel_sets_off_binds() {
    let mut state = state();
    let layers = vec![4];
    let uses = state.on_pointer_axis(false, no_mods(), true, None, &layers);
    assert_eq!(uses, WheelUse::Pass);
    let uses = state.on_pointer_axis(true, no_mods(), false, None, &layers);
    assert_eq!(uses, WheelUse::ResetAndPass);
    let uses = state.on_pointer_axis(true, no_mods(), true, None, &layers);
    assert_eq!(uses, WheelUse::Binds { in_overview: true });
    let uses = state.on_pointer_axis(true, no_mods(), true, Some(5), &layers);
    assert_eq!(uses, WheelUse::Binds { in_overview: true });
    let uses = state.on_pointer_axis(true, no_mods(), true, Some(4), &layers);
    assert_eq!(uses, WheelUse::ResetAndPass);
    let none = vec![];
    let run = state.vertical_wheel_run(true, 2, no_mods(), &none, ModKey::Super).unwrap();
    assert_eq!(run.times, 2);
    assert!(matches!(
        &run.bind,
        FoundBind::Fixed(Bind {
            action: Action::FocusWorkspaceDownUnderMouse,
            cooldown: Some(50),
            ..
        })
    ));
    let shift = ModifiersState { shift: true, ..no_mods() };
    let run = state.vertical_wheel_run(true, -1, shift, &none, ModKey::Super).unwrap();
    assert!(matches!(
        &run.bind,
        FoundBind::Fixed(Bind { action: Action::FocusColumnLeftUnderMouse, .. })
    ));
    let run = state.horizontal_wheel_run(true, -1, no_mods(), &none, ModKey::Super).unwrap();
    assert!(matches!(
        &run.bind,
        FoundBind::Fixed(Bind {
            action: Action::FocusColumnLeftUnderMouse,
            cooldown: None,
            ..
        })
    ));
    assert!(state.horizontal_wheel_run(true, 0, no_mods(), &none, ModKey::Super).is_none());
    let binds = vec![bind(Trigger::WheelScrollUp, with_mod(), Action::CloseWindow)];
    let run = state.vertical_wheel_run(false, -128, super_held(), &binds, ModKey::Super).unwrap();
    assert!(matches!(run.bind, FoundBind::Configured(0)));
    assert_eq!(run.times, 128);
    assert!(state.vertical_wheel_run(false, 3, super_held(), &binds, ModKey::Super).is_none());
    // While a selection is made, only some actions can be set off.
    state.niri.screenshot_ui = ScreenshotUi::Open { selection_output: 1, path: None };
    assert!(state.vertical_wheel_run(false, -1, super_held(), &binds, ModKey::Super).is_none());
}

#[test]
fn commands_on_the_compositor_itself_are_carried_out() {
    let mut state = state();
    state.niri.input.suppressed_keys.insert(30);
    state.niri.keyboard.layer_shell_on_demand_focus = Some(5);
    state.niri.screenshot_ui = ScreenshotUi::Open { selection_output: 1, path: None };

    assert!(state.carry_out(Command::ClearSuppressedKeys).is_none());
    assert!(state.niri.input.suppressed_keys.is_empty());
    assert!(state.carry_out(Command::ClearOnDemandLayerFocus).is_none());
    assert!(state.niri.keyboard.layer_shell_on_demand_focus.is_none());

    assert!(state.carry_out(Command::MoveScreenshotToOutput(2)).is_none());
    assert!(matches!(
        state.niri.screenshot_ui,
        ScreenshotUi::Open { selection_output: 2, path: None }
    ));
    assert!(state.carry_out(Command::CloseScreenshotUi).is_none());
    assert!(matches!(state.niri.screenshot_ui, ScreenshotUi::Closed));
    assert!(state.carry_out(Command::MoveScreenshotToOutput(1)).is_none());
    assert!(matches!(state.niri.screenshot_ui, ScreenshotUi::Closed));

    // An unknown output is left alone.
    assert!(state.carry_out(Command::QueueRedraw(9)).is_none());
    assert_eq!(state.niri.output_state[0].redraw_state, RedrawState::Idle);
    assert!(state.carry_out(Command::QueueRedraw(2)).is_none());
    assert_eq!(state.niri.output_state[0].redraw_state, RedrawState::Idle);
    assert_eq!(state.niri.output_state[1].redraw_state, RedrawState::Queued);

    assert!(state.carry_out(Command::ChangeVt(3)).is_none());
    assert!(state.carry_out(Command::DeactivateMonitors).is_none());
    assert!(state.carry_out(Command::DeactivateMonitors).is_none());
    assert!(state.carry_out(Command::ActivateMonitors).is_none());
    assert_eq!(state.niri.output_state[0].redraw_state, RedrawState::Queued);
    assert!(state.carry_out(Command::Suspend).is_none());
    let Backend::Tty(tty) = &state.backend else { panic!("not a terminal") };
    assert_eq!(
        tty.requests,
        vec![
            TtyRequest::ChangeVt(3),
            TtyRequest::SetMonitorsActive(false),
            TtyRequest::SetMonitorsActive(true),
            TtyRequest::Suspend,
        ]
    );
}

#[test]
fn other_commands_are_handed_back() {
    let mut state = state();
    assert!(matches!(state.carry_out(Command::Stop), Some(Command::Stop)));
    assert!(matches!(state.carry_out(Command::CloseWindow(7)), Some(Command::CloseWindow(7))));
    assert_eq!(state.niri.output_state[0].redraw_state, RedrawState::Idle);
}
