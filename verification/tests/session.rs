use niri::backend::{Backend, RenderResult, Tty, TtyRequest};
use niri::config::misc::Color;
use niri::config::rules::Look;
use niri::geometry::{FinePoint, FloatBits, Point, Rectangle, Size};
use niri::input::binds::{Bind, Binds, Key, ModKey, Modifiers, Trigger};
use niri::input::action::Action;
use niri::niri::focus::{
    FocusEffect, FocusView, KeyboardFocus, OnDemandView, PopupGrab,
};
use niri::niri::handlers::{ClientState, CursorImage, DropFocus, FilteredGlobal};
use niri::niri::lock::{LockState, SessionLock};
use niri::niri::output_config::{
    backdrop_color, hot_corners, ConfiguredMode, Mode, Modeline, OutputAction, OutputConfig,
    OutputLayout, OutputName, OutputReload, Outputs, ResizedOutput,
};
use niri::niri::outputs::OutputShape;
use niri::niri::placement::OutputData;
use niri::niri::pointer::{
    move_cursor_to_rect, CenterCoords, CursorMove, FocusFollowsMouse, FollowView,
    PointerVisibility, WarpMouseToFocus,
};
use niri::niri::presentation::{
    scanout_element, OffscreenView, ScanoutRule, SurfaceFrameThrottlingState, SurfaceRoot,
    SurfacesView,
};
use niri::niri::redraw::{
    find_state, LockRenderState, LockSurface, OngoingAnimations, OutputState, RedrawState,
};
use niri::niri::refresh::{PlacedLayer, RefreshStep};
use niri::niri::scene::{
    layers_in_render_order, HitType, KeyboardInteractivity, Layer, LayerView, OutputView,
    PointContents, RenderStep, SurfaceHit, WindowHit, WindowUnder,
};
use niri::niri::screenshot::Capture;
use niri::niri::space::{Direction, OutputSpace, PlacedOutput};
use niri::niri::under::HotCorners;
use niri::niri::{Effect, Niri, ScreenshotUi, State};
use niri::utils::png::PictureError;
use niri::utils::transform::{logical_output, IpcTransform, Transform};
use niri::utils::CursorIcon;

fn rect(x: i32, y: i32, w: i32, h: i32) -> Rectangle {
    Rectangle { loc: Point { x, y }, size: Size { w, h } }
}

fn output(id: u64) -> OutputState {
    OutputState {
        id,
        redraw_state: RedrawState::Idle,
        unfinished_animations_remain: false,
        frame_callback_sequence: 0,
        lock_render_state: LockRenderState::Unlocked,
        lock_surface: None,
        screen_transition: false,
    }
}

/// Two outputs side by side.
fn state() -> State {
    let (mut niri, _) = Niri::new(ModKey::Super, &Binds(vec![]), true, None, 1);
    niri.output_state = vec![output(1), output(2)];
    niri.global_space = OutputSpace {
        outputs: vec![
            PlacedOutput { id: 1, geo: rect(0, 0, 100, 100) },
            PlacedOutput { id: 2, geo: rect(100, 0, 100, 100) },
        ],
        sorted: vec![1, 2],
    };
    let backend = Backend::Tty(Tty { seat_name: "seat0".to_string(), requests: vec![] });
    State { backend, niri }
}

fn still() -> OngoingAnimations {
    OngoingAnimations {
        layout: false,
        config_error_notification: false,
        exit_confirm_dialog: false,
        screenshot_ui: false,
        cursor: false,
        layer_surfaces: false,
    }
}

fn at(x: u64, y: u64) -> FinePoint {
    FinePoint { x: FloatBits { bits: x }, y: FloatBits { bits: y } }
}

fn hit(surface: u64) -> SurfaceHit {
    SurfaceHit { surface, location: at(0, 0) }
}

fn layer(id: u64, layer: Layer) -> LayerView {
    LayerView {
        id,
        surface: id,
        layer,
        mapped: true,
        place_within_backdrop: false,
        keyboard_interactivity: KeyboardInteractivity::Never,
        popup_under: None,
        toplevel_under: None,
    }
}

fn empty_view() -> OutputView {
    OutputView {
        layers: vec![],
        render_above_top_layer: false,
        overview_open: false,
        workspaces: vec![10],
        workspace_under: Some(10),
        moved_window_under: None,
        window_under: None,
        inside_hot_corner: false,
        lock_surface_under: None,
        moving_above: false,
    }
}

#[test]
fn it_starts_with_nothing() {
    let bind = Bind {
        key: Key { trigger: Trigger::MouseLeft, modifiers: Modifiers { ..Modifiers::empty() } },
        action: Action::Suspend,
        repeat: true,
        cooldown: None,
        allow_when_locked: false,
        hotkey_overlay_title: None,
    };
    let (niri, effects) = Niri::new(ModKey::Super, &Binds(vec![bind]), false, Some(500), 7);
    assert!(niri.output_state.is_empty());
    assert!(!niri.is_locked());
    assert!(niri.is_at_startup);
    assert!(niri.input.hotkey_overlay_open);
    assert_eq!(niri.input.mods_with_mouse_binds, vec![Modifiers::empty()]);
    assert!(niri.input.mods_with_wheel_binds.is_empty());
    assert_eq!(niri.pointer.inactivity_timer, Some(7));
    assert_eq!(effects, vec![Effect::StartInactivityTimer { token: 7, timeout_ms: 500 }]);
    let (niri, effects) = Niri::new(ModKey::Alt, &Binds(vec![]), true, None, 7);
    assert!(!niri.input.hotkey_overlay_open);
    assert!(effects.is_empty());
}

#[test]
fn redraws_are_queued_once() {
    let states = [
        RedrawState::Idle,
        RedrawState::Queued,
        RedrawState::WaitingForVBlank { redraw_needed: false },
        RedrawState::WaitingForEstimatedVBlank(4),
        RedrawState::WaitingForEstimatedVBlankAndQueued(4),
    ];
    for state in states {
        let once = state.queue_redraw();
        assert_eq!(once.queue_redraw(), once);
    }
    assert_eq!(RedrawState::Idle.queue_redraw(), RedrawState::Queued);
    assert_eq!(
        RedrawState::WaitingForEstimatedVBlank(4).queue_redraw(),
        RedrawState::WaitingForEstimatedVBlankAndQueued(4)
    );
    let mut state = state();
    assert_eq!(state.niri.next_queued_output(), None);
    assert_eq!(state.niri.redraw_queued_outputs(still()), None);
    state.niri.queue_redraw(2);
    assert_eq!(state.niri.next_queued_output(), Some(2));
    state.niri.queue_redraw_all();
    assert_eq!(state.niri.next_queued_output(), Some(1));
    assert_eq!(find_state(&state.niri.output_state, 2), Some(1));
    assert_eq!(find_state(&state.niri.output_state, 3), None);
}

#[test]
fn a_session_is_locked_once_all_outputs_are() {
    let mut niri = state().niri;
    let lock = SessionLock { id: 5, client: 9 };
    assert_eq!(niri.lock(lock, false, 3), vec![Effect::StartLockDeadline(3)]);
    assert!(!niri.is_locked());
    assert!(!niri.new_lock_surface(LockSurface { surface: 50, client: 8 }, 1));
    assert!(niri.new_lock_surface(LockSurface { surface: 50, client: 9 }, 1));
    assert!(niri.maybe_continue_to_locking(&vec![50]).is_empty());
    assert!(niri.new_lock_surface(LockSurface { surface: 51, client: 9 }, 2));
    assert!(niri.maybe_continue_to_locking(&vec![50]).is_empty());
    assert_eq!(
        niri.maybe_continue_to_locking(&vec![50, 51]),
        vec![Effect::RemoveTimer(3), Effect::ResetCursorImage]
    );
    assert!(niri.is_locked());
    assert!(niri.begin_redraw(1, still()));
    assert!(niri.finish_redraw(1, RenderResult::Submitted).is_empty());
    assert!(niri.begin_redraw(2, still()));
    assert_eq!(niri.finish_redraw(2, RenderResult::NoDamage), vec![Effect::ConfirmLock(lock)]);
    assert_eq!(niri.lock_state, LockState::Locked(lock));
    let other = SessionLock { id: 6, client: 10 };
    assert_eq!(niri.lock(other, true, 4), vec![Effect::DenyLock(other)]);
    assert_eq!(niri.lock(other, false, 4), vec![Effect::ConfirmLock(other)]);
    assert!(niri.unlock().is_empty());
    assert!(!niri.is_locked());
    assert!(niri.output_state.iter().all(|s| s.lock_surface.is_none()));
}

#[test]
fn a_failed_frame_denies_the_lock() {
    let mut niri = state().niri;
    let lock = SessionLock { id: 5, client: 9 };
    niri.lock(lock, false, 3);
    niri.continue_to_locking();
    assert!(niri.is_locked());
    assert_eq!(niri.finish_redraw(1, RenderResult::Skipped), vec![Effect::DenyLock(lock)]);
    assert!(!niri.is_locked());
}

#[test]
fn powered_off_outputs_count_as_locked() {
    let mut state = state();
    let lock = SessionLock { id: 5, client: 9 };
    state.niri.deactivate_monitors(&mut state.backend);
    assert_eq!(state.backend.tty().requests, vec![TtyRequest::SetMonitorsActive(false)]);
    state.niri.lock(lock, false, 3);
    state.niri.continue_to_locking();
    assert!(!state.niri.begin_redraw(1, still()));
    assert!(state.niri.finish_redraw(1, RenderResult::Skipped).is_empty());
    assert_eq!(
        state.niri.finish_redraw(2, RenderResult::Skipped),
        vec![Effect::ConfirmLock(lock)]
    );
    let (effects, notify) = state.unlock();
    assert!(effects.is_empty() && notify);
    assert!(state.niri.monitors_active);
}

#[test]
fn without_outputs_locking_is_immediate() {
    let (mut niri, _) = Niri::new(ModKey::Super, &Binds(vec![]), true, None, 1);
    let lock = SessionLock { id: 5, client: 9 };
    assert_eq!(
        niri.lock(lock, false, 3),
        vec![Effect::ResetCursorImage, Effect::ConfirmLock(lock)]
    );
    assert!(niri.is_locked());
}

#[test]
fn lock_surfaces_are_taken_for_outputs_that_are_there() {
    let mut state = state();
    let surface = LockSurface { surface: 50, client: 9 };
    assert_eq!(state.new_surface(surface, Some(1)), Some(1));
    assert_eq!(state.niri.output_state[0].lock_surface, None);
    state.niri.lock(SessionLock { id: 5, client: 9 }, false, 3);
    assert_eq!(state.new_surface(surface, Some(1)), Some(1));
    assert_eq!(state.niri.output_state[0].lock_surface, Some(surface));
    assert_eq!(state.new_surface(surface, Some(7)), None);
    assert_eq!(state.new_surface(surface, None), None);
}

#[test]
fn animations_keep_an_output_drawing() {
    let mut niri = state().niri;
    niri.queue_redraw_all();
    niri.begin_redraw(1, OngoingAnimations { cursor: true, ..still() });
    assert!(niri.output_state[0].unfinished_animations_remain);
    niri.begin_redraw(1, still());
    assert!(!niri.output_state[0].unfinished_animations_remain);
    niri.output_state[0].screen_transition = true;
    niri.begin_redraw(1, still());
    assert!(niri.output_state[0].unfinished_animations_remain);
    niri.advance_animations(&vec![true, false]);
    assert!(!niri.output_state[0].screen_transition);
}

fn data(id: u64, position: Option<Point>, config: Option<Point>) -> OutputData {
    let size = Size { w: 100, h: 50 };
    OutputData { id, rank: id, position, config, size, shown_size: size }
}

#[test]
fn outputs_are_placed_apart() {
    let (mut niri, _) = Niri::new(ModKey::Super, &Binds(vec![]), true, None, 1);
    let placed = niri.add_output(1, vec![data(1, None, None)]);
    assert_eq!(placed.order.len(), 1);
    let here = Some(Point { x: 0, y: 0 });
    niri.add_output(2, vec![data(1, here, None), data(2, None, None)]);
    assert_eq!(niri.global_space.output_geometry(1), Some(rect(0, 0, 100, 50)));
    assert_eq!(niri.global_space.output_geometry(2), Some(rect(100, 0, 100, 50)));
    // A position that is taken is not used.
    let there = Some(Point { x: 50, y: 0 });
    niri.add_output(
        3,
        vec![
            data(1, here, here),
            data(2, Some(Point { x: 100, y: 0 }), None),
            data(3, None, there),
        ],
    );
    let areas: Vec<Rectangle> =
        [1, 2, 3].iter().map(|id| niri.global_space.output_geometry(*id).unwrap()).collect();
    assert!(!areas[0].overlaps(areas[1]));
    assert!(!areas[0].overlaps(areas[2]));
    assert!(!areas[1].overlaps(areas[2]));
    assert_eq!(areas[0], rect(0, 0, 100, 50));
    assert!(niri.output_exists(3));
    let rest = vec![data(1, here, here), data(2, Some(Point { x: 100, y: 0 }), None)];
    let (_, effects) = niri.remove_output(3, rest, &vec![]);
    assert!(effects.is_empty());
    assert!(!niri.output_exists(3));
    assert_eq!(niri.output_from_resource(Some(3)), None);
    assert_eq!(niri.output_from_resource(Some(1)), Some(1));
}

#[test]
fn neighbors_are_found() {
    let niri = state().niri;
    assert_eq!(niri.output_right_of(1), Some(2));
    assert_eq!(niri.output_left_of(2), Some(1));
    assert_eq!(niri.output_left_of(1), None);
    assert_eq!(niri.output_up_of(1), None);
    assert_eq!(niri.output_down_of(1), None);
    assert_eq!(niri.output_next_of(2), Some(1));
    assert_eq!(niri.output_previous_of(niri.output_next_of(1).unwrap()), Some(1));
    assert_eq!(niri.global_space.output_toward(1, Direction::Right), Some(2));
    assert_eq!(niri.global_space.output_after(1), Some(2));
    assert_eq!(niri.global_space.output_before(1), Some(2));
    assert_eq!(niri.global_space.global_bounding_rectangle(), Some(rect(0, 0, 200, 100)));
    let under = niri.global_space.output_under(Point { x: 150, y: 50 });
    assert_eq!(under.map(|o| o.id), Some(2));
    assert!(niri.global_space.output_under(Point { x: 250, y: 50 }).is_none());
    assert_eq!(niri.output_by_name_match(&vec![false, true]), Some(2));
    assert_eq!(niri.output_by_name_match(&vec![false, false]), None);
}

#[test]
fn the_focus_starts_on_a_configured_output() {
    let state = state();
    assert_eq!(state.focus_default_monitor(&vec![None, Some(2)]), Some(2));
    assert_eq!(state.focus_default_monitor(&vec![None]), Some(1));
    let (niri, _) = Niri::new(ModKey::Super, &Binds(vec![]), true, None, 1);
    let backend = Backend::Tty(Tty { seat_name: String::new(), requests: vec![] });
    assert_eq!(State { backend, niri }.focus_default_monitor(&vec![Some(2)]), None);
}

#[test]
fn a_resized_output_is_drawn_and_ends_a_selection() {
    let mut niri = state().niri;
    niri.screenshot_ui = ScreenshotUi::Open { selection_output: 1, path: None };
    let shape = OutputShape {
        size: Size { w: 100, h: 100 },
        scale_120: 120,
        transform: Transform::Normal,
    };
    assert!(!niri.output_resized(1, Some(shape), shape));
    assert!(niri.screenshot_ui.is_open());
    assert_eq!(niri.next_queued_output(), Some(1));
    let turned = OutputShape { transform: Transform::_90, ..shape };
    assert!(niri.output_resized(1, Some(shape), turned));
    assert!(!niri.screenshot_ui.is_open());
}

#[test]
fn layers_are_drawn_in_order() {
    let layers = vec![
        layer(1, Layer::Top),
        layer(2, Layer::Bottom),
        LayerView { place_within_backdrop: true, ..layer(3, Layer::Background) },
        layer(4, Layer::Top),
        LayerView { mapped: false, ..layer(5, Layer::Top) },
    ];
    let ids = |l, backdrop| -> Vec<u64> {
        layers_in_render_order(&layers, l, backdrop).iter().map(|l| l.id).collect()
    };
    assert_eq!(ids(Layer::Top, false), vec![4, 1]);
    assert_eq!(ids(Layer::Background, true), vec![3]);
    assert_eq!(ids(Layer::Background, false), Vec::<u64>::new());
}

#[test]
fn a_locked_session_shows_no_windows() {
    let mut niri = state().niri;
    let mut view = empty_view();
    view.layers = vec![layer(1, Layer::Overlay)];
    let steps = niri.render_inner(1, &view, true);
    assert!(steps.contains(&RenderStep::Pointer));
    assert!(steps.contains(&RenderStep::Workspaces { focus_ring: true })
        || steps.iter().any(|s| matches!(s, RenderStep::Workspaces { .. })));
    assert!(steps.iter().any(|s| matches!(s, RenderStep::LayerNormal { .. })));
    niri.lock_state = LockState::Locked(SessionLock { id: 1, client: 1 });
    niri.output_state[0].lock_surface = Some(LockSurface { surface: 50, client: 1 });
    niri.output_state[1].lock_surface = Some(LockSurface { surface: 51, client: 1 });
    let steps = niri.render_inner(1, &view, true);
    assert!(steps.contains(&RenderStep::LockSurface(50)));
    assert!(!steps.contains(&RenderStep::LockSurface(51)));
    assert!(steps.contains(&RenderStep::LockBackground));
    assert!(!steps.iter().any(|s| matches!(
        s,
        RenderStep::Workspaces { .. }
            | RenderStep::LayerNormal { .. }
            | RenderStep::LayerPopups { .. }
            | RenderStep::MovedWindow
            | RenderStep::ScreenTransition
    )));
}

#[test]
fn a_screen_transition_is_drawn_below_the_pointer() {
    let mut niri = state().niri;
    niri.output_state[0].screen_transition = true;
    let steps = niri.render_inner(1, &empty_view(), true);
    assert_eq!(&steps[..2], &[RenderStep::Pointer, RenderStep::ScreenTransition]);
    assert_eq!(steps.last(), Some(&RenderStep::Backdrop));
}

#[test]
fn the_topmost_thing_is_under_the_pointer() {
    let niri = state().niri;
    let mut view = empty_view();
    let pixel = Point { x: 10, y: 10 };
    let win = WindowHit {
        window: 7,
        hit: HitType::Input { win_pos: at(0, 0) },
        surface: Some(hit(70)),
    };
    view.window_under = Some(win);
    let found = niri.contents_under(pixel, &view);
    assert_eq!(found.output, Some(1));
    assert_eq!(found.window, Some(WindowUnder { window: 7, hit: win.hit }));
    assert_eq!(found.surface, Some(hit(70)));
    assert_eq!(niri.window_under(pixel, &view), Some(7));
    view.layers = vec![LayerView { toplevel_under: Some(hit(30)), ..layer(3, Layer::Top) }];
    let found = niri.contents_under(pixel, &view);
    assert_eq!(found.layer, Some(3));
    assert_eq!(found.surface, Some(hit(30)));
    assert_eq!(found.window, None);
    assert_eq!(niri.window_under(pixel, &view), None);
    assert!(!niri.is_layout_obscured_under(&view));
    assert!(niri.is_sticky_obscured_under(&view));
    view.layers = vec![LayerView { popup_under: Some(hit(31)), ..layer(3, Layer::Bottom) }];
    assert!(niri.is_layout_obscured_under(&view));
    assert!(!niri.is_sticky_obscured_under(&view));
    assert_eq!(niri.workspace_under(pixel, &view, Some(10)), None);
    view.layers.clear();
    assert_eq!(niri.workspace_under(pixel, &view, Some(10)), Some((1, 10)));
    let outside = niri.contents_under(Point { x: 500, y: 0 }, &view);
    assert_eq!(outside, PointContents::empty());
}

#[test]
fn a_locked_session_shields_the_pointer() {
    let mut niri = state().niri;
    let mut view = empty_view();
    view.window_under = Some(WindowHit {
        window: 7,
        hit: HitType::Input { win_pos: at(0, 0) },
        surface: Some(hit(70)),
    });
    view.layers = vec![LayerView { toplevel_under: Some(hit(30)), ..layer(3, Layer::Overlay) }];
    view.lock_surface_under = Some(hit(50));
    view.inside_hot_corner = true;
    niri.lock_state = LockState::Locked(SessionLock { id: 1, client: 1 });
    let pixel = Point { x: 10, y: 10 };
    let bare = PointContents { output: Some(1), ..PointContents::empty() };
    assert_eq!(niri.contents_under(pixel, &view), bare);
    niri.output_state[0].lock_surface = Some(LockSurface { surface: 50, client: 1 });
    let found = niri.contents_under(pixel, &view);
    assert_eq!(found, PointContents { surface: Some(hit(50)), ..bare });
}

#[test]
fn contents_are_looked_up_again() {
    let mut state = state();
    let found = PointContents { output: Some(1), surface: Some(hit(4)), ..PointContents::empty() };
    assert!(!state.refresh_pointer_contents(true, found));
    assert!(state.refresh_pointer_contents(false, found));
    assert_eq!(state.niri.pointer.contents, found);
    assert!(!state.refresh_pointer_contents(false, found));
}

#[test]
fn hot_corners_can_be_chosen() {
    let size = Size { w: 100, h: 100 };
    let default = HotCorners {
        off: false,
        top_left: false,
        top_right: false,
        bottom_left: false,
        bottom_right: false,
    };
    assert!(default.is_inside_hot_corner(size, Point { x: 0, y: 0 }));
    assert!(!default.is_inside_hot_corner(size, Point { x: 99, y: 0 }));
    assert!(!default.is_inside_hot_corner(size, Point { x: 1, y: 0 }));
    let right = HotCorners { bottom_right: true, ..default };
    assert!(right.is_inside_hot_corner(size, Point { x: 99, y: 99 }));
    assert!(!right.is_inside_hot_corner(size, Point { x: 0, y: 0 }));
    let off = HotCorners { off: true, top_left: true, ..default };
    assert!(!off.is_inside_hot_corner(size, Point { x: 0, y: 0 }));
}

fn focus_view() -> FocusView {
    FocusView {
        on_demand: OnDemandView {
            alive: true,
            keyboard_interactivity: KeyboardInteractivity::OnDemand,
            mapped: true,
            place_within_backdrop: false,
        },
        output_under_cursor: Some(1),
        active_output: Some(2),
        layers: vec![],
        render_above_top_layer: false,
        overview_open: false,
        grab_layer: None,
        focused_window: Some(70),
        track_layout_per_window: false,
        current_layout: 0,
    }
}

#[test]
fn the_keyboard_goes_to_the_focused_window() {
    let mut state = state();
    let effects = state.update_keyboard_focus(&focus_view());
    assert_eq!(state.niri.keyboard.focus, KeyboardFocus::Layout { surface: Some(70) });
    assert!(effects.contains(&FocusEffect::SetKeyboardFocus(Some(70))));
    assert!(state.update_keyboard_focus(&focus_view()).is_empty());
    let mut view = focus_view();
    view.layers = vec![LayerView {
        keyboard_interactivity: KeyboardInteractivity::Exclusive,
        ..layer(3, Layer::Overlay)
    }];
    state.update_keyboard_focus(&view);
    assert_eq!(state.niri.keyboard.focus, KeyboardFocus::LayerShell { surface: 3 });
    assert!(!state.niri.layout_is_active());
    view.layers.clear();
    view.overview_open = true;
    state.update_keyboard_focus(&view);
    assert_eq!(state.niri.keyboard.focus, KeyboardFocus::Overview);
    state.niri.exit_confirm_dialog_open = true;
    state.update_keyboard_focus(&view);
    assert_eq!(state.niri.keyboard.focus, KeyboardFocus::ExitConfirmDialog);
    state.niri.exit_confirm_dialog_open = false;
    state.niri.lock_state = LockState::Locked(SessionLock { id: 1, client: 1 });
    state.update_keyboard_focus(&view);
    assert_eq!(state.niri.keyboard.focus, KeyboardFocus::LockScreen { surface: None });
    assert_eq!(KeyboardFocus::Overview.surface(), None);
    assert_eq!(KeyboardFocus::LayerShell { surface: 3 }.into_surface(), Some(3));
    assert!(KeyboardFocus::Layout { surface: None }.is_layout());
    assert!(KeyboardFocus::Overview.is_overview());
}

#[test]
fn a_popup_grab_ends() {
    let mut state = state();
    state.niri.keyboard.popup_grab = Some(PopupGrab { root: 5, has_keyboard_grab: true });
    state.refresh_popup_grab(false);
    assert!(state.niri.keyboard.popup_grab.is_some());
    state.refresh_popup_grab(true);
    assert!(state.niri.keyboard.popup_grab.is_none());
}

#[test]
fn layers_get_the_keyboard_on_demand() {
    let mut niri = state().niri;
    assert!(niri.focus_layer_surface_if_on_demand(Some(3), KeyboardInteractivity::OnDemand));
    assert_eq!(niri.keyboard.layer_shell_on_demand_focus, Some(3));
    assert!(!niri.focus_layer_surface_if_on_demand(Some(3), KeyboardInteractivity::OnDemand));
    // Clicking on something else takes the keyboard away.
    assert!(niri.focus_layer_surface_if_on_demand(Some(4), KeyboardInteractivity::Never));
    assert_eq!(niri.keyboard.layer_shell_on_demand_focus, None);
    assert!(!niri.focus_layer_surface_if_on_demand(None, KeyboardInteractivity::OnDemand));
}

#[test]
fn the_cursor_hides_and_comes_back() {
    let mut state = state();
    assert!(state.hide_cursor_if_needed(true));
    assert_eq!(state.niri.pointer.visibility, PointerVisibility::Hidden);
    assert!(!state.hide_cursor_if_needed(true));
    assert!(!PointerVisibility::Hidden.is_visible());
    let found = PointContents { output: Some(1), surface: Some(hit(4)), ..PointContents::empty() };
    // A hidden cursor that comes to something else enters nothing.
    assert_eq!(state.move_cursor(found), None);
    assert_eq!(state.niri.pointer.visibility, PointerVisibility::Disabled);
    assert_eq!(state.niri.pointer.contents, PointContents::empty());
    state.niri.pointer.visibility = PointerVisibility::Visible;
    assert_eq!(state.move_cursor(found), Some(hit(4)));
    assert_eq!(state.niri.pointer.contents, found);
    assert!(!state.update_pointer_contents(found));
    state.niri.pointer.visibility = PointerVisibility::Disabled;
    assert!(state.update_pointer_contents(found));
    assert_eq!(state.niri.pointer.contents, PointContents::empty());
}

#[test]
fn inactivity_hides_the_cursor() {
    let mut niri = state().niri;
    let effects = niri.reset_pointer_inactivity_timer(Some(300), 8);
    assert_eq!(effects, vec![Effect::StartInactivityTimer { token: 8, timeout_ms: 300 }]);
    assert!(niri.reset_pointer_inactivity_timer(Some(300), 9).is_empty());
    niri.end_iteration();
    assert_eq!(
        niri.reset_pointer_inactivity_timer(Some(300), 10),
        vec![
            Effect::RemoveTimer(8),
            Effect::StartInactivityTimer { token: 10, timeout_ms: 300 }
        ]
    );
    assert!(niri.pointer_inactivity_expired());
    assert_eq!(niri.pointer.inactivity_timer, None);
    assert_eq!(niri.pointer.visibility, PointerVisibility::Hidden);
    assert!(niri.notify_activity());
    assert!(!niri.notify_activity());
    niri.end_iteration();
    assert!(niri.notify_activity());
}

#[test]
fn the_cursor_is_warped_into_the_rectangle() {
    assert_eq!(move_cursor_to_rect(CenterCoords::Separately, true, true), CursorMove::Stay);
    assert_eq!(move_cursor_to_rect(CenterCoords::Separately, false, true), CursorMove::CenterX);
    assert_eq!(move_cursor_to_rect(CenterCoords::Separately, true, false), CursorMove::CenterY);
    assert_eq!(move_cursor_to_rect(CenterCoords::Both, true, false), CursorMove::Center);
    assert_eq!(move_cursor_to_rect(CenterCoords::Both, true, true), CursorMove::Stay);
    assert_eq!(move_cursor_to_rect(CenterCoords::BothAlways, true, true), CursorMove::Center);
    let state = state();
    let warp = Some(WarpMouseToFocus { mode: None });
    assert_eq!(state.maybe_warp_cursor_to_focus(None, Some((false, false))), CursorMove::Stay);
    assert_eq!(state.maybe_warp_cursor_to_focus(warp, Some((false, true))), CursorMove::CenterX);
    assert_eq!(
        state.maybe_warp_cursor_to_focus_centered(warp, Some((false, true))),
        CursorMove::Center
    );
    assert_eq!(
        state.move_cursor_to_focused_tile(CenterCoords::BothAlways, None),
        CursorMove::Stay
    );
}

#[test]
fn the_focus_follows_the_mouse() {
    let mut niri = state().niri;
    let mut view = FollowView {
        config: Some(FocusFollowsMouse { has_max_scroll_amount: false }),
        pointer_grabbed: false,
        current: PointContents::empty(),
        overview_open: false,
        triggers: true,
        scrolls_too_far: false,
    };
    let under = PointContents {
        output: Some(2),
        window: Some(WindowUnder { window: 7, hit: HitType::Input { win_pos: at(0, 0) } }),
        ..PointContents::empty()
    };
    let followed = niri.handle_focus_follows_mouse(&view, &under);
    assert_eq!(followed.output, Some(2));
    assert_eq!(followed.window, Some(7));
    view.pointer_grabbed = true;
    let followed = niri.handle_focus_follows_mouse(&view, &under);
    assert_eq!((followed.output, followed.window), (None, None));
    view.pointer_grabbed = false;
    view.config = None;
    let followed = niri.handle_focus_follows_mouse(&view, &under);
    assert_eq!((followed.output, followed.window), (None, None));
}

#[test]
fn surfaces_draw_once_per_cycle() {
    let mut throttle = SurfaceFrameThrottlingState::default();
    assert!(!throttle.should_send(None, 1, 0));
    assert!(!throttle.should_send(Some(2), 1, 0));
    assert!(throttle.should_send(Some(1), 1, 0));
    assert!(!throttle.should_send(Some(1), 1, 0));
    assert!(throttle.should_send(Some(1), 1, 1));
    assert!(throttle.should_send(Some(2), 2, 1));
}

#[test]
fn everybody_hears_of_a_frame() {
    let mut niri = state().niri;
    niri.dnd_icon = Some(40);
    niri.output_state[0].lock_surface = Some(LockSurface { surface: 50, client: 9 });
    let view = SurfacesView { windows: vec![7], layers: vec![3], cursor: Some(60) };
    let last = niri.send_frame_callbacks(1, &view);
    assert_eq!(
        last,
        vec![
            SurfaceRoot::Window(7),
            SurfaceRoot::Layer(3),
            SurfaceRoot::Lock(50),
            SurfaceRoot::DndIcon(40),
            SurfaceRoot::Cursor(60),
        ]
    );
    assert_eq!(niri.send_dmabuf_feedbacks(1, &view), last);
    let first = niri.take_presentation_feedbacks(1, &view);
    assert_eq!(first[0], SurfaceRoot::Cursor(60));
    for root in &last {
        assert!(first.contains(root));
    }
    let ruled = niri.update_primary_scanout_output(1, &view);
    assert_eq!(ruled[0], (SurfaceRoot::Cursor(60), ScanoutRule::Compare));
    assert_eq!(ruled[2], (SurfaceRoot::Window(7), ScanoutRule::This));
    let all = niri.send_frame_callbacks_on_fallback_timer(
        &vec![7, 8],
        &vec![vec![3], vec![4]],
        Some(60),
    );
    assert_eq!(
        all,
        vec![
            SurfaceRoot::Window(7),
            SurfaceRoot::Window(8),
            SurfaceRoot::Layer(3),
            SurfaceRoot::Lock(50),
            SurfaceRoot::Layer(4),
            SurfaceRoot::DndIcon(40),
            SurfaceRoot::Cursor(60),
        ]
    );
    assert_eq!(scanout_element(5, Some(OffscreenView { id: 9, presented: true })), 9);
    assert_eq!(scanout_element(5, Some(OffscreenView { id: 9, presented: false })), 5);
    assert_eq!(scanout_element(5, None), 5);
}

#[test]
fn screenshots_are_selected_and_saved() {
    let mut state = state();
    assert_eq!(state.open_screenshot_ui(None, Some(2)), Some(2));
    assert_eq!(state.open_screenshot_ui(Some(1), Some(2)), Some(1));
    assert_eq!(state.confirm_screenshot(), (None, vec![]));
    assert_eq!(
        state.start_selection(1, Some("/p".to_string())),
        vec![Effect::EndPointerGrab, Effect::ShowCrosshair]
    );
    assert_eq!(state.open_screenshot_ui(Some(1), Some(2)), None);
    assert_eq!(
        state.confirm_screenshot(),
        (Some(Some("/p".to_string())), vec![Effect::ResetCursorImage])
    );
    assert!(!state.niri.screenshot_ui.is_open());
    state.niri.lock_state = LockState::Locking(SessionLock { id: 1, client: 1 });
    assert_eq!(state.open_screenshot_ui(Some(1), Some(2)), None);
    let file = Niri::save_screenshot(Size { w: 1, h: 1 }, &vec![1, 2, 3, 4]).unwrap();
    assert_eq!(&file[1..4], b"PNG");
    assert_eq!(
        Niri::save_screenshot(Size { w: 1, h: 1 }, &vec![1, 2, 3]),
        Err(PictureError::WrongSize)
    );
    assert_eq!(
        Niri::screenshot_size(Size { w: 3, h: 2 }, Transform::_270),
        Size { w: 2, h: 3 }
    );
    let asked = Niri::screenshot_path(true, Some("/a".to_string()), Some("/b".to_string()));
    let asked = asked.unwrap();
    assert_eq!((asked.path.as_str(), asked.create_parent), ("/a", false));
    let configured = Niri::screenshot_path(true, None, Some("/b".to_string())).unwrap();
    assert!(configured.create_parent);
    assert!(Niri::screenshot_path(false, Some("/a".to_string()), None).is_none());
    assert_eq!(Niri::reported_path(Some(asked), true), Some("/a".to_string()));
    assert_eq!(Niri::reported_path(Some(configured), false), None);
    assert!(state.niri.captures_pointer());
    state.niri.pointer.visibility = PointerVisibility::Disabled;
    assert!(!state.niri.captures_pointer());
}

#[test]
fn transitions_need_both_pictures() {
    let mut niri = state().niri;
    let captures = vec![
        Capture { output: 1, shown: true, captured: false },
        Capture { output: 2, shown: true, captured: true },
    ];
    assert_eq!(Niri::capture_screenshots(&captures), vec![2]);
    assert_eq!(niri.do_screen_transition(&captures, None, 250), 250);
    assert!(!niri.output_state[0].screen_transition);
    assert!(niri.output_state[1].screen_transition);
    assert_eq!(niri.do_screen_transition(&captures, Some(3), 250), 3);
}

#[test]
fn clients_see_what_they_may() {
    let client = Niri::insert_client(true, false, false, false);
    assert!(client.can_view(FilteredGlobal::XdgDecoration));
    assert!(client.can_view(FilteredGlobal::KdeDecoration));
    assert!(client.can_view(FilteredGlobal::LayerShell));
    assert!(client.can_view(FilteredGlobal::PrimarySelection));
    let restricted = ClientState { restricted: true, ..client };
    assert!(!restricted.can_view(FilteredGlobal::LayerShell));
    assert!(!restricted.can_view(FilteredGlobal::SessionLock));
    let plain = Niri::insert_client(false, true, false, true);
    assert!(!plain.can_view(FilteredGlobal::XdgDecoration));
    assert!(!plain.can_view(FilteredGlobal::PrimarySelection));
    assert!(plain.credentials_unknown);
}

#[test]
fn dropping_moves_the_focus() {
    let mut state = state();
    state.dnd_requested(Some(40));
    assert_eq!(state.niri.dnd_icon, Some(40));
    state.niri.keyboard.layer_shell_on_demand_focus = Some(3);
    assert_eq!(state.dropped(false, Some(7), Some(1)), DropFocus::Output(1));
    assert_eq!(state.niri.keyboard.layer_shell_on_demand_focus, Some(3));
    assert_eq!(state.niri.dnd_icon, None);
    assert_eq!(state.dropped(true, Some(7), Some(1)), DropFocus::Window(7));
    assert_eq!(state.niri.keyboard.layer_shell_on_demand_focus, None);
    assert_eq!(state.dropped(true, None, None), DropFocus::Unchanged);
    state.dnd_requested(Some(40));
    state.cancelled();
    assert_eq!(state.niri.dnd_icon, None);
}

#[test]
fn a_locked_cursor_can_be_placed() {
    let mut state = state();
    assert!(state.cursor_position_hint(4, true, None).is_none());
    state.niri.pointer.contents.surface = Some(hit(4));
    assert!(state.cursor_position_hint(4, false, None).is_none());
    assert!(state.cursor_position_hint(5, true, None).is_none());
    let (hint, redraw) = state.cursor_position_hint(4, true, Some(rect(5, 6, 10, 20))).unwrap();
    assert_eq!(hint.surface, hit(4));
    assert_eq!(hint.bounds, Some(rect(5, 6, 9, 19)));
    assert!(redraw);
}

#[test]
fn a_round_has_its_order() {
    let steps = State::refresh_and_flush_clients();
    assert_eq!(steps.len(), 18);
    let place = |step| steps.iter().position(|s| *s == step).unwrap();
    assert!(place(RefreshStep::NotifyBlockerCleared) < place(RefreshStep::RefreshLayout));
    assert!(place(RefreshStep::RefreshLayout) < place(RefreshStep::RefreshWindowRules));
    assert!(place(RefreshStep::AdvanceAnimations) < place(RefreshStep::RedrawQueuedOutputs));
    assert!(place(RefreshStep::RedrawQueuedOutputs) < place(RefreshStep::FlushClients));
    assert_eq!(State::refresh().as_slice(), &steps[..14]);
}

#[test]
fn changed_rules_are_drawn() {
    let mut niri = state().niri;
    niri.recompute_window_rules(&vec![false, false]);
    assert_eq!(niri.next_queued_output(), None);
    niri.refresh_window_rules(&vec![2]);
    assert_eq!(niri.next_queued_output(), Some(2));
    niri.recompute_layer_rules(&vec![false, true]);
    assert_eq!(niri.next_queued_output(), Some(1));
    niri.startup_over();
    assert!(!niri.is_at_startup);
    let mut niri = state().niri;
    niri.recompute_window_rules(&vec![true]);
    assert_eq!(niri.next_queued_output(), Some(1));
}

#[test]
fn roots_are_found() {
    assert_eq!(Niri::output_for_root(Some(None), &vec![Some(1)]), None);
    assert_eq!(Niri::output_for_root(None, &vec![None, Some(2), Some(3)]), Some(2));
    assert_eq!(Niri::find_root_shell_surface(5, None, Some(Some(9))), 5);
    assert_eq!(Niri::find_root_shell_surface(5, Some(6), None), 6);
    assert_eq!(Niri::find_root_shell_surface(5, Some(6), Some(None)), 6);
    assert_eq!(Niri::find_root_shell_surface(5, Some(6), Some(Some(9))), 9);
}

#[test]
fn outputs_are_configured_for_a_time() {
    let mut outputs = Outputs(vec![OutputConfig::new("DP-1".to_string())]);
    let mode = ConfiguredMode { width: 1920, height: 1080, refresh: None };
    let zero = FloatBits { bits: 0 };
    let modeline = Modeline {
        clock: zero,
        hdisplay: 1,
        hsync_start: 2,
        hsync_end: 3,
        htotal: 4,
        vdisplay: 5,
        vsync_start: 6,
        vsync_end: 7,
        vtotal: 8,
        hsync_positive: true,
        vsync_positive: false,
    };
    let name = || "DP-1".to_string();
    outputs.apply_transient_output_config(Some(0), name(), OutputAction::Off);
    assert!(outputs.0[0].off);
    outputs.apply_transient_output_config(Some(0), name(), OutputAction::On);
    assert!(!outputs.0[0].off);
    outputs.apply_transient_output_config(Some(0), name(), OutputAction::CustomMode(mode));
    outputs.apply_transient_output_config(Some(0), name(), OutputAction::Modeline(modeline));
    assert_eq!(outputs.0[0].mode, Some(Mode { custom: true, mode }));
    assert_eq!(outputs.0[0].modeline, Some(modeline));
    outputs.apply_transient_output_config(Some(0), name(), OutputAction::Mode(Some(mode)));
    assert_eq!(outputs.0[0].mode, Some(Mode { custom: false, mode }));
    assert_eq!(outputs.0[0].modeline, None);
    outputs.apply_transient_output_config(Some(0), name(), OutputAction::Mode(None));
    assert_eq!(outputs.0[0].mode, None);
    let new = "HDMI".to_string();
    outputs.apply_transient_output_config(None, new, OutputAction::Transform(IpcTransform::_90));
    assert_eq!(outputs.0[1].name, "HDMI");
    assert_eq!(outputs.0[1].transform, IpcTransform::_90);
    let here = Some(Point { x: 1, y: 2 });
    outputs.apply_transient_output_config(Some(1), String::new(), OutputAction::Position(here));
    outputs.apply_transient_output_config(Some(1), String::new(), OutputAction::Scale(Some(zero)));
    outputs.apply_transient_output_config(Some(1), String::new(), OutputAction::MaxBpc(8));
    assert_eq!(outputs.0[1].position, here);
    assert_eq!(outputs.0[1].scale, Some(zero));
    assert_eq!(outputs.0[1].max_bpc, Some(8));
}

#[test]
fn a_section_is_looked_for_by_all_that_is_known() {
    let known = |connector: &str| OutputName {
        connector: connector.to_string(),
        make: Some("make".to_string()),
        model: None,
        serial: None,
    };
    let name = OutputName::to_look_for(Some(known("DP-1")), Some(known("DP-2")), "x");
    assert_eq!((name.connector.as_str(), name.make.as_deref()), ("DP-1", Some("make")));
    assert_eq!(OutputName::to_look_for(None, Some(known("DP-2")), "x").connector, "DP-2");
    let name = OutputName::to_look_for(None, None, "x");
    assert_eq!((name.connector.as_str(), name.make), ("x", None));
}

#[test]
fn outputs_change_with_their_configuration() {
    let mut state = state();
    let view = OutputReload {
        id: 1,
        scale_changed: false,
        transform: Transform::_90,
        panel: Some(Transform::_90),
        configured: None,
        backdrop_changed: false,
        layout_changed: false,
    };
    let (changes, redrawn) = state.reload_output_config(&vec![view]);
    assert!(changes.is_empty() && redrawn.is_empty());
    assert!(!state.refresh_ipc_outputs());
    let turned = OutputReload { configured: Some(IpcTransform::_90), layout_changed: true, ..view };
    let scaled = OutputReload { id: 2, scale_changed: true, backdrop_changed: true, ..view };
    let (changes, redrawn) = state.reload_output_config(&vec![turned, scaled]);
    assert_eq!((changes[0].output, changes[0].transform), (1, Transform::_180));
    assert_eq!((changes[1].output, changes[1].transform), (2, Transform::_90));
    assert_eq!(redrawn, vec![1, 2]);
    assert!(state.niri.output_state.iter().all(|s| s.redraw_state == RedrawState::Queued));
    assert!(state.refresh_ipc_outputs());
    assert!(!state.refresh_ipc_outputs());
}

#[test]
fn reconfigured_outputs_are_told_and_placed() {
    let mut state = state();
    state.niri.screenshot_ui = ScreenshotUi::Open { selection_output: 1, path: None };
    let shape = |scale_120| OutputShape {
        size: Size { w: 100, h: 50 },
        scale_120,
        transform: Transform::Normal,
    };
    let outputs = || {
        vec![
            data(1, Some(Point { x: 0, y: 0 }), None),
            data(2, Some(Point { x: 100, y: 0 }), Some(Point { x: 0, y: 0 })),
        ]
    };
    let same = ResizedOutput { output: 1, captured: Some(shape(120)), now: shape(120) };
    let (closed, placed) = state.outputs_reconfigured(&vec![same], outputs());
    assert!(!closed);
    assert_eq!(placed.order.iter().map(|o| o.id).collect::<Vec<_>>(), vec![2, 1]);
    assert_eq!(state.niri.global_space.output_geometry(2), Some(rect(0, 0, 100, 50)));
    assert_eq!(state.niri.global_space.output_geometry(1), Some(rect(100, 0, 100, 50)));
    assert!(state.niri.screenshot_ui.is_open());
    let Backend::Tty(tty) = &state.backend else { panic!() };
    assert_eq!(tty.requests, vec![TtyRequest::OutputConfigChanged]);
    let outputs = vec![
        data(1, Some(Point { x: 100, y: 0 }), None),
        data(2, Some(Point { x: 0, y: 0 }), Some(Point { x: 0, y: 0 })),
    ];
    let other = ResizedOutput { now: shape(240), ..same };
    let (closed, placed) = state.outputs_reconfigured(&vec![other], outputs);
    assert!(closed && placed.moved.is_empty());
    assert!(!state.niri.screenshot_ui.is_open());
}

#[test]
fn what_is_set_for_an_output_counts_first() {
    let color = |r| Color { r, g: 0, b: 0, a: 1 };
    let corners = |off| HotCorners {
        off,
        top_left: false,
        top_right: false,
        bottom_left: false,
        bottom_right: false,
    };
    let mut output = OutputConfig::new("DP-1".to_string());
    assert_eq!(backdrop_color(None, color(1)), color(1));
    assert_eq!(backdrop_color(Some(&output), color(1)), color(1));
    assert_eq!(hot_corners(Some(&output), corners(false)), corners(false));
    assert!(output.layout_config().is_none());
    output.backdrop_color = Some(color(2));
    output.hot_corners = Some(corners(true));
    output.background_color = Some(color(3));
    assert_eq!(backdrop_color(Some(&output), color(1)), color(2));
    assert_eq!(hot_corners(Some(&output), corners(false)), corners(true));
    assert!(output.layout_config().is_none());
    output.layout = Some(OutputLayout { background_color: None, rest: Look(vec![7]) });
    let layout = output.layout_config().unwrap();
    assert_eq!((layout.background_color, layout.rest.0), (Some(color(3)), vec![7]));
    output.layout.as_mut().unwrap().background_color = Some(color(4));
    assert_eq!(output.layout_config().unwrap().background_color, Some(color(4)));
}

#[test]
fn a_selection_shows_a_cross() {
    let mut state = state();
    assert_eq!(state.cursor_image(CursorImage::Surface(3)), CursorImage::Surface(3));
    assert_eq!(state.niri.output_state[0].redraw_state, RedrawState::Queued);
    state.niri.screenshot_ui = ScreenshotUi::Open { selection_output: 1, path: None };
    assert_eq!(
        state.cursor_image(CursorImage::Hidden),
        CursorImage::Named(CursorIcon::Crosshair)
    );
}

#[test]
fn lights_are_set_on_keyboards_that_are_there() {
    let mut state = state();
    state.niri.input.devices.insert(1);
    state.niri.input.devices.insert(2);
    state.niri.input.devices.insert(5);
    assert_eq!(state.led_state_changed(&vec![2, 3, 1]), vec![2, 1]);
}

#[test]
fn only_what_is_drawn_is_brought_up_to_date() {
    let mut state = state();
    for output in &mut state.niri.output_state {
        output.screen_transition = true;
    }
    let ids: Vec<u64> = state.niri.output_state.iter().map(|output| output.id).collect();
    let layer = |id, output, mapped, has_geometry| PlacedLayer { id, output, mapped, has_geometry };
    let layers = vec![
        layer(10, ids[0], true, true),
        layer(11, ids[0], false, true),
        layer(12, ids[0], true, false),
        layer(13, ids[0] + 100, true, true),
    ];
    let (transitions, updated) = state.niri.update_render_elements(None, &layers);
    assert_eq!(transitions, ids);
    assert_eq!(updated, vec![10, 13]);
    let (transitions, updated) = state.niri.update_render_elements(Some(ids[0]), &layers);
    assert_eq!(transitions, vec![ids[0]]);
    assert_eq!(updated, vec![10]);
}

#[test]
fn outputs_are_reported() {
    let scale = FloatBits { bits: 1.5f64.to_bits() };
    let loc = Point { x: -10, y: 20 };
    let output = logical_output(loc, Size { w: 1706, h: -1 }, scale, Transform::Flipped90);
    assert_eq!((output.x, output.y), (-10, 20));
    assert_eq!((output.width, output.height), (1706, 0));
    assert_eq!(output.scale, scale);
    assert_eq!(output.transform, IpcTransform::Flipped90);
}
