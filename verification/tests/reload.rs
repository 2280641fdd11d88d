use niri::backend::{Backend, Tty};
use niri::config::layer_rule::{self, LayerRule};
use niri::config::misc::{Color, EnvironmentVariable};
use niri::config::rules::{Look, PopupsRule};
use niri::config::window_rule::{Match, WindowRule};
use niri::config::workspace::{Workspace, WorkspaceName};
use niri::config::Config;
use niri::geometry::{FloatBits, Point, Rectangle, Size};
use niri::input::action::{Action, WorkspaceReference};
use niri::input::binds::{Bind, Binds, Key, ModKey, Modifiers, Trigger};
use niri::input::grab::PointerGrab;
use niri::input::libinput::ScrollFactor;
use niri::niri::cursor::{
    CrossingSurface, PointerElement, RenderCursor, ShownOutput, SurfaceArea, SCALE_ONE,
};
use niri::niri::output_config::{OutputAction, OutputConfig, Outputs};
use niri::niri::reload::{
    keymap_source, removed_workspaces, ActiveConfig, BuiltInColors, KeymapSource, ReloadStep,
};
use niri::niri::{Niri, State};
use niri::utils::transform::Transform;

fn rect(x: i32, y: i32, w: i32, h: i32) -> Rectangle {
    Rectangle { loc: Point { x, y }, size: Size { w, h } }
}

fn state() -> State {
    let (niri, _) = Niri::new(ModKey::Super, &Binds(vec![]), true, None, 1);
    let backend = Backend::Tty(Tty { seat_name: "seat0".to_string(), requests: vec![] });
    State { backend, niri }
}

fn active(config: Config) -> ActiveConfig {
    let grey = Color { r: 5, g: 5, b: 5, a: 1 };
    ActiveConfig::new(config, BuiltInColors { backdrop: grey, background: grey }).0
}

fn no_match() -> Match {
    Match {
        app_id: None,
        title: None,
        is_active: None,
        is_focused: None,
        is_active_in_column: None,
        is_floating: None,
        is_window_cast_target: None,
        is_urgent: None,
        at_startup: None,
    }
}

fn unset() -> Look {
    Look(vec![])
}

fn window_rule(title: &str) -> WindowRule {
    WindowRule {
        matches: vec![Match { title: Some(title.to_string()), ..no_match() }],
        excludes: vec![],
        default_column_width: None,
        default_window_height: None,
        open_on_output: None,
        open_on_workspace: None,
        open_maximized: None,
        open_maximized_to_edges: None,
        open_fullscreen: None,
        open_floating: None,
        open_focused: None,
        min_width: None,
        min_height: None,
        max_width: None,
        max_height: None,
        focus_ring: unset(),
        border: unset(),
        shadow: unset(),
        tab_indicator: unset(),
        draw_border_with_background: None,
        opacity: None,
        geometry_corner_radius: None,
        clip_to_geometry: None,
        baba_is_float: None,
        block_out_from: None,
        variable_refresh_rate: None,
        default_column_display: None,
        default_floating_position: None,
        scroll_factor: None,
        tiled_state: None,
        background_effect: unset(),
        popups: PopupsRule { opacity: None, geometry_corner_radius: None },
        popups_background_effect: unset(),
    }
}

fn layer_rule(namespace: &str) -> LayerRule {
    let looked_at = layer_rule::Match {
        namespace: Some(namespace.to_string()),
        at_startup: None,
        layer: None,
    };
    LayerRule {
        matches: vec![looked_at],
        excludes: vec![],
        opacity: None,
        block_out_from: None,
        shadow: unset(),
        geometry_corner_radius: None,
        place_within_backdrop: None,
        baba_is_float: None,
        background_effect: unset(),
        popups: PopupsRule { opacity: None, geometry_corner_radius: None },
        popups_background_effect: unset(),
    }
}

fn outputs(names: &[&str]) -> Outputs {
    Outputs(names.iter().map(|name| OutputConfig::new(name.to_string())).collect())
}

fn workspace(name: &str) -> Workspace {
    Workspace { name: WorkspaceName(name.to_string()), open_on_output: None, layout: None }
}

fn bind(trigger: Trigger) -> Bind {
    Bind {
        key: Key { trigger, modifiers: Modifiers { alt: true, ..Modifiers::empty() } },
        action: Action::CloseWindow,
        repeat: true,
        cooldown: None,
        allow_when_locked: false,
        hotkey_overlay_title: None,
    }
}

#[test]
fn later_binds_count() {
    let mut config = Config::default();
    config.merge_binds(vec![bind(Trigger::MouseLeft), bind(Trigger::Keysym(1))]);
    let mut other = bind(Trigger::MouseLeft);
    other.action = Action::ToggleOverview;
    config.merge_binds(vec![other]);
    assert_eq!(config.binds.0.len(), 2);
    let left: Vec<&Bind> =
        config.binds.0.iter().filter(|b| b.key.trigger == Trigger::MouseLeft).collect();
    assert_eq!(left.len(), 1);
    assert!(matches!(left[0].action, Action::ToggleOverview));
}

#[test]
fn changes_are_found() {
    let backend = state().backend;
    let before = active(Config::default());
    let same = backend.config_diff(&before, &Config::default());
    assert!(!same.cursor && !same.repeat && !same.mouse && !same.mod_key && !same.outputs);
    assert!(!same.keymap && !same.window_rules && !same.layer_rules && !same.binds);
    assert!(!same.backdrop_color && !same.background_color && !same.inactivity_timeout);
    let mut same_colors = Config::default();
    let grey = Some(Color { r: 5, g: 5, b: 5, a: 1 });
    same_colors.overview.backdrop_color = grey;
    same_colors.layout.background_color = grey;
    let same = backend.config_diff(&before, &same_colors);
    assert!(!same.backdrop_color && !same.background_color);
    let mut faster = Config::default();
    let factor = FloatBits { bits: 2f64.to_bits() };
    faster.input.mouse.scroll_factor =
        Some(ScrollFactor { base: Some(factor), horizontal: None, vertical: None });
    assert!(backend.config_diff(&before, &faster).mouse);
    let mut after = Config::default();
    after.cursor.hide_after_inactive_ms = Some(5);
    after.input.keyboard.repeat_rate = 30;
    after.input.mouse.left_handed = true;
    after.input.mod_key = Some(ModKey::Alt);
    after.layout.background_color = Some(Color { r: 1, g: 0, b: 0, a: 1 });
    after.window_rules = vec![window_rule("a")];
    after.layer_rules = vec![layer_rule("a")];
    let diff = backend.config_diff(&before, &after);
    assert!(diff.cursor && diff.repeat && diff.mouse && diff.mod_key && diff.inactivity_timeout);
    assert!(diff.window_rules && diff.layer_rules && diff.background_color);
    assert!(!diff.keymap && !diff.backdrop_color && !diff.outputs);
    after.xkb.layout = "de".to_string();
    let before = active(after);
    let mut other = Config::default();
    other.window_rules = vec![window_rule("b")];
    other.layer_rules = vec![layer_rule("a")];
    other.layer_rules[0].shadow = Look(vec![]);
    other.binds = Binds(vec![bind(Trigger::MouseLeft)]);
    let diff = backend.config_diff(&before, &other);
    assert!(diff.keymap && diff.window_rules && diff.binds);
    assert!(!diff.layer_rules);
    other.layer_rules[0].shadow = Look(vec![1]);
    assert!(backend.config_diff(&before, &other).layer_rules);
}

#[test]
fn binds_are_compared() {
    let with = |action| Binds(vec![Bind { action, ..bind(Trigger::MouseLeft) }]);
    let spawn = |arg: &str| with(Action::Spawn(vec!["a".to_string(), arg.to_string()]));
    assert!(spawn("b").same(&spawn("b")));
    assert!(!spawn("b").same(&spawn("c")));
    assert!(!spawn("b").same(&with(Action::CloseWindow)));
    let named = |name: &str| {
        with(Action::FocusWorkspace(WorkspaceReference::Name(name.to_string())))
    };
    assert!(named("x").same(&named("x")));
    assert!(!named("x").same(&named("y")));
    assert!(!named("x").same(&with(Action::FocusWorkspace(WorkspaceReference::Index(1)))));
    assert!(with(Action::CloseWindow).same(&with(Action::CloseWindow)));
    assert!(!with(Action::FocusWindow(1)).same(&with(Action::FocusWindow(2))));
    assert!(!with(Action::CloseWindow).same(&Binds(vec![])));
    let titled = Bind { hotkey_overlay_title: Some(None), ..bind(Trigger::MouseLeft) };
    assert!(!Binds(vec![titled]).same(&with(Action::CloseWindow)));
}

#[test]
fn a_reload_takes_its_steps() {
    let mut state = state();
    let mut active = active(Config::default());
    let plan = state.reload_config(&mut active, None);
    assert_eq!(plan.steps, vec![ReloadStep::ShowErrorNotification]);
    assert!(plan.environment.is_none());
    assert!(state.niri.config_error_shown);
    let plan = state.reload_config(&mut active, Some(Config::default()));
    assert_eq!(plan.steps.len(), 7);
    assert!(!state.niri.config_error_shown);
    let mut config = Config::default();
    config.binds = Binds(vec![bind(Trigger::MouseLeft)]);
    config.outputs = outputs(&["DP-1"]);
    config.window_rules = vec![window_rule("a")];
    config.workspaces = vec![workspace("w")];
    config.environment.0.push(EnvironmentVariable { name: "A".to_string(), value: None });
    let plan = state.reload_config(&mut active, Some(config));
    assert_eq!(
        &plan.steps[7..],
        &[
            ReloadStep::UpdateHotkeyOverlay,
            ReloadStep::ReloadOutputs,
            ReloadStep::RecomputeWindowRules,
        ]
    );
    assert_eq!(plan.environment.unwrap().0[0].name, "A");
    assert!(active.config.environment.0.is_empty());
    assert_eq!(active.config.window_rules.len(), 1);
    let held = Modifiers { alt: true, ..Modifiers::empty() };
    assert_eq!(state.niri.input.mods_with_mouse_binds, vec![held]);
    let plan = state.reload_config(&mut active, Some(Config::default()));
    assert_eq!(plan.removed_workspaces, vec!["w".to_string()]);
}

#[test]
fn outputs_that_were_changed_survive_a_reload() {
    let loaded = |names: &[&str]| Config { outputs: outputs(names), ..Config::default() };
    let mut active = active(loaded(&["DP-1"]));
    let name = "DP-1".to_string();
    active.config.outputs.apply_transient_output_config(Some(0), name, OutputAction::Off);
    let (_, changed) = active.take_over(loaded(&["DP-1"]));
    assert!(!changed);
    assert!(active.config.outputs.0[0].off);
    assert!(!active.file_outputs.0[0].off);
    let (_, changed) = active.take_over(loaded(&["DP-1", "DP-2"]));
    assert!(changed);
    assert!(!active.config.outputs.0[0].off);
    assert_eq!(active.file_outputs.0.len(), 2);
}

#[test]
fn removed_workspaces_lose_their_names() {
    let before = vec![workspace("a"), workspace("b"), workspace("c")];
    let after = vec![workspace("c"), workspace("d")];
    assert_eq!(removed_workspaces(&before, &after), vec!["a".to_string(), "b".to_string()]);
}

#[test]
fn keymaps_come_from_somewhere() {
    assert_eq!(keymap_source(Some(true), true), KeymapSource::File);
    assert_eq!(keymap_source(None, true), KeymapSource::System);
    assert_eq!(keymap_source(None, false), KeymapSource::Names);
    assert_eq!(keymap_source(Some(false), false), KeymapSource::Names);
}

#[test]
fn the_cursor_is_sharp_where_it_is_shown() {
    let niri = state().niri;
    let outputs = vec![
        ShownOutput {
            id: 1,
            geo: rect(0, 0, 100, 100),
            scale: SCALE_ONE,
            transform: Transform::Normal,
        },
        ShownOutput {
            id: 2,
            geo: rect(100, 0, 100, 100),
            scale: 2 * SCALE_ONE,
            transform: Transform::_90,
        },
    ];
    let area = SurfaceArea { position: Point { x: 95, y: 5 }, bbox: rect(90, 0, 20, 20) };
    let cursor = Some(CrossingSurface { surface: 60, areas: vec![area, area] });
    let found = niri.refresh_pointer_outputs(&outputs, &cursor, &None);
    assert_eq!(found.updates.len(), 2);
    assert_eq!(found.updates[0].overlap, Some(rect(-5, -5, 10, 20)));
    assert_eq!(found.updates[1].overlap, Some(rect(5, -5, 10, 20)));
    assert_eq!(found.cursor_scale.unwrap().scale, 2 * SCALE_ONE);
    assert!(found.dnd_scale.is_none());
}

#[test]
fn the_pointer_is_drawn_with_what_it_drags() {
    let mut niri = state().niri;
    assert_eq!(niri.render_pointer(RenderCursor::Named), vec![PointerElement::NamedCursor]);
    niri.dnd_icon = Some(4);
    assert_eq!(
        niri.render_pointer(RenderCursor::Surface(3)),
        vec![PointerElement::CursorSurface(3), PointerElement::DndIcon(4)]
    );
    assert_eq!(niri.render_pointer(RenderCursor::Hidden), vec![PointerElement::DndIcon(4)]);
    assert!(!niri.pointer_pos_for_window_cast(7, Some(PointerGrab::Click), Some(8)));
}
