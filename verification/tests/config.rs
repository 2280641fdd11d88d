use niri::config::grammar::{Fault, FaultKind};
use niri::config::input::{InputPart, Xkb};
use niri::config::kdl::{KdlLiteral, KdlNode, KdlType, Radix, Spot};
use niri::config::layout::{
    Border, BorderPart, CenterFocusedColumn, DefaultPresetSize, Layout, LayoutPart, LayoutValues,
    PresetSize, Struts, ONE_HALF, ONE_THIRD, SIXTEEN, TWO_THIRDS, ZERO,
};
use niri::config::loader::{
    Advance, ConfigParseResult, FileOutcome, Loader, ResolvedPath, RECURSION_LIMIT,
};
use niri::config::misc::{
    Clipboard, ClipboardPart, Color, ConfigNotification, ConfigNotificationPart, Cursor,
    CursorPart, Flag, HotkeyOverlay, HotkeyOverlayPart, Overview, OverviewPart, OverviewValues,
    XwaylandSatellite, XwaylandSatellitePart,
};
use niri::config::path::{
    config_path, system_config_path, ConfigPath, CreateOutcome, PathChoice,
};
use niri::config::rules::{CornerRadius, PopupsRule, RelativeTo, ResolvedPopupsRules};
use niri::config::section::{can_repeat, find_section, Section};
use niri::config::workspace::eq_ignore_ascii_case;
use niri::config::{Config, RawSection};
use niri::geometry::FloatBits;
use niri::input::action::Action;
use niri::input::binds::{Bind, Key, Modifiers, Trigger};
use niri::niri::output_config::OutputConfig;

fn no_values() -> LayoutValues {
    LayoutValues {
        preset_column_widths: None,
        default_column_width: None,
        preset_window_heights: None,
        default_column_display: None,
        gaps: None,
        struts: None,
        background_color: None,
    }
}

/// What the sections come to that are decoded by the caller.
fn hand_in(loader: &mut Loader, section: RawSection) {
    match section.section {
        Section::Layout => loader.provide_layout(section, no_values()),
        Section::Overview => {
            let values = OverviewValues { zoom: None, backdrop_color: None };
            loader.provide_overview(section, values);
        }
        Section::Output => {
            let KdlLiteral::Text(name) = &section.node.arguments[0].literal else { panic!() };
            loader.provide_output(OutputConfig::new(name.clone()));
        }
        _ => loader.provide_section(section),
    }
}

/// Goes on until all is decoded, with the other files that are given.
fn run(mut loader: Loader, files: &[(&str, &str)]) -> ConfigParseResult {
    loop {
        match loader.decode_children() {
            Advance::Progress => (),
            Advance::Finished => return loader.finish(),
            Advance::Section(section) => hand_in(&mut loader, section),
            Advance::Include(file) => {
                let at = ResolvedPath::At { path: file.path.clone(), has_file_name: true };
                let Some(path) = loader.enter(&file, at) else { continue };
                let outcome = match files.iter().find(|(name, _)| **name == *path) {
                    None => FileOutcome::NotFound,
                    Some((_, "unreadable")) => FileOutcome::Unreadable,
                    Some((_, text)) => FileOutcome::Text(text.to_string()),
                };
                loader.provide(&file, path, outcome);
            }
        }
    }
}

fn start(text: &str) -> Loader {
    Loader::parse("config.kdl".to_string(), text).unwrap()
}

/// Loads a configuration whose other files are given.
fn load(main: &str, files: &[(&str, &str)]) -> ConfigParseResult {
    run(start(main), files)
}

/// The nodes of a text, the first one last.
fn nodes(text: &str) -> Vec<KdlNode> {
    start(text).frames.pop().unwrap().pending
}

fn faults(text: &str) -> Vec<FaultKind> {
    kinds(&load(text, &[]).config.unwrap_err().main)
}

fn kinds(faults: &[Fault]) -> Vec<FaultKind> {
    faults.iter().map(|f| f.kind).collect()
}

fn parse_mem(text: &str) -> Config {
    load(text, &[]).config.unwrap()
}

fn bare(name: &str) -> KdlNode {
    nodes(name).pop().unwrap()
}

#[test]
fn default_repeat_params() {
    let config = parse_mem("");
    assert_eq!(config.input.keyboard.repeat_delay, 600);
    assert_eq!(config.input.keyboard.repeat_rate, 25);
}

#[test]
fn sections_are_read() {
    let config = parse_mem(
        r#"
        prefer-no-csd
        screenshot-path "~/shot.png"
        cursor {
            xcursor-theme "breeze"
            xcursor-size 0x10
            hide-when-typing
            hide-after-inactive-ms 1000
        }
        clipboard { disable-primary; }
        hotkey-overlay { skip-at-startup; }
        config-notification { disable-failed; }
        environment {
            QT "wayland"
            DISPLAY null
        }
        spawn-at-startup "waybar" "-c" "x"
        spawn-sh-at-startup "echo hi"
        workspace "one"
        workspace "two" { open-on-output "DP-1"; }
        "#,
    );
    assert!(config.prefer_no_csd);
    assert_eq!(config.screenshot_path.0.as_deref(), Some("~/shot.png"));
    assert!(parse_mem("screenshot-path null").screenshot_path.0.is_none());
    assert_eq!(config.cursor.xcursor_theme, "breeze");
    assert_eq!(config.cursor.xcursor_size, 16);
    assert!(config.cursor.hide_when_typing);
    assert_eq!(config.cursor.hide_after_inactive_ms, Some(1000));
    assert!(config.clipboard.disable_primary);
    assert!(config.hotkey_overlay.skip_at_startup);
    assert!(!config.hotkey_overlay.hide_not_bound);
    assert!(config.config_notification.disable_failed);
    assert_eq!(config.environment.0.len(), 2);
    assert_eq!(config.environment.0[0].value.as_deref(), Some("wayland"));
    assert_eq!(config.environment.0[1].name, "DISPLAY");
    assert!(config.environment.0[1].value.is_none());
    assert_eq!(config.spawn_at_startup[0].command, vec!["waybar", "-c", "x"]);
    assert_eq!(config.spawn_sh_at_startup[0].command, "echo hi");
    assert_eq!(config.workspaces[0].name.0, "one");
    assert_eq!(config.workspaces[1].open_on_output.as_deref(), Some("DP-1"));
}

#[test]
fn sections_with_a_grammar_elsewhere_are_kept() {
    let config = parse_mem("animations { slowdown 2.0; }\ngestures { }\n");
    assert_eq!(config.sections.len(), 2);
    assert_eq!(config.sections[0].section, Section::Animations);
    assert_eq!(config.sections[0].node.children[0].name, "slowdown");
    assert_eq!(config.sections[1].section, Section::Gestures);
}

#[test]
fn faults_are_named() {
    assert_eq!(faults("nonsense"), vec![FaultKind::UnexpectedNode]);
    assert_eq!(faults("prefer-no-csd\nprefer-no-csd"), vec![FaultKind::DuplicateNode]);
    assert_eq!(faults("spawn-sh-at-startup"), vec![FaultKind::MissingArgument]);
    assert_eq!(faults("screenshot-path \"a\" \"b\""), vec![FaultKind::UnexpectedArgument]);
    assert_eq!(faults("cursor x=1"), vec![FaultKind::UnexpectedProperty]);
    assert_eq!(faults("cursor { xcursor-size 256; }"), vec![FaultKind::Conversion]);
    assert_eq!(faults("cursor { xcursor-size \"a\"; }"), vec![FaultKind::WrongKind]);
    assert_eq!(faults("cursor { nothing; }"), vec![FaultKind::UnexpectedNode]);
    assert_eq!(
        faults("workspace \"One\"\nworkspace \"oNE\""),
        vec![FaultKind::DuplicateWorkspace]
    );
    assert_eq!(faults("workspace 5"), vec![FaultKind::WorkspaceNameNotText]);
}

#[test]
fn annotations_are_not_expected() {
    let mut annotated = bare("prefer-no-csd");
    annotated.annotation =
        Some(KdlType { name: "u8".to_string(), spot: Spot { start: 0, end: 4 } });
    let loader = Loader::new("config.kdl".to_string(), vec![annotated]);
    let error = run(loader, &[]).config.unwrap_err();
    assert_eq!(kinds(&error.main), vec![FaultKind::Annotation]);
    assert_eq!(error.main[0].spot, Spot { start: 0, end: 4 });
    let error = load("(u8)prefer-no-csd", &[]).config.unwrap_err();
    assert_eq!(kinds(&error.main), vec![FaultKind::Annotation]);
    assert_eq!(error.main[0].spot, Spot { start: 0, end: 4 });
}

#[test]
fn faults_are_found_where_they_are() {
    let error = load("prefer-no-csd\nnonsense 1", &[]).config.unwrap_err();
    assert_eq!(error.main.len(), 1);
    assert_eq!(error.main[0].spot.start, 14);
}

#[test]
fn other_files_are_put_in_where_they_are_named() {
    let result = load(
        "spawn-at-startup \"a\"\ninclude \"x\"\nspawn-at-startup \"c\"\ncursor { xcursor-size 8; }",
        &[("x", "spawn-at-startup \"b\"\ncursor { xcursor-size 7; xcursor-theme \"t\"; }")],
    );
    let config = result.config.unwrap();
    let commands: Vec<_> = config.spawn_at_startup.iter().map(|s| s.command[0].clone()).collect();
    assert_eq!(commands, vec!["a", "b", "c"]);
    assert_eq!(config.cursor.xcursor_size, 8);
    assert_eq!(config.cursor.xcursor_theme, "t");
    assert_eq!(result.includes, vec!["x"]);
}

#[test]
fn missing_files_are_faults_unless_optional() {
    let result = load("include \"x\"", &[]);
    assert_eq!(kinds(&result.config.unwrap_err().main), vec![FaultKind::UnreadableFile]);
    assert_eq!(result.includes, vec!["x"]);
    let result = load("include \"x\" optional=true", &[]);
    assert!(result.config.is_ok());
    assert_eq!(result.includes, vec!["x"]);
    let result = load("include \"x\" optional=true", &[("x", "unreadable")]);
    assert_eq!(kinds(&result.config.unwrap_err().main), vec![FaultKind::UnreadableFile]);
    let result = load("include", &[]);
    assert_eq!(kinds(&result.config.unwrap_err().main), vec![FaultKind::MissingArgument]);
    let result = load("include \"x\" odd=1", &[("x", "")]);
    assert_eq!(kinds(&result.config.unwrap_err().main), vec![FaultKind::UnexpectedProperty]);
}

#[test]
fn a_fault_of_another_file_comes_out() {
    let result = load("include \"x\"", &[("x", "nonsense")]);
    let error = result.config.unwrap_err();
    assert_eq!(kinds(&error.main), vec![FaultKind::FaultyFile]);
    assert_eq!(error.includes.len(), 1);
    assert_eq!(error.includes[0].path, "x");
    assert!(!error.includes[0].syntax);
    assert_eq!(kinds(&error.includes[0].faults), vec![FaultKind::UnexpectedNode]);
    let result = load("include \"x\"", &[("x", "{{{")]);
    let error = result.config.unwrap_err();
    assert_eq!(kinds(&error.main), vec![FaultKind::FaultyFile]);
    assert!(error.includes[0].syntax);
}

#[test]
fn a_file_cannot_name_itself() {
    let result = load("include \"x\"", &[("x", "include \"y\""), ("y", "include \"x\"")]);
    let error = result.config.unwrap_err();
    assert_eq!(kinds(&error.main), vec![FaultKind::FaultyFile]);
    assert_eq!(kinds(&error.includes[0].faults), vec![FaultKind::RecursiveFile]);
    let result = load("include \"config.kdl\"", &[]);
    assert_eq!(kinds(&result.config.unwrap_err().main), vec![FaultKind::RecursiveFile]);
    let mut loader = Loader::parse("/c/config.kdl".to_string(), "include \"./config.kdl\"").unwrap();
    let Advance::Include(file) = loader.decode_children() else { panic!() };
    let at = ResolvedPath::At { path: "/c/./config.kdl".to_string(), has_file_name: true };
    assert!(loader.enter(&file, at).is_none());
    let result = run(loader, &[]);
    assert_eq!(kinds(&result.config.unwrap_err().main), vec![FaultKind::RecursiveFile]);
    assert!(result.includes.is_empty());
}

#[test]
fn files_cannot_be_nested_too_deep() {
    let names: Vec<String> = (0..RECURSION_LIMIT + 1).map(|i| format!("f{i}")).collect();
    let texts: Vec<String> =
        (0..RECURSION_LIMIT).map(|i| format!("include \"f{}\"", i + 1)).collect();
    let mut files: Vec<(&str, &str)> = Vec::new();
    for (name, text) in names.iter().zip(&texts) {
        files.push((name, text));
    }
    let result = load("include \"f0\"", &files);
    let error = result.config.unwrap_err();
    assert_eq!(kinds(&error.includes[0].faults), vec![FaultKind::RecursionLimit]);
    assert_eq!(result.includes.len(), usize::from(RECURSION_LIMIT) - 1);
}

#[test]
fn paths_of_other_files_can_be_wrong() {
    let mut loader = start("include \"~/x\"\ninclude \"..\"");
    let Advance::Include(file) = loader.decode_children() else { panic!() };
    assert_eq!(file.path, "~/x");
    assert!(loader.enter(&file, ResolvedPath::NoHome).is_none());
    let Advance::Include(file) = loader.decode_children() else { panic!() };
    let at = ResolvedPath::At { path: "..".to_string(), has_file_name: false };
    assert!(loader.enter(&file, at).is_none());
    while !matches!(loader.decode_children(), Advance::Finished) {}
    assert_eq!(
        kinds(&loader.finish().config.unwrap_err().main),
        vec![FaultKind::NoHomeDirectory, FaultKind::InvalidFileName]
    );
}

#[test]
fn layouts_of_workspaces_are_limited() {
    let config = parse_mem("workspace \"a\" { layout { gaps 8; }; }");
    assert_eq!(config.workspaces[0].layout.as_ref().unwrap().0.children[0].name, "gaps");
    assert_eq!(
        faults("workspace \"a\" { layout { nonsense; }; }"),
        vec![FaultKind::UnexpectedNode]
    );
    for field in ["empty-workspace-above-first", "insert-hint"] {
        let text = format!("workspace \"a\" {{ layout {{ {field}; }}; }}");
        assert_eq!(faults(&text), vec![FaultKind::NotInWorkspaceLayout]);
    }
}

#[test]
fn names_differ_in_more_than_case() {
    assert!(eq_ignore_ascii_case("Work", "wORK"));
    assert!(!eq_ignore_ascii_case("Work", "Works"));
    assert!(!eq_ignore_ascii_case("ä", "Ä"));
}

#[test]
fn sections_are_known_by_name() {
    assert_eq!(find_section(&"window-rule".to_string()), Some(Section::WindowRule));
    assert_eq!(find_section(&"include".to_string()), Some(Section::Include));
    assert_eq!(find_section(&"Window-rule".to_string()), None);
    assert!(can_repeat(Some(Section::WindowRule)));
    assert!(can_repeat(Some(Section::Include)));
    assert!(!can_repeat(Some(Section::Cursor)));
    assert!(!can_repeat(None));
}

#[test]
fn later_parts_count() {
    let mut cursor = Cursor::default();
    assert_eq!((cursor.xcursor_theme.as_str(), cursor.xcursor_size), ("default", 24));
    let part = CursorPart {
        xcursor_theme: None,
        xcursor_size: Some(30),
        hide_when_typing: Some(Flag(true)),
        hide_after_inactive_ms: None,
    };
    cursor.merge_with(&part);
    let later = CursorPart {
        xcursor_theme: Some("t".to_string()),
        xcursor_size: None,
        hide_when_typing: Some(Flag(false)),
        hide_after_inactive_ms: Some(5),
    };
    cursor.merge_with(&later);
    assert_eq!((cursor.xcursor_theme.as_str(), cursor.xcursor_size), ("t", 30));
    assert!(!cursor.hide_when_typing);
    assert_eq!(cursor.hide_after_inactive_ms, Some(5));
}

#[test]
fn flags_are_merged() {
    let mut overlay = HotkeyOverlay::default();
    overlay.merge_with(&HotkeyOverlayPart { skip_at_startup: None, hide_not_bound: Some(Flag(true)) });
    assert!(!overlay.skip_at_startup && overlay.hide_not_bound);
    let mut notification = ConfigNotification::default();
    notification.merge_with(&ConfigNotificationPart { disable_failed: Some(Flag(true)) });
    assert!(notification.disable_failed);
    let mut clipboard = Clipboard::default();
    clipboard.merge_with(&ClipboardPart { disable_primary: Some(Flag(true)) });
    clipboard.merge_with(&ClipboardPart { disable_primary: None });
    assert!(clipboard.disable_primary);
    let black = Color { r: 0, g: 0, b: 0, a: 1 };
    let white = Color { r: 1, g: 1, b: 1, a: 1 };
    let mut overview = Overview::default();
    assert_eq!((overview.zoom.bits, overview.backdrop_color), (ONE_HALF, None));
    let part = |zoom, backdrop_color, workspace_shadow| OverviewPart {
        zoom,
        backdrop_color,
        workspace_shadow,
    };
    overview.merge_with(part(Some(FloatBits { bits: 1 }), Some(black), None));
    overview.merge_with(part(None, Some(white), Some(bare("workspace-shadow"))));
    assert_eq!((overview.zoom.bits, overview.backdrop_color), (1, Some(white)));
    assert_eq!(overview.workspace_shadow.len(), 1);
    let mut satellite = XwaylandSatellite::default();
    assert_eq!((satellite.off, satellite.path.as_str()), (false, "xwayland-satellite"));
    satellite.merge_with(&XwaylandSatellitePart { off: true, on: false, path: None });
    assert!(satellite.off);
    satellite.merge_with(&XwaylandSatellitePart {
        off: false,
        on: true,
        path: Some("/x".to_string()),
    });
    assert_eq!((satellite.off, satellite.path.as_str()), (false, "/x"));
}

fn no_layout_part() -> LayoutPart {
    LayoutPart {
        border: None,
        preset_column_widths: None,
        default_column_width: None,
        preset_window_heights: None,
        center_focused_column: None,
        always_center_single_column: None,
        empty_workspace_above_first: None,
        default_column_display: None,
        gaps: None,
        struts: None,
        background_color: None,
        node: bare("layout"),
    }
}

#[test]
fn layouts_start_with_thirds() {
    let layout = Layout::default();
    let share = |bits| PresetSize::Proportion(FloatBits { bits });
    let thirds = vec![share(ONE_THIRD), share(ONE_HALF), share(TWO_THIRDS)];
    assert_eq!(layout.preset_column_widths, thirds);
    assert_eq!(layout.preset_window_heights, thirds);
    assert_eq!(layout.default_column_width, Some(share(ONE_HALF)));
    assert_eq!(layout.gaps.bits, SIXTEEN);
    assert_eq!(layout.border, Border { off: true });
    assert_eq!(layout.background_color, None);
    assert_eq!(layout.struts.left.bits, ZERO);
    assert_eq!(layout.center_focused_column, CenterFocusedColumn::Never);
    assert_eq!(f64::from_bits(ONE_THIRD), 1. / 3.);
    assert_eq!(f64::from_bits(ONE_HALF), 0.5);
    assert_eq!(f64::from_bits(TWO_THIRDS), 2. / 3.);
    assert_eq!(f64::from_bits(SIXTEEN), 16.);
}

#[test]
fn presets_remain_if_none_are_given() {
    let mut layout = Layout::default();
    let mut part = no_layout_part();
    part.preset_column_widths = Some(vec![]);
    part.default_column_width = Some(DefaultPresetSize(None));
    part.center_focused_column = Some(CenterFocusedColumn::OnOverflow);
    part.always_center_single_column = Some(Flag(true));
    layout.merge_with(part);
    assert_eq!(layout.preset_column_widths.len(), 3);
    assert_eq!(layout.default_column_width, None);
    assert_eq!(layout.center_focused_column, CenterFocusedColumn::OnOverflow);
    assert!(layout.always_center_single_column);
    let mut part = no_layout_part();
    part.preset_column_widths = Some(vec![PresetSize::Fixed(500)]);
    let eight = FloatBits { bits: 8f64.to_bits() };
    part.struts = Some(Struts { left: eight, right: eight, top: eight, bottom: eight });
    layout.merge_with(part);
    assert_eq!(layout.preset_column_widths, vec![PresetSize::Fixed(500)]);
    assert_eq!(layout.struts.bottom, eight);
    assert!(layout.always_center_single_column);
}

#[test]
fn a_border_in_the_main_file_is_meant_to_be_shown() {
    let border = |off| Some(BorderPart { on: false, off });
    let mut part = no_layout_part();
    part.border = border(false);
    part.settle_border(0);
    assert!(part.border.as_ref().unwrap().on);
    let mut part = no_layout_part();
    part.border = border(false);
    part.settle_border(1);
    assert!(!part.border.as_ref().unwrap().on);
    let mut part = no_layout_part();
    part.border = border(true);
    part.settle_border(0);
    assert!(!part.border.as_ref().unwrap().on);
}

#[test]
fn rules_for_popups_add_up() {
    let mut rules = ResolvedPopupsRules::default();
    let radius = CornerRadius { top_left: 1, top_right: 2, bottom_right: 3, bottom_left: 4 };
    rules.merge_with(&PopupsRule { opacity: Some(7), geometry_corner_radius: None });
    rules.merge_with(&PopupsRule { opacity: None, geometry_corner_radius: Some(radius) });
    assert_eq!(rules.opacity, Some(7));
    assert_eq!(rules.geometry_corner_radius, Some(radius));
    assert_eq!(RelativeTo::default(), RelativeTo::TopLeft);
}

#[test]
fn the_configuration_is_looked_for() {
    assert_eq!(system_config_path(), "/etc/niri/config.kdl");
    let given = config_path(Some("/a".to_string()), Some("/b".to_string()), None);
    assert!(matches!(given, ConfigPath::Explicit(p) if p == "/a"));
    let from_env = config_path(None, Some("/b".to_string()), Some("/u".to_string()));
    assert!(matches!(from_env, ConfigPath::Explicit(p) if p == "/b"));
    let regular = config_path(None, None, Some("/u".to_string()));
    assert!(matches!(regular.load_inner(true, true), PathChoice::Load(p) if p == "/u"));
    assert!(
        matches!(regular.load_inner(false, true), PathChoice::Load(p) if p == "/etc/niri/config.kdl")
    );
    assert!(matches!(
        regular.load_inner(false, false),
        PathChoice::Missing { user_path, .. } if user_path == "/u"
    ));
    let empty_env = config_path(None, Some(String::new()), None);
    assert!(matches!(empty_env, ConfigPath::Explicit(p) if p == "/etc/niri/config.kdl"));
    let explicit = ConfigPath::Explicit("/a".to_string());
    assert!(matches!(explicit.load_inner(false, false), PathChoice::Load(p) if p == "/a"));
}

#[test]
fn creating_says_what_came_of_it() {
    let written = ConfigPath::create(CreateOutcome::Written);
    assert!(written.created && written.load);
    let failed = ConfigPath::create(CreateOutcome::NotWritten);
    assert!(failed.created && !failed.load);
    let there = ConfigPath::create(CreateOutcome::AlreadyThere);
    assert!(!there.created && there.load);
    for outcome in [CreateOutcome::NoDirectory, CreateOutcome::NotOpened] {
        let none = ConfigPath::create(outcome);
        assert!(!none.created && !none.load);
    }
}

#[test]
fn numbers_are_read_in_their_base() {
    let sizes = [("0b1000", 8), ("0o17", 15), ("0x1f", 31), ("1_0", 10)];
    for (text, size) in sizes {
        let config = parse_mem(&format!("cursor {{ xcursor-size {text}; }}"));
        assert_eq!(config.cursor.xcursor_size, size);
    }
}

#[test]
fn an_empty_file_configures_nothing() {
    let result = load("", &[]);
    assert!(result.includes.is_empty());
    let config = result.config.unwrap();
    assert_eq!(format!("{config:?}"), format!("{:?}", Config::default()));
    assert!(Loader::parse("config.kdl".to_string(), "{{{").is_none());
}

#[test]
fn texts_are_taken_apart() {
    let mut parsed = nodes("a 1 0x1f (t)\"x\" k=null { b true; }\n(u8)c 2.5");
    let first = parsed.pop().unwrap();
    let second = parsed.pop().unwrap();
    assert!(parsed.is_empty());
    assert_eq!((first.name.as_str(), first.name_spot), ("a", Spot { start: 0, end: 1 }));
    assert!(first.annotation.is_none());
    assert!(matches!(&first.arguments[0].literal, KdlLiteral::Int(Radix::Dec, t) if t == "1"));
    assert!(matches!(&first.arguments[1].literal, KdlLiteral::Int(Radix::Hex, t) if t == "1f"));
    assert!(matches!(&first.arguments[2].literal, KdlLiteral::Text(t) if t == "x"));
    assert!(first.arguments[1].annotation.is_none());
    assert_eq!(first.arguments[2].annotation.as_ref().unwrap().name, "t");
    assert_eq!(first.properties[0].name, "k");
    assert!(matches!(first.properties[0].value.literal, KdlLiteral::Null));
    assert!(matches!(first.children[0].arguments[0].literal, KdlLiteral::Bool(true)));
    assert_eq!(second.annotation.as_ref().unwrap().name, "u8");
    assert!(matches!(&second.arguments[0].literal, KdlLiteral::Decimal(t) if t == "2.5"));
}

#[test]
fn types_can_be_quoted() {
    let config = parse_mem("cursor { xcursor-size (\"u8\")5; }");
    assert_eq!(config.cursor.xcursor_size, 5);
    let config = parse_mem("cursor { xcursor-size (u8)6; }");
    assert_eq!(config.cursor.xcursor_size, 6);
    let annotation = |text: &str| nodes(text).pop().unwrap().arguments.pop().unwrap().annotation;
    assert_eq!(annotation("a (\"u\\\"8\")1").unwrap().name, "u\"8");
    let odd = annotation("a (\"x(y\")1").unwrap();
    assert_eq!((odd.name.as_str(), odd.spot), ("x(y", Spot { start: 2, end: 9 }));
    assert!(annotation("a \"(x)\"").is_none());
    assert_eq!(nodes("(\"t\")a").pop().unwrap().annotation.unwrap().name, "t");
}

#[test]
fn sizes_of_new_windows_are_at_most_one() {
    let decode = |text: &str, size| DefaultPresetSize::decode_node(&bare(text), size);
    let size = PresetSize::Fixed(5);
    let none = decode("default-column-width", None);
    assert_eq!((none.part, none.faults.len()), (Some(DefaultPresetSize(None)), 0));
    let one = decode("default-column-width { fixed 5; }", Some(size));
    assert_eq!((one.part, one.faults.len()), (Some(DefaultPresetSize(Some(size))), 0));
    let two = decode("default-column-width { fixed 5; fixed 6; }", Some(size));
    assert_eq!(two.part, Some(DefaultPresetSize(Some(size))));
    assert_eq!(kinds(&two.faults), vec![FaultKind::UnexpectedNode]);
    let failed = decode("default-column-width 1 x=2 { fixed; }", None);
    assert_eq!(failed.part, None);
    assert_eq!(
        kinds(&failed.faults),
        vec![FaultKind::UnexpectedArgument, FaultKind::UnexpectedProperty]
    );
}

#[test]
fn an_empty_border_section_turns_the_border_on() {
    assert!(parse_mem("layout { }").layout.border.off);
    assert!(!parse_mem("layout { border { }; }").layout.border.off);
    assert!(parse_mem("layout { border { off; }; }").layout.border.off);
    let result = load("include \"x\"", &[("x", "layout { border { }; }")]);
    assert!(result.config.unwrap().layout.border.off);
    let result = load("include \"x\"", &[("x", "layout { border { on; }; }")]);
    assert!(!result.config.unwrap().layout.border.off);
}

#[test]
fn layout_sections_are_decoded() {
    let layout = parse_mem(
        "layout { center-focused-column \"on-overflow\"; always-center-single-column; }",
    )
    .layout;
    assert_eq!(layout.center_focused_column, CenterFocusedColumn::OnOverflow);
    assert!(layout.always_center_single_column);
    assert!(!layout.empty_workspace_above_first);
    assert_eq!(layout.looks.len(), 1);
    assert_eq!(faults("layout { nonsense; }"), vec![FaultKind::UnexpectedNode]);
    assert_eq!(
        faults("layout { center-focused-column \"maybe\"; }"),
        vec![FaultKind::Conversion]
    );
    assert_eq!(faults("layout { gaps 1; gaps 2; }"), vec![FaultKind::DuplicateNode]);
}

#[test]
fn values_that_are_handed_in_count_where_the_field_is() {
    let mut loader = start("layout { gaps 4; }\noverview { zoom 0.25; workspace-shadow; }");
    let eight = FloatBits { bits: 8f64.to_bits() };
    let values = LayoutValues {
        gaps: Some(eight),
        struts: Some(Struts { left: eight, right: eight, top: eight, bottom: eight }),
        ..no_values()
    };
    let Advance::Section(section) = loader.decode_children() else { panic!() };
    assert_eq!((section.section, section.recursion), (Section::Layout, 0));
    loader.provide_layout(section, values);
    let Advance::Section(section) = loader.decode_children() else { panic!() };
    let zoom = FloatBits { bits: 0.25f64.to_bits() };
    let color = Color { r: 1, g: 1, b: 1, a: 1 };
    loader.provide_overview(
        section,
        OverviewValues { zoom: Some(zoom), backdrop_color: Some(color) },
    );
    let config = run(loader, &[]).config.unwrap();
    assert_eq!(config.layout.gaps, eight);
    assert_eq!(config.layout.struts.left.bits, ZERO);
    assert_eq!(config.overview.zoom, zoom);
    assert_eq!(config.overview.backdrop_color, None);
    assert_eq!(config.overview.workspace_shadow.len(), 1);
}

fn key_bind(trigger: Trigger, action: Action) -> Bind {
    Bind {
        key: Key { trigger, modifiers: Modifiers::empty() },
        action,
        repeat: true,
        cooldown: None,
        allow_when_locked: false,
        hotkey_overlay_title: None,
    }
}

#[test]
fn parts_that_are_handed_in_are_merged() {
    let mut loader = start("binds { }\ninput { }\noutput \"DP-1\"");
    let Advance::Section(section) = loader.decode_children() else { panic!() };
    assert_eq!(section.section, Section::Binds);
    loader.provide_binds(vec![
        key_bind(Trigger::Keysym(1), Action::CloseWindow),
        key_bind(Trigger::Keysym(2), Action::CloseWindow),
    ]);
    loader.provide_binds(vec![key_bind(Trigger::Keysym(1), Action::ToggleOverview)]);
    let Advance::Section(section) = loader.decode_children() else { panic!() };
    assert_eq!(section.section, Section::Input);
    loader.provide_input(InputPart {
        xkb: Some(Xkb { layout: "de".to_string(), ..Xkb::default() }),
        repeat_delay: None,
        repeat_rate: Some(30),
        track_layout: None,
        mouse: None,
        disable_power_key_handling: Some(Flag(true)),
        warp_mouse_to_focus: None,
        focus_follows_mouse: None,
        workspace_auto_back_and_forth: None,
        mod_key: None,
        mod_key_nested: None,
    });
    let config = run(loader, &[]).config.unwrap();
    let keys: Vec<Trigger> = config.binds.0.iter().map(|b| b.key.trigger).collect();
    assert_eq!(keys, vec![Trigger::Keysym(2), Trigger::Keysym(1)]);
    assert!(matches!(config.binds.0[1].action, Action::ToggleOverview));
    assert_eq!(config.xkb.layout, "de");
    assert!(!config.xkb.names_nothing());
    assert!(Xkb::default().names_nothing());
    let keyboard = config.input.keyboard;
    assert_eq!((keyboard.repeat_rate, keyboard.repeat_delay), (30, 600));
    assert!(config.input.disable_power_key_handling);
    assert_eq!(config.outputs.0[0].name, "DP-1");
}

#[test]
fn faults_that_are_handed_in_come_out() {
    let mut loader = start("output \"x\"\nnonsense");
    let Advance::Section(section) = loader.decode_children() else { panic!() };
    let fault = Fault { kind: FaultKind::WrongKind, spot: section.node.spot };
    loader.provide_faults(vec![fault], true);
    let error = run(loader, &[]).config.unwrap_err();
    assert_eq!(kinds(&error.main), vec![FaultKind::WrongKind]);
}
