//! The sections of a configuration file.
use vstd::prelude::*;

use crate::config::grammar::is_called;

verus! {

/// A section, by the name of its node.
#[derive(Clone, Copy, Debug, PartialEq, Eq, Structural)]
pub enum Section {
    Input,
    Cursor,
    Clipboard,
    HotkeyOverlay,
    ConfigNotification,
    Animations,
    Gestures,
    Overview,
    SwitchEvents,
    Debug,
    Output,
    SpawnAtStartup,
    SpawnShAtStartup,
    WindowRule,
    LayerRule,
    Workspace,
    Binds,
    Environment,
    PreferNoCsd,
    ScreenshotPath,
    Layout,
    /// Another file, whose nodes count as if they stood here.
    Include,
}

impl Section {
    /// What the section is called.
    pub open spec fn called(self) -> Seq<char> {
        match self {
            Section::Input => "input"@,
            Section::Cursor => "cursor"@,
            Section::Clipboard => "clipboard"@,
            Section::HotkeyOverlay => "hotkey-overlay"@,
            Section::ConfigNotification => "config-notification"@,
            Section::Animations => "animations"@,
            Section::Gestures => "gestures"@,
            Section::Overview => "overview"@,
            Section::SwitchEvents => "switch-events"@,
            Section::Debug => "debug"@,
            Section::Output => "output"@,
            Section::SpawnAtStartup => "spawn-at-startup"@,
            Section::SpawnShAtStartup => "spawn-sh-at-startup"@,
            Section::WindowRule => "window-rule"@,
            Section::LayerRule => "layer-rule"@,
            Section::Workspace => "workspace"@,
            Section::Binds => "binds"@,
            Section::Environment => "environment"@,
            Section::PreferNoCsd => "prefer-no-csd"@,
            Section::ScreenshotPath => "screenshot-path"@,
            Section::Layout => "layout"@,
            Section::Include => "include"@,
        }
    }
}

/// The section that a node of a name is.
pub open spec fn section_of(name: Seq<char>) -> Option<Section> {
    if name == Section::Input.called() {
        Some(Section::Input)
    } else if name == Section::Cursor.called() {
        Some(Section::Cursor)
    } else if name == Section::Clipboard.called() {
        Some(Section::Clipboard)
    } else if name == Section::HotkeyOverlay.called() {
        Some(Section::HotkeyOverlay)
    } else if name == Section::ConfigNotification.called() {
        Some(Section::ConfigNotification)
    } else if name == Section::Animations.called() {
        Some(Section::Animations)
    } else if name == Section::Gestures.called() {
        Some(Section::Gestures)
    } else if name == Section::Overview.called() {
        Some(Section::Overview)
    } else if name == Section::SwitchEvents.called() {
        Some(Section::SwitchEvents)
    } else if name == Section::Debug.called() {
        Some(Section::Debug)
    } else if name == Section::Output.called() {
        Some(Section::Output)
    } else if name == Section::SpawnAtStartup.called() {
        Some(Section::SpawnAtStartup)
    } else if name == Section::SpawnShAtStartup.called() {
        Some(Section::SpawnShAtStartup)
    } else if name == Section::WindowRule.called() {
        Some(Section::WindowRule)
    } else if name == Section::LayerRule.called() {
        Some(Section::LayerRule)
    } else if name == Section::Workspace.called() {
        Some(Section::Workspace)
    } else if name == Section::Binds.called() {
        Some(Section::Binds)
    } else if name == Section::Environment.called() {
        Some(Section::Environment)
    } else if name == Section::PreferNoCsd.called() {
        Some(Section::PreferNoCsd)
    } else if name == Section::ScreenshotPath.called() {
        Some(Section::ScreenshotPath)
    } else if name == Section::Layout.called() {
        Some(Section::Layout)
    } else if name == Section::Include.called() {
        Some(Section::Include)
    } else {
        None
    }
}

impl Section {
    /// Whether nodes of the section can stand in a file more than once, each adding something new.
    pub open spec fn adds(self) -> bool {
        self is Output || self is SpawnAtStartup || self is SpawnShAtStartup || self is WindowRule
            || self is LayerRule || self is Workspace || self is Include
    }
}

/// Whether nodes of a name can stand in a file more than once.
pub open spec fn is_multipart(name: Seq<char>) -> bool {
    section_of(name) matches Some(section) && section.adds()
}

/// The section that a node of a name is.
pub fn find_section(name: &String) -> (r: Option<Section>)
    ensures
        r == section_of(name@),
{
    if is_called(name, "input") {
        Some(Section::Input)
    } else if is_called(name, "cursor") {
        Some(Section::Cursor)
    } else if is_called(name, "clipboard") {
        Some(Section::Clipboard)
    } else if is_called(name, "hotkey-overlay") {
        Some(Section::HotkeyOverlay)
    } else if is_called(name, "config-notification") {
        Some(Section::ConfigNotification)
    } else if is_called(name, "animations") {
        Some(Section::Animations)
    } else if is_called(name, "gestures") {
        Some(Section::Gestures)
    } else if is_called(name, "overview") {
        Some(Section::Overview)
    } else if is_called(name, "switch-events") {
        Some(Section::SwitchEvents)
    } else if is_called(name, "debug") {
        Some(Section::Debug)
    } else if is_called(name, "output") {
        Some(Section::Output)
    } else if is_called(name, "spawn-at-startup") {
        Some(Section::SpawnAtStartup)
    } else if is_called(name, "spawn-sh-at-startup") {
        Some(Section::SpawnShAtStartup)
    } else if is_called(name, "window-rule") {
        Some(Section::WindowRule)
    } else if is_called(name, "layer-rule") {
        Some(Section::LayerRule)
    } else if is_called(name, "workspace") {
        Some(Section::Workspace)
    } else if is_called(name, "binds") {
        Some(Section::Binds)
    } else if is_called(name, "environment") {
        Some(Section::Environment)
    } else if is_called(name, "prefer-no-csd") {
        Some(Section::PreferNoCsd)
    } else if is_called(name, "screenshot-path") {
        Some(Section::ScreenshotPath)
    } else if is_called(name, "layout") {
        Some(Section::Layout)
    } else if is_called(name, "include") {
        Some(Section::Include)
    } else {
        None
    }
}

/// Whether nodes of a section can stand in a file more than once. Splitting a section otherwise would
/// only be confusing.
pub fn can_repeat(section: Option<Section>) -> (r: bool)
    ensures
        r == (section matches Some(section) && section.adds()),
{
    matches!(
        section,
        Some(
            Section::Output | Section::SpawnAtStartup | Section::SpawnShAtStartup
            | Section::WindowRule | Section::LayerRule | Section::Workspace | Section::Include,
        )
    )
}

/// A section is known by its name, and every name of a section is known.
pub proof fn law_sections_are_known_by_name(name: Seq<char>)
    ensures
        section_of(name) matches Some(section) ==> (match section {
            Section::Input => name == "input"@,
            Section::Cursor => name == "cursor"@,
            Section::Clipboard => name == "clipboard"@,
            Section::HotkeyOverlay => name == "hotkey-overlay"@,
            Section::ConfigNotification => name == "config-notification"@,
            Section::Animations => name == "animations"@,
            Section::Gestures => name == "gestures"@,
            Section::Overview => name == "overview"@,
            Section::SwitchEvents => name == "switch-events"@,
            Section::Debug => name == "debug"@,
            Section::Output => name == "output"@,
            Section::SpawnAtStartup => name == "spawn-at-startup"@,
            Section::SpawnShAtStartup => name == "spawn-sh-at-startup"@,
            Section::WindowRule => name == "window-rule"@,
            Section::LayerRule => name == "layer-rule"@,
            Section::Workspace => name == "workspace"@,
            Section::Binds => name == "binds"@,
            Section::Environment => name == "environment"@,
            Section::PreferNoCsd => name == "prefer-no-csd"@,
            Section::ScreenshotPath => name == "screenshot-path"@,
            Section::Layout => name == "layout"@,
            Section::Include => name == "include"@,
        }),
        name == "input"@
            || name == "cursor"@
            || name == "clipboard"@
            || name == "hotkey-overlay"@
            || name == "config-notification"@
            || name == "animations"@
            || name == "gestures"@
            || name == "overview"@
            || name == "switch-events"@
            || name == "debug"@
            || name == "output"@
            || name == "spawn-at-startup"@
            || name == "spawn-sh-at-startup"@
            || name == "window-rule"@
            || name == "layer-rule"@
            || name == "workspace"@
            || name == "binds"@
            || name == "environment"@
            || name == "prefer-no-csd"@
            || name == "screenshot-path"@
            || name == "layout"@
            || name == "include"@
            ==> section_of(name) is Some,
{
}

/// Only the sections that add something can stand in a file more than once.
pub proof fn law_sections_that_add(section: Section)
    ensures
        section.adds() <==> (match section {
            Section::Output | Section::SpawnAtStartup | Section::SpawnShAtStartup
            | Section::WindowRule | Section::LayerRule | Section::Workspace
            | Section::Include => true,
            _ => false,
        }),
{
}

} // verus!
