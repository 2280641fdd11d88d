//! The configuration.
//!
//! It can be spread over several files, by nodes that name another file. Such a file counts as if its
//! nodes stood in the place of that node.
pub mod grammar;
pub mod input;
pub mod kdl;
pub mod layer_rule;
pub mod layout;
pub mod loader;
pub mod misc;
pub mod parse;
pub mod path;
pub mod reading;
pub mod rules;
pub mod same;
pub mod section;
pub mod window_rule;
pub mod workspace;

use vstd::prelude::*;

use crate::config::grammar::{flag_reading, section_fields, Fault};
use crate::config::input::{default_input, default_xkb, Input, Xkb, XkbView};
use crate::config::kdl::KdlNode;
use crate::config::layer_rule::{LayerRule, LayerRuleView};
use crate::config::layout::{default_layout, Layout, LayoutView};
use crate::config::misc::{
    clipboard_rules, config_notification_rules, cursor_part_of, cursor_rules, decode_flag,
    default_cursor, default_overview, environment_reading, flag_field, hotkey_overlay_rules,
    merged_cursor, opt_argument_reading, opt_text, spawn_reading, spawn_sh_reading, texts,
    Clipboard, ClipboardPart, ConfigNotification, ConfigNotificationPart, Cursor, CursorPart,
    CursorView, Environment, HotkeyOverlay, HotkeyOverlayPart, Overview, OverviewView,
    ScreenshotPath, SpawnAtStartup, SpawnShAtStartup, VariableView,
};
use crate::config::same::views;
use crate::config::section::Section;
use crate::config::window_rule::{WindowRule, WindowRuleView};
use crate::config::workspace::{workspace_reading, Workspace, WorkspaceView};
use crate::input::binds::{Bind, Binds, Key};
use crate::niri::output_config::{OutputConfigView, Outputs};

verus! {

/// A section that is decoded elsewhere, or kept as it was read.
#[derive(Debug)]
pub struct RawSection {
    pub section: Section,
    /// How deep the file is nested that it stands in.
    pub recursion: u8,
    pub node: KdlNode,
}

/// The configuration.
#[derive(Debug)]
pub struct Config {
    /// Input, but for the keymap.
    pub input: Input,
    pub xkb: Xkb,
    pub outputs: Outputs,
    pub layout: Layout,
    pub overview: Overview,
    pub window_rules: Vec<WindowRule>,
    pub layer_rules: Vec<LayerRule>,
    pub cursor: Cursor,
    pub clipboard: Clipboard,
    pub hotkey_overlay: HotkeyOverlay,
    pub config_notification: ConfigNotification,
    pub environment: Environment,
    pub prefer_no_csd: bool,
    pub screenshot_path: ScreenshotPath,
    pub spawn_at_startup: Vec<SpawnAtStartup>,
    pub spawn_sh_at_startup: Vec<SpawnShAtStartup>,
    pub workspaces: Vec<Workspace>,
    pub binds: Binds,
    /// Animations, gestures, switch events and debugging, in the order in which they were read.
    pub sections: Vec<RawSection>,
}

/// The configuration in the abstract.
#[verifier::ext_equal]
pub struct ConfigView {
    pub input: Input,
    pub xkb: XkbView,
    pub outputs: Seq<OutputConfigView>,
    pub layout: LayoutView,
    pub overview: OverviewView,
    pub window_rules: Seq<WindowRuleView>,
    pub layer_rules: Seq<LayerRuleView>,
    pub cursor: CursorView,
    pub clipboard: Clipboard,
    pub hotkey_overlay: HotkeyOverlay,
    pub config_notification: ConfigNotification,
    pub environment: Seq<VariableView>,
    pub prefer_no_csd: bool,
    pub screenshot_path: Option<Seq<char>>,
    pub spawn_at_startup: Seq<Seq<Seq<char>>>,
    pub spawn_sh_at_startup: Seq<Seq<char>>,
    pub workspaces: Seq<WorkspaceView>,
    pub binds: Seq<Bind>,
    pub sections: Seq<RawSection>,
}

/// The commands to be run at startup.
pub open spec fn commands(spawns: Seq<SpawnAtStartup>) -> Seq<Seq<Seq<char>>> {
    spawns.map_values(|s: SpawnAtStartup| texts(s.command@))
}

/// The commands to be run by a shell at startup.
pub open spec fn sh_commands(spawns: Seq<SpawnShAtStartup>) -> Seq<Seq<char>> {
    spawns.map_values(|s: SpawnShAtStartup| s.command@)
}

/// The named workspaces.
pub open spec fn workspace_views(workspaces: Seq<Workspace>) -> Seq<WorkspaceView> {
    workspaces.map_values(|w: Workspace| w@)
}

impl View for Config {
    type V = ConfigView;

    open spec fn view(&self) -> ConfigView {
        ConfigView {
            input: self.input,
            xkb: self.xkb@,
            outputs: self.outputs@,
            layout: self.layout@,
            overview: self.overview@,
            window_rules: views(self.window_rules@),
            layer_rules: views(self.layer_rules@),
            cursor: self.cursor@,
            clipboard: self.clipboard,
            hotkey_overlay: self.hotkey_overlay,
            config_notification: self.config_notification,
            environment: self.environment@,
            prefer_no_csd: self.prefer_no_csd,
            screenshot_path: opt_text(self.screenshot_path.0),
            spawn_at_startup: commands(self.spawn_at_startup@),
            spawn_sh_at_startup: sh_commands(self.spawn_sh_at_startup@),
            workspaces: workspace_views(self.workspaces@),
            binds: self.binds.0@,
            sections: self.sections@,
        }
    }
}

/// The configuration if nothing is configured.
pub open spec fn default_config() -> ConfigView {
    ConfigView {
        input: default_input(),
        xkb: default_xkb(),
        outputs: Seq::empty(),
        layout: default_layout(),
        overview: default_overview(),
        window_rules: Seq::empty(),
        layer_rules: Seq::empty(),
        cursor: default_cursor(),
        clipboard: Clipboard { disable_primary: false },
        hotkey_overlay: HotkeyOverlay { skip_at_startup: false, hide_not_bound: false },
        config_notification: ConfigNotification { disable_failed: false },
        environment: Seq::empty(),
        prefer_no_csd: false,
        screenshot_path: Some("~/Pictures/Screenshots/Screenshot from %Y-%m-%d %H-%M-%S.png"@),
        spawn_at_startup: Seq::empty(),
        spawn_sh_at_startup: Seq::empty(),
        workspaces: Seq::empty(),
        binds: Seq::empty(),
        sections: Seq::empty(),
    }
}

impl Default for Config {
    fn default() -> (r: Config)
        ensures
            r@ == default_config(),
    {
        let config = Config {
            input: Input::default(),
            xkb: Xkb::default(),
            outputs: Outputs(Vec::new()),
            layout: Layout::default(),
            overview: Overview::default(),
            window_rules: Vec::new(),
            layer_rules: Vec::new(),
            cursor: Cursor::default(),
            clipboard: Clipboard::default(),
            hotkey_overlay: HotkeyOverlay::default(),
            config_notification: ConfigNotification::default(),
            environment: Environment(Vec::new()),
            prefer_no_csd: false,
            screenshot_path: ScreenshotPath::default(),
            spawn_at_startup: Vec::new(),
            spawn_sh_at_startup: Vec::new(),
            workspaces: Vec::new(),
            binds: Binds(Vec::new()),
            sections: Vec::new(),
        };
        assert(config@ =~= default_config());
        config
    }
}

/// What a section does: the configuration after it unless the decoding was given up, the faults, and
/// the names of workspaces that are then taken.
#[verifier::ext_equal]
pub struct SectionEffect {
    pub config: Option<ConfigView>,
    pub faults: Seq<Fault>,
    pub names: Seq<Seq<char>>,
}

/// Whether a section is decoded right where it stands. The others are handed out to be decoded.
pub open spec fn is_decoded_here(section: Section) -> bool {
    match section {
        Section::Cursor | Section::Clipboard | Section::HotkeyOverlay | Section::ConfigNotification
        | Section::Environment | Section::PreferNoCsd | Section::ScreenshotPath
        | Section::SpawnAtStartup | Section::SpawnShAtStartup | Section::Workspace => true,
        _ => false,
    }
}

/// What a section that is decoded right where it stands does to the configuration. `names` are the
/// names of workspaces that are taken.
pub open spec fn section_effect(
    config: ConfigView,
    section: Section,
    node: KdlNode,
    names: Seq<Seq<char>>,
) -> SectionEffect
    recommends
        is_decoded_here(section),
{
    match section {
        Section::Cursor => {
            let fields = section_fields(node, cursor_rules());
            SectionEffect {
                config: if fields.stopped {
                    None
                } else {
                    Some(
                        ConfigView {
                            cursor: merged_cursor(config.cursor, cursor_part_of(fields)),
                            ..config
                        },
                    )
                },
                faults: fields.faults,
                names,
            }
        },
        Section::Clipboard => {
            let fields = section_fields(node, clipboard_rules());
            SectionEffect {
                config: if fields.stopped {
                    None
                } else {
                    Some(
                        ConfigView {
                            clipboard: config.clipboard.merged(
                                ClipboardPart { disable_primary: flag_field(fields, 0) },
                            ),
                            ..config
                        },
                    )
                },
                faults: fields.faults,
                names,
            }
        },
        Section::HotkeyOverlay => {
            let fields = section_fields(node, hotkey_overlay_rules());
            SectionEffect {
                config: if fields.stopped {
                    None
                } else {
                    Some(
                        ConfigView {
                            hotkey_overlay: config.hotkey_overlay.merged(
                                HotkeyOverlayPart {
                                    skip_at_startup: flag_field(fields, 0),
                                    hide_not_bound: flag_field(fields, 1),
                                },
                            ),
                            ..config
                        },
                    )
                },
                faults: fields.faults,
                names,
            }
        },
        Section::ConfigNotification => {
            let fields = section_fields(node, config_notification_rules());
            SectionEffect {
                config: if fields.stopped {
                    None
                } else {
                    Some(
                        ConfigView {
                            config_notification: config.config_notification.merged(
                                ConfigNotificationPart { disable_failed: flag_field(fields, 0) },
                            ),
                            ..config
                        },
                    )
                },
                faults: fields.faults,
                names,
            }
        },
        Section::Environment => {
            let read = environment_reading(node);
            SectionEffect {
                config: match read.value {
                    Some(part) => Some(
                        ConfigView { environment: config.environment + part, ..config },
                    ),
                    None => None,
                },
                faults: read.faults,
                names,
            }
        },
        Section::PreferNoCsd => {
            let read = flag_reading(node);
            SectionEffect {
                config: match read.value {
                    Some(flag) => Some(ConfigView { prefer_no_csd: flag, ..config }),
                    None => None,
                },
                faults: read.faults,
                names,
            }
        },
        Section::ScreenshotPath => {
            let read = opt_argument_reading(node);
            SectionEffect {
                config: match read.value {
                    Some(screenshot_path) => Some(ConfigView { screenshot_path, ..config }),
                    None => None,
                },
                faults: read.faults,
                names,
            }
        },
        Section::SpawnAtStartup => {
            let read = spawn_reading(node);
            SectionEffect {
                config: match read.value {
                    Some(command) => Some(
                        ConfigView {
                            spawn_at_startup: config.spawn_at_startup.push(command),
                            ..config
                        },
                    ),
                    None => None,
                },
                faults: read.faults,
                names,
            }
        },
        Section::SpawnShAtStartup => {
            let read = spawn_sh_reading(node);
            SectionEffect {
                config: match read.value {
                    Some(command) => Some(
                        ConfigView {
                            spawn_sh_at_startup: config.spawn_sh_at_startup.push(command),
                            ..config
                        },
                    ),
                    None => None,
                },
                faults: read.faults,
                names,
            }
        },
        Section::Workspace => {
            let read = workspace_reading(node, names);
            SectionEffect {
                config: match read.value {
                    Some(workspace) => Some(
                        ConfigView { workspaces: config.workspaces.push(workspace), ..config },
                    ),
                    None => None,
                },
                faults: read.faults,
                names: read.names,
            }
        },
        _ => SectionEffect { config: Some(config), faults: Seq::empty(), names },
    }
}

impl Section {
    /// Whether the section is decoded right where it stands.
    pub fn decoded_here(&self) -> (r: bool)
        ensures
            r == is_decoded_here(*self),
    {
        match self {
            Section::Cursor | Section::Clipboard | Section::HotkeyOverlay
            | Section::ConfigNotification | Section::Environment | Section::PreferNoCsd
            | Section::ScreenshotPath | Section::SpawnAtStartup | Section::SpawnShAtStartup
            | Section::Workspace => true,
            _ => false,
        }
    }
}

impl Config {
    /// Applies one of the sections that are merged. Returns whether the decoding was given up, and the
    /// faults.
    fn merge_section(&mut self, section: Section, node: &KdlNode) -> (r: (bool, Vec<Fault>))
        requires
            section is Cursor || section is Clipboard || section is HotkeyOverlay
                || section is ConfigNotification,
        ensures
            ({
                let effect = section_effect(old(self)@, section, *node, Seq::empty());
                &&& r.0 == (effect.config is None)
                &&& r.1@ == effect.faults
                &&& final(self)@ == (match effect.config {
                    Some(config) => config,
                    None => old(self)@,
                })
            }),
    {
        match section {
            Section::Cursor => {
                let read = CursorPart::decode_node(node);
                match &read.part {
                    Some(part) => {
                        self.cursor.merge_with(part);
                    },
                    None => {
                        return (true, read.faults);
                    },
                }
                (false, read.faults)
            },
            Section::Clipboard => {
                let read = ClipboardPart::decode_node(node);
                match &read.part {
                    Some(part) => {
                        self.clipboard.merge_with(part);
                    },
                    None => {
                        return (true, read.faults);
                    },
                }
                (false, read.faults)
            },
            Section::HotkeyOverlay => {
                let read = HotkeyOverlayPart::decode_node(node);
                match &read.part {
                    Some(part) => {
                        self.hotkey_overlay.merge_with(part);
                    },
                    None => {
                        return (true, read.faults);
                    },
                }
                (false, read.faults)
            },
            _ => {
                let read = ConfigNotificationPart::decode_node(node);
                match &read.part {
                    Some(part) => {
                        self.config_notification.merge_with(part);
                    },
                    None => {
                        return (true, read.faults);
                    },
                }
                (false, read.faults)
            },
        }
    }

    /// Applies one of the sections that are set or added to. Returns whether the decoding was given
    /// up, and the faults.
    fn add_section(&mut self, section: Section, node: &KdlNode) -> (r: (bool, Vec<Fault>))
        requires
            section is Environment || section is PreferNoCsd || section is ScreenshotPath
                || section is SpawnAtStartup || section is SpawnShAtStartup,
        ensures
            ({
                let effect = section_effect(old(self)@, section, *node, Seq::empty());
                &&& r.0 == (effect.config is None)
                &&& r.1@ == effect.faults
                &&& final(self)@ == (match effect.config {
                    Some(config) => config,
                    None => old(self)@,
                })
            }),
    {
        match section {
            Section::Environment => {
                let read = Environment::decode_node(node);
                match read.part {
                    Some(part) => {
                        self.environment.extend(part);
                        (false, read.faults)
                    },
                    None => (true, read.faults),
                }
            },
            Section::PreferNoCsd => {
                let read = decode_flag(node);
                match read.part {
                    Some(flag) => {
                        self.prefer_no_csd = flag.0;
                        (false, read.faults)
                    },
                    None => (true, read.faults),
                }
            },
            Section::ScreenshotPath => {
                let read = ScreenshotPath::decode_node(node);
                match read.part {
                    Some(path) => {
                        self.screenshot_path = path;
                        (false, read.faults)
                    },
                    None => (true, read.faults),
                }
            },
            Section::SpawnAtStartup => {
                let read = SpawnAtStartup::decode_node(node);
                match read.part {
                    Some(spawn) => {
                        let ghost command = texts(spawn.command@);
                        self.spawn_at_startup.push(spawn);
                        assert(self@.spawn_at_startup =~= old(self)@.spawn_at_startup.push(command));
                        (false, read.faults)
                    },
                    None => (true, read.faults),
                }
            },
            _ => {
                let read = SpawnShAtStartup::decode_node(node);
                match read.part {
                    Some(spawn) => {
                        let ghost command = spawn.command@;
                        self.spawn_sh_at_startup.push(spawn);
                        assert(self@.spawn_sh_at_startup =~= old(self)@.spawn_sh_at_startup.push(
                            command,
                        ));
                        (false, read.faults)
                    },
                    None => (true, read.faults),
                }
            },
        }
    }

    /// Applies a section that is decoded right where it stands. Returns whether the decoding was given up, and the faults.
    ///
    /// `names` are the names of workspaces that are taken in the file.
    pub fn apply_section(
        &mut self,
        section: Section,
        node: KdlNode,
        names: &mut Vec<String>,
    ) -> (r: (bool, Vec<Fault>))
        requires
            is_decoded_here(section),
        ensures
            ({
                let effect = section_effect(old(self)@, section, node, texts(old(names)@));
                &&& r.0 == (effect.config is None)
                &&& r.1@ == effect.faults
                &&& texts(final(names)@) == effect.names
                &&& final(self)@ == (match effect.config {
                    Some(config) => config,
                    None => old(self)@,
                })
            }),
    {
        match section {
            Section::Cursor | Section::Clipboard | Section::HotkeyOverlay
            | Section::ConfigNotification => self.merge_section(section, &node),
            Section::Environment | Section::PreferNoCsd | Section::ScreenshotPath
            | Section::SpawnAtStartup | Section::SpawnShAtStartup => self.add_section(
                section,
                &node,
            ),
            _ => {
                let read = Workspace::decode_node(node, names);
                match read.part {
                    Some(workspace) => {
                        let ghost added = workspace@;
                        self.workspaces.push(workspace);
                        assert(self@.workspaces =~= old(self)@.workspaces.push(added));
                        (false, read.faults)
                    },
                    None => (true, read.faults),
                }
            },
        }
    }

    /// Adds binds. Those that are already there for the same keys give way, so that the binds of
    /// another file can be overridden.
    pub fn merge_binds(&mut self, part: Vec<Bind>)
        ensures
            final(self)@ == (ConfigView {
                binds: merged_binds(old(self)@.binds, part@),
                ..old(self)@
            }),
    {
        let ghost before = self.binds.0@;
        let mut part = part;
        let ghost added = part@;
        let mut i: usize = 0;
        let ghost mut done: int = 0;
        proof {
            assert(before.take(0) =~= Seq::<Bind>::empty());
            assert(before.skip(0) =~= before);
        }
        while i < self.binds.0.len()
            invariant
                0 <= done <= before.len(),
                part@ == added,
                i == kept_binds(before.take(done), added).len(),
                self.binds.0@ == kept_binds(before.take(done), added) + before.skip(done),
                old(self)@ == (ConfigView { binds: before, ..self@ }),
            decreases before.len() - done,
        {
            let ghost current = self.binds.0@;
            assert(current.len() == i + (before.len() - done));
            assert(current[i as int] == before[done]);
            assert(before.take(done + 1).drop_last() =~= before.take(done));
            assert(before.take(done + 1).last() == before[done]);
            if has_bind_for(&part, self.binds.0[i].key) {
                self.binds.0.remove(i);
            } else {
                i = i + 1;
            }
            assert(self.binds.0@ =~= kept_binds(before.take(done + 1), added) + before.skip(done + 1));
            proof {
                done = done + 1;
            }
        }
        assert(done == before.len());
        assert(before.take(done) =~= before);
        assert(self.binds.0@ =~= kept_binds(before, added));
        self.binds.0.append(&mut part);
        assert(merged_binds(before, added) =~= self.binds.0@);
    }
}

/// Whether a bind is set off by a key.
pub open spec fn binds_key(binds: Seq<Bind>, key: Key) -> bool {
    exists|i: int| 0 <= i < binds.len() && (#[trigger] binds[i]).key == key
}

/// The binds that do not give way to others.
pub open spec fn kept_binds(binds: Seq<Bind>, part: Seq<Bind>) -> Seq<Bind>
    decreases binds.len(),
{
    if binds.len() == 0 {
        binds
    } else {
        let kept = kept_binds(binds.drop_last(), part);
        if binds_key(part, binds.last().key) {
            kept
        } else {
            kept.push(binds.last())
        }
    }
}

/// The binds with some more. Those for the same keys give way.
pub open spec fn merged_binds(binds: Seq<Bind>, part: Seq<Bind>) -> Seq<Bind> {
    kept_binds(binds, part) + part
}

/// The binds that do not give way are those that no other has the key of.
proof fn lemma_kept_binds(binds: Seq<Bind>, part: Seq<Bind>, bind: Bind)
    ensures
        kept_binds(binds, part).contains(bind) <==> binds.contains(bind) && !binds_key(
            part,
            bind.key,
        ),
    decreases binds.len(),
{
    if binds.len() > 0 {
        let shorter = binds.drop_last();
        let last = binds.last();
        let kept = kept_binds(shorter, part);
        lemma_kept_binds(shorter, part, bind);
        if shorter.contains(bind) {
            assert(binds[shorter.index_of(bind)] == bind);
        }
        if binds.contains(bind) && bind != last {
            let i = binds.index_of(bind);
            assert(shorter[i] == bind);
        }
        assert(binds[binds.len() - 1] == last);
        if !binds_key(part, last.key) {
            assert(kept.push(last)[kept.len() as int] == last);
            if kept.contains(bind) {
                assert(kept.push(last)[kept.index_of(bind)] == bind);
            }
            if kept.push(last).contains(bind) && bind != last {
                let i = kept.push(last).index_of(bind);
                assert(kept[i] == bind);
            }
        }
    }
}

/// Binds that are added come last, after those of the earlier ones that are for other keys.
pub proof fn law_merged_binds(binds: Seq<Bind>, part: Seq<Bind>)
    ensures
        merged_binds(binds, part) == binds.filter(|bind: Bind| !binds_key(part, bind.key)) + part,
{
    lemma_kept_is_filter(binds, part);
}

/// The binds that do not give way, as a selection.
proof fn lemma_kept_is_filter(binds: Seq<Bind>, part: Seq<Bind>)
    ensures
        kept_binds(binds, part) == binds.filter(|bind: Bind| !binds_key(part, bind.key)),
    decreases binds.len(),
{
    reveal(Seq::filter);
    if binds.len() > 0 {
        lemma_kept_is_filter(binds.drop_last(), part);
    }
    assert(kept_binds(binds, part) =~= binds.filter(|bind: Bind| !binds_key(part, bind.key)));
}

/// Looks whether a bind is set off by a key.
fn has_bind_for(binds: &Vec<Bind>, key: Key) -> (r: bool)
    ensures
        r == binds_key(binds@, key),
{
    let mut i: usize = 0;
    while i < binds.len()
        invariant
            i <= binds@.len(),
            forall|k: int| 0 <= k < i ==> (#[trigger] binds@[k]).key != key,
        decreases binds@.len() - i,
    {
        if binds[i].key == key {
            return true;
        }
        i = i + 1;
    }
    false
}

/// After binds were added, the binds for their keys are just the added ones, and all other binds are
/// still there.
pub proof fn law_later_binds_count(binds: Seq<Bind>, part: Seq<Bind>, bind: Bind)
    ensures
        binds_key(part, bind.key) ==> (merged_binds(binds, part).contains(bind) <==> part.contains(
            bind,
        )),
        !binds_key(part, bind.key) ==> (merged_binds(binds, part).contains(bind) <==> binds.contains(
            bind,
        )),
{
    let kept = kept_binds(binds, part);
    let merged = merged_binds(binds, part);
    lemma_kept_binds(binds, part, bind);
    if merged.contains(bind) {
        let i = merged.index_of(bind);
        if i < kept.len() {
            assert(kept[i] == bind);
        } else {
            assert(part[i - kept.len()] == bind);
        }
    }
    if part.contains(bind) {
        let j = part.index_of(bind);
        assert(merged[kept.len() + j] == bind);
        assert(part[j].key == bind.key);
    }
    if kept.contains(bind) {
        assert(merged[kept.index_of(bind)] == bind);
    }
}

/// What counts if nothing is configured: nothing is started, bound, ruled or switched on, windows have no
/// border, and screenshots go among the pictures.
pub proof fn law_defaults()
    ensures
        ({
            let config = default_config();
            &&& config.outputs.len() == 0 && config.window_rules.len() == 0
                && config.layer_rules.len() == 0
            &&& config.spawn_at_startup.len() == 0 && config.spawn_sh_at_startup.len() == 0
            &&& config.binds.len() == 0 && config.workspaces.len() == 0
                && config.environment.len() == 0 && config.sections.len() == 0
            &&& !config.prefer_no_csd && !config.clipboard.disable_primary
            &&& !config.hotkey_overlay.skip_at_startup && !config.hotkey_overlay.hide_not_bound
            &&& !config.config_notification.disable_failed
            &&& config.screenshot_path == Some(
                "~/Pictures/Screenshots/Screenshot from %Y-%m-%d %H-%M-%S.png"@,
            )
            &&& config.cursor.xcursor_theme == "default"@ && config.cursor.xcursor_size == 24
            &&& !config.cursor.hide_when_typing && config.cursor.hide_after_inactive_ms is None
            &&& config.input.keyboard.repeat_delay == 600 && config.input.keyboard.repeat_rate == 25
            &&& config.layout.border.off
            &&& !config.layout.always_center_single_column
                && !config.layout.empty_workspace_above_first
            &&& config.layout.center_focused_column is Never
            &&& config.layout.default_column_display is Normal
            &&& config.layout.preset_column_widths.len() == 3
                && config.layout.preset_window_heights == config.layout.preset_column_widths
            &&& config.layout.default_column_width == Some(config.layout.preset_column_widths[1])
        }),
{
}

} // verus!
