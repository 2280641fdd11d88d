//! Putting the configuration together from its files.
//!
//! The files are read by the caller: whenever another file is named, the loader stops and waits to be
//! told what became of it. It does so too at sections with values that only the caller can decode, such
//! as numbers with fractions, colors and keys.
use vstd::prelude::*;

use crate::config::grammar::{
    annotation_faults, bool_faults, bool_of, check_children, first_called, is_called, no_fields,
    read_bool, read_text, rule_for, section_fields, stray_nodes, text_faults, text_of, with_field,
    with_fields, Fault, FaultKind, FieldRuleView,
};
use crate::config::input::InputPart;
use crate::config::kdl::{KdlNode, KdlProperty, Spot};
use crate::config::layer_rule::{LayerRule, LayerRuleView};
use crate::config::layout::{
    layout_part_of, layout_rules, merged_layout, settled_part, LayoutPart, LayoutValues,
};
use crate::config::misc::{
    merged_overview, overview_part_of, overview_rules, texts, OverviewPart, OverviewValues,
};
use crate::config::parse::{kdl_nodes, node_views, parse_kdl};
use crate::config::same::views;
use crate::config::section::{can_repeat, find_section, is_multipart, section_of, Section};
use crate::config::window_rule::{WindowRule, WindowRuleView};
use crate::config::{
    default_config, is_decoded_here, merged_binds, section_effect, Config, ConfigView, RawSection,
};
use crate::input::binds::Bind;
use crate::niri::output_config::{OutputConfig, OutputConfigView};
use crate::utils::path::{path_parts, same_path};

verus! {

/// Files cannot be nested this deep.
pub const RECURSION_LIMIT: u8 = 10;

/// A file that is being decoded.
#[derive(Debug)]
pub struct ConfigPart {
    pub path: String,
    /// The nodes that are still to be decoded, the next one last.
    pub pending: Vec<KdlNode>,
    /// The names of the nodes that can stand there once.
    pub seen: Vec<String>,
    /// The names of the workspaces.
    pub names: Vec<String>,
    pub faults: Vec<Fault>,
    /// Whether the decoding of the file was given up.
    pub stopped: bool,
    /// Where the file is named.
    pub spot: Spot,
}

/// A file that is being decoded, in the abstract.
#[verifier::ext_equal]
pub struct PartView {
    pub path: Seq<char>,
    pub pending: Seq<KdlNode>,
    pub seen: Seq<Seq<char>>,
    pub names: Seq<Seq<char>>,
    pub faults: Seq<Fault>,
    pub stopped: bool,
    pub spot: Spot,
}

impl View for ConfigPart {
    type V = PartView;

    open spec fn view(&self) -> PartView {
        PartView {
            path: self.path@,
            pending: self.pending@,
            seen: texts(self.seen@),
            names: texts(self.names@),
            faults: self.faults@,
            stopped: self.stopped,
            spot: self.spot,
        }
    }
}

/// The faults of a file that is named by another.
#[derive(Debug)]
pub struct FileFaults {
    pub path: String,
    /// Whether the file could not even be taken apart into nodes.
    pub syntax: bool,
    pub faults: Vec<Fault>,
}

/// The faults of a file, in the abstract.
#[verifier::ext_equal]
pub struct FileFaultsView {
    pub path: Seq<char>,
    pub syntax: bool,
    pub faults: Seq<Fault>,
}

impl View for FileFaults {
    type V = FileFaultsView;

    open spec fn view(&self) -> FileFaultsView {
        FileFaultsView { path: self.path@, syntax: self.syntax, faults: self.faults@ }
    }
}

/// What is known while the configuration is put together.
#[derive(Debug)]
pub struct Loader {
    pub config: Config,
    /// The files that are being decoded, the main one first and each named by the one before it.
    pub frames: Vec<ConfigPart>,
    /// The other files that were named, so that they can be watched.
    pub includes: Vec<String>,
    /// The faults of other files.
    pub errors: Vec<FileFaults>,
    /// The faults of the main file, once it is decoded.
    pub closed: Option<Vec<Fault>>,
}

/// What is known while the configuration is put together, in the abstract.
#[verifier::ext_equal]
pub struct LoaderView {
    pub config: ConfigView,
    pub frames: Seq<PartView>,
    pub includes: Seq<Seq<char>>,
    pub errors: Seq<FileFaultsView>,
    pub closed: Option<Seq<Fault>>,
}

/// The files in the abstract.
pub open spec fn frame_views(frames: Seq<ConfigPart>) -> Seq<PartView> {
    frames.map_values(|f: ConfigPart| f@)
}

/// The faults of files in the abstract.
pub open spec fn error_views(errors: Seq<FileFaults>) -> Seq<FileFaultsView> {
    errors.map_values(|f: FileFaults| f@)
}

impl View for Loader {
    type V = LoaderView;

    open spec fn view(&self) -> LoaderView {
        LoaderView {
            config: self.config@,
            frames: frame_views(self.frames@),
            includes: texts(self.includes@),
            errors: error_views(self.errors@),
            closed: match self.closed {
                Some(faults) => Some(faults@),
                None => None,
            },
        }
    }
}

/// A node that names another file.
#[derive(Debug)]
pub struct IncludeNode {
    pub path: String,
    /// Whether the file may be missing.
    pub optional: bool,
    /// Where the node is.
    pub spot: Spot,
}

/// A node that names another file, in the abstract.
pub struct IncludeView {
    pub path: Seq<char>,
    pub optional: bool,
    pub spot: Spot,
}

impl View for IncludeNode {
    type V = IncludeView;

    open spec fn view(&self) -> IncludeView {
        IncludeView { path: self.path@, optional: self.optional, spot: self.spot }
    }
}

/// What was read of the properties of a node that names another file.
#[verifier::ext_equal]
pub struct PropertiesReading {
    pub optional: bool,
    pub faults: Seq<Fault>,
}

/// The reading of the properties of a node that names another file.
pub open spec fn properties_reading(properties: Seq<KdlProperty>) -> PropertiesReading
    decreases properties.len(),
{
    if properties.len() == 0 {
        PropertiesReading { optional: false, faults: Seq::empty() }
    } else {
        let before = properties_reading(properties.drop_last());
        let last = properties.last();
        if last.name@ == "optional"@ {
            PropertiesReading {
                optional: bool_of(last.value),
                faults: before.faults + bool_faults(last.value),
            }
        } else {
            PropertiesReading {
                faults: before.faults.push(
                    Fault { kind: FaultKind::UnexpectedProperty, spot: last.spot },
                ),
                ..before
            }
        }
    }
}

/// The faults of a node that names another file.
pub open spec fn include_faults(node: KdlNode) -> Seq<Fault> {
    if node.arguments@.len() == 0 {
        seq![Fault { kind: FaultKind::MissingArgument, spot: node.spot }]
    } else {
        text_faults(node.arguments@[0]) + (if node.arguments@.len() > 1 {
            seq![Fault { kind: FaultKind::UnexpectedArgument, spot: node.arguments@[1].spot }]
        } else {
            Seq::empty()
        }) + properties_reading(node.properties@).faults + stray_nodes(node.children@)
    }
}

/// The file that a node names. Without an argument there is none.
pub open spec fn include_of(node: KdlNode) -> Option<IncludeView> {
    if node.arguments@.len() == 0 {
        None
    } else {
        Some(
            IncludeView {
                path: text_of(node.arguments@[0]),
                optional: properties_reading(node.properties@).optional,
                spot: node.spot,
            },
        )
    }
}

/// The file with one more fault.
pub open spec fn with_fault(frame: PartView, kind: FaultKind, spot: Spot) -> PartView {
    PartView { faults: frame.faults.push(Fault { kind, spot }), ..frame }
}

/// What is waited for.
pub enum Wait {
    Nothing,
    /// Another file.
    Include(IncludeView),
    /// What a section comes to.
    Section(RawSection),
}

/// What one step does: what is known after it, and what is then waited for.
#[verifier::ext_equal]
pub struct Step {
    pub loader: LoaderView,
    pub waits_for: Wait,
}

/// What the end of a file does. The faults of a file that is named by another are a fault of the
/// other.
pub open spec fn close_step(loader: LoaderView) -> Step {
    let top = loader.frames.last();
    let below = loader.frames.drop_last();
    let after = if below.len() == 0 {
        LoaderView { frames: below, closed: Some(top.faults), ..loader }
    } else if top.faults.len() == 0 {
        LoaderView { frames: below, ..loader }
    } else {
        LoaderView {
            frames: below.drop_last().push(
                with_fault(below.last(), FaultKind::FaultyFile, top.spot),
            ),
            errors: loader.errors.push(
                FileFaultsView { path: top.path, syntax: false, faults: top.faults },
            ),
            ..loader
        }
    };
    Step { loader: after, waits_for: Wait::Nothing }
}

/// What a node does in a file that is nested so deep, and the configuration after it.
#[verifier::ext_equal]
pub struct NodeStep {
    pub frame: PartView,
    pub config: ConfigView,
    pub waits_for: Wait,
}

/// What a node does.
pub open spec fn node_step(frame: PartView, config: ConfigView, node: KdlNode, recursion: u8) -> NodeStep {
    let name = node.name@;
    if !is_multipart(name) && frame.seen.contains(name) {
        NodeStep {
            frame: with_fault(frame, FaultKind::DuplicateNode, node.name_spot),
            config,
            waits_for: Wait::Nothing,
        }
    } else {
        let noted = if is_multipart(name) {
            frame
        } else {
            PartView { seen: frame.seen.push(name), ..frame }
        };
        match section_of(name) {
            None => NodeStep {
                frame: with_fault(noted, FaultKind::UnexpectedNode, node.spot),
                config,
                waits_for: Wait::Nothing,
            },
            Some(Section::Include) => NodeStep {
                frame: PartView {
                    faults: noted.faults + include_faults(node),
                    stopped: include_of(node) is None,
                    ..noted
                },
                config,
                waits_for: match include_of(node) {
                    Some(file) => Wait::Include(file),
                    None => Wait::Nothing,
                },
            },
            Some(section) => if !is_decoded_here(section) {
                NodeStep {
                    frame: noted,
                    config,
                    waits_for: Wait::Section(RawSection { section, recursion, node }),
                }
            } else {
                let effect = section_effect(config, section, node, noted.names);
                NodeStep {
                    frame: PartView {
                        faults: noted.faults + effect.faults,
                        stopped: effect.config is None,
                        names: effect.names,
                        ..noted
                    },
                    config: match effect.config {
                        Some(config) => config,
                        None => config,
                    },
                    waits_for: Wait::Nothing,
                }
            },
        }
    }
}

/// What one step does: the next node of the file that is being decoded, or the end of that file.
pub open spec fn step(loader: LoaderView) -> Step {
    let top = loader.frames.last();
    let below = loader.frames.drop_last();
    if loader.frames.len() == 0 {
        Step { loader, waits_for: Wait::Nothing }
    } else if top.stopped || top.pending.len() == 0 {
        close_step(loader)
    } else {
        let rest = PartView { pending: top.pending.drop_last(), ..top };
        let after = node_step(rest, loader.config, top.pending.last(), below.len() as u8);
        Step {
            loader: LoaderView { frames: below.push(after.frame), config: after.config, ..loader },
            waits_for: after.waits_for,
        }
    }
}

/// Where another file is.
#[derive(Debug)]
pub enum ResolvedPath {
    /// The path begins at the home directory, which is not known.
    NoHome,
    /// A path, and whether it ends in the name of a file.
    At { path: String, has_file_name: bool },
}

/// What became of reading another file.
#[derive(Debug)]
pub enum FileOutcome {
    NotFound,
    Unreadable,
    /// The text that stands in it.
    Text(String),
}

/// Whether a file is being decoded, however its path is written.
pub open spec fn is_open(frames: Seq<PartView>, path: Seq<char>) -> bool {
    exists|i: int|
        0 <= i < frames.len() && path_parts((#[trigger] frames[i]).path) == path_parts(path)
}

/// What is wrong with naming a file at a place.
pub open spec fn entry_fault(frames: Seq<PartView>, at: ResolvedPath) -> Option<FaultKind> {
    match at {
        ResolvedPath::NoHome => Some(FaultKind::NoHomeDirectory),
        ResolvedPath::At { path, has_file_name } => if frames.len() == RECURSION_LIMIT {
            Some(FaultKind::RecursionLimit)
        } else if !has_file_name {
            Some(FaultKind::InvalidFileName)
        } else if is_open(frames, path@) {
            Some(FaultKind::RecursiveFile)
        } else {
            None
        },
    }
}

/// The files with one more fault in the last of them.
pub open spec fn fault_in_last(frames: Seq<PartView>, kind: FaultKind, spot: Spot) -> Seq<PartView> {
    frames.drop_last().push(with_fault(frames.last(), kind, spot))
}

/// A file that is about to be decoded.
pub open spec fn new_frame(path: Seq<char>, pending: Seq<KdlNode>, spot: Spot) -> PartView {
    PartView {
        path,
        pending,
        seen: Seq::empty(),
        names: Seq::empty(),
        faults: Seq::empty(),
        stopped: false,
        spot,
    }
}

/// What is known after another file was taken apart into nodes, the first one last.
pub open spec fn after_parsing(
    loader: LoaderView,
    node: IncludeView,
    path: Seq<char>,
    nodes: Option<Seq<KdlNode>>,
) -> LoaderView {
    match nodes {
        Some(nodes) => LoaderView {
            frames: loader.frames.push(new_frame(path, nodes, node.spot)),
            ..loader
        },
        None => LoaderView {
            frames: fault_in_last(loader.frames, FaultKind::FaultyFile, node.spot),
            errors: loader.errors.push(
                FileFaultsView { path, syntax: true, faults: Seq::empty() },
            ),
            ..loader
        },
    }
}

/// What is known after another file could not be read. One that is missing may be optional.
pub open spec fn after_failed_reading(loader: LoaderView, node: IncludeView, found: bool) -> LoaderView {
    if !found && node.optional {
        loader
    } else {
        LoaderView {
            frames: fault_in_last(loader.frames, FaultKind::UnreadableFile, node.spot),
            ..loader
        }
    }
}

/// Whether some nodes, the first one last, are those of a text. If there are none, it cannot be taken
/// apart.
pub open spec fn are_nodes_of(nodes: Option<Seq<KdlNode>>, text: Seq<char>) -> bool {
    match (nodes, kdl_nodes(text)) {
        (Some(nodes), Some(wanted)) => node_views(nodes.reverse()) == wanted,
        (None, None) => true,
        _ => false,
    }
}

/// The files with more faults in the last of them, whose decoding may have been given up.
pub open spec fn faults_in_last(frames: Seq<PartView>, faults: Seq<Fault>, stopped: bool) -> Seq<
    PartView,
> {
    let top = frames.last();
    frames.drop_last().push(PartView { faults: top.faults + faults, stopped, ..top })
}

/// What a section of binds does.
pub open spec fn after_binds(loader: LoaderView, part: Seq<Bind>) -> LoaderView {
    LoaderView {
        config: ConfigView { binds: merged_binds(loader.config.binds, part), ..loader.config },
        ..loader
    }
}

/// What an input section does.
pub open spec fn after_input(loader: LoaderView, part: InputPart) -> LoaderView {
    LoaderView {
        config: ConfigView {
            input: loader.config.input.merged(part),
            xkb: match part.xkb {
                Some(xkb) => xkb@,
                None => loader.config.xkb,
            },
            ..loader.config
        },
        ..loader
    }
}

/// What an output section does.
pub open spec fn after_output(loader: LoaderView, part: OutputConfigView) -> LoaderView {
    LoaderView {
        config: ConfigView { outputs: loader.config.outputs.push(part), ..loader.config },
        ..loader
    }
}

/// What a rule for windows does.
pub open spec fn after_window_rule(loader: LoaderView, part: WindowRuleView) -> LoaderView {
    LoaderView {
        config: ConfigView { window_rules: loader.config.window_rules.push(part), ..loader.config },
        ..loader
    }
}

/// What a rule for layer surfaces does.
pub open spec fn after_layer_rule(loader: LoaderView, part: LayerRuleView) -> LoaderView {
    LoaderView {
        config: ConfigView { layer_rules: loader.config.layer_rules.push(part), ..loader.config },
        ..loader
    }
}

/// What a section does that is kept as it was read.
pub open spec fn after_section(loader: LoaderView, section: RawSection) -> LoaderView {
    LoaderView {
        config: ConfigView { sections: loader.config.sections.push(section), ..loader.config },
        ..loader
    }
}

/// What a layout section does. `values` are what was read elsewhere of it.
pub open spec fn after_layout(loader: LoaderView, section: RawSection, values: LayoutValues) -> LoaderView {
    let fields = section_fields(section.node, layout_rules());
    LoaderView {
        config: if fields.stopped {
            loader.config
        } else {
            ConfigView {
                layout: merged_layout(
                    loader.config.layout,
                    settled_part(
                        layout_part_of(section.node, fields, values),
                        section.recursion,
                    ),
                ),
                ..loader.config
            }
        },
        frames: faults_in_last(loader.frames, fields.faults, fields.stopped),
        ..loader
    }
}

/// What an overview section does. `values` are what was read elsewhere of it.
pub open spec fn after_overview(loader: LoaderView, node: KdlNode, values: OverviewValues) -> LoaderView {
    let fields = section_fields(node, overview_rules());
    LoaderView {
        config: if fields.stopped {
            loader.config
        } else {
            ConfigView {
                overview: merged_overview(
                    loader.config.overview,
                    overview_part_of(node, fields, values),
                ),
                ..loader.config
            }
        },
        frames: faults_in_last(loader.frames, fields.faults, fields.stopped),
        ..loader
    }
}

/// Whether a fault will come out in the end: some file that is being decoded has one, or the main one
/// had.
pub open spec fn has_fault(loader: LoaderView) -> bool {
    ||| exists|i: int| 0 <= i < loader.frames.len() && (#[trigger] loader.frames[i]).faults.len() > 0
    ||| loader.closed matches Some(faults) && faults.len() > 0
}

/// What always holds: no file is nested in itself or too deep, the main file is decoded last, and a
/// fault of any file comes out in the end.
pub open spec fn sound(loader: LoaderView) -> bool {
    &&& loader.frames.len() <= RECURSION_LIMIT
    &&& (loader.closed is Some) == (loader.frames.len() == 0)
    &&& forall|i: int, j: int|
        0 <= i < j < loader.frames.len() ==> path_parts((#[trigger] loader.frames[i]).path)
            != path_parts((#[trigger] loader.frames[j]).path)
    &&& loader.errors.len() > 0 ==> has_fault(loader)
}

/// What is wrong with the configuration.
#[derive(Debug)]
pub struct ConfigIncludeError {
    /// The faults of the main file.
    pub main: Vec<Fault>,
    /// The faults of other files.
    pub includes: Vec<FileFaults>,
}

/// The configuration or what is wrong with it, and the other files that were named.
#[derive(Debug)]
pub struct ConfigParseResult {
    pub config: Result<Config, ConfigIncludeError>,
    pub includes: Vec<String>,
}

/// Looks for a text.
fn has_text(list: &Vec<String>, text: &String) -> (r: bool)
    ensures
        r == texts(list@).contains(text@),
{
    let mut i: usize = 0;
    while i < list.len()
        invariant
            i <= list@.len(),
            forall|k: int| 0 <= k < i ==> #[trigger] texts(list@)[k] != text@,
        decreases list@.len() - i,
    {
        assert(texts(list@)[i as int] == list@[i as int]@);
        if list[i] == *text {
            return true;
        }
        i = i + 1;
    }
    false
}

/// The nodes in the abstract.
pub open spec fn opt_nodes(nodes: Option<Vec<KdlNode>>) -> Option<Seq<KdlNode>> {
    match nodes {
        Some(nodes) => Some(nodes@),
        None => None,
    }
}

/// Takes a text apart into nodes, the first one last.
fn take_apart(file_name: &str, text: &str) -> (r: Option<Vec<KdlNode>>)
    ensures
        are_nodes_of(opt_nodes(r), text@),
        text@.len() == 0 ==> (r matches Some(nodes) && nodes@.len() == 0),
{
    let Some(nodes) = parse_kdl(file_name, text) else {
        return None;
    };
    let mut nodes = nodes;
    let ghost all = nodes@;
    let mut turned: Vec<KdlNode> = Vec::new();
    while nodes.len() > 0
        invariant
            nodes@ + turned@.reverse() =~= all,
        decreases nodes@.len(),
    {
        let ghost before = nodes@;
        if let Some(node) = nodes.pop() {
            assert(before =~= nodes@.push(node));
            turned.push(node);
        }
    }
    assert(turned@.reverse() =~= all);
    Some(turned)
}

/// Reads the properties of a node that names another file.
fn read_properties(properties: &Vec<KdlProperty>, faults: &mut Vec<Fault>) -> (r: bool)
    ensures
        r == properties_reading(properties@).optional,
        final(faults)@ == old(faults)@ + properties_reading(properties@).faults,
{
    let ghost before = faults@;
    let mut optional = false;
    let mut i: usize = 0;
    assert(properties@.take(0) =~= Seq::<KdlProperty>::empty());
    while i < properties.len()
        invariant
            i <= properties@.len(),
            optional == properties_reading(properties@.take(i as int)).optional,
            faults@ == before + properties_reading(properties@.take(i as int)).faults,
        decreases properties@.len() - i,
    {
        let property = &properties[i];
        assert(properties@.take(i + 1).drop_last() =~= properties@.take(i as int));
        if is_called(&property.name, "optional") {
            optional = read_bool(&property.value, faults);
        } else {
            faults.push(Fault { kind: FaultKind::UnexpectedProperty, spot: property.spot });
        }
        assert(faults@ =~= before + properties_reading(properties@.take(i + 1)).faults);
        i = i + 1;
    }
    assert(properties@.take(i as int) =~= properties@);
    optional
}

/// Reads a node that names another file.
fn read_include(node: &KdlNode, faults: &mut Vec<Fault>) -> (r: Option<IncludeNode>)
    ensures
        match (r, include_of(*node)) {
            (Some(file), Some(wanted)) => file@ == wanted,
            (None, None) => true,
            _ => false,
        },
        final(faults)@ == old(faults)@ + include_faults(*node),
{
    if node.arguments.len() == 0 {
        faults.push(Fault { kind: FaultKind::MissingArgument, spot: node.spot });
        assert(faults@ =~= old(faults)@ + include_faults(*node));
        return None;
    }
    let path = read_text(&node.arguments[0], faults);
    if node.arguments.len() > 1 {
        faults.push(Fault { kind: FaultKind::UnexpectedArgument, spot: node.arguments[1].spot });
    }
    let optional = read_properties(&node.properties, faults);
    check_children(node, faults);
    assert(faults@ =~= old(faults)@ + include_faults(*node));
    Some(IncludeNode { path, optional, spot: node.spot })
}

impl ConfigPart {
    /// Decodes a node. Returns what is then waited for.
    fn decode_node(&mut self, config: &mut Config, node: KdlNode, recursion: u8) -> (r: Advance)
        requires
            !old(self).stopped,
        ensures
            ({
                let after = node_step(old(self)@, old(config)@, node, recursion);
                &&& final(self)@ == after.frame
                &&& final(config)@ == after.config
                &&& after.waits_for == r.waiting()
                &&& !(r is Finished)
            }),
    {
        let section = find_section(&node.name);
        if !can_repeat(section) {
            if has_text(&self.seen, &node.name) {
                self.faults.push(Fault { kind: FaultKind::DuplicateNode, spot: node.name_spot });
                return Advance::Progress;
            }
            self.seen.push(node.name.clone());
            assert(texts(self.seen@) =~= texts(old(self).seen@).push(node.name@));
        }
        match section {
            None => {
                self.faults.push(Fault { kind: FaultKind::UnexpectedNode, spot: node.spot });
                Advance::Progress
            },
            Some(Section::Include) => match read_include(&node, &mut self.faults) {
                Some(file) => Advance::Include(file),
                None => {
                    self.stopped = true;
                    Advance::Progress
                },
            },
            Some(section) => {
                if !section.decoded_here() {
                    return Advance::Section(RawSection { section, recursion, node });
                }
                let (stopped, mut faults) = config.apply_section(section, node, &mut self.names);
                self.faults.append(&mut faults);
                self.stopped = stopped;
                Advance::Progress
            },
        }
    }
}

/// What a step of decoding comes to.
#[derive(Debug)]
pub enum Advance {
    /// There may be more to do.
    Progress,
    /// Another file has to be found and read first.
    Include(IncludeNode),
    /// A section has to be decoded by the caller first, who then hands in what it comes to.
    Section(RawSection),
    /// All is decoded.
    Finished,
}

impl Advance {
    /// What is waited for.
    pub open spec fn waiting(self) -> Wait {
        match self {
            Advance::Include(file) => Wait::Include(file@),
            Advance::Section(section) => Wait::Section(section),
            _ => Wait::Nothing,
        }
    }
}

impl Loader {
    /// Starts with the nodes of the main file, the first one last.
    pub fn new(path: String, nodes: Vec<KdlNode>) -> (r: Loader)
        ensures
            r@.frames == seq![
                new_frame(path@, nodes@, Spot { start: 0, end: 0 }),
            ],
            r@.config == default_config(),
            r@.includes.len() == 0,
            r@.errors.len() == 0,
            r@.closed is None,
            sound(r@),
    {
        let mut frames: Vec<ConfigPart> = Vec::new();
        let frame = ConfigPart {
            path,
            pending: nodes,
            seen: Vec::new(),
            names: Vec::new(),
            faults: Vec::new(),
            stopped: false,
            spot: Spot { start: 0, end: 0 },
        };
        assert(frame@ =~= new_frame(path@, nodes@, Spot { start: 0, end: 0 }));
        frames.push(frame);
        let loader = Loader {
            config: Config::default(),
            frames,
            includes: Vec::new(),
            errors: Vec::new(),
            closed: None,
        };
        assert(loader@.frames =~= seq![frame@]);
        loader
    }

    /// Starts with the text of the main file, if it can be taken apart into nodes.
    pub fn parse(path: String, text: &str) -> (r: Option<Loader>)
        ensures
            (r is Some) == (kdl_nodes(text@) is Some),
            r matches Some(loader) ==> {
                &&& loader@.frames.len() == 1
                &&& are_nodes_of(Some(loader@.frames[0].pending), text@)
                &&& loader@.frames[0] == new_frame(
                    path@,
                    loader@.frames[0].pending,
                    Spot { start: 0, end: 0 },
                )
                &&& loader@.config == default_config()
                &&& loader@.includes.len() == 0
                &&& loader@.errors.len() == 0
                &&& loader@.closed is None
                &&& sound(loader@)
            },
            text@.len() == 0 ==> (r matches Some(loader) && loader@.frames[0].pending.len() == 0),
    {
        match take_apart(path.as_str(), text) {
            Some(nodes) => Some(Loader::new(path, nodes)),
            None => None,
        }
    }

    /// Decodes the next node, or ends the file that is being decoded.
    pub fn decode_children(&mut self) -> (r: Advance)
        requires
            sound(old(self)@),
        ensures
            ({
                let next = step(old(self)@);
                &&& final(self)@ == next.loader
                &&& next.waits_for == r.waiting()
                &&& (r is Finished) == (old(self)@.frames.len() == 0)
            }),
            r is Include || r is Section ==> final(self)@.frames.len() > 0,
            sound(final(self)@),
    {
        let ghost before = self@;
        proof {
            law_steps_are_sound(before);
        }
        let Some(top) = self.frames.pop() else {
            return Advance::Finished;
        };
        let mut top = top;
        let ghost below = frame_views(self.frames@);
        assert(below =~= before.frames.drop_last());
        assert(top@ == before.frames.last());
        if !top.stopped {
            if let Some(node) = top.pending.pop() {
                let recursion: u8 = self.frames.len() as u8;
                let advance = top.decode_node(&mut self.config, node, recursion);
                let ghost after = top@;
                self.frames.push(top);
                assert(frame_views(self.frames@) =~= below.push(after));
                return advance;
            }
        }
        match self.frames.pop() {
            None => {
                self.closed = Some(top.faults);
                assert(self@.frames =~= step(before).loader.frames);
            },
            Some(parent) => {
                let mut parent = parent;
                let ghost rest = frame_views(self.frames@);
                assert(rest =~= below.drop_last());
                assert(parent@ == below.last());
                if top.faults.len() > 0 {
                    parent.faults.push(Fault { kind: FaultKind::FaultyFile, spot: top.spot });
                    let ghost errors = self@.errors;
                    let error = FileFaults { path: top.path, syntax: false, faults: top.faults };
                    self.errors.push(error);
                    assert(self@.errors =~= errors.push(error@));
                }
                let ghost after = parent@;
                self.frames.push(parent);
                assert(frame_views(self.frames@) =~= rest.push(after));
                assert(below =~= below.drop_last().push(below.last()));
            },
        }
        Advance::Progress
    }

    /// Adds a fault to the file that is being decoded.
    fn add_fault(&mut self, kind: FaultKind, spot: Spot)
        requires
            old(self).frames@.len() > 0,
        ensures
            final(self)@ == (LoaderView {
                frames: fault_in_last(old(self)@.frames, kind, spot),
                ..old(self)@
            }),
            final(self).frames@.len() == old(self).frames@.len(),
    {
        let ghost before = self@;
        if let Some(top) = self.frames.pop() {
            let mut top = top;
            let ghost below = frame_views(self.frames@);
            assert(below =~= before.frames.drop_last());
            top.faults.push(Fault { kind, spot });
            let ghost after = top@;
            self.frames.push(top);
            assert(frame_views(self.frames@) =~= below.push(after));
        }
    }

    /// Decides whether another file is to be read, after it was found out where it is. Returns its
    /// path if so.
    ///
    /// The file is remembered even if it turns out not to be readable, so that it is watched.
    pub fn enter(&mut self, node: &IncludeNode, at: ResolvedPath) -> (r: Option<String>)
        requires
            sound(old(self)@),
            old(self).frames@.len() > 0,
        ensures
            ({
                let before = old(self)@;
                match entry_fault(before.frames, at) {
                    Some(kind) => {
                        &&& r is None
                        &&& final(self)@ == (LoaderView {
                            frames: fault_in_last(before.frames, kind, node.spot),
                            ..before
                        })
                    },
                    None => {
                        let path = at->path@;
                        &&& r matches Some(found) && found@ == path
                        &&& final(self)@ == (LoaderView {
                            includes: before.includes.push(path),
                            ..before
                        })
                    },
                }
            }),
            sound(final(self)@),
    {
        let ghost before = self@;
        match at {
            ResolvedPath::NoHome => {
                proof {
                    lemma_fault_is_sound(before, FaultKind::NoHomeDirectory, node.spot);
                }
                self.add_fault(FaultKind::NoHomeDirectory, node.spot);
                None
            },
            ResolvedPath::At { path, has_file_name } => {
                if self.frames.len() == RECURSION_LIMIT as usize {
                    proof {
                        lemma_fault_is_sound(before, FaultKind::RecursionLimit, node.spot);
                    }
                    self.add_fault(FaultKind::RecursionLimit, node.spot);
                    return None;
                }
                if !has_file_name {
                    proof {
                        lemma_fault_is_sound(before, FaultKind::InvalidFileName, node.spot);
                    }
                    self.add_fault(FaultKind::InvalidFileName, node.spot);
                    return None;
                }
                if self.is_being_decoded(&path) {
                    proof {
                        lemma_fault_is_sound(before, FaultKind::RecursiveFile, node.spot);
                    }
                    self.add_fault(FaultKind::RecursiveFile, node.spot);
                    return None;
                }
                let kept = path.clone();
                self.includes.push(kept);
                assert(texts(self.includes@) =~= before.includes.push(path@));
                Some(path)
            },
        }
    }

    /// Looks whether a file is being decoded.
    fn is_being_decoded(&self, path: &String) -> (r: bool)
        ensures
            r == is_open(self@.frames, path@),
    {
        let mut i: usize = 0;
        while i < self.frames.len()
            invariant
                i <= self.frames@.len(),
                forall|k: int|
                    0 <= k < i ==> path_parts((#[trigger] self@.frames[k]).path) != path_parts(
                        path@,
                    ),
            decreases self.frames@.len() - i,
        {
            assert(self@.frames[i as int] == self.frames@[i as int]@);
            if same_path(self.frames[i].path.as_str(), path.as_str()) {
                return true;
            }
            i = i + 1;
        }
        false
    }

    /// Takes what became of reading another file.
    pub fn provide(&mut self, node: &IncludeNode, path: String, outcome: FileOutcome)
        requires
            sound(old(self)@),
            0 < old(self).frames@.len() < RECURSION_LIMIT,
            !is_open(old(self)@.frames, path@),
        ensures
            match outcome {
                FileOutcome::NotFound => final(self)@ == after_failed_reading(
                    old(self)@,
                    node@,
                    false,
                ),
                FileOutcome::Unreadable => final(self)@ == after_failed_reading(
                    old(self)@,
                    node@,
                    true,
                ),
                FileOutcome::Text(text) => exists|nodes: Option<Seq<KdlNode>>|
                    {
                        &&& #[trigger] are_nodes_of(nodes, text@)
                        &&& final(self)@ == after_parsing(old(self)@, node@, path@, nodes)
                    },
            },
            sound(final(self)@),
    {
        match outcome {
            FileOutcome::NotFound => {
                if !node.optional {
                    proof {
                        lemma_fault_is_sound(self@, FaultKind::UnreadableFile, node.spot);
                    }
                    self.add_fault(FaultKind::UnreadableFile, node.spot);
                }
            },
            FileOutcome::Unreadable => {
                proof {
                    lemma_fault_is_sound(self@, FaultKind::UnreadableFile, node.spot);
                }
                self.add_fault(FaultKind::UnreadableFile, node.spot);
            },
            FileOutcome::Text(text) => {
                let nodes = take_apart(path.as_str(), text.as_str());
                let ghost taken = opt_nodes(nodes);
                assert(are_nodes_of(taken, text@));
                self.provide_nodes(node, path, nodes);
            },
        }
    }

    /// Takes the nodes of another file, the first one last, or that its text cannot be taken apart.
    pub fn provide_nodes(&mut self, node: &IncludeNode, path: String, nodes: Option<Vec<KdlNode>>)
        requires
            sound(old(self)@),
            0 < old(self).frames@.len() < RECURSION_LIMIT,
            !is_open(old(self)@.frames, path@),
        ensures
            final(self)@ == after_parsing(old(self)@, node@, path@, opt_nodes(nodes)),
            sound(final(self)@),
    {
        let ghost before = self@;
        match nodes {
            Some(nodes) => {
                let frame = ConfigPart {
                    path,
                    pending: nodes,
                    seen: Vec::new(),
                    names: Vec::new(),
                    faults: Vec::new(),
                    stopped: false,
                    spot: node.spot,
                };
                let ghost added = frame@;
                assert(added =~= new_frame(path@, nodes@, node.spot));
                self.frames.push(frame);
                assert(frame_views(self.frames@) =~= before.frames.push(added));
                proof {
                    lemma_new_frame_is_sound(before, added);
                }
            },
            None => {
                let error = FileFaults { path, syntax: true, faults: Vec::new() };
                self.errors.push(error);
                assert(error@ =~= (FileFaultsView { path: path@, syntax: true, faults: Seq::empty() }));
                assert(error_views(self.errors@) =~= before.errors.push(error@));
                self.add_fault(FaultKind::FaultyFile, node.spot);
                proof {
                    lemma_fault_is_sound(before, FaultKind::FaultyFile, node.spot);
                    lemma_fault_shows(before, FaultKind::FaultyFile, node.spot);
                }
            },
        }
    }

    /// Takes the faults of a section that was decoded by the caller, and whether its decoding was given
    /// up. That of the file then is too.
    pub fn provide_faults(&mut self, faults: Vec<Fault>, stopped: bool)
        requires
            sound(old(self)@),
            old(self).frames@.len() > 0,
        ensures
            final(self)@ == (LoaderView {
                frames: faults_in_last(old(self)@.frames, faults@, stopped),
                ..old(self)@
            }),
            sound(final(self)@),
            final(self).frames@.len() == old(self).frames@.len(),
    {
        let ghost before = self@;
        let mut faults = faults;
        proof {
            lemma_faults_are_sound(before, faults@, stopped);
        }
        if let Some(top) = self.frames.pop() {
            let mut top = top;
            let ghost below = frame_views(self.frames@);
            assert(below =~= before.frames.drop_last());
            top.faults.append(&mut faults);
            top.stopped = stopped;
            let ghost after = top@;
            self.frames.push(top);
            assert(frame_views(self.frames@) =~= below.push(after));
        }
    }

    /// Takes what a section of binds comes to. Earlier binds for the same keys give way.
    pub fn provide_binds(&mut self, part: Vec<Bind>)
        ensures
            final(self)@ == after_binds(old(self)@, part@),
            sound(old(self)@) ==> sound(final(self)@),
    {
        self.config.merge_binds(part);
    }

    /// Takes what an input section comes to.
    pub fn provide_input(&mut self, part: InputPart)
        ensures
            final(self)@ == after_input(old(self)@, part),
            sound(old(self)@) ==> sound(final(self)@),
    {
        self.config.input.merge_with(&part);
        if let Some(xkb) = part.xkb {
            self.config.xkb = xkb;
        }
    }

    /// Takes what an output section comes to.
    pub fn provide_output(&mut self, part: OutputConfig)
        ensures
            final(self)@ == after_output(old(self)@, part@),
            sound(old(self)@) ==> sound(final(self)@),
    {
        self.config.outputs.0.push(part);
        assert(self.config.outputs@ =~= old(self)@.config.outputs.push(part@));
    }

    /// Takes a rule for windows.
    pub fn provide_window_rule(&mut self, part: WindowRule)
        ensures
            final(self)@ == after_window_rule(old(self)@, part@),
            sound(old(self)@) ==> sound(final(self)@),
    {
        self.config.window_rules.push(part);
        assert(views(self.config.window_rules@) =~= old(self)@.config.window_rules.push(part@));
    }

    /// Takes a rule for layer surfaces.
    pub fn provide_layer_rule(&mut self, part: LayerRule)
        ensures
            final(self)@ == after_layer_rule(old(self)@, part@),
            sound(old(self)@) ==> sound(final(self)@),
    {
        self.config.layer_rules.push(part);
        assert(views(self.config.layer_rules@) =~= old(self)@.config.layer_rules.push(part@));
    }

    /// Keeps a section as it was read.
    pub fn provide_section(&mut self, section: RawSection)
        ensures
            final(self)@ == after_section(old(self)@, section),
            sound(old(self)@) ==> sound(final(self)@),
    {
        self.config.sections.push(section);
    }

    /// Decodes a layout section. `values` are what was read elsewhere of it.
    pub fn provide_layout(&mut self, section: RawSection, values: LayoutValues)
        requires
            sound(old(self)@),
            old(self).frames@.len() > 0,
        ensures
            final(self)@ == after_layout(old(self)@, section, values),
            sound(final(self)@),
    {
        let recursion: u8 = section.recursion;
        let read = LayoutPart::decode_node(section.node, values);
        let stopped = read.part.is_none();
        if let Some(part) = read.part {
            let mut part = part;
            part.settle_border(recursion);
            self.config.layout.merge_with(part);
        }
        self.provide_faults(read.faults, stopped);
    }

    /// Decodes an overview section. `values` are what was read elsewhere of it.
    pub fn provide_overview(&mut self, section: RawSection, values: OverviewValues)
        requires
            sound(old(self)@),
            old(self).frames@.len() > 0,
        ensures
            final(self)@ == after_overview(old(self)@, section.node, values),
            sound(final(self)@),
    {
        let read = OverviewPart::decode_node(section.node, values);
        let stopped = read.part.is_none();
        if let Some(part) = read.part {
            self.config.overview.merge_with(part);
        }
        self.provide_faults(read.faults, stopped);
    }

    /// The configuration, or what is wrong with it. There is one if no file has a fault.
    pub fn finish(self) -> (r: ConfigParseResult)
        requires
            sound(self@),
            self.closed is Some,
        ensures
            texts(r.includes@) == self@.includes,
            match r.config {
                Ok(config) => config@ == self@.config && !has_fault(self@) && self@.errors.len()
                    == 0,
                Err(error) => {
                    &&& has_fault(self@)
                    &&& self@.closed == Some(error.main@)
                    &&& error.main@.len() > 0
                    &&& error_views(error.includes@) == self@.errors
                },
            },
    {
        let config = match self.closed {
            Some(main) => if main.len() == 0 {
                Ok(self.config)
            } else {
                Err(ConfigIncludeError { main, includes: self.errors })
            },
            None => Ok(self.config),
        };
        ConfigParseResult { config, includes: self.includes }
    }
}

/// A fault in the last file shows.
proof fn lemma_fault_shows(loader: LoaderView, kind: FaultKind, spot: Spot)
    requires
        loader.frames.len() > 0,
    ensures
        has_fault(LoaderView { frames: fault_in_last(loader.frames, kind, spot), ..loader }),
{
    let after = LoaderView { frames: fault_in_last(loader.frames, kind, spot), ..loader };
    assert(after.frames[after.frames.len() - 1].faults.len() > 0);
}

/// A fault in the last file keeps all sound.
proof fn lemma_fault_is_sound(loader: LoaderView, kind: FaultKind, spot: Spot)
    requires
        sound(loader),
        loader.frames.len() > 0,
    ensures
        sound(LoaderView { frames: fault_in_last(loader.frames, kind, spot), ..loader }),
{
    let frames = fault_in_last(loader.frames, kind, spot);
    lemma_fault_shows(loader, kind, spot);
    assert forall|i: int, j: int| 0 <= i < j < frames.len() implies path_parts(
        (#[trigger] frames[i]).path,
    ) != path_parts((#[trigger] frames[j]).path) by {
        assert(frames[i].path == loader.frames[i].path);
        assert(frames[j].path == loader.frames[j].path);
    }
}

/// More faults in the last file keep all sound.
proof fn lemma_faults_are_sound(loader: LoaderView, faults: Seq<Fault>, stopped: bool)
    requires
        sound(loader),
        loader.frames.len() > 0,
    ensures
        sound(LoaderView { frames: faults_in_last(loader.frames, faults, stopped), ..loader }),
{
    let frames = faults_in_last(loader.frames, faults, stopped);
    let after = LoaderView { frames, ..loader };
    assert forall|i: int, j: int| 0 <= i < j < frames.len() implies path_parts(
        (#[trigger] frames[i]).path,
    ) != path_parts((#[trigger] frames[j]).path) by {
        assert(frames[i].path == loader.frames[i].path);
        assert(frames[j].path == loader.frames[j].path);
    }
    if loader.errors.len() > 0 {
        assert(has_fault(loader));
        let i = choose|i: int|
            0 <= i < loader.frames.len() && (#[trigger] loader.frames[i]).faults.len() > 0;
        assert(after.frames[i].faults.len() > 0);
    }
}

/// One more file keeps all sound.
proof fn lemma_new_frame_is_sound(loader: LoaderView, frame: PartView)
    requires
        sound(loader),
        0 < loader.frames.len() < RECURSION_LIMIT,
        !is_open(loader.frames, frame.path),
    ensures
        sound(LoaderView { frames: loader.frames.push(frame), ..loader }),
{
    let frames = loader.frames.push(frame);
    let after = LoaderView { frames, ..loader };
    if loader.errors.len() > 0 {
        assert(has_fault(loader));
        let i = choose|i: int|
            0 <= i < loader.frames.len() && (#[trigger] loader.frames[i]).faults.len() > 0;
        assert(after.frames[i].faults.len() > 0);
    }
    assert forall|i: int, j: int| 0 <= i < j < frames.len() implies path_parts(
        (#[trigger] frames[i]).path,
    ) != path_parts((#[trigger] frames[j]).path) by {
        assert(frames[i] == loader.frames[i]);
        if j < loader.frames.len() {
            assert(frames[j] == loader.frames[j]);
        }
    }
}

/// Whatever is decoded, no file is nested in itself or too deep, and a fault of any file comes out in
/// the end: there is a configuration only if no file has a fault.
pub proof fn law_steps_are_sound(loader: LoaderView)
    requires
        sound(loader),
    ensures
        sound(step(loader).loader),
{
    if loader.frames.len() > 0 {
        let top = loader.frames.last();
        let below = loader.frames.drop_last();
        let next = step(loader).loader;
        assert forall|i: int, j: int|
            0 <= i < j < next.frames.len() implies path_parts((#[trigger] next.frames[i]).path)
            != path_parts((#[trigger] next.frames[j]).path) by {
            assert(next.frames[i].path == loader.frames[i].path);
            assert(next.frames[j].path == loader.frames[j].path);
        }
        if next.errors.len() > 0 {
            if top.stopped || top.pending.len() == 0 {
                if top.faults.len() > 0 {
                    if below.len() > 0 {
                        assert(next.frames[below.len() - 1].faults.len() > 0);
                    }
                } else {
                    assert(has_fault(loader));
                    let i = choose|i: int|
                        0 <= i < loader.frames.len() && (#[trigger] loader.frames[i]).faults.len()
                            > 0;
                    assert(i < below.len());
                    assert(next.frames[i].faults.len() > 0);
                }
            } else {
                assert(has_fault(loader));
                let i = choose|i: int|
                    0 <= i < loader.frames.len() && (#[trigger] loader.frames[i]).faults.len() > 0;
                assert(next.frames[i].faults.len() > 0);
            }
        }
    }
}

/// A main file without any node gives the configuration in which nothing is configured, and names no
/// other file.
pub proof fn law_empty_file(loader: LoaderView)
    requires
        loader.frames.len() == 1,
        loader.frames[0].pending.len() == 0,
        loader.frames[0].faults.len() == 0,
        loader.config == default_config(),
        loader.includes.len() == 0,
    ensures
        ({
            let after = step(loader).loader;
            &&& after.closed == Some(Seq::<Fault>::empty())
            &&& after.frames.len() == 0
            &&& after.config == default_config()
            &&& after.includes.len() == 0
            &&& !has_fault(after)
            &&& step(loader).waits_for is Nothing
        }),
{
    assert(loader.frames[0].faults =~= Seq::<Fault>::empty());
}

/// The rule for a name is found if there is one.
proof fn lemma_rule_for(rules: Seq<FieldRuleView>, name: Seq<char>, at: int)
    requires
        0 <= at < rules.len(),
        rules[at].name == name,
    ensures
        rule_for(rules, name) matches Some(i) && 0 <= i < rules.len() && rules[i].name == name,
    decreases rules.len(),
{
    let shorter = rules.drop_last();
    if at < shorter.len() {
        lemma_rule_for(shorter, name, at);
    } else if rule_for(shorter, name) is Some {
        lemma_found_rule(shorter, name);
    }
}

/// A rule that is found has the name.
proof fn lemma_found_rule(rules: Seq<FieldRuleView>, name: Seq<char>)
    ensures
        rule_for(rules, name) matches Some(i) ==> 0 <= i < rules.len() && rules[i].name == name,
    decreases rules.len(),
{
    if rules.len() > 0 {
        lemma_found_rule(rules.drop_last(), name);
    }
}

/// An empty section on borders in the main file turns on the border, though it is off if nothing is
/// configured, and is no fault.
pub proof fn law_empty_border_in_main_file(
    loader: LoaderView,
    node: KdlNode,
    border: KdlNode,
    values: LayoutValues,
)
    requires
        loader.frames.len() == 1,
        node.name@ == "layout"@,
        node.annotation is None,
        node.arguments@.len() == 0,
        node.properties@.len() == 0,
        node.children@ == seq![border],
        border.name@ == "border"@,
        border.children@.len() == 0,
    ensures
        default_config().layout.border.off,
        ({
            let section = RawSection { section: Section::Layout, recursion: 0, node };
            let after = after_layout(loader, section, values);
            &&& !after.config.layout.border.off
            &&& after.frames[0].faults == loader.frames[0].faults
            &&& !after.frames[0].stopped
        }),
{
    let rules = layout_rules();
    let start = no_fields(rules, annotation_faults(node.annotation));
    let fields = section_fields(node, rules);
    let children = node.children@;
    assert(children.last() == border);
    assert(children.drop_last() =~= Seq::<KdlNode>::empty());
    reveal_with_fuel(with_fields, 2);
    reveal_with_fuel(first_called, 2);
    assert(first_called(children, "border"@) == Some(border));
    lemma_rule_for(rules, border.name@, 1);
    let i = rule_for(rules, border.name@)->0;
    assert(start.values[i] is None);
    reveal_strlit("border");
    reveal_strlit("center-focused-column");
    reveal_strlit("always-center-single-column");
    reveal_strlit("empty-workspace-above-first");
    assert(rules[8].name.len() == 21 && rules[9].name.len() == 27 && rules[10].name.len() == 27);
    assert(i != 8 && i != 9 && i != 10);
    assert(rules[i].kind is Elsewhere);
    assert(fields == with_field(start, rules, border));
    assert(!fields.stopped);
    assert(loader.frames[0].faults + fields.faults =~= loader.frames[0].faults);
}

/// Outputs and rules are kept in the order in which they were read, each section changes just what it is for,
/// and no section that was decoded elsewhere changes what is known of the files.
pub proof fn law_parts_go_where_they_belong(
    loader: LoaderView,
    output: OutputConfigView,
    window_rule: WindowRuleView,
    layer_rule: LayerRuleView,
    section: RawSection,
    binds: Seq<Bind>,
    input: InputPart,
)
    ensures
        ({
            let after = after_output(loader, output);
            let n = loader.config.outputs.len() as int;
            &&& after.config.outputs.len() == n + 1 && after.config.outputs[n] == output
            &&& forall|i: int|
                0 <= i < n ==> #[trigger] after.config.outputs[i] == loader.config.outputs[i]
            &&& after == (LoaderView {
                config: ConfigView { outputs: after.config.outputs, ..loader.config },
                ..loader
            })
        }),
        ({
            let after = after_window_rule(loader, window_rule);
            let n = loader.config.window_rules.len() as int;
            &&& after.config.window_rules.len() == n + 1 && after.config.window_rules[n]
                == window_rule
            &&& forall|i: int|
                0 <= i < n ==> #[trigger] after.config.window_rules[i]
                    == loader.config.window_rules[i]
            &&& after == (LoaderView {
                config: ConfigView { window_rules: after.config.window_rules, ..loader.config },
                ..loader
            })
        }),
        ({
            let after = after_layer_rule(loader, layer_rule);
            let n = loader.config.layer_rules.len() as int;
            &&& after.config.layer_rules.len() == n + 1 && after.config.layer_rules[n] == layer_rule
            &&& forall|i: int|
                0 <= i < n ==> #[trigger] after.config.layer_rules[i] == loader.config.layer_rules[i]
            &&& after == (LoaderView {
                config: ConfigView { layer_rules: after.config.layer_rules, ..loader.config },
                ..loader
            })
        }),
        ({
            let after = after_section(loader, section);
            let n = loader.config.sections.len() as int;
            &&& after.config.sections.len() == n + 1 && after.config.sections[n] == section
            &&& forall|i: int|
                0 <= i < n ==> #[trigger] after.config.sections[i] == loader.config.sections[i]
            &&& after == (LoaderView {
                config: ConfigView { sections: after.config.sections, ..loader.config },
                ..loader
            })
        }),
        ({
            let after = after_binds(loader, binds);
            &&& after == (LoaderView {
                config: ConfigView { binds: after.config.binds, ..loader.config },
                ..loader
            })
            &&& binds.len() <= after.config.binds.len()
            &&& forall|i: int|
                0 <= i < binds.len() ==> #[trigger] after.config.binds[after.config.binds.len()
                    - binds.len() + i] == binds[i]
        }),
        ({
            let after = after_input(loader, input);
            &&& after == (LoaderView {
                config: ConfigView {
                    input: after.config.input,
                    xkb: after.config.xkb,
                    ..loader.config
                },
                ..loader
            })
            &&& input.xkb is None ==> after.config.xkb == loader.config.xkb
            &&& input.xkb matches Some(xkb) ==> after.config.xkb == xkb@
        }),
{
}

/// Another file is read unless ten are open already, its path ends in no name, or it is open itself, however
/// its path is written.
pub proof fn law_which_files_are_read(frames: Seq<PartView>, path: String, has_file_name: bool)
    ensures
        ({
            let fault = entry_fault(frames, ResolvedPath::At { path, has_file_name });
            let open = exists|i: int|
                0 <= i < frames.len() && path_parts((#[trigger] frames[i]).path) == path_parts(path@);
            &&& fault is None <==> frames.len() != 10 && has_file_name && !open
            &&& fault is Some && frames.len() == 10 ==> fault == Some(FaultKind::RecursionLimit)
            &&& fault is Some && frames.len() != 10 && has_file_name ==> fault == Some(
                FaultKind::RecursiveFile,
            )
        }),
        entry_fault(frames, ResolvedPath::NoHome) == Some(FaultKind::NoHomeDirectory),
{
}

/// A file that is missing is no fault if it is optional. One that is there and cannot be read is a fault in
/// any case, in the file that names it.
pub proof fn law_unreadable_files(loader: LoaderView, node: IncludeView, found: bool)
    requires
        loader.frames.len() > 0,
    ensures
        ({
            let after = after_failed_reading(loader, node, found);
            let top = loader.frames.last();
            &&& after.config == loader.config && after.includes == loader.includes && after.errors
                == loader.errors
            &&& !found && node.optional ==> after == loader
            &&& found || !node.optional ==> after.frames.len() == loader.frames.len()
                && after.frames.last().faults == top.faults.push(
                Fault { kind: FaultKind::UnreadableFile, spot: node.spot },
            )
        }),
{
}

/// The faults of another file are a fault of the one that names it, where it is named, and are kept under its
/// own path. A file without faults leaves none.
pub proof fn law_faults_come_out(loader: LoaderView)
    requires
        loader.frames.len() > 1,
    ensures
        ({
            let after = close_step(loader).loader;
            let top = loader.frames.last();
            let below = loader.frames[loader.frames.len() - 2];
            &&& after.frames.len() == loader.frames.len() - 1
            &&& after.config == loader.config && after.includes == loader.includes
            &&& top.faults.len() == 0 ==> after.errors == loader.errors && after.frames.last() == below
            &&& top.faults.len() > 0 ==> after.errors == loader.errors.push(
                FileFaultsView { path: top.path, syntax: false, faults: top.faults },
            ) && after.frames.last().faults == below.faults.push(
                Fault { kind: FaultKind::FaultyFile, spot: top.spot },
            )
        }),
{
}

/// A node that can stand in a file once and stands there a second time is a fault and does nothing else. One
/// that is no section is a fault too.
pub proof fn law_stray_nodes(frame: PartView, config: ConfigView, node: KdlNode, recursion: u8)
    ensures
        ({
            let after = node_step(frame, config, node, recursion);
            let again = !is_multipart(node.name@) && frame.seen.contains(node.name@);
            &&& again ==> after.config == config && after.waits_for is Nothing && after.frame.faults
                == frame.faults.push(
                Fault { kind: FaultKind::DuplicateNode, spot: node.name_spot },
            )
            &&& !again && section_of(node.name@) is None ==> after.config == config
                && after.waits_for is Nothing && after.frame.faults == frame.faults.push(
                Fault { kind: FaultKind::UnexpectedNode, spot: node.spot },
            )
            &&& !again && !is_multipart(node.name@) ==> after.frame.seen.contains(node.name@)
            &&& after.frame.pending == frame.pending && after.frame.path == frame.path
        }),
{
    let after = node_step(frame, config, node, recursion);
    if !is_multipart(node.name@) && !frame.seen.contains(node.name@) {
        assert(after.frame.seen == frame.seen.push(node.name@));
        assert(after.frame.seen[frame.seen.len() as int] == node.name@);
    }
}

} // verus!
