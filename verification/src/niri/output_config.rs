//! The configuration of outputs, and changing it for a time.
use vstd::prelude::*;

use crate::backend::TtyRequest;
use crate::config::misc::Color;
use crate::config::rules::Look;
use crate::config::same::{all_same, views, SameView};
use crate::geometry::{FloatBits, Point};
use crate::niri::outputs::{all_queued, OutputShape};
use crate::niri::placement::{
    ids_unique, is_all_outputs, is_placement_order, moved_outputs, placed, placement_fits,
    states_moved, OutputData, Repositioned,
};
use crate::niri::redraw::{has_state, queued_among, state_index, states_unique, OutputState};
use crate::niri::under::HotCorners;
use crate::niri::{Niri, ScreenshotUi, State};
use crate::utils::transform::{output_transform, IpcTransform, Transform};

verus! {

/// A mode that an output is asked to be in.
#[derive(Clone, Copy, Debug, PartialEq, Eq, Structural)]
pub struct ConfiguredMode {
    pub width: u16,
    pub height: u16,
    pub refresh: Option<FloatBits>,
}

/// A mode in the configuration.
#[derive(Clone, Copy, Debug, PartialEq, Eq, Structural)]
pub struct Mode {
    /// Whether the mode is made up, and not one that the output offers.
    pub custom: bool,
    pub mode: ConfiguredMode,
}

/// A mode in all detail.
#[derive(Clone, Copy, Debug, PartialEq, Eq, Structural)]
pub struct Modeline {
    pub clock: FloatBits,
    pub hdisplay: u16,
    pub hsync_start: u16,
    pub hsync_end: u16,
    pub htotal: u16,
    pub vdisplay: u16,
    pub vsync_start: u16,
    pub vsync_end: u16,
    pub vtotal: u16,
    pub hsync_positive: bool,
    pub vsync_positive: bool,
}

/// The configuration of an output.
#[derive(Debug)]
pub struct OutputConfig {
    pub name: String,
    pub off: bool,
    pub mode: Option<Mode>,
    pub modeline: Option<Modeline>,
    pub scale: Option<FloatBits>,
    pub transform: IpcTransform,
    pub position: Option<Point>,
    pub max_bpc: Option<u8>,
    pub focus_at_startup: bool,
    pub backdrop_color: Option<Color>,
    /// The color behind the windows, which is better set in the layout.
    pub background_color: Option<Color>,
    pub hot_corners: Option<HotCorners>,
    /// The layout of the output.
    pub layout: Option<OutputLayout>,
    /// What else is set.
    pub rest: Look,
}

/// The part of the layout section that counts on one output only.
#[derive(Debug)]
pub struct OutputLayout {
    pub background_color: Option<Color>,
    /// What else is set.
    pub rest: Look,
}

/// The part of the layout section that counts on one output only, in the abstract.
#[verifier::ext_equal]
pub struct OutputLayoutView {
    pub background_color: Option<Color>,
    pub rest: Seq<u64>,
}

impl View for OutputLayout {
    type V = OutputLayoutView;

    open spec fn view(&self) -> OutputLayoutView {
        OutputLayoutView { background_color: self.background_color, rest: self.rest@ }
    }
}

/// The view of a layout that may be missing.
pub open spec fn opt_layout(layout: Option<OutputLayout>) -> Option<OutputLayoutView> {
    match layout {
        Some(layout) => Some(layout@),
        None => None,
    }
}

/// Compares two layouts that may be missing.
fn same_layout(a: &Option<OutputLayout>, b: &Option<OutputLayout>) -> (r: bool)
    ensures
        r == (opt_layout(*a) == opt_layout(*b)),
{
    match (a, b) {
        (Some(a), Some(b)) => a.background_color == b.background_color && a.rest.same(&b.rest),
        (None, None) => true,
        _ => false,
    }
}

/// The same layout once more.
fn copy_layout(layout: &Option<OutputLayout>) -> (r: Option<OutputLayout>)
    ensures
        opt_layout(r) == opt_layout(*layout),
{
    match layout {
        Some(layout) => Some(
            OutputLayout {
                background_color: layout.background_color,
                rest: layout.rest.copied(),
            },
        ),
        None => None,
    }
}

/// The configuration of an output in the abstract.
#[verifier::ext_equal]
pub struct OutputConfigView {
    pub name: Seq<char>,
    pub off: bool,
    pub mode: Option<Mode>,
    pub modeline: Option<Modeline>,
    pub scale: Option<FloatBits>,
    pub transform: IpcTransform,
    pub position: Option<Point>,
    pub max_bpc: Option<u8>,
    pub focus_at_startup: bool,
    pub backdrop_color: Option<Color>,
    pub background_color: Option<Color>,
    pub hot_corners: Option<HotCorners>,
    pub layout: Option<OutputLayoutView>,
    pub rest: Seq<u64>,
}

impl View for OutputConfig {
    type V = OutputConfigView;

    open spec fn view(&self) -> OutputConfigView {
        OutputConfigView {
            name: self.name@,
            off: self.off,
            mode: self.mode,
            modeline: self.modeline,
            scale: self.scale,
            transform: self.transform,
            position: self.position,
            max_bpc: self.max_bpc,
            focus_at_startup: self.focus_at_startup,
            backdrop_color: self.backdrop_color,
            background_color: self.background_color,
            hot_corners: self.hot_corners,
            layout: opt_layout(self.layout),
            rest: self.rest@,
        }
    }
}

impl SameView for OutputConfig {
    fn same(&self, other: &OutputConfig) -> (r: bool) {
        self.name == other.name && self.off == other.off && self.mode == other.mode
            && self.modeline == other.modeline && self.scale == other.scale && self.transform
            == other.transform && self.position == other.position && self.max_bpc == other.max_bpc
            && self.focus_at_startup == other.focus_at_startup && self.backdrop_color
            == other.backdrop_color && self.background_color == other.background_color
            && self.hot_corners == other.hot_corners && same_layout(&self.layout, &other.layout)
            && self.rest.same(&other.rest)
    }
}

/// A change of the configuration of an output that lasts until it is loaded again.
#[derive(Clone, Copy, Debug, PartialEq, Eq, Structural)]
pub enum OutputAction {
    Off,
    On,
    /// A mode that the output offers, or whichever suits.
    Mode(Option<ConfiguredMode>),
    CustomMode(ConfiguredMode),
    Modeline(Modeline),
    /// A scale, or whichever suits.
    Scale(Option<FloatBits>),
    Transform(IpcTransform),
    /// A position, or whichever suits.
    Position(Option<Point>),
    MaxBpc(u8),
}

impl OutputConfigView {
    /// The configuration after a change. A modeline leaves the mode as it is, since the mode is used if
    /// the modeline does not work.
    pub open spec fn acted(self, action: OutputAction) -> OutputConfigView {
        match action {
            OutputAction::Off => OutputConfigView { off: true, ..self },
            OutputAction::On => OutputConfigView { off: false, ..self },
            OutputAction::Mode(None) => OutputConfigView { mode: None, modeline: None, ..self },
            OutputAction::Mode(Some(mode)) => OutputConfigView {
                mode: Some(Mode { custom: false, mode }),
                modeline: None,
                ..self
            },
            OutputAction::CustomMode(mode) => OutputConfigView {
                mode: Some(Mode { custom: true, mode }),
                modeline: None,
                ..self
            },
            OutputAction::Modeline(modeline) => OutputConfigView { modeline: Some(modeline), ..self },
            OutputAction::Scale(scale) => OutputConfigView { scale, ..self },
            OutputAction::Transform(transform) => OutputConfigView { transform, ..self },
            OutputAction::Position(position) => OutputConfigView { position, ..self },
            OutputAction::MaxBpc(max_bpc) => OutputConfigView { max_bpc: Some(max_bpc), ..self },
        }
    }

    /// An output of which nothing is configured.
    pub open spec fn unset(name: Seq<char>) -> OutputConfigView {
        OutputConfigView {
            name,
            off: false,
            mode: None,
            modeline: None,
            scale: None,
            transform: IpcTransform::Normal,
            position: None,
            max_bpc: None,
            focus_at_startup: false,
            backdrop_color: None,
            background_color: None,
            hot_corners: None,
            layout: None,
            rest: Seq::empty(),
        }
    }
}

impl OutputConfig {
    /// Changes the configuration.
    fn act(&mut self, action: OutputAction)
        ensures
            final(self)@ == old(self)@.acted(action),
    {
        match action {
            OutputAction::Off => {
                self.off = true;
            },
            OutputAction::On => {
                self.off = false;
            },
            OutputAction::Mode(mode) => {
                self.mode = match mode {
                    None => None,
                    Some(mode) => Some(Mode { custom: false, mode }),
                };
                self.modeline = None;
            },
            OutputAction::CustomMode(mode) => {
                self.mode = Some(Mode { custom: true, mode });
                self.modeline = None;
            },
            OutputAction::Modeline(modeline) => {
                self.modeline = Some(modeline);
            },
            OutputAction::Scale(scale) => {
                self.scale = scale;
            },
            OutputAction::Transform(transform) => {
                self.transform = transform;
            },
            OutputAction::Position(position) => {
                self.position = position;
            },
            OutputAction::MaxBpc(max_bpc) => {
                self.max_bpc = Some(max_bpc);
            },
        }
    }

    /// An output of which nothing is configured.
    pub fn new(name: String) -> (r: OutputConfig)
        ensures
            r@ == OutputConfigView::unset(name@),
    {
        OutputConfig {
            name,
            off: false,
            mode: None,
            modeline: None,
            scale: None,
            transform: IpcTransform::Normal,
            position: None,
            max_bpc: None,
            focus_at_startup: false,
            backdrop_color: None,
            background_color: None,
            hot_corners: None,
            layout: None,
            rest: Look(Vec::new()),
        }
    }

    /// The same configuration once more.
    pub fn copied(&self) -> (r: OutputConfig)
        ensures
            r@ == self@,
    {
        OutputConfig {
            name: self.name.clone(),
            off: self.off,
            mode: self.mode,
            modeline: self.modeline,
            scale: self.scale,
            transform: self.transform,
            position: self.position,
            max_bpc: self.max_bpc,
            focus_at_startup: self.focus_at_startup,
            backdrop_color: self.backdrop_color,
            background_color: self.background_color,
            hot_corners: self.hot_corners,
            layout: copy_layout(&self.layout),
            rest: self.rest.copied(),
        }
    }

    /// The layout of the output. If it does not say which color is behind the windows, the section of
    /// the output may.
    pub fn layout_config(&self) -> (r: Option<OutputLayout>)
        ensures
            opt_layout(r) == effective_layout(self@),
    {
        match &self.layout {
            Some(layout) => Some(
                OutputLayout {
                    background_color: if layout.background_color.is_none() {
                        self.background_color
                    } else {
                        layout.background_color
                    },
                    rest: layout.rest.copied(),
                },
            ),
            None => None,
        }
    }
}

/// The layout of an output with its color behind the windows: that of the layout, or else that of the
/// section of the output. Without a layout there is none.
pub open spec fn effective_layout(output: OutputConfigView) -> Option<OutputLayoutView> {
    match output.layout {
        Some(layout) => Some(
            OutputLayoutView {
                background_color: if layout.background_color is None {
                    output.background_color
                } else {
                    layout.background_color
                },
                ..layout
            },
        ),
        None => None,
    }
}

/// What is set for an output alone, or else for all outputs.
pub open spec fn own_or_general<T>(own: Option<T>, general: T) -> T {
    match own {
        Some(value) => value,
        None => general,
    }
}

/// The color behind the workspaces of an output: its own, or else that of the overview. `output` is the
/// section of the output, if there is one.
pub fn backdrop_color(output: Option<&OutputConfig>, overview: Color) -> (r: Color)
    ensures
        r == own_or_general(
            match output {
                Some(output) => output.backdrop_color,
                None => None,
            },
            overview,
        ),
{
    match output {
        Some(output) => match output.backdrop_color {
            Some(color) => color,
            None => overview,
        },
        None => overview,
    }
}

/// The hot corners of an output: its own, or else those of the gestures. `output` is the section of the
/// output, if there is one.
pub fn hot_corners(output: Option<&OutputConfig>, gestures: HotCorners) -> (r: HotCorners)
    ensures
        r == own_or_general(
            match output {
                Some(output) => output.hot_corners,
                None => None,
            },
            gestures,
        ),
{
    match output {
        Some(output) => match output.hot_corners {
            Some(corners) => corners,
            None => gestures,
        },
        None => gestures,
    }
}

/// What an output is called.
#[derive(Debug)]
pub struct OutputName {
    pub connector: String,
    pub make: Option<String>,
    pub model: Option<String>,
    pub serial: Option<String>,
}

impl OutputName {
    /// What the section of an output is looked for by, if the user calls the output `name`: all that is
    /// known of a connected output of that name, or else of a disconnected one, or else the name alone.
    /// A section that is already for the output would count before a new one.
    pub fn to_look_for(
        connected: Option<OutputName>,
        disconnected: Option<OutputName>,
        name: &str,
    ) -> (r: OutputName)
        ensures
            match (connected, disconnected) {
                (Some(known), _) => r == known,
                (None, Some(known)) => r == known,
                (None, None) => r.connector@ == name@ && r.make is None && r.model is None
                    && r.serial is None,
            },
    {
        if let Some(known) = connected {
            known
        } else if let Some(known) = disconnected {
            known
        } else {
            OutputName { connector: name.to_owned(), make: None, model: None, serial: None }
        }
    }
}

/// The configuration of all outputs.
#[derive(Debug)]
pub struct Outputs(pub Vec<OutputConfig>);

impl View for Outputs {
    type V = Seq<OutputConfigView>;

    open spec fn view(&self) -> Seq<OutputConfigView> {
        views(self.0@)
    }
}

impl SameView for Outputs {
    fn same(&self, other: &Outputs) -> (r: bool) {
        all_same(&self.0, &other.0)
    }
}

impl Outputs {
    /// The same configuration once more.
    pub fn copied(&self) -> (r: Outputs)
        ensures
            r@ == self@,
    {
        let mut copies: Vec<OutputConfig> = Vec::new();
        let mut i: usize = 0;
        while i < self.0.len()
            invariant
                i <= self.0@.len(),
                views(copies@) == views(self.0@).take(i as int),
            decreases self.0@.len() - i,
        {
            let ghost so_far = copies@;
            let copy = self.0[i].copied();
            copies.push(copy);
            assert(views(copies@) =~= views(so_far).push(copy@));
            assert(views(copies@) =~= views(self.0@).take(i + 1));
            i = i + 1;
        }
        assert(views(copies@) =~= views(self.0@));
        Outputs(copies)
    }

    /// Changes the configuration of an output. `found` is the section that is for the output, if there
    /// is one; otherwise the output gets a new one under the name that was given.
    pub fn apply_transient_output_config(
        &mut self,
        found: Option<usize>,
        name: String,
        action: OutputAction,
    )
        requires
            found matches Some(i) ==> i < old(self).0@.len(),
        ensures
            final(self)@ == (match found {
                Some(i) => old(self)@.update(i as int, old(self)@[i as int].acted(action)),
                None => old(self)@.push(OutputConfigView::unset(name@).acted(action)),
            }),
    {
        let ghost before = self@;
        match found {
            Some(i) => {
                let config = &mut self.0[i];
                config.act(action);
                assert(self@ =~= before.update(i as int, before[i as int].acted(action)));
            },
            None => {
                let mut config = OutputConfig::new(name);
                config.act(action);
                self.0.push(config);
                assert(self@ =~= before.push(OutputConfigView::unset(name@).acted(action)));
            },
        }
    }
}

/// Turning an output off and on again leaves it as if it had only been turned on.
pub proof fn law_off_and_on(config: OutputConfigView)
    ensures
        config.acted(OutputAction::Off).acted(OutputAction::On) == config.acted(OutputAction::On),
        config.acted(OutputAction::On).acted(OutputAction::Off) == config.acted(OutputAction::Off),
{
}

/// Letting whatever suits be chosen takes back what was asked for before.
pub proof fn law_automatic_takes_back(
    config: OutputConfigView,
    mode: ConfiguredMode,
    modeline: Modeline,
    scale: FloatBits,
    position: Point,
)
    ensures
        config.acted(OutputAction::CustomMode(mode)).acted(OutputAction::Mode(None))
            == config.acted(OutputAction::Mode(None)),
        config.acted(OutputAction::Modeline(modeline)).acted(OutputAction::Mode(None))
            == config.acted(OutputAction::Mode(None)),
        config.acted(OutputAction::Scale(Some(scale))).acted(OutputAction::Scale(None))
            == config.acted(OutputAction::Scale(None)),
        config.acted(OutputAction::Position(Some(position))).acted(OutputAction::Position(None))
            == config.acted(OutputAction::Position(None)),
{
}

/// An output as its configuration is taken over.
#[derive(Clone, Copy, Debug, PartialEq, Eq, Structural)]
pub struct OutputReload {
    pub id: u64,
    /// Whether the scale that is configured or suits is another one than before.
    pub scale_changed: bool,
    pub transform: Transform,
    /// How the panel is built in.
    pub panel: Option<Transform>,
    pub configured: Option<IpcTransform>,
    /// Whether the color behind the workspaces is another one than before.
    pub backdrop_changed: bool,
    /// Whether the layout of the output has changed.
    pub layout_changed: bool,
}

/// A new transform for an output, whose scale may have changed too.
#[derive(Clone, Copy, Debug, PartialEq, Eq, Structural)]
pub struct OutputChange {
    pub output: u64,
    pub transform: Transform,
}

impl OutputReload {
    /// Whether a transform is the one that the output is to have.
    pub open spec fn wants(self, transform: Transform) -> bool {
        let built_in = match self.panel {
            Some(panel) => panel,
            None => Transform::Normal,
        };
        let wanted = match self.configured {
            Some(configured) => Transform::named(configured),
            None => Transform::Normal,
        };
        &&& transform.is_flipped() == (built_in.is_flipped() != wanted.is_flipped())
        &&& transform.quarters() == (built_in.quarters() + wanted.quarters()) % 4
    }

    /// Whether the output shows things in another size or another way round.
    pub open spec fn is_resized(self) -> bool {
        self.scale_changed || !self.wants(self.transform)
    }
}

/// The outputs that show things in another size or another way round.
pub open spec fn resized(views: Seq<OutputReload>) -> Seq<u64>
    decreases views.len(),
{
    if views.len() == 0 {
        Seq::empty()
    } else if views.last().is_resized() {
        resized(views.drop_last()).push(views.last().id)
    } else {
        resized(views.drop_last())
    }
}

/// The outputs that have another color, once for each reason.
pub open spec fn recolored(views: Seq<OutputReload>) -> Seq<u64>
    decreases views.len(),
{
    if views.len() == 0 {
        Seq::empty()
    } else {
        let last = views.last();
        let before = recolored(views.drop_last());
        let with_backdrop = if last.backdrop_changed {
            before.push(last.id)
        } else {
            before
        };
        if last.layout_changed {
            with_backdrop.push(last.id)
        } else {
            with_backdrop
        }
    }
}

/// An output that got another transform or scale.
#[derive(Clone, Copy, Debug, PartialEq, Eq, Structural)]
pub struct ResizedOutput {
    pub output: u64,
    /// How the output was when the screenshot selection took its picture, if it did.
    pub captured: Option<OutputShape>,
    /// How the output is now.
    pub now: OutputShape,
}

impl ResizedOutput {
    /// Whether there is a picture of the output that no longer fits.
    pub open spec fn outgrows(self) -> bool {
        self.captured matches Some(shape) && shape != self.now
    }
}

/// Whether there is a picture of some output that no longer fits.
pub open spec fn no_longer_fits(resized: Seq<ResizedOutput>) -> bool {
    exists|i: int| 0 <= i < resized.len() && (#[trigger] resized[i]).outgrows()
}

/// The states of the outputs after it was told that some got another transform or scale: these are drawn
/// anew, and all are if a screenshot selection has to be closed.
pub open spec fn told(states: Seq<OutputState>, resized: Seq<ResizedOutput>) -> Seq<OutputState> {
    if no_longer_fits(resized) {
        all_queued(states)
    } else {
        queued_among(states, resized.map_values(|o: ResizedOutput| o.output))
    }
}

/// What is told of outputs does not change which there are.
proof fn lemma_told_keeps_ids(states: Seq<OutputState>, resized: Seq<ResizedOutput>)
    requires
        states_unique(states),
    ensures
        states_unique(told(states, resized)),
        forall|id: u64| #[trigger]
            has_state(told(states, resized), id) <==> has_state(states, id),
{
    let now = told(states, resized);
    assert(now.len() == states.len());
    assert forall|k: int| 0 <= k < states.len() implies (#[trigger] now[k]).id == states[k].id by {}
    assert forall|id: u64| #[trigger] has_state(now, id) <==> has_state(states, id) by {
        if has_state(states, id) {
            let k = choose|k: int| 0 <= k < states.len() && (#[trigger] states[k]).id == id;
            assert(now[k].id == id);
        }
        if has_state(now, id) {
            let k = choose|k: int| 0 <= k < now.len() && (#[trigger] now[k]).id == id;
            assert(states[k].id == id);
        }
    }
    assert forall|i: int, j: int| 0 <= i < j < now.len() implies (#[trigger] now[i]).id != (
    #[trigger] now[j]).id by {
        assert(states[i].id != states[j].id);
    }
}

/// One more output whose picture may no longer fit.
proof fn lemma_fits_step(done: Seq<ResizedOutput>, view: ResizedOutput)
    ensures
        no_longer_fits(done.push(view)) == (no_longer_fits(done) || view.outgrows()),
{
    let more = done.push(view);
    if no_longer_fits(done) {
        let i = choose|i: int| 0 <= i < done.len() && (#[trigger] done[i]).outgrows();
        assert(more[i].outgrows());
    }
    if view.outgrows() {
        assert(more[done.len() as int].outgrows());
    }
    if no_longer_fits(more) && !view.outgrows() {
        let i = choose|i: int| 0 <= i < more.len() && (#[trigger] more[i]).outgrows();
        assert(done[i].outgrows());
    }
}

/// The states after it was told of one more output.
proof fn lemma_told_step(
    states: Seq<OutputState>,
    done: Seq<ResizedOutput>,
    view: ResizedOutput,
    after: Seq<OutputState>,
)
    requires
        states_unique(states),
        has_state(states, view.output),
        after == (if view.outgrows() {
            all_queued(told(states, done))
        } else {
            let now = told(states, done);
            let i = state_index(now, view.output);
            now.update(i, now[i].queued())
        }),
    ensures
        after == told(states, done.push(view)),
{
    let now = told(states, done);
    let more = done.push(view);
    let next = told(states, more);
    let ids = done.map_values(|o: ResizedOutput| o.output);
    let more_ids = more.map_values(|o: ResizedOutput| o.output);
    lemma_fits_step(done, view);
    lemma_told_keeps_ids(states, done);
    assert(has_state(now, view.output));
    let at = state_index(now, view.output);
    assert(0 <= at < now.len() && now[at].id == view.output);
    assert(more_ids =~= ids.push(view.output));
    assert forall|k: int| 0 <= k < states.len() implies after[k] == next[k] by {
        let id = states[k].id;
        assert(now[k].id == id);
        if k == at {
            assert(more_ids[done.len() as int] == id);
            assert(more_ids.contains(id));
        } else {
            if k < at {
                assert(now[k].id != now[at].id);
            } else {
                assert(now[at].id != now[k].id);
            }
            if ids.contains(id) {
                assert(more_ids[ids.index_of(id)] == id);
            }
            if more_ids.contains(id) {
                assert(ids[more_ids.index_of(id)] == id);
            }
        }
    }
    assert(after =~= next);
}

/// A transform is known by how it turns and mirrors.
proof fn lemma_same_transform(a: Transform, b: Transform)
    requires
        a.is_flipped() == b.is_flipped(),
        a.quarters() == b.quarters(),
    ensures
        a == b,
{
}

impl State {
    /// Takes over the configuration of outputs. Returns the transforms that outputs get, and the outputs
    /// with another color, of which a redraw is asked for. Once the outputs have their transforms,
    /// `outputs_reconfigured` goes on.
    pub fn reload_output_config(&mut self, views: &Vec<OutputReload>) -> (r: (
        Vec<OutputChange>,
        Vec<u64>,
    ))
        requires
            states_unique(old(self).niri.output_state@),
            forall|i: int|
                0 <= i < recolored(views@).len() ==> has_state(
                    old(self).niri.output_state@,
                    #[trigger] recolored(views@)[i],
                ),
        ensures
            r.0@.len() == resized(views@).len(),
            forall|i: int|
                0 <= i < r.0@.len() ==> (#[trigger] r.0@[i]).output == resized(views@)[i],
            forall|i: int|
                0 <= i < r.0@.len() ==> exists|k: int|
                    0 <= k < views@.len() && (#[trigger] views@[k]).id == (#[trigger] r.0@[i]).output
                        && views@[k].wants(r.0@[i].transform),
            r.1@ == recolored(views@),
            final(self).niri.output_state@ == queued_among(
                old(self).niri.output_state@,
                recolored(views@),
            ),
            *final(self) == (State {
                niri: Niri {
                    ipc_outputs_changed: old(self).niri.ipc_outputs_changed || r.0@.len() > 0,
                    output_state: final(self).niri.output_state,
                    ..old(self).niri
                },
                ..*old(self)
            }),
    {
        let mut changes: Vec<OutputChange> = Vec::new();
        let mut redrawn: Vec<u64> = Vec::new();
        let mut i: usize = 0;
        assert(views@.take(0) =~= Seq::<OutputReload>::empty());
        while i < views.len()
            invariant
                i <= views@.len(),
                changes@.len() == resized(views@.take(i as int)).len(),
                forall|k: int|
                    0 <= k < changes@.len() ==> (#[trigger] changes@[k]).output == resized(
                        views@.take(i as int),
                    )[k],
                forall|n: int|
                    0 <= n < changes@.len() ==> exists|k: int|
                        0 <= k < views@.len() && (#[trigger] views@[k]).id == (
                        #[trigger] changes@[n]).output && views@[k].wants(changes@[n].transform),
                redrawn@ == recolored(views@.take(i as int)),
                *self == (State {
                    niri: Niri {
                        ipc_outputs_changed: old(self).niri.ipc_outputs_changed || changes@.len()
                            > 0,
                        ..old(self).niri
                    },
                    ..*old(self)
                }),
            decreases views@.len() - i,
        {
            let view = &views[i];
            let ghost so_far = changes@;
            assert(views@.take(i + 1).drop_last() =~= views@.take(i as int));
            assert(views@[i as int] == *view);
            let transform = output_transform(view.panel, view.configured);
            assert(view.wants(transform));
            proof {
                if view.wants(view.transform) {
                    lemma_same_transform(view.transform, transform);
                }
            }
            if view.scale_changed || view.transform != transform {
                let change = OutputChange { output: view.id, transform };
                changes.push(change);
                self.niri.ipc_outputs_changed = true;
                assert forall|n: int| 0 <= n < changes@.len() implies exists|k: int|
                    0 <= k < views@.len() && (#[trigger] views@[k]).id == (
                    #[trigger] changes@[n]).output && views@[k].wants(changes@[n].transform) by {
                    if n < so_far.len() {
                        assert(changes@[n] == so_far[n]);
                    } else {
                        assert(views@[i as int].id == changes@[n].output);
                    }
                }
            }
            if view.backdrop_changed {
                redrawn.push(view.id);
            }
            if view.layout_changed {
                redrawn.push(view.id);
            }
            i = i + 1;
        }
        assert(views@.take(i as int) =~= views@);
        self.niri.queue_redraw_of(&redrawn);
        (changes, redrawn)
    }

    /// Goes on after outputs got their transforms and scales: tells the state of each of them, asks the
    /// backend to take over the configuration, and places all outputs anew. Returns whether a screenshot
    /// selection had to be closed, because its picture of an output no longer fits, and where the outputs
    /// are.
    pub fn outputs_reconfigured(&mut self, resized: &Vec<ResizedOutput>, outputs: Vec<OutputData>) -> (r:
        (bool, Repositioned))
        requires
            states_unique(old(self).niri.output_state@),
            forall|i: int|
                0 <= i < resized@.len() ==> has_state(
                    old(self).niri.output_state@,
                    (#[trigger] resized@[i]).output,
                ),
            is_all_outputs(old(self).niri.global_space.outputs@, None, outputs@),
            ids_unique(outputs@),
            forall|i: int|
                0 <= i < outputs@.len() ==> has_state(
                    old(self).niri.output_state@,
                    (#[trigger] outputs@[i]).id,
                ),
            forall|order: Seq<OutputData>| #[trigger]
                is_placement_order(order, outputs@) ==> placement_fits(order),
        ensures
            r.0 == no_longer_fits(resized@),
            is_placement_order(r.1.order@, outputs@),
            old(self).backend.asked(final(self).backend, TtyRequest::OutputConfigChanged),
            ({
                let before = old(self).niri;
                let after = final(self).niri;
                let order = r.1.order@;
                let n = order.len() as int;
                &&& after.output_state@ == states_moved(
                    told(before.output_state@, resized@),
                    order,
                    n,
                )
                &&& after.global_space.outputs@ == placed(order)
                &&& after.global_space.sorted@ == order.map_values(|d: OutputData| d.id)
                &&& after.global_space.wf()
                &&& r.1.moved@ == moved_outputs(order, n)
                &&& after == (Niri {
                    global_space: after.global_space,
                    output_state: after.output_state,
                    ipc_outputs_changed: before.ipc_outputs_changed || r.1.moved@.len() > 0,
                    screenshot_ui: if r.0 {
                        ScreenshotUi::Closed
                    } else {
                        before.screenshot_ui
                    },
                    ..before
                })
            }),
    {
        let ghost states = self.niri.output_state@;
        let mut closed = false;
        let mut i: usize = 0;
        assert(resized@.take(0) =~= Seq::<ResizedOutput>::empty());
        assert(states =~= told(states, resized@.take(0)));
        while i < resized.len()
            invariant
                i <= resized@.len(),
                states == old(self).niri.output_state@,
                states_unique(states),
                forall|k: int|
                    0 <= k < resized@.len() ==> has_state(states, (#[trigger] resized@[k]).output),
                closed == no_longer_fits(resized@.take(i as int)),
                self.niri.output_state@ == told(states, resized@.take(i as int)),
                *self == (State {
                    niri: Niri {
                        output_state: self.niri.output_state,
                        screenshot_ui: if closed {
                            ScreenshotUi::Closed
                        } else {
                            old(self).niri.screenshot_ui
                        },
                        ..old(self).niri
                    },
                    ..*old(self)
                }),
            decreases resized@.len() - i,
        {
            let view = resized[i];
            let ghost done = resized@.take(i as int);
            let ghost now = self.niri.output_state@;
            proof {
                lemma_told_keeps_ids(states, done);
                assert(has_state(states, resized@[i as int].output));
                assert(resized@.take(i + 1) =~= done.push(view));
            }
            let closes = self.niri.output_resized(view.output, view.captured, view.now);
            proof {
                lemma_told_step(states, done, view, self.niri.output_state@);
                lemma_fits_step(done, view);
            }
            closed = closed || closes;
            i = i + 1;
        }
        assert(resized@.take(i as int) =~= resized@);
        proof {
            lemma_told_keeps_ids(states, resized@);
        }
        self.backend.on_output_config_changed();
        let repositioned = self.niri.reposition_outputs(None, outputs);
        (closed, repositioned)
    }

    /// Whether the outputs have to be reported on the control socket, which then is no longer so.
    pub fn refresh_ipc_outputs(&mut self) -> (r: bool)
        ensures
            r == old(self).niri.ipc_outputs_changed,
            *final(self) == (State {
                niri: Niri { ipc_outputs_changed: false, ..old(self).niri },
                ..*old(self)
            }),
    {
        if !self.niri.ipc_outputs_changed {
            return false;
        }
        self.niri.ipc_outputs_changed = false;
        true
    }
}

/// A change of the configuration of an output changes just what it names. A mode of any sort replaces the one
/// before, and a modeline comes on top of it.
pub proof fn law_changes_of_outputs(config: OutputConfigView, action: OutputAction)
    ensures
        ({
            let after = config.acted(action);
            &&& after.name == config.name && after.focus_at_startup == config.focus_at_startup
                && after.backdrop_color == config.backdrop_color && after.background_color
                == config.background_color && after.hot_corners == config.hot_corners && after.layout
                == config.layout && after.rest == config.rest
            &&& after.off == (match action {
                OutputAction::Off => true,
                OutputAction::On => false,
                _ => config.off,
            })
            &&& match action {
                OutputAction::Mode(None) => after.mode is None && after.modeline is None,
                OutputAction::Mode(Some(mode)) => after.mode == Some(Mode { custom: false, mode })
                    && after.modeline is None,
                OutputAction::CustomMode(mode) => after.mode == Some(Mode { custom: true, mode })
                    && after.modeline is None,
                OutputAction::Modeline(modeline) => after.mode == config.mode && after.modeline
                    == Some(modeline),
                _ => after.mode == config.mode && after.modeline == config.modeline,
            }
            &&& after.scale == (if let OutputAction::Scale(scale) = action {
                scale
            } else {
                config.scale
            })
            &&& after.transform == (if let OutputAction::Transform(transform) = action {
                transform
            } else {
                config.transform
            })
            &&& after.position == (if let OutputAction::Position(position) = action {
                position
            } else {
                config.position
            })
            &&& after.max_bpc == (if let OutputAction::MaxBpc(max_bpc) = action {
                Some(max_bpc)
            } else {
                config.max_bpc
            })
        }),
{
}

/// An output shows things in another size or another way round just if its scale has changed, or the way in
/// which it is turned is not that of its panel and its configuration together.
pub proof fn law_resized_outputs(view: OutputReload)
    ensures
        view.scale_changed ==> view.is_resized(),
        view.panel is None && view.configured is None && !view.scale_changed ==> (view.is_resized()
            <==> view.transform != Transform::Normal),
        view.panel is None && !view.scale_changed ==> (view.configured matches Some(configured) ==> (
        view.is_resized() <==> view.transform != Transform::named(configured))),
        view.configured is None && !view.scale_changed ==> (view.panel matches Some(panel) ==> (
        view.is_resized() <==> view.transform != panel)),
{
    if let Some(configured) = view.configured {
        lemma_known_by_turn(view.transform, Transform::named(configured));
    }
    if let Some(panel) = view.panel {
        lemma_known_by_turn(view.transform, panel);
    }
    lemma_known_by_turn(view.transform, Transform::Normal);
}

/// A transform is known by how it turns and mirrors.
proof fn lemma_known_by_turn(a: Transform, b: Transform)
    ensures
        a == b <==> a.is_flipped() == b.is_flipped() && a.quarters() == b.quarters(),
        0 <= b.quarters() < 4,
{
}

} // verus!
