//! What an output shows, from front to back, and what of it lies under a point.
//!
//! Both go by one order, so that input reaches what can be seen.
use vstd::prelude::*;

use crate::geometry::{FinePoint, Point};
use crate::niri::redraw::{find_state, has_state, state_index, states_unique, OutputState};
use crate::niri::Niri;

verus! {

/// A layer of the desktop around the windows.
#[derive(Clone, Copy, Debug, PartialEq, Eq, Structural)]
pub enum Layer {
    Background,
    Bottom,
    Top,
    Overlay,
}

/// When a layer surface gets the keyboard.
#[derive(Clone, Copy, Debug, PartialEq, Eq, Structural)]
pub enum KeyboardInteractivity {
    Never,
    Exclusive,
    OnDemand,
}

/// A surface under a point, and where the surface lies in the global space.
#[derive(Clone, Copy, Debug, PartialEq, Eq, Structural)]
pub struct SurfaceHit {
    pub surface: u64,
    pub location: FinePoint,
}

/// A layer surface on an output.
#[derive(Clone, Copy, Debug, PartialEq, Eq, Structural)]
pub struct LayerView {
    /// The layer surface.
    pub id: u64,
    /// Its main surface.
    pub surface: u64,
    pub layer: Layer,
    /// Whether it has contents.
    pub mapped: bool,
    /// Whether it is part of what lies behind the workspaces in the overview.
    pub place_within_backdrop: bool,
    pub keyboard_interactivity: KeyboardInteractivity,
    /// What of its pop-ups is under the point.
    pub popup_under: Option<SurfaceHit>,
    /// What of the surface itself is under the point.
    pub toplevel_under: Option<SurfaceHit>,
}

/// How a point hits a window.
#[derive(Clone, Copy, Debug, PartialEq, Eq, Structural)]
pub enum HitType {
    /// The window itself takes input; its position on the output is given.
    Input { win_pos: FinePoint },
    /// A click would give the window the focus.
    Activate { is_tab_indicator: bool },
}

/// A window under a point.
#[derive(Clone, Copy, Debug, PartialEq, Eq, Structural)]
pub struct WindowHit {
    pub window: u64,
    pub hit: HitType,
    /// The surface of the window that takes the input.
    pub surface: Option<SurfaceHit>,
}

/// What is known of an output and of a point on it.
#[derive(Debug)]
pub struct OutputView {
    /// The layer surfaces; of two on one layer, the later covers the earlier.
    pub layers: Vec<LayerView>,
    /// Whether the windows cover the top layer.
    pub render_above_top_layer: bool,
    pub overview_open: bool,
    /// The workspaces in view.
    pub workspaces: Vec<u64>,
    /// The workspace under the point.
    pub workspace_under: Option<u64>,
    /// The window that is being moved, if it is under the point.
    pub moved_window_under: Option<WindowHit>,
    /// The window under the point.
    pub window_under: Option<WindowHit>,
    pub inside_hot_corner: bool,
    /// What of the lock surface is under the point.
    pub lock_surface_under: Option<SurfaceHit>,
    /// Whether a window is being moved above the workspaces of the output.
    pub moving_above: bool,
}

/// One thing to be drawn.
#[derive(Clone, Copy, Debug, PartialEq, Eq, Structural)]
pub enum RenderStep {
    Pointer,
    ScreenTransition,
    ExitConfirmDialog,
    ConfigErrorNotification,
    LockSurface(u64),
    LockBackground,
    ScreenshotUi,
    HotkeyOverlay,
    /// The pop-ups of a layer surface, moved along with a workspace if one is given.
    LayerPopups { layer: LayerView, workspace: Option<u64> },
    /// A layer surface, moved along with a workspace if one is given.
    LayerNormal { layer: LayerView, workspace: Option<u64> },
    MovedWindow,
    InsertHint,
    Workspaces { focus_ring: bool },
    WorkspaceBackground(u64),
    WorkspaceShadows,
    Backdrop,
}

/// The layer surfaces of one layer that are drawn, from front to back.
pub open spec fn drawn_layers(layers: Seq<LayerView>, layer: Layer, backdrop: bool) -> Seq<LayerView>
    decreases layers.len(),
{
    if layers.len() == 0 {
        Seq::empty()
    } else {
        let rest = drawn_layers(layers.drop_last(), layer, backdrop);
        let last = layers.last();
        if last.layer == layer && last.mapped && last.place_within_backdrop == backdrop {
            seq![last] + rest
        } else {
            rest
        }
    }
}

/// The steps for some layer surfaces, or for their pop-ups.
pub open spec fn layer_steps(
    drawn: Seq<LayerView>,
    popup: bool,
    workspace: Option<u64>,
) -> Seq<RenderStep> {
    drawn.map_values(
        |l: LayerView|
            if popup {
                RenderStep::LayerPopups { layer: l, workspace }
            } else {
                RenderStep::LayerNormal { layer: l, workspace }
            },
    )
}

/// The pop-ups of a layer, from front to back.
pub open spec fn popups(
    layers: Seq<LayerView>,
    layer: Layer,
    backdrop: bool,
    workspace: Option<u64>,
) -> Seq<RenderStep> {
    layer_steps(drawn_layers(layers, layer, backdrop), true, workspace)
}

/// The surfaces of a layer, from front to back.
pub open spec fn normals(
    layers: Seq<LayerView>,
    layer: Layer,
    backdrop: bool,
    workspace: Option<u64>,
) -> Seq<RenderStep> {
    layer_steps(drawn_layers(layers, layer, backdrop), false, workspace)
}

/// The pop-ups of the lower layers, once for each workspace.
pub open spec fn workspace_popups(layers: Seq<LayerView>, workspaces: Seq<u64>) -> Seq<RenderStep>
    decreases workspaces.len(),
{
    if workspaces.len() == 0 {
        Seq::empty()
    } else {
        let ws = Some(workspaces.last());
        workspace_popups(layers, workspaces.drop_last()) + popups(layers, Layer::Bottom, false, ws)
            + popups(layers, Layer::Background, false, ws)
    }
}

/// The surfaces of the lower layers and the background, once for each workspace.
pub open spec fn workspace_normals(layers: Seq<LayerView>, workspaces: Seq<u64>) -> Seq<RenderStep>
    decreases workspaces.len(),
{
    if workspaces.len() == 0 {
        Seq::empty()
    } else {
        let ws = Some(workspaces.last());
        workspace_normals(layers, workspaces.drop_last()) + normals(
            layers,
            Layer::Bottom,
            false,
            ws,
        ) + normals(layers, Layer::Background, false, ws) + seq![
            RenderStep::WorkspaceBackground(workspaces.last()),
        ]
    }
}

/// What follows the overlay layer where the windows cover the top layer.
pub open spec fn windows_first(front: Seq<RenderStep>, view: OutputView) -> Seq<RenderStep> {
    let layers = view.layers@;
    front + seq![RenderStep::MovedWindow] + seq![RenderStep::InsertHint] + seq![
        RenderStep::Workspaces { focus_ring: !view.moving_above },
    ] + popups(layers, Layer::Top, false, None) + normals(layers, Layer::Top, false, None) + popups(
        layers,
        Layer::Bottom,
        false,
        None,
    ) + popups(layers, Layer::Background, false, None) + normals(layers, Layer::Bottom, false, None)
        + normals(layers, Layer::Background, false, None) + first_background(view.workspaces@)
}

/// The background of the one workspace that is in view when windows cover the top layer.
pub open spec fn first_background(workspaces: Seq<u64>) -> Seq<RenderStep> {
    if workspaces.len() > 0 {
        seq![RenderStep::WorkspaceBackground(workspaces[0])]
    } else {
        Seq::empty()
    }
}

/// What follows the overlay layer where the top layer covers the windows.
pub open spec fn top_layer_first(front: Seq<RenderStep>, view: OutputView) -> Seq<RenderStep> {
    let layers = view.layers@;
    front + popups(layers, Layer::Top, false, None) + normals(layers, Layer::Top, false, None)
        + seq![RenderStep::MovedWindow] + seq![RenderStep::InsertHint] + workspace_popups(
        layers,
        view.workspaces@,
    ) + seq![RenderStep::Workspaces { focus_ring: !view.moving_above }] + workspace_normals(
        layers,
        view.workspaces@,
    )
}

/// The windows and layers of an unlocked session, from front to back.
pub open spec fn desktop_order(view: OutputView) -> Seq<RenderStep> {
    let layers = view.layers@;
    let overlay = popups(layers, Layer::Overlay, false, None) + normals(
        layers,
        Layer::Overlay,
        false,
        None,
    );
    let front = if view.render_above_top_layer {
        windows_first(overlay, view)
    } else {
        top_layer_first(overlay, view)
    };
    front + seq![RenderStep::WorkspaceShadows] + popups(layers, Layer::Background, true, None)
        + normals(layers, Layer::Background, true, None) + seq![RenderStep::Backdrop]
}

/// The surface that a screen locker shows on an output.
pub open spec fn lock_surface_of(state: OutputState) -> Option<u64> {
    match state.lock_surface {
        Some(surface) => Some(surface.surface),
        None => None,
    }
}

/// All that an output shows, from front to back.
pub open spec fn render_order(
    niri: Niri,
    view: OutputView,
    show_pointer: bool,
    transition: bool,
    lock_surface: Option<u64>,
) -> Seq<RenderStep> {
    (if show_pointer {
        seq![RenderStep::Pointer]
    } else {
        Seq::empty()
    }) + (if transition {
        seq![RenderStep::ScreenTransition]
    } else {
        Seq::empty()
    }) + seq![RenderStep::ExitConfirmDialog, RenderStep::ConfigErrorNotification] + (
    if niri.locked() {
        (match lock_surface {
            Some(surface) => seq![RenderStep::LockSurface(surface)],
            None => Seq::empty(),
        }) + seq![RenderStep::LockBackground]
    } else if niri.screenshot_ui is Open {
        seq![RenderStep::ScreenshotUi, RenderStep::Backdrop]
    } else {
        seq![RenderStep::HotkeyOverlay] + desktop_order(view)
    })
}

/// All that one of the outputs shows, from front to back. The pointer is there if it can be seen.
pub open spec fn output_order(niri: Niri, output: u64, view: OutputView, include_pointer: bool) -> Seq<
    RenderStep,
> {
    let state = niri.output_state@[state_index(niri.output_state@, output)];
    render_order(
        niri,
        view,
        include_pointer && niri.pointer.visibility is Visible,
        state.screen_transition,
        lock_surface_of(state),
    )
}

/// Lists the layer surfaces of one layer that are drawn, from front to back.
pub fn layers_in_render_order(layers: &Vec<LayerView>, layer: Layer, for_backdrop: bool) -> (r: Vec<
    LayerView,
>)
    ensures
        r@ == drawn_layers(layers@, layer, for_backdrop),
{
    let mut rv: Vec<LayerView> = Vec::new();
    let mut i: usize = layers.len();
    assert(layers@.take(i as int) =~= layers@);
    while i > 0
        invariant
            i <= layers.len(),
            rv@ + drawn_layers(layers@.take(i as int), layer, for_backdrop) == drawn_layers(
                layers@,
                layer,
                for_backdrop,
            ),
        decreases i,
    {
        let ghost longer = layers@.take(i as int);
        i = i - 1;
        proof {
            assert(longer.drop_last() =~= layers@.take(i as int));
            assert(longer.last() == layers@[i as int]);
        }
        let l = layers[i];
        let ghost before = rv@;
        if l.layer == layer && l.mapped && l.place_within_backdrop == for_backdrop {
            rv.push(l);
            assert(rv@ + drawn_layers(layers@.take(i as int), layer, for_backdrop) =~= before + (
            seq![l] + drawn_layers(layers@.take(i as int), layer, for_backdrop)));
        }
    }
    assert(layers@.take(0) =~= Seq::<LayerView>::empty());
    assert(rv@ =~= drawn_layers(layers@, layer, for_backdrop));
    rv
}

/// Appends the pop-ups of a layer.
fn push_popups(
    steps: &mut Vec<RenderStep>,
    layers: &Vec<LayerView>,
    layer: Layer,
    backdrop: bool,
    workspace: Option<u64>,
)
    ensures
        final(steps)@ == old(steps)@ + popups(layers@, layer, backdrop, workspace),
{
    let drawn = layers_in_render_order(layers, layer, backdrop);
    let ghost all = popups(layers@, layer, backdrop, workspace);
    let mut i: usize = 0;
    while i < drawn.len()
        invariant
            i <= drawn.len(),
            drawn@ == drawn_layers(layers@, layer, backdrop),
            all == popups(layers@, layer, backdrop, workspace),
            steps@ == old(steps)@ + all.take(i as int),
        decreases drawn.len() - i,
    {
        steps.push(RenderStep::LayerPopups { layer: drawn[i], workspace });
        i = i + 1;
        assert(steps@ =~= old(steps)@ + all.take(i as int));
    }
    assert(all.take(i as int) =~= all);
}

/// Appends the surfaces of a layer.
fn push_normals(
    steps: &mut Vec<RenderStep>,
    layers: &Vec<LayerView>,
    layer: Layer,
    backdrop: bool,
    workspace: Option<u64>,
)
    ensures
        final(steps)@ == old(steps)@ + normals(layers@, layer, backdrop, workspace),
{
    let drawn = layers_in_render_order(layers, layer, backdrop);
    let ghost all = normals(layers@, layer, backdrop, workspace);
    let mut i: usize = 0;
    while i < drawn.len()
        invariant
            i <= drawn.len(),
            drawn@ == drawn_layers(layers@, layer, backdrop),
            all == normals(layers@, layer, backdrop, workspace),
            steps@ == old(steps)@ + all.take(i as int),
        decreases drawn.len() - i,
    {
        steps.push(RenderStep::LayerNormal { layer: drawn[i], workspace });
        i = i + 1;
        assert(steps@ =~= old(steps)@ + all.take(i as int));
    }
    assert(all.take(i as int) =~= all);
}

/// Appends one step.
fn push_step(steps: &mut Vec<RenderStep>, step: RenderStep)
    ensures
        final(steps)@ == old(steps)@ + seq![step],
{
    steps.push(step);
    assert(steps@ =~= old(steps)@ + seq![step]);
}

/// Appends the pop-ups of the lower layers, once for each workspace.
fn push_workspace_popups(steps: &mut Vec<RenderStep>, view: &OutputView)
    ensures
        final(steps)@ == old(steps)@ + workspace_popups(view.layers@, view.workspaces@),
{
    let layers = &view.layers;
    let mut i: usize = 0;
    assert(steps@ =~= old(steps)@ + workspace_popups(layers@, view.workspaces@.take(0)));
    while i < view.workspaces.len()
        invariant
            i <= view.workspaces.len(),
            layers == view.layers,
            steps@ == old(steps)@ + workspace_popups(layers@, view.workspaces@.take(i as int)),
        decreases view.workspaces.len() - i,
    {
        let ghost done = workspace_popups(layers@, view.workspaces@.take(i as int));
        let workspace = Some(view.workspaces[i]);
        push_popups(steps, layers, Layer::Bottom, false, workspace);
        push_popups(steps, layers, Layer::Background, false, workspace);
        proof {
            assert(view.workspaces@.take(i + 1).drop_last() =~= view.workspaces@.take(i as int));
            assert(steps@ =~= old(steps)@ + (done + popups(layers@, Layer::Bottom, false, workspace)
                + popups(layers@, Layer::Background, false, workspace)));
        }
        i = i + 1;
    }
    assert(view.workspaces@.take(i as int) =~= view.workspaces@);
}

/// Appends the surfaces of the lower layers and the background, once for each workspace.
fn push_workspace_normals(steps: &mut Vec<RenderStep>, view: &OutputView)
    ensures
        final(steps)@ == old(steps)@ + workspace_normals(view.layers@, view.workspaces@),
{
    let layers = &view.layers;
    let mut i: usize = 0;
    assert(steps@ =~= old(steps)@ + workspace_normals(layers@, view.workspaces@.take(0)));
    while i < view.workspaces.len()
        invariant
            i <= view.workspaces.len(),
            layers == view.layers,
            steps@ == old(steps)@ + workspace_normals(layers@, view.workspaces@.take(i as int)),
        decreases view.workspaces.len() - i,
    {
        let ghost done = workspace_normals(layers@, view.workspaces@.take(i as int));
        let workspace = Some(view.workspaces[i]);
        push_normals(steps, layers, Layer::Bottom, false, workspace);
        push_normals(steps, layers, Layer::Background, false, workspace);
        push_step(steps, RenderStep::WorkspaceBackground(view.workspaces[i]));
        proof {
            assert(view.workspaces@.take(i + 1).drop_last() =~= view.workspaces@.take(i as int));
            assert(steps@ =~= old(steps)@ + (done + normals(layers@, Layer::Bottom, false, workspace)
                + normals(layers@, Layer::Background, false, workspace) + seq![
                RenderStep::WorkspaceBackground(view.workspaces@[i as int]),
            ]));
        }
        i = i + 1;
    }
    assert(view.workspaces@.take(i as int) =~= view.workspaces@);
}

/// Lists the windows and layers of an unlocked session, from front to back.
fn desktop(view: &OutputView) -> (r: Vec<RenderStep>)
    ensures
        r@ == desktop_order(*view),
{
    let layers = &view.layers;
    let mut steps: Vec<RenderStep> = Vec::new();
    push_popups(&mut steps, layers, Layer::Overlay, false, None);
    assert(steps@ =~= popups(layers@, Layer::Overlay, false, None));
    push_normals(&mut steps, layers, Layer::Overlay, false, None);
    if view.render_above_top_layer {
        push_step(&mut steps, RenderStep::MovedWindow);
        push_step(&mut steps, RenderStep::InsertHint);
        push_step(&mut steps, RenderStep::Workspaces { focus_ring: !view.moving_above });
        push_popups(&mut steps, layers, Layer::Top, false, None);
        push_normals(&mut steps, layers, Layer::Top, false, None);
        push_popups(&mut steps, layers, Layer::Bottom, false, None);
        push_popups(&mut steps, layers, Layer::Background, false, None);
        push_normals(&mut steps, layers, Layer::Bottom, false, None);
        push_normals(&mut steps, layers, Layer::Background, false, None);
        let ghost before = steps@;
        if view.workspaces.len() > 0 {
            push_step(&mut steps, RenderStep::WorkspaceBackground(view.workspaces[0]));
        }
        assert(steps@ =~= before + first_background(view.workspaces@));
    } else {
        push_popups(&mut steps, layers, Layer::Top, false, None);
        push_normals(&mut steps, layers, Layer::Top, false, None);
        push_step(&mut steps, RenderStep::MovedWindow);
        push_step(&mut steps, RenderStep::InsertHint);
        push_workspace_popups(&mut steps, view);
        push_step(&mut steps, RenderStep::Workspaces { focus_ring: !view.moving_above });
        push_workspace_normals(&mut steps, view);
    }
    push_step(&mut steps, RenderStep::WorkspaceShadows);
    push_popups(&mut steps, layers, Layer::Background, true, None);
    push_normals(&mut steps, layers, Layer::Background, true, None);
    push_step(&mut steps, RenderStep::Backdrop);
    steps
}

impl Niri {
    /// Lists all that an output shows, from front to back. In a locked session that is the lock surface
    /// of the output.
    pub fn render_inner(&self, output: u64, view: &OutputView, include_pointer: bool) -> (r: Vec<
        RenderStep,
    >)
        requires
            states_unique(self.output_state@),
            has_state(self.output_state@, output),
        ensures
            r@ == output_order(*self, output, *view, include_pointer),
    {
        let Some(i) = find_state(&self.output_state, output) else {
            return Vec::new();
        };
        let transition = self.output_state[i].screen_transition;
        let lock_surface = match self.output_state[i].lock_surface {
            Some(surface) => Some(surface.surface),
            None => None,
        };
        let mut steps: Vec<RenderStep> = Vec::new();
        let show_pointer = include_pointer && self.pointer.visibility.is_visible();
        if show_pointer {
            steps.push(RenderStep::Pointer);
        }
        if transition {
            steps.push(RenderStep::ScreenTransition);
        }
        steps.push(RenderStep::ExitConfirmDialog);
        steps.push(RenderStep::ConfigErrorNotification);
        let ghost front = steps@;
        let mut rest: Vec<RenderStep> = Vec::new();
        if self.is_locked() {
            if let Some(surface) = lock_surface {
                rest.push(RenderStep::LockSurface(surface));
            }
            rest.push(RenderStep::LockBackground);
        } else if self.screenshot_ui.is_open() {
            rest.push(RenderStep::ScreenshotUi);
            rest.push(RenderStep::Backdrop);
        } else {
            rest.push(RenderStep::HotkeyOverlay);
            let mut order = desktop(view);
            rest.append(&mut order);
        }
        let ghost back = rest@;
        steps.append(&mut rest);
        proof {
            assert(front =~= (if show_pointer {
                seq![RenderStep::Pointer]
            } else {
                Seq::empty()
            }) + (if transition {
                seq![RenderStep::ScreenTransition]
            } else {
                Seq::empty()
            }) + seq![RenderStep::ExitConfirmDialog, RenderStep::ConfigErrorNotification]);
            assert(back =~= (if self.locked() {
                (match lock_surface {
                    Some(surface) => seq![RenderStep::LockSurface(surface)],
                    None => Seq::empty(),
                }) + seq![RenderStep::LockBackground]
            } else if self.screenshot_ui is Open {
                seq![RenderStep::ScreenshotUi, RenderStep::Backdrop]
            } else {
                seq![RenderStep::HotkeyOverlay] + desktop_order(*view)
            }));
        }
        steps
    }
}

/// A window and how a point hits it.
#[derive(Clone, Copy, Debug, PartialEq, Eq, Structural)]
pub struct WindowUnder {
    pub window: u64,
    pub hit: HitType,
}

/// What a point leads to.
#[derive(Clone, Copy, Debug, PartialEq, Eq, Structural)]
pub struct Target {
    pub surface: Option<SurfaceHit>,
    pub window: Option<WindowUnder>,
    pub layer: Option<u64>,
}

/// What lies under a point.
#[derive(Clone, Copy, Debug, PartialEq, Eq, Structural)]
pub struct PointContents {
    /// The output.
    pub output: Option<u64>,
    /// The surface that takes input. It can be missing where a window is given, such as on the
    /// border around the window.
    pub surface: Option<SurfaceHit>,
    /// The window, if it is one.
    pub window: Option<WindowUnder>,
    /// The layer surface, if it is one.
    pub layer: Option<u64>,
    /// Whether a hot corner is there.
    pub hot_corner: bool,
}

impl PointContents {
    /// Nothing at all.
    pub open spec fn nothing() -> PointContents {
        PointContents { output: None, surface: None, window: None, layer: None, hot_corner: false }
    }

    /// Nothing at all.
    pub fn empty() -> (r: PointContents)
        ensures
            r == PointContents::nothing(),
    {
        PointContents { output: None, surface: None, window: None, layer: None, hot_corner: false }
    }
}

impl OutputView {
    /// The workspace under the point is one of those in view.
    pub open spec fn wf(self) -> bool {
        self.workspace_under matches Some(workspace) ==> self.workspaces@.contains(workspace)
    }

    /// Whether a drawn layer surface gets input. The lower layers belong to a workspace, and get none
    /// in the overview.
    pub open spec fn reachable(self, layer: LayerView, workspace: Option<u64>) -> bool {
        &&& !layer.place_within_backdrop
        &&& layer.layer == Layer::Background || layer.layer == Layer::Bottom ==> {
            &&& self.workspace_under is Some
            &&& workspace is Some ==> workspace == self.workspace_under && !self.overview_open
        }
    }

    /// What a point leads to if it is not caught by anything in front of a step.
    pub open spec fn caught_by(self, step: RenderStep) -> Option<Target> {
        match step {
            RenderStep::LayerPopups { layer, workspace } => if self.reachable(layer, workspace) {
                layer_target(layer, true)
            } else {
                None
            },
            RenderStep::LayerNormal { layer, workspace } => if self.reachable(layer, workspace) {
                layer_target(layer, false)
            } else {
                None
            },
            RenderStep::MovedWindow => window_target(self.moved_window_under),
            RenderStep::Workspaces { .. } => window_target(self.window_under),
            _ => None,
        }
    }

    /// What a point leads to: the frontmost thing that catches it.
    pub open spec fn frontmost(self, steps: Seq<RenderStep>) -> Option<Target>
        decreases steps.len(),
    {
        if steps.len() == 0 {
            None
        } else {
            match self.caught_by(steps[0]) {
                Some(target) => Some(target),
                None => self.frontmost(steps.skip(1)),
            }
        }
    }
}

/// What a point on a layer surface leads to.
pub open spec fn layer_target(layer: LayerView, popup: bool) -> Option<Target> {
    match (if popup {
        layer.popup_under
    } else {
        layer.toplevel_under
    }) {
        Some(hit) => Some(Target { surface: Some(hit), window: None, layer: Some(layer.id) }),
        None => None,
    }
}

/// What a point on a window leads to.
pub open spec fn window_target(window: Option<WindowHit>) -> Option<Target> {
    match window {
        Some(hit) => Some(
            Target {
                surface: if hit.hit is Input {
                    hit.surface
                } else {
                    None
                },
                window: Some(WindowUnder { window: hit.window, hit: hit.hit }),
                layer: None,
            },
        ),
        None => None,
    }
}

/// The first of two that is there.
pub open spec fn or_else(a: Option<Target>, b: Option<Target>) -> Option<Target> {
    match a {
        Some(_) => a,
        None => b,
    }
}

proof fn lemma_frontmost_add(view: OutputView, a: Seq<RenderStep>, b: Seq<RenderStep>)
    ensures
        view.frontmost(a + b) == or_else(view.frontmost(a), view.frontmost(b)),
    decreases a.len(),
{
    if a.len() == 0 {
        assert(a + b =~= b);
    } else {
        assert((a + b)[0] == a[0]);
        assert((a + b).skip(1) =~= a.skip(1) + b);
        lemma_frontmost_add(view, a.skip(1), b);
    }
}

proof fn lemma_frontmost_one(view: OutputView, step: RenderStep)
    ensures
        view.frontmost(seq![step]) == view.caught_by(step),
{
    assert(seq![step].skip(1) =~= Seq::<RenderStep>::empty());
    assert(seq![step][0] == step);
    assert(view.frontmost(seq![step].skip(1)) is None);
}

/// The frontmost of some layer surfaces that a point hits.
pub open spec fn frontmost_layer(drawn: Seq<LayerView>, popup: bool) -> Option<Target>
    decreases drawn.len(),
{
    if drawn.len() == 0 {
        None
    } else {
        or_else(layer_target(drawn[0], popup), frontmost_layer(drawn.skip(1), popup))
    }
}

proof fn lemma_drawn_layers(layers: Seq<LayerView>, layer: Layer, backdrop: bool)
    ensures
        forall|i: int|
            0 <= i < drawn_layers(layers, layer, backdrop).len() ==> {
                let l = #[trigger] drawn_layers(layers, layer, backdrop)[i];
                l.layer == layer && l.mapped && l.place_within_backdrop == backdrop
            },
    decreases layers.len(),
{
    if layers.len() > 0 {
        lemma_drawn_layers(layers.drop_last(), layer, backdrop);
    }
}

/// Whether all of some layer surfaces get input, or none of them.
pub open spec fn layer_reachable(view: OutputView, layer: Layer, workspace: Option<u64>) -> bool {
    layer == Layer::Background || layer == Layer::Bottom ==> {
        &&& view.workspace_under is Some
        &&& workspace is Some ==> workspace == view.workspace_under && !view.overview_open
    }
}

proof fn lemma_frontmost_layer(
    view: OutputView,
    drawn: Seq<LayerView>,
    layer: Layer,
    popup: bool,
    workspace: Option<u64>,
)
    requires
        forall|i: int|
            0 <= i < drawn.len() ==> (#[trigger] drawn[i]).layer == layer
                && !drawn[i].place_within_backdrop,
    ensures
        view.frontmost(layer_steps(drawn, popup, workspace)) == (if layer_reachable(
            view,
            layer,
            workspace,
        ) {
            frontmost_layer(drawn, popup)
        } else {
            None
        }),
    decreases drawn.len(),
{
    if drawn.len() > 0 {
        lemma_frontmost_layer(view, drawn.skip(1), layer, popup, workspace);
        let steps = layer_steps(drawn, popup, workspace);
        assert(steps.skip(1) =~= layer_steps(drawn.skip(1), popup, workspace));
        assert(view.reachable(drawn[0], workspace) == layer_reachable(view, layer, workspace));
    }
}

/// What a layer catches: its frontmost surface or pop-up under the point.
pub open spec fn layer_catches(view: OutputView, layer: Layer, popup: bool) -> Option<Target> {
    if layer_reachable(view, layer, None) {
        frontmost_layer(drawn_layers(view.layers@, layer, false), popup)
    } else {
        None
    }
}

proof fn lemma_popups(view: OutputView, layer: Layer, workspace: Option<u64>)
    ensures
        view.frontmost(popups(view.layers@, layer, false, workspace)) == (if layer_reachable(
            view,
            layer,
            workspace,
        ) {
            layer_catches(view, layer, true)
        } else {
            None
        }),
{
    let drawn = drawn_layers(view.layers@, layer, false);
    lemma_drawn_layers(view.layers@, layer, false);
    lemma_frontmost_layer(view, drawn, layer, true, workspace);
}

proof fn lemma_normals(view: OutputView, layer: Layer, workspace: Option<u64>)
    ensures
        view.frontmost(normals(view.layers@, layer, false, workspace)) == (if layer_reachable(
            view,
            layer,
            workspace,
        ) {
            layer_catches(view, layer, false)
        } else {
            None
        }),
{
    let drawn = drawn_layers(view.layers@, layer, false);
    lemma_drawn_layers(view.layers@, layer, false);
    lemma_frontmost_layer(view, drawn, layer, false, workspace);
}

/// What the backdrop draws never gets input.
proof fn lemma_backdrop_silent(view: OutputView, steps: Seq<RenderStep>)
    requires
        forall|i: int| 0 <= i < steps.len() ==> view.caught_by(#[trigger] steps[i]) is None,
    ensures
        view.frontmost(steps) is None,
    decreases steps.len(),
{
    if steps.len() > 0 {
        assert(view.caught_by(steps[0]) is None);
        assert forall|i: int| 0 <= i < steps.skip(1).len() implies view.caught_by(
            #[trigger] steps.skip(1)[i],
        ) is None by {
            assert(steps.skip(1)[i] == steps[i + 1]);
        }
        lemma_backdrop_silent(view, steps.skip(1));
    }
}

proof fn lemma_workspace_popups(view: OutputView, workspaces: Seq<u64>)
    ensures
        view.frontmost(workspace_popups(view.layers@, workspaces)) == (
        if view.workspace_under matches Some(w) && workspaces.contains(w) && !view.overview_open {
            or_else(
                layer_catches(view, Layer::Bottom, true),
                layer_catches(view, Layer::Background, true),
            )
        } else {
            None
        }),
    decreases workspaces.len(),
{
    if workspaces.len() > 0 {
        let rest = workspaces.drop_last();
        let ws = Some(workspaces.last());
        lemma_workspace_popups(view, rest);
        lemma_popups(view, Layer::Bottom, ws);
        lemma_popups(view, Layer::Background, ws);
        let a = workspace_popups(view.layers@, rest);
        let b = popups(view.layers@, Layer::Bottom, false, ws);
        let c = popups(view.layers@, Layer::Background, false, ws);
        lemma_frontmost_add(view, a, b);
        lemma_frontmost_add(view, a + b, c);
        if view.workspace_under is Some {
            let w = view.workspace_under->0;
            if rest.contains(w) {
                let k = choose|k: int| 0 <= k < rest.len() && rest[k] == w;
                assert(workspaces[k] == w);
            } else if workspaces.contains(w) {
                let k = choose|k: int| 0 <= k < workspaces.len() && workspaces[k] == w;
                if k < rest.len() {
                    assert(rest[k] == w);
                }
            }
            assert(workspaces[workspaces.len() - 1] == workspaces.last());
        }
    }
}

proof fn lemma_workspace_normals(view: OutputView, workspaces: Seq<u64>)
    ensures
        view.frontmost(workspace_normals(view.layers@, workspaces)) == (
        if view.workspace_under matches Some(w) && workspaces.contains(w) && !view.overview_open {
            or_else(
                layer_catches(view, Layer::Bottom, false),
                layer_catches(view, Layer::Background, false),
            )
        } else {
            None
        }),
    decreases workspaces.len(),
{
    if workspaces.len() > 0 {
        let rest = workspaces.drop_last();
        let ws = Some(workspaces.last());
        lemma_workspace_normals(view, rest);
        lemma_normals(view, Layer::Bottom, ws);
        lemma_normals(view, Layer::Background, ws);
        let a = workspace_normals(view.layers@, rest);
        let b = normals(view.layers@, Layer::Bottom, false, ws);
        let c = normals(view.layers@, Layer::Background, false, ws);
        let d = seq![RenderStep::WorkspaceBackground(workspaces.last())];
        lemma_frontmost_add(view, a, b);
        lemma_frontmost_add(view, a + b, c);
        lemma_frontmost_add(view, a + b + c, d);
        lemma_frontmost_one(view, RenderStep::WorkspaceBackground(workspaces.last()));
        if view.workspace_under is Some {
            let w = view.workspace_under->0;
            if rest.contains(w) {
                let k = choose|k: int| 0 <= k < rest.len() && rest[k] == w;
                assert(workspaces[k] == w);
            } else if workspaces.contains(w) {
                let k = choose|k: int| 0 <= k < workspaces.len() && workspaces[k] == w;
                if k < rest.len() {
                    assert(rest[k] == w);
                }
            }
            assert(workspaces[workspaces.len() - 1] == workspaces.last());
        }
    }
}

/// What a point on the desktop leads to.
pub open spec fn desktop_target(view: OutputView) -> Option<Target> {
    view.frontmost(desktop_order(view))
}

proof fn lemma_overlay(view: OutputView)
    ensures
        view.frontmost(
            popups(view.layers@, Layer::Overlay, false, None) + normals(
                view.layers@,
                Layer::Overlay,
                false,
                None,
            ),
        ) == or_else(
            layer_catches(view, Layer::Overlay, true),
            layer_catches(view, Layer::Overlay, false),
        ),
{
    lemma_popups(view, Layer::Overlay, None);
    lemma_normals(view, Layer::Overlay, None);
    lemma_frontmost_add(
        view,
        popups(view.layers@, Layer::Overlay, false, None),
        normals(view.layers@, Layer::Overlay, false, None),
    );
}

proof fn lemma_windows_first(view: OutputView, front: Seq<RenderStep>)
    ensures
        view.frontmost(windows_first(front, view)) == or_else(
            view.frontmost(front),
            or_else(
                window_target(view.moved_window_under),
                or_else(
                    window_target(view.window_under),
                    or_else(
                        layer_catches(view, Layer::Top, true),
                        or_else(
                            layer_catches(view, Layer::Top, false),
                            or_else(
                                layer_catches(view, Layer::Bottom, true),
                                or_else(
                                    layer_catches(view, Layer::Background, true),
                                    or_else(
                                        layer_catches(view, Layer::Bottom, false),
                                        layer_catches(view, Layer::Background, false),
                                    ),
                                ),
                            ),
                        ),
                    ),
                ),
            ),
        ),
{
    let layers = view.layers@;
    let workspaces = RenderStep::Workspaces { focus_ring: !view.moving_above };
    let s1 = front + seq![RenderStep::MovedWindow];
    let s2 = s1 + seq![RenderStep::InsertHint];
    let s3 = s2 + seq![workspaces];
    let s4 = s3 + popups(layers, Layer::Top, false, None);
    let s5 = s4 + normals(layers, Layer::Top, false, None);
    let s6 = s5 + popups(layers, Layer::Bottom, false, None);
    let s7 = s6 + popups(layers, Layer::Background, false, None);
    let s8 = s7 + normals(layers, Layer::Bottom, false, None);
    let s9 = s8 + normals(layers, Layer::Background, false, None);
    lemma_frontmost_one(view, RenderStep::MovedWindow);
    lemma_frontmost_one(view, RenderStep::InsertHint);
    lemma_frontmost_one(view, workspaces);
    lemma_frontmost_add(view, front, seq![RenderStep::MovedWindow]);
    lemma_frontmost_add(view, s1, seq![RenderStep::InsertHint]);
    lemma_frontmost_add(view, s2, seq![workspaces]);
    lemma_frontmost_add(view, s3, popups(layers, Layer::Top, false, None));
    lemma_frontmost_add(view, s4, normals(layers, Layer::Top, false, None));
    lemma_frontmost_add(view, s5, popups(layers, Layer::Bottom, false, None));
    lemma_frontmost_add(view, s6, popups(layers, Layer::Background, false, None));
    lemma_frontmost_add(view, s7, normals(layers, Layer::Bottom, false, None));
    lemma_frontmost_add(view, s8, normals(layers, Layer::Background, false, None));
    lemma_frontmost_add(view, s9, first_background(view.workspaces@));
    lemma_backdrop_silent(view, first_background(view.workspaces@));
    lemma_popups(view, Layer::Top, None);
    lemma_normals(view, Layer::Top, None);
    lemma_popups(view, Layer::Bottom, None);
    lemma_popups(view, Layer::Background, None);
    lemma_normals(view, Layer::Bottom, None);
    lemma_normals(view, Layer::Background, None);
}

/// What the pop-ups of the lower layers catch outside the overview.
pub open spec fn lower_catches(view: OutputView, popup: bool) -> Option<Target> {
    if view.overview_open {
        None
    } else {
        or_else(
            layer_catches(view, Layer::Bottom, popup),
            layer_catches(view, Layer::Background, popup),
        )
    }
}

proof fn lemma_top_layer_first(view: OutputView, front: Seq<RenderStep>)
    requires
        view.wf(),
    ensures
        view.frontmost(top_layer_first(front, view)) == or_else(
            view.frontmost(front),
            or_else(
                layer_catches(view, Layer::Top, true),
                or_else(
                    layer_catches(view, Layer::Top, false),
                    or_else(
                        window_target(view.moved_window_under),
                        or_else(
                            lower_catches(view, true),
                            or_else(
                                window_target(view.window_under),
                                lower_catches(view, false),
                            ),
                        ),
                    ),
                ),
            ),
        ),
{
    let layers = view.layers@;
    let workspaces = RenderStep::Workspaces { focus_ring: !view.moving_above };
    let s1 = front + popups(layers, Layer::Top, false, None);
    let s2 = s1 + normals(layers, Layer::Top, false, None);
    let s3 = s2 + seq![RenderStep::MovedWindow];
    let s4 = s3 + seq![RenderStep::InsertHint];
    let s5 = s4 + workspace_popups(layers, view.workspaces@);
    let s6 = s5 + seq![workspaces];
    lemma_frontmost_one(view, RenderStep::MovedWindow);
    lemma_frontmost_one(view, RenderStep::InsertHint);
    lemma_frontmost_one(view, workspaces);
    lemma_frontmost_add(view, front, popups(layers, Layer::Top, false, None));
    lemma_frontmost_add(view, s1, normals(layers, Layer::Top, false, None));
    lemma_frontmost_add(view, s2, seq![RenderStep::MovedWindow]);
    lemma_frontmost_add(view, s3, seq![RenderStep::InsertHint]);
    lemma_frontmost_add(view, s4, workspace_popups(layers, view.workspaces@));
    lemma_frontmost_add(view, s5, seq![workspaces]);
    lemma_frontmost_add(view, s6, workspace_normals(layers, view.workspaces@));
    lemma_popups(view, Layer::Top, None);
    lemma_normals(view, Layer::Top, None);
    lemma_workspace_popups(view, view.workspaces@);
    lemma_workspace_normals(view, view.workspaces@);
}

/// What lies behind the workspaces gets no input.
proof fn lemma_desktop(view: OutputView)
    ensures
        ({
            let overlay = popups(view.layers@, Layer::Overlay, false, None) + normals(
                view.layers@,
                Layer::Overlay,
                false,
                None,
            );
            desktop_target(view) == view.frontmost(
                if view.render_above_top_layer {
                    windows_first(overlay, view)
                } else {
                    top_layer_first(overlay, view)
                },
            )
        }),
{
    let layers = view.layers@;
    let overlay = popups(layers, Layer::Overlay, false, None) + normals(
        layers,
        Layer::Overlay,
        false,
        None,
    );
    let front = if view.render_above_top_layer {
        windows_first(overlay, view)
    } else {
        top_layer_first(overlay, view)
    };
    let s1 = front + seq![RenderStep::WorkspaceShadows];
    let b1 = popups(layers, Layer::Background, true, None);
    let b2 = normals(layers, Layer::Background, true, None);
    lemma_drawn_layers(layers, Layer::Background, true);
    lemma_backdrop_silent(view, b1);
    lemma_backdrop_silent(view, b2);
    lemma_frontmost_one(view, RenderStep::WorkspaceShadows);
    lemma_frontmost_one(view, RenderStep::Backdrop);
    lemma_frontmost_add(view, front, seq![RenderStep::WorkspaceShadows]);
    lemma_frontmost_add(view, s1, b1);
    lemma_frontmost_add(view, s1 + b1, b2);
    lemma_frontmost_add(view, s1 + b1 + b2, seq![RenderStep::Backdrop]);
}

impl OutputView {
    /// What of a layer lies under the point.
    pub fn layer_surface_under(&self, layer: Layer, popup: bool) -> (r: Option<Target>)
        ensures
            r == layer_catches(*self, layer, popup),
    {
        if matches!(layer, Layer::Background | Layer::Bottom) && self.workspace_under.is_none() {
            return None;
        }
        let drawn = layers_in_render_order(&self.layers, layer, false);
        let mut i: usize = 0;
        assert(drawn@.skip(0) =~= drawn@);
        while i < drawn.len()
            invariant
                i <= drawn.len(),
                layer_reachable(*self, layer, None),
                drawn@ == drawn_layers(self.layers@, layer, false),
                frontmost_layer(drawn@.skip(i as int), popup) == frontmost_layer(drawn@, popup),
            decreases drawn.len() - i,
        {
            let l = drawn[i];
            let hit = if popup {
                l.popup_under
            } else {
                l.toplevel_under
            };
            assert(drawn@.skip(i as int)[0] == l);
            if let Some(hit) = hit {
                return Some(Target { surface: Some(hit), window: None, layer: Some(l.id) });
            }
            assert(drawn@.skip(i as int).skip(1) =~= drawn@.skip(i + 1));
            i = i + 1;
        }
        None
    }

    /// What a point on a window leads to.
    fn window_hit(window: Option<WindowHit>) -> (r: Option<Target>)
        ensures
            r == window_target(window),
    {
        match window {
            Some(hit) => {
                let surface = if let HitType::Input { .. } = hit.hit {
                    hit.surface
                } else {
                    None
                };
                Some(
                    Target {
                        surface,
                        window: Some(WindowUnder { window: hit.window, hit: hit.hit }),
                        layer: None,
                    },
                )
            },
            None => None,
        }
    }

    /// What the point leads to where the windows cover the top layer.
    fn under_windows_first(&self) -> (r: Option<Target>)
        requires
            self.render_above_top_layer,
            self.wf(),
        ensures
            r == desktop_target(*self),
    {
        proof {
            self.lemma_desktop_target();
        }
        let mut under = self.layer_surface_under(Layer::Overlay, true);
        if under.is_none() {
            under = self.layer_surface_under(Layer::Overlay, false);
        }
        if under.is_none() {
            under = Self::window_hit(self.moved_window_under);
        }
        if under.is_none() {
            under = Self::window_hit(self.window_under);
        }
        if under.is_none() {
            under = self.layer_surface_under(Layer::Top, true);
        }
        if under.is_none() {
            under = self.layer_surface_under(Layer::Top, false);
        }
        if under.is_none() {
            under = self.layer_surface_under(Layer::Bottom, true);
        }
        if under.is_none() {
            under = self.layer_surface_under(Layer::Background, true);
        }
        if under.is_none() {
            under = self.layer_surface_under(Layer::Bottom, false);
        }
        if under.is_none() {
            under = self.layer_surface_under(Layer::Background, false);
        }
        under
    }

    /// What the point leads to where the top layer covers the windows.
    fn under_top_layer_first(&self) -> (r: Option<Target>)
        requires
            !self.render_above_top_layer,
            self.wf(),
        ensures
            r == desktop_target(*self),
    {
        proof {
            self.lemma_desktop_target();
        }
        let mut under = self.layer_surface_under(Layer::Overlay, true);
        if under.is_none() {
            under = self.layer_surface_under(Layer::Overlay, false);
        }
        if under.is_none() {
            under = self.layer_surface_under(Layer::Top, true);
        }
        if under.is_none() {
            under = self.layer_surface_under(Layer::Top, false);
        }
        if under.is_none() {
            under = Self::window_hit(self.moved_window_under);
        }
        if !self.overview_open {
            if under.is_none() {
                under = self.layer_surface_under(Layer::Bottom, true);
            }
            if under.is_none() {
                under = self.layer_surface_under(Layer::Background, true);
            }
        }
        if under.is_none() {
            under = Self::window_hit(self.window_under);
        }
        if !self.overview_open {
            if under.is_none() {
                under = self.layer_surface_under(Layer::Bottom, false);
            }
            if under.is_none() {
                under = self.layer_surface_under(Layer::Background, false);
            }
        }
        under
    }
}

/// What lies under a point of an output.
pub open spec fn contents(niri: Niri, output: u64, view: OutputView) -> PointContents {
    let bare = PointContents { output: Some(output), ..PointContents::nothing() };
    if niri.exit_confirm_dialog_open {
        bare
    } else if niri.locked() {
        if niri.has_lock_surface(output) {
            PointContents { surface: view.lock_surface_under, ..bare }
        } else {
            bare
        }
    } else if niri.screenshot_ui is Open {
        bare
    } else if !view.render_above_top_layer && view.inside_hot_corner {
        PointContents { hot_corner: true, ..bare }
    } else {
        match desktop_target(view) {
            Some(target) => PointContents {
                surface: target.surface,
                window: target.window,
                layer: target.layer,
                ..bare
            },
            None => bare,
        }
    }
}

impl Niri {
    /// Whether a lock surface covers an output.
    pub open spec fn has_lock_surface(self, output: u64) -> bool {
        has_state(self.output_state@, output) && self.output_state@[state_index(
            self.output_state@,
            output,
        )].lock_surface is Some
    }

    /// What lies under a pixel.
    ///
    /// `view` is of the output that shows the pixel, and of the pixel there.
    pub fn contents_under(&self, pixel: Point, view: &OutputView) -> (r: PointContents)
        requires
            states_unique(self.output_state@),
            view.wf(),
        ensures
            r == match self.global_space.shown_on(pixel.x as int, pixel.y as int) {
                Some(output) => contents(*self, output.id, *view),
                None => PointContents::nothing(),
            },
    {
        let mut rv = PointContents::empty();
        let Some(output) = self.global_space.output_under(pixel) else {
            return rv;
        };
        rv.output = Some(output.id);
        if self.exit_confirm_dialog_open {
            return rv;
        } else if self.is_locked() {
            let Some(i) = find_state(&self.output_state, output.id) else {
                return rv;
            };
            if self.output_state[i].lock_surface.is_none() {
                return rv;
            }
            rv.surface = view.lock_surface_under;
            return rv;
        }
        if self.screenshot_ui.is_open() {
            return rv;
        }
        let under = if view.render_above_top_layer {
            view.under_windows_first()
        } else {
            if view.inside_hot_corner {
                rv.hot_corner = true;
                return rv;
            }
            view.under_top_layer_first()
        };
        if let Some(target) = under {
            rv.surface = target.surface;
            rv.window = target.window;
            rv.layer = target.layer;
        }
        rv
    }
}

proof fn lemma_no_layer_hit(drawn: Seq<LayerView>, popup: bool)
    requires
        forall|i: int| 0 <= i < drawn.len() ==> layer_target(#[trigger] drawn[i], popup) is None,
    ensures
        frontmost_layer(drawn, popup) is None,
    decreases drawn.len(),
{
    if drawn.len() > 0 {
        assert(layer_target(drawn[0], popup) is None);
        assert forall|i: int| 0 <= i < drawn.skip(1).len() implies layer_target(
            #[trigger] drawn.skip(1)[i],
            popup,
        ) is None by {
            assert(drawn.skip(1)[i] == drawn[i + 1]);
        }
        lemma_no_layer_hit(drawn.skip(1), popup);
    }
}

proof fn lemma_drawn_from(layers: Seq<LayerView>, layer: Layer, backdrop: bool, i: int)
    requires
        0 <= i < drawn_layers(layers, layer, backdrop).len(),
    ensures
        exists|k: int|
            0 <= k < layers.len() && #[trigger] layers[k] == drawn_layers(layers, layer, backdrop)[i],
    decreases layers.len(),
{
    let drawn = drawn_layers(layers, layer, backdrop);
    let rest = drawn_layers(layers.drop_last(), layer, backdrop);
    if drawn.len() == rest.len() {
        assert(drawn =~= rest);
        lemma_drawn_from(layers.drop_last(), layer, backdrop, i);
        let k = choose|k: int|
            0 <= k < layers.drop_last().len() && #[trigger] layers.drop_last()[k] == rest[i];
        assert(layers[k] == drawn[i]);
    } else if i == 0 {
        assert(layers[layers.len() - 1] == drawn[0]);
    } else {
        lemma_drawn_from(layers.drop_last(), layer, backdrop, i - 1);
        let k = choose|k: int|
            0 <= k < layers.drop_last().len() && #[trigger] layers.drop_last()[k] == rest[i - 1];
        assert(layers[k] == drawn[i]);
    }
}

impl OutputView {
    /// A layer that is nowhere under the point catches nothing.
    pub proof fn lemma_layer_silent(self, layer: Layer, popup: bool)
        requires
            forall|i: int|
                0 <= i < self.layers@.len() && (#[trigger] self.layers@[i]).layer == layer
                    && self.layers@[i].mapped ==> layer_target(self.layers@[i], popup) is None,
        ensures
            layer_catches(self, layer, popup) is None,
    {
        let drawn = drawn_layers(self.layers@, layer, false);
        lemma_drawn_layers(self.layers@, layer, false);
        assert forall|i: int| 0 <= i < drawn.len() implies layer_target(
            #[trigger] drawn[i],
            popup,
        ) is None by {
            lemma_drawn_from(self.layers@, layer, false, i);
            let k = choose|k: int|
                0 <= k < self.layers@.len() && #[trigger] self.layers@[k] == drawn[i];
            assert(self.layers@[k].layer == layer && self.layers@[k].mapped);
        }
        lemma_no_layer_hit(drawn, popup);
    }

    /// What the desktop leads to, thing by thing.
    pub proof fn lemma_desktop_target(self)
        requires
            self.wf(),
        ensures
            desktop_target(self) == or_else(
                layer_catches(self, Layer::Overlay, true),
                or_else(
                    layer_catches(self, Layer::Overlay, false),
                    if self.render_above_top_layer {
                        or_else(
                            window_target(self.moved_window_under),
                            or_else(
                                window_target(self.window_under),
                                or_else(
                                    layer_catches(self, Layer::Top, true),
                                    or_else(
                                        layer_catches(self, Layer::Top, false),
                                        or_else(
                                            layer_catches(self, Layer::Bottom, true),
                                            or_else(
                                                layer_catches(self, Layer::Background, true),
                                                or_else(
                                                    layer_catches(self, Layer::Bottom, false),
                                                    layer_catches(self, Layer::Background, false),
                                                ),
                                            ),
                                        ),
                                    ),
                                ),
                            ),
                        )
                    } else {
                        or_else(
                            layer_catches(self, Layer::Top, true),
                            or_else(
                                layer_catches(self, Layer::Top, false),
                                or_else(
                                    window_target(self.moved_window_under),
                                    or_else(
                                        lower_catches(self, true),
                                        or_else(
                                            window_target(self.window_under),
                                            lower_catches(self, false),
                                        ),
                                    ),
                                ),
                            ),
                        )
                    },
                ),
            ),
    {
        let overlay = popups(self.layers@, Layer::Overlay, false, None) + normals(
            self.layers@,
            Layer::Overlay,
            false,
            None,
        );
        lemma_overlay(self);
        lemma_desktop(self);
        if self.render_above_top_layer {
            lemma_windows_first(self, overlay);
        } else {
            lemma_top_layer_first(self, overlay);
        }
    }
}

/// A locked session draws nothing of itself: there are the pointer, the lock surface on its background,
/// and what the compositor itself has to say. A picture that was taken before can still fade away on top,
/// so this holds without one.
pub proof fn law_lock_hides_session(
    niri: Niri,
    view: OutputView,
    show_pointer: bool,
    lock_surface: Option<u64>,
    step: RenderStep,
)
    requires
        niri.locked(),
        render_order(niri, view, show_pointer, false, lock_surface).contains(step),
    ensures
        step is Pointer || step is ExitConfirmDialog || step is ConfigErrorNotification
            || step is LockSurface || step is LockBackground,
{
}

/// In a locked session the pointer finds no window, no layer surface and no hot corner, and no surface
/// but the lock surface.
pub proof fn law_lock_shields_pointer(niri: Niri, output: u64, view: OutputView)
    requires
        niri.locked(),
    ensures
        contents(niri, output, view).window is None,
        contents(niri, output, view).layer is None,
        !contents(niri, output, view).hot_corner,
        contents(niri, output, view).surface is Some ==> contents(niri, output, view).surface
            == view.lock_surface_under,
{
}

} // verus!
