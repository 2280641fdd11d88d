//! What clients are told about the frames that are shown: which of their surfaces they should draw
//! again, when a frame was shown, and what buffers suit it.
use vstd::prelude::*;

use crate::niri::redraw::{find_state, has_state, state_index, states_unique, OutputState};
use crate::niri::Niri;

verus! {

/// The root of some surfaces on an output.
#[derive(Clone, Copy, Debug, PartialEq, Eq, Structural)]
pub enum SurfaceRoot {
    Window(u64),
    Layer(u64),
    Lock(u64),
    /// The icon of what is being dragged.
    DndIcon(u64),
    Cursor(u64),
}

/// What is on an output.
#[derive(Debug)]
pub struct SurfacesView {
    /// The windows, without those on other outputs.
    pub windows: Vec<u64>,
    pub layers: Vec<u64>,
    /// The surface of the cursor, if it is not a named one.
    pub cursor: Option<u64>,
}

/// When a surface was last asked to draw.
#[derive(Clone, Copy, Debug, PartialEq, Eq, Structural)]
pub struct SentAt {
    pub output: u64,
    /// The refresh cycle of the output.
    pub sequence: u32,
}

/// What is kept of a surface to ask it not too often to draw.
#[derive(Clone, Copy, Debug, PartialEq, Eq, Structural)]
pub struct SurfaceFrameThrottlingState {
    pub last_sent_at: Option<SentAt>,
}

impl Default for SurfaceFrameThrottlingState {
    fn default() -> (r: SurfaceFrameThrottlingState)
        ensures
            r.last_sent_at is None,
    {
        SurfaceFrameThrottlingState { last_sent_at: None }
    }
}

impl SurfaceFrameThrottlingState {
    /// Whether a surface is asked to draw in a refresh cycle of an output: only on the output that
    /// counts for the surface, and once in a cycle.
    pub open spec fn due(self, primary: Option<u64>, output: u64, sequence: u32) -> bool {
        primary == Some(output) && self.last_sent_at != Some(SentAt { output, sequence })
    }

    /// Decides whether a surface is asked to draw, and remembers it if so. `primary` is the output that
    /// counts for the surface, if it can be seen at all.
    pub fn should_send(&mut self, primary: Option<u64>, output: u64, sequence: u32) -> (r: bool)
        ensures
            r == old(self).due(primary, output, sequence),
            *final(self) == (if r {
                SurfaceFrameThrottlingState { last_sent_at: Some(SentAt { output, sequence }) }
            } else {
                *old(self)
            }),
    {
        if primary != Some(output) {
            return false;
        }
        let send = !(self.last_sent_at == Some(SentAt { output, sequence }));
        if send {
            self.last_sent_at = Some(SentAt { output, sequence });
        }
        send
    }
}

/// A surface is asked once to draw in a refresh cycle of an output, so that it cannot keep the
/// compositor busy with frames in which nothing changes.
pub proof fn law_one_callback_per_cycle(
    throttle: SurfaceFrameThrottlingState,
    primary: Option<u64>,
    output: u64,
    sequence: u32,
)
    requires
        throttle.due(primary, output, sequence),
    ensures
        !(SurfaceFrameThrottlingState {
            last_sent_at: Some(SentAt { output, sequence }),
        }).due(primary, output, sequence),
{
}

/// The windows as roots.
pub open spec fn window_roots(windows: Seq<u64>) -> Seq<SurfaceRoot> {
    windows.map_values(|w: u64| SurfaceRoot::Window(w))
}

/// The layer surfaces as roots.
pub open spec fn layer_roots(layers: Seq<u64>) -> Seq<SurfaceRoot> {
    layers.map_values(|l: u64| SurfaceRoot::Layer(l))
}

/// The lock surface of an output as a root.
pub open spec fn lock_root(states: Seq<OutputState>, output: u64) -> Seq<SurfaceRoot> {
    match states[state_index(states, output)].lock_surface {
        Some(surface) => seq![SurfaceRoot::Lock(surface.surface)],
        None => Seq::empty(),
    }
}

/// The icon of what is being dragged as a root.
pub open spec fn dnd_root(icon: Option<u64>) -> Seq<SurfaceRoot> {
    match icon {
        Some(surface) => seq![SurfaceRoot::DndIcon(surface)],
        None => Seq::empty(),
    }
}

/// The cursor as a root.
pub open spec fn cursor_root(cursor: Option<u64>) -> Seq<SurfaceRoot> {
    match cursor {
        Some(surface) => seq![SurfaceRoot::Cursor(surface)],
        None => Seq::empty(),
    }
}

/// The surfaces that belong to an output alone.
pub open spec fn own_roots(niri: Niri, output: u64, view: SurfacesView) -> Seq<SurfaceRoot> {
    window_roots(view.windows@) + layer_roots(view.layers@) + lock_root(
        niri.output_state@,
        output,
    )
}

/// The surfaces that are told of a frame after those of the output alone.
pub open spec fn roots_pointer_last(niri: Niri, output: u64, view: SurfacesView) -> Seq<SurfaceRoot> {
    own_roots(niri, output, view) + dnd_root(niri.dnd_icon) + cursor_root(view.cursor)
}

/// The surfaces that are told of a frame before those of the output alone.
pub open spec fn roots_pointer_first(niri: Niri, output: u64, view: SurfacesView) -> Seq<SurfaceRoot> {
    cursor_root(view.cursor) + dnd_root(niri.dnd_icon) + own_roots(niri, output, view)
}

/// Adds windows.
fn push_windows(roots: &mut Vec<SurfaceRoot>, windows: &Vec<u64>)
    ensures
        final(roots)@ == old(roots)@ + window_roots(windows@),
{
    let ghost before = roots@;
    let mut i: usize = 0;
    assert(roots@ =~= before + window_roots(windows@.take(0)));
    while i < windows.len()
        invariant
            i <= windows@.len(),
            roots@ == before + window_roots(windows@.take(i as int)),
        decreases windows@.len() - i,
    {
        roots.push(SurfaceRoot::Window(windows[i]));
        assert(roots@ =~= before + window_roots(windows@.take(i + 1)));
        i = i + 1;
    }
    assert(windows@.take(i as int) =~= windows@);
}

/// Adds layer surfaces.
fn push_layers(roots: &mut Vec<SurfaceRoot>, layers: &Vec<u64>)
    ensures
        final(roots)@ == old(roots)@ + layer_roots(layers@),
{
    let ghost before = roots@;
    let mut i: usize = 0;
    assert(roots@ =~= before + layer_roots(layers@.take(0)));
    while i < layers.len()
        invariant
            i <= layers@.len(),
            roots@ == before + layer_roots(layers@.take(i as int)),
        decreases layers@.len() - i,
    {
        roots.push(SurfaceRoot::Layer(layers[i]));
        assert(roots@ =~= before + layer_roots(layers@.take(i + 1)));
        i = i + 1;
    }
    assert(layers@.take(i as int) =~= layers@);
}

/// Adds the icon of what is being dragged.
fn push_dnd(roots: &mut Vec<SurfaceRoot>, icon: Option<u64>)
    ensures
        final(roots)@ == old(roots)@ + dnd_root(icon),
{
    if let Some(surface) = icon {
        roots.push(SurfaceRoot::DndIcon(surface));
    }
    assert(roots@ =~= old(roots)@ + dnd_root(icon));
}

/// Adds the cursor.
fn push_cursor(roots: &mut Vec<SurfaceRoot>, cursor: Option<u64>)
    ensures
        final(roots)@ == old(roots)@ + cursor_root(cursor),
{
    if let Some(surface) = cursor {
        roots.push(SurfaceRoot::Cursor(surface));
    }
    assert(roots@ =~= old(roots)@ + cursor_root(cursor));
}

/// The layer surfaces of each output, each output's followed by its lock surface.
pub open spec fn layers_and_locks(states: Seq<OutputState>, layers: Seq<Vec<u64>>) -> Seq<SurfaceRoot>
    decreases states.len(),
{
    if states.len() == 0 {
        Seq::empty()
    } else {
        let own = match states.last().lock_surface {
            Some(surface) => seq![SurfaceRoot::Lock(surface.surface)],
            None => Seq::empty(),
        };
        layers_and_locks(states.drop_last(), layers) + layer_roots(
            layers[states.len() - 1]@,
        ) + own
    }
}

/// How it is decided on which of several outputs a surface counts.
#[derive(Clone, Copy, Debug, PartialEq, Eq, Structural)]
pub enum ScanoutRule {
    /// By comparing the outputs, since the surface can be on several.
    Compare,
    /// By taking the output at hand, since the surface is on no other.
    This,
}

/// How it is decided for the surfaces of a root: only what belongs to the pointer crosses outputs, and
/// a lock surface is treated likewise.
pub open spec fn scanout_rule(root: SurfaceRoot) -> ScanoutRule {
    match root {
        SurfaceRoot::Window(_) | SurfaceRoot::Layer(_) => ScanoutRule::This,
        _ => ScanoutRule::Compare,
    }
}

/// What is known of a window that is drawn through a picture of its own.
#[derive(Clone, Copy, Debug, PartialEq, Eq, Structural)]
pub struct OffscreenView {
    /// The picture.
    pub id: u64,
    /// Whether the surface was drawn into the picture.
    pub presented: bool,
}

/// By which element it is found out whether a surface of a window was shown: the picture that it was
/// drawn into, or itself if it was drawn into none.
pub fn scanout_element(surface: u64, offscreen: Option<OffscreenView>) -> (r: u64)
    ensures
        r == (match offscreen {
            Some(data) if data.presented => data.id,
            _ => surface,
        }),
{
    let mut id: u64 = surface;
    if let Some(data) = offscreen {
        if data.presented {
            id = data.id;
        }
    }
    id
}

impl Niri {
    /// Adds the surfaces that belong to an output alone.
    fn push_own(&self, roots: &mut Vec<SurfaceRoot>, output: u64, view: &SurfacesView)
        requires
            states_unique(self.output_state@),
            has_state(self.output_state@, output),
        ensures
            final(roots)@ == old(roots)@ + own_roots(*self, output, *view),
    {
        push_windows(roots, &view.windows);
        push_layers(roots, &view.layers);
        if let Some(i) = find_state(&self.output_state, output) {
            if let Some(surface) = self.output_state[i].lock_surface {
                roots.push(SurfaceRoot::Lock(surface.surface));
            }
        }
        assert(roots@ =~= old(roots)@ + own_roots(*self, output, *view));
    }

    /// The surfaces that are asked to draw after an output has shown a frame, in this order.
    pub fn send_frame_callbacks(&self, output: u64, view: &SurfacesView) -> (r: Vec<SurfaceRoot>)
        requires
            states_unique(self.output_state@),
            has_state(self.output_state@, output),
        ensures
            r@ == roots_pointer_last(*self, output, *view),
    {
        let mut roots: Vec<SurfaceRoot> = Vec::new();
        self.push_own(&mut roots, output, view);
        push_dnd(&mut roots, self.dnd_icon);
        push_cursor(&mut roots, view.cursor);
        assert(roots@ =~= roots_pointer_last(*self, output, *view));
        roots
    }

    /// The surfaces that are asked to draw if they have not been for a long time, though they may not be
    /// seen anywhere: all there are, in this order.
    ///
    /// `layers` holds the layer surfaces of each output.
    pub fn send_frame_callbacks_on_fallback_timer(
        &self,
        windows: &Vec<u64>,
        layers: &Vec<Vec<u64>>,
        cursor: Option<u64>,
    ) -> (r: Vec<SurfaceRoot>)
        requires
            layers@.len() == self.output_state@.len(),
        ensures
            r@ == window_roots(windows@) + layers_and_locks(self.output_state@, layers@) + dnd_root(
                self.dnd_icon,
            ) + cursor_root(cursor),
    {
        let mut roots: Vec<SurfaceRoot> = Vec::new();
        push_windows(&mut roots, windows);
        let mut i: usize = 0;
        assert(self.output_state@.take(0) =~= Seq::<OutputState>::empty());
        assert(roots@ =~= window_roots(windows@) + layers_and_locks(
            self.output_state@.take(0),
            layers@,
        ));
        while i < self.output_state.len()
            invariant
                i <= self.output_state@.len(),
                layers@.len() == self.output_state@.len(),
                roots@ == window_roots(windows@) + layers_and_locks(
                    self.output_state@.take(i as int),
                    layers@,
                ),
            decreases self.output_state@.len() - i,
        {
            assert(self.output_state@.take(i + 1).drop_last() =~= self.output_state@.take(i as int));
            push_layers(&mut roots, &layers[i]);
            if let Some(surface) = self.output_state[i].lock_surface {
                roots.push(SurfaceRoot::Lock(surface.surface));
            }
            i = i + 1;
            assert(roots@ =~= window_roots(windows@) + layers_and_locks(
                self.output_state@.take(i as int),
                layers@,
            ));
        }
        assert(self.output_state@.take(i as int) =~= self.output_state@);
        push_dnd(&mut roots, self.dnd_icon);
        push_cursor(&mut roots, cursor);
        roots
    }

    /// The surfaces that are told which buffers suit an output, in this order.
    pub fn send_dmabuf_feedbacks(&self, output: u64, view: &SurfacesView) -> (r: Vec<SurfaceRoot>)
        requires
            states_unique(self.output_state@),
            has_state(self.output_state@, output),
        ensures
            r@ == roots_pointer_last(*self, output, *view),
    {
        self.send_frame_callbacks(output, view)
    }

    /// The surfaces that wait to hear when an output shows a frame, in this order.
    pub fn take_presentation_feedbacks(&self, output: u64, view: &SurfacesView) -> (r: Vec<SurfaceRoot>)
        requires
            states_unique(self.output_state@),
            has_state(self.output_state@, output),
        ensures
            r@ == roots_pointer_first(*self, output, *view),
    {
        let mut roots: Vec<SurfaceRoot> = Vec::new();
        push_cursor(&mut roots, view.cursor);
        push_dnd(&mut roots, self.dnd_icon);
        self.push_own(&mut roots, output, view);
        assert(roots@ =~= roots_pointer_first(*self, output, *view));
        roots
    }

    /// The surfaces for which it is noted whether an output shows them, in this order, and how it is
    /// decided whether that output counts for them.
    pub fn update_primary_scanout_output(&self, output: u64, view: &SurfacesView) -> (r: Vec<(
        SurfaceRoot,
        ScanoutRule,
    )>)
        requires
            states_unique(self.output_state@),
            has_state(self.output_state@, output),
        ensures
            r@ == roots_pointer_first(*self, output, *view).map_values(
                |root: SurfaceRoot| (root, scanout_rule(root)),
            ),
    {
        let roots = self.take_presentation_feedbacks(output, view);
        let mut ruled: Vec<(SurfaceRoot, ScanoutRule)> = Vec::new();
        let mut i: usize = 0;
        while i < roots.len()
            invariant
                i <= roots@.len(),
                ruled@.len() == i,
                forall|k: int|
                    0 <= k < i ==> #[trigger] ruled@[k] == (roots@[k], scanout_rule(roots@[k])),
            decreases roots@.len() - i,
        {
            let root = roots[i];
            let rule = match root {
                SurfaceRoot::Window(_) | SurfaceRoot::Layer(_) => ScanoutRule::This,
                _ => ScanoutRule::Compare,
            };
            ruled.push((root, rule));
            i = i + 1;
        }
        assert(ruled@ =~= roots@.map_values(|root: SurfaceRoot| (root, scanout_rule(root))));
        ruled
    }
}

/// Nobody is left out: whoever is asked to draw is also told when the frame is shown, and the other way
/// round.
pub proof fn law_same_surfaces_are_told(
    niri: Niri,
    output: u64,
    view: SurfacesView,
    root: SurfaceRoot,
)
    ensures
        roots_pointer_last(niri, output, view).contains(root) <==> roots_pointer_first(
            niri,
            output,
            view,
        ).contains(root),
{
    let own = own_roots(niri, output, view);
    let dnd = dnd_root(niri.dnd_icon);
    let cursor = cursor_root(view.cursor);
    lemma_contains_either(own + dnd, cursor, root);
    lemma_contains_either(own, dnd, root);
    lemma_contains_either(cursor + dnd, own, root);
    lemma_contains_either(cursor, dnd, root);
}

/// What is in one list after another is in one of them.
proof fn lemma_contains_either(a: Seq<SurfaceRoot>, b: Seq<SurfaceRoot>, root: SurfaceRoot)
    ensures
        (a + b).contains(root) <==> a.contains(root) || b.contains(root),
{
    let both = a + b;
    if both.contains(root) {
        let i = both.index_of(root);
        if i < a.len() {
            assert(a[i] == root);
        } else {
            assert(b[i - a.len()] == root);
        }
    }
    if a.contains(root) {
        assert(both[a.index_of(root)] == root);
    }
    if b.contains(root) {
        assert(both[a.len() + b.index_of(root)] == root);
    }
}

} // verus!
