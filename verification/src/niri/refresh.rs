//! What is done in every round of the event loop, and what follows from it.
use vstd::prelude::*;

use crate::niri::outputs::all_queued;
use crate::niri::redraw::OutputState;
use crate::niri::{Niri, State};

verus! {

/// Something that is done in every round of the event loop.
#[derive(Clone, Copy, Debug, PartialEq, Eq, Structural)]
pub enum RefreshStep {
    /// Let surfaces commit that had to wait.
    NotifyBlockerCleared,
    CleanupPopups,
    RefreshPopupGrab,
    UpdateKeyboardFocus,
    RefreshWindowStates,
    RefreshLayout,
    CheckCursorSurface,
    RefreshPointerOutputs,
    RefreshSpace,
    RefreshPointerContents,
    RefreshWindowRules,
    RefreshIpcOutputs,
    RefreshIpcLayout,
    RefreshIpcKeyboardLayout,
    AdvanceAnimations,
    RedrawQueuedOutputs,
    FlushClients,
    /// Let the time be looked up again.
    ClearClock,
}

/// The steps by which everything is brought up to date.
pub open spec fn refresh_steps() -> Seq<RefreshStep> {
    seq![
        RefreshStep::NotifyBlockerCleared,
        RefreshStep::CleanupPopups,
        RefreshStep::RefreshPopupGrab,
        RefreshStep::UpdateKeyboardFocus,
        RefreshStep::RefreshWindowStates,
        RefreshStep::RefreshLayout,
        RefreshStep::CheckCursorSurface,
        RefreshStep::RefreshPointerOutputs,
        RefreshStep::RefreshSpace,
        RefreshStep::RefreshPointerContents,
        RefreshStep::RefreshWindowRules,
        RefreshStep::RefreshIpcOutputs,
        RefreshStep::RefreshIpcLayout,
        RefreshStep::RefreshIpcKeyboardLayout,
    ]
}

/// All steps of a round: everything is brought up to date, drawn and sent.
pub open spec fn round_steps() -> Seq<RefreshStep> {
    refresh_steps() + seq![
        RefreshStep::AdvanceAnimations,
        RefreshStep::RedrawQueuedOutputs,
        RefreshStep::FlushClients,
        RefreshStep::ClearClock,
    ]
}

/// Whether a step comes before another, and both are taken.
pub open spec fn comes_before(steps: Seq<RefreshStep>, a: RefreshStep, b: RefreshStep) -> bool {
    exists|i: int, j: int|
        0 <= i < j < steps.len() && #[trigger] steps[i] == a && #[trigger] steps[j] == b
}

impl State {
    /// The steps by which everything is brought up to date.
    pub fn refresh() -> (r: Vec<RefreshStep>)
        ensures
            r@ == refresh_steps(),
    {
        let mut steps: Vec<RefreshStep> = Vec::new();
        steps.push(RefreshStep::NotifyBlockerCleared);
        steps.push(RefreshStep::CleanupPopups);
        steps.push(RefreshStep::RefreshPopupGrab);
        steps.push(RefreshStep::UpdateKeyboardFocus);
        steps.push(RefreshStep::RefreshWindowStates);
        steps.push(RefreshStep::RefreshLayout);
        steps.push(RefreshStep::CheckCursorSurface);
        steps.push(RefreshStep::RefreshPointerOutputs);
        steps.push(RefreshStep::RefreshSpace);
        steps.push(RefreshStep::RefreshPointerContents);
        steps.push(RefreshStep::RefreshWindowRules);
        steps.push(RefreshStep::RefreshIpcOutputs);
        steps.push(RefreshStep::RefreshIpcLayout);
        steps.push(RefreshStep::RefreshIpcKeyboardLayout);
        assert(steps@ =~= refresh_steps());
        steps
    }

    /// All steps of a round.
    pub fn refresh_and_flush_clients() -> (r: Vec<RefreshStep>)
        ensures
            r@ == round_steps(),
    {
        let mut steps = State::refresh();
        steps.push(RefreshStep::AdvanceAnimations);
        steps.push(RefreshStep::RedrawQueuedOutputs);
        steps.push(RefreshStep::FlushClients);
        steps.push(RefreshStep::ClearClock);
        assert(steps@ =~= round_steps());
        steps
    }

    /// The output that gets the focus at the start: the first one that is configured to and is there,
    /// or else the first one in order. `configured` are the outputs that are configured to, as far as
    /// they are there.
    pub fn focus_default_monitor(&self, configured: &Vec<Option<u64>>) -> (r: Option<u64>)
        ensures
            r == default_monitor(self.niri.global_space.sorted@, configured@),
    {
        if self.niri.global_space.sorted.len() == 0 {
            return None;
        }
        let mut i: usize = 0;
        assert(configured@.skip(0) =~= configured@);
        while i < configured.len()
            invariant
                i <= configured@.len(),
                first_found(configured@) == first_found(configured@.skip(i as int)),
                self.niri.global_space.sorted@.len() > 0,
            decreases configured@.len() - i,
        {
            let ghost rest = configured@.skip(i as int);
            assert(rest[0] == configured@[i as int]);
            assert(rest.skip(1) =~= configured@.skip(i + 1));
            if let Some(output) = configured[i] {
                return Some(output);
            }
            i = i + 1;
        }
        assert(configured@.skip(i as int) =~= Seq::<Option<u64>>::empty());
        Some(self.niri.global_space.sorted[0])
    }
}

/// The first that was found.
pub open spec fn first_found(found: Seq<Option<u64>>) -> Option<u64>
    decreases found.len(),
{
    if found.len() == 0 {
        None
    } else if found[0] is Some {
        found[0]
    } else {
        first_found(found.skip(1))
    }
}

/// The output that gets the focus at the start.
pub open spec fn default_monitor(sorted: Seq<u64>, configured: Seq<Option<u64>>) -> Option<u64> {
    if sorted.len() == 0 {
        None
    } else if first_found(configured) is Some {
        first_found(configured)
    } else {
        Some(sorted[0])
    }
}

/// A layer surface on an output.
#[derive(Clone, Copy, Debug, PartialEq, Eq, Structural)]
pub struct PlacedLayer {
    pub id: u64,
    pub output: u64,
    pub mapped: bool,
    /// Whether it was given a place on the output.
    pub has_geometry: bool,
}

/// The outputs with a screen transition, of all or only one.
pub open spec fn transitions_on(states: Seq<OutputState>, output: Option<u64>) -> Seq<u64>
    decreases states.len(),
{
    if states.len() == 0 {
        Seq::empty()
    } else {
        let before = transitions_on(states.drop_last(), output);
        let last = states.last();
        if last.screen_transition && (output is None || output == Some(last.id)) {
            before.push(last.id)
        } else {
            before
        }
    }
}

/// The layer surfaces that can be drawn, on all outputs or only one.
pub open spec fn layers_on(layers: Seq<PlacedLayer>, output: Option<u64>) -> Seq<u64>
    decreases layers.len(),
{
    if layers.len() == 0 {
        Seq::empty()
    } else {
        let before = layers_on(layers.drop_last(), output);
        let last = layers.last();
        if (output is None || output == Some(last.output)) && last.mapped && last.has_geometry {
            before.push(last.id)
        } else {
            before
        }
    }
}

impl Niri {
    /// The output that the surfaces of a root are on: that of the window, which can be on none, or else
    /// the first one that has the root as a layer surface.
    ///
    /// `window_output` is missing if the root is no window.
    pub fn output_for_root(window_output: Option<Option<u64>>, layers: &Vec<Option<u64>>) -> (r: Option<
        u64,
    >)
        ensures
            r == (match window_output {
                Some(output) => output,
                None => first_found(layers@),
            }),
    {
        if let Some(output) = window_output {
            return output;
        }
        let mut i: usize = 0;
        assert(layers@.skip(0) =~= layers@);
        while i < layers.len()
            invariant
                i <= layers@.len(),
                first_found(layers@) == first_found(layers@.skip(i as int)),
                window_output is None,
            decreases layers@.len() - i,
        {
            let ghost rest = layers@.skip(i as int);
            assert(rest[0] == layers@[i as int]);
            assert(rest.skip(1) =~= layers@.skip(i + 1));
            if layers[i].is_some() {
                return layers[i];
            }
            i = i + 1;
        }
        assert(layers@.skip(i as int) =~= Seq::<Option<u64>>::empty());
        None
    }

    /// The root of a surface that the shell knows of: for a surface of a pop-up, the root of the
    /// pop-up's own parents, if that can be found.
    ///
    /// `root` is the root of the tree that the surface belongs to, and `popup` what is known of that
    /// root as a pop-up.
    pub fn find_root_shell_surface(surface: u64, root: Option<u64>, popup: Option<Option<u64>>) -> (r: u64)
        ensures
            r == (match (root, popup) {
                (None, _) => surface,
                (Some(_), Some(Some(popup_root))) => popup_root,
                (Some(root), _) => root,
            }),
    {
        let Some(root) = root else {
            return surface;
        };
        if let Some(found) = popup {
            return match found {
                Some(popup_root) => popup_root,
                None => root,
            };
        }
        root
    }

    /// Ends the screen transitions that have come to their end. `done` says so for each output.
    pub fn advance_animations(&mut self, done: &Vec<bool>)
        requires
            done@.len() == old(self).output_state@.len(),
        ensures
            final(self).output_state@.len() == old(self).output_state@.len(),
            forall|i: int|
                0 <= i < old(self).output_state@.len() ==> #[trigger] final(self).output_state@[i]
                    == (OutputState {
                    screen_transition: old(self).output_state@[i].screen_transition && !done@[i],
                    ..old(self).output_state@[i]
                }),
            *final(self) == (Niri { output_state: final(self).output_state, ..*old(self) }),
    {
        let ghost before = self.output_state@;
        let mut i: usize = 0;
        while i < self.output_state.len()
            invariant
                i <= self.output_state@.len(),
                before == old(self).output_state@,
                done@.len() == before.len(),
                self.output_state@.len() == before.len(),
                forall|k: int|
                    0 <= k < i ==> #[trigger] self.output_state@[k] == (OutputState {
                        screen_transition: before[k].screen_transition && !done@[k],
                        ..before[k]
                    }),
                forall|k: int|
                    i <= k < before.len() ==> #[trigger] self.output_state@[k] == before[k],
                *self == (Niri { output_state: self.output_state, ..*old(self) }),
            decreases self.output_state@.len() - i,
        {
            if done[i] {
                let mut state = self.output_state[i];
                state.screen_transition = false;
                self.output_state.set(i, state);
            }
            i = i + 1;
        }
    }

    /// What is brought up to date before an output is drawn, or before all are: the screen transitions,
    /// by their outputs, and the layer surfaces that are mapped and have a place.
    pub fn update_render_elements(&self, output: Option<u64>, layers: &Vec<PlacedLayer>) -> (r: (
        Vec<u64>,
        Vec<u64>,
    ))
        ensures
            r.0@ == transitions_on(self.output_state@, output),
            r.1@ == layers_on(layers@, output),
    {
        let mut transitions: Vec<u64> = Vec::new();
        let mut i: usize = 0;
        assert(self.output_state@.take(0) =~= Seq::<OutputState>::empty());
        while i < self.output_state.len()
            invariant
                i <= self.output_state@.len(),
                transitions@ == transitions_on(self.output_state@.take(i as int), output),
            decreases self.output_state@.len() - i,
        {
            assert(self.output_state@.take(i + 1).drop_last() =~= self.output_state@.take(
                i as int,
            ));
            let state = self.output_state[i];
            if state.screen_transition && (output.is_none() || output == Some(state.id)) {
                transitions.push(state.id);
            }
            i = i + 1;
        }
        assert(self.output_state@.take(i as int) =~= self.output_state@);
        let mut updated: Vec<u64> = Vec::new();
        let mut k: usize = 0;
        assert(layers@.take(0) =~= Seq::<PlacedLayer>::empty());
        while k < layers.len()
            invariant
                k <= layers@.len(),
                updated@ == layers_on(layers@.take(k as int), output),
            decreases layers@.len() - k,
        {
            assert(layers@.take(k + 1).drop_last() =~= layers@.take(k as int));
            let layer = layers[k];
            if (output.is_none() || output == Some(layer.output)) && layer.mapped
                && layer.has_geometry {
                updated.push(layer.id);
            }
            k = k + 1;
        }
        assert(layers@.take(k as int) =~= layers@);
        (transitions, updated)
    }

    /// Asks for a redraw of everything if the rules came to something else for any window. `changed`
    /// says so for each.
    pub fn recompute_window_rules(&mut self, changed: &Vec<bool>)
        ensures
            final(self).output_state@ == (if changed@.contains(true) {
                all_queued(old(self).output_state@)
            } else {
                old(self).output_state@
            }),
            *final(self) == (Niri { output_state: final(self).output_state, ..*old(self) }),
    {
        if any_of(changed) {
            self.queue_redraw_all();
        }
    }

    /// Asks for a redraw of everything if the rules came to something else for any layer surface.
    /// `changed` says so for each.
    pub fn recompute_layer_rules(&mut self, changed: &Vec<bool>)
        ensures
            final(self).output_state@ == (if changed@.contains(true) {
                all_queued(old(self).output_state@)
            } else {
                old(self).output_state@
            }),
            *final(self) == (Niri { output_state: final(self).output_state, ..*old(self) }),
    {
        if any_of(changed) {
            self.queue_redraw_all();
        }
    }

    /// The first output that a name is for. `matches` says of each output whether the name is for it.
    pub fn output_by_name_match(&self, matches: &Vec<bool>) -> (r: Option<u64>)
        requires
            matches@.len() == self.global_space.outputs@.len(),
        ensures
            match r {
                Some(output) => exists|i: int|
                    0 <= i < matches@.len() && matches@[i] && (forall|k: int|
                        0 <= k < i ==> !#[trigger] matches@[k]) && output == (
                    #[trigger] self.global_space.outputs@[i]).id,
                None => !matches@.contains(true),
            },
    {
        let mut i: usize = 0;
        while i < matches.len()
            invariant
                i <= matches@.len(),
                matches@.len() == self.global_space.outputs@.len(),
                forall|k: int| 0 <= k < i ==> !#[trigger] matches@[k],
            decreases matches@.len() - i,
        {
            if matches[i] {
                assert(self.global_space.outputs@[i as int].id
                    == self.global_space.outputs@[i as int].id);
                return Some(self.global_space.outputs[i].id);
            }
            i = i + 1;
        }
        None
    }

    /// Asks for a redraw of the outputs that have a window for which rules came to something else.
    pub fn refresh_window_rules(&mut self, outputs: &Vec<u64>)
        ensures
            final(self).output_state@ == old(self).output_state@.map_values(
                |s: OutputState|
                    if outputs@.contains(s.id) {
                        s.queued()
                    } else {
                        s
                    },
            ),
            *final(self) == (Niri { output_state: final(self).output_state, ..*old(self) }),
    {
        let ghost before = self.output_state@;
        let mut i: usize = 0;
        while i < self.output_state.len()
            invariant
                i <= self.output_state@.len(),
                before == old(self).output_state@,
                self.output_state@.len() == before.len(),
                forall|k: int|
                    0 <= k < i ==> #[trigger] self.output_state@[k] == (if outputs@.contains(
                        before[k].id,
                    ) {
                        before[k].queued()
                    } else {
                        before[k]
                    }),
                forall|k: int|
                    i <= k < before.len() ==> #[trigger] self.output_state@[k] == before[k],
                *self == (Niri { output_state: self.output_state, ..*old(self) }),
            decreases self.output_state@.len() - i,
        {
            let mut state = self.output_state[i];
            if has_id(outputs, state.id) {
                state.redraw_state = state.redraw_state.queue_redraw();
                self.output_state.set(i, state);
            }
            i = i + 1;
        }
    }

    /// Notes that the start was some time ago, so that rules for the start no longer count.
    pub fn startup_over(&mut self)
        ensures
            *final(self) == (Niri { is_at_startup: false, ..*old(self) }),
    {
        self.is_at_startup = false;
    }
}

/// Whether any of them is so.
fn any_of(flags: &Vec<bool>) -> (r: bool)
    ensures
        r == flags@.contains(true),
{
    let mut i: usize = 0;
    while i < flags.len()
        invariant
            i <= flags@.len(),
            forall|k: int| 0 <= k < i ==> !#[trigger] flags@[k],
        decreases flags@.len() - i,
    {
        if flags[i] {
            return true;
        }
        i = i + 1;
    }
    false
}

/// Looks for something in a list by its id.
pub(crate) fn has_id(list: &Vec<u64>, id: u64) -> (r: bool)
    ensures
        r == list@.contains(id),
{
    let mut i: usize = 0;
    while i < list.len()
        invariant
            i <= list@.len(),
            forall|k: int| 0 <= k < i ==> #[trigger] list@[k] != id,
        decreases list@.len() - i,
    {
        if list[i] == id {
            return true;
        }
        i = i + 1;
    }
    false
}

/// The order of the steps: surfaces commit before the layout looks at them, the layout knows who has
/// the focus and how windows are tiled, rules are looked at after the layout, and all of that comes
/// before drawing, which comes before clients hear of it.
pub proof fn law_order_of_a_round()
    ensures
        comes_before(
            round_steps(),
            RefreshStep::NotifyBlockerCleared,
            RefreshStep::RefreshLayout,
        ),
        comes_before(
            round_steps(),
            RefreshStep::RefreshPopupGrab,
            RefreshStep::UpdateKeyboardFocus,
        ),
        comes_before(round_steps(), RefreshStep::UpdateKeyboardFocus, RefreshStep::RefreshLayout),
        comes_before(round_steps(), RefreshStep::RefreshWindowStates, RefreshStep::RefreshLayout),
        comes_before(round_steps(), RefreshStep::RefreshLayout, RefreshStep::RefreshWindowRules),
        comes_before(round_steps(), RefreshStep::RefreshWindowRules, RefreshStep::AdvanceAnimations),
        comes_before(round_steps(), RefreshStep::AdvanceAnimations, RefreshStep::RedrawQueuedOutputs),
        comes_before(round_steps(), RefreshStep::RedrawQueuedOutputs, RefreshStep::FlushClients),
{
    let steps = round_steps();
    assert(steps[0] == RefreshStep::NotifyBlockerCleared);
    assert(steps[2] == RefreshStep::RefreshPopupGrab);
    assert(steps[3] == RefreshStep::UpdateKeyboardFocus);
    assert(steps[4] == RefreshStep::RefreshWindowStates);
    assert(steps[5] == RefreshStep::RefreshLayout);
    assert(steps[10] == RefreshStep::RefreshWindowRules);
    assert(steps[14] == RefreshStep::AdvanceAnimations);
    assert(steps[15] == RefreshStep::RedrawQueuedOutputs);
    assert(steps[16] == RefreshStep::FlushClients);
}

/// What is brought up to date on an output is just what is on it and can be drawn.
pub proof fn law_layers_on_output(layers: Seq<PlacedLayer>, output: Option<u64>, id: u64)
    ensures
        layers_on(layers, output).contains(id) <==> exists|i: int|
            0 <= i < layers.len() && (#[trigger] layers[i]).id == id && layers[i].mapped
                && layers[i].has_geometry && (output matches Some(o) ==> layers[i].output == o),
    decreases layers.len(),
{
    if layers.len() > 0 {
        let shorter = layers.drop_last();
        let last = layers.last();
        let before = layers_on(shorter, output);
        let all = layers_on(layers, output);
        law_layers_on_output(shorter, output, id);
        assert(layers[layers.len() - 1] == last);
        if before.contains(id) {
            let i = choose|i: int|
                0 <= i < shorter.len() && (#[trigger] shorter[i]).id == id && shorter[i].mapped
                    && shorter[i].has_geometry && (output matches Some(o) ==> shorter[i].output == o);
            assert(layers[i] == shorter[i]);
            assert(all[before.index_of(id)] == id);
        }
        if all.len() > before.len() {
            assert(all[before.len() as int] == last.id);
        }
        if all.contains(id) {
            let k = all.index_of(id);
            if k < before.len() {
                assert(before[k] == id);
            }
        }
        if exists|i: int|
            0 <= i < layers.len() && (#[trigger] layers[i]).id == id && layers[i].mapped
                && layers[i].has_geometry && (output matches Some(o) ==> layers[i].output == o) {
            let i = choose|i: int|
                0 <= i < layers.len() && (#[trigger] layers[i]).id == id && layers[i].mapped
                    && layers[i].has_geometry && (output matches Some(o) ==> layers[i].output == o);
            if i < shorter.len() {
                assert(shorter[i] == layers[i]);
            }
        }
    } else {
        assert(!layers_on(layers, output).contains(id));
    }
}

/// At the start the focus goes to the first of the outputs that are configured for that and are there, or else
/// to the first output of all.
pub proof fn law_default_monitor(sorted: Seq<u64>, configured: Seq<Option<u64>>, i: int)
    requires
        sorted.len() > 0,
        0 <= i <= configured.len(),
        forall|j: int| 0 <= j < i ==> (#[trigger] configured[j]) is None,
    ensures
        i < configured.len() && configured[i] is Some ==> default_monitor(sorted, configured)
            == configured[i],
        i == configured.len() ==> default_monitor(sorted, configured) == Some(sorted[0]),
{
    lemma_first_found(configured, i);
}

/// What comes before the first that is there does not count.
proof fn lemma_first_found(found: Seq<Option<u64>>, i: int)
    requires
        0 <= i <= found.len(),
        forall|j: int| 0 <= j < i ==> (#[trigger] found[j]) is None,
    ensures
        i < found.len() && found[i] is Some ==> first_found(found) == found[i],
        i == found.len() ==> first_found(found) is None,
    decreases found.len(),
{
    if i > 0 {
        let rest = found.skip(1);
        assert(found[0] is None);
        assert forall|j: int| 0 <= j < i - 1 implies (#[trigger] rest[j]) is None by {
            assert(rest[j] == found[j + 1]);
        }
        lemma_first_found(rest, i - 1);
    }
}

} // verus!
