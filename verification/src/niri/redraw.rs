//! When an output is redrawn.
use vstd::prelude::*;

use crate::niri::Niri;

verus! {

/// What an output waits for.
#[derive(Clone, Copy, Debug, PartialEq, Eq, Structural)]
pub enum RedrawState {
    /// The compositor is idle.
    Idle,
    /// A redraw is queued.
    Queued,
    /// A frame was submitted and waits to be presented.
    WaitingForVBlank { redraw_needed: bool },
    /// Nothing was submitted; a timer fires when the next presentation would be.
    WaitingForEstimatedVBlank(u64),
    /// A redraw is queued on top of the above.
    WaitingForEstimatedVBlankAndQueued(u64),
}

/// What an output displays while the session is being locked.
#[derive(Clone, Copy, Debug, PartialEq, Eq, Structural)]
pub enum LockRenderState {
    /// The output displays a normal session frame.
    Unlocked,
    /// The output displays a locked frame.
    Locked,
}

/// What is kept for every connected output.
#[derive(Clone, Copy, Debug, PartialEq, Eq, Structural)]
pub struct OutputState {
    pub id: u64,
    pub redraw_state: RedrawState,
    /// Whether animations went on after the last redraw.
    pub unfinished_animations_remain: bool,
    /// Counts refresh cycles, so that a surface gets one frame callback in each.
    pub frame_callback_sequence: u32,
    pub lock_render_state: LockRenderState,
    pub lock_surface: Option<LockSurface>,
    /// Whether a screen transition is being shown.
    pub screen_transition: bool,
}

/// The surface that a screen locker shows on an output.
#[derive(Clone, Copy, Debug, PartialEq, Eq, Structural)]
pub struct LockSurface {
    pub surface: u64,
    pub client: u64,
}

impl RedrawState {
    /// The state after a redraw was asked for.
    pub open spec fn queued(self) -> RedrawState {
        match self {
            RedrawState::Idle => RedrawState::Queued,
            RedrawState::Queued => self,
            RedrawState::WaitingForVBlank { .. } => RedrawState::WaitingForVBlank {
                redraw_needed: true,
            },
            RedrawState::WaitingForEstimatedVBlank(
                token,
            ) => RedrawState::WaitingForEstimatedVBlankAndQueued(token),
            RedrawState::WaitingForEstimatedVBlankAndQueued(_) => self,
        }
    }

    /// Whether a redraw is due now.
    pub open spec fn due(self) -> bool {
        self is Queued || self is WaitingForEstimatedVBlankAndQueued
    }

    /// The timer that the state waits for.
    pub open spec fn timer(self) -> Option<u64> {
        match self {
            RedrawState::WaitingForEstimatedVBlank(token) => Some(token),
            RedrawState::WaitingForEstimatedVBlankAndQueued(token) => Some(token),
            _ => None,
        }
    }

    /// Asks for a redraw.
    pub fn queue_redraw(self) -> (r: RedrawState)
        ensures
            r == self.queued(),
    {
        match self {
            RedrawState::Idle => RedrawState::Queued,
            RedrawState::WaitingForEstimatedVBlank(
                token,
            ) => RedrawState::WaitingForEstimatedVBlankAndQueued(token),
            RedrawState::Queued | RedrawState::WaitingForEstimatedVBlankAndQueued(_) => self,
            RedrawState::WaitingForVBlank { .. } => RedrawState::WaitingForVBlank {
                redraw_needed: true,
            },
        }
    }
}

/// Asking twice for a redraw is asking once, and no timer gets lost by it.
pub proof fn law_queue_redraw_idempotent(state: RedrawState)
    ensures
        state.queued().queued() == state.queued(),
        state.queued().timer() == state.timer(),
        state.queued().due() || state.queued() == (RedrawState::WaitingForVBlank {
            redraw_needed: true,
        }),
{
}

/// The states of the outputs after a redraw of some of them was asked for.
pub open spec fn queued_among(states: Seq<OutputState>, outputs: Seq<u64>) -> Seq<OutputState> {
    states.map_values(
        |s: OutputState|
            if outputs.contains(s.id) {
                s.queued()
            } else {
                s
            },
    )
}

impl OutputState {
    /// The state after a redraw of the output was asked for.
    pub open spec fn queued(self) -> OutputState {
        OutputState { redraw_state: self.redraw_state.queued(), ..self }
    }
}

/// The place of an output among the kept states.
pub open spec fn state_index(states: Seq<OutputState>, output: u64) -> int {
    choose|i: int| 0 <= i < states.len() && (#[trigger] states[i]).id == output
}

/// Whether there is a state for an output.
pub open spec fn has_state(states: Seq<OutputState>, output: u64) -> bool {
    exists|i: int| 0 <= i < states.len() && (#[trigger] states[i]).id == output
}

/// Whether every output has one state at most.
pub open spec fn states_unique(states: Seq<OutputState>) -> bool {
    forall|i: int, j: int|
        0 <= i < j < states.len() ==> (#[trigger] states[i]).id != (#[trigger] states[j]).id
}

/// Whether every output displays a locked frame.
pub open spec fn all_locked(states: Seq<OutputState>) -> bool {
    forall|i: int|
        0 <= i < states.len() ==> (#[trigger] states[i]).lock_render_state
            == LockRenderState::Locked
}

/// What goes on that needs another frame.
#[derive(Clone, Copy, Debug, PartialEq, Eq, Structural)]
pub struct OngoingAnimations {
    pub layout: bool,
    pub config_error_notification: bool,
    pub exit_confirm_dialog: bool,
    pub screenshot_ui: bool,
    pub cursor: bool,
    pub layer_surfaces: bool,
}

impl OngoingAnimations {
    /// Whether anything goes on.
    pub open spec fn any(self) -> bool {
        self.layout || self.config_error_notification || self.exit_confirm_dialog
            || self.screenshot_ui || self.cursor || self.layer_surfaces
    }
}

/// The state of an output that has one is found.
proof fn lemma_state_index(states: Seq<OutputState>, output: u64)
    requires
        has_state(states, output),
    ensures
        0 <= state_index(states, output) < states.len(),
        states[state_index(states, output)].id == output,
{
}

/// Finds the state of an output.
pub fn find_state(states: &Vec<OutputState>, output: u64) -> (r: Option<usize>)
    requires
        states_unique(states@),
    ensures
        r is Some <==> has_state(states@, output),
        r matches Some(i) ==> i < states@.len() && i == state_index(states@, output)
            && states@[i as int].id == output,
{
    let mut i: usize = 0;
    while i < states.len()
        invariant
            states_unique(states@),
            i <= states.len(),
            forall|k: int| 0 <= k < i ==> (#[trigger] states@[k]).id != output,
        decreases states.len() - i,
    {
        if states[i].id == output {
            assert(states@[i as int].id == output);
            return Some(i);
        }
        i = i + 1;
    }
    None
}

impl Niri {
    /// Asks for a redraw of all outputs.
    pub fn queue_redraw_all(&mut self)
        ensures
            final(self).output_state@ == old(self).output_state@.map_values(
                |s: OutputState| s.queued(),
            ),
            *final(self) == (Niri { output_state: final(self).output_state, ..*old(self) }),
    {
        let mut i: usize = 0;
        while i < self.output_state.len()
            invariant
                i <= self.output_state@.len(),
                self.output_state@.len() == old(self).output_state@.len(),
                forall|k: int|
                    0 <= k < i ==> #[trigger] self.output_state@[k] == old(
                        self,
                    ).output_state@[k].queued(),
                forall|k: int|
                    i <= k < self.output_state@.len() ==> #[trigger] self.output_state@[k] == old(
                        self,
                    ).output_state@[k],
                *self == (Niri { output_state: self.output_state, ..*old(self) }),
            decreases self.output_state.len() - i,
        {
            let mut state = self.output_state[i];
            state.redraw_state = state.redraw_state.queue_redraw();
            self.output_state.set(i, state);
            i = i + 1;
        }
    }

    /// Asks for a redraw of one output.
    pub fn queue_redraw(&mut self, output: u64)
        requires
            states_unique(old(self).output_state@),
            has_state(old(self).output_state@, output),
        ensures
            ({
                let states = old(self).output_state@;
                let i = state_index(states, output);
                final(self).output_state@ == states.update(i, states[i].queued())
            }),
            *final(self) == (Niri { output_state: final(self).output_state, ..*old(self) }),
    {
        if let Some(i) = find_state(&self.output_state, output) {
            let mut state = self.output_state[i];
            state.redraw_state = state.redraw_state.queue_redraw();
            self.output_state.set(i, state);
        }
    }

    /// Asks for a redraw of some outputs.
    pub fn queue_redraw_of(&mut self, outputs: &Vec<u64>)
        requires
            states_unique(old(self).output_state@),
            forall|i: int|
                0 <= i < outputs@.len() ==> has_state(
                    old(self).output_state@,
                    #[trigger] outputs@[i],
                ),
        ensures
            final(self).output_state@ == queued_among(old(self).output_state@, outputs@),
            *final(self) == (Niri { output_state: final(self).output_state, ..*old(self) }),
    {
        let ghost before = self.output_state@;
        let mut i: usize = 0;
        assert(self.output_state@ =~= queued_among(before, outputs@.take(0)));
        while i < outputs.len()
            invariant
                i <= outputs@.len(),
                states_unique(before),
                forall|k: int|
                    0 <= k < outputs@.len() ==> has_state(before, #[trigger] outputs@[k]),
                self.output_state@ == queued_among(before, outputs@.take(i as int)),
                *self == (Niri { output_state: self.output_state, ..*old(self) }),
            decreases outputs@.len() - i,
        {
            let ghost done = outputs@.take(i as int);
            let ghost current = self.output_state@;
            let ghost id = outputs@[i as int];
            let ghost at = state_index(before, id);
            proof {
                assert(has_state(before, id));
                lemma_state_index(before, id);
                assert(current[at].id == id);
                assert forall|a: int, b: int| 0 <= a < b < current.len() implies (
                #[trigger] current[a]).id != (#[trigger] current[b]).id by {
                    assert(current[a].id == before[a].id);
                    assert(current[b].id == before[b].id);
                }
                assert(has_state(current, id));
                lemma_state_index(current, id);
            }
            self.queue_redraw(outputs[i]);
            proof {
                let more = outputs@.take(i + 1);
                assert(more =~= done.push(id));
                assert forall|k: int| 0 <= k < before.len() implies #[trigger] self.output_state@[k]
                    == queued_among(before, more)[k] by {
                    if k == at {
                        assert(more[i as int] == id);
                        assert(more.contains(before[k].id));
                    } else {
                        assert(before[k].id != id);
                        if more.contains(before[k].id) {
                            let j = more.index_of(before[k].id);
                            assert(done[j] == before[k].id);
                        }
                        if done.contains(before[k].id) {
                            let j = done.index_of(before[k].id);
                            assert(more[j] == before[k].id);
                        }
                    }
                }
                assert(self.output_state@ =~= queued_among(before, more));
            }
            i = i + 1;
        }
        assert(outputs@.take(i as int) =~= outputs@);
    }

    /// Takes up the redraw of an output that is due for one. Returns the output, and whether it is to be
    /// drawn: with the monitors off it is not. This goes on until no output is due.
    pub fn redraw_queued_outputs(&mut self, ongoing: OngoingAnimations) -> (r: Option<(u64, bool)>)
        requires
            states_unique(old(self).output_state@),
        ensures
            *final(self) == (Niri { output_state: final(self).output_state, ..*old(self) }),
            match r {
                None => {
                    &&& *final(self) == *old(self)
                    &&& forall|i: int|
                        0 <= i < old(self).output_state@.len() ==> !(
                        #[trigger] old(self).output_state@[i]).redraw_state.due()
                },
                Some((output, drawn)) => {
                    let states = old(self).output_state@;
                    let i = state_index(states, output);
                    &&& has_state(states, output)
                    &&& states[i].redraw_state.due()
                    &&& drawn == old(self).monitors_active
                    &&& final(self).output_state@ == states.update(
                        i,
                        OutputState {
                            unfinished_animations_remain: if drawn {
                                ongoing.any() || states[i].screen_transition
                            } else {
                                states[i].unfinished_animations_remain
                            },
                            ..states[i]
                        },
                    )
                },
            },
    {
        let Some(output) = self.next_queued_output() else {
            return None;
        };
        proof {
            let states = self.output_state@;
            let i = choose|i: int|
                0 <= i < states.len() && (#[trigger] states[i]).id == output
                    && states[i].redraw_state.due();
            assert(has_state(states, output));
            lemma_state_index(states, output);
            let j = state_index(states, output);
            assert(states[j].id == states[i].id);
            assert(i == j);
        }
        let drawn = self.begin_redraw(output, ongoing);
        Some((output, drawn))
    }

    /// The next output that is due for a redraw.
    pub fn next_queued_output(&self) -> (r: Option<u64>)
        ensures
            r is None ==> forall|i: int|
                0 <= i < self.output_state@.len() ==> !(
                #[trigger] self.output_state@[i]).redraw_state.due(),
            r matches Some(output) ==> exists|i: int|
                0 <= i < self.output_state@.len() && (#[trigger] self.output_state@[i]).id == output
                    && self.output_state@[i].redraw_state.due(),
    {
        let mut i: usize = 0;
        while i < self.output_state.len()
            invariant
                i <= self.output_state.len(),
                forall|k: int|
                    0 <= k < i ==> !(#[trigger] self.output_state@[k]).redraw_state.due(),
            decreases self.output_state.len() - i,
        {
            match self.output_state[i].redraw_state {
                RedrawState::Queued | RedrawState::WaitingForEstimatedVBlankAndQueued(_) => {
                    return Some(self.output_state[i].id);
                },
                _ => (),
            }
            i = i + 1;
        }
        None
    }
}

} // verus!
