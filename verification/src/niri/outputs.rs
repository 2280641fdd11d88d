//! What happens as outputs come, change and go.
use vstd::prelude::*;

use crate::backend::{Backend, TtyRequest};
use crate::geometry::Size;
use crate::niri::lock::{surfaces_ready, LockState};
use crate::niri::placement::{
    ids_unique, is_all_outputs, is_placement_order, moved_outputs, placed, placement_fits,
    states_moved, unmapped, OutputData, Repositioned,
};
use crate::niri::redraw::{
    all_locked, find_state, has_state, state_index, states_unique, LockRenderState, OutputState,
    RedrawState,
};
use crate::niri::{Effect, Niri, ScreenshotUi};
use crate::utils::transform::Transform;

verus! {

/// The state of an output that has just been connected.
///
/// Nothing has been drawn on it yet, so in a locked session it is as good as blank.
pub open spec fn new_state(id: u64, locked: bool) -> OutputState {
    OutputState {
        id,
        redraw_state: RedrawState::Idle,
        unfinished_animations_remain: false,
        frame_callback_sequence: 0,
        lock_render_state: if locked {
            LockRenderState::Locked
        } else {
            LockRenderState::Unlocked
        },
        lock_surface: None,
        screen_transition: false,
    }
}

/// All states with a redraw asked for.
pub open spec fn all_queued(states: Seq<OutputState>) -> Seq<OutputState> {
    states.map_values(|s: OutputState| s.queued())
}

/// What a change leads to: how far locking is, the outputs, the screenshot selection, and the effects.
#[verifier::ext_equal]
pub struct Outcome {
    pub lock_state: LockState,
    pub states: Seq<OutputState>,
    pub selecting: bool,
    pub effects: Seq<Effect>,
}

/// What an output that went away means for locking: those that are left may complete it.
pub open spec fn lock_outcome(
    lock_state: LockState,
    states: Seq<OutputState>,
    selecting: bool,
    mapped: Seq<u64>,
) -> Outcome {
    let same = Outcome { lock_state, states, selecting, effects: Seq::empty() };
    match lock_state {
        LockState::Locking(confirmation) => if all_locked(states) {
            Outcome {
                lock_state: LockState::Locked(confirmation),
                effects: seq![Effect::ConfirmLock(confirmation)],
                ..same
            }
        } else {
            same
        },
        LockState::WaitingForSurfaces { confirmation, deadline_token } => if surfaces_ready(
            states,
            mapped,
        ) {
            let none_left = states.len() == 0;
            Outcome {
                lock_state: if none_left {
                    LockState::Locked(confirmation)
                } else {
                    LockState::Locking(confirmation)
                },
                states: all_queued(states),
                selecting: false,
                effects: seq![Effect::RemoveTimer(deadline_token), Effect::ResetCursorImage] + (
                if none_left {
                    seq![Effect::ConfirmLock(confirmation)]
                } else {
                    Seq::empty()
                }),
            }
        } else {
            same
        },
        _ => same,
    }
}

/// What closing the screenshot selection leads to.
pub open spec fn close_outcome(before: Outcome) -> Outcome {
    if before.selecting {
        Outcome {
            states: all_queued(before.states),
            selecting: false,
            effects: before.effects + seq![Effect::ResetCursorImage],
            ..before
        }
    } else {
        before
    }
}

/// What removing an output leads to, once the others have been placed anew.
pub open spec fn removal_outcome(
    lock_state: LockState,
    states: Seq<OutputState>,
    selecting: bool,
    id: u64,
    mapped: Seq<u64>,
) -> Outcome {
    let i = state_index(states, id);
    let after = close_outcome(lock_outcome(lock_state, states.remove(i), selecting, mapped));
    Outcome {
        effects: (match states[i].redraw_state.timer() {
            Some(token) => seq![Effect::RemoveTimer(token)],
            None => Seq::empty(),
        }) + after.effects,
        ..after
    }
}

impl Niri {
    /// Whether an output is connected.
    pub fn output_exists(&self, output: u64) -> (r: bool)
        requires
            states_unique(self.output_state@),
        ensures
            r == has_state(self.output_state@, output),
    {
        find_state(&self.output_state, output).is_some()
    }

    /// The output that a client means, if it is still connected.
    ///
    /// A client can name an output for some time after it has gone.
    pub fn output_from_resource(&self, named: Option<u64>) -> (r: Option<u64>)
        requires
            states_unique(self.output_state@),
        ensures
            r == (match named {
                Some(output) if has_state(self.output_state@, output) => Some(output),
                _ => None,
            }),
    {
        match named {
            Some(output) => if self.output_exists(output) {
                Some(output)
            } else {
                None
            },
            None => None,
        }
    }

    /// Takes a new output in; `outputs` are all outputs with the new one.
    pub fn add_output(&mut self, id: u64, outputs: Vec<OutputData>) -> (r: Repositioned)
        requires
            states_unique(old(self).output_state@),
            !has_state(old(self).output_state@, id),
            is_all_outputs(old(self).global_space.outputs@, Some(id), outputs@),
            ids_unique(outputs@),
            forall|i: int|
                0 <= i < outputs@.len() ==> (#[trigger] outputs@[i]).id == id || has_state(
                    old(self).output_state@,
                    outputs@[i].id,
                ),
            forall|order: Seq<OutputData>| #[trigger]
                is_placement_order(order, outputs@) ==> placement_fits(order),
        ensures
            old(self).lock_sound() ==> final(self).lock_sound(),
            is_placement_order(r.order@, outputs@),
            ({
                let order = r.order@;
                let n = order.len() as int;
                let states = old(self).output_state@.push(new_state(id, old(self).locked()));
                &&& final(self).global_space.outputs@ == placed(order)
                &&& final(self).global_space.sorted@ == order.map_values(|d: OutputData| d.id)
                &&& final(self).global_space.wf()
                &&& r.moved@ == moved_outputs(order, n)
                &&& final(self).output_state@ == states_moved(states, order, n)
                &&& *final(self) == (Niri {
                    global_space: final(self).global_space,
                    output_state: final(self).output_state,
                    ipc_outputs_changed: old(self).ipc_outputs_changed || r.moved@.len() > 0,
                    ..*old(self)
                })
            }),
    {
        let lock_render_state = if self.is_locked() {
            LockRenderState::Locked
        } else {
            LockRenderState::Unlocked
        };
        let ghost states = self.output_state@;
        let state = OutputState {
            id,
            redraw_state: RedrawState::Idle,
            unfinished_animations_remain: false,
            frame_callback_sequence: 0,
            lock_render_state,
            lock_surface: None,
            screen_transition: false,
        };
        self.output_state.push(state);
        proof {
            let longer = self.output_state@;
            assert forall|other: u64| has_state(states, other) implies #[trigger] has_state(
                longer,
                other,
            ) by {
                let k = choose|k: int| 0 <= k < states.len() && (#[trigger] states[k]).id == other;
                assert(longer[k].id == other);
            }
            assert(longer[states.len() as int].id == id);
            assert(has_state(longer, id));
        }
        self.reposition_outputs(Some(id), outputs)
    }

    /// Closes the screenshot selection; returns whether it was open.
    fn close_screenshot_ui(&mut self) -> (r: bool)
        ensures
            r == (old(self).screenshot_ui is Open),
            *final(self) == (Niri {
                screenshot_ui: if r {
                    ScreenshotUi::Closed
                } else {
                    old(self).screenshot_ui
                },
                ..*old(self)
            }),
    {
        let open = self.screenshot_ui.is_open();
        if open {
            self.screenshot_ui = ScreenshotUi::Closed;
        }
        open
    }

    /// Removes an output; `rest` are the others, and `mapped` the lock surfaces that have contents.
    pub fn remove_output(&mut self, id: u64, rest: Vec<OutputData>, mapped: &Vec<u64>) -> (r: (
        Repositioned,
        Vec<Effect>,
    ))
        requires
            states_unique(old(self).output_state@),
            has_state(old(self).output_state@, id),
            is_all_outputs(unmapped(old(self).global_space.outputs@, id), None, rest@),
            ids_unique(rest@),
            forall|i: int|
                0 <= i < rest@.len() ==> has_state(
                    old(self).output_state@,
                    (#[trigger] rest@[i]).id,
                ),
            forall|order: Seq<OutputData>| #[trigger]
                is_placement_order(order, rest@) ==> placement_fits(order),
        ensures
            old(self).lock_sound() ==> final(self).lock_sound(),
            is_placement_order(r.0.order@, rest@),
            ({
                let order = r.0.order@;
                let n = order.len() as int;
                let states = states_moved(old(self).output_state@, order, n);
                let outcome = removal_outcome(
                    old(self).lock_state,
                    states,
                    old(self).screenshot_ui is Open,
                    id,
                    mapped@,
                );
                &&& final(self).global_space.outputs@ == placed(order)
                &&& final(self).global_space.sorted@ == order.map_values(|d: OutputData| d.id)
                &&& final(self).global_space.wf()
                &&& r.0.moved@ == moved_outputs(order, n)
                &&& final(self).output_state@ == outcome.states
                &&& r.1@ == outcome.effects
                &&& *final(self) == (Niri {
                    global_space: final(self).global_space,
                    output_state: final(self).output_state,
                    ipc_outputs_changed: old(self).ipc_outputs_changed || r.0.moved@.len() > 0,
                    lock_state: outcome.lock_state,
                    screenshot_ui: if outcome.selecting {
                        old(self).screenshot_ui
                    } else {
                        ScreenshotUi::Closed
                    },
                    ..*old(self)
                })
            }),
    {
        self.global_space.unmap_output(id);
        let repositioned = self.reposition_outputs(None, rest);
        let ghost states = self.output_state@;
        proof {
            let order = repositioned.order@;
            crate::niri::placement::lemma_states_moved_same_ids(
                old(self).output_state@,
                order,
                order.len() as int,
            );
        }
        let mut effects: Vec<Effect> = Vec::new();
        if let Some(i) = find_state(&self.output_state, id) {
            match self.output_state[i].redraw_state {
                RedrawState::Idle | RedrawState::Queued | RedrawState::WaitingForVBlank { .. } => (),
                RedrawState::WaitingForEstimatedVBlank(
                    token,
                ) => effects.push(Effect::RemoveTimer(token)),
                RedrawState::WaitingForEstimatedVBlankAndQueued(
                    token,
                ) => effects.push(Effect::RemoveTimer(token)),
            }
            self.output_state.remove(i);
        }
        let ghost timers = effects@;
        let ghost left = self.output_state@;
        let ghost middle = *self;
        let mut lock_effects = self.lock_after_removal(mapped);
        let ghost locked = lock_outcome(
            old(self).lock_state,
            left,
            old(self).screenshot_ui is Open,
            mapped@,
        );
        proof {
            assert(self.lock_state == locked.lock_state);
            assert(self.output_state@ =~= locked.states);
            assert(lock_effects@ =~= locked.effects);
            assert(self.screenshot_ui is Open == locked.selecting);
        }
        effects.append(&mut lock_effects);
        if self.close_screenshot_ui() {
            effects.push(Effect::ResetCursorImage);
            self.queue_redraw_all();
        }
        proof {
            let closed = close_outcome(locked);
            assert(effects@ =~= timers + closed.effects);
            assert(self.output_state@ =~= closed.states);
        }
        (repositioned, effects)
    }

    /// Powers the monitors off.
    pub fn deactivate_monitors(&mut self, backend: &mut Backend)
        ensures
            *final(self) == (Niri { monitors_active: false, ..*old(self) }),
            if old(self).monitors_active {
                old(backend).asked(*final(backend), TtyRequest::SetMonitorsActive(false))
            } else {
                *final(backend) == *old(backend)
            },
    {
        if !self.monitors_active {
            return;
        }
        self.monitors_active = false;
        backend.set_monitors_active(false);
    }

    /// Powers the monitors on.
    pub fn activate_monitors(&mut self, backend: &mut Backend)
        ensures
            *final(self) == (Niri {
                monitors_active: true,
                output_state: final(self).output_state,
                ..*old(self)
            }),
            final(self).output_state@ == (if old(self).monitors_active {
                old(self).output_state@
            } else {
                all_queued(old(self).output_state@)
            }),
            if old(self).monitors_active {
                *final(backend) == *old(backend)
            } else {
                old(backend).asked(*final(backend), TtyRequest::SetMonitorsActive(true))
            },
    {
        if self.monitors_active {
            return;
        }
        self.monitors_active = true;
        backend.set_monitors_active(true);
        self.queue_redraw_all();
    }

    /// Handles a changed size, scale or transform of an output. Returns whether the screenshot
    /// selection had to be closed, which it is if its picture of the output no longer fits.
    pub fn output_resized(
        &mut self,
        output: u64,
        captured: Option<OutputShape>,
        now: OutputShape,
    ) -> (r: bool)
        requires
            states_unique(old(self).output_state@),
            has_state(old(self).output_state@, output),
        ensures
            r == (captured matches Some(shape) && shape != now),
            final(self).output_state@ == (if r {
                all_queued(old(self).output_state@)
            } else {
                let states = old(self).output_state@;
                let i = state_index(states, output);
                states.update(i, states[i].queued())
            }),
            *final(self) == (Niri {
                output_state: final(self).output_state,
                screenshot_ui: if r {
                    ScreenshotUi::Closed
                } else {
                    old(self).screenshot_ui
                },
                ..*old(self)
            }),
    {
        if let Some(shape) = captured {
            if shape != now {
                self.screenshot_ui = ScreenshotUi::Closed;
                self.queue_redraw_all();
                return true;
            }
        }
        self.queue_redraw(output);
        false
    }
}

/// What a picture of an output depends on.
#[derive(Clone, Copy, Debug, PartialEq, Eq, Structural)]
pub struct OutputShape {
    /// The size in pixels of the mode, turned as the output is.
    pub size: Size,
    /// How many parts of a hundred and twenty a logical pixel takes.
    pub scale_120: u32,
    pub transform: Transform,
}

/// An output that was removed has no state any longer, and all others still have theirs. A screenshot
/// selection is closed, and the timer of the output is stopped.
pub proof fn law_removed_output_is_gone(
    lock_state: LockState,
    states: Seq<OutputState>,
    selecting: bool,
    id: u64,
    mapped: Seq<u64>,
    other: u64,
)
    requires
        states_unique(states),
        has_state(states, id),
    ensures
        ({
            let outcome = removal_outcome(lock_state, states, selecting, id, mapped);
            &&& has_state(outcome.states, other) <==> has_state(states, other) && other != id
            &&& !outcome.selecting
            &&& outcome.states.len() == states.len() - 1
            &&& states[state_index(states, id)].redraw_state.timer() matches Some(token)
                ==> outcome.effects[0] == Effect::RemoveTimer(token)
        }),
{
    let at = state_index(states, id);
    assert(0 <= at < states.len() && states[at].id == id);
    let left = states.remove(at);
    let outcome = removal_outcome(lock_state, states, selecting, id, mapped);
    assert(outcome.states.len() == left.len());
    assert forall|k: int| 0 <= k < left.len() implies (#[trigger] outcome.states[k]).id == left[k].id by {}
    if has_state(outcome.states, other) {
        let k = choose|k: int|
            0 <= k < outcome.states.len() && (#[trigger] outcome.states[k]).id == other;
        assert(left[k].id == other);
        let from = if k < at {
            k
        } else {
            k + 1
        };
        assert(states[from].id == other);
        if from < at {
            assert(states[from].id != states[at].id);
        } else {
            assert(states[at].id != states[from].id);
        }
    }
    if has_state(states, other) && other != id {
        let k = choose|k: int| 0 <= k < states.len() && (#[trigger] states[k]).id == other;
        let to = if k < at {
            k
        } else {
            k - 1
        };
        assert(left[to].id == other);
        assert(outcome.states[to].id == other);
    }
}

} // verus!
