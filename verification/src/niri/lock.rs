//! Locking the session.
//!
//! A screen locker is told that the session is locked only once nothing of the session can be seen
//! on any output.
use vstd::prelude::*;

use crate::backend::RenderResult;
use crate::niri::redraw::{
    all_locked, find_state, has_state, state_index, states_unique, LockRenderState, LockSurface,
    OngoingAnimations, OutputState, RedrawState,
};
use crate::niri::refresh::has_id;
use crate::niri::{Effect, Niri, ScreenshotUi};

verus! {

/// The lock of one screen locker.
#[derive(Clone, Copy, Debug, PartialEq, Eq, Structural)]
pub struct SessionLock {
    pub id: u64,
    pub client: u64,
}

/// How far locking the session has come.
#[derive(Clone, Copy, Debug, PartialEq, Eq, Structural)]
pub enum LockState {
    Unlocked,
    WaitingForSurfaces { confirmation: SessionLock, deadline_token: u64 },
    Locking(SessionLock),
    Locked(SessionLock),
}

/// An output with its lock surface taken away and a redraw queued.
pub open spec fn unlocked_state(s: OutputState) -> OutputState {
    OutputState { lock_surface: None, ..s }.queued()
}

/// An output after rendering it ended in some way.
pub open spec fn rendered_state(
    s: OutputState,
    res: RenderResult,
    monitors_active: bool,
    locked: bool,
) -> OutputState {
    OutputState {
        redraw_state: if res == RenderResult::Skipped {
            match s.redraw_state.timer() {
                Some(token) => RedrawState::WaitingForEstimatedVBlank(token),
                None => RedrawState::Idle,
            }
        } else {
            s.redraw_state
        },
        lock_render_state: if res != RenderResult::Skipped || !monitors_active {
            if locked {
                LockRenderState::Locked
            } else {
                LockRenderState::Unlocked
            }
        } else {
            s.lock_render_state
        },
        ..s
    }
}

/// What a request to lock the session leads to.
#[verifier::ext_equal]
pub struct LockOutcome {
    pub lock_state: LockState,
    pub closes_selection: bool,
    pub effects: Seq<Effect>,
}

/// What a request to lock the session leads to, with so many outputs. `holder_alive` says whether the client
/// that holds the present lock still lives.
pub open spec fn lock_request(
    lock_state: LockState,
    outputs: nat,
    confirmation: SessionLock,
    holder_alive: bool,
    deadline_token: u64,
) -> LockOutcome {
    let denied = LockOutcome {
        lock_state,
        closes_selection: false,
        effects: seq![Effect::DenyLock(confirmation)],
    };
    match lock_state {
        LockState::WaitingForSurfaces { .. } | LockState::Locking(_) => denied,
        LockState::Locked(_) => if holder_alive {
            denied
        } else {
            LockOutcome {
                lock_state: LockState::Locked(confirmation),
                closes_selection: false,
                effects: seq![Effect::ConfirmLock(confirmation)],
            }
        },
        LockState::Unlocked => if outputs == 0 {
            LockOutcome {
                lock_state: LockState::Locked(confirmation),
                closes_selection: true,
                effects: seq![Effect::ResetCursorImage, Effect::ConfirmLock(confirmation)],
            }
        } else {
            LockOutcome {
                lock_state: LockState::WaitingForSurfaces { confirmation, deadline_token },
                closes_selection: false,
                effects: seq![Effect::StartLockDeadline(deadline_token)],
            }
        },
    }
}

/// Whether every output has a lock surface, and each of them has been mapped.
pub open spec fn surfaces_ready(states: Seq<OutputState>, mapped: Seq<u64>) -> bool {
    forall|i: int|
        0 <= i < states.len() ==> ((#[trigger] states[i]).lock_surface matches Some(surface)
            && mapped.contains(surface.surface))
}

/// Whether a lock is confirmed only with locked frames on all outputs.
pub open spec fn confirms_blank(effects: Seq<Effect>, states: Seq<OutputState>) -> bool {
    (exists|i: int| 0 <= i < effects.len() && #[trigger] effects[i] is ConfirmLock) ==> all_locked(
        states,
    )
}

impl Niri {
    /// Whether the session hides its contents.
    pub open spec fn locked(self) -> bool {
        self.lock_state is Locking || self.lock_state is Locked
    }

    /// Whether a session that was reported as locked shows locked frames alone.
    pub open spec fn lock_sound(self) -> bool {
        self.lock_state is Locked ==> all_locked(self.output_state@)
    }

    /// Whether the session hides its contents.
    pub fn is_locked(&self) -> (r: bool)
        ensures
            r == self.locked(),
    {
        match self.lock_state {
            LockState::Unlocked | LockState::WaitingForSurfaces { .. } => false,
            LockState::Locking(_) | LockState::Locked(_) => true,
        }
    }

    fn every_output_locked(&self) -> (r: bool)
        ensures
            r == all_locked(self.output_state@),
    {
        let mut i: usize = 0;
        while i < self.output_state.len()
            invariant
                i <= self.output_state.len(),
                forall|k: int|
                    0 <= k < i ==> (#[trigger] self.output_state@[k]).lock_render_state
                        == LockRenderState::Locked,
            decreases self.output_state.len() - i,
        {
            if self.output_state[i].lock_render_state != LockRenderState::Locked {
                return false;
            }
            i = i + 1;
        }
        true
    }

    /// Handles a screen locker's request to lock the session.
    ///
    /// `holder_alive` says whether the client that holds the present lock still lives.
    /// `deadline_token` names the timer to start if lock surfaces have to be waited for.
    pub fn lock(
        &mut self,
        confirmation: SessionLock,
        holder_alive: bool,
        deadline_token: u64,
    ) -> (r: Vec<Effect>)
        ensures
            old(self).lock_sound() ==> final(self).lock_sound() && confirms_blank(
                r@,
                final(self).output_state@,
            ),
            ({
                let outcome = lock_request(
                    old(self).lock_state,
                    old(self).output_state@.len(),
                    confirmation,
                    holder_alive,
                    deadline_token,
                );
                &&& r@ == outcome.effects
                &&& *final(self) == (Niri {
                    lock_state: outcome.lock_state,
                    screenshot_ui: if outcome.closes_selection {
                        ScreenshotUi::Closed
                    } else {
                        old(self).screenshot_ui
                    },
                    ..*old(self)
                })
            }),
    {
        let mut effects: Vec<Effect> = Vec::new();
        match self.lock_state {
            LockState::WaitingForSurfaces { .. } | LockState::Locking(_) => {
                effects.push(Effect::DenyLock(confirmation));
            },
            LockState::Locked(_) => {
                if holder_alive {
                    effects.push(Effect::DenyLock(confirmation));
                } else {
                    effects.push(Effect::ConfirmLock(confirmation));
                    self.lock_state = LockState::Locked(confirmation);
                }
            },
            LockState::Unlocked => {
                if self.output_state.len() == 0 {
                    self.screenshot_ui = ScreenshotUi::Closed;
                    effects.push(Effect::ResetCursorImage);
                    effects.push(Effect::ConfirmLock(confirmation));
                    self.lock_state = LockState::Locked(confirmation);
                } else {
                    effects.push(Effect::StartLockDeadline(deadline_token));
                    self.lock_state = LockState::WaitingForSurfaces { confirmation, deadline_token };
                }
            },
        }
        effects
    }

    /// Stops waiting for lock surfaces and begins to blank the outputs.
    pub fn continue_to_locking(&mut self) -> (r: Vec<Effect>)
        ensures
            Niri::continued_to_locking(*old(self), *final(self), r@),
            old(self).lock_sound() ==> final(self).lock_sound() && confirms_blank(
                r@,
                final(self).output_state@,
            ),
    {
        let mut effects: Vec<Effect> = Vec::new();
        if let LockState::WaitingForSurfaces { confirmation, deadline_token } = self.lock_state {
            effects.push(Effect::RemoveTimer(deadline_token));
            self.screenshot_ui = ScreenshotUi::Closed;
            effects.push(Effect::ResetCursorImage);
            if self.output_state.len() == 0 {
                effects.push(Effect::ConfirmLock(confirmation));
                self.lock_state = LockState::Locked(confirmation);
                assert(effects@ =~= seq![
                    Effect::RemoveTimer(deadline_token),
                    Effect::ResetCursorImage,
                    Effect::ConfirmLock(confirmation),
                ]);
                assert(self.output_state@ =~= self.output_state@.map_values(
                    |s: OutputState| s.queued(),
                ));
            } else {
                assert(effects@ =~= seq![
                    Effect::RemoveTimer(deadline_token),
                    Effect::ResetCursorImage,
                ]);
                self.lock_state = LockState::Locking(confirmation);
                self.queue_redraw_all();
            }
        }
        effects
    }

    /// What going on to blank the outputs changes, and what has to be done for it.
    pub open spec fn continued_to_locking(before: Niri, after: Niri, effects: Seq<Effect>) -> bool {
        match before.lock_state {
            LockState::WaitingForSurfaces { confirmation, deadline_token } => {
                &&& after == (Niri {
                    lock_state: if before.output_state@.len() == 0 {
                        LockState::Locked(confirmation)
                    } else {
                        LockState::Locking(confirmation)
                    },
                    screenshot_ui: ScreenshotUi::Closed,
                    output_state: after.output_state,
                    ..before
                })
                &&& after.output_state@ == before.output_state@.map_values(
                    |s: OutputState| s.queued(),
                )
                &&& effects == (if before.output_state@.len() == 0 {
                    seq![
                        Effect::RemoveTimer(deadline_token),
                        Effect::ResetCursorImage,
                        Effect::ConfirmLock(confirmation),
                    ]
                } else {
                    seq![Effect::RemoveTimer(deadline_token), Effect::ResetCursorImage]
                })
            },
            _ => after == before && effects.len() == 0,
        }
    }

    /// Goes on with locking once all lock surfaces are there; `mapped` lists the surfaces that have
    /// contents.
    pub fn maybe_continue_to_locking(&mut self, mapped: &Vec<u64>) -> (r: Vec<Effect>)
        ensures
            old(self).lock_sound() ==> final(self).lock_sound() && confirms_blank(
                r@,
                final(self).output_state@,
            ),
            if old(self).lock_state is WaitingForSurfaces && surfaces_ready(
                old(self).output_state@,
                mapped@,
            ) {
                Niri::continued_to_locking(*old(self), *final(self), r@)
            } else {
                *final(self) == *old(self) && r@.len() == 0
            },
    {
        if !matches!(self.lock_state, LockState::WaitingForSurfaces { .. }) {
            return Vec::new();
        }
        let mut i: usize = 0;
        while i < self.output_state.len()
            invariant
                i <= self.output_state.len(),
                *self == *old(self),
                self.lock_state is WaitingForSurfaces,
                forall|k: int|
                    0 <= k < i ==> ((#[trigger] self.output_state@[k]).lock_surface matches Some(
                        surface,
                    ) && mapped@.contains(surface.surface)),
            decreases self.output_state.len() - i,
        {
            let Some(surface) = self.output_state[i].lock_surface else {
                assert(self.output_state@[i as int].lock_surface is None);
                return Vec::new();
            };
            if !has_id(mapped, surface.surface) {
                assert(self.output_state@[i as int].lock_surface == Some(surface));
                return Vec::new();
            }
            i = i + 1;
        }
        self.continue_to_locking()
    }

    /// Shows the session again.
    pub fn unlock(&mut self) -> (r: Vec<Effect>)
        ensures
            *final(self) == (Niri {
                lock_state: LockState::Unlocked,
                output_state: final(self).output_state,
                ..*old(self)
            }),
            final(self).output_state@ == old(self).output_state@.map_values(
                |s: OutputState| unlocked_state(s),
            ),
            r@ == match old(self).lock_state {
                LockState::WaitingForSurfaces { deadline_token, .. } => seq![
                    Effect::RemoveTimer(deadline_token),
                ],
                _ => Seq::<Effect>::empty(),
            },
    {
        let mut effects: Vec<Effect> = Vec::new();
        if let LockState::WaitingForSurfaces { deadline_token, .. } = self.lock_state {
            effects.push(Effect::RemoveTimer(deadline_token));
        }
        self.lock_state = LockState::Unlocked;
        let mut i: usize = 0;
        while i < self.output_state.len()
            invariant
                i <= self.output_state@.len(),
                self.output_state@.len() == old(self).output_state@.len(),
                forall|k: int|
                    0 <= k < i ==> #[trigger] self.output_state@[k] == (OutputState {
                        lock_surface: None,
                        ..old(self).output_state@[k]
                    }),
                forall|k: int|
                    i <= k < self.output_state@.len() ==> #[trigger] self.output_state@[k] == old(
                        self,
                    ).output_state@[k],
                *self == (Niri {
                    lock_state: LockState::Unlocked,
                    output_state: self.output_state,
                    ..*old(self)
                }),
            decreases self.output_state.len() - i,
        {
            let mut state = self.output_state[i];
            state.lock_surface = None;
            self.output_state.set(i, state);
            i = i + 1;
        }
        self.queue_redraw_all();
        proof {
            assert(self.output_state@ =~= old(self).output_state@.map_values(
                |s: OutputState| unlocked_state(s),
            ));
        }
        effects
    }

    /// The client whose lock surfaces are accepted.
    pub open spec fn locking_client(self) -> Option<u64> {
        match self.lock_state {
            LockState::Unlocked => None,
            LockState::WaitingForSurfaces { confirmation, .. } => Some(confirmation.client),
            LockState::Locking(confirmation) => Some(confirmation.client),
            LockState::Locked(lock) => Some(lock.client),
        }
    }

    /// Takes a new lock surface for an output; returns whether it is used.
    pub fn new_lock_surface(&mut self, surface: LockSurface, output: u64) -> (r: bool)
        requires
            states_unique(old(self).output_state@),
        ensures
            r == (old(self).locking_client() == Some(surface.client) && has_state(
                old(self).output_state@,
                output,
            )),
            !r ==> *final(self) == *old(self),
            r ==> {
                let states = old(self).output_state@;
                let i = state_index(states, output);
                &&& final(self).output_state@ == states.update(
                    i,
                    OutputState { lock_surface: Some(surface), ..states[i] },
                )
                &&& *final(self) == (Niri { output_state: final(self).output_state, ..*old(self) })
            },
    {
        let client: u64 = match self.lock_state {
            LockState::Unlocked => {
                return false;
            },
            LockState::WaitingForSurfaces { confirmation, .. } => confirmation.client,
            LockState::Locking(confirmation) => confirmation.client,
            LockState::Locked(lock) => lock.client,
        };
        if client != surface.client {
            return false;
        }
        match find_state(&self.output_state, output) {
            None => false,
            Some(i) => {
                let mut state = self.output_state[i];
                state.lock_surface = Some(surface);
                self.output_state.set(i, state);
                true
            },
        }
    }

    /// Prepares a redraw of an output; returns whether it is to be rendered.
    ///
    /// With the monitors powered off nothing is rendered.
    pub fn begin_redraw(&mut self, output: u64, ongoing: OngoingAnimations) -> (r: bool)
        requires
            states_unique(old(self).output_state@),
            has_state(old(self).output_state@, output),
            old(self).output_state@[state_index(
                old(self).output_state@,
                output,
            )].redraw_state.due(),
        ensures
            r == old(self).monitors_active,
            *final(self) == (Niri { output_state: final(self).output_state, ..*old(self) }),
            ({
                let states = old(self).output_state@;
                let i = state_index(states, output);
                final(self).output_state@ == states.update(
                    i,
                    OutputState {
                        unfinished_animations_remain: if r {
                            ongoing.any() || states[i].screen_transition
                        } else {
                            states[i].unfinished_animations_remain
                        },
                        ..states[i]
                    },
                )
            }),
    {
        if let Some(i) = find_state(&self.output_state, output) {
            if self.monitors_active {
                let mut state = self.output_state[i];
                let mut remain: bool = ongoing.layout;
                remain = remain || ongoing.config_error_notification;
                remain = remain || ongoing.exit_confirm_dialog;
                remain = remain || ongoing.screenshot_ui;
                remain = remain || state.screen_transition;
                remain = remain || ongoing.cursor;
                if !remain {
                    remain = ongoing.layer_surfaces;
                }
                state.unfinished_animations_remain = remain;
                self.output_state.set(i, state);
            }
        }
        proof {
            let states = old(self).output_state@;
            let i = state_index(states, output);
            if !self.monitors_active {
                assert(states =~= states.update(i, states[i]));
            }
        }
        self.monitors_active
    }

    /// Notes how rendering an output ended, and whether that completes locking the session.
    pub fn finish_redraw(&mut self, output: u64, res: RenderResult) -> (r: Vec<Effect>)
        requires
            states_unique(old(self).output_state@),
            has_state(old(self).output_state@, output),
        ensures
            old(self).lock_sound() ==> final(self).lock_sound() && confirms_blank(
                r@,
                final(self).output_state@,
            ),
            ({
                let before = old(self).output_state@;
                let i = state_index(before, output);
                let drawn = rendered_state(
                    before[i],
                    res,
                    old(self).monitors_active,
                    old(self).locked(),
                );
                let states = before.update(i, drawn);
                match old(self).lock_state {
                    LockState::Locking(confirmation) => if drawn.lock_render_state
                        == LockRenderState::Unlocked {
                        &&& final(self).lock_state == LockState::Unlocked
                        &&& final(self).output_state@ == states.map_values(
                            |s: OutputState| unlocked_state(s),
                        )
                        &&& r@ == seq![Effect::DenyLock(confirmation)]
                    } else if all_locked(states) {
                        &&& final(self).lock_state == LockState::Locked(confirmation)
                        &&& final(self).output_state@ == states
                        &&& r@ == seq![Effect::ConfirmLock(confirmation)]
                    } else {
                        &&& final(self).lock_state == old(self).lock_state
                        &&& final(self).output_state@ == states
                        &&& r@.len() == 0
                    },
                    _ => {
                        &&& final(self).lock_state == old(self).lock_state
                        &&& final(self).output_state@ == states
                        &&& r@.len() == 0
                    },
                }
            }),
            *final(self) == (Niri {
                lock_state: final(self).lock_state,
                output_state: final(self).output_state,
                ..*old(self)
            }),
    {
        let mut effects: Vec<Effect> = Vec::new();
        let locked = self.is_locked();
        let i: usize = match find_state(&self.output_state, output) {
            Some(i) => i,
            None => {
                return effects;
            },
        };
        let mut state = self.output_state[i];
        if res == RenderResult::Skipped {
            state.redraw_state = match state.redraw_state {
                RedrawState::WaitingForEstimatedVBlank(
                    token,
                ) => RedrawState::WaitingForEstimatedVBlank(token),
                RedrawState::WaitingForEstimatedVBlankAndQueued(
                    token,
                ) => RedrawState::WaitingForEstimatedVBlank(token),
                _ => RedrawState::Idle,
            };
        }
        if res != RenderResult::Skipped || !self.monitors_active {
            state.lock_render_state = if locked {
                LockRenderState::Locked
            } else {
                LockRenderState::Unlocked
            };
        }
        self.output_state.set(i, state);
        let ghost states = self.output_state@;
        if let LockState::Locking(confirmation) = self.lock_state {
            if state.lock_render_state == LockRenderState::Unlocked {
                self.lock_state = LockState::Unlocked;
                let _no_timers = self.unlock();
                effects.push(Effect::DenyLock(confirmation));
            } else if self.every_output_locked() {
                effects.push(Effect::ConfirmLock(confirmation));
                self.lock_state = LockState::Locked(confirmation);
            }
        }
        effects
    }

    /// After an output went away: whether those that are left complete locking the session.
    pub fn lock_after_removal(&mut self, mapped: &Vec<u64>) -> (r: Vec<Effect>)
        ensures
            old(self).lock_sound() ==> final(self).lock_sound() && confirms_blank(
                r@,
                final(self).output_state@,
            ),
            match old(self).lock_state {
                LockState::Locking(confirmation) => {
                    &&& *final(self) == (Niri {
                        lock_state: if all_locked(old(self).output_state@) {
                            LockState::Locked(confirmation)
                        } else {
                            old(self).lock_state
                        },
                        ..*old(self)
                    })
                    &&& r@ == (if all_locked(old(self).output_state@) {
                        seq![Effect::ConfirmLock(confirmation)]
                    } else {
                        Seq::<Effect>::empty()
                    })
                },
                LockState::WaitingForSurfaces { .. } => if surfaces_ready(
                    old(self).output_state@,
                    mapped@,
                ) {
                    Niri::continued_to_locking(*old(self), *final(self), r@)
                } else {
                    *final(self) == *old(self) && r@.len() == 0
                },
                _ => *final(self) == *old(self) && r@.len() == 0,
            },
    {
        let mut effects: Vec<Effect> = Vec::new();
        if let LockState::Locking(confirmation) = self.lock_state {
            if self.every_output_locked() {
                effects.push(Effect::ConfirmLock(confirmation));
                self.lock_state = LockState::Locked(confirmation);
            }
            return effects;
        }
        self.maybe_continue_to_locking(mapped)
    }
}

/// What an output displays after it was drawn: a locked frame in a locked session, and else none. If nothing
/// was drawn, it displays what it did before, unless the monitors are off and nothing can be seen.
pub proof fn law_what_an_output_displays(
    s: OutputState,
    res: RenderResult,
    monitors_active: bool,
    locked: bool,
)
    ensures
        ({
            let after = rendered_state(s, res, monitors_active, locked);
            &&& res is Skipped && monitors_active ==> after.lock_render_state == s.lock_render_state
            &&& !(res is Skipped && monitors_active) ==> (after.lock_render_state
                == LockRenderState::Locked) == locked
            &&& res is Skipped ==> !after.redraw_state.due() && after.redraw_state.timer()
                == s.redraw_state.timer()
            &&& !(res is Skipped) ==> after.redraw_state == s.redraw_state
            &&& after.id == s.id && after.lock_surface == s.lock_surface
        }),
{
}

/// Going on to blank the outputs stops the waiting and closes a screenshot selection. The locker is told at
/// once only if there is no output to be blanked, and all outputs are drawn anew.
pub proof fn law_going_on_to_lock(before: Niri, after: Niri, effects: Seq<Effect>)
    requires
        Niri::continued_to_locking(before, after, effects),
    ensures
        before.lock_state matches LockState::WaitingForSurfaces { confirmation, deadline_token } ==> {
            &&& after.locked()
            &&& !(after.screenshot_ui is Open)
            &&& effects.contains(Effect::RemoveTimer(deadline_token))
            &&& effects.contains(Effect::ResetCursorImage)
            &&& effects.contains(Effect::ConfirmLock(confirmation)) <==> before.output_state@.len() == 0
            &&& after.lock_state is Locked <==> before.output_state@.len() == 0
            &&& after.output_state@.len() == before.output_state@.len()
            &&& forall|i: int|
                0 <= i < after.output_state@.len() ==> (
                #[trigger] after.output_state@[i]).redraw_state
                    == before.output_state@[i].redraw_state.queued()
        },
        !(before.lock_state is WaitingForSurfaces) ==> after == before && effects.len() == 0,
{
    if let LockState::WaitingForSurfaces { confirmation, deadline_token } = before.lock_state {
        assert(effects[0] == Effect::RemoveTimer(deadline_token));
        assert(effects[1] == Effect::ResetCursorImage);
        if before.output_state@.len() == 0 {
            assert(effects[2] == Effect::ConfirmLock(confirmation));
        } else if effects.contains(Effect::ConfirmLock(confirmation)) {
            assert(effects[effects.index_of(Effect::ConfirmLock(confirmation))]
                == Effect::ConfirmLock(confirmation));
        }
    }
}

/// Only one client locks the session at a time: while one does, or holds the lock and lives, another is
/// denied and nothing changes. A session that is locked stays locked. A locker is told that the session is
/// locked only if nothing of it can be seen: there is no output, or all are blank already.
pub proof fn law_one_locker_at_a_time(
    lock_state: LockState,
    outputs: nat,
    confirmation: SessionLock,
    holder_alive: bool,
    deadline_token: u64,
)
    ensures
        ({
            let after = lock_request(lock_state, outputs, confirmation, holder_alive, deadline_token);
            let busy = lock_state is WaitingForSurfaces || lock_state is Locking || (
            lock_state is Locked && holder_alive);
            let confirmed = after.effects.contains(Effect::ConfirmLock(confirmation));
            let denied = after.effects.contains(Effect::DenyLock(confirmation));
            &&& denied <==> busy
            &&& busy ==> after.lock_state == lock_state && after.effects.len() == 1
            &&& confirmed <==> lock_state is Locked && !holder_alive || lock_state is Unlocked
                && outputs == 0
            &&& confirmed ==> after.lock_state == LockState::Locked(confirmation)
            &&& lock_state is Locked ==> after.lock_state is Locked
            &&& lock_state is Unlocked && outputs > 0 ==> after.lock_state == (
            LockState::WaitingForSurfaces { confirmation, deadline_token }) && after.effects.contains(
                Effect::StartLockDeadline(deadline_token),
            )
        }),
{
    let after = lock_request(lock_state, outputs, confirmation, holder_alive, deadline_token);
    let e = after.effects;
    if e.contains(Effect::ConfirmLock(confirmation)) {
        assert(e[e.index_of(Effect::ConfirmLock(confirmation))] == Effect::ConfirmLock(confirmation));
    }
    if e.contains(Effect::DenyLock(confirmation)) {
        assert(e[e.index_of(Effect::DenyLock(confirmation))] == Effect::DenyLock(confirmation));
    }
    match lock_state {
        LockState::Locked(_) => {
            assert(e[0] == if holder_alive {
                Effect::DenyLock(confirmation)
            } else {
                Effect::ConfirmLock(confirmation)
            });
        },
        LockState::Unlocked => {
            if outputs == 0 {
                assert(e[1] == Effect::ConfirmLock(confirmation));
            } else {
                assert(e[0] == Effect::StartLockDeadline(deadline_token));
            }
        },
        _ => {
            assert(e[0] == Effect::DenyLock(confirmation));
        },
    }
}

/// An output of a session that is unlocked has no lock surface and is drawn anew, and is otherwise as it was.
pub proof fn law_unlocked_outputs(s: OutputState)
    ensures
        ({
            let after = unlocked_state(s);
            &&& after.lock_surface is None
            &&& after.id == s.id && after.screen_transition == s.screen_transition
                && after.lock_render_state == s.lock_render_state
            &&& s.redraw_state is Idle ==> after.redraw_state.due()
        }),
{
}

} // verus!
