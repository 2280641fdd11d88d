//! What clients ask for.
use vstd::prelude::*;

use crate::backend::TtyRequest;
use crate::geometry::{Rectangle, Size};
use crate::niri::focus::KeyboardState;
use crate::niri::lock::{unlocked_state, LockState};
use crate::niri::outputs::all_queued;
use crate::niri::pointer::PointerState;
use crate::niri::redraw::{has_state, state_index, states_unique, LockSurface, OutputState};
use crate::niri::scene::SurfaceHit;
use crate::niri::{Effect, Niri, State};
use crate::utils::CursorIcon;

verus! {

broadcast use vstd::std_specs::hash::group_hash_axioms;

/// Where a client wants the cursor that it has locked.
#[derive(Clone, Copy, Debug, PartialEq, Eq, Structural)]
pub struct PositionHint {
    /// The surface that the position is relative to.
    pub surface: SurfaceHit,
    /// The area that the cursor is kept within, its last pixels included.
    pub bounds: Option<Rectangle>,
}

/// Where something that was dragged is dropped.
#[derive(Clone, Copy, Debug, PartialEq, Eq, Structural)]
pub enum DropFocus {
    /// A window gets the focus.
    Window(u64),
    /// An output gets the focus.
    Output(u64),
    Unchanged,
}

/// What is shown for the cursor.
#[derive(Clone, Copy, Debug, PartialEq, Eq, Structural)]
pub enum CursorImage {
    Hidden,
    /// A surface of a client.
    Surface(u64),
    Named(CursorIcon),
}

/// Those of some devices that are still there.
pub open spec fn still_there(list: Seq<u64>, devices: Set<u64>) -> Seq<u64>
    decreases list.len(),
{
    if list.len() == 0 {
        Seq::empty()
    } else {
        let before = still_there(list.drop_last(), devices);
        if devices.contains(list.last()) {
            before.push(list.last())
        } else {
            before
        }
    }
}

/// What a client may see.
#[derive(Clone, Copy, Debug, PartialEq, Eq, Structural)]
pub struct ClientState {
    pub can_view_decoration_globals: bool,
    pub primary_selection_disabled: bool,
    /// Whether this client is denied from the restricted protocols such as security-context.
    pub restricted: bool,
    /// We cannot retrieve this client's socket credentials.
    pub credentials_unknown: bool,
}

/// Something that only some clients may see.
#[derive(Clone, Copy, Debug, PartialEq, Eq, Structural)]
pub enum FilteredGlobal {
    XdgDecoration,
    KdeDecoration,
    LayerShell,
    SessionLock,
    PrimarySelection,
}

impl ClientState {
    /// Whether the client may see something.
    pub open spec fn sees(self, global: FilteredGlobal) -> bool {
        match global {
            FilteredGlobal::XdgDecoration
            | FilteredGlobal::KdeDecoration => self.can_view_decoration_globals,
            FilteredGlobal::LayerShell | FilteredGlobal::SessionLock => !self.restricted,
            FilteredGlobal::PrimarySelection => !self.primary_selection_disabled,
        }
    }

    /// Whether the client may see something: decorations if they are not left to clients, the screen
    /// and its lock unless it is restricted, and the primary selection unless that is turned off.
    pub fn can_view(&self, global: FilteredGlobal) -> (r: bool)
        ensures
            r == self.sees(global),
    {
        match global {
            FilteredGlobal::XdgDecoration
            | FilteredGlobal::KdeDecoration => self.can_view_decoration_globals,
            FilteredGlobal::LayerShell | FilteredGlobal::SessionLock => !self.restricted,
            FilteredGlobal::PrimarySelection => !self.primary_selection_disabled,
        }
    }
}

/// A restricted client sees neither the layers of the screen nor the lock, whatever is configured.
pub proof fn law_restricted_client(client: ClientState)
    requires
        client.restricted,
    ensures
        !client.sees(FilteredGlobal::LayerShell),
        !client.sees(FilteredGlobal::SessionLock),
{
}

impl Niri {
    /// What a new client may see.
    pub fn insert_client(
        prefer_no_csd: bool,
        disable_primary: bool,
        restricted: bool,
        credentials_unknown: bool,
    ) -> (r: ClientState)
        ensures
            r == (ClientState {
                can_view_decoration_globals: prefer_no_csd,
                primary_selection_disabled: disable_primary,
                restricted,
                credentials_unknown,
            }),
    {
        ClientState {
            can_view_decoration_globals: prefer_no_csd,
            primary_selection_disabled: disable_primary,
            restricted,
            credentials_unknown,
        }
    }

    /// Ends dragging.
    pub fn on_maybe_dnd_ended(&mut self)
        ensures
            *final(self) == (Niri {
                dnd_icon: None,
                output_state: final(self).output_state,
                ..*old(self)
            }),
            final(self).output_state@ == all_queued(old(self).output_state@),
    {
        self.dnd_icon = None;
        self.queue_redraw_all();
    }
}

impl State {
    /// Where the cursor goes that a client has locked and gives a position for: nowhere unless the lock
    /// is active and the pointer is on the surface. Also returns whether all has to be drawn anew.
    ///
    /// `output_geometry` is the area of the output that the surface is on.
    pub fn cursor_position_hint(
        &self,
        surface: u64,
        is_constraint_active: bool,
        output_geometry: Option<Rectangle>,
    ) -> (r: Option<(PositionHint, bool)>)
        requires
            output_geometry matches Some(geo) ==> geo.size.w > i32::MIN && geo.size.h > i32::MIN,
        ensures
            r == match self.niri.pointer.contents.surface {
                Some(hit) if is_constraint_active && hit.surface == surface => Some(
                    (
                        PositionHint {
                            surface: hit,
                            bounds: match output_geometry {
                                Some(geo) => Some(
                                    Rectangle {
                                        loc: geo.loc,
                                        size: Size {
                                            w: (geo.size.w - 1) as i32,
                                            h: (geo.size.h - 1) as i32,
                                        },
                                    },
                                ),
                                None => None,
                            },
                        },
                        self.niri.pointer.visibility is Visible,
                    ),
                ),
                _ => None,
            },
    {
        if !is_constraint_active {
            return None;
        }
        let Some(hit) = self.niri.pointer.contents.surface else {
            return None;
        };
        if hit.surface != surface {
            return None;
        }
        let bounds = match output_geometry {
            Some(geo) => Some(
                Rectangle {
                    loc: geo.loc,
                    size: Size { w: geo.size.w - 1, h: geo.size.h - 1 },
                },
            ),
            None => None,
        };
        Some((PositionHint { surface: hit, bounds }, self.niri.pointer.visibility.is_visible()))
    }

    /// Takes the cursor image that a client wants. Returns the one to show, which is a cross while a
    /// screenshot selection is made.
    pub fn cursor_image(&mut self, image: CursorImage) -> (r: CursorImage)
        ensures
            r == (if old(self).niri.screenshot_ui is Open {
                CursorImage::Named(CursorIcon::Crosshair)
            } else {
                image
            }),
            final(self).niri == (Niri {
                output_state: final(self).niri.output_state,
                ..old(self).niri
            }),
            final(self).niri.output_state@ == all_queued(old(self).niri.output_state@),
            final(self).backend == old(self).backend,
    {
        let shown = if self.niri.screenshot_ui.is_open() {
            CursorImage::Named(CursorIcon::Crosshair)
        } else {
            image
        };
        self.niri.queue_redraw_all();
        shown
    }

    /// The devices whose lights have to be set: those of some keyboards that are still there.
    pub fn led_state_changed(&self, keyboards: &Vec<u64>) -> (r: Vec<u64>)
        ensures
            r@ == still_there(keyboards@, self.niri.input.devices@),
    {
        let mut found: Vec<u64> = Vec::new();
        let mut i: usize = 0;
        assert(keyboards@.take(0) =~= Seq::<u64>::empty());
        while i < keyboards.len()
            invariant
                i <= keyboards@.len(),
                found@ == still_there(keyboards@.take(i as int), self.niri.input.devices@),
            decreases keyboards@.len() - i,
        {
            assert(keyboards@.take(i + 1).drop_last() =~= keyboards@.take(i as int));
            if self.niri.input.devices.contains(&keyboards[i]) {
                found.push(keyboards[i]);
            }
            i = i + 1;
        }
        assert(keyboards@.take(i as int) =~= keyboards@);
        found
    }

    /// Starts dragging, with an icon if the client has one.
    pub fn dnd_requested(&mut self, icon: Option<u64>)
        ensures
            final(self).niri == (Niri {
                dnd_icon: icon,
                output_state: final(self).niri.output_state,
                ..old(self).niri
            }),
            final(self).niri.output_state@ == all_queued(old(self).niri.output_state@),
            final(self).backend == old(self).backend,
    {
        self.niri.dnd_icon = icon;
        self.niri.queue_redraw_all();
    }

    /// Ends dragging by dropping. A window that takes what is dropped gets the focus, or else the
    /// output that it is dropped on.
    ///
    /// `target_window` is the window of the surface that it is dropped on.
    pub fn dropped(
        &mut self,
        validated: bool,
        target_window: Option<u64>,
        output_under: Option<u64>,
    ) -> (r: DropFocus)
        ensures
            ({
                let taken = validated && target_window is Some;
                &&& r == (if taken {
                    DropFocus::Window(target_window->0)
                } else {
                    match output_under {
                        Some(output) => DropFocus::Output(output),
                        None => DropFocus::Unchanged,
                    }
                })
                &&& final(self).niri == (Niri {
                    dnd_icon: None,
                    keyboard: KeyboardState {
                        layer_shell_on_demand_focus: if taken {
                            None
                        } else {
                            old(self).niri.keyboard.layer_shell_on_demand_focus
                        },
                        ..old(self).niri.keyboard
                    },
                    output_state: final(self).niri.output_state,
                    ..old(self).niri
                })
                &&& final(self).niri.output_state@ == all_queued(old(self).niri.output_state@)
                &&& final(self).backend == old(self).backend
            }),
    {
        self.niri.on_maybe_dnd_ended();
        if validated {
            if let Some(window) = target_window {
                self.niri.keyboard.layer_shell_on_demand_focus = None;
                return DropFocus::Window(window);
            }
        }
        match output_under {
            Some(output) => DropFocus::Output(output),
            None => DropFocus::Unchanged,
        }
    }

    /// Ends dragging without dropping.
    pub fn cancelled(&mut self)
        ensures
            final(self).niri == (Niri {
                dnd_icon: None,
                output_state: final(self).niri.output_state,
                ..old(self).niri
            }),
            final(self).niri.output_state@ == all_queued(old(self).niri.output_state@),
            final(self).backend == old(self).backend,
    {
        self.niri.on_maybe_dnd_ended();
    }

    /// Takes a lock surface for an output, if that is still there and the surface belongs to the client
    /// that locks the session. Returns the output whose size the surface has to be told first, which it is
    /// even if it is not taken.
    pub fn new_surface(&mut self, surface: LockSurface, named: Option<u64>) -> (r: Option<u64>)
        requires
            states_unique(old(self).niri.output_state@),
        ensures
            ({
                let before = old(self).niri;
                let states = before.output_state@;
                &&& r == (match named {
                    Some(output) if has_state(states, output) => Some(output),
                    _ => None,
                })
                &&& final(self).niri.output_state@ == (match r {
                    Some(output) if before.locking_client() == Some(surface.client) => states.update(
                        state_index(states, output),
                        OutputState {
                            lock_surface: Some(surface),
                            ..states[state_index(states, output)]
                        },
                    ),
                    _ => states,
                })
                &&& final(self).niri == (Niri {
                    output_state: final(self).niri.output_state,
                    ..before
                })
                &&& final(self).backend == old(self).backend
            }),
    {
        let Some(output) = self.niri.output_from_resource(named) else {
            return None;
        };
        self.niri.new_lock_surface(surface, output);
        Some(output)
    }

    /// Unlocks the session, which wakes the monitors and counts as activity. Returns what to do, and
    /// whether those that wait for the user to be idle have to be told.
    pub fn unlock(&mut self) -> (r: (Vec<Effect>, bool))
        ensures
            ({
                let before = old(self).niri;
                let after = final(self).niri;
                let shown = before.output_state@.map_values(|s: OutputState| unlocked_state(s));
                &&& after == (Niri {
                    lock_state: LockState::Unlocked,
                    monitors_active: true,
                    pointer: PointerState {
                        notified_activity_this_iteration: true,
                        ..before.pointer
                    },
                    output_state: after.output_state,
                    ..before
                })
                &&& after.output_state@ == (if before.monitors_active {
                    shown
                } else {
                    all_queued(shown)
                })
                &&& r.0@ == (match before.lock_state {
                    LockState::WaitingForSurfaces { deadline_token, .. } => seq![
                        Effect::RemoveTimer(deadline_token),
                    ],
                    _ => Seq::<Effect>::empty(),
                })
                &&& r.1 == !before.pointer.notified_activity_this_iteration
                &&& if before.monitors_active {
                    final(self).backend == old(self).backend
                } else {
                    old(self).backend.asked(
                        final(self).backend,
                        TtyRequest::SetMonitorsActive(true),
                    )
                }
            }),
    {
        let effects = self.niri.unlock();
        self.niri.activate_monitors(&mut self.backend);
        let notify_idle = self.niri.notify_activity();
        (effects, notify_idle)
    }
}

/// What a client sees: the ways to agree on decorations if it may, what concerns the whole desktop unless it is
/// restricted, and the primary selection unless that is off.
pub proof fn law_what_clients_see(client: ClientState)
    ensures
        client.sees(FilteredGlobal::XdgDecoration) == client.can_view_decoration_globals,
        client.sees(FilteredGlobal::KdeDecoration) == client.can_view_decoration_globals,
        client.sees(FilteredGlobal::LayerShell) == !client.restricted,
        client.sees(FilteredGlobal::SessionLock) == !client.restricted,
        client.sees(FilteredGlobal::PrimarySelection) == !client.primary_selection_disabled,
{
}

} // verus!
