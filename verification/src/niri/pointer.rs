//! The pointer: whether it shows, what lies under it, and how the focus follows it.
use vstd::prelude::*;

use crate::niri::focus::KeyboardState;
use crate::niri::scene::{HitType, PointContents, SurfaceHit};
use crate::niri::{Effect, Niri, State};

verus! {

/// Whether the pointer shows.
#[derive(Clone, Copy, Debug, PartialEq, Eq, Structural, Hash)]
pub enum PointerVisibility {
    /// The pointer is visible.
    Visible,
    /// The pointer is invisible, but retains its focus.
    ///
    /// This keeps tooltips open and grabs going after the pointer hid itself.
    Hidden,
    /// The pointer is invisible and cannot focus.
    Disabled,
}

impl PointerVisibility {
    /// Whether the pointer shows.
    pub fn is_visible(&self) -> (r: bool)
        ensures
            r == (*self is Visible),
    {
        matches!(self, PointerVisibility::Visible)
    }
}

/// The state of the pointer.
#[derive(Clone, Copy, Debug, PartialEq, Eq, Structural)]
pub struct PointerState {
    pub visibility: PointerVisibility,
    /// What lay under the pointer when that was last looked up.
    pub contents: PointContents,
    /// The timer that hides the pointer.
    pub inactivity_timer: Option<u64>,
    /// Whether that timer was started anew in this round of the event loop.
    pub inactivity_timer_got_reset: bool,
    pub inside_hot_corner: bool,
    /// Whether activity was reported in this round of the event loop.
    pub notified_activity_this_iteration: bool,
}

/// How the cursor is moved into a rectangle.
#[derive(Clone, Copy, Debug, PartialEq, Eq, Structural)]
pub enum CenterCoords {
    /// Only the coordinates that lie outside change.
    Separately,
    /// Both coordinates change if one lies outside.
    Both,
    /// Both coordinates change in any case.
    BothAlways,
}

/// Where the cursor goes.
#[derive(Clone, Copy, Debug, PartialEq, Eq, Structural)]
pub enum CursorMove {
    Stay,
    /// To the middle between left and right.
    CenterX,
    /// To the middle between top and bottom.
    CenterY,
    /// To the middle.
    Center,
}

/// How the cursor is configured to follow the focus.
#[derive(Clone, Copy, Debug, PartialEq, Eq, Structural)]
pub enum WarpMouseToFocusMode {
    CenterXy,
    CenterXyAlways,
}

/// The configured warping of the cursor.
#[derive(Clone, Copy, Debug, PartialEq, Eq, Structural)]
pub struct WarpMouseToFocus {
    pub mode: Option<WarpMouseToFocusMode>,
}

/// Where the cursor goes, given which of its coordinates lie inside the rectangle.
pub open spec fn cursor_move(mode: CenterCoords, x_inside: bool, y_inside: bool) -> CursorMove {
    if x_inside && y_inside && mode != CenterCoords::BothAlways {
        CursorMove::Stay
    } else if mode == CenterCoords::Separately && y_inside {
        CursorMove::CenterX
    } else if mode == CenterCoords::Separately && x_inside {
        CursorMove::CenterY
    } else {
        CursorMove::Center
    }
}

/// Decides where the cursor goes to be inside a rectangle.
pub fn move_cursor_to_rect(mode: CenterCoords, x_in_bound: bool, y_in_bound: bool) -> (r: CursorMove)
    ensures
        r == cursor_move(mode, x_in_bound, y_in_bound),
{
    match mode {
        CenterCoords::Separately => if x_in_bound && y_in_bound {
            CursorMove::Stay
        } else if y_in_bound {
            CursorMove::CenterX
        } else if x_in_bound {
            CursorMove::CenterY
        } else {
            CursorMove::Center
        },
        CenterCoords::Both => if x_in_bound && y_in_bound {
            CursorMove::Stay
        } else {
            CursorMove::Center
        },
        CenterCoords::BothAlways => CursorMove::Center,
    }
}

/// How the cursor follows a change of the focus.
pub open spec fn warp_coords(configured: Option<WarpMouseToFocus>) -> Option<CenterCoords> {
    match configured {
        None => None,
        Some(WarpMouseToFocus { mode: None }) => Some(CenterCoords::Separately),
        Some(WarpMouseToFocus { mode: Some(WarpMouseToFocusMode::CenterXy) }) => Some(
            CenterCoords::Both,
        ),
        Some(WarpMouseToFocus { mode: Some(WarpMouseToFocusMode::CenterXyAlways) }) => Some(
            CenterCoords::BothAlways,
        ),
    }
}

/// How the cursor follows a change of the focus to another output: never in one coordinate alone.
pub open spec fn centered_warp_coords(configured: Option<WarpMouseToFocus>) -> Option<CenterCoords> {
    match warp_coords(configured) {
        Some(CenterCoords::Separately) => Some(CenterCoords::Both),
        other => other,
    }
}

/// The pointer after looking up what lies under it where it has been put.
///
/// A disabled pointer finds nothing, and a hidden one is disabled as soon as it finds something else
/// than before.
pub open spec fn settled(pointer: PointerState, found: PointContents) -> PointerState {
    let under = if pointer.visibility is Disabled {
        PointContents::nothing()
    } else {
        found
    };
    if !(pointer.visibility is Visible) && pointer.contents != under {
        PointerState {
            visibility: PointerVisibility::Disabled,
            contents: PointContents::nothing(),
            ..pointer
        }
    } else {
        PointerState { contents: under, ..pointer }
    }
}

/// The choices for letting the focus follow the mouse.
#[derive(Clone, Copy, Debug, PartialEq, Eq, Structural)]
pub struct FocusFollowsMouse {
    /// Whether windows are left alone that would have to be scrolled into view by too much.
    pub has_max_scroll_amount: bool,
}

/// What decides whether the focus follows the mouse besides what lies under it.
#[derive(Clone, Copy, Debug, PartialEq, Eq, Structural)]
pub struct FollowView {
    pub config: Option<FocusFollowsMouse>,
    pub pointer_grabbed: bool,
    /// What lies where the pointer still is.
    pub current: PointContents,
    pub overview_open: bool,
    /// Whether the window under the new place takes the focus by the mouse.
    pub triggers: bool,
    /// Whether activating that window would scroll further than allowed.
    pub scrolls_too_far: bool,
}

/// What the focus does as it follows the mouse.
#[derive(Clone, Copy, Debug, PartialEq, Eq, Structural)]
pub struct Followed {
    /// The output that gets the focus.
    pub output: Option<u64>,
    /// The window that gets the focus without being raised.
    pub window: Option<u64>,
}

/// Whether the focus follows the mouse at all.
pub open spec fn follows(view: FollowView) -> bool {
    view.config is Some && !view.pointer_grabbed
}

/// Whether the mouse has come to another window.
pub open spec fn window_entered(view: FollowView, new: PointContents) -> bool {
    new.window is Some && !view.overview_open && view.current.window != new.window
}

/// Whether the window that the mouse has come to gets the focus.
pub open spec fn window_taken(view: FollowView, new: PointContents) -> bool {
    &&& window_entered(view, new)
    &&& !(new.window->0.hit matches HitType::Activate { is_tab_indicator } && is_tab_indicator)
    &&& view.triggers
    &&& !(view.config->0.has_max_scroll_amount && view.scrolls_too_far)
}

/// What the focus does as it follows the mouse.
pub open spec fn followed(view: FollowView, new: PointContents) -> Followed {
    Followed {
        output: if follows(view) && new.output != view.current.output {
            new.output
        } else {
            None
        },
        window: if follows(view) && window_taken(view, new) {
            Some(new.window->0.window)
        } else {
            None
        },
    }
}

/// The layer surface that has the focus on demand after the focus has followed the mouse.
pub open spec fn on_demand_followed(
    on_demand: Option<u64>,
    view: FollowView,
    new: PointContents,
) -> Option<u64> {
    if !follows(view) || window_entered(view, new) && !window_taken(view, new) {
        on_demand
    } else if new.layer is Some && new.layer != view.current.layer {
        new.layer
    } else if window_taken(view, new) {
        None
    } else {
        on_demand
    }
}

impl Niri {
    /// Lets the focus follow the mouse to a place.
    pub fn handle_focus_follows_mouse(&mut self, view: &FollowView, new_focus: &PointContents) -> (r:
        Followed)
        ensures
            r == followed(*view, *new_focus),
            *final(self) == (Niri {
                keyboard: KeyboardState {
                    layer_shell_on_demand_focus: on_demand_followed(
                        old(self).keyboard.layer_shell_on_demand_focus,
                        *view,
                        *new_focus,
                    ),
                    ..old(self).keyboard
                },
                ..*old(self)
            }),
    {
        let mut rv = Followed { output: None, window: None };
        let Some(ffm) = view.config else {
            return rv;
        };
        if view.pointer_grabbed {
            return rv;
        }
        let current = view.current;
        if let Some(output) = new_focus.output {
            if current.output != Some(output) {
                rv.output = Some(output);
            }
        }
        if let Some(window) = new_focus.window {
            if !view.overview_open && current.window != Some(window) {
                if let HitType::Activate { is_tab_indicator: true } = window.hit {
                    return rv;
                }
                if !view.triggers {
                    return rv;
                }
                if ffm.has_max_scroll_amount && view.scrolls_too_far {
                    return rv;
                }
                rv.window = Some(window.window);
                self.keyboard.layer_shell_on_demand_focus = None;
            }
        }
        if let Some(layer) = new_focus.layer {
            if current.layer != Some(layer) {
                self.keyboard.layer_shell_on_demand_focus = Some(layer);
            }
        }
        rv
    }

    /// Starts the timer that hides the pointer anew, at most once in a round of the event loop.
    ///
    /// `token` names the timer to start, if one is started.
    pub fn reset_pointer_inactivity_timer(&mut self, timeout_ms: Option<u32>, token: u64) -> (r: Vec<
        Effect,
    >)
        ensures
            ({
                let before = old(self).pointer;
                let skipped = before.inactivity_timer_got_reset;
                &&& *final(self) == (Niri {
                    pointer: if skipped {
                        before
                    } else {
                        PointerState {
                            inactivity_timer: if timeout_ms is Some {
                                Some(token)
                            } else {
                                None
                            },
                            inactivity_timer_got_reset: timeout_ms is Some,
                            ..before
                        }
                    },
                    ..*old(self)
                })
                &&& r@ == (if skipped {
                    Seq::empty()
                } else {
                    (match before.inactivity_timer {
                        Some(running) => seq![Effect::RemoveTimer(running)],
                        None => Seq::empty(),
                    }) + (match timeout_ms {
                        Some(timeout_ms) => seq![
                            Effect::StartInactivityTimer { token, timeout_ms },
                        ],
                        None => Seq::empty(),
                    })
                })
            }),
    {
        let mut effects: Vec<Effect> = Vec::new();
        if self.pointer.inactivity_timer_got_reset {
            return effects;
        }
        if let Some(running) = self.pointer.inactivity_timer {
            self.pointer.inactivity_timer = None;
            effects.push(Effect::RemoveTimer(running));
        }
        if let Some(timeout_ms) = timeout_ms {
            effects.push(Effect::StartInactivityTimer { token, timeout_ms });
            self.pointer.inactivity_timer = Some(token);
            self.pointer.inactivity_timer_got_reset = true;
        }
        effects
    }

    /// Hides the pointer after it has not been used for a while. Returns whether all has to be drawn
    /// anew.
    pub fn pointer_inactivity_expired(&mut self) -> (r: bool)
        ensures
            r == (old(self).pointer.visibility is Visible),
            *final(self) == (Niri {
                pointer: PointerState {
                    inactivity_timer: None,
                    visibility: if r {
                        PointerVisibility::Hidden
                    } else {
                        old(self).pointer.visibility
                    },
                    ..old(self).pointer
                },
                ..*old(self)
            }),
    {
        self.pointer.inactivity_timer = None;
        if self.pointer.visibility.is_visible() {
            self.pointer.visibility = PointerVisibility::Hidden;
            return true;
        }
        false
    }

    /// Notes that the user did something. Returns whether that has to be told to those that wait for
    /// the user to be idle, which happens once in a round of the event loop.
    pub fn notify_activity(&mut self) -> (r: bool)
        ensures
            r == !old(self).pointer.notified_activity_this_iteration,
            *final(self) == (Niri {
                pointer: PointerState {
                    notified_activity_this_iteration: true,
                    ..old(self).pointer
                },
                ..*old(self)
            }),
    {
        if self.pointer.notified_activity_this_iteration {
            return false;
        }
        self.pointer.notified_activity_this_iteration = true;
        true
    }

    /// Ends a round of the event loop.
    pub fn end_iteration(&mut self)
        ensures
            *final(self) == (Niri {
                pointer: PointerState {
                    notified_activity_this_iteration: false,
                    inactivity_timer_got_reset: false,
                    ..old(self).pointer
                },
                ..*old(self)
            }),
    {
        self.pointer.inactivity_timer_got_reset = false;
        self.pointer.notified_activity_this_iteration = false;
    }
}

impl State {
    /// Looks up what lies under the cursor where it has been put, and remembers it. The result is what
    /// the motion is sent to.
    pub fn move_cursor(&mut self, found: PointContents) -> (r: Option<SurfaceHit>)
        ensures
            *final(self) == (State {
                niri: Niri { pointer: settled(old(self).niri.pointer, found), ..old(self).niri },
                ..*old(self)
            }),
            r == final(self).niri.pointer.contents.surface,
    {
        let mut under = match self.niri.pointer.visibility {
            PointerVisibility::Disabled => PointContents::empty(),
            _ => found,
        };
        if !self.niri.pointer.visibility.is_visible() && self.niri.pointer.contents != under {
            self.niri.pointer.visibility = PointerVisibility::Disabled;
            under = PointContents::empty();
        }
        self.niri.pointer.contents = under;
        under.surface
    }

    /// Looks up what lies under the cursor without moving it. Returns whether that has changed, so that
    /// a motion has to be sent.
    pub fn update_pointer_contents(&mut self, found: PointContents) -> (r: bool)
        ensures
            *final(self) == (State {
                niri: Niri { pointer: settled(old(self).niri.pointer, found), ..old(self).niri },
                ..*old(self)
            }),
            r == (final(self).niri.pointer.contents != old(self).niri.pointer.contents),
    {
        let mut under = match self.niri.pointer.visibility {
            PointerVisibility::Disabled => PointContents::empty(),
            _ => found,
        };
        if self.niri.pointer.contents == under {
            return false;
        }
        if !self.niri.pointer.visibility.is_visible() {
            self.niri.pointer.visibility = PointerVisibility::Disabled;
            under = PointContents::empty();
            if self.niri.pointer.contents == under {
                return false;
            }
        }
        self.niri.pointer.contents = under;
        true
    }

    /// Looks up what lies under the cursor once in a round of the event loop. Returns whether that has
    /// changed.
    ///
    /// While the workspaces of the output under the cursor are moving, nothing is looked up:
    /// `transitions_under` says so. That does not hold for what covers the workspaces.
    pub fn refresh_pointer_contents(&mut self, transitions_under: bool, found: PointContents) -> (r: bool)
        ensures
            ({
                let waits = transitions_under && !old(self).niri.exit_confirm_dialog_open
                    && !old(self).niri.locked() && !(old(self).niri.screenshot_ui is Open);
                &&& *final(self) == (State {
                    niri: Niri {
                        pointer: if waits {
                            old(self).niri.pointer
                        } else {
                            settled(old(self).niri.pointer, found)
                        },
                        ..old(self).niri
                    },
                    ..*old(self)
                })
                &&& r == (final(self).niri.pointer.contents != old(self).niri.pointer.contents)
            }),
    {
        if !self.niri.exit_confirm_dialog_open && !self.niri.is_locked()
            && !self.niri.screenshot_ui.is_open() {
            if transitions_under {
                return false;
            }
        }
        self.update_pointer_contents(found)
    }

    /// Hides the cursor as a key is pressed, if so configured. Returns whether all has to be drawn
    /// anew. A cursor that does not show is left as it is.
    pub fn hide_cursor_if_needed(&mut self, hide_when_typing: bool) -> (r: bool)
        ensures
            r == (hide_when_typing && old(self).niri.pointer.visibility is Visible),
            *final(self) == (State {
                niri: Niri {
                    pointer: PointerState {
                        visibility: if r {
                            PointerVisibility::Hidden
                        } else {
                            old(self).niri.pointer.visibility
                        },
                        ..old(self).niri.pointer
                    },
                    ..old(self).niri
                },
                ..*old(self)
            }),
    {
        if !self.niri.pointer.visibility.is_visible() {
            return false;
        }
        if !hide_when_typing {
            return false;
        }
        self.niri.pointer.visibility = PointerVisibility::Hidden;
        true
    }

    /// How the cursor moves to the focused window: not while something else has the focus, and not
    /// without a window on the active output. `inside` says which coordinates of the cursor lie inside
    /// the window.
    pub fn move_cursor_to_focused_tile(
        &self,
        mode: CenterCoords,
        inside: Option<(bool, bool)>,
    ) -> (r: CursorMove)
        ensures
            r == match inside {
                Some((x_inside, y_inside)) if self.niri.keyboard.focus is Layout => cursor_move(
                    mode,
                    x_inside,
                    y_inside,
                ),
                _ => CursorMove::Stay,
            },
    {
        if !self.niri.keyboard.focus.is_layout() {
            return CursorMove::Stay;
        }
        match inside {
            Some((x_inside, y_inside)) => move_cursor_to_rect(mode, x_inside, y_inside),
            None => CursorMove::Stay,
        }
    }

    /// How the cursor follows a change of the focus.
    pub fn maybe_warp_cursor_to_focus(
        &self,
        configured: Option<WarpMouseToFocus>,
        inside: Option<(bool, bool)>,
    ) -> (r: CursorMove)
        ensures
            r == match (warp_coords(configured), inside) {
                (Some(mode), Some((x_inside, y_inside))) if self.niri.keyboard.focus is Layout => {
                    cursor_move(mode, x_inside, y_inside)
                },
                _ => CursorMove::Stay,
            },
    {
        let mode = match configured {
            None => {
                return CursorMove::Stay;
            },
            Some(inner) => match inner.mode {
                None => CenterCoords::Separately,
                Some(WarpMouseToFocusMode::CenterXy) => CenterCoords::Both,
                Some(WarpMouseToFocusMode::CenterXyAlways) => CenterCoords::BothAlways,
            },
        };
        self.move_cursor_to_focused_tile(mode, inside)
    }

    /// How the cursor follows a change of the focus to another output.
    pub fn maybe_warp_cursor_to_focus_centered(
        &self,
        configured: Option<WarpMouseToFocus>,
        inside: Option<(bool, bool)>,
    ) -> (r: CursorMove)
        ensures
            r == match (centered_warp_coords(configured), inside) {
                (Some(mode), Some((x_inside, y_inside))) if self.niri.keyboard.focus is Layout => {
                    cursor_move(mode, x_inside, y_inside)
                },
                _ => CursorMove::Stay,
            },
    {
        let mode = match configured {
            None => {
                return CursorMove::Stay;
            },
            Some(inner) => match inner.mode {
                None | Some(WarpMouseToFocusMode::CenterXy) => CenterCoords::Both,
                Some(WarpMouseToFocusMode::CenterXyAlways) => CenterCoords::BothAlways,
            },
        };
        self.move_cursor_to_focused_tile(mode, inside)
    }
}

/// A pointer that does not show never gets to something new: it finds what it had found before, or
/// nothing.
pub proof fn law_invisible_pointer_enters_nothing(pointer: PointerState, found: PointContents)
    requires
        !(pointer.visibility is Visible),
    ensures
        ({
            let after = settled(pointer, found);
            &&& !(after.visibility is Visible)
            &&& after.contents == pointer.contents || after.contents == PointContents::nothing()
        }),
{
}

/// Whether the cursor is moved along the horizontal axis.
pub open spec fn moves_across(to: CursorMove) -> bool {
    to is CenterX || to is Center
}

/// Whether the cursor is moved along the vertical axis.
pub open spec fn moves_along(to: CursorMove) -> bool {
    to is CenterY || to is Center
}

/// A coordinate of the cursor that is outside is brought inside. One that is inside stays, unless both are
/// always to be centered, or both are to be centered together and the other one is outside.
pub proof fn law_cursor_comes_inside(mode: CenterCoords, x_inside: bool, y_inside: bool)
    ensures
        ({
            let to = cursor_move(mode, x_inside, y_inside);
            &&& !x_inside ==> moves_across(to)
            &&& !y_inside ==> moves_along(to)
            &&& mode == CenterCoords::Separately ==> (moves_across(to) == !x_inside) && (moves_along(
                to,
            ) == !y_inside)
            &&& mode == CenterCoords::Both ==> moves_across(to) == moves_along(to) && (to is Stay
                <==> x_inside && y_inside)
            &&& mode == CenterCoords::BothAlways ==> to is Center
        }),
{
}

/// The cursor follows the focus only if that is configured, and not in one coordinate alone if the focus
/// went to another output.
pub proof fn law_cursor_follows_as_configured(configured: Option<WarpMouseToFocus>)
    ensures
        warp_coords(configured) is None <==> configured is None,
        centered_warp_coords(configured) is None <==> configured is None,
        configured matches Some(c) ==> {
            &&& c.mode is None ==> warp_coords(configured) == Some(CenterCoords::Separately)
                && centered_warp_coords(configured) == Some(CenterCoords::Both)
            &&& c.mode == Some(WarpMouseToFocusMode::CenterXy) ==> warp_coords(configured) == Some(
                CenterCoords::Both,
            ) && centered_warp_coords(configured) == Some(CenterCoords::Both)
            &&& c.mode == Some(WarpMouseToFocusMode::CenterXyAlways) ==> warp_coords(configured)
                == Some(CenterCoords::BothAlways) && centered_warp_coords(configured) == Some(
                CenterCoords::BothAlways,
            )
        },
{
}

/// The focus follows the mouse only if that is configured and the mouse is not busy. Then it goes to an
/// output that the mouse has just come to, and to a window that it has just come to, unless that is behind
/// the overview, is a tab, or the view would scroll too far.
pub proof fn law_focus_follows_the_mouse(view: FollowView, new: PointContents)
    ensures
        ({
            let moved = followed(view, new);
            let on = view.config is Some && !view.pointer_grabbed;
            &&& !on ==> moved.output is None && moved.window is None
            &&& on && new.output != view.current.output ==> moved.output == new.output
            &&& moved.output is Some ==> moved.output == new.output && moved.output
                != view.current.output
            &&& moved.window matches Some(window) ==> {
                &&& new.window is Some && new.window->0.window == window
                &&& new.window != view.current.window
                &&& !view.overview_open
                &&& view.triggers
                &&& view.scrolls_too_far ==> !view.config->0.has_max_scroll_amount
                &&& !(new.window->0.hit == (HitType::Activate { is_tab_indicator: true }))
            }
            &&& on && view.triggers && !view.overview_open && !view.scrolls_too_far ==> (new.window matches
                Some(window) ==> (window.hit is Input && new.window != view.current.window
                ==> moved.window == Some(window.window)))
        }),
{
}

/// As the focus follows the mouse, a layer surface that the mouse has just come to gets it on demand, and a
/// window that takes the focus takes it from a layer surface. If nothing of that happens, it stays.
pub proof fn law_layer_gets_focus_on_demand(
    on_demand: Option<u64>,
    view: FollowView,
    new: PointContents,
)
    ensures
        ({
            let after = on_demand_followed(on_demand, view, new);
            let on = view.config is Some && !view.pointer_grabbed;
            let taken = followed(view, new).window is Some;
            &&& !on ==> after == on_demand
            &&& after == on_demand || after == new.layer || after is None
            &&& on && new.window is None && new.layer is Some && new.layer != view.current.layer
                ==> after == new.layer
            &&& on && new.layer is None && taken ==> after is None
            &&& on && new.layer is None && !taken ==> after == on_demand
        }),
{
}

} // verus!
