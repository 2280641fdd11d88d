//! Pointer events: motion, buttons and the wheel.
use vstd::prelude::*;

use crate::geometry::{Point, Rectangle, Size};
use crate::input::action::{allowed_during_screenshot, works_during_screenshot, Action};
use crate::input::binds::{
    find_configured_bind, first_set_off, fixed_bind, held, make_fixed_bind, modifiers_from_state,
    modifiers_in, Bind, FoundBind, ModKey, Modifiers, ModifiersState, Trigger,
};
use crate::input::grab::PointerGrab;
use crate::input::keyboard::InputState;
use crate::niri::focus::KeyboardState;
use crate::niri::outputs::all_queued;
use crate::niri::pointer::{
    followed, on_demand_followed, settled, FollowView, PointerState, PointerVisibility,
};
use crate::niri::redraw::{has_state, states_unique};
use crate::niri::refresh::has_id;
use crate::niri::scene::{KeyboardInteractivity, PointContents, SurfaceHit};
use crate::niri::{Niri, ScreenshotUi, State};
use crate::utils::transform::Transform;
use crate::utils::{center, CursorIcon, ResizeEdge};

verus! {

broadcast use vstd::std_specs::hash::group_hash_axioms;

/// Two clicks within this many nanoseconds make a double click.
pub const DOUBLE_CLICK_TIME: u64 = 400_000_000;

/// How a surface holds on to the pointer.
#[derive(Clone, Copy, Debug, PartialEq, Eq, Structural)]
pub enum PointerConstraint {
    /// The pointer does not move.
    Locked,
    /// The pointer stays within the surface.
    Confined,
}

/// The constraint of the surface that the pointer is on.
#[derive(Clone, Copy, Debug, PartialEq, Eq, Structural)]
pub struct ConstraintView {
    pub constraint: PointerConstraint,
    pub active: bool,
    /// Whether the pointer is in the region of the constraint, or there is no such region.
    pub in_region: bool,
}

/// How a motion of the pointer begins.
#[derive(Clone, Copy, Debug, PartialEq, Eq, Structural)]
pub enum MotionStart {
    /// There is no output to move on.
    Nowhere,
    /// The pointer is locked to a surface, which is told of the motion without it.
    Locked(SurfaceHit),
    /// The pointer is confined to a surface.
    Confined(SurfaceHit),
    Free,
}

/// Where the pointer may go in place of a position outside of all outputs.
#[derive(Clone, Copy, Debug, PartialEq, Eq, Structural)]
pub enum PointerClip {
    /// Anywhere.
    Free,
    /// No further than the last pixels of a rectangle.
    Within(Rectangle),
    /// To a point.
    At(Point),
}

/// Something that a pointer event leads to.
#[allow(inconsistent_fields)]
#[derive(Clone, Copy, Debug, PartialEq, Eq, Structural)]
pub enum PointerCommand {
    /// Move the corner of the screenshot selection on an output.
    ScreenshotMotion(u64),
    /// Send a relative motion.
    RelativeMotion(Option<SurfaceHit>),
    /// Send a motion to the new position.
    Motion(Option<SurfaceHit>),
    /// End a group of events.
    Frame,
    FocusOutput(u64),
    /// Activate a window.
    ActivateWindow(u64),
    /// Activate a window without raising it.
    ActivateWindowWithoutRaising(u64),
    ToggleOverview,
    /// Activate the constraint of the surface under the pointer.
    ActivateConstraint,
    /// Tell the layout what is being dragged over an output.
    DndUpdate(u64),
    QueueRedrawAll,
    /// Begin to scroll the view of a workspace, given by its place on the output.
    BeginViewOffsetGesture { output: u64, workspace: usize },
    /// Grab the pointer to scroll a workspace, or between workspaces once the direction is known.
    StartSpatialGrab { output: u64, workspace: u64, is_view_offset: bool },
    SetCursor(CursorIcon),
    /// Grab the pointer to move a window, and show that at once if `show` says so.
    StartMoveGrab { window: u64, show: bool },
    /// Remember when the resizing of a window began, and by which edges.
    SetLastResize { window: u64, start: Option<ResizeStart> },
    ToggleFullWidth,
    ResetWindowHeight(u64),
    /// Begin to resize a window, and show that by the cursor if the layout agrees.
    StartResizeGrab { window: u64, edges: ResizeEdge },
    /// Close the overview on a workspace, given by its place.
    ToggleOverviewToWorkspace(usize),
    /// Begin a screenshot selection on an output, or move the one that there is.
    ScreenshotPointerDown { output: u64, move_selection: bool },
    /// End a screenshot selection.
    ScreenshotPointerUp,
    /// Send the button.
    Button,
}

/// What a motion finds at its end.
#[derive(Clone, Copy, Debug, PartialEq, Eq, Structural)]
pub struct MotionView {
    /// What lies at the new position.
    pub under: PointContents,
    /// Whether the new position is in the region of the confinement, or there is no such region.
    pub in_region: bool,
    pub follow: FollowView,
}

/// What is found after a motion was sent.
#[derive(Clone, Copy, Debug, PartialEq, Eq, Structural)]
pub struct AfterMotion {
    /// Whether the pointer was inside a hot corner before.
    pub was_inside_hot_corner: bool,
    /// Whether a hot corner is at the new position.
    pub hot_corner: bool,
    /// Whether a surface has the pointer.
    pub focused: bool,
    pub grab: Option<PointerGrab>,
    /// The output under the new position.
    pub output: Option<u64>,
}

/// The output whose selection follows the pointer.
pub open spec fn selection_motion(ui: ScreenshotUi) -> Seq<PointerCommand> {
    match ui {
        ScreenshotUi::Open { selection_output, .. } => seq![
            PointerCommand::ScreenshotMotion(selection_output),
        ],
        ScreenshotUi::Closed => Seq::empty(),
    }
}

/// Whether a confined pointer is kept from moving: it would leave the surface, or the region.
pub open spec fn is_held_back(confined: Option<SurfaceHit>, view: MotionView) -> bool {
    confined matches Some(focus) && (!(view.under.surface matches Some(hit) && hit.surface
        == focus.surface) || !view.in_region)
}

/// What the focus does as it follows the mouse.
pub open spec fn follow_commands(view: MotionView) -> Seq<PointerCommand> {
    let moved = followed(view.follow, view.under);
    (match moved.output {
        Some(output) => seq![PointerCommand::FocusOutput(output)],
        None => Seq::empty(),
    }) + (match moved.window {
        Some(window) => seq![PointerCommand::ActivateWindowWithoutRaising(window)],
        None => Seq::empty(),
    })
}

/// How a motion of the pointer begins. `view` is the constraint of the surface under the pointer.
pub open spec fn motion_start(niri: Niri, view: Option<ConstraintView>) -> MotionStart {
    if niri.global_space.outputs@.len() == 0 {
        MotionStart::Nowhere
    } else {
        match (niri.pointer.contents.surface, view) {
            (Some(hit), Some(view)) if view.active && view.in_region => {
                match view.constraint {
                    PointerConstraint::Locked => MotionStart::Locked(hit),
                    PointerConstraint::Confined => MotionStart::Confined(hit),
                }
            },
            _ => MotionStart::Free,
        }
    }
}

/// What a motion of the pointer sends. A pointer that is held back only tells that it was moved.
pub open spec fn motion_commands(
    ui: ScreenshotUi,
    confined: Option<SurfaceHit>,
    view: MotionView,
) -> Seq<PointerCommand> {
    selection_motion(ui) + (if is_held_back(confined, view) {
        seq![PointerCommand::RelativeMotion(confined), PointerCommand::Frame]
    } else {
        follow_commands(view) + seq![
            PointerCommand::Motion(view.under.surface),
            PointerCommand::RelativeMotion(view.under.surface),
            PointerCommand::Frame,
        ]
    })
}

/// Whether a motion brings the pointer into a hot corner.
pub open spec fn enters_corner(after: AfterMotion) -> bool {
    after.hot_corner && !after.focused
}

/// What follows a motion.
pub open spec fn after_commands(after: AfterMotion) -> Seq<PointerCommand> {
    (if enters_corner(after) && !after.was_inside_hot_corner && !(after.grab matches Some(grab)
        && !grab.leaves_hot_corner()) {
        seq![PointerCommand::ToggleOverview]
    } else {
        Seq::empty()
    }) + seq![PointerCommand::ActivateConstraint] + (match after.output {
        Some(output) if after.grab == Some(PointerGrab::DragAndDrop) => seq![
            PointerCommand::DndUpdate(output),
        ],
        _ => Seq::empty(),
    })
}

/// The area in which an absolute position is given, and how it is turned.
#[derive(Clone, Copy, Debug, PartialEq, Eq, Structural)]
pub struct AbsoluteArea {
    pub geo: Rectangle,
    /// The size that the device's own coordinates span.
    pub size: Size,
    pub transform: Transform,
}

impl Niri {
    /// Where the pointer may go. One that is on an output stays on it unless it comes to another. One
    /// that is on none goes to the middle of the first.
    pub fn clip_pointer(&self, from: Point, to: Point) -> (r: PointerClip)
        requires
            self.global_space.wf(),
            self.global_space.outputs@.len() > 0,
        ensures
            ({
                let space = self.global_space;
                if space.shown_on(to.x as int, to.y as int) is Some {
                    r == PointerClip::Free
                } else if space.shown_on(from.x as int, from.y as int) is Some {
                    r == PointerClip::Within(space.shown_on(from.x as int, from.y as int)->0.geo)
                } else {
                    &&& r is At
                    &&& (r->At_0.x as int, r->At_0.y as int) == space.outputs@[0].geo.middle()
                }
            }),
    {
        if self.global_space.output_under(to).is_some() {
            return PointerClip::Free;
        }
        match self.global_space.output_under(from) {
            Some(output) => PointerClip::Within(output.geo),
            None => PointerClip::At(center(self.global_space.outputs[0].geo)),
        }
    }

    /// The area in which a device gives absolute positions: the output that the device belongs to, if
    /// it is connected and mapped, or else another one.
    pub fn compute_absolute_location(
        &self,
        device_output: Option<u64>,
        fallback_output: Option<u64>,
        transform: Transform,
    ) -> (r: Option<AbsoluteArea>)
        requires
            self.global_space.wf(),
            states_unique(self.output_state@),
        ensures
            ({
                let output = match device_output {
                    Some(output) if has_state(self.output_state@, output) => Some(output),
                    _ => fallback_output,
                };
                match output {
                    Some(output) if self.global_space.geometry(output) is Some => {
                        let geo = self.global_space.geometry(output)->0;
                        r == Some(
                            AbsoluteArea { geo, size: transform.turned(geo.size), transform },
                        )
                    },
                    _ => r is None,
                }
            }),
    {
        let output = match device_output {
            Some(output) => if self.output_exists(output) {
                Some(output)
            } else {
                fallback_output
            },
            None => fallback_output,
        };
        let Some(output) = output else {
            return None;
        };
        let Some(geo) = self.global_space.output_geometry(output) else {
            return None;
        };
        let size = transform.invert().transform_size(geo.size);
        Some(AbsoluteArea { geo, size, transform })
    }

    /// Whether the constraint of the surface under the pointer is to be activated: the surface has to
    /// have the pointer, and the pointer has to be in the region.
    pub fn maybe_activate_pointer_constraint(
        &self,
        focus: Option<u64>,
        view: Option<ConstraintView>,
    ) -> (r: bool)
        ensures
            r == match (self.pointer.contents.surface, view) {
                (Some(hit), Some(view)) => focus == Some(hit.surface) && !view.active
                    && view.in_region,
                _ => false,
            },
    {
        let Some(hit) = self.pointer.contents.surface else {
            return false;
        };
        if Some(hit.surface) != focus {
            return false;
        }
        let Some(view) = view else {
            return false;
        };
        if view.active {
            return false;
        }
        view.in_region
    }
}

/// The commands for the screenshot selection.
fn start_commands(ui: &ScreenshotUi) -> (r: Vec<PointerCommand>)
    ensures
        r@ == selection_motion(*ui),
{
    let mut commands: Vec<PointerCommand> = Vec::new();
    if let ScreenshotUi::Open { selection_output, .. } = ui {
        commands.push(PointerCommand::ScreenshotMotion(*selection_output));
    }
    commands
}

impl State {
    /// Begins a motion of the pointer. Returns whether the pointer was inside a hot corner, which it
    /// then is not any more, and what holds on to the pointer.
    ///
    /// `view` is the constraint of the surface that was last found under the pointer.
    pub fn on_pointer_motion(&mut self, view: Option<ConstraintView>) -> (r: (bool, MotionStart))
        ensures
            ({
                let before = old(self).niri;
                let nowhere = before.global_space.outputs@.len() == 0;
                &&& r.0 == before.pointer.inside_hot_corner
                &&& r.1 == motion_start(before, view)
                &&& *final(self) == (State {
                    niri: Niri {
                        pointer: PointerState {
                            inside_hot_corner: false,
                            visibility: if nowhere {
                                before.pointer.visibility
                            } else {
                                PointerVisibility::Visible
                            },
                            ..before.pointer
                        },
                        ..before
                    },
                    ..*old(self)
                })
            }),
    {
        let was_inside_hot_corner = self.niri.pointer.inside_hot_corner;
        self.niri.pointer.inside_hot_corner = false;
        if self.niri.global_space.outputs.len() == 0 {
            return (was_inside_hot_corner, MotionStart::Nowhere);
        }
        self.niri.pointer.visibility = PointerVisibility::Visible;
        let mut start = MotionStart::Free;
        if let Some(under) = self.niri.pointer.contents.surface {
            if let Some(view) = view {
                if view.active && view.in_region {
                    start = match view.constraint {
                        PointerConstraint::Locked => MotionStart::Locked(under),
                        PointerConstraint::Confined => MotionStart::Confined(under),
                    };
                }
            }
        }
        (was_inside_hot_corner, start)
    }

    /// Ends a motion of the pointer. Returns whether the pointer moved and what to send. A confined
    /// pointer does not leave its surface.
    pub fn move_pointer(&mut self, confined: Option<SurfaceHit>, view: &MotionView) -> (r: (
        bool,
        Vec<PointerCommand>,
    ))
        ensures
            ({
                let before = old(self).niri;
                let held_back = is_held_back(confined, *view);
                &&& r.0 == !held_back
                &&& r.1@ == motion_commands(before.screenshot_ui, confined, *view)
                &&& *final(self) == (if held_back {
                    *old(self)
                } else {
                    State {
                        niri: Niri {
                            pointer: PointerState { contents: view.under, ..before.pointer },
                            keyboard: KeyboardState {
                                layer_shell_on_demand_focus: on_demand_followed(
                                    before.keyboard.layer_shell_on_demand_focus,
                                    view.follow,
                                    view.under,
                                ),
                                ..before.keyboard
                            },
                            ..before
                        },
                        ..*old(self)
                    }
                })
            }),
    {
        let mut commands = start_commands(&self.niri.screenshot_ui);
        if let Some(focus_surface) = confined {
            let mut prevent = match view.under.surface {
                Some(hit) => hit.surface != focus_surface.surface,
                None => true,
            };
            if !view.in_region {
                prevent = true;
            }
            if prevent {
                commands.push(PointerCommand::RelativeMotion(confined));
                commands.push(PointerCommand::Frame);
                assert(commands@ =~= selection_motion(old(self).niri.screenshot_ui) + seq![
                    PointerCommand::RelativeMotion(confined),
                    PointerCommand::Frame,
                ]);
                return (false, commands);
            }
        }
        let moved = self.niri.handle_focus_follows_mouse(&view.follow, &view.under);
        if let Some(output) = moved.output {
            commands.push(PointerCommand::FocusOutput(output));
        }
        if let Some(window) = moved.window {
            commands.push(PointerCommand::ActivateWindowWithoutRaising(window));
        }
        self.niri.pointer.contents = view.under;
        commands.push(PointerCommand::Motion(view.under.surface));
        commands.push(PointerCommand::RelativeMotion(view.under.surface));
        commands.push(PointerCommand::Frame);
        assert(commands@ =~= selection_motion(old(self).niri.screenshot_ui) + (follow_commands(*view)
            + seq![
            PointerCommand::Motion(view.under.surface),
            PointerCommand::RelativeMotion(view.under.surface),
            PointerCommand::Frame,
        ]));
        (true, commands)
    }

    /// Does what follows a motion: a hot corner opens or closes the overview as the pointer comes into
    /// it, and all is drawn anew.
    pub fn finish_pointer_motion(&mut self, after: &AfterMotion) -> (r: Vec<PointerCommand>)
        ensures
            r@ == after_commands(*after),
            final(self).niri == (Niri {
                pointer: PointerState {
                    inside_hot_corner: old(self).niri.pointer.inside_hot_corner || enters_corner(
                        *after,
                    ),
                    ..old(self).niri.pointer
                },
                output_state: final(self).niri.output_state,
                ..old(self).niri
            }),
            final(self).niri.output_state@ == all_queued(old(self).niri.output_state@),
            final(self).backend == old(self).backend,
    {
        let mut commands: Vec<PointerCommand> = Vec::new();
        if after.hot_corner && !after.focused {
            let allowed = match after.grab {
                Some(grab) => grab.grab_allows_hot_corner(),
                None => true,
            };
            if !after.was_inside_hot_corner && allowed {
                commands.push(PointerCommand::ToggleOverview);
            }
            self.niri.pointer.inside_hot_corner = true;
        }
        commands.push(PointerCommand::ActivateConstraint);
        let is_dnd_grab = match after.grab {
            Some(grab) => grab.is_dnd_grab(),
            None => false,
        };
        if is_dnd_grab {
            if let Some(output) = after.output {
                commands.push(PointerCommand::DndUpdate(output));
            }
        }
        self.niri.queue_redraw_all();
        assert(commands@ =~= after_commands(*after));
        commands
    }

    /// Moves the pointer to an absolute position. Returns whether it was inside a hot corner before,
    /// and what to send. `view` is missing where there is no output to move on.
    pub fn on_pointer_motion_absolute(&mut self, view: Option<MotionView>) -> (r: (
        bool,
        Vec<PointerCommand>,
    ))
        ensures
            ({
                let before = old(self).niri;
                &&& r.0 == before.pointer.inside_hot_corner
                &&& match view {
                    None => {
                        &&& r.1@ == Seq::<PointerCommand>::empty()
                        &&& *final(self) == (State {
                            niri: Niri {
                                pointer: PointerState { inside_hot_corner: false, ..before.pointer },
                                ..before
                            },
                            ..*old(self)
                        })
                    },
                    Some(view) => {
                        &&& r.1@ == selection_motion(before.screenshot_ui) + follow_commands(view)
                            + seq![
                            PointerCommand::Motion(view.under.surface),
                            PointerCommand::Frame,
                        ]
                        &&& *final(self) == (State {
                            niri: Niri {
                                pointer: PointerState {
                                    inside_hot_corner: false,
                                    contents: view.under,
                                    visibility: PointerVisibility::Visible,
                                    ..before.pointer
                                },
                                keyboard: KeyboardState {
                                    layer_shell_on_demand_focus: on_demand_followed(
                                        before.keyboard.layer_shell_on_demand_focus,
                                        view.follow,
                                        view.under,
                                    ),
                                    ..before.keyboard
                                },
                                ..before
                            },
                            ..*old(self)
                        })
                    },
                }
            }),
    {
        let was_inside_hot_corner = self.niri.pointer.inside_hot_corner;
        self.niri.pointer.inside_hot_corner = false;
        let Some(view) = view else {
            return (was_inside_hot_corner, Vec::new());
        };
        let mut commands = start_commands(&self.niri.screenshot_ui);
        let moved = self.niri.handle_focus_follows_mouse(&view.follow, &view.under);
        if let Some(output) = moved.output {
            commands.push(PointerCommand::FocusOutput(output));
        }
        if let Some(window) = moved.window {
            commands.push(PointerCommand::ActivateWindowWithoutRaising(window));
        }
        self.niri.pointer.contents = view.under;
        commands.push(PointerCommand::Motion(view.under.surface));
        commands.push(PointerCommand::Frame);
        self.niri.pointer.visibility = PointerVisibility::Visible;
        assert(commands@ =~= selection_motion(old(self).niri.screenshot_ui) + follow_commands(view)
            + seq![PointerCommand::Motion(view.under.surface), PointerCommand::Frame]);
        (was_inside_hot_corner, commands)
    }
}

/// A mouse button.
#[derive(Clone, Copy, Debug, PartialEq, Eq, Structural)]
pub enum MouseButton {
    Left,
    Middle,
    Right,
    Forward,
    Back,
}

/// A mouse button that goes down or up.
#[derive(Clone, Copy, Debug, PartialEq, Eq, Structural)]
pub struct ButtonEvent {
    pub button: Option<MouseButton>,
    pub code: u32,
    pub pressed: bool,
    pub mods: ModifiersState,
    /// When, in nanoseconds.
    pub time: u64,
}

/// When the resizing of a window began, and by which edges.
#[derive(Clone, Copy, Debug, PartialEq, Eq, Structural)]
pub struct ResizeStart {
    pub time: u64,
    pub edges: ResizeEdge,
}

/// A workspace under the cursor.
#[derive(Clone, Copy, Debug, PartialEq, Eq, Structural)]
pub struct WorkspaceUnder {
    pub output: u64,
    pub id: u64,
    /// Its place among the workspaces.
    pub index: usize,
}

/// The window under the cursor.
#[derive(Clone, Copy, Debug, PartialEq, Eq, Structural)]
pub struct WindowAtCursor {
    pub id: u64,
    pub is_floating: bool,
    /// The edges by which it would be resized from there.
    pub edges: ResizeEdge,
    /// When it was last resized.
    pub last_resize: Option<ResizeStart>,
}

/// What a mouse button finds.
#[derive(Clone, Copy, Debug, PartialEq, Eq, Structural)]
pub struct ButtonView {
    pub overview_open: bool,
    pub pointer_grabbed: bool,
    /// The workspace under the cursor, the space beside it included.
    pub workspace_beside: Option<WorkspaceUnder>,
    /// The workspace under the cursor.
    pub workspace: Option<WorkspaceUnder>,
    /// The output under the cursor.
    pub output: Option<u64>,
    /// The active workspace of that output.
    pub active_workspace: Option<u64>,
    pub window: Option<WindowAtCursor>,
}

/// What a mouse button leads to before the pointer's contents are looked up.
#[derive(Debug)]
pub enum ButtonStart {
    /// Nothing, since its press was swallowed.
    Swallowed,
    /// A bind, by its place in the list.
    Bind(usize),
    /// Commands and nothing else.
    Done(Vec<PointerCommand>),
    /// Commands, after which the button goes to the client.
    GoOn(Vec<PointerCommand>),
}

/// What pressing a mouse button leads to, and whether that is all.
#[verifier::ext_equal]
pub struct Press {
    pub all: bool,
    pub commands: Seq<PointerCommand>,
}

/// The trigger of a mouse button.
pub open spec fn trigger_of(button: Option<MouseButton>) -> Option<Trigger> {
    match button {
        Some(MouseButton::Left) => Some(Trigger::MouseLeft),
        Some(MouseButton::Right) => Some(Trigger::MouseRight),
        Some(MouseButton::Middle) => Some(Trigger::MouseMiddle),
        Some(MouseButton::Back) => Some(Trigger::MouseBack),
        Some(MouseButton::Forward) => Some(Trigger::MouseForward),
        None => None,
    }
}

/// The configured bind of a trigger, if it is carried out at this time.
pub open spec fn usable_bind(
    binds: Seq<Bind>,
    mod_key: ModKey,
    trigger: Trigger,
    mods: ModifiersState,
    selecting: bool,
) -> Option<int> {
    match first_set_off(binds, mod_key, trigger, mods) {
        Some(i) if !selecting || works_during_screenshot(binds[i].action) => Some(i),
        _ => None,
    }
}

/// The bind that a mouse button sets off.
pub open spec fn button_bind(
    niri: Niri,
    event: ButtonEvent,
    binds: Seq<Bind>,
    mod_key: ModKey,
) -> Option<int> {
    match trigger_of(event.button) {
        Some(trigger) if event.pressed && niri.input.mods_with_mouse_binds@.contains(
            held(event.mods),
        ) => usable_bind(binds, mod_key, trigger, event.mods, niri.screenshot_ui is Open),
        _ => None,
    }
}

/// The workspace that the middle button scrolls: the one under the cursor in the overview, and else
/// the active one of the output, so that none is caught in the middle of an animation.
pub open spec fn middle_target(view: ButtonView) -> Option<(u64, u64)> {
    if view.overview_open {
        match view.workspace_beside {
            Some(ws) => Some((ws.output, ws.id)),
            None => None,
        }
    } else {
        match (view.output, view.active_workspace) {
            (Some(output), Some(id)) => Some((output, id)),
            _ => None,
        }
    }
}

/// Whether two sets of edges have one in common to the left or right.
pub open spec fn share_side(a: ResizeEdge, b: ResizeEdge) -> bool {
    a.left && b.left || a.right && b.right
}

/// Whether two sets of edges have one in common at the top or bottom.
pub open spec fn share_end(a: ResizeEdge, b: ResizeEdge) -> bool {
    a.top && b.top || a.bottom && b.bottom
}

/// Whether a click to resize is the second in short order. On floating windows there is no such
/// gesture.
pub open spec fn is_double_resize(window: WindowAtCursor, time: u64) -> bool {
    !window.is_floating && (window.last_resize matches Some(last) && time - last.time
        <= DOUBLE_CLICK_TIME)
}

/// Whether a click starts to move a window.
pub open spec fn moves_window(event: ButtonEvent, mod_down: bool, view: ButtonView) -> bool {
    event.button == Some(MouseButton::Left) && !view.pointer_grabbed && (view.overview_open
        || mod_down)
}

/// Whether a click starts to resize a window.
pub open spec fn resizes_window(event: ButtonEvent, mod_down: bool, view: ButtonView) -> bool {
    event.button == Some(MouseButton::Right) && !view.pointer_grabbed && mod_down && (
    view.window matches Some(window) && window.edges != no_edges())
}

/// No edges at all.
pub open spec fn no_edges() -> ResizeEdge {
    ResizeEdge { top: false, bottom: false, left: false, right: false }
}

/// What activates a window that was clicked, which in the overview waits.
pub open spec fn activation(view: ButtonView, window: u64) -> Seq<PointerCommand> {
    if view.overview_open {
        Seq::empty()
    } else {
        seq![PointerCommand::ActivateWindow(window)]
    }
}

/// What a double click to resize leads to.
pub open spec fn double_resize(window: WindowAtCursor) -> Seq<PointerCommand> {
    let last = window.last_resize->0.edges;
    seq![PointerCommand::SetLastResize { window: window.id, start: None }] + (if share_side(
        window.edges,
        last,
    ) {
        seq![PointerCommand::ActivateWindow(window.id), PointerCommand::ToggleFullWidth]
    } else {
        Seq::empty()
    }) + (if share_end(window.edges, last) {
        seq![
            PointerCommand::ActivateWindow(window.id),
            PointerCommand::ResetWindowHeight(window.id),
        ]
    } else {
        Seq::empty()
    }) + seq![PointerCommand::QueueRedrawAll]
}

/// What pressing a button on a window leads to.
pub open spec fn window_press(
    event: ButtonEvent,
    mod_down: bool,
    view: ButtonView,
    window: WindowAtCursor,
) -> Press {
    if resizes_window(event, mod_down, view) && is_double_resize(window, event.time) {
        Press { all: true, commands: double_resize(window) }
    } else {
        Press {
            all: false,
            commands: (if moves_window(event, mod_down, view) {
                activation(view, window.id) + seq![
                    PointerCommand::StartMoveGrab { window: window.id, show: !view.overview_open },
                ]
            } else if resizes_window(event, mod_down, view) {
                seq![
                    PointerCommand::SetLastResize {
                        window: window.id,
                        start: if window.is_floating {
                            None
                        } else {
                            Some(ResizeStart { time: event.time, edges: window.edges })
                        },
                    },
                    PointerCommand::ActivateWindow(window.id),
                    PointerCommand::StartResizeGrab { window: window.id, edges: window.edges },
                ]
            } else {
                Seq::empty()
            }) + activation(view, window.id) + seq![PointerCommand::QueueRedrawAll],
        }
    }
}

/// What pressing a button leads to that sets off no bind.
pub open spec fn press(event: ButtonEvent, mod_down: bool, view: ButtonView) -> Press {
    let beside = view.workspace_beside;
    if view.overview_open && !view.pointer_grabbed && event.button == Some(MouseButton::Right)
        && beside is Some {
        Press {
            all: true,
            commands: seq![
                PointerCommand::FocusOutput(beside->0.output),
                PointerCommand::BeginViewOffsetGesture {
                    output: beside->0.output,
                    workspace: beside->0.index,
                },
                PointerCommand::StartSpatialGrab {
                    output: beside->0.output,
                    workspace: beside->0.id,
                    is_view_offset: true,
                },
                PointerCommand::SetCursor(CursorIcon::AllScroll),
                PointerCommand::QueueRedrawAll,
            ],
        }
    } else if event.button == Some(MouseButton::Middle) && !view.pointer_grabbed && mod_down
        && middle_target(view) is Some {
        let (output, workspace) = middle_target(view)->0;
        Press {
            all: true,
            commands: seq![
                PointerCommand::FocusOutput(output),
                PointerCommand::StartSpatialGrab { output, workspace, is_view_offset: false },
                PointerCommand::SetCursor(CursorIcon::AllScroll),
                PointerCommand::QueueRedrawAll,
            ],
        }
    } else if view.window is Some {
        window_press(event, mod_down, view, view.window->0)
    } else {
        Press {
            all: false,
            commands: match (view.workspace, view.output) {
                (Some(ws), _) if view.overview_open => seq![
                    PointerCommand::FocusOutput(ws.output),
                    PointerCommand::ToggleOverviewToWorkspace(ws.index),
                    PointerCommand::QueueRedrawAll,
                ],
                (_, Some(output)) => seq![
                    PointerCommand::FocusOutput(output),
                    PointerCommand::QueueRedrawAll,
                ],
                _ => Seq::empty(),
            },
        }
    }
}

/// The trigger of a mouse button.
fn button_trigger(button: Option<MouseButton>) -> (r: Option<Trigger>)
    ensures
        r == trigger_of(button),
{
    match button {
        Some(MouseButton::Left) => Some(Trigger::MouseLeft),
        Some(MouseButton::Right) => Some(Trigger::MouseRight),
        Some(MouseButton::Middle) => Some(Trigger::MouseMiddle),
        Some(MouseButton::Back) => Some(Trigger::MouseBack),
        Some(MouseButton::Forward) => Some(Trigger::MouseForward),
        None => None,
    }
}

/// Finds the configured bind of a trigger, if it is carried out at this time.
fn find_usable_bind(
    binds: &Vec<Bind>,
    mod_key: ModKey,
    trigger: Trigger,
    mods: ModifiersState,
    selecting: bool,
) -> (r: Option<usize>)
    ensures
        match (r, usable_bind(binds@, mod_key, trigger, mods, selecting)) {
            (Some(i), Some(k)) => i == k && i < binds@.len(),
            (None, None) => true,
            _ => false,
        },
{
    match find_configured_bind(binds, mod_key, trigger, mods) {
        Some(i) => if !selecting || allowed_during_screenshot(&binds[i].action) {
            Some(i)
        } else {
            None
        },
        None => None,
    }
}

/// Presses a button on a window.
fn press_window(event: &ButtonEvent, mod_down: bool, view: &ButtonView, window: &WindowAtCursor) -> (r: (
    bool,
    Vec<PointerCommand>,
))
    requires
        view.window == Some(*window),
    ensures
        (Press { all: r.0, commands: r.1@ }) == window_press(*event, mod_down, *view, *window),
{
    let mut commands: Vec<PointerCommand> = Vec::new();
    if event.button == Some(MouseButton::Left) && !view.pointer_grabbed {
        if view.overview_open || mod_down {
            if !view.overview_open {
                commands.push(PointerCommand::ActivateWindow(window.id));
            }
            commands.push(
                PointerCommand::StartMoveGrab { window: window.id, show: !view.overview_open },
            );
        }
    } else if event.button == Some(MouseButton::Right) && !view.pointer_grabbed && mod_down {
        let edges = window.edges;
        if edges.top || edges.bottom || edges.left || edges.right {
            assert(edges != no_edges());
            let mut last = window.last_resize;
            let mut kept = Some(ResizeStart { time: event.time, edges });
            if window.is_floating {
                last = None;
                kept = None;
            }
            if let Some(last) = last {
                let elapsed: u64 = if event.time >= last.time {
                    event.time - last.time
                } else {
                    0
                };
                if elapsed <= DOUBLE_CLICK_TIME {
                    commands.push(PointerCommand::SetLastResize { window: window.id, start: None });
                    if edges.left && last.edges.left || edges.right && last.edges.right {
                        commands.push(PointerCommand::ActivateWindow(window.id));
                        commands.push(PointerCommand::ToggleFullWidth);
                    }
                    if edges.top && last.edges.top || edges.bottom && last.edges.bottom {
                        commands.push(PointerCommand::ActivateWindow(window.id));
                        commands.push(PointerCommand::ResetWindowHeight(window.id));
                    }
                    commands.push(PointerCommand::QueueRedrawAll);
                    assert(commands@ =~= double_resize(*window));
                    return (true, commands);
                }
            }
            commands.push(PointerCommand::SetLastResize { window: window.id, start: kept });
            commands.push(PointerCommand::ActivateWindow(window.id));
            commands.push(PointerCommand::StartResizeGrab { window: window.id, edges });
        } else {
            assert(edges == no_edges());
        }
    }
    if !view.overview_open {
        commands.push(PointerCommand::ActivateWindow(window.id));
    }
    commands.push(PointerCommand::QueueRedrawAll);
    assert(commands@ =~= window_press(*event, mod_down, *view, *window).commands);
    (false, commands)
}

/// Presses a button that sets off no bind.
fn press_button(event: &ButtonEvent, mod_down: bool, view: &ButtonView) -> (r: (
    bool,
    Vec<PointerCommand>,
))
    ensures
        (Press { all: r.0, commands: r.1@ }) == press(*event, mod_down, *view),
{
    let mut commands: Vec<PointerCommand> = Vec::new();
    if view.overview_open && !view.pointer_grabbed && event.button == Some(MouseButton::Right) {
        if let Some(ws) = view.workspace_beside {
            commands.push(PointerCommand::FocusOutput(ws.output));
            commands.push(
                PointerCommand::BeginViewOffsetGesture { output: ws.output, workspace: ws.index },
            );
            commands.push(
                PointerCommand::StartSpatialGrab {
                    output: ws.output,
                    workspace: ws.id,
                    is_view_offset: true,
                },
            );
            commands.push(PointerCommand::SetCursor(CursorIcon::AllScroll));
            commands.push(PointerCommand::QueueRedrawAll);
            assert(commands@ =~= press(*event, mod_down, *view).commands);
            return (true, commands);
        }
    }
    if event.button == Some(MouseButton::Middle) && !view.pointer_grabbed && mod_down {
        let output_ws = if view.overview_open {
            match view.workspace_beside {
                Some(ws) => Some((ws.output, ws.id)),
                None => None,
            }
        } else {
            match (view.output, view.active_workspace) {
                (Some(output), Some(id)) => Some((output, id)),
                _ => None,
            }
        };
        if let Some((output, workspace)) = output_ws {
            commands.push(PointerCommand::FocusOutput(output));
            commands.push(
                PointerCommand::StartSpatialGrab { output, workspace, is_view_offset: false },
            );
            commands.push(PointerCommand::SetCursor(CursorIcon::AllScroll));
            commands.push(PointerCommand::QueueRedrawAll);
            assert(commands@ =~= press(*event, mod_down, *view).commands);
            return (true, commands);
        }
    }
    if let Some(window) = &view.window {
        return press_window(event, mod_down, view, window);
    }
    if view.overview_open {
        if let Some(ws) = view.workspace {
            commands.push(PointerCommand::FocusOutput(ws.output));
            commands.push(PointerCommand::ToggleOverviewToWorkspace(ws.index));
            commands.push(PointerCommand::QueueRedrawAll);
            assert(commands@ =~= press(*event, mod_down, *view).commands);
            return (false, commands);
        }
    }
    if let Some(output) = view.output {
        commands.push(PointerCommand::FocusOutput(output));
        commands.push(PointerCommand::QueueRedrawAll);
    }
    assert(commands@ =~= press(*event, mod_down, *view).commands);
    (false, commands)
}

/// The output on which a click begins a screenshot selection, or on which it moves the selection.
pub open spec fn selection_target(
    ui: ScreenshotUi,
    mod_down: bool,
    output_under: Option<u64>,
) -> Option<u64> {
    match ui {
        ScreenshotUi::Open { selection_output, .. } if mod_down => Some(selection_output),
        ScreenshotUi::Open { .. } => output_under,
        ScreenshotUi::Closed => None,
    }
}

/// What the end of a button event leads to.
pub open spec fn button_end(
    niri: Niri,
    event: ButtonEvent,
    mod_down: bool,
    output_under: Option<u64>,
) -> Seq<PointerCommand> {
    (if event.button == Some(MouseButton::Left) && niri.screenshot_ui is Open {
        if !event.pressed {
            seq![PointerCommand::ScreenshotPointerUp]
        } else {
            match selection_target(niri.screenshot_ui, mod_down, output_under) {
                Some(output) => seq![
                    PointerCommand::ScreenshotPointerDown { output, move_selection: mod_down },
                ],
                None => Seq::empty(),
            }
        }
    } else {
        Seq::empty()
    }) + seq![PointerCommand::Button, PointerCommand::Frame]
}

impl State {
    /// Begins a button event. The release of a button whose press set off a bind is swallowed.
    pub fn on_pointer_button(
        &mut self,
        event: &ButtonEvent,
        view: &ButtonView,
        binds: &Vec<Bind>,
        mod_key: ModKey,
    ) -> (r: ButtonStart)
        ensures
            ({
                let before = old(self).niri;
                let suppressed = before.input.suppressed_buttons@;
                let swallowed = suppressed.contains(event.code);
                let bind = button_bind(before, *event, binds@, mod_key);
                let mod_down = held(event.mods).has(mod_key);
                let pressed = press(*event, mod_down, *view);
                &&& match r {
                    ButtonStart::Swallowed => swallowed,
                    ButtonStart::Bind(i) => !swallowed && bind == Some(i as int) && i < binds@.len(),
                    ButtonStart::Done(commands) => !swallowed && bind is None && event.pressed
                        && pressed.all && commands@ == pressed.commands,
                    ButtonStart::GoOn(commands) => !swallowed && bind is None && if event.pressed {
                        !pressed.all && commands@ == pressed.commands
                    } else {
                        commands@ == Seq::<PointerCommand>::empty()
                    },
                }
                &&& final(self).niri.input.suppressed_buttons@ == (if swallowed {
                    suppressed.remove(event.code)
                } else if bind is Some {
                    suppressed.insert(event.code)
                } else {
                    suppressed
                })
                &&& *final(self) == (State {
                    niri: Niri {
                        input: InputState {
                            suppressed_buttons: final(self).niri.input.suppressed_buttons,
                            ..before.input
                        },
                        pointer: PointerState {
                            visibility: if event.pressed && !swallowed && bind is None {
                                PointerVisibility::Visible
                            } else {
                                before.pointer.visibility
                            },
                            ..before.pointer
                        },
                        ..before
                    },
                    ..*old(self)
                })
            }),
    {
        if self.niri.input.suppressed_buttons.remove(&event.code) {
            return ButtonStart::Swallowed;
        }
        assert(self.niri.input.suppressed_buttons@ =~= old(self).niri.input.suppressed_buttons@);
        let modifiers = modifiers_from_state(event.mods);
        let mod_down = modifiers.contains(mod_key.to_modifiers());
        assert(mod_down == held(event.mods).has(mod_key));
        if event.pressed {
            if modifiers_in(&self.niri.input.mods_with_mouse_binds, modifiers) {
                if let Some(trigger) = button_trigger(event.button) {
                    let selecting = self.niri.screenshot_ui.is_open();
                    if let Some(i) = find_usable_bind(
                        binds,
                        mod_key,
                        trigger,
                        event.mods,
                        selecting,
                    ) {
                        self.niri.input.suppressed_buttons.insert(event.code);
                        return ButtonStart::Bind(i);
                    }
                }
            }
            self.niri.pointer.visibility = PointerVisibility::Visible;
            let (all, commands) = press_button(event, mod_down, view);
            if all {
                return ButtonStart::Done(commands);
            }
            return ButtonStart::GoOn(commands);
        }
        ButtonStart::GoOn(Vec::new())
    }

    /// Ends a button event that goes to the client: looks up what lies under the pointer, lets a layer
    /// surface take the focus, and tells the screenshot selection. Returns whether what lies under the
    /// pointer has changed, whether the focus has, and what to send.
    pub fn finish_pointer_button(
        &mut self,
        event: &ButtonEvent,
        mod_key: ModKey,
        found: PointContents,
        interactivity: KeyboardInteractivity,
        output_under: Option<u64>,
    ) -> (r: (bool, bool, Vec<PointerCommand>))
        ensures
            ({
                let before = old(self).niri;
                let pointer = settled(before.pointer, found);
                let on_demand = if !event.pressed {
                    before.keyboard.layer_shell_on_demand_focus
                } else if interactivity == KeyboardInteractivity::OnDemand {
                    pointer.contents.layer
                } else {
                    None
                };
                &&& r.0 == (pointer.contents != before.pointer.contents)
                &&& r.1 == (on_demand != before.keyboard.layer_shell_on_demand_focus)
                &&& r.2@ == button_end(
                    before,
                    *event,
                    held(event.mods).has(mod_key),
                    output_under,
                )
                &&& *final(self) == (State {
                    niri: Niri {
                        pointer,
                        keyboard: KeyboardState {
                            layer_shell_on_demand_focus: on_demand,
                            ..before.keyboard
                        },
                        ..before
                    },
                    ..*old(self)
                })
            }),
    {
        let mut commands: Vec<PointerCommand> = Vec::new();
        let modifiers = modifiers_from_state(event.mods);
        let mod_down = modifiers.contains(mod_key.to_modifiers());
        assert(mod_down == held(event.mods).has(mod_key));
        let moved = self.update_pointer_contents(found);
        let mut refocused = false;
        if event.pressed {
            let layer_under = self.niri.pointer.contents.layer;
            refocused = self.niri.focus_layer_surface_if_on_demand(layer_under, interactivity);
        }
        if event.button == Some(MouseButton::Left) {
            if let ScreenshotUi::Open { selection_output, .. } = &self.niri.screenshot_ui {
                if event.pressed {
                    let output = if mod_down {
                        Some(*selection_output)
                    } else {
                        output_under
                    };
                    if let Some(output) = output {
                        commands.push(
                            PointerCommand::ScreenshotPointerDown {
                                output,
                                move_selection: mod_down,
                            },
                        );
                    }
                } else {
                    commands.push(PointerCommand::ScreenshotPointerUp);
                }
            }
        }
        commands.push(PointerCommand::Button);
        commands.push(PointerCommand::Frame);
        assert(commands@ =~= button_end(old(self).niri, *event, mod_down, output_under));
        (moved, refocused, commands)
    }
}

/// What a turn of the wheel is used for.
#[derive(Clone, Copy, Debug, PartialEq, Eq, Structural)]
pub enum WheelUse {
    /// It sets off binds, in the overview those of the overview.
    Binds { in_overview: bool },
    /// It goes to the client, and what was gathered for binds is dropped.
    ResetAndPass,
    /// It goes to the client.
    Pass,
}

/// What a turn of the wheel, or another way to scroll, is used for. In the overview it is for the overview,
/// unless a layer surface has the pointer.
pub open spec fn wheel_use(
    niri: Niri,
    is_wheel: bool,
    mods: ModifiersState,
    overview_open: bool,
    focus_root: Option<u64>,
    mapped_layers: Seq<u64>,
) -> WheelUse {
    let in_overview = overview_open && !(focus_root is Some && mapped_layers.contains(
        focus_root->0,
    ));
    if !is_wheel {
        WheelUse::Pass
    } else if in_overview || niri.input.mods_with_wheel_binds@.contains(held(mods)) {
        WheelUse::Binds { in_overview }
    } else {
        WheelUse::ResetAndPass
    }
}

/// A bind that is set off so many times by the wheel.
#[derive(Debug)]
pub struct WheelRun {
    pub bind: FoundBind,
    pub times: u8,
}

/// The binds of the two directions of a wheel.
#[derive(Debug)]
pub struct WheelBinds {
    pub back: Option<FoundBind>,
    pub forth: Option<FoundBind>,
}

/// A configured bind as one that was found.
pub open spec fn configured(i: Option<int>) -> Option<FoundBind> {
    match i {
        Some(i) => Some(FoundBind::Configured(i as usize)),
        None => None,
    }
}

/// The binds of the horizontal wheel.
pub open spec fn horizontal_binds(
    in_overview: bool,
    binds: Seq<Bind>,
    mod_key: ModKey,
    mods: ModifiersState,
    selecting: bool,
) -> WheelBinds {
    if in_overview && held(mods) == Modifiers::none() {
        WheelBinds {
            back: Some(
                FoundBind::Fixed(
                    fixed_bind(
                        Trigger::WheelScrollLeft,
                        Action::FocusColumnLeftUnderMouse,
                        true,
                        None,
                    ),
                ),
            ),
            forth: Some(
                FoundBind::Fixed(
                    fixed_bind(
                        Trigger::WheelScrollRight,
                        Action::FocusColumnRightUnderMouse,
                        true,
                        None,
                    ),
                ),
            ),
        }
    } else {
        WheelBinds {
            back: configured(
                usable_bind(binds, mod_key, Trigger::WheelScrollLeft, mods, selecting),
            ),
            forth: configured(
                usable_bind(binds, mod_key, Trigger::WheelScrollRight, mods, selecting),
            ),
        }
    }
}

/// For how many milliseconds the binds of the wheel rest in the overview.
pub const OVERVIEW_WHEEL_COOLDOWN_MS: u64 = 50;

/// Only the shift key.
pub open spec fn only_shift() -> Modifiers {
    Modifiers { shift: true, ..Modifiers::none() }
}

/// The binds of the vertical wheel. In the overview it goes through the workspaces, and with the shift
/// key through the columns.
pub open spec fn vertical_binds(
    in_overview: bool,
    binds: Seq<Bind>,
    mod_key: ModKey,
    mods: ModifiersState,
    selecting: bool,
) -> WheelBinds {
    let rest = Some(OVERVIEW_WHEEL_COOLDOWN_MS);
    if in_overview && held(mods) == Modifiers::none() {
        WheelBinds {
            back: Some(
                FoundBind::Fixed(
                    fixed_bind(
                        Trigger::WheelScrollUp,
                        Action::FocusWorkspaceUpUnderMouse,
                        true,
                        rest,
                    ),
                ),
            ),
            forth: Some(
                FoundBind::Fixed(
                    fixed_bind(
                        Trigger::WheelScrollDown,
                        Action::FocusWorkspaceDownUnderMouse,
                        true,
                        rest,
                    ),
                ),
            ),
        }
    } else if in_overview && held(mods) == only_shift() {
        WheelBinds {
            back: Some(
                FoundBind::Fixed(
                    fixed_bind(
                        Trigger::WheelScrollUp,
                        Action::FocusColumnLeftUnderMouse,
                        true,
                        rest,
                    ),
                ),
            ),
            forth: Some(
                FoundBind::Fixed(
                    fixed_bind(
                        Trigger::WheelScrollDown,
                        Action::FocusColumnRightUnderMouse,
                        true,
                        rest,
                    ),
                ),
            ),
        }
    } else {
        WheelBinds {
            back: configured(usable_bind(binds, mod_key, Trigger::WheelScrollUp, mods, selecting)),
            forth: configured(
                usable_bind(binds, mod_key, Trigger::WheelScrollDown, mods, selecting),
            ),
        }
    }
}

/// What so many ticks of a wheel set off: forwards where they are positive, backwards where they are
/// negative.
pub open spec fn wheel_run(binds: WheelBinds, ticks: i8) -> Option<WheelRun> {
    if ticks > 0 && binds.forth is Some {
        Some(WheelRun { bind: binds.forth->0, times: ticks as u8 })
    } else if ticks < 0 && binds.back is Some {
        Some(WheelRun { bind: binds.back->0, times: (-ticks) as u8 })
    } else {
        None
    }
}

/// Counts out the ticks of a wheel.
fn make_wheel_run(binds: WheelBinds, ticks: i8) -> (r: Option<WheelRun>)
    ensures
        r == wheel_run(binds, ticks),
{
    if ticks > 0 {
        match binds.forth {
            Some(bind) => Some(WheelRun { bind, times: ticks as u8 }),
            None => None,
        }
    } else if ticks < 0 {
        let times: i16 = 0 - (ticks as i16);
        match binds.back {
            Some(bind) => Some(WheelRun { bind, times: times as u8 }),
            None => None,
        }
    } else {
        None
    }
}

/// A configured bind as one that was found.
fn as_configured(i: Option<usize>) -> (r: Option<FoundBind>)
    ensures
        r == (match i {
            Some(i) => Some(FoundBind::Configured(i)),
            None => None,
        }),
{
    match i {
        Some(i) => Some(FoundBind::Configured(i)),
        None => None,
    }
}

/// An always present bind of the wheel.
fn wheel_bind(trigger: Trigger, action: Action, cooldown: Option<u64>) -> (r: Option<FoundBind>)
    ensures
        r == Some(FoundBind::Fixed(fixed_bind(trigger, action, true, cooldown))),
{
    Some(FoundBind::Fixed(make_fixed_bind(trigger, action, true, cooldown)))
}

impl State {
    /// Begins a turn of the wheel, or another way to scroll. The pointer shows from then on.
    ///
    /// `focus_root` is the root of the surface that has the pointer. Where it is one of the mapped
    /// layers, it gets the wheel in the overview too.
    pub fn on_pointer_axis(
        &mut self,
        is_wheel: bool,
        mods: ModifiersState,
        overview_open: bool,
        focus_root: Option<u64>,
        mapped_layers: &Vec<u64>,
    ) -> (r: WheelUse)
        ensures
            ({
                let before = old(self).niri;
                &&& r == wheel_use(
                    before,
                    is_wheel,
                    mods,
                    overview_open,
                    focus_root,
                    mapped_layers@,
                )
                &&& *final(self) == (State {
                    niri: Niri {
                        pointer: PointerState {
                            visibility: PointerVisibility::Visible,
                            ..before.pointer
                        },
                        ..before
                    },
                    ..*old(self)
                })
            }),
    {
        self.niri.pointer.visibility = PointerVisibility::Visible;
        let should_handle_in_overview = overview_open && match focus_root {
            Some(root) => !has_id(mapped_layers, root),
            None => true,
        };
        if is_wheel {
            let modifiers = modifiers_from_state(mods);
            let should_handle = should_handle_in_overview || modifiers_in(
                &self.niri.input.mods_with_wheel_binds,
                modifiers,
            );
            if should_handle {
                return WheelUse::Binds { in_overview: should_handle_in_overview };
            }
            return WheelUse::ResetAndPass;
        }
        WheelUse::Pass
    }

    /// The bind that a turn of the horizontal wheel sets off. It is set off before the vertical one is
    /// looked up.
    pub fn horizontal_wheel_run(
        &self,
        in_overview: bool,
        ticks: i8,
        mods: ModifiersState,
        binds: &Vec<Bind>,
        mod_key: ModKey,
    ) -> (r: Option<WheelRun>)
        ensures
            r == wheel_run(
                horizontal_binds(
                    in_overview,
                    binds@,
                    mod_key,
                    mods,
                    self.niri.screenshot_ui is Open,
                ),
                ticks,
            ),
    {
        let modifiers = modifiers_from_state(mods);
        let selecting = self.niri.screenshot_ui.is_open();
        let across = if in_overview && modifiers.is_empty() {
            WheelBinds {
                back: wheel_bind(
                    Trigger::WheelScrollLeft,
                    Action::FocusColumnLeftUnderMouse,
                    None,
                ),
                forth: wheel_bind(
                    Trigger::WheelScrollRight,
                    Action::FocusColumnRightUnderMouse,
                    None,
                ),
            }
        } else {
            WheelBinds {
                back: as_configured(
                    find_usable_bind(binds, mod_key, Trigger::WheelScrollLeft, mods, selecting),
                ),
                forth: as_configured(
                    find_usable_bind(binds, mod_key, Trigger::WheelScrollRight, mods, selecting),
                ),
            }
        };
        make_wheel_run(across, ticks)
    }

    /// The bind that a turn of the vertical wheel sets off.
    pub fn vertical_wheel_run(
        &self,
        in_overview: bool,
        ticks: i8,
        mods: ModifiersState,
        binds: &Vec<Bind>,
        mod_key: ModKey,
    ) -> (r: Option<WheelRun>)
        ensures
            r == wheel_run(
                vertical_binds(
                    in_overview,
                    binds@,
                    mod_key,
                    mods,
                    self.niri.screenshot_ui is Open,
                ),
                ticks,
            ),
    {
        let modifiers = modifiers_from_state(mods);
        let selecting = self.niri.screenshot_ui.is_open();
        let rest = Some(OVERVIEW_WHEEL_COOLDOWN_MS);
        let mut shift = Modifiers::empty();
        shift.shift = true;
        let along = if in_overview && modifiers.is_empty() {
            WheelBinds {
                back: wheel_bind(
                    Trigger::WheelScrollUp,
                    Action::FocusWorkspaceUpUnderMouse,
                    rest,
                ),
                forth: wheel_bind(
                    Trigger::WheelScrollDown,
                    Action::FocusWorkspaceDownUnderMouse,
                    rest,
                ),
            }
        } else if in_overview && modifiers == shift {
            WheelBinds {
                back: wheel_bind(Trigger::WheelScrollUp, Action::FocusColumnLeftUnderMouse, rest),
                forth: wheel_bind(
                    Trigger::WheelScrollDown,
                    Action::FocusColumnRightUnderMouse,
                    rest,
                ),
            }
        } else {
            WheelBinds {
                back: as_configured(
                    find_usable_bind(binds, mod_key, Trigger::WheelScrollUp, mods, selecting),
                ),
                forth: as_configured(
                    find_usable_bind(binds, mod_key, Trigger::WheelScrollDown, mods, selecting),
                ),
            }
        };
        make_wheel_run(along, ticks)
    }
}

/// A pointer that stays inside a hot corner opens or closes the overview only as it comes in: the next
/// motion that finds it there does nothing of the kind.
pub proof fn law_hot_corner_triggers_once(first: AfterMotion, second: AfterMotion)
    requires
        enters_corner(first),
        second.was_inside_hot_corner == enters_corner(first),
    ensures
        !after_commands(second).contains(PointerCommand::ToggleOverview),
{
    let commands = after_commands(second);
    assert forall|i: int| 0 <= i < commands.len() implies #[trigger] commands[i]
        != PointerCommand::ToggleOverview by {
        if i > 0 {
            assert(commands.len() == 2);
        }
    }
}

/// A third click in short order resizes again: a double click leaves no trace of the clicks before it.
pub proof fn law_triple_click_resizes(
    event: ButtonEvent,
    mod_down: bool,
    view: ButtonView,
    window: WindowAtCursor,
)
    requires
        view.window == Some(window),
        resizes_window(event, mod_down, view),
        window.last_resize is None,
    ensures
        window_press(event, mod_down, view, window).commands.contains(
            PointerCommand::StartResizeGrab { window: window.id, edges: window.edges },
        ),
        !window_press(event, mod_down, view, window).all,
{
    let commands = window_press(event, mod_down, view, window).commands;
    assert(commands[2] == PointerCommand::StartResizeGrab {
        window: window.id,
        edges: window.edges,
    });
}

} // verus!
