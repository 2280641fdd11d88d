//! Pointer grabs: what a pointer is busy with while a button is held.
use vstd::prelude::*;

verus! {

/// What the pointer is busy with.
#[derive(Clone, Copy, Debug, PartialEq, Eq, Structural)]
pub enum PointerGrab {
    /// A button is held on a surface.
    Click,
    /// A window is being resized.
    Resize,
    /// The view of a workspace is being scrolled on an output, or its workspaces are.
    SpatialMovement { view_offset_output: Option<u64>, workspace_switch_output: Option<u64> },
    /// A window is being moved, or the view is being scrolled by a window.
    Move { is_move: bool, view_offset_output: Option<u64> },
    DragAndDrop,
    PickWindow,
    PickColor,
    /// A pop-up is open.
    Popup,
}

/// The output across whose edges the pointer comes round to the other side.
#[derive(Clone, Copy, Debug, PartialEq, Eq, Structural)]
pub struct PointerWrap {
    pub output: u64,
    /// Whether it does so at the left and right edges, and not at the top and bottom ones.
    pub horizontal: bool,
}

impl PointerGrab {
    /// Whether something is being dragged.
    pub fn is_dnd_grab(&self) -> (r: bool)
        ensures
            r == (*self is DragAndDrop),
    {
        matches!(self, PointerGrab::DragAndDrop)
    }

    /// Whether the escape key ends the grab.
    pub open spec fn ends_on_escape(self) -> bool {
        self is PickWindow || self is PickColor || self is DragAndDrop
    }

    /// Whether the escape key ends the grab.
    pub fn grab_can_be_cancelled_with_esc(&self) -> (r: bool)
        ensures
            r == self.ends_on_escape(),
    {
        matches!(self, PointerGrab::PickWindow) || matches!(self, PointerGrab::PickColor)
            || self.is_dnd_grab()
    }

    /// Whether a hot corner works during the grab.
    pub open spec fn leaves_hot_corner(self) -> bool {
        match self {
            PointerGrab::Resize | PointerGrab::SpatialMovement { .. } => false,
            PointerGrab::Move { is_move, .. } => is_move,
            _ => true,
        }
    }

    /// Whether a hot corner works during the grab: not while resizing or scrolling.
    pub fn grab_allows_hot_corner(&self) -> (r: bool)
        ensures
            r == self.leaves_hot_corner(),
    {
        if matches!(self, PointerGrab::Resize) || matches!(self, PointerGrab::SpatialMovement { .. }) {
            return false;
        }
        if let PointerGrab::Move { is_move, .. } = self {
            if !*is_move {
                return false;
            }
        }
        true
    }

    /// Where the pointer comes round during the grab.
    pub open spec fn wraps(self) -> Option<PointerWrap> {
        match self {
            PointerGrab::SpatialMovement { view_offset_output: Some(output), .. } => Some(
                PointerWrap { output, horizontal: true },
            ),
            PointerGrab::SpatialMovement {
                view_offset_output: None,
                workspace_switch_output: Some(output),
            } => Some(PointerWrap { output, horizontal: false }),
            PointerGrab::Move { view_offset_output: Some(output), .. } => Some(
                PointerWrap { output, horizontal: true },
            ),
            _ => None,
        }
    }

    /// Where the pointer comes round during the grab: on the output that is being scrolled, in the
    /// direction of the scrolling.
    pub fn wrap(&self) -> (r: Option<PointerWrap>)
        ensures
            r == self.wraps(),
    {
        match self {
            PointerGrab::SpatialMovement { view_offset_output, workspace_switch_output } => {
                if let Some(output) = view_offset_output {
                    return Some(PointerWrap { output: *output, horizontal: true });
                } else if let Some(output) = workspace_switch_output {
                    return Some(PointerWrap { output: *output, horizontal: false });
                }
                None
            },
            PointerGrab::Move { view_offset_output: Some(output), .. } => Some(
                PointerWrap { output: *output, horizontal: true },
            ),
            _ => None,
        }
    }
}

} // verus!
