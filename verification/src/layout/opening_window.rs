//! Windows that are opening.
use vstd::prelude::*;

verus! {

/// How far an animation is, in nanoseconds.
#[derive(Clone, Copy, Debug, PartialEq, Eq, Structural)]
pub struct Animation {
    pub start_time: u64,
    pub duration: u64,
    /// The time of the frame that is being drawn.
    pub current_time: u64,
}

impl Animation {
    /// Whether the animation has come to its end.
    pub open spec fn ended(self) -> bool {
        self.current_time >= self.start_time + self.duration
    }

    /// Whether the animation has come to its end.
    pub fn is_done(&self) -> (r: bool)
        ensures
            r == self.ended(),
    {
        self.current_time >= self.start_time && self.current_time - self.start_time >= self.duration
    }
}

/// The animation of a window that is opening.
#[derive(Clone, Copy, Debug, PartialEq, Eq, Structural)]
pub struct OpenAnimation {
    pub anim: Animation,
    /// The picture of the window that is animated, once one was taken.
    pub buffer: Option<u64>,
}

impl OpenAnimation {
    /// Starts to animate a window.
    pub fn new(anim: Animation) -> (r: OpenAnimation)
        ensures
            r.anim == anim,
            r.buffer is None,
    {
        OpenAnimation { anim, buffer: None }
    }

    /// Whether the window is open.
    pub fn is_done(&self) -> (r: bool)
        ensures
            r == self.anim.ended(),
    {
        self.anim.is_done()
    }
}

} // verus!
