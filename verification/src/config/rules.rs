//! Parts of window and layer rules.
use vstd::prelude::*;

use crate::config::same::SameView;
use crate::geometry::FloatBits;

verus! {

/// The corner, edge or both that a position is relative to.
#[derive(Clone, Copy, Debug, PartialEq, Eq, Structural)]
pub enum RelativeTo {
    TopLeft,
    TopRight,
    BottomLeft,
    BottomRight,
    Top,
    Bottom,
    Left,
    Right,
}

impl Default for RelativeTo {
    fn default() -> (r: RelativeTo)
        ensures
            r == RelativeTo::TopLeft,
    {
        RelativeTo::TopLeft
    }
}

/// Where a floating window opens.
#[derive(Clone, Copy, Debug, PartialEq, Eq, Structural)]
pub struct FloatingPosition {
    pub x: FloatBits,
    pub y: FloatBits,
    pub relative_to: RelativeTo,
}

/// The radius of each corner, as the bits of a number.
#[derive(Clone, Copy, Debug, PartialEq, Eq, Structural)]
pub struct CornerRadius {
    pub top_left: u32,
    pub top_right: u32,
    pub bottom_right: u32,
    pub bottom_left: u32,
}

/// Where a surface is not to be seen.
#[derive(Clone, Copy, Debug, PartialEq, Eq, Structural)]
pub enum BlockOutFrom {
    /// In screencasts.
    Screencast,
    /// In screencasts and screenshots.
    ScreenCapture,
}

/// What is set of how something looks: the values themselves, each as a number in a place of its own.
/// What they mean is known elsewhere.
#[derive(Debug)]
pub struct Look(pub Vec<u64>);

impl View for Look {
    type V = Seq<u64>;

    open spec fn view(&self) -> Seq<u64> {
        self.0@
    }
}

impl SameView for Look {
    fn same(&self, other: &Look) -> (r: bool) {
        if self.0.len() != other.0.len() {
            return false;
        }
        let mut i: usize = 0;
        while i < self.0.len()
            invariant
                i <= self.0@.len(),
                self.0@.len() == other.0@.len(),
                forall|k: int| 0 <= k < i ==> self.0@[k] == other.0@[k],
            decreases self.0@.len() - i,
        {
            if self.0[i] != other.0[i] {
                return false;
            }
            i = i + 1;
        }
        assert(self@ =~= other@);
        true
    }
}

impl Look {
    /// The same values once more.
    pub fn copied(&self) -> (r: Look)
        ensures
            r@ == self@,
    {
        let mut values: Vec<u64> = Vec::new();
        let mut i: usize = 0;
        while i < self.0.len()
            invariant
                i <= self.0@.len(),
                values@ == self.0@.take(i as int),
            decreases self.0@.len() - i,
        {
            values.push(self.0[i]);
            assert(values@ =~= self.0@.take(i + 1));
            i = i + 1;
        }
        assert(values@ =~= self.0@);
        Look(values)
    }
}

/// Rules for pop-ups, as far as they set something.
#[derive(Clone, Copy, Debug, PartialEq, Eq, Structural)]
pub struct PopupsRule {
    /// The opacity, as the bits of a number.
    pub opacity: Option<u32>,
    pub geometry_corner_radius: Option<CornerRadius>,
}

/// What the rules for pop-ups come to.
#[derive(Clone, Copy, Debug, PartialEq, Eq, Structural)]
pub struct ResolvedPopupsRules {
    /// Extra opacity to draw pop-ups with.
    pub opacity: Option<u32>,
    /// Corner radius to assume the pop-ups have.
    pub geometry_corner_radius: Option<CornerRadius>,
}

/// A setting after a rule that may set it.
pub open spec fn ruled<T>(current: Option<T>, rule: Option<T>) -> Option<T> {
    match rule {
        Some(value) => Some(value),
        None => current,
    }
}

impl Default for ResolvedPopupsRules {
    fn default() -> (r: ResolvedPopupsRules)
        ensures
            r == (ResolvedPopupsRules { opacity: None, geometry_corner_radius: None }),
    {
        ResolvedPopupsRules { opacity: None, geometry_corner_radius: None }
    }
}

impl ResolvedPopupsRules {
    /// What the rules come to with one more.
    pub open spec fn merged(self, part: PopupsRule) -> ResolvedPopupsRules {
        ResolvedPopupsRules {
            opacity: ruled(self.opacity, part.opacity),
            geometry_corner_radius: ruled(self.geometry_corner_radius, part.geometry_corner_radius),
        }
    }

    /// Adds a rule.
    pub fn merge_with(&mut self, part: &PopupsRule)
        ensures
            *final(self) == old(self).merged(*part),
    {
        if let Some(x) = part.opacity {
            self.opacity = Some(x);
        }
        if let Some(x) = part.geometry_corner_radius {
            self.geometry_corner_radius = Some(x);
        }
    }
}

/// A rule that sets nothing changes nothing, and a later rule overrides an earlier one.
pub proof fn law_merge_popups_rules(
    rules: ResolvedPopupsRules,
    first: PopupsRule,
    second: PopupsRule,
)
    ensures
        rules.merged(PopupsRule { opacity: None, geometry_corner_radius: None }) == rules,
        second.opacity is Some ==> rules.merged(first).merged(second).opacity == second.opacity,
        second.opacity is None ==> rules.merged(first).merged(second).opacity == rules.merged(
            first,
        ).opacity,
{
}

} // verus!
