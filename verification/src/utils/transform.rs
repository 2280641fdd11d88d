//! Turned and mirrored outputs.
use vstd::prelude::*;

use crate::geometry::{FloatBits, Point, Size};

verus! {

/// How the picture of an output is turned and mirrored.
#[derive(Clone, Copy, Debug, PartialEq, Eq, Structural)]
pub enum Transform {
    Normal,
    _90,
    _180,
    _270,
    Flipped,
    Flipped90,
    Flipped180,
    Flipped270,
}

/// The same, as the configuration and the control socket name it.
#[derive(Clone, Copy, Debug, PartialEq, Eq, Structural)]
pub enum IpcTransform {
    Normal,
    _90,
    _180,
    _270,
    Flipped,
    Flipped90,
    Flipped180,
    Flipped270,
}

impl Transform {
    /// Whether the picture is mirrored.
    pub open spec fn is_flipped(self) -> bool {
        self is Flipped || self is Flipped90 || self is Flipped180 || self is Flipped270
    }

    /// By how many quarters the picture is turned.
    pub open spec fn quarters(self) -> int {
        match self {
            Transform::Normal | Transform::Flipped => 0,
            Transform::_90 | Transform::Flipped90 => 1,
            Transform::_180 | Transform::Flipped180 => 2,
            Transform::_270 | Transform::Flipped270 => 3,
        }
    }

    /// The transform with a number of quarter turns, mirrored or not.
    fn from_parts(flipped: bool, quarters: u8) -> (r: Transform)
        requires
            quarters < 4,
        ensures
            r.is_flipped() == flipped,
            r.quarters() == quarters,
    {
        match (flipped, quarters) {
            (false, 0) => Transform::Normal,
            (false, 1) => Transform::_90,
            (false, 2) => Transform::_180,
            (false, _) => Transform::_270,
            (true, 0) => Transform::Flipped,
            (true, 1) => Transform::Flipped90,
            (true, 2) => Transform::Flipped180,
            (true, _) => Transform::Flipped270,
        }
    }

    fn parts(self) -> (r: (bool, u8))
        ensures
            r.0 == self.is_flipped(),
            r.1 == self.quarters(),
    {
        match self {
            Transform::Normal => (false, 0),
            Transform::_90 => (false, 1),
            Transform::_180 => (false, 2),
            Transform::_270 => (false, 3),
            Transform::Flipped => (true, 0),
            Transform::Flipped90 => (true, 1),
            Transform::Flipped180 => (true, 2),
            Transform::Flipped270 => (true, 3),
        }
    }

    /// Puts two transforms together: the turns add up, and mirroring twice is not mirroring.
    pub fn plus(self, other: Transform) -> (r: Transform)
        ensures
            r.is_flipped() == (self.is_flipped() != other.is_flipped()),
            r.quarters() == (self.quarters() + other.quarters()) % 4,
    {
        let (flipped, quarters) = self.parts();
        let (other_flipped, other_quarters) = other.parts();
        Transform::from_parts(flipped != other_flipped, (quarters + other_quarters) % 4)
    }

    /// The transform that turns back as far.
    pub fn invert(self) -> (r: Transform)
        ensures
            r.is_flipped() == self.is_flipped(),
            (r.quarters() + self.quarters()) % 4 == 0,
    {
        let (flipped, quarters) = self.parts();
        Transform::from_parts(flipped, (4 - quarters) % 4)
    }

    /// A size with its sides swapped by an odd number of quarter turns.
    pub open spec fn turned(self, size: Size) -> Size {
        if self.quarters() % 2 == 1 {
            Size { w: size.h, h: size.w }
        } else {
            size
        }
    }

    /// The size of a turned picture.
    pub fn transform_size(self, size: Size) -> (r: Size)
        ensures
            r == self.turned(size),
    {
        let (_, quarters) = self.parts();
        if quarters % 2 == 1 {
            Size { w: size.h, h: size.w }
        } else {
            size
        }
    }

    /// The transform by its configured name.
    pub open spec fn named(transform: IpcTransform) -> Transform {
        match transform {
            IpcTransform::Normal => Transform::Normal,
            IpcTransform::_90 => Transform::_90,
            IpcTransform::_180 => Transform::_180,
            IpcTransform::_270 => Transform::_270,
            IpcTransform::Flipped => Transform::Flipped,
            IpcTransform::Flipped90 => Transform::Flipped90,
            IpcTransform::Flipped180 => Transform::Flipped180,
            IpcTransform::Flipped270 => Transform::Flipped270,
        }
    }
}

/// The transform by its configured name.
pub fn ipc_transform_to_smithay(transform: IpcTransform) -> (r: Transform)
    ensures
        r == Transform::named(transform),
{
    match transform {
        IpcTransform::Normal => Transform::Normal,
        IpcTransform::_90 => Transform::_90,
        IpcTransform::_180 => Transform::_180,
        IpcTransform::_270 => Transform::_270,
        IpcTransform::Flipped => Transform::Flipped,
        IpcTransform::Flipped90 => Transform::Flipped90,
        IpcTransform::Flipped180 => Transform::Flipped180,
        IpcTransform::Flipped270 => Transform::Flipped270,
    }
}

/// The name of a transform on the control socket.
pub fn transform_to_ipc(transform: Transform) -> (r: IpcTransform)
    ensures
        Transform::named(r) == transform,
{
    match transform {
        Transform::Normal => IpcTransform::Normal,
        Transform::_90 => IpcTransform::_90,
        Transform::_180 => IpcTransform::_180,
        Transform::_270 => IpcTransform::_270,
        Transform::Flipped => IpcTransform::Flipped,
        Transform::Flipped90 => IpcTransform::Flipped90,
        Transform::Flipped180 => IpcTransform::Flipped180,
        Transform::Flipped270 => IpcTransform::Flipped270,
    }
}

/// Where an output is and how it shows things, as reported on the control socket.
#[derive(Clone, Copy, Debug, PartialEq, Eq, Structural)]
pub struct LogicalOutput {
    pub x: i32,
    pub y: i32,
    pub width: u32,
    pub height: u32,
    pub scale: FloatBits,
    pub transform: IpcTransform,
}

/// What is reported of an output; `size` is its logical size without the fractions.
pub fn logical_output(loc: Point, size: Size, scale: FloatBits, transform: Transform) -> (r:
    LogicalOutput)
    ensures
        r.x == loc.x,
        r.y == loc.y,
        r.width == (if size.w < 0 {
            0
        } else {
            size.w as int
        }),
        r.height == (if size.h < 0 {
            0
        } else {
            size.h as int
        }),
        r.scale == scale,
        Transform::named(r.transform) == transform,
{
    let width: u32 = if size.w < 0 {
        0
    } else {
        size.w as u32
    };
    let height: u32 = if size.h < 0 {
        0
    } else {
        size.h as u32
    };
    LogicalOutput {
        x: loc.x,
        y: loc.y,
        width,
        height,
        scale,
        transform: transform_to_ipc(transform),
    }
}

/// How an output is turned: as its panel is built in, and then as configured.
pub fn output_transform(panel: Option<Transform>, configured: Option<IpcTransform>) -> (r: Transform)
    ensures
        ({
            let built_in = match panel {
                Some(transform) => transform,
                None => Transform::Normal,
            };
            let wanted = match configured {
                Some(transform) => Transform::named(transform),
                None => Transform::Normal,
            };
            &&& r.is_flipped() == (built_in.is_flipped() != wanted.is_flipped())
            &&& r.quarters() == (built_in.quarters() + wanted.quarters()) % 4
        }),
{
    let built_in = match panel {
        Some(transform) => transform,
        None => Transform::Normal,
    };
    let wanted = match configured {
        Some(transform) => ipc_transform_to_smithay(transform),
        None => Transform::Normal,
    };
    built_in.plus(wanted)
}

/// What a transform does to a size, its inverse undoes.
pub proof fn law_turn_back(transform: Transform, inverse: Transform, size: Size)
    requires
        (inverse.quarters() + transform.quarters()) % 4 == 0,
    ensures
        inverse.turned(transform.turned(size)) == size,
{
}

/// The names of transforms say by how much they turn, and whether they mirror.
pub proof fn law_names_of_transforms()
    ensures
        Transform::Normal.quarters() == 0 && !Transform::Normal.is_flipped(),
        Transform::_90.quarters() == 1 && !Transform::_90.is_flipped(),
        Transform::_180.quarters() == 2 && !Transform::_180.is_flipped(),
        Transform::_270.quarters() == 3 && !Transform::_270.is_flipped(),
        Transform::Flipped.quarters() == 0 && Transform::Flipped.is_flipped(),
        Transform::Flipped90.quarters() == 1 && Transform::Flipped90.is_flipped(),
        Transform::Flipped180.quarters() == 2 && Transform::Flipped180.is_flipped(),
        Transform::Flipped270.quarters() == 3 && Transform::Flipped270.is_flipped(),
        Transform::named(IpcTransform::Normal) == Transform::Normal,
        Transform::named(IpcTransform::_90) == Transform::_90,
        Transform::named(IpcTransform::_180) == Transform::_180,
        Transform::named(IpcTransform::_270) == Transform::_270,
        Transform::named(IpcTransform::Flipped) == Transform::Flipped,
        Transform::named(IpcTransform::Flipped90) == Transform::Flipped90,
        Transform::named(IpcTransform::Flipped180) == Transform::Flipped180,
        Transform::named(IpcTransform::Flipped270) == Transform::Flipped270,
{
}

/// A quarter turn swaps the sides of a picture, and a half turn does not.
pub proof fn law_quarter_turns_swap_sides(transform: Transform, size: Size)
    ensures
        transform is _90 || transform is _270 || transform is Flipped90 || transform is Flipped270
            ==> transform.turned(size) == (Size { w: size.h, h: size.w }),
        transform is Normal || transform is _180 || transform is Flipped || transform is Flipped180
            ==> transform.turned(size) == size,
{
}

} // verus!
