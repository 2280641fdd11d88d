//! The cursor and what is dragged along with it.
use vstd::prelude::*;

use crate::geometry::{Point, Rectangle};
use crate::input::grab::PointerGrab;
use crate::niri::scene::HitType;
use crate::niri::Niri;
use crate::utils::transform::Transform;

verus! {

/// The scale of one, in the steps in which scales are told to clients.
pub const SCALE_ONE: u32 = 120;

/// An output as far as the cursor is concerned.
#[derive(Clone, Copy, Debug, PartialEq, Eq, Structural)]
pub struct ShownOutput {
    pub id: u64,
    pub geo: Rectangle,
    /// The scale, in the steps in which scales are told to clients.
    pub scale: u32,
    pub transform: Transform,
}

/// Where a surface is.
#[derive(Clone, Copy, Debug, PartialEq, Eq, Structural)]
pub struct SurfaceArea {
    pub position: Point,
    /// What the surface covers, together with those below it.
    pub bbox: Rectangle,
}

/// A surface and where it is on each output.
#[derive(Debug)]
pub struct CrossingSurface {
    pub surface: u64,
    pub areas: Vec<SurfaceArea>,
}

/// The part of a surface that an output shows, if it shows any of it.
#[derive(Clone, Copy, Debug, PartialEq, Eq, Structural)]
pub struct OverlapUpdate {
    pub output: u64,
    pub surface: u64,
    pub overlap: Option<Rectangle>,
}

/// The scale and transform that suit a surface.
#[derive(Clone, Copy, Debug, PartialEq, Eq, Structural)]
pub struct SurfaceScale {
    pub scale: u32,
    pub transform: Transform,
}

/// Whether the part of a surface that an output shows can be given relative to the surface.
pub open spec fn overlap_fits(output: ShownOutput, area: SurfaceArea) -> bool {
    output.geo.overlapping(area.bbox) ==> {
        let common = output.geo.common(area.bbox);
        &&& i32::MIN <= common.loc.x - area.position.x <= i32::MAX
        &&& i32::MIN <= common.loc.y - area.position.y <= i32::MAX
    }
}

/// The part of a surface that an output shows, relative to the surface.
pub open spec fn overlap_of(output: ShownOutput, area: SurfaceArea) -> Option<Rectangle> {
    if output.geo.overlapping(area.bbox) {
        let common = output.geo.common(area.bbox);
        Some(
            Rectangle {
                loc: Point {
                    x: (common.loc.x - area.position.x) as i32,
                    y: (common.loc.y - area.position.y) as i32,
                },
                size: common.size,
            },
        )
    } else {
        None
    }
}

/// What suits a surface that is on some outputs: the largest scale among them, and the transform of the
/// last.
pub open spec fn suits(outputs: Seq<ShownOutput>, areas: Seq<SurfaceArea>) -> SurfaceScale
    decreases outputs.len(),
{
    if outputs.len() == 0 {
        SurfaceScale { scale: SCALE_ONE, transform: Transform::Normal }
    } else {
        let before = suits(outputs.drop_last(), areas);
        let last = outputs.last();
        if last.geo.overlapping(areas[outputs.len() - 1].bbox) {
            SurfaceScale {
                scale: if last.scale > before.scale {
                    last.scale
                } else {
                    before.scale
                },
                transform: last.transform,
            }
        } else {
            before
        }
    }
}

/// Which part of each surface each output shows: output by output, the cursor before what is dragged.
pub open spec fn updates(
    outputs: Seq<ShownOutput>,
    cursor: Option<CrossingSurface>,
    dnd: Option<CrossingSurface>,
) -> Seq<OverlapUpdate>
    decreases outputs.len(),
{
    if outputs.len() == 0 {
        Seq::empty()
    } else {
        let i = outputs.len() - 1;
        let last = outputs.last();
        updates(outputs.drop_last(), cursor, dnd) + surface_update(last, cursor, i)
            + surface_update(last, dnd, i)
    }
}

/// Which part of a surface an output shows, given its place among the outputs.
pub open spec fn surface_update(output: ShownOutput, surface: Option<CrossingSurface>, i: int) -> Seq<
    OverlapUpdate,
> {
    match surface {
        Some(crossing) => seq![
            OverlapUpdate {
                output: output.id,
                surface: crossing.surface,
                overlap: overlap_of(output, crossing.areas@[i]),
            },
        ],
        None => Seq::empty(),
    }
}

/// Whether it is known of a surface where it is on each output.
pub open spec fn areas_known(outputs: Seq<ShownOutput>, surface: Option<CrossingSurface>) -> bool {
    surface matches Some(crossing) ==> {
        &&& crossing.areas@.len() == outputs.len()
        &&& forall|i: int|
            0 <= i < outputs.len() ==> overlap_fits(#[trigger] outputs[i], crossing.areas@[i])
    }
}

/// Which part of a surface an output shows, relative to the surface.
fn find_overlap(output: &ShownOutput, area: &SurfaceArea) -> (r: Option<Rectangle>)
    requires
        overlap_fits(*output, *area),
    ensures
        r == overlap_of(*output, *area),
{
    match output.geo.intersection(area.bbox) {
        Some(common) => Some(
            Rectangle {
                loc: Point {
                    x: common.loc.x - area.position.x,
                    y: common.loc.y - area.position.y,
                },
                size: common.size,
            },
        ),
        None => None,
    }
}

/// Adds which part of a surface an output shows.
fn push_update(
    list: &mut Vec<OverlapUpdate>,
    output: &ShownOutput,
    surface: &Option<CrossingSurface>,
    i: usize,
)
    requires
        *surface matches Some(crossing) ==> i < crossing.areas@.len() && overlap_fits(
            *output,
            crossing.areas@[i as int],
        ),
    ensures
        final(list)@ == old(list)@ + surface_update(*output, *surface, i as int),
{
    if let Some(crossing) = surface {
        let overlap = find_overlap(output, &crossing.areas[i]);
        list.push(OverlapUpdate { output: output.id, surface: crossing.surface, overlap });
    }
    assert(list@ =~= old(list)@ + surface_update(*output, *surface, i as int));
}

/// What suits a surface.
fn find_scale(outputs: &Vec<ShownOutput>, areas: &Vec<SurfaceArea>) -> (r: SurfaceScale)
    requires
        areas@.len() == outputs@.len(),
    ensures
        r == suits(outputs@, areas@),
{
    let mut best = SurfaceScale { scale: SCALE_ONE, transform: Transform::Normal };
    let mut i: usize = 0;
    assert(outputs@.take(0) =~= Seq::<ShownOutput>::empty());
    while i < outputs.len()
        invariant
            i <= outputs@.len(),
            areas@.len() == outputs@.len(),
            best == suits(outputs@.take(i as int), areas@),
        decreases outputs@.len() - i,
    {
        let output = &outputs[i];
        assert(outputs@.take(i + 1).drop_last() =~= outputs@.take(i as int));
        if output.geo.overlaps(areas[i].bbox) {
            let scale: u32 = if output.scale > best.scale {
                output.scale
            } else {
                best.scale
            };
            best = SurfaceScale { scale, transform: output.transform };
        }
        i = i + 1;
    }
    assert(outputs@.take(i as int) =~= outputs@);
    best
}

/// What clients are told about the surfaces of the pointer.
#[derive(Debug)]
pub struct PointerOutputs {
    pub updates: Vec<OverlapUpdate>,
    pub cursor_scale: Option<SurfaceScale>,
    pub dnd_scale: Option<SurfaceScale>,
}

/// What suits an optional surface.
pub open spec fn opt_suits(outputs: Seq<ShownOutput>, surface: Option<CrossingSurface>) -> Option<
    SurfaceScale,
> {
    match surface {
        Some(crossing) => Some(suits(outputs, crossing.areas@)),
        None => None,
    }
}

/// What is drawn for the pointer, the front first.
#[derive(Clone, Copy, Debug, PartialEq, Eq, Structural)]
pub enum PointerElement {
    /// A surface of a client.
    CursorSurface(u64),
    /// A named cursor.
    NamedCursor,
    DndIcon(u64),
}

/// What the cursor looks like.
#[derive(Clone, Copy, Debug, PartialEq, Eq, Structural)]
pub enum RenderCursor {
    Hidden,
    Surface(u64),
    Named,
}

impl Niri {
    /// Finds out which parts of the surfaces of the pointer each output shows, and which scale and
    /// transform suit them. While the pointer does not show, nobody is told anything.
    ///
    /// The icon of what is dragged can be at a different place on each output, because a named cursor
    /// can have a different hotspot there.
    pub fn refresh_pointer_outputs(
        &self,
        outputs: &Vec<ShownOutput>,
        cursor: &Option<CrossingSurface>,
        dnd: &Option<CrossingSurface>,
    ) -> (r: PointerOutputs)
        requires
            areas_known(outputs@, *cursor),
            areas_known(outputs@, *dnd),
        ensures
            if self.pointer.visibility is Visible {
                &&& r.updates@ == updates(outputs@, *cursor, *dnd)
                &&& r.cursor_scale == opt_suits(outputs@, *cursor)
                &&& r.dnd_scale == opt_suits(outputs@, *dnd)
            } else {
                &&& r.updates@.len() == 0
                &&& r.cursor_scale is None
                &&& r.dnd_scale is None
            },
    {
        let mut list: Vec<OverlapUpdate> = Vec::new();
        if !self.pointer.visibility.is_visible() {
            return PointerOutputs { updates: list, cursor_scale: None, dnd_scale: None };
        }
        let mut i: usize = 0;
        assert(outputs@.take(0) =~= Seq::<ShownOutput>::empty());
        while i < outputs.len()
            invariant
                i <= outputs@.len(),
                areas_known(outputs@, *cursor),
                areas_known(outputs@, *dnd),
                list@ == updates(outputs@.take(i as int), *cursor, *dnd),
            decreases outputs@.len() - i,
        {
            let output = &outputs[i];
            assert(outputs@.take(i + 1).drop_last() =~= outputs@.take(i as int));
            assert(outputs@[i as int] == *output);
            push_update(&mut list, output, cursor, i);
            push_update(&mut list, output, dnd, i);
            i = i + 1;
        }
        assert(outputs@.take(i as int) =~= outputs@);
        let cursor_scale = match cursor {
            Some(crossing) => Some(find_scale(outputs, &crossing.areas)),
            None => None,
        };
        let dnd_scale = match dnd {
            Some(crossing) => Some(find_scale(outputs, &crossing.areas)),
            None => None,
        };
        PointerOutputs { updates: list, cursor_scale, dnd_scale }
    }

    /// What is drawn for the pointer: the cursor before what is dragged.
    pub fn render_pointer(&self, cursor: RenderCursor) -> (r: Vec<PointerElement>)
        ensures
            r@ == (match cursor {
                RenderCursor::Hidden => Seq::empty(),
                RenderCursor::Surface(surface) => seq![PointerElement::CursorSurface(surface)],
                RenderCursor::Named => seq![PointerElement::NamedCursor],
            }) + (match self.dnd_icon {
                Some(surface) => seq![PointerElement::DndIcon(surface)],
                None => Seq::empty(),
            }),
    {
        let mut elements: Vec<PointerElement> = Vec::new();
        match cursor {
            RenderCursor::Hidden => {},
            RenderCursor::Surface(surface) => {
                elements.push(PointerElement::CursorSurface(surface));
            },
            RenderCursor::Named => {
                elements.push(PointerElement::NamedCursor);
            },
        }
        if let Some(surface) = self.dnd_icon {
            elements.push(PointerElement::DndIcon(surface));
        }
        elements
    }

    /// Whether the pointer belongs on a picture of a window: it takes input there, and the window has
    /// it, or something is being dragged.
    ///
    /// `focused` is the window that has the pointer, which a grab can keep from the one under it.
    pub fn pointer_pos_for_window_cast(
        &self,
        window: u64,
        grab: Option<PointerGrab>,
        focused: Option<u64>,
    ) -> (r: bool)
        ensures
            r == match self.pointer.contents.window {
                Some(under) => under.window == window && under.hit is Input && (grab == Some(
                    PointerGrab::DragAndDrop,
                ) || focused == Some(window)),
                None => false,
            },
    {
        let Some(under) = self.pointer.contents.window else {
            return false;
        };
        if !matches!(under.hit, HitType::Input { .. }) || under.window != window {
            return false;
        }
        let is_dnd_grab = match grab {
            Some(grab) => grab.is_dnd_grab(),
            None => false,
        };
        is_dnd_grab || focused == Some(window)
    }
}

/// A surface gets no smaller a scale than any output has that shows some of it.
pub proof fn law_scale_suffices(outputs: Seq<ShownOutput>, areas: Seq<SurfaceArea>, i: int)
    requires
        0 <= i < outputs.len(),
        outputs[i].geo.overlapping(areas[i].bbox),
    ensures
        suits(outputs, areas).scale >= outputs[i].scale,
    decreases outputs.len(),
{
    if i < outputs.len() - 1 {
        law_scale_suffices(outputs.drop_last(), areas, i);
    }
}

/// The part of a surface that an output shows is just what lies both on the output and on the surface, as
/// seen from the surface.
pub proof fn law_shown_part(output: ShownOutput, area: SurfaceArea, x: int, y: int)
    requires
        output.geo.edges_fit() && area.bbox.edges_fit(),
        output.geo.size.w >= 0 && output.geo.size.h >= 0,
        area.bbox.size.w >= 0 && area.bbox.size.h >= 0,
        overlap_fits(output, area),
    ensures
        output.geo.has(x, y) && area.bbox.has(x, y) <==> (overlap_of(output, area) matches Some(part)
            && part.loc.x <= x - area.position.x < part.loc.x + part.size.w && part.loc.y <= y
            - area.position.y < part.loc.y + part.size.h),
{
    crate::geometry::law_common_area(output.geo, area.bbox, x, y);
}

} // verus!
