//! Where the outputs lie in the global space, and how to get from one to the next.
use vstd::prelude::*;

use crate::geometry::{Point, Rectangle, Size};
use crate::niri::Niri;
use crate::utils::center;

verus! {

/// An output and the area that it shows.
#[derive(Clone, Copy, Debug, PartialEq, Eq, Structural)]
pub struct PlacedOutput {
    pub id: u64,
    pub geo: Rectangle,
}

/// All mapped outputs.
#[derive(Debug)]
pub struct OutputSpace {
    /// The outputs in the order in which they were mapped.
    pub outputs: Vec<PlacedOutput>,
    /// The outputs by name and position.
    pub sorted: Vec<u64>,
}

/// A way to leave an output.
#[derive(Clone, Copy, Debug, PartialEq, Eq, Structural)]
pub enum Direction {
    Left,
    Right,
    Up,
    Down,
}

/// Where a lane starts: far enough to be beyond any output.
pub const LANE_START: i32 = -1073741824;

/// The band that reaches from an area without end in a direction and in the opposite one.
pub open spec fn lane(from: Rectangle, toward: Direction) -> Rectangle {
    match toward {
        Direction::Left | Direction::Right => Rectangle {
            loc: Point { x: LANE_START, y: from.loc.y },
            size: Size { w: i32::MAX, h: from.size.h },
        },
        Direction::Up | Direction::Down => Rectangle {
            loc: Point { x: from.loc.x, y: LANE_START },
            size: Size { w: from.size.w, h: i32::MAX },
        },
    }
}

/// How far the middle of one area lies from another's in a direction.
pub open spec fn distance(from: Rectangle, to: Rectangle, toward: Direction) -> int {
    match toward {
        Direction::Left => from.middle().0 - to.middle().0,
        Direction::Right => to.middle().0 - from.middle().0,
        Direction::Up => from.middle().1 - to.middle().1,
        Direction::Down => to.middle().1 - from.middle().1,
    }
}

/// Whether an area lies in a direction from another, in its lane.
pub open spec fn lies_toward(from: Rectangle, to: Rectangle, toward: Direction) -> bool {
    distance(from, to, toward) > 0 && to.overlapping(lane(from, toward))
}

impl OutputSpace {
    /// No output is listed twice, every area can be named, and so can the way between any two.
    pub open spec fn wf(self) -> bool {
        &&& forall|i: int, j: int|
            0 <= i < j < self.outputs@.len() ==> (#[trigger] self.outputs@[i]).id != (
            #[trigger] self.outputs@[j]).id
        &&& forall|i: int|
            0 <= i < self.outputs@.len() ==> {
                &&& (#[trigger] self.outputs@[i]).geo.edges_fit()
                &&& self.outputs@[i].geo.size.w >= 0
                &&& self.outputs@[i].geo.size.h >= 0
            }
        &&& forall|i: int, j: int, toward: Direction|
            0 <= i < self.outputs@.len() && 0 <= j < self.outputs@.len() ==> i32::MIN
                <= #[trigger] distance(self.outputs@[i].geo, self.outputs@[j].geo, toward)
                <= i32::MAX
        &&& self.sorted@.no_duplicates()
    }

    /// The place of an output in the list.
    pub open spec fn index(self, output: u64) -> Option<int> {
        if exists|i: int| 0 <= i < self.outputs@.len() && (#[trigger] self.outputs@[i]).id
            == output {
            Some(
                choose|i: int|
                    0 <= i < self.outputs@.len() && (#[trigger] self.outputs@[i]).id == output,
            )
        } else {
            None
        }
    }

    /// The area of an output, if it is mapped.
    pub open spec fn geometry(self, output: u64) -> Option<Rectangle> {
        match self.index(output) {
            Some(i) => Some(self.outputs@[i].geo),
            None => None,
        }
    }

    /// The area of an output, if it is mapped.
    pub fn output_geometry(&self, output: u64) -> (r: Option<Rectangle>)
        requires
            self.wf(),
        ensures
            r == self.geometry(output),
    {
        let mut i: usize = 0;
        while i < self.outputs.len()
            invariant
                self.wf(),
                i <= self.outputs.len(),
                forall|k: int| 0 <= k < i ==> (#[trigger] self.outputs@[k]).id != output,
            decreases self.outputs.len() - i,
        {
            if self.outputs[i].id == output {
                assert(self.index(output) is Some);
                return Some(self.outputs[i].geo);
            }
            i = i + 1;
        }
        None
    }

    /// Whether an output is the nearest in a direction, the first mapped of equally near ones.
    pub open spec fn is_nearest(self, from: Rectangle, toward: Direction, i: int) -> bool {
        let outputs = self.outputs@;
        &&& 0 <= i < outputs.len()
        &&& lies_toward(from, outputs[i].geo, toward)
        &&& forall|j: int|
            0 <= j < outputs.len() && lies_toward(from, (#[trigger] outputs[j]).geo, toward) ==> {
                &&& distance(from, outputs[i].geo, toward) <= distance(from, outputs[j].geo, toward)
                &&& j < i ==> distance(from, outputs[i].geo, toward) < distance(
                    from,
                    outputs[j].geo,
                    toward,
                )
            }
    }

    /// The nearest output in a direction from a mapped output.
    pub open spec fn neighbor(self, current: u64, toward: Direction) -> Option<u64> {
        match self.geometry(current) {
            None => None,
            Some(from) => if exists|i: int| #[trigger] self.is_nearest(from, toward, i) {
                Some(self.outputs@[choose|i: int| #[trigger] self.is_nearest(from, toward, i)].id)
            } else {
                None
            },
        }
    }

    proof fn lemma_nearest_unique(self, from: Rectangle, toward: Direction, i: int, j: int)
        requires
            self.is_nearest(from, toward, i),
            self.is_nearest(from, toward, j),
        ensures
            i == j,
    {
    }

    /// The nearest output in a direction.
    pub fn output_toward(&self, current: u64, toward: Direction) -> (r: Option<u64>)
        requires
            self.wf(),
        ensures
            r == self.neighbor(current, toward),
    {
        let Some(from) = self.output_geometry(current) else {
            return None;
        };
        let ghost here = self.index(current)->0;
        let band = match toward {
            Direction::Left | Direction::Right => Rectangle {
                loc: Point { x: LANE_START, y: from.loc.y },
                size: Size { w: i32::MAX, h: from.size.h },
            },
            Direction::Up | Direction::Down => Rectangle {
                loc: Point { x: from.loc.x, y: LANE_START },
                size: Size { w: from.size.w, h: i32::MAX },
            },
        };
        let mid = center(from);
        let mut best: Option<(usize, i32)> = None;
        let mut i: usize = 0;
        while i < self.outputs.len()
            invariant
                self.wf(),
                0 <= here < self.outputs@.len(),
                from == self.outputs@[here].geo,
                (mid.x as int, mid.y as int) == from.middle(),
                band == lane(from, toward),
                i <= self.outputs.len(),
                match best {
                    None => forall|j: int|
                        0 <= j < i ==> !lies_toward(from, (#[trigger] self.outputs@[j]).geo, toward),
                    Some((b, d)) => {
                        &&& 0 <= b < i
                        &&& d == distance(from, self.outputs@[b as int].geo, toward)
                        &&& lies_toward(from, self.outputs@[b as int].geo, toward)
                        &&& forall|j: int|
                            0 <= j < i && lies_toward(
                                from,
                                (#[trigger] self.outputs@[j]).geo,
                                toward,
                            ) ==> {
                                &&& d <= distance(from, self.outputs@[j].geo, toward)
                                &&& j < b ==> d < distance(from, self.outputs@[j].geo, toward)
                            }
                    },
                },
            decreases self.outputs.len() - i,
        {
            let geo = self.outputs[i].geo;
            let there = center(geo);
            proof {
                let span = distance(self.outputs@[here].geo, self.outputs@[i as int].geo, toward);
                assert(i32::MIN <= span <= i32::MAX);
            }
            let d: i32 = match toward {
                Direction::Left => mid.x - there.x,
                Direction::Right => there.x - mid.x,
                Direction::Up => mid.y - there.y,
                Direction::Down => there.y - mid.y,
            };
            if d > 0 && geo.overlaps(band) {
                best = match best {
                    None => Some((i, d)),
                    Some((b, near)) => if d < near {
                        Some((i, d))
                    } else {
                        Some((b, near))
                    },
                };
            }
            i = i + 1;
        }
        match best {
            None => {
                proof {
                    if exists|k: int| #[trigger] self.is_nearest(from, toward, k) {
                        let k = choose|k: int| #[trigger] self.is_nearest(from, toward, k);
                        assert(lies_toward(from, self.outputs@[k].geo, toward));
                    }
                }
                None
            },
            Some((b, _)) => {
                proof {
                    assert(self.is_nearest(from, toward, b as int));
                    let k = choose|k: int| #[trigger] self.is_nearest(from, toward, k);
                    self.lemma_nearest_unique(from, toward, b as int, k);
                }
                Some(self.outputs[b].id)
            },
        }
    }

    /// The output after another in sorted order, going round at the end; none but another one.
    pub open spec fn next_in_order(self, current: u64) -> Option<u64> {
        let s = self.sorted@;
        let i = s.index_of(current);
        let found = if s.contains(current) && i + 1 < s.len() {
            Some(s[i + 1])
        } else if s.len() > 0 {
            Some(s[0])
        } else {
            None
        };
        if found == Some(current) {
            None
        } else {
            found
        }
    }

    /// The output before another in sorted order, going round at the start; none but another one.
    pub open spec fn previous_in_order(self, current: u64) -> Option<u64> {
        let s = self.sorted@;
        let i = s.index_of(current);
        let found = if s.contains(current) && i > 0 {
            Some(s[i - 1])
        } else if s.len() > 0 {
            Some(s.last())
        } else {
            None
        };
        if found == Some(current) {
            None
        } else {
            found
        }
    }

    /// The place of an output in sorted order.
    fn position_in_order(&self, current: u64) -> (r: Option<usize>)
        requires
            self.wf(),
        ensures
            r is Some <==> self.sorted@.contains(current),
            r matches Some(i) ==> i == self.sorted@.index_of(current) && i < self.sorted@.len(),
    {
        let mut i: usize = 0;
        while i < self.sorted.len()
            invariant
                self.wf(),
                i <= self.sorted.len(),
                forall|k: int| 0 <= k < i ==> self.sorted@[k] != current,
            decreases self.sorted.len() - i,
        {
            if self.sorted[i] == current {
                assert(self.sorted@[i as int] == current);
                return Some(i);
            }
            i = i + 1;
        }
        None
    }

    /// The output before another in sorted order.
    pub fn output_before(&self, current: u64) -> (r: Option<u64>)
        requires
            self.wf(),
        ensures
            r == self.previous_in_order(current),
    {
        let found = match self.position_in_order(current) {
            Some(i) if i > 0 => Some(self.sorted[i - 1]),
            _ => if self.sorted.len() > 0 {
                Some(self.sorted[self.sorted.len() - 1])
            } else {
                None
            },
        };
        match found {
            Some(output) if output != current => Some(output),
            _ => None,
        }
    }

    /// The output after another in sorted order.
    pub fn output_after(&self, current: u64) -> (r: Option<u64>)
        requires
            self.wf(),
        ensures
            r == self.next_in_order(current),
    {
        let n: usize = self.sorted.len();
        let found = match self.position_in_order(current) {
            Some(i) if i + 1 < n => Some(self.sorted[i + 1]),
            _ => if self.sorted.len() > 0 {
                Some(self.sorted[0])
            } else {
                None
            },
        };
        match found {
            Some(output) if output != current => Some(output),
            _ => None,
        }
    }

    /// The last mapped of the outputs that show a point.
    pub open spec fn shown_on(self, x: int, y: int) -> Option<PlacedOutput> {
        last_showing(self.outputs@, x, y)
    }

    /// The output that shows a pixel, and where on it the pixel is.
    pub fn output_under(&self, pixel: Point) -> (r: Option<PlacedOutput>)
        ensures
            r == self.shown_on(pixel.x as int, pixel.y as int),
    {
        let mut i: usize = self.outputs.len();
        assert(self.outputs@.take(i as int) =~= self.outputs@);
        while i > 0
            invariant
                i <= self.outputs.len(),
                last_showing(self.outputs@.take(i as int), pixel.x as int, pixel.y as int)
                    == self.shown_on(pixel.x as int, pixel.y as int),
            decreases i,
        {
            let ghost shorter = self.outputs@.take(i as int);
            i = i - 1;
            assert(shorter.drop_last() =~= self.outputs@.take(i as int));
            if self.outputs[i].geo.contains(pixel) {
                return Some(self.outputs[i]);
            }
        }
        None
    }

    /// The smallest area that holds all outputs.
    pub open spec fn bounds(outputs: Seq<PlacedOutput>) -> Option<(int, int, int, int)>
        decreases outputs.len(),
    {
        if outputs.len() == 0 {
            None
        } else {
            let geo = outputs.last().geo;
            let own = (geo.loc.x as int, geo.loc.y as int, geo.right(), geo.bottom());
            match Self::bounds(outputs.drop_last()) {
                None => Some(own),
                Some(rest) => Some(
                    (
                        if own.0 <= rest.0 { own.0 } else { rest.0 },
                        if own.1 <= rest.1 { own.1 } else { rest.1 },
                        if own.2 >= rest.2 { own.2 } else { rest.2 },
                        if own.3 >= rest.3 { own.3 } else { rest.3 },
                    ),
                ),
            }
        }
    }

    proof fn lemma_bounds_grow(outputs: Seq<PlacedOutput>, n: int)
        requires
            0 <= n <= outputs.len(),
        ensures
            match (Self::bounds(outputs.take(n)), Self::bounds(outputs)) {
                (Some(a), Some(b)) => b.0 <= a.0 && b.1 <= a.1 && a.2 <= b.2 && a.3 <= b.3,
                (Some(_), None) => false,
                _ => true,
            },
        decreases outputs.len(),
    {
        if n == outputs.len() {
            assert(outputs.take(n) =~= outputs);
        } else {
            Self::lemma_bounds_grow(outputs.drop_last(), n);
            assert(outputs.drop_last().take(n) =~= outputs.take(n));
        }
    }

    /// The rectangle that covers all outputs.
    pub fn global_bounding_rectangle(&self) -> (r: Option<Rectangle>)
        requires
            self.wf(),
            Self::bounds(self.outputs@) matches Some(b) ==> b.2 - b.0 <= i32::MAX && b.3 - b.1
                <= i32::MAX,
        ensures
            match (r, Self::bounds(self.outputs@)) {
                (Some(rect), Some(b)) => (
                    rect.loc.x as int,
                    rect.loc.y as int,
                    rect.right(),
                    rect.bottom(),
                ) == b,
                (None, None) => true,
                _ => false,
            },
    {
        let mut acc: Option<Rectangle> = None;
        let mut i: usize = 0;
        while i < self.outputs.len()
            invariant
                self.wf(),
                i <= self.outputs.len(),
                Self::bounds(self.outputs@) matches Some(b) ==> b.2 - b.0 <= i32::MAX && b.3 - b.1
                    <= i32::MAX,
                match (acc, Self::bounds(self.outputs@.take(i as int))) {
                    (Some(rect), Some(b)) => {
                        &&& (rect.loc.x as int, rect.loc.y as int, rect.right(), rect.bottom()) == b
                        &&& rect.edges_fit()
                        &&& rect.size.w >= 0
                        &&& rect.size.h >= 0
                    },
                    (None, None) => true,
                    _ => false,
                },
            decreases self.outputs.len() - i,
        {
            let geo = self.outputs[i].geo;
            proof {
                Self::lemma_bounds_grow(self.outputs@, i + 1);
                let longer = self.outputs@.take(i + 1);
                assert(longer.drop_last() =~= self.outputs@.take(i as int));
            }
            acc = match acc {
                None => Some(geo),
                Some(acc) => Some(acc.merge(geo)),
            };
            i = i + 1;
        }
        assert(self.outputs@.take(i as int) =~= self.outputs@);
        acc
    }
}

impl Niri {
    /// The nearest output to the left.
    pub fn output_left_of(&self, current: u64) -> (r: Option<u64>)
        requires
            self.global_space.wf(),
        ensures
            r == self.global_space.neighbor(current, Direction::Left),
    {
        self.global_space.output_toward(current, Direction::Left)
    }

    /// The nearest output to the right.
    pub fn output_right_of(&self, current: u64) -> (r: Option<u64>)
        requires
            self.global_space.wf(),
        ensures
            r == self.global_space.neighbor(current, Direction::Right),
    {
        self.global_space.output_toward(current, Direction::Right)
    }

    /// The nearest output above.
    pub fn output_up_of(&self, current: u64) -> (r: Option<u64>)
        requires
            self.global_space.wf(),
        ensures
            r == self.global_space.neighbor(current, Direction::Up),
    {
        self.global_space.output_toward(current, Direction::Up)
    }

    /// The nearest output below.
    pub fn output_down_of(&self, current: u64) -> (r: Option<u64>)
        requires
            self.global_space.wf(),
        ensures
            r == self.global_space.neighbor(current, Direction::Down),
    {
        self.global_space.output_toward(current, Direction::Down)
    }

    /// The output before another in sorted order.
    pub fn output_previous_of(&self, current: u64) -> (r: Option<u64>)
        requires
            self.global_space.wf(),
        ensures
            r == self.global_space.previous_in_order(current),
    {
        self.global_space.output_before(current)
    }

    /// The output after another in sorted order.
    pub fn output_next_of(&self, current: u64) -> (r: Option<u64>)
        requires
            self.global_space.wf(),
        ensures
            r == self.global_space.next_in_order(current),
    {
        self.global_space.output_after(current)
    }
}

/// The last of some outputs that shows a point.
pub open spec fn last_showing(outputs: Seq<PlacedOutput>, x: int, y: int) -> Option<PlacedOutput>
    decreases outputs.len(),
{
    if outputs.len() == 0 {
        None
    } else if outputs.last().geo.has(x, y) {
        Some(outputs.last())
    } else {
        last_showing(outputs.drop_last(), x, y)
    }
}

/// Going on to the next output and then back to the one before it leads where it started.
pub proof fn law_next_then_previous(space: OutputSpace, current: u64)
    requires
        space.wf(),
        space.sorted@.contains(current),
    ensures
        match space.next_in_order(current) {
            Some(next) => space.previous_in_order(next) == Some(current),
            None => space.sorted@.len() == 1,
        },
{
    let s = space.sorted@;
    let i = s.index_of(current);
    if i + 1 < s.len() {
        assert(s.index_of(s[i + 1]) == i + 1);
    } else {
        assert(s.index_of(s[0]) == 0);
    }
}

/// The middle of an area along one axis, in half pixels.
pub open spec fn half_pixels(start: i32, extent: i32) -> int {
    2 * start + extent
}

/// The neighbor of an output in a direction is another mapped output. Its middle lies in that direction,
/// and it shares some rows or columns of pixels with the output. No other such output is nearer.
pub proof fn law_neighbor_lies_that_way(space: OutputSpace, current: u64, toward: Direction)
    requires
        space.wf(),
    ensures
        space.neighbor(current, toward) matches Some(found) ==> {
            &&& space.geometry(current) is Some
            &&& space.geometry(found) is Some
            &&& found != current
            &&& ({
                let a = space.geometry(current)->0;
                let b = space.geometry(found)->0;
                match toward {
                    Direction::Left => half_pixels(b.loc.x, b.size.w) <= half_pixels(
                        a.loc.x,
                        a.size.w,
                    ) && b.loc.y < a.loc.y + a.size.h && a.loc.y < b.loc.y + b.size.h,
                    Direction::Right => half_pixels(a.loc.x, a.size.w) <= half_pixels(
                        b.loc.x,
                        b.size.w,
                    ) && b.loc.y < a.loc.y + a.size.h && a.loc.y < b.loc.y + b.size.h,
                    Direction::Up => half_pixels(b.loc.y, b.size.h) <= half_pixels(
                        a.loc.y,
                        a.size.h,
                    ) && b.loc.x < a.loc.x + a.size.w && a.loc.x < b.loc.x + b.size.w,
                    Direction::Down => half_pixels(a.loc.y, a.size.h) <= half_pixels(
                        b.loc.y,
                        b.size.h,
                    ) && b.loc.x < a.loc.x + a.size.w && a.loc.x < b.loc.x + b.size.w,
                }
            })
        },
{
    if let Some(from) = space.geometry(current) {
        if exists|i: int| #[trigger] space.is_nearest(from, toward, i) {
            let i = choose|i: int| #[trigger] space.is_nearest(from, toward, i);
            assert(space.is_nearest(from, toward, i));
            let found = space.outputs@[i].id;
            assert(space.outputs@[i].id == found);
            let k = space.index(found)->0;
            assert(k == i) by {
                if k < i {
                    assert(space.outputs@[k].id != space.outputs@[i].id);
                } else if i < k {
                    assert(space.outputs@[i].id != space.outputs@[k].id);
                }
            }
        }
    }
}

/// What lies to the left of something has that to its right, and what lies above has that below.
pub proof fn law_directions_are_opposite(a: Rectangle, b: Rectangle)
    ensures
        distance(a, b, Direction::Left) == distance(b, a, Direction::Right),
        distance(a, b, Direction::Up) == distance(b, a, Direction::Down),
        !(lies_toward(a, b, Direction::Left) && lies_toward(a, b, Direction::Right)),
        !(lies_toward(a, b, Direction::Up) && lies_toward(a, b, Direction::Down)),
{
}

/// Going on from one output to the next goes through all of them in order and round at the end, and so does
/// going back.
pub proof fn law_outputs_go_round(space: OutputSpace, i: int)
    requires
        space.sorted@.no_duplicates(),
        0 <= i < space.sorted@.len(),
        space.sorted@.len() > 1,
    ensures
        ({
            let s = space.sorted@;
            &&& space.next_in_order(s[i]) == Some(
                if i + 1 < s.len() {
                    s[i + 1]
                } else {
                    s[0]
                },
            )
            &&& space.previous_in_order(s[i]) == Some(
                if i > 0 {
                    s[i - 1]
                } else {
                    s[s.len() - 1]
                },
            )
        }),
{
    let s = space.sorted@;
    assert(s.contains(s[i]));
    assert(s.index_of(s[i]) == i);
    if i + 1 < s.len() {
        assert(s[i + 1] != s[i]);
    }
    if i > 0 {
        assert(s[i - 1] != s[i]);
        assert(s[0] != s[i]);
    } else {
        assert(s[s.len() - 1] != s[0]);
    }
}

/// Whether an area holds a pixel.
pub open spec fn holds_pixel(area: Rectangle, x: int, y: int) -> bool {
    area.loc.x <= x < area.loc.x + area.size.w && area.loc.y <= y < area.loc.y + area.size.h
}

/// A pixel is shown on the last mapped output whose area holds it, and on none if none does.
pub proof fn law_pixel_is_shown(outputs: Seq<PlacedOutput>, x: int, y: int)
    requires
        forall|i: int| 0 <= i < outputs.len() ==> (#[trigger] outputs[i]).geo.edges_fit(),
    ensures
        match last_showing(outputs, x, y) {
            Some(found) => exists|i: int|
                0 <= i < outputs.len() && #[trigger] outputs[i] == found && holds_pixel(
                    found.geo,
                    x,
                    y,
                ) && forall|j: int|
                    i < j < outputs.len() ==> !holds_pixel((#[trigger] outputs[j]).geo, x, y),
            None => forall|j: int|
                0 <= j < outputs.len() ==> !holds_pixel((#[trigger] outputs[j]).geo, x, y),
        },
    decreases outputs.len(),
{
    if outputs.len() > 0 {
        let shorter = outputs.drop_last();
        let last = outputs.last();
        assert(outputs[outputs.len() - 1] == last);
        assert(last.geo.has(x, y) == holds_pixel(last.geo, x, y));
        assert forall|i: int| 0 <= i < shorter.len() implies (#[trigger] shorter[i]).geo.edges_fit() by {
            assert(shorter[i] == outputs[i]);
        }
        law_pixel_is_shown(shorter, x, y);
        if !last.geo.has(x, y) {
            match last_showing(shorter, x, y) {
                Some(found) => {
                    let i = choose|i: int|
                        0 <= i < shorter.len() && #[trigger] shorter[i] == found && holds_pixel(
                            found.geo,
                            x,
                            y,
                        ) && forall|j: int|
                            i < j < shorter.len() ==> !holds_pixel((#[trigger] shorter[j]).geo, x, y);
                    assert(outputs[i] == found);
                    assert forall|j: int| i < j < outputs.len() implies !holds_pixel(
                        (#[trigger] outputs[j]).geo,
                        x,
                        y,
                    ) by {
                        if j < shorter.len() {
                            assert(shorter[j] == outputs[j]);
                        }
                    }
                },
                None => {
                    assert forall|j: int| 0 <= j < outputs.len() implies !holds_pixel(
                        (#[trigger] outputs[j]).geo,
                        x,
                        y,
                    ) by {
                        if j < shorter.len() {
                            assert(shorter[j] == outputs[j]);
                        }
                    }
                },
            }
        }
    }
}

} // verus!
