//! Placing outputs in the global space, and what comes and goes with an output.
use vstd::prelude::*;

use crate::geometry::{Point, Rectangle, Size};
use crate::niri::redraw::{has_state, state_index, states_unique, OutputState};
use crate::niri::space::{distance, Direction, OutputSpace, PlacedOutput};
use crate::niri::Niri;

verus! {

/// An output that is to be placed.
#[derive(Clone, Copy, Debug, PartialEq, Eq, Structural)]
pub struct OutputData {
    pub id: u64,
    /// Where the name of the output stands in the order of all names.
    pub rank: u64,
    /// Where the output was before, if it was anywhere.
    pub position: Option<Point>,
    /// Where the configuration wants it.
    pub config: Option<Point>,
    /// The logical size, rounded to pixels.
    pub size: Size,
    /// The logical size with started pixels counted in full, which is the area that it takes.
    pub shown_size: Size,
}

/// Whether an output is placed no later than another: those with a configured position go first, and
/// then the names decide.
pub open spec fn placed_no_later(a: OutputData, b: OutputData) -> bool {
    if a.config is Some == b.config is Some {
        a.rank <= b.rank
    } else {
        a.config is Some
    }
}

/// Whether a list holds some outputs in the order in which they are placed.
pub open spec fn is_placement_order(order: Seq<OutputData>, outputs: Seq<OutputData>) -> bool {
    &&& order.to_multiset() == outputs.to_multiset()
    &&& forall|i: int, j: int|
        0 <= i < j < order.len() ==> placed_no_later(#[trigger] order[i], #[trigger] order[j])
}

/// The area of an output at a position.
pub open spec fn area(output: OutputData, at: Point) -> Rectangle {
    Rectangle { loc: at, size: output.shown_size }
}

/// Whether an output would overlap one of those that have their place.
pub open spec fn blocked(wanted: Rectangle, order: Seq<OutputData>, at: Seq<Point>) -> bool {
    exists|k: int|
        0 <= k < order.len() && #[trigger] area(order[k], at[k]).overlapping(wanted)
}

/// The right end of all placed outputs.
pub open spec fn right_end(order: Seq<OutputData>, at: Seq<Point>) -> int
    decreases order.len(),
{
    if order.len() == 0 {
        0
    } else {
        let own = area(order.last(), at.last()).right();
        if order.len() == 1 {
            own
        } else {
            let rest = right_end(order.drop_last(), at.drop_last());
            if own >= rest {
                own
            } else {
                rest
            }
        }
    }
}

/// Where an output goes after those that have their place: where it is wanted, unless it would
/// overlap one of them there, or else to the right of them all.
pub open spec fn spot(output: OutputData, order: Seq<OutputData>, at: Seq<Point>) -> Point {
    match output.config {
        Some(wanted) if !blocked(
            Rectangle { loc: wanted, size: output.size },
            order,
            at,
        ) => wanted,
        _ => Point { x: right_end(order, at) as i32, y: 0 },
    }
}

/// Where outputs go, one after the other.
pub open spec fn spots(order: Seq<OutputData>) -> Seq<Point>
    decreases order.len(),
{
    if order.len() == 0 {
        Seq::empty()
    } else {
        let before = spots(order.drop_last());
        before.push(spot(order.last(), order.drop_last(), before))
    }
}

/// The outputs at their places.
pub open spec fn placed(order: Seq<OutputData>) -> Seq<PlacedOutput> {
    Seq::new(
        order.len(),
        |i: int| PlacedOutput { id: order[i].id, geo: area(order[i], spots(order)[i]) },
    )
}

/// Whether all places can be named, and the way between any two of them.
pub open spec fn placement_fits(order: Seq<OutputData>) -> bool {
    &&& forall|i: int|
        0 <= i < order.len() ==> {
            &&& (#[trigger] order[i]).shown_size.w >= 0
            &&& order[i].shown_size.h >= 0
            &&& area(order[i], spots(order)[i]).edges_fit()
        }
    &&& forall|i: int, j: int, toward: Direction|
        0 <= i < order.len() && 0 <= j < order.len() ==> i32::MIN <= #[trigger] distance(
            area(order[i], spots(order)[i]),
            area(order[j], spots(order)[j]),
            toward,
        ) <= i32::MAX
}

/// Whether an output is mapped.
pub open spec fn is_mapped(mapped: Seq<PlacedOutput>, id: u64) -> bool {
    exists|i: int| 0 <= i < mapped.len() && (#[trigger] mapped[i]).id == id
}

/// Whether a list holds an output.
pub open spec fn lists(outputs: Seq<OutputData>, id: u64) -> bool {
    exists|i: int| 0 <= i < outputs.len() && (#[trigger] outputs[i]).id == id
}

/// Whether an output is listed with the position that it has: none if it is not mapped.
pub open spec fn has_its_position(mapped: Seq<PlacedOutput>, output: OutputData) -> bool {
    match output.position {
        Some(at) => exists|i: int|
            0 <= i < mapped.len() && (#[trigger] mapped[i]).id == output.id && mapped[i].geo.loc
                == at,
        None => !is_mapped(mapped, output.id),
    }
}

/// Whether a list holds all mapped outputs and the new one, if there is one, and no others, each with
/// the position that it has.
pub open spec fn is_all_outputs(
    mapped: Seq<PlacedOutput>,
    new_output: Option<u64>,
    outputs: Seq<OutputData>,
) -> bool {
    &&& forall|i: int| 0 <= i < mapped.len() ==> lists(outputs, (#[trigger] mapped[i]).id)
    &&& new_output matches Some(id) ==> lists(outputs, id)
    &&& forall|i: int|
        0 <= i < outputs.len() ==> has_its_position(mapped, #[trigger] outputs[i]) && (is_mapped(
            mapped,
            outputs[i].id,
        ) || new_output == Some(outputs[i].id))
}

/// The mapped outputs without one of them.
pub open spec fn unmapped(mapped: Seq<PlacedOutput>, id: u64) -> Seq<PlacedOutput>
    decreases mapped.len(),
{
    if mapped.len() == 0 {
        mapped
    } else {
        let before = unmapped(mapped.drop_last(), id);
        if mapped.last().id == id {
            before
        } else {
            before.push(mapped.last())
        }
    }
}

impl OutputSpace {
    /// Takes an output out of the space.
    pub fn unmap_output(&mut self, id: u64)
        ensures
            final(self).outputs@ == unmapped(old(self).outputs@, id),
            final(self).sorted == old(self).sorted,
    {
        let mut left: Vec<PlacedOutput> = Vec::new();
        let mut i: usize = 0;
        assert(self.outputs@.take(0) =~= Seq::<PlacedOutput>::empty());
        while i < self.outputs.len()
            invariant
                i <= self.outputs@.len(),
                *self == *old(self),
                left@ == unmapped(self.outputs@.take(i as int), id),
            decreases self.outputs@.len() - i,
        {
            assert(self.outputs@.take(i + 1).drop_last() =~= self.outputs@.take(i as int));
            if self.outputs[i].id != id {
                left.push(self.outputs[i]);
            }
            i = i + 1;
        }
        assert(self.outputs@.take(i as int) =~= self.outputs@);
        self.outputs = left;
    }
}

/// Taking an output out of the space leaves just the others.
pub proof fn law_unmapped(mapped: Seq<PlacedOutput>, id: u64, other: u64)
    ensures
        is_mapped(unmapped(mapped, id), other) <==> is_mapped(mapped, other) && other != id,
    decreases mapped.len(),
{
    if mapped.len() > 0 {
        let shorter = mapped.drop_last();
        let last = mapped.last();
        let before = unmapped(shorter, id);
        law_unmapped(shorter, id, other);
        if is_mapped(shorter, other) {
            let i = choose|i: int| 0 <= i < shorter.len() && (#[trigger] shorter[i]).id == other;
            assert(mapped[i].id == other);
        }
        if is_mapped(mapped, other) && last.id != other {
            let i = choose|i: int| 0 <= i < mapped.len() && (#[trigger] mapped[i]).id == other;
            assert(shorter[i].id == other);
        }
        assert(mapped[mapped.len() - 1] == last);
        if last.id != id {
            let after = before.push(last);
            assert(after[before.len() as int] == last);
            if is_mapped(before, other) {
                let i = choose|i: int| 0 <= i < before.len() && (#[trigger] before[i]).id == other;
                assert(after[i].id == other);
            }
            if is_mapped(after, other) && last.id != other {
                let i = choose|i: int| 0 <= i < after.len() && (#[trigger] after[i]).id == other;
                assert(before[i].id == other);
            }
        }
    }
}

/// Placing outputs anew loses none of them: all that were mapped still are, and the new one is too.
pub proof fn law_no_output_is_lost(
    mapped: Seq<PlacedOutput>,
    new_output: Option<u64>,
    outputs: Seq<OutputData>,
    order: Seq<OutputData>,
    id: u64,
)
    requires
        is_all_outputs(mapped, new_output, outputs),
        is_placement_order(order, outputs),
        ids_unique(outputs),
    ensures
        is_mapped(placed(order), id) <==> is_mapped(mapped, id) || new_output == Some(id),
{
    broadcast use vstd::seq_lib::group_to_multiset_ensures;

    lemma_order_keeps_outputs(order, outputs);
    if is_mapped(placed(order), id) {
        let k = choose|k: int| 0 <= k < placed(order).len() && (#[trigger] placed(order)[k]).id == id;
        assert(outputs.contains(order[k]));
        let j = choose|j: int| 0 <= j < outputs.len() && outputs[j] == order[k];
        assert(has_its_position(mapped, outputs[j]));
    }
    if is_mapped(mapped, id) || new_output == Some(id) {
        if is_mapped(mapped, id) {
            let i = choose|i: int| 0 <= i < mapped.len() && (#[trigger] mapped[i]).id == id;
            assert(lists(outputs, mapped[i].id));
        }
        let j = choose|j: int| 0 <= j < outputs.len() && (#[trigger] outputs[j]).id == id;
        assert(outputs.contains(outputs[j]));
        assert(outputs.to_multiset().count(outputs[j]) > 0);
        assert(order.contains(outputs[j]));
        let k = choose|k: int| 0 <= k < order.len() && order[k] == outputs[j];
        assert(placed(order)[k].id == id);
    }
}

/// Whether every output occurs once.
pub open spec fn ids_unique(order: Seq<OutputData>) -> bool {
    forall|i: int, j: int|
        0 <= i < j < order.len() ==> (#[trigger] order[i]).id != (#[trigger] order[j]).id
}

/// Whether an output has to be told of a new position.
pub open spec fn has_moved(order: Seq<OutputData>, i: int) -> bool {
    Some(spots(order)[i]) != order[i].position
}

/// The first `n` outputs that have moved, at their new places.
pub open spec fn moved_outputs(order: Seq<OutputData>, n: int) -> Seq<PlacedOutput>
    decreases n,
{
    if n <= 0 {
        Seq::empty()
    } else {
        let rest = moved_outputs(order, n - 1);
        if has_moved(order, n - 1) {
            rest.push(placed(order)[n - 1])
        } else {
            rest
        }
    }
}

/// Whether an output is among the first `n` that have moved.
pub open spec fn is_moved(order: Seq<OutputData>, n: int, id: u64) -> bool {
    exists|i: int| 0 <= i < n && (#[trigger] order[i]).id == id && has_moved(order, i)
}

/// The states of the outputs once the first `n` have been placed: those that moved are drawn anew.
pub open spec fn states_moved(
    states: Seq<OutputState>,
    order: Seq<OutputData>,
    n: int,
) -> Seq<OutputState> {
    states.map_values(
        |s: OutputState|
            if is_moved(order, n, s.id) {
                s.queued()
            } else {
                s
            },
    )
}

proof fn lemma_spots_len(order: Seq<OutputData>)
    ensures
        spots(order).len() == order.len(),
    decreases order.len(),
{
    if order.len() > 0 {
        lemma_spots_len(order.drop_last());
    }
}

proof fn lemma_spots_prefix(order: Seq<OutputData>, n: int)
    requires
        0 <= n <= order.len(),
    ensures
        spots(order.take(n)) == spots(order).take(n),
    decreases order.len(),
{
    lemma_spots_len(order);
    lemma_spots_len(order.take(n));
    if n == order.len() {
        assert(order.take(n) =~= order);
        assert(spots(order).take(n) =~= spots(order));
    } else {
        lemma_spots_prefix(order.drop_last(), n);
        lemma_spots_len(order.drop_last());
        assert(order.drop_last().take(n) =~= order.take(n));
        assert(spots(order).take(n) =~= spots(order.drop_last()).take(n));
    }
}

proof fn lemma_right_end(order: Seq<OutputData>, at: Seq<Point>, k: int)
    requires
        order.len() == at.len(),
        0 <= k < order.len(),
    ensures
        area(order[k], at[k]).right() <= right_end(order, at),
    decreases order.len(),
{
    if k < order.len() - 1 {
        lemma_right_end(order.drop_last(), at.drop_last(), k);
    }
}

proof fn lemma_spot_of(order: Seq<OutputData>, j: int)
    requires
        0 <= j < order.len(),
    ensures
        spots(order)[j] == spot(order[j], order.take(j), spots(order).take(j)),
{
    lemma_spots_len(order);
    lemma_spots_prefix(order, j + 1);
    lemma_spots_prefix(order, j);
    let first = order.take(j + 1);
    assert(first.drop_last() =~= order.take(j));
    assert(first.last() == order[j]);
    assert(spots(first)[j] == spots(order)[j]);
    lemma_spots_len(first.drop_last());
}

/// Outputs do not overlap, where rounding the sizes takes nothing away from the areas.
pub proof fn law_placed_apart(order: Seq<OutputData>, i: int, j: int)
    requires
        placement_fits(order),
        forall|k: int|
            0 <= k < order.len() ==> (#[trigger] order[k]).size == order[k].shown_size,
        0 <= i < order.len(),
        0 <= j < order.len(),
        i != j,
    ensures
        !placed(order)[i].geo.overlapping(placed(order)[j].geo),
{
    if i > j {
        law_placed_apart_in_order(order, j, i);
    } else {
        law_placed_apart_in_order(order, i, j);
    }
}

proof fn law_placed_apart_in_order(order: Seq<OutputData>, i: int, j: int)
    requires
        placement_fits(order),
        forall|k: int|
            0 <= k < order.len() ==> (#[trigger] order[k]).size == order[k].shown_size,
        0 <= i < j < order.len(),
    ensures
        !placed(order)[i].geo.overlapping(placed(order)[j].geo),
        !placed(order)[j].geo.overlapping(placed(order)[i].geo),
{
    lemma_spots_len(order);
    lemma_spot_of(order, j);
    let before = order.take(j);
    let at = spots(order).take(j);
    let mine = area(order[j], spots(order)[j]);
    let theirs = area(order[i], spots(order)[i]);
    assert(area(before[i], at[i]) == theirs);
    assert(order[i].shown_size.w >= 0);
    if order[j].config is Some && !blocked(
        Rectangle { loc: order[j].config->0, size: order[j].size },
        before,
        at,
    ) {
        assert(!area(before[i], at[i]).overlapping(mine));
    } else {
        lemma_right_end(before, at, i);
        lemma_right_end_fits(before, at);
        assert(mine.loc.x >= theirs.right());
    }
}

/// The right end of placed outputs is the right edge of one of them.
proof fn lemma_right_end_fits(order: Seq<OutputData>, at: Seq<Point>)
    requires
        order.len() == at.len(),
        order.len() > 0,
        forall|k: int| 0 <= k < order.len() ==> #[trigger] area(order[k], at[k]).edges_fit(),
    ensures
        i32::MIN <= right_end(order, at) <= i32::MAX,
    decreases order.len(),
{
    let n = order.len() - 1;
    assert(area(order[n], at[n]).edges_fit());
    if n > 0 {
        let rest = order.drop_last();
        let rest_at = at.drop_last();
        assert forall|k: int| 0 <= k < rest.len() implies #[trigger] area(
            rest[k],
            rest_at[k],
        ).edges_fit() by {
            assert(area(order[k], at[k]).edges_fit());
        }
        lemma_right_end_fits(rest, rest_at);
    }
}

/// Whether an output is placed no later than another.
fn no_later(a: OutputData, b: OutputData) -> (r: bool)
    ensures
        r == placed_no_later(a, b),
{
    if a.config.is_some() == b.config.is_some() {
        a.rank <= b.rank
    } else {
        a.config.is_some()
    }
}

/// Sorts outputs into the order in which they are placed.
fn sort_outputs(outputs: Vec<OutputData>) -> (r: Vec<OutputData>)
    ensures
        is_placement_order(r@, outputs@),
{
    let mut sorted: Vec<OutputData> = Vec::new();
    let mut n: usize = 0;
    assert(sorted@ =~= outputs@.take(0));
    while n < outputs.len()
        invariant
            n <= outputs.len(),
            is_placement_order(sorted@, outputs@.take(n as int)),
        decreases outputs.len() - n,
    {
        let output = outputs[n];
        let ghost before = sorted@;
        let mut at: usize = sorted.len();
        while at > 0 && !no_later(sorted[at - 1], output)
            invariant
                at <= sorted.len(),
                sorted@ == before,
                forall|k: int|
                    at <= k < before.len() ==> !placed_no_later(#[trigger] before[k], output),
            decreases at,
        {
            at = at - 1;
        }
        sorted.insert(at, output);
        proof {
            let shorter = outputs@.take(n as int);
            let longer = outputs@.take(n + 1);
            assert(longer =~= shorter.push(output));
            assert(sorted@ =~= before.insert(at as int, output));
            vstd::seq_lib::to_multiset_insert(before, at as int, output);
            vstd::seq_lib::to_multiset_build(shorter, output);
            assert(sorted@.to_multiset() =~= longer.to_multiset());
            assert forall|i: int, j: int| 0 <= i < j < sorted@.len() implies placed_no_later(
                #[trigger] sorted@[i],
                #[trigger] sorted@[j],
            ) by {
                if i < at && at > 0 {
                    assert(placed_no_later(before[at - 1], output));
                    if i < at - 1 {
                        assert(placed_no_later(before[i], before[at - 1]));
                    }
                }
                if j > at {
                    assert(!placed_no_later(before[j - 1], output));
                }
                if i < at && j < at {
                    assert(placed_no_later(before[i], before[j]));
                } else if i < at && j > at {
                    assert(placed_no_later(before[i], before[j - 1]));
                } else if i > at {
                    assert(placed_no_later(before[i - 1], before[j - 1]));
                }
            }
        }
        n = n + 1;
    }
    assert(outputs@.take(n as int) =~= outputs@);
    sorted
}

/// How outputs were placed.
#[derive(Debug)]
pub struct Repositioned {
    /// All outputs in the order in which they were placed.
    pub order: Vec<OutputData>,
    /// Those that have moved, at their new places.
    pub moved: Vec<PlacedOutput>,
}

fn is_blocked(
    outputs: &Vec<PlacedOutput>,
    wanted: Rectangle,
    Ghost(order): Ghost<Seq<OutputData>>,
    Ghost(at): Ghost<Seq<Point>>,
) -> (r: bool)
    requires
        order.len() == outputs@.len(),
        at.len() == outputs@.len(),
        forall|k: int| 0 <= k < order.len() ==> (#[trigger] outputs@[k]).geo == area(order[k], at[k]),
    ensures
        r == blocked(wanted, order, at),
{
    let mut i: usize = 0;
    while i < outputs.len()
        invariant
            i <= outputs.len(),
            order.len() == outputs@.len(),
            forall|k: int|
                0 <= k < order.len() ==> (#[trigger] outputs@[k]).geo == area(order[k], at[k]),
            forall|k: int| 0 <= k < i ==> !#[trigger] area(order[k], at[k]).overlapping(wanted),
        decreases outputs.len() - i,
    {
        if outputs[i].geo.overlaps(wanted) {
            assert(area(order[i as int], at[i as int]).overlapping(wanted));
            return true;
        }
        assert(outputs@[i as int].geo == area(order[i as int], at[i as int]));
        i = i + 1;
    }
    false
}

fn rightmost(
    outputs: &Vec<PlacedOutput>,
    Ghost(order): Ghost<Seq<OutputData>>,
    Ghost(at): Ghost<Seq<Point>>,
) -> (r: i32)
    requires
        order.len() == outputs@.len(),
        at.len() == outputs@.len(),
        forall|k: int|
            0 <= k < order.len() ==> (#[trigger] outputs@[k]).geo == area(order[k], at[k])
                && outputs@[k].geo.edges_fit(),
    ensures
        r == right_end(order, at),
{
    let mut end: i32 = 0;
    let mut i: usize = 0;
    while i < outputs.len()
        invariant
            i <= outputs.len(),
            order.len() == outputs@.len(),
            at.len() == outputs@.len(),
            forall|k: int|
                0 <= k < order.len() ==> (#[trigger] outputs@[k]).geo == area(order[k], at[k])
                    && outputs@[k].geo.edges_fit(),
            end == right_end(order.take(i as int), at.take(i as int)),
        decreases outputs.len() - i,
    {
        let geo = outputs[i].geo;
        let right: i32 = geo.loc.x + geo.size.w;
        proof {
            assert(order.take(i + 1).drop_last() =~= order.take(i as int));
            assert(at.take(i + 1).drop_last() =~= at.take(i as int));
            assert(order.take(i + 1).last() == order[i as int]);
            assert(at.take(i + 1).last() == at[i as int]);
        }
        if i == 0 || right > end {
            end = right;
        }
        i = i + 1;
    }
    proof {
        assert(order.take(i as int) =~= order);
        assert(at.take(i as int) =~= at);
    }
    end
}

proof fn lemma_states_step(
    states: Seq<OutputState>,
    order: Seq<OutputData>,
    n: int,
    after: Seq<OutputState>,
)
    requires
        states_unique(states),
        ids_unique(order),
        0 <= n < order.len(),
        has_state(states, order[n].id),
        ({
            let now = states_moved(states, order, n);
            let i = state_index(now, order[n].id);
            after == (if has_moved(order, n) {
                now.update(i, now[i].queued())
            } else {
                now
            })
        }),
    ensures
        after == states_moved(states, order, n + 1),
{
    let now = states_moved(states, order, n);
    let next = states_moved(states, order, n + 1);
    let k0 = choose|k: int| 0 <= k < states.len() && (#[trigger] states[k]).id == order[n].id;
    assert(now[k0].id == order[n].id);
    let i = state_index(now, order[n].id);
    assert(0 <= i < now.len() && now[i].id == order[n].id);
    assert forall|k: int| 0 <= k < states.len() implies after[k] == next[k] by {
        let id = states[k].id;
        if is_moved(order, n, id) {
            let m = choose|m: int| 0 <= m < n && (#[trigger] order[m]).id == id && has_moved(order, m);
            assert(order[m].id == id && has_moved(order, m));
            assert(order[m].id != order[n].id);
        }
        if is_moved(order, n + 1, id) && !is_moved(order, n, id) {
            let m = choose|m: int|
                0 <= m < n + 1 && (#[trigger] order[m]).id == id && has_moved(order, m);
            assert(m == n);
        }
        if has_moved(order, n) && id == order[n].id {
            assert(order[n].id == id);
            assert(is_moved(order, n + 1, id));
            assert(k == i) by {
                assert(states[i].id == now[i].id);
            }
        }
    }
    assert(after =~= next);
}

pub proof fn lemma_states_moved_same_ids(states: Seq<OutputState>, order: Seq<OutputData>, n: int)
    requires
        states_unique(states),
    ensures
        states_unique(states_moved(states, order, n)),
        forall|id: u64| #[trigger]
            has_state(states_moved(states, order, n), id) <==> has_state(states, id),
{
    let now = states_moved(states, order, n);
    assert forall|k: int| 0 <= k < states.len() implies (#[trigger] now[k]).id == states[k].id by {}
    assert forall|id: u64| #[trigger] has_state(now, id) <==> has_state(states, id) by {
        if has_state(states, id) {
            let k = choose|k: int| 0 <= k < states.len() && (#[trigger] states[k]).id == id;
            assert(now[k].id == id);
        }
        if has_state(now, id) {
            let k = choose|k: int| 0 <= k < now.len() && (#[trigger] now[k]).id == id;
            assert(states[k].id == id);
        }
    }
    assert forall|i: int, j: int| 0 <= i < j < now.len() implies (#[trigger] now[i]).id != (
    #[trigger] now[j]).id by {
        assert(states[i].id != states[j].id);
    }
}

/// Placing outputs in their order keeps what the global space asks for.
proof fn lemma_placed_wf(space: OutputSpace, order: Seq<OutputData>)
    requires
        placement_fits(order),
        ids_unique(order),
        space.outputs@ == placed(order),
        space.sorted@ == order.map_values(|d: OutputData| d.id),
    ensures
        space.wf(),
{
    lemma_spots_len(order);
    assert forall|i: int, j: int| 0 <= i < j < space.outputs@.len() implies (
    #[trigger] space.outputs@[i]).id != (#[trigger] space.outputs@[j]).id by {
        assert(order[i].id != order[j].id);
    }
    assert forall|i: int| 0 <= i < space.outputs@.len() implies {
        &&& (#[trigger] space.outputs@[i]).geo.edges_fit()
        &&& space.outputs@[i].geo.size.w >= 0
        &&& space.outputs@[i].geo.size.h >= 0
    } by {
        assert(order[i].shown_size.w >= 0);
    }
    assert forall|i: int, j: int, toward: Direction|
        0 <= i < space.outputs@.len() && 0 <= j < space.outputs@.len() implies i32::MIN
        <= #[trigger] distance(space.outputs@[i].geo, space.outputs@[j].geo, toward)
        <= i32::MAX by {
        let d = distance(area(order[i], spots(order)[i]), area(order[j], spots(order)[j]), toward);
        assert(i32::MIN <= d <= i32::MAX);
    }
    assert forall|i: int, j: int| 0 <= i < j < space.sorted@.len() implies space.sorted@[i]
        != space.sorted@[j] by {
        assert(order[i].id != order[j].id);
    }
}

impl Niri {
    /// Places all outputs anew, and the new one if there is one.
    pub fn reposition_outputs(&mut self, new_output: Option<u64>, outputs: Vec<OutputData>) -> (r:
        Repositioned)
        requires
            is_all_outputs(old(self).global_space.outputs@, new_output, outputs@),
            states_unique(old(self).output_state@),
            ids_unique(outputs@),
            forall|i: int|
                0 <= i < outputs@.len() ==> has_state(
                    old(self).output_state@,
                    (#[trigger] outputs@[i]).id,
                ),
            forall|order: Seq<OutputData>| #[trigger]
                is_placement_order(order, outputs@) ==> placement_fits(order),
        ensures
            is_placement_order(r.order@, outputs@),
            ({
                let order = r.order@;
                let n = order.len() as int;
                &&& final(self).global_space.outputs@ == placed(order)
                &&& final(self).global_space.sorted@ == order.map_values(|d: OutputData| d.id)
                &&& final(self).global_space.wf()
                &&& r.moved@ == moved_outputs(order, n)
                &&& final(self).output_state@ == states_moved(old(self).output_state@, order, n)
                &&& *final(self) == (Niri {
                    global_space: final(self).global_space,
                    output_state: final(self).output_state,
                    ipc_outputs_changed: old(self).ipc_outputs_changed || r.moved@.len() > 0,
                    ..*old(self)
                })
            }),
    {
        let ghost given = outputs@;
        let order = sort_outputs(outputs);
        let ghost all = order@;
        proof {
            lemma_order_keeps_outputs(all, given);
            lemma_spots_len(all);
        }
        let mut sorted: Vec<u64> = Vec::new();
        let mut i: usize = 0;
        while i < order.len()
            invariant
                i <= order.len(),
                all == order@,
                sorted@ =~= all.map_values(|d: OutputData| d.id).take(i as int),
            decreases order.len() - i,
        {
            sorted.push(order[i].id);
            i = i + 1;
        }
        assert(sorted@ =~= all.map_values(|d: OutputData| d.id));
        let mut space: Vec<PlacedOutput> = Vec::new();
        let mut moved: Vec<PlacedOutput> = Vec::new();
        let ghost states = self.output_state@;
        let mut n: usize = 0;
        assert(states =~= states_moved(states, all, 0));
        while n < order.len()
            invariant
                n <= order.len(),
                all == order@,
                states == old(self).output_state@,
                states_unique(states),
                ids_unique(all),
                placement_fits(all),
                spots(all).len() == all.len(),
                forall|k: int|
                    0 <= k < all.len() ==> has_state(states, (#[trigger] all[k]).id),
                space@ =~= placed(all).take(n as int),
                moved@ == moved_outputs(all, n as int),
                self.output_state@ == states_moved(states, all, n as int),
                *self == (Niri {
                    output_state: self.output_state,
                    ipc_outputs_changed: old(self).ipc_outputs_changed || moved@.len() > 0,
                    ..*old(self)
                }),
            decreases order.len() - n,
        {
            let data = order[n];
            let ghost before = all.take(n as int);
            let ghost at = spots(all).take(n as int);
            proof {
                lemma_spot_of(all, n as int);
                assert forall|k: int| 0 <= k < before.len() implies (#[trigger] space@[k]).geo
                    == area(before[k], at[k]) && space@[k].geo.edges_fit() by {
                    assert(all[k].shown_size.w >= 0);
                }
            }
            let mut position: Option<Point> = None;
            if let Some(wanted) = data.config {
                let target = Rectangle { loc: wanted, size: data.size };
                if !is_blocked(&space, target, Ghost(before), Ghost(at)) {
                    position = Some(wanted);
                }
            }
            let position: Point = match position {
                Some(position) => position,
                None => Point { x: rightmost(&space, Ghost(before), Ghost(at)), y: 0 },
            };
            assert(position == spots(all)[n as int]);
            let here = PlacedOutput {
                id: data.id,
                geo: Rectangle { loc: position, size: data.shown_size },
            };
            space.push(here);
            if data.position != Some(position) {
                moved.push(here);
                self.ipc_outputs_changed = true;
                proof {
                    lemma_states_moved_same_ids(states, all, n as int);
                }
                self.queue_redraw(data.id);
            }
            proof {
                lemma_states_step(states, all, n as int, self.output_state@);
            }
            n = n + 1;
        }
        self.global_space = OutputSpace { outputs: space, sorted };
        proof {
            assert(space@ =~= placed(all));
            lemma_placed_wf(self.global_space, all);
        }
        Repositioned { order, moved }
    }
}

proof fn lemma_order_keeps_outputs(order: Seq<OutputData>, outputs: Seq<OutputData>)
    requires
        order.to_multiset() == outputs.to_multiset(),
        ids_unique(outputs),
    ensures
        ids_unique(order),
        order.len() == outputs.len(),
        forall|k: int| 0 <= k < order.len() ==> outputs.contains(#[trigger] order[k]),
{
    broadcast use vstd::seq_lib::group_to_multiset_ensures;

    vstd::seq_lib::to_multiset_len(order);
    vstd::seq_lib::to_multiset_len(outputs);
    assert forall|k: int| 0 <= k < order.len() implies outputs.contains(#[trigger] order[k]) by {
        assert(order.contains(order[k]));
        assert(order.to_multiset().count(order[k]) > 0);
        assert(outputs.contains(order[k]));
    }
    assert(outputs.no_duplicates()) by {
        assert forall|i: int, j: int| 0 <= i < j < outputs.len() implies outputs[i]
            != outputs[j] by {
            assert(outputs[i].id != outputs[j].id);
        }
    }
    outputs.lemma_multiset_has_no_duplicates();
    order.lemma_multiset_has_no_duplicates_conv();
    assert forall|i: int, j: int| 0 <= i < j < order.len() implies (#[trigger] order[i]).id != (
    #[trigger] order[j]).id by {
        assert(outputs.contains(order[i]));
        assert(outputs.contains(order[j]));
        let a = choose|a: int| 0 <= a < outputs.len() && outputs[a] == order[i];
        let b = choose|b: int| 0 <= b < outputs.len() && outputs[b] == order[j];
        assert(order[i] != order[j]);
        assert(a != b);
        if a < b {
            assert(outputs[a].id != outputs[b].id);
        } else {
            assert(outputs[b].id != outputs[a].id);
        }
    }
}

/// Whether an output of a size at some place shares no pixel with an area.
pub open spec fn is_clear_of(area: Rectangle, loc: Point, size: Size) -> bool {
    ||| area.loc.x + area.size.w <= loc.x
    ||| loc.x + size.w <= area.loc.x
    ||| area.loc.y + area.size.h <= loc.y
    ||| loc.y + size.h <= area.loc.y
}

/// An output with a configured position is at that position, if it shares no pixel there with an output
/// that was placed before it.
pub proof fn law_configured_position_is_used(order: Seq<OutputData>, j: int)
    requires
        0 <= j < order.len(),
        order[j].config is Some,
        forall|k: int|
            0 <= k < j ==> is_clear_of(
                (#[trigger] placed(order)[k]).geo,
                order[j].config->0,
                order[j].size,
            ),
    ensures
        placed(order)[j].id == order[j].id,
        placed(order)[j].geo.loc == order[j].config->0,
        placed(order)[j].geo.size == order[j].shown_size,
{
    lemma_spots_len(order);
    lemma_spot_of(order, j);
    let wanted = Rectangle { loc: order[j].config->0, size: order[j].size };
    let before = order.take(j);
    let at = spots(order).take(j);
    assert forall|k: int| 0 <= k < before.len() implies !(#[trigger] area(
        before[k],
        at[k],
    ).overlapping(wanted)) by {
        assert(placed(order)[k].geo == area(before[k], at[k]));
    }
    assert(!blocked(wanted, before, at));
}

/// If the configured positions of all outputs are clear of each other, every output is just where it is
/// configured to be.
pub proof fn law_all_configured_positions_are_used(order: Seq<OutputData>, j: int)
    requires
        0 <= j < order.len(),
        forall|k: int|
            0 <= k <= j ==> (#[trigger] order[k]).config is Some && order[k].size
                == order[k].shown_size,
        forall|i: int, k: int|
            0 <= i < k <= j ==> is_clear_of(
                Rectangle { loc: (#[trigger] order[i]).config->0, size: order[i].size },
                (#[trigger] order[k]).config->0,
                order[k].size,
            ),
    ensures
        placed(order)[j].geo == (Rectangle { loc: order[j].config->0, size: order[j].size }),
    decreases j,
{
    assert forall|k: int| 0 <= k < j implies is_clear_of(
        (#[trigger] placed(order)[k]).geo,
        order[j].config->0,
        order[j].size,
    ) by {
        law_all_configured_positions_are_used(order, k);
        assert(order[k].config is Some);
    }
    assert(order[j].config is Some);
    law_configured_position_is_used(order, j);
}

/// The right end of some outputs is that of one of them.
proof fn lemma_right_end_is_reached(order: Seq<OutputData>, at: Seq<Point>) -> (k: int)
    requires
        order.len() == at.len(),
        order.len() > 0,
    ensures
        0 <= k < order.len(),
        area(order[k], at[k]).right() == right_end(order, at),
    decreases order.len(),
{
    let n = order.len() - 1;
    if n == 0 || area(order[n], at[n]).right() >= right_end(order.drop_last(), at.drop_last()) {
        n
    } else {
        lemma_right_end_is_reached(order.drop_last(), at.drop_last())
    }
}

/// An output without a configured position, or whose configured position is taken, is at the top, right
/// next to the rightmost of the outputs that were placed before it. The first one is at the origin.
pub proof fn law_others_go_to_the_right(order: Seq<OutputData>, j: int)
    requires
        placement_fits(order),
        0 <= j < order.len(),
        order[j].config matches Some(wanted) ==> wanted.x < i32::MAX && wanted.y < i32::MAX && exists|
            k: int,
        |
            0 <= k < j && !is_clear_of((#[trigger] placed(order)[k]).geo, wanted, order[j].size)
                && placed(order)[k].geo.loc.x < i32::MAX && placed(order)[k].geo.loc.y < i32::MAX,
    ensures
        ({
            let own = placed(order)[j].geo;
            &&& own.loc.y == 0
            &&& own.size == order[j].shown_size
            &&& j == 0 ==> own.loc.x == 0
            &&& forall|k: int|
                0 <= k < j ==> (#[trigger] placed(order)[k]).geo.loc.x + placed(order)[k].geo.size.w
                    <= own.loc.x
            &&& j > 0 ==> exists|k: int|
                0 <= k < j && (#[trigger] placed(order)[k]).geo.loc.x + placed(order)[k].geo.size.w
                    == own.loc.x
        }),
{
    lemma_spots_len(order);
    lemma_spot_of(order, j);
    let before = order.take(j);
    let at = spots(order).take(j);
    assert forall|k: int| 0 <= k < before.len() implies #[trigger] area(
        before[k],
        at[k],
    ).edges_fit() && placed(order)[k].geo == area(before[k], at[k]) by {
        assert(order[k].shown_size.w >= 0);
    }
    if let Some(wanted) = order[j].config {
        let k = choose|k: int|
            0 <= k < j && !is_clear_of((#[trigger] placed(order)[k]).geo, wanted, order[j].size)
                && placed(order)[k].geo.loc.x < i32::MAX && placed(order)[k].geo.loc.y < i32::MAX;
        assert(area(before[k], at[k]).overlapping(Rectangle { loc: wanted, size: order[j].size }));
        assert(blocked(Rectangle { loc: wanted, size: order[j].size }, before, at));
    }
    if j > 0 {
        lemma_right_end_fits(before, at);
        let k = lemma_right_end_is_reached(before, at);
        assert(placed(order)[k].geo == area(before[k], at[k]));
        assert forall|k: int| 0 <= k < j implies (#[trigger] placed(order)[k]).geo.loc.x
            + placed(order)[k].geo.size.w <= placed(order)[j].geo.loc.x by {
            lemma_right_end(before, at, k);
        }
        assert(placed(order)[k].geo.loc.x + placed(order)[k].geo.size.w
            == placed(order)[j].geo.loc.x);
    }
}

/// Outputs with a configured position are placed before the others, and both in the order of their names.
pub proof fn law_configured_outputs_go_first(
    order: Seq<OutputData>,
    outputs: Seq<OutputData>,
    i: int,
    j: int,
)
    requires
        is_placement_order(order, outputs),
        0 <= i < j < order.len(),
    ensures
        order[j].config is Some ==> order[i].config is Some,
        (order[i].config is Some) == (order[j].config is Some) ==> order[i].rank <= order[j].rank,
{
    assert(placed_no_later(order[i], order[j]));
}

/// Just the outputs that are elsewhere than before have moved.
pub proof fn law_moved_outputs(order: Seq<OutputData>, n: int, i: int)
    requires
        0 <= i < n <= order.len(),
        ids_unique(order),
    ensures
        moved_outputs(order, n).contains(placed(order)[i]) <==> order[i].position != Some(
            placed(order)[i].geo.loc,
        ),
    decreases n,
{
    lemma_spots_len(order);
    let rest = moved_outputs(order, n - 1);
    let all = moved_outputs(order, n);
    let last = placed(order)[n - 1];
    if i < n - 1 {
        law_moved_outputs(order, n - 1, i);
        assert(order[i].id != order[n - 1].id);
        assert(placed(order)[i] != last);
        if rest.contains(placed(order)[i]) {
            assert(all[rest.index_of(placed(order)[i])] == placed(order)[i]);
        }
        if all.contains(placed(order)[i]) {
            assert(rest[all.index_of(placed(order)[i])] == placed(order)[i]);
        }
    } else {
        lemma_moved_before(order, n - 1, i);
        if has_moved(order, i) {
            assert(all[rest.len() as int] == last);
        }
    }
}

/// An output that is not among the first ones is not among the first that have moved.
proof fn lemma_moved_before(order: Seq<OutputData>, n: int, i: int)
    requires
        0 <= n <= i < order.len(),
        ids_unique(order),
    ensures
        !moved_outputs(order, n).contains(placed(order)[i]),
    decreases n,
{
    if n > 0 {
        lemma_moved_before(order, n - 1, i);
        let rest = moved_outputs(order, n - 1);
        let all = moved_outputs(order, n);
        assert(order[n - 1].id != order[i].id);
        if all.contains(placed(order)[i]) {
            let k = all.index_of(placed(order)[i]);
            if k < rest.len() {
                assert(rest[k] == placed(order)[i]);
            } else {
                assert(all[k] == placed(order)[n - 1]);
            }
        }
    }
}

/// Just the outputs that are elsewhere than before are drawn anew.
pub proof fn law_moved_outputs_are_drawn(
    states: Seq<OutputState>,
    order: Seq<OutputData>,
    i: int,
    k: int,
)
    requires
        0 <= i < order.len(),
        0 <= k < states.len(),
        order[i].id == states[k].id,
        ids_unique(order),
    ensures
        states_moved(states, order, order.len() as int)[k] == (if order[i].position == Some(
            placed(order)[i].geo.loc,
        ) {
            states[k]
        } else {
            states[k].queued()
        }),
        states_moved(states, order, order.len() as int).len() == states.len(),
{
    lemma_spots_len(order);
    let n = order.len() as int;
    let id = states[k].id;
    if is_moved(order, n, id) {
        let m = choose|m: int| 0 <= m < n && (#[trigger] order[m]).id == id && has_moved(order, m);
        if m < i {
            assert(order[m].id != order[i].id);
        } else if i < m {
            assert(order[i].id != order[m].id);
        }
    } else {
        assert(order[i].id == id);
        assert(!has_moved(order, i));
    }
}

} // verus!
