//! Regions built by adding and subtracting rectangles.
use vstd::prelude::*;

use crate::geometry::{Point, Rectangle, Size};

verus! {

/// How a rectangle changes the region built so far.
#[derive(Clone, Copy, Debug, PartialEq, Eq, Structural)]
pub enum RectangleKind {
    /// The region gains the rectangle.
    Add,
    /// The region loses the rectangle.
    Subtract,
}

/// A region described by a list of additions and subtractions.
pub struct RegionAttributes {
    pub rects: Vec<(RectangleKind, Rectangle)>,
}

/// Whether a point is in the region: the last rectangle that holds it decides.
pub open spec fn in_region(rects: Seq<(RectangleKind, Rectangle)>, x: int, y: int) -> bool
    decreases rects.len(),
{
    if rects.len() == 0 {
        false
    } else if rects.last().1.has(x, y) {
        rects.last().0 == RectangleKind::Add
    } else {
        in_region(rects.drop_last(), x, y)
    }
}

/// Whether a coordinate is the top or the bottom of one of the rectangles.
pub open spec fn is_edge(rects: Seq<(RectangleKind, Rectangle)>, y: int) -> bool {
    exists|i: int|
        0 <= i < rects.len() && (y == (#[trigger] rects[i]).1.loc.y || y == rects[i].1.bottom())
}

/// Whether a row of the region holds every coordinate from `from` up to `to`.
pub open spec fn row_filled(
    rects: Seq<(RectangleKind, Rectangle)>,
    from: int,
    to: int,
    y: int,
) -> bool {
    forall|x: int| from <= x < to ==> #[trigger] in_region(rects, x, y)
}

impl RegionAttributes {
    /// Whether all edges can be named, no width is negative, and no unbroken run of a row is too
    /// long for a width.
    pub open spec fn wf(self) -> bool {
        &&& forall|i: int|
            0 <= i < self.rects@.len() ==> (#[trigger] self.rects@[i]).1.edges_fit()
                && self.rects@[i].1.size.w >= 0
        &&& forall|from: int, to: int, y: int| #[trigger]
            row_filled(self.rects@, from, to, y) ==> to - from <= i32::MAX
    }
}

/// Whether a coordinate lies strictly between two edges with no other edge in between.
pub open spec fn is_band(rects: Seq<(RectangleKind, Rectangle)>, lo: int, hi: int) -> bool {
    &&& lo < hi
    &&& forall|y: int| #[trigger] is_edge(rects, y) ==> y <= lo || hi <= y
}

/// Whether one rectangle comes before another in reading order, with no point or edge shared
/// between two rectangles of one row.
pub open spec fn precedes(a: Rectangle, b: Rectangle) -> bool {
    ||| a.bottom() <= b.loc.y
    ||| a.loc.y == b.loc.y && a.bottom() == b.bottom() && a.right() < b.loc.x
}

/// Whether rectangles cut a region into its rows from edge to edge, and each row into its unbroken
/// runs, in reading order.
pub open spec fn is_decomposition(
    parts: Seq<Rectangle>,
    rects: Seq<(RectangleKind, Rectangle)>,
) -> bool {
    &&& forall|i: int|
        0 <= i < parts.len() ==> {
            &&& (#[trigger] parts[i]).size.w > 0
            &&& is_edge(rects, parts[i].loc.y as int)
            &&& is_edge(rects, parts[i].bottom())
            &&& is_band(rects, parts[i].loc.y as int, parts[i].bottom())
        }
    &&& forall|i: int, j: int| 0 <= i < j < parts.len() ==> #[trigger] precedes(parts[i], parts[j])
    &&& forall|x: int, y: int| #[trigger] in_region(rects, x, y) <==> in_some(parts, x, y)
}

/// Whether one of the rectangles holds a point.
pub open spec fn in_some(parts: Seq<Rectangle>, x: int, y: int) -> bool {
    exists|i: int| 0 <= i < parts.len() && (#[trigger] parts[i]).has(x, y)
}

/// No two rectangles of a decomposition overlap.
pub proof fn law_decomposition_disjoint(
    parts: Seq<Rectangle>,
    rects: Seq<(RectangleKind, Rectangle)>,
    i: int,
    j: int,
)
    requires
        is_decomposition(parts, rects),
        0 <= i < parts.len(),
        0 <= j < parts.len(),
        i != j,
    ensures
        !parts[i].overlapping(parts[j]),
{
    if i < j {
        assert(precedes(parts[i], parts[j]));
    } else {
        assert(precedes(parts[j], parts[i]));
    }
}

/// The coordinates from `from` up to, but not at, `to`.
pub open spec fn interval(from: int, to: int) -> Set<int> {
    Set::new(|x: int| from <= x < to)
}

/// The coordinates that half-open spans hold together.
pub open spec fn covered(spans: Seq<(i32, i32)>) -> Set<int> {
    Set::new(|x: int| exists|k: int| 0 <= k < spans.len() && #[trigger] span_has(spans[k], x))
}

/// Whether a half-open span holds a coordinate.
pub open spec fn span_has(span: (i32, i32), x: int) -> bool {
    span.0 <= x < span.1
}

/// Spans that are not empty, go from left to right, and do not even touch.
pub open spec fn spans_sorted(spans: Seq<(i32, i32)>) -> bool {
    &&& forall|k: int| 0 <= k < spans.len() ==> (#[trigger] spans[k]).0 < spans[k].1
    &&& forall|j: int, k: int|
        0 <= j < k < spans.len() ==> (#[trigger] spans[j]).1 < (#[trigger] spans[k]).0
}

/// Coordinates in strictly ascending order.
pub open spec fn strictly_ascending(ys: Seq<i32>) -> bool {
    forall|i: int, j: int| 0 <= i < j < ys.len() ==> ys[i] < ys[j]
}

/// Puts a coordinate into its place, unless it is there already.
fn insert_coordinate(ys: &mut Vec<i32>, y: i32)
    requires
        strictly_ascending(old(ys)@),
    ensures
        strictly_ascending(final(ys)@),
        forall|v: i32| #[trigger] final(ys)@.contains(v) <==> (old(ys)@.contains(v) || v == y),
{
    let ghost before = ys@;
    let mut at: usize = 0;
    while at < ys.len() && ys[at] < y
        invariant
            at <= ys.len(),
            ys@ == before,
            strictly_ascending(before),
            forall|k: int| 0 <= k < at ==> before[k] < y,
        decreases ys.len() - at,
    {
        at = at + 1;
    }
    if at < ys.len() && ys[at] == y {
        assert(before[at as int] == y);
        return;
    }
    ys.insert(at, y);
    proof {
        assert(ys@ =~= before.insert(at as int, y));
        assert forall|v: i32| #[trigger] ys@.contains(v) <==> (before.contains(v) || v == y) by {
            if before.contains(v) {
                let k = choose|k: int| 0 <= k < before.len() && before[k] == v;
                if k < at {
                    assert(ys@[k] == v);
                } else {
                    assert(ys@[k + 1] == v);
                }
            }
            assert(ys@[at as int] == y);
            if ys@.contains(v) && v != y {
                let k = choose|k: int| 0 <= k < ys@.len() && ys@[k] == v;
                if k < at {
                    assert(before[k] == v);
                } else {
                    assert(before[k - 1] == v);
                }
            }
        }
    }
}

/// All tops and bottoms of a region's rectangles, in ascending order.
fn edges(region: &RegionAttributes) -> (ys: Vec<i32>)
    requires
        region.wf(),
    ensures
        strictly_ascending(ys@),
        forall|v: i32| #[trigger] ys@.contains(v) <==> is_edge(region.rects@, v as int),
{
    let mut ys: Vec<i32> = Vec::new();
    let mut i: usize = 0;
    while i < region.rects.len()
        invariant
            i <= region.rects.len(),
            region.wf(),
            strictly_ascending(ys@),
            forall|v: i32| #[trigger]
                ys@.contains(v) <==> is_edge(region.rects@.take(i as int), v as int),
        decreases region.rects.len() - i,
    {
        let r = region.rects[i].1;
        let ghost seen = ys@;
        insert_coordinate(&mut ys, r.loc.y);
        insert_coordinate(&mut ys, r.loc.y + r.size.h);
        proof {
            let shorter = region.rects@.take(i as int);
            let longer = region.rects@.take(i + 1);
            assert forall|v: i32| #[trigger] ys@.contains(v) <==> is_edge(longer, v as int) by {
                assert(seen.contains(v) <==> is_edge(shorter, v as int));
                assert(longer[i as int] == region.rects@[i as int]);
                if is_edge(shorter, v as int) {
                    let k = choose|k: int|
                        0 <= k < shorter.len() && (v == (#[trigger] shorter[k]).1.loc.y || v
                            == shorter[k].1.bottom());
                    assert(longer[k] == shorter[k]);
                }
                if is_edge(longer, v as int) {
                    let k = choose|k: int|
                        0 <= k < longer.len() && (v == (#[trigger] longer[k]).1.loc.y || v
                            == longer[k].1.bottom());
                    if k < i {
                        assert(longer[k] == shorter[k]);
                    }
                }
            }
        }
        i = i + 1;
    }
    proof {
        assert(region.rects@.take(i as int) =~= region.rects@);
    }
    ys
}

proof fn lemma_covered_insert(spans: Seq<(i32, i32)>, at: int, span: (i32, i32))
    requires
        0 <= at <= spans.len(),
    ensures
        covered(spans.insert(at, span)) == covered(spans).union(
            interval(span.0 as int, span.1 as int),
        ),
{
    let longer = spans.insert(at, span);
    assert forall|x: int|
        covered(longer).contains(x) <==> covered(spans).union(
            interval(span.0 as int, span.1 as int),
        ).contains(x) by {
        assert(longer[at] == span);
        assert(span_has(longer[at], x) == span_has(span, x));
        if covered(spans).contains(x) {
            let k = choose|k: int| 0 <= k < spans.len() && #[trigger] span_has(spans[k], x);
            if k < at {
                assert(span_has(longer[k], x));
            } else {
                assert(span_has(longer[k + 1], x));
            }
        }
        if covered(longer).contains(x) {
            let k = choose|k: int| 0 <= k < longer.len() && #[trigger] span_has(longer[k], x);
            if k < at {
                assert(span_has(spans[k], x));
            } else if k > at {
                assert(span_has(spans[k - 1], x));
            }
        }
    }
    assert(covered(longer) =~= covered(spans).union(interval(span.0 as int, span.1 as int)));
}

proof fn lemma_covered_remove(spans: Seq<(i32, i32)>, at: int)
    requires
        0 <= at < spans.len(),
    ensures
        covered(spans) == covered(spans.remove(at)).union(
            interval(spans[at].0 as int, spans[at].1 as int),
        ),
{
    lemma_covered_insert(spans.remove(at), at, spans[at]);
    assert(spans.remove(at).insert(at, spans[at]) =~= spans);
}

proof fn lemma_sorted_remove(spans: Seq<(i32, i32)>, at: int)
    requires
        spans_sorted(spans),
        0 <= at < spans.len(),
    ensures
        spans_sorted(spans.remove(at)),
{
}

proof fn lemma_sorted_insert(spans: Seq<(i32, i32)>, at: int, span: (i32, i32))
    requires
        spans_sorted(spans),
        0 <= at <= spans.len(),
        span.0 < span.1,
        forall|k: int| 0 <= k < at ==> (#[trigger] spans[k]).1 < span.0,
        forall|k: int| at <= k < spans.len() ==> span.1 < (#[trigger] spans[k]).0,
    ensures
        spans_sorted(spans.insert(at, span)),
{
}

/// Adds a span, merging it with those that it meets or touches.
fn add_span(spans: &mut Vec<(i32, i32)>, from: i32, to: i32)
    requires
        spans_sorted(old(spans)@),
        from < to,
    ensures
        spans_sorted(final(spans)@),
        covered(final(spans)@) == covered(old(spans)@).union(interval(from as int, to as int)),
{
    let ghost goal = covered(spans@).union(interval(from as int, to as int));
    let mut x1: i32 = from;
    let mut x2: i32 = to;
    let mut i: usize = spans.len();
    while i > 0
        invariant
            i <= spans@.len(),
            goal == covered(old(spans)@).union(interval(from as int, to as int)),
            spans_sorted(spans@),
            x1 < x2,
            forall|k: int| i <= k < spans@.len() ==> x2 < (#[trigger] spans@[k]).0,
            covered(spans@).union(interval(x1 as int, x2 as int)) == goal,
        decreases i,
    {
        i = i - 1;
        let ghost whole = spans@;
        let (start, end) = spans[i];
        if end < x1 {
            proof {
                lemma_sorted_insert(whole, i + 1, (x1, x2));
                lemma_covered_insert(whole, i + 1, (x1, x2));
            }
            spans.insert(i + 1, (x1, x2));
            return;
        }
        if x2 < start {
            continue;
        }
        proof {
            lemma_sorted_remove(whole, i as int);
            lemma_covered_remove(whole, i as int);
        }
        spans.remove(i);
        let ghost met = interval(x1 as int, x2 as int);
        if start < x1 {
            x1 = start;
        }
        if end > x2 {
            x2 = end;
        }
        proof {
            let merged = interval(x1 as int, x2 as int);
            assert(merged =~= met.union(interval(start as int, end as int)));
            assert(covered(spans@).union(merged) =~= covered(whole).union(met));
        }
    }
    proof {
        lemma_sorted_insert(spans@, 0, (x1, x2));
        lemma_covered_insert(spans@, 0, (x1, x2));
    }
    spans.insert(0, (x1, x2));
}

proof fn lemma_clear_of(spans: Seq<(i32, i32)>, x1: int, x2: int)
    requires
        forall|k: int|
            0 <= k < spans.len() ==> x2 <= (#[trigger] spans[k]).0 || spans[k].1 <= x1,
    ensures
        covered(spans) == covered(spans).difference(interval(x1, x2)),
{
    assert(covered(spans) =~= covered(spans).difference(interval(x1, x2)));
}

/// Takes a span away, cutting those that it meets.
fn subtract_span(spans: &mut Vec<(i32, i32)>, x1: i32, x2: i32)
    requires
        spans_sorted(old(spans)@),
        x1 < x2,
    ensures
        spans_sorted(final(spans)@),
        covered(final(spans)@) == covered(old(spans)@).difference(interval(x1 as int, x2 as int)),
{
    let ghost hole = interval(x1 as int, x2 as int);
    let mut i: usize = spans.len();
    while i > 0
        invariant
            i <= spans@.len(),
            x1 < x2,
            hole == interval(x1 as int, x2 as int),
            spans_sorted(spans@),
            forall|k: int|
                i <= k < spans@.len() ==> x2 <= (#[trigger] spans@[k]).0 || spans@[k].1 <= x1,
            covered(spans@).difference(hole) == covered(old(spans)@).difference(hole),
        decreases i,
    {
        i = i - 1;
        let ghost whole = spans@;
        let (start, end) = spans[i];
        if end <= x1 {
            proof {
                lemma_clear_of(spans@, x1 as int, x2 as int);
            }
            return;
        }
        if x2 <= start {
            continue;
        }
        proof {
            lemma_sorted_remove(whole, i as int);
            lemma_covered_remove(whole, i as int);
        }
        spans.remove(i);
        if x2 < end {
            proof {
                lemma_sorted_insert(spans@, i as int, (x2, end));
                lemma_covered_insert(spans@, i as int, (x2, end));
            }
            spans.insert(i, (x2, end));
        }
        if start < x1 {
            proof {
                lemma_sorted_insert(spans@, i as int, (start, x1));
                lemma_covered_insert(spans@, i as int, (start, x1));
            }
            spans.insert(i, (start, x1));
        }
        proof {
            assert(covered(spans@).difference(hole) =~= covered(whole).difference(hole));
        }
    }
    proof {
        lemma_clear_of(spans@, x1 as int, x2 as int);
    }
}

/// The coordinates that a row of the region holds.
pub open spec fn row(rects: Seq<(RectangleKind, Rectangle)>, y: int) -> Set<int> {
    Set::new(|x: int| in_region(rects, x, y))
}

/// Within a band all rows are alike.
proof fn lemma_band_rows_alike(
    all: Seq<(RectangleKind, Rectangle)>,
    n: int,
    lo: int,
    hi: int,
    x: int,
    y: int,
)
    requires
        0 <= n <= all.len(),
        is_band(all, lo, hi),
        lo <= y < hi,
    ensures
        in_region(all.take(n), x, y) == in_region(all.take(n), x, lo),
    decreases n,
{
    if n > 0 {
        lemma_band_rows_alike(all, n - 1, lo, hi, x, y);
        assert(all.take(n).drop_last() =~= all.take(n - 1));
        let r = all[n - 1].1;
        assert(all.take(n).last() == all[n - 1]);
        assert(is_edge(all, r.loc.y as int));
        assert(is_edge(all, r.bottom()));
    }
}

/// A point of a region lies in one of its rectangles.
proof fn lemma_in_some_rect(rects: Seq<(RectangleKind, Rectangle)>, x: int, y: int)
    requires
        in_region(rects, x, y),
    ensures
        exists|i: int| 0 <= i < rects.len() && (#[trigger] rects[i]).1.has(x, y),
    decreases rects.len(),
{
    if rects.last().1.has(x, y) {
        assert(rects[rects.len() - 1].1.has(x, y));
    } else {
        let shorter = rects.drop_last();
        lemma_in_some_rect(shorter, x, y);
        let i = choose|i: int| 0 <= i < shorter.len() && (#[trigger] shorter[i]).1.has(x, y);
        assert(rects[i].1.has(x, y));
    }
}

/// The unbroken runs of the rows between two neighbouring edges.
fn band_spans(region: &RegionAttributes, lo: i32, hi: i32) -> (spans: Vec<(i32, i32)>)
    requires
        region.wf(),
        is_band(region.rects@, lo as int, hi as int),
    ensures
        spans_sorted(spans@),
        covered(spans@) == row(region.rects@, lo as int),
{
    let mut spans: Vec<(i32, i32)> = Vec::new();
    let ghost all = region.rects@;
    let mut n: usize = 0;
    assert(covered(spans@) =~= row(all.take(0), lo as int));
    while n < region.rects.len()
        invariant
            n <= region.rects.len(),
            region.wf(),
            all == region.rects@,
            is_band(all, lo as int, hi as int),
            spans_sorted(spans@),
            covered(spans@) == row(all.take(n as int), lo as int),
        decreases region.rects.len() - n,
    {
        let (kind, r) = region.rects[n];
        let ghost before = covered(spans@);
        proof {
            assert(all.take(n + 1).drop_last() =~= all.take(n as int));
            assert(all.take(n + 1).last() == all[n as int]);
            assert(is_edge(all, r.loc.y as int));
            assert(is_edge(all, r.bottom()));
        }
        n = n + 1;
        let ghost now = row(all.take(n as int), lo as int);
        if hi <= r.loc.y || r.loc.y + r.size.h <= lo {
            assert(now =~= before);
            continue;
        }
        let x1: i32 = r.loc.x;
        let x2: i32 = r.loc.x + r.size.w;
        if x1 == x2 {
            assert(now =~= before);
            continue;
        }
        match kind {
            RectangleKind::Add => {
                add_span(&mut spans, x1, x2);
                assert(now =~= before.union(interval(x1 as int, x2 as int)));
            },
            RectangleKind::Subtract => {
                subtract_span(&mut spans, x1, x2);
                assert(now =~= before.difference(interval(x1 as int, x2 as int)));
            },
        }
    }
    assert(all.take(n as int) =~= all);
    spans
}

/// The rectangle that a span makes of a band.
pub open spec fn band_part(span: (i32, i32), lo: i32, hi: i32) -> Rectangle {
    Rectangle {
        loc: Point { x: span.0, y: lo },
        size: Size { w: (span.1 - span.0) as i32, h: (hi - lo) as i32 },
    }
}

/// The rectangles that spans make of a band.
pub open spec fn band_parts(spans: Seq<(i32, i32)>, lo: i32, hi: i32) -> Seq<Rectangle> {
    spans.map_values(|span: (i32, i32)| band_part(span, lo, hi))
}

/// What `is_decomposition` says, of the rows above `until` alone.
spec fn decomposed_until(
    parts: Seq<Rectangle>,
    rects: Seq<(RectangleKind, Rectangle)>,
    until: int,
) -> bool {
    &&& forall|i: int|
        0 <= i < parts.len() ==> {
            &&& (#[trigger] parts[i]).size.w > 0
            &&& parts[i].bottom() <= until
            &&& is_edge(rects, parts[i].loc.y as int)
            &&& is_edge(rects, parts[i].bottom())
            &&& is_band(rects, parts[i].loc.y as int, parts[i].bottom())
        }
    &&& forall|i: int, j: int| 0 <= i < j < parts.len() ==> #[trigger] precedes(parts[i], parts[j])
    &&& forall|x: int, y: int|
        y < until ==> (#[trigger] in_region(rects, x, y) <==> in_some(parts, x, y))
}

proof fn lemma_band_fits(region: RegionAttributes, spans: Seq<(i32, i32)>, lo: int, hi: int, k: int)
    requires
        region.wf(),
        is_band(region.rects@, lo, hi),
        spans_sorted(spans),
        covered(spans) == row(region.rects@, lo),
        0 <= k < spans.len(),
    ensures
        0 < spans[k].1 - spans[k].0 <= i32::MAX,
        hi - lo <= i32::MAX,
{
    let rects = region.rects@;
    let (from, to) = (spans[k].0 as int, spans[k].1 as int);
    assert forall|x: int| from <= x < to implies #[trigger] in_region(rects, x, lo) by {
        assert(span_has(spans[k], x));
        assert(covered(spans).contains(x));
        assert(row(rects, lo).contains(x));
    }
    assert(row_filled(rects, from, to, lo));
    assert(in_region(rects, from, lo));
    lemma_in_some_rect(rects, from, lo);
    let i = choose|i: int| 0 <= i < rects.len() && (#[trigger] rects[i]).1.has(from, lo);
    assert(is_edge(rects, rects[i].1.bottom()));
}

proof fn lemma_extend(
    parts: Seq<Rectangle>,
    region: RegionAttributes,
    lo: i32,
    hi: i32,
    spans: Seq<(i32, i32)>,
)
    requires
        region.wf(),
        is_edge(region.rects@, lo as int),
        is_edge(region.rects@, hi as int),
        is_band(region.rects@, lo as int, hi as int),
        spans_sorted(spans),
        covered(spans) == row(region.rects@, lo as int),
        decomposed_until(parts, region.rects@, lo as int),
    ensures
        decomposed_until(parts + band_parts(spans, lo, hi), region.rects@, hi as int),
{
    let rects = region.rects@;
    let added = band_parts(spans, lo, hi);
    let all = parts + added;
    assert forall|k: int| 0 <= k < added.len() implies {
        &&& (#[trigger] added[k]) == band_part(spans[k], lo, hi)
        &&& added[k].right() == spans[k].1
        &&& added[k].bottom() == hi
        &&& added[k].size.w > 0
    } by {
        lemma_band_fits(region, spans, lo as int, hi as int, k);
    }
    assert forall|i: int, j: int| 0 <= i < j < all.len() implies #[trigger] precedes(
        all[i],
        all[j],
    ) by {
        if j < parts.len() {
            assert(precedes(parts[i], parts[j]));
        } else if i < parts.len() {
            assert(added[j - parts.len()].loc.y == lo);
            assert(parts[i].bottom() <= lo);
        } else {
            let a = i - parts.len();
            let b = j - parts.len();
            assert(spans[a].1 < spans[b].0);
            assert(added[a].right() == spans[a].1);
            assert(added[b].right() == spans[b].1);
        }
    }
    assert forall|x: int, y: int| y < hi implies (#[trigger] in_region(rects, x, y) <==> in_some(
        all,
        x,
        y,
    )) by {
        if y < lo {
            assert(in_region(rects, x, y) <==> in_some(parts, x, y));
            if in_some(parts, x, y) {
                let i = choose|i: int| 0 <= i < parts.len() && (#[trigger] parts[i]).has(x, y);
                assert(all[i].has(x, y));
            }
            if in_some(all, x, y) {
                let i = choose|i: int| 0 <= i < all.len() && (#[trigger] all[i]).has(x, y);
                if i >= parts.len() {
                    assert(added[i - parts.len()].loc.y == lo);
                }
                assert(parts[i].has(x, y));
            }
        } else {
            assert(rects.take(rects.len() as int) =~= rects);
            lemma_band_rows_alike(rects, rects.len() as int, lo as int, hi as int, x, y);
            assert(in_region(rects, x, y) <==> covered(spans).contains(x)) by {
                assert(row(rects, lo as int).contains(x) <==> in_region(rects, x, lo as int));
            }
            if covered(spans).contains(x) {
                let k = choose|k: int| 0 <= k < spans.len() && #[trigger] span_has(spans[k], x);
                assert(added[k].has(x, y));
                assert(all[parts.len() + k].has(x, y));
            }
            if in_some(all, x, y) {
                let i = choose|i: int| 0 <= i < all.len() && (#[trigger] all[i]).has(x, y);
                if i < parts.len() {
                    assert(parts[i].bottom() <= lo);
                }
                let k = i - parts.len();
                assert(added[k].has(x, y));
                assert(span_has(spans[k], x));
            }
        }
    }
}

/// Cuts a region into rectangles that do not overlap.
///
/// The rectangles come out in reading order. Each spans the rows between two neighbouring
/// horizontal edges of the region's rectangles, and is as wide as it can be.
pub fn region_to_non_overlapping_rects(region: &RegionAttributes, output: &mut Vec<Rectangle>)
    requires
        region.wf(),
    ensures
        is_decomposition(final(output)@, region.rects@),
{
    output.clear();
    let ghost rects = region.rects@;
    let ys = edges(region);
    if ys.len() == 0 {
        proof {
            assert forall|x: int, y: int| !#[trigger] in_region(rects, x, y) by {
                if in_region(rects, x, y) {
                    lemma_in_some_rect(rects, x, y);
                    let i = choose|i: int| 0 <= i < rects.len() && (#[trigger] rects[i]).1.has(x, y);
                    assert(is_edge(rects, rects[i].1.loc.y as int));
                    assert(ys@.contains(rects[i].1.loc.y));
                }
            }
        }
        return;
    }
    let mut lo: i32 = ys[0];
    let mut n: usize = 1;
    proof {
        assert forall|x: int, y: int| y < lo implies !#[trigger] in_region(rects, x, y) by {
            if in_region(rects, x, y) {
                lemma_in_some_rect(rects, x, y);
                let i = choose|i: int| 0 <= i < rects.len() && (#[trigger] rects[i]).1.has(x, y);
                assert(is_edge(rects, rects[i].1.loc.y as int));
                assert(ys@.contains(rects[i].1.loc.y));
            }
        }
    }
    while n < ys.len()
        invariant
            1 <= n <= ys.len(),
            region.wf(),
            rects == region.rects@,
            lo == ys@[n - 1],
            strictly_ascending(ys@),
            forall|v: i32| #[trigger] ys@.contains(v) <==> is_edge(rects, v as int),
            decomposed_until(output@, rects, lo as int),
        decreases ys.len() - n,
    {
        let hi: i32 = ys[n];
        proof {
            assert(ys@.contains(lo));
            assert(ys@.contains(hi));
            assert forall|y: int| #[trigger] is_edge(rects, y) implies y <= lo || hi <= y by {
                let i = choose|i: int|
                    0 <= i < rects.len() && (y == (#[trigger] rects[i]).1.loc.y || y
                        == rects[i].1.bottom());
                assert(rects[i].1.edges_fit());
                assert(ys@.contains(y as i32));
                let k = choose|k: int| 0 <= k < ys@.len() && ys@[k] == y as i32;
                assert(k <= n - 1 || n <= k);
            }
        }
        let spans = band_spans(region, lo, hi);
        let ghost before = output@;
        let mut k: usize = 0;
        while k < spans.len()
            invariant
                k <= spans.len(),
                region.wf(),
                rects == region.rects@,
                is_band(rects, lo as int, hi as int),
                spans_sorted(spans@),
                covered(spans@) == row(rects, lo as int),
                output@ =~= before + band_parts(spans@, lo, hi).take(k as int),
            decreases spans.len() - k,
        {
            let (x1, x2) = spans[k];
            proof {
                lemma_band_fits(*region, spans@, lo as int, hi as int, k as int);
            }
            output.push(
                Rectangle::from_extremities(Point { x: x1, y: lo }, Point { x: x2, y: hi }),
            );
            k = k + 1;
        }
        proof {
            assert(band_parts(spans@, lo, hi).take(k as int) =~= band_parts(spans@, lo, hi));
            lemma_extend(before, *region, lo, hi, spans@);
        }
        lo = hi;
        n = n + 1;
    }
    proof {
        assert forall|x: int, y: int| y >= lo implies !#[trigger] in_region(rects, x, y)
            && !in_some(output@, x, y) by {
            if in_region(rects, x, y) {
                lemma_in_some_rect(rects, x, y);
                let i = choose|i: int| 0 <= i < rects.len() && (#[trigger] rects[i]).1.has(x, y);
                assert(rects[i].1.edges_fit());
                assert(is_edge(rects, rects[i].1.bottom()));
                assert(ys@.contains(rects[i].1.bottom() as i32));
            }
        }
    }
}

/// The parts of some pieces that are damaged: each piece with each damaged area.
pub open spec fn damaged(pieces: Seq<Rectangle>, damage: Seq<Rectangle>) -> Seq<Rectangle>
    decreases pieces.len(),
{
    if pieces.len() == 0 {
        Seq::empty()
    } else {
        damaged(pieces.drop_last(), damage) + damaged_piece(pieces.last(), damage)
    }
}

/// The parts of a piece that are damaged.
pub open spec fn damaged_piece(piece: Rectangle, damage: Seq<Rectangle>) -> Seq<Rectangle>
    decreases damage.len(),
{
    if damage.len() == 0 {
        Seq::empty()
    } else {
        let before = damaged_piece(piece, damage.drop_last());
        if piece.overlapping(damage.last()) {
            before.push(piece.common(damage.last()))
        } else {
            before
        }
    }
}

/// Adds the parts of some pieces that are damaged. The pieces have been rounded to pixels.
pub fn filter_damage(pieces: &Vec<Rectangle>, damage: &Vec<Rectangle>, filtered: &mut Vec<Rectangle>)
    ensures
        final(filtered)@ == old(filtered)@ + damaged(pieces@, damage@),
{
    let ghost before = filtered@;
    let mut i: usize = 0;
    assert(pieces@.take(0) =~= Seq::<Rectangle>::empty());
    assert(filtered@ =~= before + damaged(pieces@.take(0), damage@));
    while i < pieces.len()
        invariant
            i <= pieces@.len(),
            filtered@ == before + damaged(pieces@.take(i as int), damage@),
        decreases pieces@.len() - i,
    {
        let piece = pieces[i];
        let ghost so_far = filtered@;
        let mut j: usize = 0;
        assert(damage@.take(0) =~= Seq::<Rectangle>::empty());
        assert(filtered@ =~= so_far + damaged_piece(piece, damage@.take(0)));
        while j < damage.len()
            invariant
                j <= damage@.len(),
                filtered@ == so_far + damaged_piece(piece, damage@.take(j as int)),
            decreases damage@.len() - j,
        {
            assert(damage@.take(j + 1).drop_last() =~= damage@.take(j as int));
            if let Some(part) = piece.intersection(damage[j]) {
                filtered.push(part);
            }
            j = j + 1;
            assert(filtered@ =~= so_far + damaged_piece(piece, damage@.take(j as int)));
        }
        assert(damage@.take(j as int) =~= damage@);
        assert(pieces@.take(i + 1).drop_last() =~= pieces@.take(i as int));
        i = i + 1;
        assert(filtered@ =~= before + damaged(pieces@.take(i as int), damage@));
    }
    assert(pieces@.take(i as int) =~= pieces@);
}

/// A rectangle that is added to a region brings its points in, one that is subtracted takes its points out,
/// and all other points stay as they were.
pub proof fn law_rectangles_come_in_order(
    rects: Seq<(RectangleKind, Rectangle)>,
    kind: RectangleKind,
    rect: Rectangle,
    x: int,
    y: int,
)
    ensures
        ({
            let inside = rect.loc.x <= x < rect.loc.x + rect.size.w && rect.loc.y <= y < rect.loc.y
                + rect.size.h;
            in_region(rects.push((kind, rect)), x, y) <==> if inside {
                kind == RectangleKind::Add
            } else {
                in_region(rects, x, y)
            }
        }),
        !in_region(Seq::empty(), x, y),
{
    assert(rects.push((kind, rect)).drop_last() =~= rects);
}

/// What is damaged of some pieces is just what lies in a piece and in a damaged area.
pub proof fn law_damage_is_where_both_are(
    pieces: Seq<Rectangle>,
    damage: Seq<Rectangle>,
    x: int,
    y: int,
)
    requires
        forall|i: int|
            0 <= i < pieces.len() ==> (#[trigger] pieces[i]).edges_fit() && pieces[i].size.w >= 0
                && pieces[i].size.h >= 0,
        forall|i: int|
            0 <= i < damage.len() ==> (#[trigger] damage[i]).edges_fit() && damage[i].size.w >= 0
                && damage[i].size.h >= 0,
    ensures
        in_some(damaged(pieces, damage), x, y) <==> in_some(pieces, x, y) && in_some(damage, x, y),
    decreases pieces.len(),
{
    if pieces.len() > 0 {
        let shorter = pieces.drop_last();
        let last = pieces.last();
        assert(pieces[pieces.len() - 1] == last);
        assert forall|i: int| 0 <= i < shorter.len() implies (#[trigger] shorter[i]).edges_fit()
            && shorter[i].size.w >= 0 && shorter[i].size.h >= 0 by {
            assert(shorter[i] == pieces[i]);
        }
        law_damage_is_where_both_are(shorter, damage, x, y);
        lemma_damaged_piece(last, damage, x, y);
        lemma_in_some_add(damaged(shorter, damage), damaged_piece(last, damage), x, y);
        assert(pieces =~= shorter.push(last));
        lemma_in_some_push(shorter, last, x, y);
    } else {
        assert(!in_some(pieces, x, y));
        assert(!in_some(damaged(pieces, damage), x, y));
    }
}

/// Two lists of rectangles hold the points of both.
proof fn lemma_in_some_add(a: Seq<Rectangle>, b: Seq<Rectangle>, x: int, y: int)
    ensures
        in_some(a + b, x, y) <==> in_some(a, x, y) || in_some(b, x, y),
{
    if in_some(a, x, y) {
        let i = choose|i: int| 0 <= i < a.len() && (#[trigger] a[i]).has(x, y);
        assert((a + b)[i].has(x, y));
    }
    if in_some(b, x, y) {
        let i = choose|i: int| 0 <= i < b.len() && (#[trigger] b[i]).has(x, y);
        assert((a + b)[a.len() + i].has(x, y));
    }
    if in_some(a + b, x, y) {
        let i = choose|i: int| 0 <= i < (a + b).len() && (#[trigger] (a + b)[i]).has(x, y);
        if i < a.len() {
            assert(a[i].has(x, y));
        } else {
            assert(b[i - a.len()].has(x, y));
        }
    }
}

/// A list with one more rectangle holds its points too.
proof fn lemma_in_some_push(a: Seq<Rectangle>, last: Rectangle, x: int, y: int)
    ensures
        in_some(a.push(last), x, y) <==> in_some(a, x, y) || last.has(x, y),
{
    assert(a.push(last) =~= a + seq![last]);
    lemma_in_some_add(a, seq![last], x, y);
    if last.has(x, y) {
        assert(seq![last][0].has(x, y));
    }
    if in_some(seq![last], x, y) {
        let i = choose|i: int| 0 <= i < seq![last].len() && (#[trigger] seq![last][i]).has(x, y);
        assert(seq![last][i] == last);
    }
}

/// What is damaged of one piece.
proof fn lemma_damaged_piece(piece: Rectangle, damage: Seq<Rectangle>, x: int, y: int)
    requires
        piece.edges_fit(),
        piece.size.w >= 0 && piece.size.h >= 0,
        forall|i: int|
            0 <= i < damage.len() ==> (#[trigger] damage[i]).edges_fit() && damage[i].size.w >= 0
                && damage[i].size.h >= 0,
    ensures
        in_some(damaged_piece(piece, damage), x, y) <==> piece.has(x, y) && in_some(damage, x, y),
    decreases damage.len(),
{
    if damage.len() > 0 {
        let shorter = damage.drop_last();
        let last = damage.last();
        assert(damage[damage.len() - 1] == last);
        assert forall|i: int| 0 <= i < shorter.len() implies (#[trigger] shorter[i]).edges_fit()
            && shorter[i].size.w >= 0 && shorter[i].size.h >= 0 by {
            assert(shorter[i] == damage[i]);
        }
        lemma_damaged_piece(piece, shorter, x, y);
        crate::geometry::law_common_area(piece, last, x, y);
        lemma_in_some_push(damaged_piece(piece, shorter), piece.common(last), x, y);
        assert(damage =~= shorter.push(last));
        lemma_in_some_push(shorter, last, x, y);
    } else {
        assert(!in_some(damage, x, y));
        assert(!in_some(damaged_piece(piece, damage), x, y));
    }
}

} // verus!
