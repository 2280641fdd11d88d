//! The scales that suit a monitor.
use vstd::prelude::*;

use crate::geometry::Size;

verus! {

/// The smallest scale.
pub const MIN_SCALE: i32 = 1;

/// The largest scale.
pub const MAX_SCALE: i32 = 4;

/// How many steps there are from one whole scale to the next.
pub const STEPS: i32 = 4;

/// How many pixels have to be left of a monitor at a scale.
pub const MIN_LOGICAL_AREA: i32 = 384_000;

/// A length at a scale of so many steps, rounded to whole pixels.
pub open spec fn scaled(length: i32, steps: i32) -> int {
    (2 * STEPS * length + steps) / (2 * steps as int)
}

/// Whether a scale of so many steps leaves enough of a monitor.
pub open spec fn leaves_enough(resolution: Size, steps: i32) -> bool {
    scaled(resolution.w, steps) * scaled(resolution.h, steps) >= MIN_LOGICAL_AREA
}

/// The scales that leave enough of a monitor, from the smallest up to so many steps.
pub open spec fn scales_up_to(resolution: Size, steps: int) -> Seq<i32>
    decreases steps,
{
    if steps < MIN_SCALE * STEPS {
        Seq::empty()
    } else {
        let smaller = scales_up_to(resolution, steps - 1);
        if leaves_enough(resolution, steps as i32) {
            smaller.push(steps as i32)
        } else {
            smaller
        }
    }
}

/// A larger scale leaves no longer lengths.
proof fn lemma_scaled_shrinks(length: i32, small: i32, large: i32)
    requires
        length >= 0,
        1 <= small <= large,
    ensures
        0 <= scaled(length, large) <= scaled(length, small),
{
    let a = scaled(length, small);
    let b = scaled(length, large);
    assert(8 * length + small == 2 * small * a + (8 * length + small) % (2 * small as int))
        by (nonlinear_arith)
        requires
            a == (8 * length + small) / (2 * small as int),
            small >= 1,
    ;
    assert(8 * length + large == 2 * large * b + (8 * length + large) % (2 * large as int))
        by (nonlinear_arith)
        requires
            b == (8 * length + large) / (2 * large as int),
            large >= 1,
    ;
    assert(b >= 0) by (nonlinear_arith)
        requires
            b == (8 * length + large) / (2 * large as int),
            length >= 0,
            large >= 1,
    ;
    if b > a {
        assert(2 * large * b >= 2 * large * a + 2 * large) by (nonlinear_arith)
            requires
                b >= a + 1,
                large >= 1,
        ;
        assert(a >= 0) by (nonlinear_arith)
            requires
                a == (8 * length + small) / (2 * small as int),
                length >= 0,
                small >= 1,
        ;
        assert(large * a >= small * a) by (nonlinear_arith)
            requires
                large >= small,
                a >= 0,
        ;
        assert(2 * large * a == 2 * (large * a)) by (nonlinear_arith);
        assert(2 * small * a == 2 * (small * a)) by (nonlinear_arith);
        assert(false);
    }
}

/// Whether a scale of so many steps leaves enough of a monitor.
fn is_valid_for_resolution(resolution: Size, steps: i32) -> (r: bool)
    requires
        resolution.w >= 0,
        resolution.h >= 0,
        resolution.w * resolution.h <= i32::MAX,
        STEPS <= steps <= MAX_SCALE * STEPS,
    ensures
        r == leaves_enough(resolution, steps),
{
    let w: i64 = (8 * (resolution.w as i64) + steps as i64) / (2 * (steps as i64));
    let h: i64 = (8 * (resolution.h as i64) + steps as i64) / (2 * (steps as i64));
    proof {
        lemma_scaled_shrinks(resolution.w, 4, steps);
        lemma_scaled_shrinks(resolution.h, 4, steps);
        assert(scaled(resolution.w, 4) == resolution.w) by (nonlinear_arith);
        assert(scaled(resolution.h, 4) == resolution.h) by (nonlinear_arith);
        assert(w * h <= resolution.w * resolution.h) by (nonlinear_arith)
            requires
                0 <= w <= resolution.w,
                0 <= h <= resolution.h,
        ;
        assert(w * h >= 0) by (nonlinear_arith)
            requires
                0 <= w,
                0 <= h,
        ;
    }
    w * h >= MIN_LOGICAL_AREA as i64
}

/// The scales that leave enough of a monitor, in steps of which there are so many to a whole scale.
pub fn supported_scales(resolution: Size) -> (r: Vec<i32>)
    requires
        resolution.w >= 0,
        resolution.h >= 0,
        resolution.w * resolution.h <= i32::MAX,
    ensures
        r@ == scales_up_to(resolution, MAX_SCALE * STEPS),
{
    let mut scales: Vec<i32> = Vec::new();
    let mut steps: i32 = MIN_SCALE * STEPS;
    while steps <= MAX_SCALE * STEPS
        invariant
            resolution.w >= 0,
            resolution.h >= 0,
            resolution.w * resolution.h <= i32::MAX,
            MIN_SCALE * STEPS <= steps <= MAX_SCALE * STEPS + 1,
            scales@ == scales_up_to(resolution, steps - 1),
        decreases MAX_SCALE * STEPS + 1 - steps,
    {
        if is_valid_for_resolution(resolution, steps) {
            scales.push(steps);
        }
        steps = steps + 1;
    }
    scales
}

/// Where a scale leaves enough of a monitor, every smaller one does.
pub proof fn law_smaller_scales_suit(resolution: Size, small: i32, large: i32)
    requires
        resolution.w >= 0,
        resolution.h >= 0,
        1 <= small <= large,
        leaves_enough(resolution, large),
    ensures
        leaves_enough(resolution, small),
{
    lemma_scaled_shrinks(resolution.w, small, large);
    lemma_scaled_shrinks(resolution.h, small, large);
    let (w, h) = (scaled(resolution.w, small), scaled(resolution.h, small));
    let (x, y) = (scaled(resolution.w, large), scaled(resolution.h, large));
    assert(w * h >= x * y) by (nonlinear_arith)
        requires
            0 <= x <= w,
            0 <= y <= h,
    ;
}

/// A length at a scale is rounded to the nearest number of pixels, and halves are rounded up.
pub proof fn law_scaled_to_the_nearest_pixel(length: i32, steps: i32)
    requires
        length >= 0,
        steps >= 1,
    ensures
        2 * (steps * scaled(length, steps)) <= 2 * STEPS * length + steps < 2 * (steps * (scaled(
            length,
            steps,
        ) + 1)),
{
    let n = 2 * STEPS * length + steps;
    let d = 2 * steps as int;
    assert(d * (n / d) <= n < d * (n / d + 1)) by (nonlinear_arith)
        requires
            d >= 1,
    ;
    let q = scaled(length, steps);
    assert(2 * (steps * q) == d * q) by (nonlinear_arith)
        requires
            d == 2 * steps as int,
    ;
    assert(2 * (steps * (q + 1)) == d * (q + 1)) by (nonlinear_arith)
        requires
            d == 2 * steps as int,
    ;
}

/// The scales up to a number of steps are just those that leave enough of the monitor.
pub proof fn law_scales_leave_enough(resolution: Size, steps: int, one: i32)
    requires
        steps <= i32::MAX,
    ensures
        scales_up_to(resolution, steps).contains(one) <==> MIN_SCALE * STEPS <= one <= steps
            && leaves_enough(resolution, one),
    decreases steps,
{
    if steps >= MIN_SCALE * STEPS {
        let smaller = scales_up_to(resolution, steps - 1);
        let all = scales_up_to(resolution, steps);
        law_scales_leave_enough(resolution, steps - 1, one);
        if smaller.contains(one) {
            assert(all[smaller.index_of(one)] == one);
        }
        if leaves_enough(resolution, steps as i32) {
            assert(all[smaller.len() as int] == steps as i32);
        }
        if all.contains(one) {
            let k = all.index_of(one);
            if k < smaller.len() {
                assert(smaller[k] == one);
            }
        }
    } else {
        assert(!scales_up_to(resolution, steps).contains(one));
    }
}

} // verus!
