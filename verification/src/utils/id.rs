//! Counters that hand out identifiers.
use vstd::prelude::*;

verus! {

/// Hands out one number after another.
#[derive(Clone, Copy, Debug, PartialEq, Eq, Structural)]
pub struct IdCounter {
    /// The number that comes next.
    pub value: u64,
}

/// The number after another, going round at the end.
pub open spec fn id_after(value: u64) -> u64 {
    if value == u64::MAX {
        0
    } else {
        (value + 1) as u64
    }
}

impl IdCounter {
    /// A counter that starts at one, so that zero is never the first.
    pub fn new() -> (r: IdCounter)
        ensures
            r.value == 1,
    {
        IdCounter { value: 1 }
    }

    /// The next number.
    pub fn next(&mut self) -> (r: u64)
        ensures
            r == old(self).value,
            final(self).value == id_after(old(self).value),
    {
        let id: u64 = self.value;
        self.value = if id == u64::MAX {
            0
        } else {
            id + 1
        };
        id
    }
}

/// The number that a counter hands out after `n` others.
pub open spec fn nth_id(start: u64, n: nat) -> u64
    decreases n,
{
    if n == 0 {
        start
    } else {
        id_after(nth_id(start, (n - 1) as nat))
    }
}

proof fn lemma_nth_id(start: u64, n: nat)
    ensures
        nth_id(start, n) == (start + n) % 0x1_0000_0000_0000_0000,
    decreases n,
{
    if n > 0 {
        lemma_nth_id(start, (n - 1) as nat);
        let before = (start + (n - 1)) % 0x1_0000_0000_0000_0000;
        if before == u64::MAX {
            assert((start + n) % 0x1_0000_0000_0000_0000 == 0);
        } else {
            assert((start + n) % 0x1_0000_0000_0000_0000 == before + 1);
        }
    }
}

/// A counter repeats itself only after it has handed out every number.
pub proof fn law_ids_distinct(start: u64, i: nat, j: nat)
    requires
        i < j,
        j - i < 0x1_0000_0000_0000_0000,
    ensures
        nth_id(start, i) != nth_id(start, j),
{
    lemma_nth_id(start, i);
    lemma_nth_id(start, j);
}

} // verus!
