use vstd::prelude::*;

use crate::wavetable::{Table, AMPLITUDE, TABLE_SIZE};

verus! {

/// Value of the rising triangle ramp after `k` steps, for `k` in
/// [0, TABLE_SIZE / 2]: starting at -1.0 and climbing by 4.0 / (TABLE_SIZE - 1)
/// per step, capped at +1.0 (the step is a hair over what exactly reaches the
/// peak, so the uncapped ramp would overshoot it by two fixed-point units at
/// the midpoint and leave the range that every sample must stay in).
pub open spec fn triangle_ramp(k: int) -> int {
    let ramp = -32768 + 131072 * k / 32767;
    if ramp > AMPLITUDE as int {
        AMPLITUDE as int
    } else {
        ramp
    }
}

/// Sample `i` of the triangle table: the rising ramp over the first half of
/// the period, mirrored over the second half so that
/// `sample[TABLE_SIZE - i] == sample[i]`.
pub open spec fn triangle_sample(i: int) -> int {
    if i <= TABLE_SIZE / 2 {
        triangle_ramp(i)
    } else {
        triangle_ramp(TABLE_SIZE - i)
    }
}

/// Build the triangle wavetable.
pub fn get_triangle_table() -> (t: Table)
    ensures
        t.wf(),
        forall|j: int| 0 <= j < TABLE_SIZE ==> #[trigger] t.table@[j] == triangle_sample(j),
{
    let mut v: Vec<i64> = Vec::new();
    let mut i: usize = 0;
    while i < TABLE_SIZE
        invariant
            i <= TABLE_SIZE,
            v@.len() == i,
            forall|j: int| 0 <= j < i ==> #[trigger] v@[j] == triangle_sample(j),
        decreases TABLE_SIZE - i,
    {
        let k: u64 = if i <= TABLE_SIZE / 2 {
            i as u64
        } else {
            (TABLE_SIZE - i) as u64
        };
        let ramp: i64 = ((131072u64 * k) / 32767) as i64 - 32768;
        let val: i64 = if ramp > AMPLITUDE {
            AMPLITUDE
        } else {
            ramp
        };
        v.push(val);
        i += 1;
    }
    Table { table: v }
}

} // verus!
