use vstd::prelude::*;

use crate::wavetable::{Table, TABLE_SIZE};

verus! {

/// Sample `i` of the saw table. The first half of the period ramps linearly
/// from -1.0 towards +1.0 in steps of 4.0 / TABLE_SIZE; the second half
/// repeats the same ramp, so one table period holds two rising ramps. The
/// duplicated ramp is the defined shape, not a single full-length ramp.
pub open spec fn saw_sample(i: int) -> int {
    if i < TABLE_SIZE / 2 {
        -32768 + 4 * i
    } else {
        -32768 + 4 * (i - TABLE_SIZE / 2)
    }
}

/// Build the saw wavetable.
pub fn get_saw_table() -> (t: Table)
    ensures
        t.wf(),
        forall|j: int| 0 <= j < TABLE_SIZE ==> #[trigger] t.table@[j] == saw_sample(j),
{
    let mut v: Vec<i64> = Vec::new();
    let mut i: usize = 0;
    while i < TABLE_SIZE
        invariant
            i <= TABLE_SIZE,
            v@.len() == i,
            forall|j: int| 0 <= j < i ==> #[trigger] v@[j] == saw_sample(j),
        decreases TABLE_SIZE - i,
    {
        let ramp_pos: i64 = if i < TABLE_SIZE / 2 {
            i as i64
        } else {
            (i - TABLE_SIZE / 2) as i64
        };
        v.push(-32768 + 4 * ramp_pos);
        i += 1;
    }
    Table { table: v }
}

} // verus!
