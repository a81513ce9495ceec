use vstd::prelude::*;

use crate::wavetable::{Table, AMPLITUDE, TABLE_SIZE};

verus! {

/// Sample `i` of the square table: silent (0) over the first half of the
/// period, full positive amplitude (1.0) over the second half. The 0/1 levels,
/// rather than the conventional -1/+1, are the defined shape.
pub open spec fn square_sample(i: int) -> int {
    if i < TABLE_SIZE / 2 {
        0
    } else {
        AMPLITUDE as int
    }
}

/// Build the square wavetable.
pub fn get_square_table() -> (t: Table)
    ensures
        t.wf(),
        forall|j: int| 0 <= j < TABLE_SIZE ==> #[trigger] t.table@[j] == square_sample(j),
{
    let mut v: Vec<i64> = Vec::new();
    let mut i: usize = 0;
    while i < TABLE_SIZE
        invariant
            i <= TABLE_SIZE,
            v@.len() == i,
            forall|j: int| 0 <= j < i ==> #[trigger] v@[j] == square_sample(j),
        decreases TABLE_SIZE - i,
    {
        if i < TABLE_SIZE / 2 {
            v.push(0);
        } else {
            v.push(AMPLITUDE);
        }
        i += 1;
    }
    Table { table: v }
}

} // verus!
