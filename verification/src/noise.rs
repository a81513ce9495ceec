use vstd::prelude::*;

use crate::wavetable::{Table, AMPLITUDE, TABLE_SIZE};

verus! {

/// Relies on rand::random::<u64>: a uniformly distributed 64-bit value from
/// the thread-local generator. Nothing is assumed of the result.
#[verifier::external_body]
fn random_u64() -> u64 {
    rand::random::<u64>()
}

/// Build the noise wavetable: every sample drawn independently from the full
/// amplitude range [-1.0, 1.0]. The contents are random, so only their number
/// and range are stated; the table is frozen once built and replayed on every
/// cycle rather than regenerated.
pub fn get_noise_table() -> (t: Table)
    ensures
        t.wf(),
{
    let mut v: Vec<i64> = Vec::new();
    let mut i: usize = 0;
    while i < TABLE_SIZE
        invariant
            i <= TABLE_SIZE,
            v@.len() == i,
            forall|j: int| 0 <= j < i ==> -AMPLITUDE <= #[trigger] v@[j] <= AMPLITUDE,
        decreases TABLE_SIZE - i,
    {
        let r: u64 = random_u64();
        let centered: i64 = (r % 65537) as i64 - 32768;
        v.push(centered);
        i += 1;
    }
    Table { table: v }
}

} // verus!
