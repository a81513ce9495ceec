use vstd::prelude::*;

use crate::wavetable::{Table, AMPLITUDE, TABLE_SIZE};

verus! {

/// Fixed-point magnitude of the sine half-wave at position `n` of 32767,
/// where `n` sweeps one half period (an angle of 0 to pi). This is the
/// rational approximation sin(pi * r) ~= 16 r (1 - r) / (5 - 4 r (1 - r))
/// with r = n / 32767, scaled to `AMPLITUDE` and evaluated in integers:
/// exact 0 at both ends, within 0.2% of the true sine everywhere.
pub open spec fn sine_half_magnitude(n: int) -> int {
    let hump = n * (32767 - n);
    16 * hump * 32768 / (5 * 32767 * 32767 - 4 * hump)
}

/// Sample `i` of the sine table: the angle of sample `i` is
/// i * 2 pi / (TABLE_SIZE - 1) — the step divisor is the index mask, not the
/// size, so the last sample closes the full cycle exactly. Positions with
/// 2 i <= 32767 lie on the positive half-wave, the rest on the negative one.
pub open spec fn sine_sample(i: int) -> int {
    if 2 * i <= 32767 {
        sine_half_magnitude(2 * i)
    } else {
        -sine_half_magnitude(2 * i - 32767)
    }
}

/// Evaluate the sine half-wave magnitude at position `n` of 32767.
fn sine_half_value(n: u64) -> (r: u64)
    requires
        n <= 32767,
    ensures
        r == sine_half_magnitude(n as int),
        r <= AMPLITUDE,
{
    assert(n * (32767 - n) <= 32767 * 32767) by (nonlinear_arith)
        requires
            n <= 32767,
    ;
    assert(4 * (n * (32767 - n)) <= 32767 * 32767) by (nonlinear_arith)
        requires
            n <= 32767,
    ;
    let p: u64 = n * (32767 - n);
    let num: u64 = 16 * p * 32768;
    let den: u64 = 5 * 32767 * 32767 - 4 * p;
    let q: u64 = num / den;
    assert(num <= 32768 * den);
    assert(num / den <= 32768) by (nonlinear_arith)
        requires
            num <= 32768 * den,
            den > 0,
    ;
    q
}

/// Build the sine wavetable.
pub fn get_sin_table() -> (t: Table)
    ensures
        t.wf(),
        forall|j: int| 0 <= j < TABLE_SIZE ==> #[trigger] t.table@[j] == sine_sample(j),
{
    let mut v: Vec<i64> = Vec::new();
    let mut i: usize = 0;
    while i < TABLE_SIZE
        invariant
            i <= TABLE_SIZE,
            v@.len() == i,
            forall|j: int| 0 <= j < i ==> #[trigger] v@[j] == sine_sample(j),
            forall|j: int| 0 <= j < i ==> -AMPLITUDE <= #[trigger] v@[j] <= AMPLITUDE,
        decreases TABLE_SIZE - i,
    {
        let val: i64 = if 2 * i <= 32767 {
            sine_half_value((2 * i) as u64) as i64
        } else {
            -(sine_half_value((2 * i - 32767) as u64) as i64)
        };
        v.push(val);
        i += 1;
    }
    Table { table: v }
}

} // verus!
