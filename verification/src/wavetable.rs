use vstd::prelude::*;

use crate::noise::get_noise_table;
use crate::oscillator::WavetableType;
use crate::saw::{get_saw_table, saw_sample};
use crate::sin::{get_sin_table, sine_sample};
use crate::square::{get_square_table, square_sample};
use crate::triangle::{get_triangle_table, triangle_sample};

verus! {

/// Number of samples in one wavetable. A power of two, so that index
/// wraparound can be done with a bitmask instead of a modulo.
pub const TABLE_SIZE: usize = 32768;

/// Largest valid table index.
pub const TABLE_SIZE_MASK: usize = 32767;

/// Fixed-point amplitude unit: the sample value that stands for 1.0.
/// Every table sample lies in [-AMPLITUDE, AMPLITUDE].
pub const AMPLITUDE: i64 = 32768;

/// One period of a waveform: a fixed-size sequence of amplitude-normalized
/// fixed-point samples. Built once, never mutated afterwards.
pub struct Table {
    pub table: Vec<i64>,
}

impl Table {
    /// The table holds exactly `TABLE_SIZE` samples, all within amplitude
    /// range.
    pub open spec fn wf(&self) -> bool {
        &&& self.table@.len() == TABLE_SIZE
        &&& forall|j: int|
            0 <= j < TABLE_SIZE ==> -AMPLITUDE <= #[trigger] self.table@[j] <= AMPLITUDE
    }

    /// Read-only access to the backing samples.
    pub fn get_table(&self) -> (r: &Vec<i64>)
        ensures
            r == &self.table,
    {
        &self.table
    }

    /// The sample at position `i`.
    pub fn index(&self, i: usize) -> (r: i64)
        requires
            i < self.table@.len(),
        ensures
            r == self.table@[i as int],
    {
        self.table[i]
    }
}

/// The five canonical wavetables, built once and then read-only. The store is
/// an explicit object: built ahead of use, off the per-sample path, and handed
/// by shared reference to every oscillator that reads from it, so table
/// lifetime and sharing stay visible to the caller.
pub struct TableStore {
    pub sine: Table,
    pub triangle: Table,
    pub saw: Table,
    pub square: Table,
    pub noise: Table,
}

impl TableStore {
    /// Every table is fully built: each holds exactly `TABLE_SIZE` bounded
    /// samples, and the four deterministic tables hold exactly their defined
    /// shapes. No partial or torn table ever satisfies this.
    pub open spec fn wf(&self) -> bool {
        &&& self.sine.wf()
        &&& self.triangle.wf()
        &&& self.saw.wf()
        &&& self.square.wf()
        &&& self.noise.wf()
        &&& forall|j: int| 0 <= j < TABLE_SIZE ==> #[trigger] self.sine.table@[j] == sine_sample(j)
        &&& forall|j: int|
            0 <= j < TABLE_SIZE ==> #[trigger] self.triangle.table@[j] == triangle_sample(j)
        &&& forall|j: int| 0 <= j < TABLE_SIZE ==> #[trigger] self.saw.table@[j] == saw_sample(j)
        &&& forall|j: int|
            0 <= j < TABLE_SIZE ==> #[trigger] self.square.table@[j] == square_sample(j)
    }

    /// The samples of the table that `kind` selects.
    pub open spec fn spec_table_for(&self, kind: WavetableType) -> Seq<i64> {
        match kind {
            WavetableType::Sine => self.sine.table@,
            WavetableType::Triangle => self.triangle.table@,
            WavetableType::Saw => self.saw.table@,
            WavetableType::Square => self.square.table@,
            WavetableType::Noise => self.noise.table@,
        }
    }

    /// Shared read-only access to the table for the given waveform kind.
    pub fn table_for(&self, kind: &WavetableType) -> (r: &Table)
        requires
            self.wf(),
        ensures
            r.wf(),
            r.table@ == self.spec_table_for(*kind),
    {
        match kind {
            WavetableType::Sine => &self.sine,
            WavetableType::Triangle => &self.triangle,
            WavetableType::Saw => &self.saw,
            WavetableType::Square => &self.square,
            WavetableType::Noise => &self.noise,
        }
    }
}

/// Build all five wavetables. Callers invoke this once, ahead of streaming and
/// off the real-time thread, so that no generation cost is ever paid on the
/// per-sample path.
pub fn initialize_tables() -> (r: TableStore)
    ensures
        r.wf(),
{
    TableStore {
        sine: get_sin_table(),
        triangle: get_triangle_table(),
        saw: get_saw_table(),
        square: get_square_table(),
        noise: get_noise_table(),
    }
}

/// Warming up is idempotent for every deterministic waveform: any two fully
/// built stores hold bit-identical sine, triangle, saw and square tables, so
/// building the tables again (or from several callers) can never produce a
/// different, duplicate or partial table. The noise table is deliberately
/// random, so only its size and amplitude range are pinned down.
pub proof fn lemma_initialization_deterministic(a: &TableStore, b: &TableStore)
    requires
        a.wf(),
        b.wf(),
    ensures
        a.sine.table@ == b.sine.table@,
        a.triangle.table@ == b.triangle.table@,
        a.saw.table@ == b.saw.table@,
        a.square.table@ == b.square.table@,
{
    assert(a.sine.table@ =~= b.sine.table@);
    assert(a.triangle.table@ =~= b.triangle.table@);
    assert(a.saw.table@ =~= b.saw.table@);
    assert(a.square.table@ =~= b.square.table@);
}

/// For every waveform kind, the generated table has exactly `TABLE_SIZE`
/// samples and every sample lies within the fixed-point amplitude range
/// [-1.0, 1.0] — the noise table included, by construction of its sampling
/// range.
pub proof fn lemma_tables_sized_and_bounded(s: &TableStore, kind: WavetableType)
    requires
        s.wf(),
    ensures
        s.spec_table_for(kind).len() == TABLE_SIZE,
        forall|j: int|
            0 <= j < TABLE_SIZE ==> -AMPLITUDE <= #[trigger] s.spec_table_for(kind)[j]
                <= AMPLITUDE,
{
}

} // verus!
