//! Inversion of the sensor's companding curve through a lookup table.
use vstd::prelude::*;
use crate::instrument::{is_engineering, is_engineering_camera, Instrument};

verus! {

/// Number of entries of a companding table: one per 8-bit sample value.
pub const TABLE_LEN: usize = 256;

/// Value used as the data maximum when no table is applied.
pub const DEFAULT_DATA_MAX: u32 = 255;

/// `s` never decreases from one index to a later one.
pub open spec fn is_non_decreasing(s: Seq<u32>) -> bool {
    forall|i: int, j: int| 0 <= i <= j < s.len() ==> s[i] <= s[j]
}

/// What a table must be to be loaded.
pub open spec fn valid_table(s: Seq<u32>) -> bool {
    &&& s.len() == TABLE_LEN
    &&& is_non_decreasing(s)
    &&& 0 < s[TABLE_LEN - 1] <= u16::MAX
}

/// A decompanding table: 256 linear values, indexed by the companded sample.
pub struct DecompandTable {
    values: Vec<u32>,
}

impl View for DecompandTable {
    type V = Seq<u32>;

    closed spec fn view(&self) -> Seq<u32> {
        self.values@
    }
}

impl DecompandTable {
    /// A usable table has one entry per 8-bit value, is non-decreasing, and
    /// its largest value is positive and fits in 16 bits.
    pub open spec fn wf(&self) -> bool {
        valid_table(self@)
    }

    /// The linear value of companded sample `v`.
    pub open spec fn spec_decompand(&self, v: int) -> u32 {
        self@[v]
    }

    /// Builds a table, rejecting one of the wrong length, one that decreases
    /// and one whose largest value is zero or beyond 16 bits.
    pub fn new(values: Vec<u32>) -> (r: Option<DecompandTable>)
        ensures
            r.is_some() <==> valid_table(values@),
            r matches Some(t) ==> t@ == values@,
    {
        if values.len() != TABLE_LEN || values[TABLE_LEN - 1] == 0 || values[TABLE_LEN - 1] > 65535 {
            return None;
        }
        let mut i: usize = 1;
        while i < values.len()
            invariant
                values@.len() == TABLE_LEN,
                0 < values@[TABLE_LEN - 1] <= u16::MAX,
                1 <= i <= values@.len(),
                forall|a: int, b: int| 0 <= a <= b < i ==> values@[a] <= values@[b],
            decreases values@.len() - i,
        {
            if values[i - 1] > values[i] {
                return None;
            }
            assert forall|a: int, b: int| 0 <= a <= b < i + 1 implies values@[a] <= values@[b] by {
                if b == i as int && a < b {
                    assert(values@[a] <= values@[i - 1]);
                }
            }
            i = i + 1;
        }
        Some(DecompandTable { values })
    }

    /// The identity table: every sample keeps its value.
    pub fn identity() -> (r: DecompandTable)
        ensures
            r.wf(),
            forall|i: int| 0 <= i < TABLE_LEN ==> r@[i] == i,
    {
        let mut values: Vec<u32> = Vec::new();
        let mut i: u32 = 0;
        while i < 256
            invariant
                i <= 256,
                values@.len() == i,
                forall|k: int| 0 <= k < i ==> values@[k] == k,
            decreases 256 - i,
        {
            values.push(i);
            i = i + 1;
        }
        DecompandTable { values }
    }

    /// The linear value of the companded sample `v`.
    pub fn decompand(&self, v: u8) -> (r: u32)
        requires
            self.wf(),
        ensures
            r == self.spec_decompand(v as int),
    {
        self.values[v as usize]
    }

    /// The largest linear value of the table, its last entry.
    pub fn max(&self) -> (r: u32)
        requires
            self.wf(),
        ensures
            r == self@[TABLE_LEN - 1],
            0 < r <= u16::MAX,
            forall|i: int| 0 <= i < TABLE_LEN ==> self@[i] <= r,
            exists|i: int| 0 <= i < TABLE_LEN && self@[i] == r,
    {
        let r = self.values[TABLE_LEN - 1];
        assert(self@[TABLE_LEN - 1] == r);
        r
    }

    /// Replaces every sample of `data` by its linear value.
    pub fn decompand_samples(&self, data: &Vec<u32>) -> (r: Vec<u32>)
        requires
            self.wf(),
            forall|i: int| 0 <= i < data@.len() ==> data@[i] < TABLE_LEN,
        ensures
            r@.len() == data@.len(),
            forall|i: int| 0 <= i < data@.len() ==> r@[i] == self@[data@[i] as int],
    {
        let mut r: Vec<u32> = Vec::with_capacity(data.len());
        let mut i: usize = 0;
        while i < data.len()
            invariant
                self.wf(),
                forall|k: int| 0 <= k < data@.len() ==> data@[k] < TABLE_LEN,
                i <= data@.len(),
                r@.len() == i,
                forall|k: int| 0 <= k < i ==> r@[k] == self@[data@[k] as int],
            decreases data@.len() - i,
        {
            r.push(self.values[data[i] as usize]);
            i = i + 1;
        }
        r
    }
}

/// Largest linear value of the engineering cameras' table.
pub const ENGINEERING_TABLE_MAX: u32 = 2033;

/// The inverse lookup table of the engineering cameras, entry by entry.
pub open spec fn engineering_table() -> Seq<u32> {
    seq![
        0, 2, 3, 3, 4, 5, 5, 6, 7, 8, 9, 10, 11, 12, 14, 15,
        16, 18, 19, 20, 22, 24, 25, 27, 29, 31, 33, 35, 37, 39, 41, 43,
        46, 48, 50, 53, 55, 58, 61, 63, 66, 69, 72, 75, 78, 81, 84, 87,
        90, 94, 97, 100, 104, 107, 111, 115, 118, 122, 126, 130, 134, 138, 142, 146,
        150, 154, 159, 163, 168, 172, 177, 181, 186, 191, 196, 201, 206, 211, 216, 221,
        226, 231, 236, 241, 247, 252, 258, 263, 269, 274, 280, 286, 292, 298, 304, 310,
        316, 322, 328, 334, 341, 347, 354, 360, 367, 373, 380, 387, 394, 401, 408, 415,
        422, 429, 436, 443, 450, 458, 465, 472, 480, 487, 495, 503, 510, 518, 526, 534,
        542, 550, 558, 566, 575, 583, 591, 600, 608, 617, 626, 634, 643, 652, 661, 670,
        679, 688, 697, 706, 715, 724, 733, 743, 752, 761, 771, 781, 790, 800, 810, 819,
        829, 839, 849, 859, 869, 880, 890, 900, 911, 921, 932, 942, 953, 964, 974, 985,
        996, 1007, 1018, 1029, 1040, 1051, 1062, 1074, 1085, 1096, 1108, 1119, 1131, 1142, 1154, 1166,
        1177, 1189, 1201, 1213, 1225, 1237, 1249, 1262, 1274, 1286, 1299, 1311, 1324, 1336, 1349, 1362,
        1374, 1387, 1400, 1413, 1426, 1439, 1452, 1465, 1479, 1492, 1505, 1519, 1532, 1545, 1559, 1573,
        1586, 1600, 1614, 1628, 1642, 1656, 1670, 1684, 1698, 1712, 1727, 1741, 1755, 1770, 1784, 1799,
        1814, 1828, 1843, 1858, 1873, 1888, 1903, 1918, 1933, 1948, 1963, 1979, 1994, 2009, 2025, 2033,
    ]
}

/// Relies on sciimg::decompanding::ILT, the inverse lookup table of the
/// engineering cameras: the 256 entries of `engineering_table`, which never
/// decrease and end at 2033.
#[verifier::external_body]
fn engineering_table_values() -> (r: Vec<u32>)
    ensures
        r@ == engineering_table(),
        r@.len() == TABLE_LEN,
        is_non_decreasing(r@),
        r@[TABLE_LEN - 1] == ENGINEERING_TABLE_MAX,
{
    sciimg::decompanding::ILT.to_vec()
}

/// The table registered for `instrument`: the engineering cameras share one,
/// the others have none.
pub fn registered_table(instrument: Instrument) -> (r: Option<DecompandTable>)
    ensures
        r.is_some() == is_engineering_camera(instrument),
        r matches Some(t) ==> t.wf() && t@ == engineering_table() && t@[TABLE_LEN - 1] == ENGINEERING_TABLE_MAX,
{
    if !is_engineering(instrument) {
        return None;
    }
    DecompandTable::new(engineering_table_values())
}

/// Decompanding preserves order: a larger companded sample never yields a
/// smaller linear value.
pub proof fn lemma_decompand_monotonic(t: &DecompandTable, a: int, b: int)
    requires
        t.wf(),
        0 <= a <= b < TABLE_LEN,
    ensures
        t.spec_decompand(a) <= t.spec_decompand(b),
{
}

} // verus!
