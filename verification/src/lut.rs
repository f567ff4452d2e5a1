//! Lookup tables: a sampled curve in the two-part layout that the hardware
//! reads, 256 samples followed by 256 forward differences.

use vstd::prelude::*;

verus! {

/// Number of entries of a table: the samples, then the differences.
pub const LUT_SZ: usize = 512;

/// Where the second half of a table starts.
pub const LUT_HALF: usize = 256;

/// First step of the sampled domain.
pub open spec fn lut_min(negative: bool) -> int {
    if negative {
        -128
    } else {
        0
    }
}

/// Last step of the sampled domain, and the divisor that normalises a step:
/// step `i` stands for the curve's argument `i / lut_max(negative)`.
pub open spec fn lut_max(negative: bool) -> int {
    if negative {
        128
    } else {
        256
    }
}

/// Index in the first half of the table of the sample taken at step `i`.
/// On the signed domain the steps below zero wrap round to the upper
/// indices, as the low eight bits of `i` do.
pub open spec fn lut_slot(i: int, negative: bool) -> int {
    if negative {
        i % 256
    } else {
        i
    }
}

/// The step whose sample stands at index `k` of the first half: the inverse
/// of [`lut_slot`].
pub open spec fn lut_step(k: int, negative: bool) -> int {
    if negative && k >= 128 {
        k - 256
    } else {
        k
    }
}

/// The table that holds `values[j]` as the sample of step `lut_min + j` and
/// `deltas[j]` as the difference between the steps `lut_min + j + 1` and
/// `lut_min + j`.
pub open spec fn lut_layout(values: Seq<u32>, deltas: Seq<u32>, negative: bool) -> Seq<u32> {
    Seq::new(
        LUT_SZ as nat,
        |k: int|
            if k < LUT_HALF {
                values[lut_step(k, negative) - lut_min(negative)]
            } else {
                deltas[lut_step(k - LUT_HALF, negative) - lut_min(negative)]
            },
    )
}

/// A curve sampled for the hardware.
#[derive(Clone, Copy, Debug)]
pub struct LutData {
    data: [u32; 512],
}

impl View for LutData {
    type V = Seq<u32>;

    closed spec fn view(&self) -> Seq<u32> {
        self.data@
    }
}

/// Whether `samples` and `deltas` can come from sampling `curve` over the
/// domain that `negative` selects: `samples[j]` is a result of `curve` at
/// step `lut_min + j`, over the divisor `lut_max`, and `deltas[j]` is a
/// result of `diff` on the samples of the steps `j + 1` and `j`.
pub open spec fn lut_sampled<F: Fn(i32, i32) -> u32, D: Fn(u32, u32) -> u32>(
    curve: F,
    diff: D,
    negative: bool,
    samples: Seq<u32>,
    deltas: Seq<u32>,
) -> bool {
    &&& samples.len() == LUT_HALF + 1
    &&& deltas.len() == LUT_HALF
    &&& forall|j: int|
        0 <= j <= LUT_HALF ==> curve.ensures(
            ((lut_min(negative) + j) as i32, lut_max(negative) as i32),
            #[trigger] samples[j],
        )
    &&& forall|j: int|
        0 <= j < LUT_HALF ==> diff.ensures((samples[j + 1], samples[j]), #[trigger] deltas[j])
}

impl LutData {
    /// Samples `curve` and lays the samples out for the hardware.
    ///
    /// With `negative` unset the curve is sampled at the steps 0 to 256,
    /// which stand for the arguments `i / 256`; with `negative` set, at the
    /// steps -128 to 128, which stand for `i / 128`. `curve` is handed the
    /// step and the divisor and returns the sample; `diff` is handed a sample
    /// and the one before it and returns their difference. The sample of the
    /// last step is not stored: it only gives the last difference.
    ///
    /// Both functions must accept what they are handed here: `curve` every
    /// step of the domain, `diff` every two samples of neighbouring steps.
    pub fn from_fn<F: Fn(i32, i32) -> u32, D: Fn(u32, u32) -> u32>(
        curve: F,
        diff: D,
        negative: bool,
    ) -> (lut: Self)
        requires
            forall|i: i32|
                lut_min(negative) <= i <= lut_max(negative) ==> #[trigger] curve.requires(
                    (i, lut_max(negative) as i32),
                ),
            forall|i: i32, h: i32, a: u32, b: u32|
                lut_min(negative) <= h && h + 1 == i && i <= lut_max(negative) && #[trigger] curve.ensures(
                    (i, lut_max(negative) as i32),
                    a,
                ) && #[trigger] curve.ensures((h, lut_max(negative) as i32), b) ==> diff.requires(
                    (a, b),
                ),
        ensures
            exists|samples: Seq<u32>, deltas: Seq<u32>|
                lut_sampled(curve, diff, negative, samples, deltas) && lut@ == lut_layout(
                    samples,
                    deltas,
                    negative,
                ),
    {
        let min: i32 = if negative {
            -128
        } else {
            0
        };
        let max: i32 = if negative {
            128
        } else {
            256
        };
        let mut values = [0u32; 256];
        let mut deltas = [0u32; 256];
        assert(max == lut_max(negative) as i32);
        let mut prev = curve(min, max);
        values[0] = prev;
        let ghost mut samples: Seq<u32> = seq![prev];
        let mut j: usize = 1;
        while j <= 256
            invariant
                1 <= j <= 257,
                min == lut_min(negative),
                max == lut_max(negative),
                samples.len() == j,
                prev == samples[j - 1],
                forall|i: i32|
                    lut_min(negative) <= i <= lut_max(negative) ==> #[trigger] curve.requires(
                        (i, lut_max(negative) as i32),
                    ),
                forall|i: i32, h: i32, a: u32, b: u32|
                    lut_min(negative) <= h && h + 1 == i && i <= lut_max(negative)
                        && #[trigger] curve.ensures((i, lut_max(negative) as i32), a)
                        && #[trigger] curve.ensures((h, lut_max(negative) as i32), b)
                        ==> diff.requires((a, b)),
                forall|k: int|
                    0 <= k < j ==> curve.ensures(
                        ((lut_min(negative) + k) as i32, lut_max(negative) as i32),
                        #[trigger] samples[k],
                    ),
                forall|k: int| 0 <= k < j && k < 256 ==> values@[k] == samples[k],
                forall|k: int|
                    0 <= k < j - 1 ==> diff.ensures(
                        (samples[k + 1], samples[k]),
                        #[trigger] deltas@[k],
                    ),
            decreases 257 - j,
        {
            let i: i32 = min + j as i32;
            assert(max == lut_max(negative) as i32);
            let v = curve(i, max);
            if j < 256 {
                values[j] = v;
            }
            assert(curve.ensures(((lut_min(negative) + (j - 1)) as i32, max), samples[j - 1]));
            deltas[j - 1] = diff(v, prev);
            prev = v;
            proof {
                samples = samples.push(v);
            }
            j += 1;
        }
        let lut = Self::from_samples(&values, &deltas, negative);
        proof {
            assert(lut_sampled(curve, diff, negative, samples, deltas@));
            assert(lut@ =~= lut_layout(samples, deltas@, negative));
        }
        lut
    }

    /// Lays out 256 samples, given in the order of their steps, and the 256
    /// differences between each sample and the next.
    pub fn from_samples(values: &[u32; 256], deltas: &[u32; 256], negative: bool) -> (lut: Self)
        ensures
            lut@ == lut_layout(values@, deltas@, negative),
    {
        let min: i32 = if negative {
            -128
        } else {
            0
        };
        let mut data = [0u32; 512];
        let mut j: usize = 0;
        while j < 256
            invariant
                j <= 256,
                min == lut_min(negative),
                forall|k: int|
                    0 <= k < 256 && lut_step(k, negative) - lut_min(negative) < j
                        ==> data@[k] == values@[lut_step(k, negative) - lut_min(negative)],
                forall|k: int|
                    0 <= k < 256 && lut_step(k, negative) - lut_min(negative) < j
                        ==> data@[k + 256] == deltas@[lut_step(k, negative) - lut_min(negative)],
            decreases 256 - j,
        {
            let i: i32 = min + j as i32;
            let slot = Self::slot_of(i, negative);
            data[slot] = values[j];
            data[slot + 256] = deltas[j];
            j += 1;
        }
        assert(data@ =~= lut_layout(values@, deltas@, negative));
        LutData { data }
    }

    /// Index in the first half of the table of the sample taken at step `i`.
    fn slot_of(i: i32, negative: bool) -> (slot: usize)
        requires
            lut_min(negative) <= i < lut_max(negative),
        ensures
            slot == lut_slot(i as int, negative),
            slot < LUT_HALF,
            lut_step(slot as int, negative) == i,
    {
        if negative {
            let low = i & 0xFF;
            assert(low == i as int % 256) by (bit_vector)
                requires
                    -128 <= i < 128,
                    low == i & 0xFF,
            ;
            low as usize
        } else {
            i as usize
        }
    }

    /// The 512 entries.
    pub fn data(&self) -> (d: &[u32; 512])
        ensures
            d@ == self@,
    {
        &self.data
    }
}

impl PartialEq for LutData {
    /// Two tables are equal when all their entries are.
    fn eq(&self, other: &Self) -> (r: bool) {
        let mut k: usize = 0;
        while k < 512
            invariant
                k <= 512,
                forall|n: int| 0 <= n < k ==> self.data@[n] == other.data@[n],
            decreases 512 - k,
        {
            if self.data[k] != other.data[k] {
                return false;
            }
            k += 1;
        }
        assert(self.data@ =~= other.data@);
        true
    }
}

impl Eq for LutData {

}

impl vstd::std_specs::cmp::PartialEqSpecImpl for LutData {
    open spec fn obeys_eq_spec() -> bool {
        true
    }

    open spec fn eq_spec(&self, other: &Self) -> bool {
        self@ == other@
    }
}

/// Where the samples stand: the sample of step `i` at [`lut_slot`] of `i`,
/// and the difference between the steps `i + 1` and `i` at the same index of
/// the second half. No two steps share an index.
pub proof fn lemma_layout_by_step(values: Seq<u32>, deltas: Seq<u32>, negative: bool, i: int)
    requires
        lut_min(negative) <= i < lut_max(negative),
    ensures
        0 <= lut_slot(i, negative) < LUT_HALF,
        lut_step(lut_slot(i, negative), negative) == i,
        lut_layout(values, deltas, negative)[lut_slot(i, negative)] == values[i - lut_min(
            negative,
        )],
        lut_layout(values, deltas, negative)[LUT_HALF + lut_slot(i, negative)] == deltas[i
            - lut_min(negative)],
{
}

/// Every index of a half belongs to a step of the domain, the one that
/// [`lut_step`] gives, so that a table has no entry that sampling leaves out.
pub proof fn lemma_step_of_slot(k: int, negative: bool)
    requires
        0 <= k < LUT_HALF,
    ensures
        lut_min(negative) <= lut_step(k, negative) < lut_max(negative),
        lut_slot(lut_step(k, negative), negative) == k,
{
}

/// The sample of the argument zero stands at index 0 on both domains. On the
/// signed domain the steps below zero fill the upper half of the indices:
/// the first step, -128, stands at index 128 and the step -1 at index 255.
pub proof fn lemma_origin_slot(values: Seq<u32>, deltas: Seq<u32>)
    ensures
        lut_slot(0, false) == 0,
        lut_slot(0, true) == 0,
        lut_slot(-128, true) == 128,
        lut_slot(-1, true) == 255,
        lut_layout(values, deltas, false)[0] == values[0],
        lut_layout(values, deltas, true)[0] == values[128],
{
}

/// On the unsigned domain the first half of a table holds the samples in the
/// order of their steps: whatever order `le` the samples rise in, the first
/// half of the table rises in it too.
pub proof fn lemma_unsigned_keeps_order(
    values: Seq<u32>,
    deltas: Seq<u32>,
    le: spec_fn(u32, u32) -> bool,
)
    requires
        forall|j: int, k: int| 0 <= j <= k < LUT_HALF ==> le(values[j], values[k]),
    ensures
        forall|a: int, b: int|
            0 <= a <= b < LUT_HALF ==> le(
                #[trigger] lut_layout(values, deltas, false)[a],
                #[trigger] lut_layout(values, deltas, false)[b],
            ),
{
}

/// In a table made from samples of `curve`, every entry of the first half is
/// a result of `curve` at its step, and the entry behind it in the second
/// half is a result of `diff` on the sample of the next step and this one.
/// The sample of the last step, `samples[256]`, stands nowhere in the table.
pub proof fn lemma_deltas_are_differences<F: Fn(i32, i32) -> u32, D: Fn(u32, u32) -> u32>(
    curve: F,
    diff: D,
    negative: bool,
    samples: Seq<u32>,
    deltas: Seq<u32>,
    i: int,
)
    requires
        lut_sampled(curve, diff, negative, samples, deltas),
        lut_min(negative) <= i < lut_max(negative),
    ensures
        ({
            let t = lut_layout(samples, deltas, negative);
            let next = if i + 1 < lut_max(negative) {
                t[lut_slot(i + 1, negative)]
            } else {
                samples[LUT_HALF as int]
            };
            &&& curve.ensures((i as i32, lut_max(negative) as i32), t[lut_slot(i, negative)])
            &&& diff.ensures((next, t[lut_slot(i, negative)]), t[LUT_HALF + lut_slot(i, negative)])
        }),
{
    let j = i - lut_min(negative);
    lemma_layout_by_step(samples, deltas, negative, i);
    if i + 1 < lut_max(negative) {
        lemma_layout_by_step(samples, deltas, negative, i + 1);
    }
    assert(curve.ensures(((lut_min(negative) + j) as i32, lut_max(negative) as i32), samples[j]));
    assert(diff.ensures((samples[j + 1], samples[j]), deltas[j]));
}

} // verus!
