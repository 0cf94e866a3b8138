//! The tuning table of the terrain's noise octaves, in whole numbers.
//!
//! An octave samples the noise field at a harmonic multiple of the base
//! frequency and adds the sample, scaled by its weight, to the radial factor
//! of a vertex. Weights are counted in hundredths of the base radius, so the
//! factor of a vertex is `1 + (sum of weight * sample) / 100`.

use vstd::prelude::*;

verus! {

/// What a weight of one whole base radius counts as.
pub const WEIGHT_UNIT: u32 = 100;

/// Spatial frequency of the first harmonic.
pub const BASE_FREQUENCY: u32 = 5;

/// One octave of noise.
#[derive(Clone, Copy, Debug, PartialEq, Eq, Structural)]
pub struct Octave {
    /// Multiple of the base frequency at which the octave samples.
    pub harmonic: u32,
    /// Amplitude, in hundredths of the base radius.
    pub weight: u32,
}

/// The default table: harmonics 1, 3 and 10 with weights 0.20, 0.05 and 0.01.
pub open spec fn default_table() -> Seq<Octave> {
    seq![
        Octave { harmonic: 1, weight: 20 },
        Octave { harmonic: 3, weight: 5 },
        Octave { harmonic: 10, weight: 1 },
    ]
}

/// Sum of the weights of a table, in hundredths.
pub open spec fn total_weight(octaves: Seq<Octave>) -> int
    decreases octaves.len(),
{
    if octaves.len() == 0 {
        0
    } else {
        total_weight(octaves.drop_last()) + octaves.last().weight
    }
}

/// Sum over the octaves of weight times sample, the samples given as whole
/// numbers on a common scale.
pub open spec fn weighted_sum(octaves: Seq<Octave>, samples: Seq<int>) -> int
    decreases octaves.len(),
{
    if octaves.len() == 0 || samples.len() == 0 {
        0
    } else {
        weighted_sum(octaves.drop_last(), samples.drop_last()) + octaves.last().weight
            * samples.last()
    }
}

/// The radial factor of a vertex times `WEIGHT_UNIT * unit`, where sample `i`
/// stands for the noise value `samples[i] / unit`.
pub open spec fn radial_numerator(octaves: Seq<Octave>, samples: Seq<int>, unit: int) -> int {
    WEIGHT_UNIT * unit + weighted_sum(octaves, samples)
}

/// A table whose weights sum to less than one base radius.
pub open spec fn keeps_orientation_spec(octaves: Seq<Octave>) -> bool {
    total_weight(octaves) < WEIGHT_UNIT
}

/// The weights of a prefix sum to no more than those of the whole table.
pub proof fn lemma_total_weight_prefix(octaves: Seq<Octave>, k: int)
    requires
        0 <= k <= octaves.len(),
    ensures
        0 <= total_weight(octaves.take(k)) <= total_weight(octaves),
    decreases octaves.len() - k,
{
    if k == octaves.len() {
        assert(octaves.take(k) == octaves);
        lemma_total_weight_nonnegative(octaves);
    } else {
        lemma_total_weight_prefix(octaves, k + 1);
        assert(octaves.take(k + 1).drop_last() == octaves.take(k));
        lemma_total_weight_nonnegative(octaves.take(k));
    }
}

/// No table has a negative sum of weights.
pub proof fn lemma_total_weight_nonnegative(octaves: Seq<Octave>)
    ensures
        0 <= total_weight(octaves),
    decreases octaves.len(),
{
    if octaves.len() > 0 {
        lemma_total_weight_nonnegative(octaves.drop_last());
    }
}

/// With every sample within `[-unit, unit]`, the weighted sum lies within the
/// sum of the weights times `unit` on either side of zero.
pub proof fn lemma_weighted_sum_bounded(octaves: Seq<Octave>, samples: Seq<int>, unit: int)
    requires
        unit > 0,
        samples.len() == octaves.len(),
        forall|i: int| 0 <= i < samples.len() ==> -unit <= #[trigger] samples[i] <= unit,
    ensures
        -(total_weight(octaves) * unit) <= weighted_sum(octaves, samples) <= total_weight(octaves)
            * unit,
    decreases octaves.len(),
{
    if octaves.len() > 0 {
        let head = octaves.drop_last();
        let rest = samples.drop_last();
        assert forall|i: int| 0 <= i < rest.len() implies -unit <= #[trigger] rest[i] <= unit by {
            assert(rest[i] == samples[i]);
        }
        lemma_weighted_sum_bounded(head, rest, unit);
        let w = octaves.last().weight as int;
        let s = samples.last();
        let t = total_weight(head);
        assert(-unit <= s <= unit);
        assert(-(w * unit) <= w * s <= w * unit) by (nonlinear_arith)
            requires
                0 <= w,
                -unit <= s <= unit,
        ;
        assert((t + w) * unit == t * unit + w * unit) by (nonlinear_arith);
    }
}

/// In exact arithmetic, a table that keeps orientation gives every vertex a
/// radial factor above zero, whatever the samples within `[-1, 1]`: no vertex
/// is carried through the centre. The factor lies between `1 - W` and `1 + W`
/// for `W` the sum of the weights.
pub proof fn lemma_radial_factor_positive(octaves: Seq<Octave>, samples: Seq<int>, unit: int)
    requires
        unit > 0,
        samples.len() == octaves.len(),
        forall|i: int| 0 <= i < samples.len() ==> -unit <= #[trigger] samples[i] <= unit,
        keeps_orientation_spec(octaves),
    ensures
        radial_numerator(octaves, samples, unit) > 0,
        (WEIGHT_UNIT - total_weight(octaves)) * unit <= radial_numerator(octaves, samples, unit),
        radial_numerator(octaves, samples, unit) <= (WEIGHT_UNIT + total_weight(octaves)) * unit,
{
    lemma_weighted_sum_bounded(octaves, samples, unit);
    let t = total_weight(octaves);
    let u = WEIGHT_UNIT as int;
    assert((u - t) * unit == u * unit - t * unit) by (nonlinear_arith);
    assert((u + t) * unit == u * unit + t * unit) by (nonlinear_arith);
    assert((u - t) * unit > 0) by (nonlinear_arith)
        requires
            u - t > 0,
            unit > 0,
    ;
}

/// The default table sums to 26 hundredths, so it keeps orientation.
pub proof fn lemma_default_table_weight()
    ensures
        total_weight(default_table()) == 26,
        keeps_orientation_spec(default_table()),
{
    reveal_with_fuel(total_weight, 4);
    let t = default_table();
    let t2 = t.drop_last();
    let t1 = t2.drop_last();
    assert(t1.drop_last().len() == 0);
    assert(t1.last().weight == 20);
    assert(total_weight(t1) == 20);
    assert(t2.last().weight == 5);
    assert(total_weight(t2) == 25);
    assert(t.last().weight == 1);
}

impl Octave {
    /// The frequency at which the octave samples, for a base frequency:
    /// the base times the harmonic, or `None` where that does not fit.
    pub fn frequency(&self, base: u32) -> (freq: Option<u32>)
        ensures
            freq == if base * self.harmonic <= u32::MAX {
                Some((base * self.harmonic) as u32)
            } else {
                None
            },
    {
        base.checked_mul(self.harmonic)
    }
}

/// The default tuning table.
pub fn default_octaves() -> (table: Vec<Octave>)
    ensures
        table@ == default_table(),
{
    let mut table: Vec<Octave> = Vec::new();
    table.push(Octave { harmonic: 1, weight: 20 });
    table.push(Octave { harmonic: 3, weight: 5 });
    table.push(Octave { harmonic: 10, weight: 1 });
    assert(table@ =~= default_table());
    table
}

/// Sum of the weights of a table, or `None` where it does not fit.
pub fn weight_budget(octaves: &Vec<Octave>) -> (budget: Option<u32>)
    ensures
        budget == if total_weight(octaves@) <= u32::MAX {
            Some(total_weight(octaves@) as u32)
        } else {
            None
        },
{
    let mut sum: u32 = 0;
    let mut k: usize = 0;
    while k < octaves.len()
        invariant
            k <= octaves@.len(),
            sum == total_weight(octaves@.take(k as int)),
        decreases octaves@.len() - k,
    {
        proof {
            assert(octaves@.take(k + 1).drop_last() == octaves@.take(k as int));
            lemma_total_weight_prefix(octaves@, k + 1);
        }
        match sum.checked_add(octaves[k].weight) {
            Some(next) => {
                sum = next;
            },
            None => {
                return None;
            },
        }
        k += 1;
    }
    proof {
        assert(octaves@.take(k as int) == octaves@);
    }
    Some(sum)
}

/// Whether the weights of a table sum to less than one base radius.
pub fn keeps_orientation(octaves: &Vec<Octave>) -> (keeps: bool)
    ensures
        keeps == keeps_orientation_spec(octaves@),
{
    proof {
        lemma_total_weight_nonnegative(octaves@);
    }
    match weight_budget(octaves) {
        Some(budget) => budget < WEIGHT_UNIT,
        None => false,
    }
}

} // verus!
