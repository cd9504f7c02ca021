use vstd::prelude::*;

use crate::ratio::Ratio;
use crate::records::FrequencyValues;

verus! {

/// `|swr - 1|` in hundredths.
pub open spec fn reflection_numerator(swr_centi: int) -> int {
    if swr_centi >= 100 {
        swr_centi - 100
    } else {
        100 - swr_centi
    }
}

/// The reflection coefficient `|(swr - 1) / (swr + 1)|` of a band, exactly.
pub fn calculate_reflection_coefficient(freq_values: &FrequencyValues) -> (r: Ratio)
    ensures
        r.num == reflection_numerator(freq_values.swr_centi as int),
        r.den == freq_values.swr_centi + 100,
        r.wf(),
        r.num == 0 <==> freq_values.swr_centi == 100,
        freq_values.swr_centi > 0 ==> r.below_one(),
{
    let swr = freq_values.swr_centi as u64;
    if swr >= 100 {
        Ratio { num: swr - 100, den: swr + 100 }
    } else {
        Ratio { num: 100 - swr, den: swr + 100 }
    }
}

/// The maximum permissible power density `180 / f^2` at a band's frequency in
/// megahertz, exactly: `180 * 1000^2 / f_khz^2`.
pub fn calculate_mpe_limit(freq_values: &FrequencyValues) -> (r: Ratio)
    requires
        freq_values.freq_khz > 0,
    ensures
        r.num == 180_000_000,
        r.den == freq_values.freq_khz * freq_values.freq_khz,
        r.wf(),
{
    let f = freq_values.freq_khz as u64;
    assert(f * f <= u32::MAX * u32::MAX) by (nonlinear_arith)
        requires f <= u32::MAX;
    assert(f * f > 0) by (nonlinear_arith)
        requires f > 0;
    Ratio { num: 180_000_000, den: f * f }
}

/// A matched line reflects least: at an SWR of exactly 1 the reflection
/// coefficient is zero, at or below that of any other band.
pub proof fn lemma_matched_line_reflects_least(matched: FrequencyValues, other: FrequencyValues)
    requires
        matched.swr_centi == 100,
    ensures
        reflection_numerator(matched.swr_centi as int) == 0,
        reflection_numerator(matched.swr_centi as int) * (other.swr_centi + 100)
            <= reflection_numerator(other.swr_centi as int) * (matched.swr_centi + 100),
{
}

} // verus!
