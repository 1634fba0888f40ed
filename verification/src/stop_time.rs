//! The time that a stop at a given depth has to last.
use vstd::prelude::*;
use crate::compartment::{
    classify, crossover, crossover_of, crossover_ratio, crossover_request, crossover_time,
    exponent_clamp, stop_time_tissue, total, Crossing,
};
use crate::error::DecoError;
use crate::gas::{scaled, GasMix, TissuesLoading};
use crate::mptt::{Tissue, TissueRow, NUM_TISSUES};
use crate::pressure_unit::{Pa, Pressure};

verus! {

/// One number for each compartment and each of the two inert gases: the
/// crossover ratios of a loading, or the crossover exponents that answer
/// them.
#[derive(Debug, Clone, Copy)]
pub struct Crossovers<const NUM_TS: usize> {
    pub n2: [i64; NUM_TS],
    pub he: [i64; NUM_TS],
}

/// The larger of two numbers.
pub open spec fn larger(a: int, b: int) -> int {
    if a >= b {
        a
    } else {
        b
    }
}

/// The later of two stop times, where both exist.
pub open spec fn later(a: Option<int>, b: Option<int>) -> Option<int> {
    match (a, b) {
        (Some(x), Some(y)) => Some(larger(x, y)),
        _ => None,
    }
}

/// `ratios` holds the crossover ratios of `loading` on `gas` at the absolute
/// pressure `depth`, against the M-values of `row`.
pub open spec fn ratios_of<const NUM_TS: usize>(
    ratios: Crossovers<NUM_TS>,
    loading: TissuesLoading<NUM_TS, Pa>,
    gas: GasMix,
    row: TissueRow<NUM_TISSUES>,
    depth: int,
) -> bool {
    &&& forall|i: int|
        0 <= i < NUM_TS ==> (#[trigger] ratios.n2[i]) == crossover_ratio(
            loading.n2[i].0 as int,
            scaled(depth, gas.spec_fn2()),
            row.max_saturation[i].0 as int,
        )
    &&& forall|i: int|
        0 <= i < NUM_TS ==> (#[trigger] ratios.he[i]) == crossover_ratio(
            loading.he[i].0 as int,
            scaled(depth, gas.spec_fhe()),
            row.max_saturation[i].0 as int,
        )
}

/// `l` answers the crossover ratio `q`: it is the crossover exponent as
/// `neg_ln` gives it, or zero where the ratio is zero and no logarithm is
/// wanted.
pub open spec fn answers<F: Fn(i64) -> i64>(neg_ln: F, q: i64, l: i64) -> bool {
    if q == 0 {
        l == 0
    } else {
        crossover_of(neg_ln, q, l as int)
    }
}

/// `exponents` answers `ratios`, number by number.
pub open spec fn exponents_of<const NUM_TS: usize, F: Fn(i64) -> i64>(
    exponents: Crossovers<NUM_TS>,
    ratios: Crossovers<NUM_TS>,
    neg_ln: F,
) -> bool {
    &&& forall|i: int|
        0 <= i < NUM_TS ==> answers(neg_ln, ratios.n2[i], #[trigger] exponents.n2[i])
    &&& forall|i: int|
        0 <= i < NUM_TS ==> answers(neg_ln, ratios.he[i], #[trigger] exponents.he[i])
}

/// The time in milliseconds after which compartment `i` bears the M-value
/// of `row` for both inert gases, `None` where no time brings that about.
pub open spec fn stop_time_at<const NUM_TS: usize>(
    loading: TissuesLoading<NUM_TS, Pa>,
    tissues: [Tissue; NUM_TS],
    gas: GasMix,
    row: TissueRow<NUM_TISSUES>,
    depth: int,
    exponents: Crossovers<NUM_TS>,
    i: int,
) -> Option<int> {
    later(
        stop_time_tissue(
            loading.n2[i].0 as int,
            scaled(depth, gas.spec_fn2()),
            row.max_saturation[i].0 as int,
            tissues[i].spec_rate(),
            exponent_clamp(exponents.n2[i] as int),
        ),
        stop_time_tissue(
            loading.he[i].0 as int,
            scaled(depth, gas.spec_fhe()),
            row.max_saturation[i].0 as int,
            tissues[i].spec_rate(),
            exponent_clamp(exponents.he[i] as int),
        ),
    )
}

/// The time in milliseconds after which the first `n` compartments bear the
/// M-values of `row`: the longest of their times, `None` where one of them
/// has none.
pub open spec fn stop_time_upto<const NUM_TS: usize>(
    loading: TissuesLoading<NUM_TS, Pa>,
    tissues: [Tissue; NUM_TS],
    gas: GasMix,
    row: TissueRow<NUM_TISSUES>,
    depth: int,
    exponents: Crossovers<NUM_TS>,
    n: nat,
) -> Option<int>
    decreases n,
{
    if n == 0 {
        Some(0)
    } else {
        later(
            stop_time_upto(loading, tissues, gas, row, depth, exponents, (n - 1) as nat),
            stop_time_at(loading, tissues, gas, row, depth, exponents, n - 1),
        )
    }
}

/// The time in milliseconds that a stop has to last for every compartment to
/// bear the M-values of `row`, on `gas` at the absolute pressure `depth`.
pub open spec fn spec_stop_time<const NUM_TS: usize>(
    loading: TissuesLoading<NUM_TS, Pa>,
    tissues: [Tissue; NUM_TS],
    gas: GasMix,
    row: TissueRow<NUM_TISSUES>,
    depth: int,
    exponents: Crossovers<NUM_TS>,
) -> Option<int> {
    stop_time_upto(loading, tissues, gas, row, depth, exponents, NUM_TS as nat)
}

/// A stop time is a number of milliseconds that fits.
pub proof fn lemma_stop_time_range<const NUM_TS: usize>(
    loading: TissuesLoading<NUM_TS, Pa>,
    tissues: [Tissue; NUM_TS],
    gas: GasMix,
    row: TissueRow<NUM_TISSUES>,
    depth: int,
    exponents: Crossovers<NUM_TS>,
    n: nat,
)
    ensures
        stop_time_upto(loading, tissues, gas, row, depth, exponents, n) is Some ==> 0
            <= stop_time_upto(loading, tissues, gas, row, depth, exponents, n)->Some_0 <= u64::MAX,
    decreases n,
{
    if n > 0 {
        lemma_stop_time_range(loading, tissues, gas, row, depth, exponents, (n - 1) as nat);
    }
}

/// Compartment `i` breathes each gas that it holds too much of at a
/// pressure under its M-value.
pub open spec fn can_clear<const NUM_TS: usize>(
    loading: TissuesLoading<NUM_TS, Pa>,
    gas: GasMix,
    row: TissueRow<NUM_TISSUES>,
    depth: int,
    i: int,
) -> bool {
    &&& loading.n2[i].0 > row.max_saturation[i].0 ==> scaled(depth, gas.spec_fn2())
        < row.max_saturation[i].0
    &&& loading.he[i].0 > row.max_saturation[i].0 ==> scaled(depth, gas.spec_fhe())
        < row.max_saturation[i].0
}

/// A stop has a time, not negative and not without end, wherever every
/// compartment that exceeds its M-value breathes the gas at a pressure under
/// that M-value.
pub proof fn lemma_stop_time_finite<const NUM_TS: usize>(
    loading: TissuesLoading<NUM_TS, Pa>,
    tissues: [Tissue; NUM_TS],
    gas: GasMix,
    row: TissueRow<NUM_TISSUES>,
    depth: int,
    exponents: Crossovers<NUM_TS>,
    n: nat,
)
    requires
        forall|i: int| 0 <= i < n ==> #[trigger] can_clear(loading, gas, row, depth, i),
    ensures
        stop_time_upto(loading, tissues, gas, row, depth, exponents, n) is Some,
        0 <= stop_time_upto(loading, tissues, gas, row, depth, exponents, n)->Some_0 <= u64::MAX,
    decreases n,
{
    if n > 0 {
        lemma_stop_time_finite(loading, tissues, gas, row, depth, exponents, (n - 1) as nat);
        assert(can_clear(loading, gas, row, depth, n - 1));
    }
    lemma_stop_time_range(loading, tissues, gas, row, depth, exponents, n);
}

/// The time in milliseconds after which one compartment bears the M-value
/// `m` for one gas.
fn tissue_time(p: Pa, p_inspired: Pa, m: Pa, tissue: &Tissue, exponent: i64) -> (r: Option<u64>)
    ensures
        r is Some == stop_time_tissue(
            p.0 as int,
            p_inspired.0 as int,
            m.0 as int,
            tissue.spec_rate(),
            exponent_clamp(exponent as int),
        ) is Some,
        r is Some ==> r->Some_0 == stop_time_tissue(
            p.0 as int,
            p_inspired.0 as int,
            m.0 as int,
            tissue.spec_rate(),
            exponent_clamp(exponent as int),
        )->Some_0,
{
    if p.0 <= m.0 {
        return Some(0);
    }
    match classify(p, p_inspired, m) {
        Crossing::Never => None,
        Crossing::Past => Some(0),
        Crossing::Ahead => Some(crossover_time(tissue, exponent)),
    }
}

/// The crossover ratios of `loading` on `breathing_gas` at `depth`, against
/// the M-values of `row`: what the logarithm is wanted of.
pub fn crossover_ratios<const NUM_TS: usize>(
    loading: &TissuesLoading<NUM_TS, Pa>,
    breathing_gas: &GasMix,
    row: &TissueRow<NUM_TISSUES>,
    depth: Pa,
) -> (r: Crossovers<NUM_TS>)
    requires
        NUM_TS <= NUM_TISSUES,
    ensures
        ratios_of(r, *loading, *breathing_gas, *row, depth.0 as int),
{
    let p_inspired_n2: Pa = depth.scale(breathing_gas.fn2() as i64);
    let p_inspired_he: Pa = depth.scale(breathing_gas.fhe() as i64);
    let mut ratios: Crossovers<NUM_TS> = Crossovers { n2: [0i64;NUM_TS], he: [0i64;NUM_TS] };
    let mut i: usize = 0;
    while i < NUM_TS
        invariant
            i <= NUM_TS,
            NUM_TS <= NUM_TISSUES,
            p_inspired_n2.0 == scaled(depth.0 as int, breathing_gas.spec_fn2()),
            p_inspired_he.0 == scaled(depth.0 as int, breathing_gas.spec_fhe()),
            forall|j: int|
                0 <= j < i ==> (#[trigger] ratios.n2[j]) == crossover_ratio(
                    loading.n2[j].0 as int,
                    p_inspired_n2.0 as int,
                    row.max_saturation[j].0 as int,
                ),
            forall|j: int|
                0 <= j < i ==> (#[trigger] ratios.he[j]) == crossover_ratio(
                    loading.he[j].0 as int,
                    p_inspired_he.0 as int,
                    row.max_saturation[j].0 as int,
                ),
        decreases NUM_TS - i,
    {
        ratios.n2[i] = crossover_request(loading.n2[i], p_inspired_n2, row.max_saturation[i]);
        ratios.he[i] = crossover_request(loading.he[i], p_inspired_he, row.max_saturation[i]);
        i = i + 1;
    }
    ratios
}

/// The crossover exponents that answer `ratios`, as `neg_ln` gives them.
pub fn crossover_exponents<const NUM_TS: usize, F: Fn(i64) -> i64>(
    ratios: &Crossovers<NUM_TS>,
    neg_ln: &F,
) -> (r: Crossovers<NUM_TS>)
    requires
        total(*neg_ln),
    ensures
        exponents_of(r, *ratios, *neg_ln),
{
    let mut exponents: Crossovers<NUM_TS> = Crossovers { n2: [0i64;NUM_TS], he: [0i64;NUM_TS] };
    let mut i: usize = 0;
    while i < NUM_TS
        invariant
            i <= NUM_TS,
            total(*neg_ln),
            forall|j: int| 0 <= j < i ==> answers(*neg_ln, ratios.n2[j], #[trigger] exponents.n2[j]),
            forall|j: int| 0 <= j < i ==> answers(*neg_ln, ratios.he[j], #[trigger] exponents.he[j]),
        decreases NUM_TS - i,
    {
        if ratios.n2[i] != 0 {
            exponents.n2[i] = crossover(neg_ln, ratios.n2[i]);
        } else {
            exponents.n2[i] = 0;
        }
        if ratios.he[i] != 0 {
            exponents.he[i] = crossover(neg_ln, ratios.he[i]);
        } else {
            exponents.he[i] = 0;
        }
        i = i + 1;
    }
    exponents
}

/// The time in milliseconds that a stop at `depth` on `breathing_gas` has to
/// last for every compartment to bear the M-values of `row`, given the
/// crossover exponents of the loading. It is refused where some compartment
/// exceeds its M-value and no time at this depth brings it under.
pub fn stop_time<const NUM_TS: usize>(
    loading: &TissuesLoading<NUM_TS, Pa>,
    tissues: &[Tissue; NUM_TS],
    breathing_gas: &GasMix,
    row: &TissueRow<NUM_TISSUES>,
    depth: Pa,
    exponents: &Crossovers<NUM_TS>,
) -> (r: Result<u64, DecoError>)
    requires
        NUM_TS <= NUM_TISSUES,
    ensures
        r is Ok <==> spec_stop_time(
            *loading,
            *tissues,
            *breathing_gas,
            *row,
            depth.0 as int,
            *exponents,
        ) is Some,
        r is Ok ==> r->Ok_0 == spec_stop_time(
            *loading,
            *tissues,
            *breathing_gas,
            *row,
            depth.0 as int,
            *exponents,
        )->Some_0,
        r is Err ==> r->Err_0 == DecoError::InputOutOfRange,
{
    let p_inspired_n2: Pa = depth.scale(breathing_gas.fn2() as i64);
    let p_inspired_he: Pa = depth.scale(breathing_gas.fhe() as i64);
    let mut longest: Option<u64> = Some(0);
    let mut i: usize = 0;
    while i < NUM_TS
        invariant
            i <= NUM_TS,
            NUM_TS <= NUM_TISSUES,
            p_inspired_n2.0 == scaled(depth.0 as int, breathing_gas.spec_fn2()),
            p_inspired_he.0 == scaled(depth.0 as int, breathing_gas.spec_fhe()),
            longest is Some == stop_time_upto(
                *loading,
                *tissues,
                *breathing_gas,
                *row,
                depth.0 as int,
                *exponents,
                i as nat,
            ) is Some,
            longest is Some ==> longest->Some_0 == stop_time_upto(
                *loading,
                *tissues,
                *breathing_gas,
                *row,
                depth.0 as int,
                *exponents,
                i as nat,
            )->Some_0,
        decreases NUM_TS - i,
    {
        let n2: Option<u64> = tissue_time(
            loading.n2[i],
            p_inspired_n2,
            row.max_saturation[i],
            &tissues[i],
            exponents.n2[i],
        );
        let he: Option<u64> = tissue_time(
            loading.he[i],
            p_inspired_he,
            row.max_saturation[i],
            &tissues[i],
            exponents.he[i],
        );
        longest = match (longest, n2, he) {
            (Some(a), Some(b), Some(c)) => {
                let bc: u64 = if b >= c {
                    b
                } else {
                    c
                };
                if a >= bc {
                    Some(a)
                } else {
                    Some(bc)
                }
            },
            _ => None,
        };
        i = i + 1;
    }
    match longest {
        Some(millis) => Ok(millis),
        None => Err(DecoError::InputOutOfRange),
    }
}

} // verus!
