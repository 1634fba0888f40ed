//! Depths on the stop grid and the time an ascent takes.
use vstd::prelude::*;
use crate::error::DecoError;
use crate::fixed::{div_round, lemma_product_bound, round_div, saturate};
use crate::pressure_unit::{msw, msw_of, pa_of, Pa, Pressure};
use crate::setup::{DINC, NUM_STOP_DEPTHS};

verus! {

/// Milliseconds in a minute.
pub const MILLIS_PER_MINUTE: u64 = 60_000;

/// The number of the depth `depth` (millionths of a metre of sea water) on
/// the stop grid: `depth` divided by the depth increment and rounded up, or
/// the largest index where that does not fit.
pub open spec fn spec_depth_idx(depth: int) -> int {
    let steps = (depth + DINC - 1) / (DINC as int);
    if steps > usize::MAX {
        usize::MAX as int
    } else {
        steps
    }
}

/// The time, in milliseconds, that rising through `meters` takes at
/// `rate` per minute (both in millionths of a metre of sea water): the
/// quotient rounded to the nearest millisecond, zero where there is nothing to
/// rise through, and the largest number where it does not fit.
pub open spec fn spec_ascent_time(meters: int, rate: int) -> int {
    if meters <= 0 {
        0
    } else {
        let millis = round_div(meters * MILLIS_PER_MINUTE, rate);
        if millis > u64::MAX {
            u64::MAX as int
        } else {
            millis
        }
    }
}

/// The absolute pressure at the stop with number `d_idx`, which lies `d_idx`
/// depth increments under the surface.
pub fn get_depth(d_idx: usize) -> (r: Pa)
    ensures
        r.0 == pa_of(msw(saturate(DINC * d_idx) as i64)),
{
    msw(DINC).times(d_idx).to_pa()
}

/// The number of the depth `d` on the stop grid. A depth at or above the
/// surface has none.
pub fn get_depth_idx<P: Pressure>(d: P) -> (r: Result<usize, DecoError>)
    ensures
        r is Err <==> msw_of(d) <= 0,
        r is Err ==> r->Err_0 == DecoError::InputOutOfRange,
        r is Ok ==> r->Ok_0 == spec_depth_idx(msw_of(d)),
{
    let depth: i64 = d.to_msw().0;
    if depth <= 0 {
        return Err(DecoError::InputOutOfRange);
    }
    let steps: u64 = ((depth as u64) + (DINC as u64) - 1) / (DINC as u64);
    if steps > usize::MAX as u64 {
        Ok(usize::MAX)
    } else {
        Ok(steps as usize)
    }
}

/// The row of the table of M-values that lies at the depth `depth`
/// (millionths of a metre of sea water): row 0 is for depths down to one
/// depth increment, each next row for one increment more. A depth at or
/// above the surface has none, nor has one under the last row.
pub open spec fn spec_stop_row(depth: int) -> Option<int> {
    if depth > 0 && spec_depth_idx(depth) - 1 < NUM_STOP_DEPTHS {
        Some(spec_depth_idx(depth) - 1)
    } else {
        None
    }
}

/// The row of the table of M-values that the linear-exponential law reads at
/// the depth `depth` (millionths of a metre of sea water): the row with the
/// number of the depth on the stop grid. A depth at or above the surface has
/// none, nor has one whose number lies beyond the table.
pub open spec fn spec_row_idx(depth: int) -> Option<int> {
    if depth > 0 && spec_depth_idx(depth) < NUM_STOP_DEPTHS {
        Some(spec_depth_idx(depth))
    } else {
        None
    }
}

/// The row of the table of M-values that lies at the depth `d`.
pub fn get_stop_row<P: Pressure>(d: P) -> (r: Result<usize, DecoError>)
    ensures
        r is Ok <==> spec_stop_row(msw_of(d)) is Some,
        r is Err ==> r->Err_0 == DecoError::InputOutOfRange,
        r is Ok ==> r->Ok_0 == spec_stop_row(msw_of(d))->Some_0,
{
    match get_depth_idx(d) {
        Ok(idx) => {
            if idx >= 1 && idx - 1 < NUM_STOP_DEPTHS {
                Ok(idx - 1)
            } else {
                Err(DecoError::InputOutOfRange)
            }
        },
        Err(e) => Err(e),
    }
}

/// The row of the table of M-values that the linear-exponential law reads at
/// the depth `d`.
pub fn get_row_idx<P: Pressure>(d: P) -> (r: Result<usize, DecoError>)
    ensures
        r is Ok <==> spec_row_idx(msw_of(d)) is Some,
        r is Err ==> r->Err_0 == DecoError::InputOutOfRange,
        r is Ok ==> r->Ok_0 == spec_row_idx(msw_of(d))->Some_0,
{
    match get_depth_idx(d) {
        Ok(idx) => {
            if idx < NUM_STOP_DEPTHS {
                Ok(idx)
            } else {
                Err(DecoError::InputOutOfRange)
            }
        },
        Err(e) => Err(e),
    }
}

/// The time in milliseconds that an ascent through `meters` takes at
/// `max_ascent_rate` per minute.
pub fn get_ascent_time(meters: msw, max_ascent_rate: msw) -> (r: u64)
    requires
        max_ascent_rate.0 > 0,
    ensures
        r == spec_ascent_time(meters.0 as int, max_ascent_rate.0 as int),
{
    if meters.0 <= 0 {
        return 0;
    }
    proof {
        lemma_product_bound(
            meters.0 as int,
            MILLIS_PER_MINUTE as int,
            0x8000_0000_0000_0000,
            MILLIS_PER_MINUTE as int,
        );
        crate::fixed::lemma_round_div_sign(
            meters.0 * MILLIS_PER_MINUTE,
            max_ascent_rate.0 as int,
        );
    }
    let millis: i128 = div_round(
        (meters.0 as i128) * (MILLIS_PER_MINUTE as i128),
        max_ascent_rate.0 as i128,
    );
    if millis > u64::MAX as i128 {
        u64::MAX
    } else {
        millis as u64
    }
}

} // verus!
