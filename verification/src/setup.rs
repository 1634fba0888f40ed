//! The constants of the stop grid and the choice of the table of M-values.
use vstd::prelude::*;
use crate::mptt::{is_xval_he9_040, on_grid, xval_he9_040, xval_max_saturation, TissueRow};
pub use crate::mptt::{MVALUES, NUM_STOP_DEPTHS, NUM_TISSUES};
use crate::pressure_unit::Pa;

verus! {

/// Depth increment between two stops, in millionths of a metre of sea water.
pub const DINC: i64 = 3_000_000;

/// Depth of the last stop under the last-stop policy, in millionths of a
/// metre of sea water.
pub const LAST_STOP: i64 = 6_000_000;

/// State of the model besides the tissue loading. It holds nothing yet.
#[derive(Debug, Clone, Copy, PartialEq, Eq, Structural)]
pub struct ModelState {}

/// Row of the table that takes the surfacing values under the last-stop
/// policy.
pub open spec fn last_stop_row() -> int {
    LAST_STOP as int / DINC as int
}

/// The tension that `set_m(mode)` holds for compartment `tissue` in row
/// `row`. Mode 1 is the last-stop policy: the row of the last stop takes the
/// values of row 0 and the rows above it hold zero. Every other mode leaves
/// the published table as it is.
pub open spec fn set_m_max_saturation(mode: u8, row: int, tissue: int) -> int {
    if mode != 1 || last_stop_row() <= 1 {
        xval_max_saturation(row, tissue)
    } else if row < last_stop_row() {
        0
    } else if row == last_stop_row() {
        xval_max_saturation(0, tissue)
    } else {
        xval_max_saturation(row, tissue)
    }
}

/// The table of M-values for `mode`.
pub fn set_m(mode: u8) -> (r: MVALUES)
    ensures
        on_grid(r),
        mode != 1 ==> is_xval_he9_040(r),
        forall|row: int, tissue: int|
            0 <= row < NUM_STOP_DEPTHS && 0 <= tissue < NUM_TISSUES ==> (
            #[trigger] r[row].max_saturation[tissue]).0 == set_m_max_saturation(mode, row, tissue),
{
    let published: MVALUES = xval_he9_040();
    if mode != 1 {
        return published;
    }
    let idx: i64 = LAST_STOP / DINC;
    if idx <= 1 {
        return published;
    }
    let idx: usize = idx as usize;
    let mut result: MVALUES = published;
    result[idx] = TissueRow {
        depth: published[idx].depth,
        max_saturation: published[0].max_saturation,
    };
    let mut i: usize = 0;
    while i < idx
        invariant
            i <= idx,
            idx == last_stop_row(),
            idx < NUM_STOP_DEPTHS,
            forall|row: int|
                0 <= row < NUM_STOP_DEPTHS ==> (#[trigger] result[row]).depth == published[row].depth,
            forall|row: int, tissue: int|
                0 <= row < i && 0 <= tissue < NUM_TISSUES ==> (
                #[trigger] result[row].max_saturation[tissue]).0 == 0,
            forall|row: int|
                i <= row < NUM_STOP_DEPTHS && row != idx ==> (#[trigger] result[row])
                    == published[row],
            result[idx as int].max_saturation == published[0].max_saturation,
        decreases idx - i,
    {
        result[i] = TissueRow { depth: result[i].depth, max_saturation: [Pa(0);NUM_TISSUES] };
        i = i + 1;
    }
    result
}

/// Prepares a dive profile. There is nothing to prepare yet.
pub fn initialize_profile() {
}

/// The state of the model at the start of a dive.
pub fn initialize_model_state() -> (r: ModelState)
    ensures
        r == (ModelState {  }),
{
    ModelState {  }
}

} // verus!
