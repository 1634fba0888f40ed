//! The tissue compartments of the model and the table of the highest gas
//! tensions that each of them bears at each stop depth.
use vstd::prelude::*;
use crate::fixed::{div_round, lemma_product_bound, round_div, ONE};
use crate::pressure_unit::{fsw, msw, pa_of, Pa, Pressure};
use crate::setup::DINC;

verus! {

/// Number of tissue compartments of the model.
pub const NUM_TISSUES: usize = 5;

/// Number of stop depths that the table has a row for.
pub const NUM_STOP_DEPTHS: usize = 32;

/// The natural logarithm of two, in units of 10^-12.
pub const LN_2: i64 = 693_147_180_560;

/// Largest rate constant of a compartment, in units of 10^-12 per minute.
pub const RATE_LIMIT: i64 = 1_000_000_000_000_000;

/// Largest half-time and largest ratio of a compartment, in units of 10^-12.
pub const TISSUE_LIMIT: i64 = 1_000_000_000_000_000_000;

/// The rate constant, in units of 10^-12 per minute, of a compartment with
/// half-time `half_time` (units of 10^-12 minutes) and
/// saturation/desaturation ratio `sdr` (units of 10^-12): ln 2 divided by the
/// half-time, times the ratio.
pub open spec fn rate_of(half_time: int, sdr: int) -> int {
    round_div(LN_2 * sdr, half_time)
}

/// A half-time and a ratio make a compartment: both are positive and the
/// rate constant they give is at least one step and within `RATE_LIMIT`.
pub open spec fn tissue_values_ok(half_time: int, sdr: int) -> bool {
    &&& 0 < half_time <= TISSUE_LIMIT
    &&& 0 < sdr <= TISSUE_LIMIT
    &&& 1 <= rate_of(half_time, sdr) <= RATE_LIMIT
}

/// A tissue compartment: its half-time in units of 10^-12 minutes and its
/// saturation/desaturation ratio in units of 10^-12.
#[derive(Copy, Clone, Debug)]
pub struct Tissue {
    half_time: i64,
    sdr: i64,
}

impl Tissue {
    #[verifier::type_invariant]
    pub closed spec fn wf(self) -> bool {
        tissue_values_ok(self.half_time as int, self.sdr as int)
    }

    pub closed spec fn spec_half_time(self) -> int {
        self.half_time as int
    }

    pub closed spec fn spec_sdr(self) -> int {
        self.sdr as int
    }

    /// The rate constant of the compartment, in units of 10^-12 per minute.
    pub open spec fn spec_rate(self) -> int {
        rate_of(self.spec_half_time(), self.spec_sdr())
    }

    /// The compartment with the given half-time and ratio, where the two make
    /// one.
    pub fn new(half_time: i64, sdr: i64) -> (r: Option<Tissue>)
        ensures
            r is Some <==> tissue_values_ok(half_time as int, sdr as int),
            r is Some ==> {
                &&& r->Some_0.wf()
                &&& r->Some_0.spec_half_time() == half_time
                &&& r->Some_0.spec_sdr() == sdr
            },
    {
        if half_time <= 0 || half_time > TISSUE_LIMIT || sdr <= 0 || sdr > TISSUE_LIMIT {
            return None;
        }
        proof {
            lemma_product_bound(LN_2 as int, sdr as int, LN_2 as int, TISSUE_LIMIT as int);
        }
        let rate: i128 = div_round((LN_2 as i128) * (sdr as i128), half_time as i128);
        if rate < 1 || rate > RATE_LIMIT as i128 {
            return None;
        }
        Some(Tissue { half_time, sdr })
    }

    pub fn half_time(&self) -> (r: i64)
        ensures
            r == self.spec_half_time(),
    {
        self.half_time
    }

    pub fn sdr(&self) -> (r: i64)
        ensures
            r == self.spec_sdr(),
    {
        self.sdr
    }

    /// The rate constant of the compartment, in units of 10^-12 per minute.
    pub fn rate(&self) -> (k: i64)
        ensures
            k == self.spec_rate(),
            1 <= k <= RATE_LIMIT,
    {
        proof {
            use_type_invariant(self);
            lemma_product_bound(LN_2 as int, self.sdr as int, LN_2 as int, TISSUE_LIMIT as int);
        }
        div_round((LN_2 as i128) * (self.sdr as i128), self.half_time as i128) as i64
    }
}

/// One row of the table: a stop depth and, for each compartment, the highest
/// tension that the compartment bears there.
#[derive(Copy, Clone, Debug)]
pub struct TissueRow<const TISSUES: usize> {
    pub depth: msw,
    pub max_saturation: [Pa; TISSUES],
}

/// The table: one row for each stop depth, the shallowest first.
#[allow(non_camel_case_types)]
pub type MVALUES = [TissueRow<NUM_TISSUES>; NUM_STOP_DEPTHS];

/// The five compartments of the model: half-times of 10, 20, 20, 120 and 200
/// minutes with ratios of 1, 2, 0.67, 1 and 1.
pub fn tissues() -> (r: [Tissue; NUM_TISSUES])
    ensures
        are_model_tissues(r),
{
    [
        Tissue { half_time: 10_000_000_000_000, sdr: 1_000_000_000_000 },
        Tissue { half_time: 20_000_000_000_000, sdr: 2_000_000_000_000 },
        Tissue { half_time: 20_000_000_000_000, sdr: 670_000_000_000 },
        Tissue { half_time: 120_000_000_000_000, sdr: 1_000_000_000_000 },
        Tissue { half_time: 200_000_000_000_000, sdr: 1_000_000_000_000 },
    ]
}

/// The table XVAL-HE9-040 as it was published: for each stop depth from 3 to
/// 96 metres, five tensions in thousandths of a foot of sea water.
pub const XVAL_HE9_040_MFSW: [u32; 160] = [
    85_000, 64_000, 83_000, 41_731, 38_274,
    94_843, 73_843, 92_843, 61_416, 49_969,
    104_685, 83_685, 102_685, 81_101, 61_664,
    114_528, 93_528, 112_528, 100_786, 73_359,
    124_370, 103_370, 122_370, 120_471, 85_054,
    134_213, 113_213, 132_213, 140_156, 96_749,
    144_055, 123_055, 142_055, 159_841, 108_444,
    153_898, 132_898, 151_898, 179_526, 120_139,
    163_740, 142_740, 161_740, 199_211, 131_834,
    173_583, 152_583, 171_583, 218_896, 143_529,
    183_425, 162_425, 181_425, 238_581, 155_224,
    193_268, 172_268, 191_268, 258_266, 166_919,
    203_110, 182_110, 201_110, 277_951, 178_614,
    212_953, 191_953, 210_953, 297_637, 190_309,
    222_795, 201_795, 220_795, 317_322, 202_004,
    232_638, 211_638, 230_638, 337_007, 213_699,
    242_480, 221_480, 240_480, 356_692, 225_394,
    252_323, 231_323, 250_323, 376_377, 237_089,
    262_165, 241_165, 260_165, 396_062, 248_784,
    272_008, 251_008, 270_008, 415_747, 260_479,
    281_850, 260_850, 279_850, 435_432, 272_173,
    291_693, 270_693, 289_693, 455_117, 283_868,
    301_535, 280_535, 299_535, 474_802, 295_563,
    311_378, 290_378, 309_378, 494_487, 307_258,
    321_220, 300_220, 319_220, 514_172, 318_953,
    331_063, 310_063, 329_063, 533_857, 330_648,
    340_906, 319_906, 338_906, 553_542, 342_343,
    350_748, 329_748, 348_748, 573_227, 354_038,
    360_591, 339_591, 358_591, 592_912, 365_733,
    370_433, 349_433, 368_433, 612_597, 377_428,
    380_276, 359_276, 378_276, 632_282, 389_123,
    390_118, 369_118, 388_118, 651_967, 400_818,
];

/// Depth of row `row` of the table, in millionths of a metre of sea water.
pub open spec fn table_depth(row: int) -> int {
    DINC * (row + 1)
}

/// The tension that compartment `tissue` bears at row `row` of XVAL-HE9-040,
/// in millionths of a pascal, absolute.
pub open spec fn xval_max_saturation(row: int, tissue: int) -> int {
    pa_of(fsw((XVAL_HE9_040_MFSW[row * NUM_TISSUES + tissue] * 1000) as i64))
}

/// The rows of `m_values` lie at the depths of the table's grid: row 0 at one
/// depth increment, each next row one increment deeper.
pub open spec fn on_grid(m_values: MVALUES) -> bool {
    forall|row: int| 0 <= row < NUM_STOP_DEPTHS ==> (#[trigger] m_values[row]).depth.0 == table_depth(row)
}

/// `m_values` is the table XVAL-HE9-040 as it was published.
pub open spec fn is_xval_he9_040(m_values: MVALUES) -> bool {
    &&& on_grid(m_values)
    &&& forall|row: int, tissue: int|
        0 <= row < NUM_STOP_DEPTHS && 0 <= tissue < NUM_TISSUES ==> (
        #[trigger] m_values[row].max_saturation[tissue]).0 == xval_max_saturation(row, tissue)
}

/// `tissues` holds the five compartments of the model.
pub open spec fn are_model_tissues(tissues: [Tissue; NUM_TISSUES]) -> bool {
    &&& forall|i: int| 0 <= i < NUM_TISSUES ==> (#[trigger] tissues[i]).wf()
    &&& tissues[0].spec_half_time() == 10 * ONE && tissues[0].spec_sdr() == ONE
    &&& tissues[1].spec_half_time() == 20 * ONE && tissues[1].spec_sdr() == 2 * ONE
    &&& tissues[2].spec_half_time() == 20 * ONE && tissues[2].spec_sdr() == 670_000_000_000
    &&& tissues[3].spec_half_time() == 120 * ONE && tissues[3].spec_sdr() == ONE
    &&& tissues[4].spec_half_time() == 200 * ONE && tissues[4].spec_sdr() == ONE
}

/// The table XVAL-HE9-040, in absolute pressure.
pub fn xval_he9_040() -> (r: MVALUES)
    ensures
        is_xval_he9_040(r),
{
    let blank: TissueRow<NUM_TISSUES> = TissueRow { depth: msw(0), max_saturation: [Pa(0);NUM_TISSUES] };
    let mut table: MVALUES = [blank;NUM_STOP_DEPTHS];
    let mut row: usize = 0;
    while row < NUM_STOP_DEPTHS
        invariant
            row <= NUM_STOP_DEPTHS,
            forall|j: int| 0 <= j < row ==> (#[trigger] table[j]).depth.0 == table_depth(j),
            forall|j: int, t: int|
                0 <= j < row && 0 <= t < NUM_TISSUES ==> (#[trigger] table[j].max_saturation[t]).0
                    == xval_max_saturation(j, t),
        decreases NUM_STOP_DEPTHS - row,
    {
        let mut tensions: [Pa; NUM_TISSUES] = [Pa(0);NUM_TISSUES];
        let mut tissue: usize = 0;
        while tissue < NUM_TISSUES
            invariant
                tissue <= NUM_TISSUES,
                row < NUM_STOP_DEPTHS,
                forall|t: int|
                    0 <= t < tissue ==> (#[trigger] tensions[t]).0 == xval_max_saturation(row as int, t),
            decreases NUM_TISSUES - tissue,
        {
            let published: u32 = XVAL_HE9_040_MFSW[row * NUM_TISSUES + tissue];
            tensions[tissue] = fsw((published as i64) * 1000).to_pa();
            tissue = tissue + 1;
        }
        table[row] = TissueRow { depth: msw(DINC * (row as i64 + 1)), max_saturation: tensions };
        row = row + 1;
    }
    table
}

} // verus!
