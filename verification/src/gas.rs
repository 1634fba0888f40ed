//! Breathing gases: what they are made of, what each part presses at a depth,
//! how dense they are there, and which of several is best to breathe.
use vstd::prelude::*;
use crate::error::DecoError;
use crate::fixed::{div_round, lemma_product_bound, round_div, saturate, saturate_i64, ONE};
use crate::pressure_unit::{bar_of, signed_round_div, Bar, Pressure};

verus! {

/// Place of nitrogen where the two inert gases are told apart by index.
pub const N2_IDX: usize = 0;

/// Place of helium where the two inert gases are told apart by index.
pub const HE_IDX: usize = 1;

/// Highest oxygen pressure while working on a rebreather, in millionths of a
/// bar.
pub const MAX_PO2_CCR_WORKING: i64 = 1_300_000;

/// Highest oxygen pressure while working, in millionths of a bar.
pub const MAX_PO2_WORKING: i64 = 1_400_000;

/// Highest oxygen pressure while decompressing on a rebreather, in millionths
/// of a bar.
pub const MAX_O2_CCR_DECO: i64 = 1_500_000;

/// Highest oxygen pressure while decompressing, in millionths of a bar.
pub const MAX_PO2_DECO: i64 = 1_600_000;

/// Highest oxygen pressure of a diluent, in millionths of a bar.
pub const MAX_O2_DILUENT: i64 = 1_100_000;

/// Density of oxygen at one bar, in units of 10^-12 kg/m^3.
pub const DENSITY_O2: i64 = 1_430_000_000_000;

/// Density of nitrogen at one bar, in units of 10^-12 kg/m^3.
pub const DENSITY_N2: i64 = 1_250_600_000_000;

/// Density of helium at one bar, in units of 10^-12 kg/m^3.
pub const DENSITY_HE: i64 = 178_500_000_000;

/// Density of hydrogen at one bar, in units of 10^-12 kg/m^3.
pub const DENSITY_H2: i64 = 89_900_000_000;

/// Density of air at one bar, in units of 10^-12 kg/m^3.
pub const DENSITY_AIR: i64 = 1_205_000_000_000;

/// Recommended ceiling of the gas density, in millionths of a bar.
pub const MAX_GAS_DENSITY: i64 = 5_200_000;

/// Hard ceiling of the gas density, in millionths of a bar.
pub const MAX_GAS_DENSITY_LIMIT: i64 = 6_200_000;

/// A pressure multiplied by a dimensionless factor: the part of `pressure`
/// that falls to the fraction `factor`.
pub open spec fn scaled(pressure: int, factor: int) -> int {
    saturate(round_div(pressure * factor, ONE as int))
}

/// The part of a pressure that is not negative is not negative, for a
/// fraction that is not.
pub proof fn lemma_scaled_sign(pressure: int, factor: int)
    requires
        pressure >= 0,
        factor >= 0,
    ensures
        scaled(pressure, factor) >= 0,
{
    assert(pressure * factor >= 0) by (nonlinear_arith)
        requires
            pressure >= 0,
            factor >= 0,
    ;
    crate::fixed::lemma_round_div_sign(pressure * factor, ONE as int);
}

/// The sum of four density terms, each addition saturating.
pub open spec fn density_sum(o2: int, n2: int, he: int, h2: int) -> int {
    saturate(saturate(saturate(o2 + n2) + he) + h2)
}

/// What every breathing gas can say of itself at an absolute pressure.
pub trait Gas {
    /// Partial pressure of oxygen, in millionths of a bar.
    spec fn spec_po2(&self, depth: Bar) -> int;

    /// Partial pressure of nitrogen, in millionths of a bar.
    spec fn spec_pn2(&self, depth: Bar) -> int;

    /// Partial pressure of helium, in millionths of a bar.
    spec fn spec_phe(&self, depth: Bar) -> int;

    /// Partial pressure of hydrogen, in millionths of a bar.
    spec fn spec_ph2(&self, depth: Bar) -> int;

    fn po2(&self, depth: Bar) -> (r: Bar)
        ensures
            r.0 == self.spec_po2(depth),
    ;

    fn pn2(&self, depth: Bar) -> (r: Bar)
        ensures
            r.0 == self.spec_pn2(depth),
    ;

    fn phe(&self, depth: Bar) -> (r: Bar)
        ensures
            r.0 == self.spec_phe(depth),
    ;

    fn ph2(&self, depth: Bar) -> (r: Bar)
        ensures
            r.0 == self.spec_ph2(depth),
    ;

    fn pn2_phe_ph2(&self, depth: Bar) -> (r: (Bar, Bar, Bar))
        ensures
            r.0.0 == self.spec_pn2(depth),
            r.1.0 == self.spec_phe(depth),
            r.2.0 == self.spec_ph2(depth),
    ;

    fn o2_density(&self, depth: Bar) -> (r: Bar)
        ensures
            r.0 == scaled(self.spec_po2(depth), DENSITY_O2 as int),
    {
        self.po2(depth).scale(DENSITY_O2)
    }

    fn n2_density(&self, depth: Bar) -> (r: Bar)
        ensures
            r.0 == scaled(self.spec_pn2(depth), DENSITY_N2 as int),
    {
        self.pn2(depth).scale(DENSITY_N2)
    }

    fn he_density(&self, depth: Bar) -> (r: Bar)
        ensures
            r.0 == scaled(self.spec_phe(depth), DENSITY_HE as int),
    {
        self.phe(depth).scale(DENSITY_HE)
    }

    fn h2_density(&self, depth: Bar) -> (r: Bar)
        ensures
            r.0 == scaled(self.spec_ph2(depth), DENSITY_H2 as int),
    {
        self.ph2(depth).scale(DENSITY_H2)
    }

    /// Density of the gas at `depth`: the sum over its four parts of partial
    /// pressure times density at one bar.
    fn gas_density(&self, depth: Bar) -> (r: Bar)
        ensures
            r.0 == density_sum(
                scaled(self.spec_po2(depth), DENSITY_O2 as int),
                scaled(self.spec_pn2(depth), DENSITY_N2 as int),
                scaled(self.spec_phe(depth), DENSITY_HE as int),
                scaled(self.spec_ph2(depth), DENSITY_H2 as int),
            ),
    {
        self.o2_density(depth).plus(self.n2_density(depth)).plus(self.he_density(depth)).plus(
            self.h2_density(depth),
        )
    }
}

/// An open-circuit gas mix, given by its fractions of oxygen, helium and
/// hydrogen; nitrogen is what is left. A fraction counts units of 10^-12.
#[derive(Debug, Clone, Copy)]
pub struct GasMix {
    o2: u64,
    he: u64,
    h2: u64,
}

impl GasMix {
    /// The three fractions that are stored add up to no more than one.
    #[verifier::type_invariant]
    pub closed spec fn wf(self) -> bool {
        self.o2 + self.he + self.h2 <= ONE
    }

    /// Fraction of oxygen.
    pub closed spec fn spec_fo2(self) -> int {
        self.o2 as int
    }

    /// Fraction of helium.
    pub closed spec fn spec_fhe(self) -> int {
        self.he as int
    }

    /// Fraction of hydrogen.
    pub closed spec fn spec_fh2(self) -> int {
        self.h2 as int
    }

    /// Fraction of nitrogen: what the other three leave.
    pub open spec fn spec_fn2(self) -> int {
        ONE - (self.spec_fo2() + self.spec_fhe() + self.spec_fh2())
    }

    /// The four fractions of a mix are none of them negative and add up to
    /// exactly one.
    pub proof fn lemma_composition(self)
        requires
            self.wf(),
        ensures
            self.spec_fo2() + self.spec_fn2() + self.spec_fhe() + self.spec_fh2() == ONE,
            0 <= self.spec_fo2() <= ONE,
            0 <= self.spec_fn2() <= ONE,
            0 <= self.spec_fhe() <= ONE,
            0 <= self.spec_fh2() <= ONE,
    {
    }

    /// A mix of oxygen, helium and nitrogen. It is refused when the two
    /// fractions given add up to more than one.
    pub fn new(o2: u64, he: u64) -> (r: Result<GasMix, DecoError>)
        ensures
            r is Ok <==> o2 + he <= ONE,
            r is Err ==> r->Err_0 == DecoError::GasComposition,
            r is Ok ==> {
                &&& r->Ok_0.wf()
                &&& r->Ok_0.spec_fo2() == o2
                &&& r->Ok_0.spec_fhe() == he
                &&& r->Ok_0.spec_fh2() == 0
            },
    {
        if o2 > ONE as u64 || he > ONE as u64 - o2 {
            return Err(DecoError::GasComposition);
        }
        Ok(GasMix { o2, he, h2: 0 })
    }

    pub fn fo2(&self) -> (r: u64)
        ensures
            r == self.spec_fo2(),
            r <= ONE,
    {
        proof {
            use_type_invariant(self);
        }
        self.o2
    }

    pub fn fn2(&self) -> (r: u64)
        ensures
            r == self.spec_fn2(),
            r <= ONE,
    {
        proof {
            use_type_invariant(self);
        }
        ONE as u64 - (self.o2 + self.he + self.h2)
    }

    pub fn fhe(&self) -> (r: u64)
        ensures
            r == self.spec_fhe(),
            r <= ONE,
    {
        proof {
            use_type_invariant(self);
        }
        self.he
    }

    pub fn fh2(&self) -> (r: u64)
        ensures
            r == self.spec_fh2(),
            r <= ONE,
    {
        proof {
            use_type_invariant(self);
        }
        self.h2
    }
}

/// Air: 21 % oxygen and the trace of helium that keeps density ratios
/// defined.
pub fn air() -> (r: GasMix)
    ensures
        r.wf(),
        r.spec_fo2() == 210_000_000_000,
        r.spec_fhe() == 5_200_000,
        r.spec_fh2() == 0,
{
    GasMix { o2: 210_000_000_000, he: 5_200_000, h2: 0 }
}

impl Gas for GasMix {
    open spec fn spec_po2(&self, depth: Bar) -> int {
        scaled(depth.0 as int, self.spec_fo2())
    }

    open spec fn spec_pn2(&self, depth: Bar) -> int {
        scaled(depth.0 as int, self.spec_fn2())
    }

    open spec fn spec_phe(&self, depth: Bar) -> int {
        scaled(depth.0 as int, self.spec_fhe())
    }

    open spec fn spec_ph2(&self, depth: Bar) -> int {
        scaled(depth.0 as int, self.spec_fh2())
    }

    fn po2(&self, depth: Bar) -> (r: Bar) {
        depth.scale(self.fo2() as i64)
    }

    fn pn2(&self, depth: Bar) -> (r: Bar) {
        depth.scale(self.fn2() as i64)
    }

    fn phe(&self, depth: Bar) -> (r: Bar) {
        depth.scale(self.fhe() as i64)
    }

    fn ph2(&self, depth: Bar) -> (r: Bar) {
        depth.scale(self.fh2() as i64)
    }

    fn pn2_phe_ph2(&self, depth: Bar) -> (r: (Bar, Bar, Bar)) {
        (self.pn2(depth), self.phe(depth), self.ph2(depth))
    }
}

/// Pressure of one inert part of a rebreather loop: the share `fraction` of
/// the diluent's inert gas, stretched over what oxygen leaves of `depth`.
pub open spec fn loop_inert(depth: int, po2: int, fraction: int, fo2_diluent: int) -> int {
    if fo2_diluent >= ONE {
        0
    } else {
        saturate(round_div((depth - po2) * fraction, ONE - fo2_diluent))
    }
}

/// The gas in the loop of a closed-circuit rebreather: a diluent, and the
/// oxygen pressure that the loop is held at.
#[derive(Debug, Clone, Copy)]
pub struct CCRGas {
    diluent: GasMix,
    set_point: Bar,
}

impl CCRGas {
    pub closed spec fn spec_diluent(self) -> GasMix {
        self.diluent
    }

    pub closed spec fn spec_set_point(self) -> Bar {
        self.set_point
    }

    pub fn new(diluent: GasMix, set_point: Bar) -> (r: CCRGas)
        ensures
            r.spec_diluent() == diluent,
            r.spec_set_point() == set_point,
    {
        CCRGas { diluent, set_point }
    }

    pub fn diluent(&self) -> (r: GasMix)
        ensures
            r == self.spec_diluent(),
    {
        self.diluent
    }

    pub fn set_point(&self) -> (r: Bar)
        ensures
            r == self.spec_set_point(),
    {
        self.set_point
    }

    /// The four parts of the loop add up to the pressure in the loop, but
    /// for the rounding of the three inert parts.
    pub proof fn lemma_loop_adds_up(self, depth: Bar)
        requires
            self.spec_diluent().wf(),
            self.spec_diluent().spec_fo2() < ONE,
            self.spec_set_point().0 >= 0,
        ensures
            -1 <= self.spec_po2(depth) + self.spec_pn2(depth) + self.spec_phe(depth)
                + self.spec_ph2(depth) - depth.0 <= 1,
    {
        let diluent = self.spec_diluent();
        diluent.lemma_composition();
        let rest = depth.0 - self.spec_po2(depth);
        let share = ONE - diluent.spec_fo2();
        let (f1, f2, f3) = (diluent.spec_fn2(), diluent.spec_fhe(), diluent.spec_fh2());
        let x1 = round_div(rest * f1, share);
        let x2 = round_div(rest * f2, share);
        let x3 = round_div(rest * f3, share);
        crate::fixed::lemma_round_div_nearest(rest * f1, share);
        crate::fixed::lemma_round_div_nearest(rest * f2, share);
        crate::fixed::lemma_round_div_nearest(rest * f3, share);
        assert(0 <= rest * f1 <= rest * share && 0 <= rest * f2 <= rest * share && 0 <= rest * f3
            <= rest * share) by (nonlinear_arith)
            requires
                rest >= 0,
                0 <= f1 <= share,
                0 <= f2 <= share,
                0 <= f3 <= share,
        ;
        crate::fixed::lemma_round_div_between(rest * f1, share, 0, rest);
        crate::fixed::lemma_round_div_between(rest * f2, share, 0, rest);
        crate::fixed::lemma_round_div_between(rest * f3, share, 0, rest);
        assert(-1 <= x1 + x2 + x3 - rest <= 1) by (nonlinear_arith)
            requires
                -share <= 2 * (rest * f1 - share * x1) < share,
                -share <= 2 * (rest * f2 - share * x2) < share,
                -share <= 2 * (rest * f3 - share * x3) < share,
                f1 + f2 + f3 == share,
                share > 0,
        ;
    }

    /// One inert part of the loop at `depth`, for the diluent's fraction
    /// `fraction` of that gas.
    fn inert(&self, depth: Bar, fraction: u64) -> (r: Bar)
        requires
            fraction <= ONE,
        ensures
            r.0 == loop_inert(
                depth.0 as int,
                self.spec_po2(depth),
                fraction as int,
                self.spec_diluent().spec_fo2(),
            ),
    {
        let fo2: u64 = self.diluent.fo2();
        if fo2 >= ONE as u64 {
            return Bar(0);
        }
        let oxygen: Bar = self.po2(depth);
        let rest: i128 = (depth.0 as i128) - (oxygen.0 as i128);
        proof {
            lemma_product_bound(
                rest as int,
                fraction as int,
                0x1_0000_0000_0000_0000,
                ONE as int,
            );
        }
        let wide: i128 = rest * (fraction as i128);
        Bar(saturate_i64(div_round(wide, (ONE as i128) - (fo2 as i128))))
    }
}

impl Gas for CCRGas {
    open spec fn spec_po2(&self, depth: Bar) -> int {
        if depth.0 < self.spec_set_point().0 {
            depth.0 as int
        } else {
            self.spec_set_point().0 as int
        }
    }

    open spec fn spec_pn2(&self, depth: Bar) -> int {
        loop_inert(
            depth.0 as int,
            self.spec_po2(depth),
            self.spec_diluent().spec_fn2(),
            self.spec_diluent().spec_fo2(),
        )
    }

    open spec fn spec_phe(&self, depth: Bar) -> int {
        loop_inert(
            depth.0 as int,
            self.spec_po2(depth),
            self.spec_diluent().spec_fhe(),
            self.spec_diluent().spec_fo2(),
        )
    }

    open spec fn spec_ph2(&self, depth: Bar) -> int {
        loop_inert(
            depth.0 as int,
            self.spec_po2(depth),
            self.spec_diluent().spec_fh2(),
            self.spec_diluent().spec_fo2(),
        )
    }

    fn po2(&self, depth: Bar) -> (r: Bar) {
        if depth.0 < self.set_point.0 {
            depth
        } else {
            self.set_point
        }
    }

    fn pn2(&self, depth: Bar) -> (r: Bar) {
        self.inert(depth, self.diluent.fn2())
    }

    fn phe(&self, depth: Bar) -> (r: Bar) {
        self.inert(depth, self.diluent.fhe())
    }

    fn ph2(&self, depth: Bar) -> (r: Bar) {
        self.inert(depth, self.diluent.fh2())
    }

    fn pn2_phe_ph2(&self, depth: Bar) -> (r: (Bar, Bar, Bar)) {
        (self.pn2(depth), self.phe(depth), self.ph2(depth))
    }
}

/// What the tissues hold of the two inert gases, compartment by compartment.
#[derive(Debug, Clone, Copy)]
pub struct TissuesLoading<const NUM_TISSUES: usize, P: Pressure> {
    pub n2: [P; NUM_TISSUES],
    pub he: [P; NUM_TISSUES],
}

impl<const NUM_TS: usize, P: Pressure> TissuesLoading<NUM_TS, P> {
    /// Compartment `i` would take up nitrogen and give off helium on a gas
    /// whose nitrogen presses `pn2` and whose helium presses `phe`.
    pub open spec fn counterdiffusion_at(self, i: int, pn2: int, phe: int) -> bool {
        bar_of(self.n2[i]) < pn2 && bar_of(self.he[i]) > phe
    }

    /// Some compartment would take up nitrogen and give off helium on
    /// `new_gas` at `depth`.
    pub open spec fn spec_is_isobaric_counterdiffusion<G: Gas>(self, depth: Bar, new_gas: G) -> bool {
        exists|i: int|
            0 <= i < NUM_TS && #[trigger] self.counterdiffusion_at(
                i,
                new_gas.spec_pn2(depth),
                new_gas.spec_phe(depth),
            )
    }

    /// No compartment holds less than nothing of a gas.
    pub open spec fn non_negative(self) -> bool {
        &&& forall|i: int| 0 <= i < NUM_TS ==> (#[trigger] self.n2[i]).micro() >= 0
        &&& forall|i: int| 0 <= i < NUM_TS ==> (#[trigger] self.he[i]).micro() >= 0
    }

    /// The loading of tissues that have come to rest on `breathing_gas` at
    /// the pressure `ambient`.
    pub fn new(ambient: P, breathing_gas: &GasMix) -> (r: TissuesLoading<NUM_TS, P>)
        ensures
            ambient.micro() >= 0 ==> r.non_negative(),
            forall|i: int|
                0 <= i < NUM_TS ==> (#[trigger] r.n2[i]).micro() == scaled(
                    ambient.micro(),
                    breathing_gas.spec_fn2(),
                ),
            forall|i: int|
                0 <= i < NUM_TS ==> (#[trigger] r.he[i]).micro() == scaled(
                    ambient.micro(),
                    breathing_gas.spec_fhe(),
                ),
    {
        let nitrogen: P = ambient.scale(breathing_gas.fn2() as i64);
        let helium: P = ambient.scale(breathing_gas.fhe() as i64);
        proof {
            if ambient.micro() >= 0 {
                lemma_scaled_sign(ambient.micro(), breathing_gas.spec_fn2());
                lemma_scaled_sign(ambient.micro(), breathing_gas.spec_fhe());
            }
        }
        TissuesLoading { n2: [nitrogen;NUM_TS], he: [helium;NUM_TS] }
    }

    /// Whether a change to `new_gas` at `depth` would bring isobaric
    /// counterdiffusion: nitrogen rising while helium falls in one
    /// compartment.
    pub fn is_isobaric_counterdiffusion<D: Pressure, G: Gas>(&self, depth: D, new_gas: &G) -> (r:
        bool)
        ensures
            r == self.spec_is_isobaric_counterdiffusion(Bar(bar_of(depth) as i64), *new_gas),
    {
        let at: Bar = depth.to_bar();
        let new_gas_n2: Bar = new_gas.pn2(at);
        let new_gas_he: Bar = new_gas.phe(at);
        let mut i: usize = 0;
        while i < NUM_TS
            invariant
                i <= NUM_TS,
                at == Bar(bar_of(depth) as i64),
                new_gas_n2.0 == new_gas.spec_pn2(at),
                new_gas_he.0 == new_gas.spec_phe(at),
                forall|j: int|
                    0 <= j < i ==> !#[trigger] self.counterdiffusion_at(
                        j,
                        new_gas_n2.0 as int,
                        new_gas_he.0 as int,
                    ),
            decreases NUM_TS - i,
        {
            if self.n2[i].to_bar().0 < new_gas_n2.0 && self.he[i].to_bar().0 > new_gas_he.0 {
                assert(self.counterdiffusion_at(i as int, new_gas_n2.0 as int, new_gas_he.0 as int));
                return true;
            }
            i = i + 1;
        }
        false
    }

    /// The change to `new_gas` at `depth` is accepted unless it would bring
    /// isobaric counterdiffusion.
    pub fn check_gas_switch<D: Pressure, G: Gas>(&self, depth: D, new_gas: &G) -> (r: Result<
        (),
        DecoError,
    >)
        ensures
            r is Err <==> self.spec_is_isobaric_counterdiffusion(
                Bar(bar_of(depth) as i64),
                *new_gas,
            ),
            r is Err ==> r->Err_0 == DecoError::IcdPrecondition,
    {
        if self.is_isobaric_counterdiffusion(depth, new_gas) {
            Err(DecoError::IcdPrecondition)
        } else {
            Ok(())
        }
    }
}

/// The largest fraction of oxygen that stays under `max_po2` at a pressure of
/// `depth` millionths of a bar.
pub open spec fn spec_best_mix_fo2(max_po2: int, depth: int) -> int {
    saturate(signed_round_div(max_po2 * ONE, depth))
}

/// The largest fraction of oxygen that may be breathed at `depth` without
/// its pressure passing `max_po2`; `None` at an absolute pressure of zero.
pub fn best_mix_fo2<P: Pressure>(max_po2: Bar, depth: P) -> (r: Option<i64>)
    ensures
        r is None <==> bar_of(depth) == 0,
        r is Some ==> r->Some_0 == spec_best_mix_fo2(max_po2.0 as int, bar_of(depth)),
{
    max_po2.ratio(depth.to_bar())
}

/// Whether the density of the breathing gas is looked at, and the ceiling it
/// is held to.
#[derive(Debug, Clone, Copy)]
pub enum GasDensitySettings {
    Ignore,
    Limit { limit: Bar },
}

impl GasDensitySettings {
    /// `gas` at `depth` is under the ceiling, or there is none.
    pub open spec fn spec_no_violation(self, depth: Bar, gas: GasMix) -> bool {
        match self {
            GasDensitySettings::Ignore => true,
            GasDensitySettings::Limit { limit } => density_sum(
                scaled(gas.spec_po2(depth), DENSITY_O2 as int),
                scaled(gas.spec_pn2(depth), DENSITY_N2 as int),
                scaled(gas.spec_phe(depth), DENSITY_HE as int),
                scaled(gas.spec_ph2(depth), DENSITY_H2 as int),
            ) < limit.0,
        }
    }

    pub fn no_violation<P: Pressure>(&self, depth: P, gas: &GasMix) -> (r: bool)
        ensures
            r == self.spec_no_violation(Bar(bar_of(depth) as i64), *gas),
    {
        match self {
            GasDensitySettings::Ignore => true,
            GasDensitySettings::Limit { limit } => gas.gas_density(depth.to_bar()).0 < limit.0,
        }
    }
}

/// `gas` may be breathed at `depth`: its oxygen stays under `best_fo2`, it
/// brings no isobaric counterdiffusion unless that is ignored, and it is not
/// too dense.
pub open spec fn mix_qualifies<const NUM_TS: usize, P: Pressure>(
    gas: GasMix,
    best_fo2: int,
    depth: Bar,
    loading: TissuesLoading<NUM_TS, P>,
    ignore_isobaric_counterdiffusion: bool,
    gas_density: GasDensitySettings,
) -> bool {
    &&& gas.spec_fo2() <= best_fo2
    &&& (ignore_isobaric_counterdiffusion || !loading.spec_is_isobaric_counterdiffusion(depth, gas))
    &&& gas_density.spec_no_violation(depth, gas)
}

/// `a` is preferred to `b` or as good: it holds more oxygen, or as much
/// oxygen and no less helium.
pub open spec fn mix_not_worse(a: GasMix, b: GasMix) -> bool {
    a.spec_fo2() > b.spec_fo2() || (a.spec_fo2() == b.spec_fo2() && a.spec_fhe() >= b.spec_fhe())
}

/// The best of `available_gases` to breathe at `depth`, with its place in the
/// list: among the gases that qualify, the one with the most oxygen, then the
/// most helium, then the last in the list. `None` when no gas qualifies, or
/// at an absolute pressure of zero.
pub fn best_available_mix<'a, D: Pressure, P: Pressure, const G: usize, const NUM_TS: usize>(
    max_po2: Bar,
    depth: D,
    available_gases: &'a [GasMix; G],
    tissue_loading: &TissuesLoading<NUM_TS, P>,
    ignore_isobaric_counterdiffusion: bool,
    gas_density: &GasDensitySettings,
) -> (r: Option<(usize, &'a GasMix)>)
    ensures
        bar_of(depth) == 0 ==> r is None,
        bar_of(depth) != 0 ==> (r is None <==> forall|j: int|
            0 <= j < G ==> !mix_qualifies(
                #[trigger] available_gases[j],
                spec_best_mix_fo2(max_po2.0 as int, bar_of(depth)),
                Bar(bar_of(depth) as i64),
                *tissue_loading,
                ignore_isobaric_counterdiffusion,
                *gas_density,
            )),
        r is Some ==> {
            let k = r->Some_0.0 as int;
            &&& 0 <= k < G
            &&& *r->Some_0.1 == available_gases[k]
            &&& mix_qualifies(
                available_gases[k],
                spec_best_mix_fo2(max_po2.0 as int, bar_of(depth)),
                Bar(bar_of(depth) as i64),
                *tissue_loading,
                ignore_isobaric_counterdiffusion,
                *gas_density,
            )
            &&& forall|j: int|
                0 <= j < G && mix_qualifies(
                    #[trigger] available_gases[j],
                    spec_best_mix_fo2(max_po2.0 as int, bar_of(depth)),
                    Bar(bar_of(depth) as i64),
                    *tissue_loading,
                    ignore_isobaric_counterdiffusion,
                    *gas_density,
                ) ==> mix_not_worse(available_gases[k], available_gases[j]) && (j > k
                    ==> !mix_not_worse(available_gases[j], available_gases[k]))
        },
{
    let best_fo2: i64 = match best_mix_fo2(max_po2, depth) {
        Some(fraction) => fraction,
        None => {
            return None;
        },
    };
    let ghost depth_bar = Bar(bar_of(depth) as i64);
    let mut best: Option<usize> = None;
    let mut i: usize = 0;
    while i < G
        invariant
            i <= G,
            bar_of(depth) != 0,
            depth_bar == Bar(bar_of(depth) as i64),
            best_fo2 == spec_best_mix_fo2(max_po2.0 as int, bar_of(depth)),
            best is None ==> forall|j: int|
                0 <= j < i ==> !mix_qualifies(
                    #[trigger] available_gases[j],
                    best_fo2 as int,
                    depth_bar,
                    *tissue_loading,
                    ignore_isobaric_counterdiffusion,
                    *gas_density,
                ),
            best is Some ==> {
                let k = best->Some_0 as int;
                &&& 0 <= k < i
                &&& mix_qualifies(
                    available_gases[k],
                    best_fo2 as int,
                    depth_bar,
                    *tissue_loading,
                    ignore_isobaric_counterdiffusion,
                    *gas_density,
                )
                &&& forall|j: int|
                    0 <= j < i && mix_qualifies(
                        #[trigger] available_gases[j],
                        best_fo2 as int,
                        depth_bar,
                        *tissue_loading,
                        ignore_isobaric_counterdiffusion,
                        *gas_density,
                    ) ==> mix_not_worse(available_gases[k], available_gases[j]) && (j > k
                        ==> !mix_not_worse(available_gases[j], available_gases[k]))
            },
        decreases G - i,
    {
        let gas: &GasMix = &available_gases[i];
        let qualifies: bool = gas.fo2() as i64 <= best_fo2 && (ignore_isobaric_counterdiffusion
            || !tissue_loading.is_isobaric_counterdiffusion(depth, gas))
            && gas_density.no_violation(depth, gas);
        if qualifies {
            match best {
                None => {
                    best = Some(i);
                },
                Some(k) => {
                    let held: &GasMix = &available_gases[k];
                    if gas.fo2() > held.fo2() || (gas.fo2() == held.fo2() && gas.fhe()
                        >= held.fhe()) {
                        best = Some(i);
                    }
                },
            }
        }
        i = i + 1;
    }
    match best {
        None => None,
        Some(k) => Some((k, &available_gases[k])),
    }
}

} // verus!
