//! Pressure quantities: one type for each unit, a scalar that counts
//! millionths of the unit, and conversions between all of them.
//!
//! Pa, hPa, kPa and bar are absolute. msw and fsw are relative to the
//! surface: their zero lies one atmosphere above the absolute zero.
use vstd::prelude::*;
use crate::fixed::{
    div_round, lemma_product_bound, lemma_round_div_nearest, round_div, saturate, saturate_i64,
    ONE,
};

verus! {

/// One millionth of a pascal, in steps of 10^-14 Pa.
pub const PA_STEP: i128 = 100_000_000;

/// One millionth of a hectopascal, in steps of 10^-14 Pa.
pub const HPA_STEP: i128 = 10_000_000_000;

/// One millionth of a kilopascal, in steps of 10^-14 Pa.
pub const KPA_STEP: i128 = 100_000_000_000;

/// One millionth of a bar, in steps of 10^-14 Pa.
pub const BAR_STEP: i128 = 10_000_000_000_000;

/// One millionth of a metre of sea water, in steps of 10^-14 Pa.
pub const MSW_STEP: i128 = 10_130_000_000_000;

/// One millionth of a foot of sea water, in steps of 10^-14 Pa.
pub const FSW_STEP: i128 = 306_430_593_138;

/// One atmosphere, the pressure at the surface, in steps of 10^-14 Pa.
pub const ATMOSPHERE: i128 = 10_130_000_000_000_000_000;

/// Largest magnitude of a scalar for which no conversion saturates.
pub const EXACT_LIMIT: i64 = 10_000_000_000_000;

/// The scalar, in the unit with step `to_step` and zero at `to_origin`, of
/// the pressure whose scalar is `x` in the unit with step `from_step` and zero
/// at `from_origin`.
pub open spec fn rescale(
    x: int,
    from_step: int,
    from_origin: int,
    to_step: int,
    to_origin: int,
) -> int {
    saturate(round_div(x * from_step + from_origin - to_origin, to_step))
}

/// The pressure in millionths of a pascal.
pub open spec fn pa_of<U: Unit>(x: U) -> int {
    rescale(x.micro(), U::step(), U::origin(), PA_STEP as int, 0)
}

/// The pressure in millionths of a bar.
pub open spec fn bar_of<U: Unit>(x: U) -> int {
    rescale(x.micro(), U::step(), U::origin(), BAR_STEP as int, 0)
}

/// The pressure in millionths of a metre of sea water.
pub open spec fn msw_of<U: Unit>(x: U) -> int {
    rescale(x.micro(), U::step(), U::origin(), MSW_STEP as int, ATMOSPHERE as int)
}

/// Rounded division by a divisor of either sign.
pub open spec fn signed_round_div(n: int, d: int) -> int {
    if d > 0 {
        round_div(n, d)
    } else {
        round_div(-n, -d)
    }
}

/// What a unit of pressure is made of.
pub trait Unit: Copy {
    /// Size of one millionth of the unit, in steps of 10^-14 Pa.
    spec fn step() -> int;

    /// Absolute pressure at the unit's zero, in steps of 10^-14 Pa.
    spec fn origin() -> int;

    /// The scalar: the pressure in millionths of the unit.
    spec fn micro(self) -> int;

    proof fn lemma_unit()
        ensures
            PA_STEP <= Self::step() <= MSW_STEP,
            0 <= Self::origin() <= ATMOSPHERE,
    ;

    fn step_size() -> (r: i128)
        ensures
            r == Self::step(),
    ;

    fn origin_offset() -> (r: i128)
        ensures
            r == Self::origin(),
    ;

    fn from_micro(v: i64) -> (r: Self)
        ensures
            r.micro() == v,
    ;

    fn to_micro(self) -> (r: i64)
        ensures
            r == self.micro(),
    ;
}

/// A pressure in unit `U`, expressed in unit `V`.
pub fn convert<U: Unit, V: Unit>(x: U) -> (r: V)
    ensures
        r.micro() == rescale(x.micro(), U::step(), U::origin(), V::step(), V::origin()),
{
    let scalar: i64 = x.to_micro();
    proof {
        U::lemma_unit();
        V::lemma_unit();
        lemma_product_bound(scalar as int, U::step(), 0x8000_0000_0000_0000, MSW_STEP as int);
    }
    let wide: i128 = (scalar as i128) * U::step_size() + U::origin_offset() - V::origin_offset();
    V::from_micro(saturate_i64(div_round(wide, V::step_size())))
}

/// The capabilities of every pressure quantity: conversion into each unit and
/// arithmetic that keeps the unit.
pub trait Pressure: Unit {
    fn to_pa(self) -> (r: Pa)
        ensures
            r.0 == pa_of(self),
    {
        convert::<Self, Pa>(self)
    }

    fn to_hpa(self) -> (r: hPa)
        ensures
            r.0 == rescale(self.micro(), Self::step(), Self::origin(), HPA_STEP as int, 0),
    {
        convert::<Self, hPa>(self)
    }

    fn to_kpa(self) -> (r: kPa)
        ensures
            r.0 == rescale(self.micro(), Self::step(), Self::origin(), KPA_STEP as int, 0),
    {
        convert::<Self, kPa>(self)
    }

    fn to_bar(self) -> (r: Bar)
        ensures
            r.0 == bar_of(self),
    {
        convert::<Self, Bar>(self)
    }

    fn to_msw(self) -> (r: msw)
        ensures
            r.0 == msw_of(self),
    {
        convert::<Self, msw>(self)
    }

    fn to_fsw(self) -> (r: fsw)
        ensures
            r.0 == rescale(
                self.micro(),
                Self::step(),
                Self::origin(),
                FSW_STEP as int,
                ATMOSPHERE as int,
            ),
    {
        convert::<Self, fsw>(self)
    }

    /// Sum of two quantities of one unit.
    fn plus(self, rhs: Self) -> (r: Self)
        ensures
            r.micro() == saturate(self.micro() + rhs.micro()),
    {
        let wide: i128 = (self.to_micro() as i128) + (rhs.to_micro() as i128);
        Self::from_micro(saturate_i64(wide))
    }

    /// Difference of two quantities of one unit.
    fn minus(self, rhs: Self) -> (r: Self)
        ensures
            r.micro() == saturate(self.micro() - rhs.micro()),
    {
        let wide: i128 = (self.to_micro() as i128) - (rhs.to_micro() as i128);
        Self::from_micro(saturate_i64(wide))
    }

    /// The quantity multiplied by a dimensionless scalar.
    fn scale(self, factor: i64) -> (r: Self)
        ensures
            r.micro() == saturate(round_div(self.micro() * factor, ONE as int)),
    {
        Self::from_micro(crate::fixed::mul_div(self.to_micro(), factor, ONE))
    }

    /// The quantity multiplied by a count.
    fn times(self, count: usize) -> (r: Self)
        ensures
            r.micro() == saturate(self.micro() * count),
    {
        let scalar: i64 = self.to_micro();
        proof {
            lemma_product_bound(
                scalar as int,
                count as int,
                0x8000_0000_0000_0000,
                0xffff_ffff_ffff_ffff,
            );
        }
        let wide: i128 = (scalar as i128) * (count as i128);
        Self::from_micro(saturate_i64(wide))
    }

    /// The quantity divided by a dimensionless scalar; `None` for a zero
    /// divisor.
    fn divided_by(self, divisor: i64) -> (r: Option<Self>)
        ensures
            r is None <==> divisor == 0,
            r is Some ==> r->Some_0.micro() == saturate(
                signed_round_div(self.micro() * ONE, divisor as int),
            ),
    {
        if divisor == 0 {
            return None;
        }
        let scalar: i64 = self.to_micro();
        proof {
            lemma_product_bound(
                scalar as int,
                ONE as int,
                0x8000_0000_0000_0000,
                ONE as int,
            );
        }
        let wide: i128 = (scalar as i128) * (ONE as i128);
        let quotient: i128 = if divisor > 0 {
            div_round(wide, divisor as i128)
        } else {
            div_round(-wide, -(divisor as i128))
        };
        Some(Self::from_micro(saturate_i64(quotient)))
    }

    /// The dimensionless quotient of two quantities of one unit; `None` for a
    /// zero divisor.
    fn ratio(self, rhs: Self) -> (r: Option<i64>)
        ensures
            r is None <==> rhs.micro() == 0,
            r is Some ==> r->Some_0 == saturate(
                signed_round_div(self.micro() * ONE, rhs.micro()),
            ),
    {
        let divisor: i64 = rhs.to_micro();
        if divisor == 0 {
            return None;
        }
        let scalar: i64 = self.to_micro();
        proof {
            lemma_product_bound(
                scalar as int,
                ONE as int,
                0x8000_0000_0000_0000,
                ONE as int,
            );
        }
        let wide: i128 = (scalar as i128) * (ONE as i128);
        let quotient: i128 = if divisor > 0 {
            div_round(wide, divisor as i128)
        } else {
            div_round(-wide, -(divisor as i128))
        };
        Some(saturate_i64(quotient))
    }
}

/// Pascal, absolute.
#[derive(Clone, Copy, Debug)]
pub struct Pa(pub i64);

/// Hectopascal, absolute.
#[allow(non_camel_case_types)]
#[derive(Clone, Copy, Debug)]
pub struct hPa(pub i64);

/// Kilopascal, absolute.
#[allow(non_camel_case_types)]
#[derive(Clone, Copy, Debug)]
pub struct kPa(pub i64);

/// Bar, absolute.
#[derive(Clone, Copy, Debug)]
pub struct Bar(pub i64);

/// Metre of sea water, relative to the surface.
#[allow(non_camel_case_types)]
#[derive(Clone, Copy, Debug)]
pub struct msw(pub i64);

/// Foot of sea water, relative to the surface.
#[allow(non_camel_case_types)]
#[derive(Clone, Copy, Debug)]
pub struct fsw(pub i64);

/// Millibar, the same unit as the hectopascal.
#[allow(non_camel_case_types)]
pub type mBar = hPa;

impl Pa {
    /// The pressure of `micro` millionths of a pascal.
    pub fn new(micro: i64) -> (r: Self)
        ensures
            r.0 == micro,
    {
        Pa(micro)
    }
}

impl Unit for Pa {
    open spec fn step() -> int {
        PA_STEP as int
    }

    open spec fn origin() -> int {
        0
    }

    open spec fn micro(self) -> int {
        self.0 as int
    }

    proof fn lemma_unit() {
    }

    fn step_size() -> (r: i128) {
        PA_STEP
    }

    fn origin_offset() -> (r: i128) {
        0
    }

    fn from_micro(v: i64) -> (r: Self) {
        Pa(v)
    }

    fn to_micro(self) -> (r: i64) {
        self.0
    }
}

impl Pressure for Pa {

}

impl hPa {
    /// The pressure of `micro` millionths of a hectopascal.
    pub fn new(micro: i64) -> (r: Self)
        ensures
            r.0 == micro,
    {
        hPa(micro)
    }
}

impl Unit for hPa {
    open spec fn step() -> int {
        HPA_STEP as int
    }

    open spec fn origin() -> int {
        0
    }

    open spec fn micro(self) -> int {
        self.0 as int
    }

    proof fn lemma_unit() {
    }

    fn step_size() -> (r: i128) {
        HPA_STEP
    }

    fn origin_offset() -> (r: i128) {
        0
    }

    fn from_micro(v: i64) -> (r: Self) {
        hPa(v)
    }

    fn to_micro(self) -> (r: i64) {
        self.0
    }
}

impl Pressure for hPa {

}

impl kPa {
    /// The pressure of `micro` millionths of a kilopascal.
    pub fn new(micro: i64) -> (r: Self)
        ensures
            r.0 == micro,
    {
        kPa(micro)
    }
}

impl Unit for kPa {
    open spec fn step() -> int {
        KPA_STEP as int
    }

    open spec fn origin() -> int {
        0
    }

    open spec fn micro(self) -> int {
        self.0 as int
    }

    proof fn lemma_unit() {
    }

    fn step_size() -> (r: i128) {
        KPA_STEP
    }

    fn origin_offset() -> (r: i128) {
        0
    }

    fn from_micro(v: i64) -> (r: Self) {
        kPa(v)
    }

    fn to_micro(self) -> (r: i64) {
        self.0
    }
}

impl Pressure for kPa {

}

impl Bar {
    /// The pressure of `micro` millionths of a bar.
    pub fn new(micro: i64) -> (r: Self)
        ensures
            r.0 == micro,
    {
        Bar(micro)
    }
}

impl Unit for Bar {
    open spec fn step() -> int {
        BAR_STEP as int
    }

    open spec fn origin() -> int {
        0
    }

    open spec fn micro(self) -> int {
        self.0 as int
    }

    proof fn lemma_unit() {
    }

    fn step_size() -> (r: i128) {
        BAR_STEP
    }

    fn origin_offset() -> (r: i128) {
        0
    }

    fn from_micro(v: i64) -> (r: Self) {
        Bar(v)
    }

    fn to_micro(self) -> (r: i64) {
        self.0
    }
}

impl Pressure for Bar {

}

impl msw {
    /// The depth of `micro` millionths of a metre of sea water.
    pub fn new(micro: i64) -> (r: Self)
        ensures
            r.0 == micro,
    {
        msw(micro)
    }
}

impl Unit for msw {
    open spec fn step() -> int {
        MSW_STEP as int
    }

    open spec fn origin() -> int {
        ATMOSPHERE as int
    }

    open spec fn micro(self) -> int {
        self.0 as int
    }

    proof fn lemma_unit() {
    }

    fn step_size() -> (r: i128) {
        MSW_STEP
    }

    fn origin_offset() -> (r: i128) {
        ATMOSPHERE
    }

    fn from_micro(v: i64) -> (r: Self) {
        msw(v)
    }

    fn to_micro(self) -> (r: i64) {
        self.0
    }
}

impl Pressure for msw {

}

impl fsw {
    /// The depth of `micro` millionths of a foot of sea water.
    pub fn new(micro: i64) -> (r: Self)
        ensures
            r.0 == micro,
    {
        fsw(micro)
    }
}

impl Unit for fsw {
    open spec fn step() -> int {
        FSW_STEP as int
    }

    open spec fn origin() -> int {
        ATMOSPHERE as int
    }

    open spec fn micro(self) -> int {
        self.0 as int
    }

    proof fn lemma_unit() {
    }

    fn step_size() -> (r: i128) {
        FSW_STEP
    }

    fn origin_offset() -> (r: i128) {
        ATMOSPHERE
    }

    fn from_micro(v: i64) -> (r: Self) {
        fsw(v)
    }

    fn to_micro(self) -> (r: i64) {
        self.0
    }
}

impl Pressure for fsw {

}

/// The scalar that comes back when a pressure of unit `U` is converted to
/// unit `V` and then to `U` again.
pub open spec fn round_trip<U: Unit, V: Unit>(x: U) -> int {
    rescale(
        rescale(x.micro(), U::step(), U::origin(), V::step(), V::origin()),
        V::step(),
        V::origin(),
        U::step(),
        U::origin(),
    )
}

/// Converting to another unit and back changes a pressure by no more than
/// half a step of each of the two units. A pressure of at least 10^5 such
/// half steps therefore comes back within one part in 10^5.
pub proof fn lemma_round_trip<U: Unit, V: Unit>(x: U)
    requires
        -EXACT_LIMIT <= x.micro() <= EXACT_LIMIT,
    ensures
        -(U::step() + V::step()) <= 2 * U::step() * (round_trip::<U, V>(x) - x.micro()) <= U::step()
            + V::step(),
        2 * U::step() * x.micro() >= 100_000 * (U::step() + V::step()) ==> 100_000 * (round_trip::<
            U,
            V,
        >(x) - x.micro()) <= x.micro() && 100_000 * (x.micro() - round_trip::<U, V>(x))
            <= x.micro(),
        2 * U::step() * x.micro() <= -100_000 * (U::step() + V::step()) ==> 100_000 * (
        round_trip::<U, V>(x) - x.micro()) <= -x.micro() && 100_000 * (x.micro() - round_trip::<
            U,
            V,
        >(x)) <= -x.micro(),
{
    U::lemma_unit();
    V::lemma_unit();
    let fu = U::step();
    let fv = V::step();
    let ou = U::origin();
    let ov = V::origin();
    let xs = x.micro();
    let a = xs * fu + ou - ov;
    let y = round_div(a, fv);
    lemma_round_div_nearest(a, fv);
    lemma_product_bound(xs, fu, EXACT_LIMIT as int, MSW_STEP as int);
    assert(-0x7000_0000_0000_0000 <= y <= 0x7000_0000_0000_0000) by (nonlinear_arith)
        requires
            -fv <= 2 * (a - fv * y) < fv,
            PA_STEP <= fv,
            -(EXACT_LIMIT * MSW_STEP) - ATMOSPHERE <= a <= EXACT_LIMIT * MSW_STEP + ATMOSPHERE,
    ;
    assert(saturate(y) == y);
    let b = y * fv + ov - ou;
    let z = round_div(b, fu);
    lemma_round_div_nearest(b, fu);
    assert(y * fv == fv * y) by (nonlinear_arith);
    assert(2 * fu * (z - xs) == 2 * (fu * z - b) + 2 * (fv * y - a)) by (nonlinear_arith)
        requires
            b == fv * y + ov - ou,
            a == xs * fu + ou - ov,
    ;
    assert(-(EXACT_LIMIT + MSW_STEP) <= z <= EXACT_LIMIT + MSW_STEP) by (nonlinear_arith)
        requires
            -(fu + fv) <= 2 * fu * (z - xs) <= fu + fv,
            PA_STEP <= fu <= MSW_STEP,
            PA_STEP <= fv <= MSW_STEP,
            -EXACT_LIMIT <= xs <= EXACT_LIMIT,
    ;
    assert(saturate(z) == z);
    assert(round_trip::<U, V>(x) == z);
    if 2 * fu * xs >= 100_000 * (fu + fv) {
        assert(100_000 * (z - xs) <= xs && 100_000 * (xs - z) <= xs) by (nonlinear_arith)
            requires
                -(fu + fv) <= 2 * fu * (z - xs) <= fu + fv,
                2 * fu * xs >= 100_000 * (fu + fv),
                fu > 0,
        ;
    }
    if 2 * fu * xs <= -100_000 * (fu + fv) {
        assert(100_000 * (z - xs) <= -xs && 100_000 * (xs - z) <= -xs) by (nonlinear_arith)
            requires
                -(fu + fv) <= 2 * fu * (z - xs) <= fu + fv,
                2 * fu * xs <= -100_000 * (fu + fv),
                fu > 0,
        ;
    }
}

} // verus!
