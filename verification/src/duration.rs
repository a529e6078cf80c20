//! Fixed-point time durations: the `Duration` capability with its generic
//! unit-conversion algorithm, and the concrete variants `Seconds`,
//! `Milliseconds` and `Microseconds`.

use crate::arith::{gcd, lemma_trunc_div_exact, lemma_trunc_div_neg, lemma_trunc_div_reduced,
    trunc_div};
use crate::display::{display_count, spec_display};
use crate::integer::{IntTrait, Integer};
use crate::period::Period;
use vstd::arithmetic::div_mod::lemma_fundamental_div_mod;
use vstd::prelude::*;

verus! {

/// Numerator of the ratio `src / tgt` between two periods, before reduction.
pub open spec fn ratio_numer(src: Period, tgt: Period) -> int {
    src.numer * tgt.denom
}

/// Denominator of the ratio `src / tgt` between two periods, before
/// reduction.
pub open spec fn ratio_denom(src: Period, tgt: Period) -> int {
    src.denom * tgt.numer
}

/// Numerator of the ratio `src / tgt` reduced to lowest terms.
pub open spec fn reduced_numer(src: Period, tgt: Period) -> int {
    ratio_numer(src, tgt) / gcd(ratio_numer(src, tgt) as nat, ratio_denom(src, tgt) as nat) as int
}

/// Denominator of the ratio `src / tgt` reduced to lowest terms.
pub open spec fn reduced_denom(src: Period, tgt: Period) -> int {
    ratio_denom(src, tgt) / gcd(ratio_numer(src, tgt) as nat, ratio_denom(src, tgt) as nat) as int
}

/// The count a conversion from a variant with period `src` to a variant with
/// period `tgt` produces: the count scaled by the ratio of the two periods,
/// multiplying before dividing so that the one division truncates (toward
/// zero) as little as possible.
pub open spec fn conv_count(v: int, src: Period, tgt: Period) -> int {
    trunc_div(v * ratio_numer(src, tgt), ratio_denom(src, tgt))
}

/// When a conversion of count `v` from period `src` to period `tgt` stays
/// representable: the ratio parts fit the period's 32-bit parts, the reduced
/// ratio parts fit the storage type, and the one intermediate product fits
/// the storage type. The result then fits as well, since the division cannot
/// grow the magnitude.
pub open spec fn conv_fits<T: IntTrait>(v: int, src: Period, tgt: Period) -> bool {
    &&& ratio_numer(src, tgt) <= i32::MAX
    &&& ratio_denom(src, tgt) <= i32::MAX
    &&& reduced_numer(src, tgt) <= T::spec_max()
    &&& reduced_denom(src, tgt) <= T::spec_max()
    &&& T::spec_min() <= v * reduced_numer(src, tgt) <= T::spec_max()
}

/// The polymorphic duration capability: each concrete variant fixes a period
/// and stores one raw count, and the conversion between any two variants of
/// the same storage type is defined here, once.
pub trait Duration<T: IntTrait>: Sized {
    /// The period constant of the variant: seconds per one unit of the count.
    spec fn spec_period() -> Period;

    /// The raw count this value carries.
    spec fn spec_count(self) -> T;

    /// Every variant's period is well formed: both ratio parts are positive.
    proof fn period_wf()
        ensures
            Self::spec_period().wf(),
    ;

    /// Wraps a raw count; any representable count is accepted, negative ones
    /// included.
    fn new(value: T) -> (d: Self)
        ensures
            d.spec_count() == value,
    ;

    /// Unwraps the raw count.
    fn count(self) -> (r: T)
        ensures
            r == self.spec_count(),
    ;

    /// The period constant of the variant.
    fn period() -> (p: Period)
        ensures
            p == Self::spec_period(),
    ;

    /// The smallest representable count of the storage type.
    fn min_value() -> (r: T)
        ensures
            r.as_int() == T::spec_min(),
    {
        T::min_value()
    }

    /// The largest representable count of the storage type.
    fn max_value() -> (r: T)
        ensures
            r.as_int() == T::spec_max(),
    {
        T::max_value()
    }

    /// Renders the raw count as its decimal digits, with a leading minus sign
    /// for a negative count and no unit suffix.
    fn display(self) -> (s: String)
        ensures
            s@ == spec_display(self.spec_count().as_int()),
    {
        display_count(self.count())
    }
}

/// The one conversion algorithm every variant shares: divide the source
/// period by the target period, reduce the ratio, multiply the count by the
/// reduced numerator and divide by the reduced denominator, truncating toward
/// zero.
pub fn convert_dur<T: IntTrait, Src: Duration<T>, Tgt: Duration<T>>(other: Src) -> (r: Tgt)
    requires
        conv_fits::<T>(other.spec_count().as_int(), Src::spec_period(), Tgt::spec_period()),
    ensures
        r.spec_count().as_int() == conv_count(
            other.spec_count().as_int(),
            Src::spec_period(),
            Tgt::spec_period(),
        ),
{
    proof {
        Src::period_wf();
        Tgt::period_wf();
        let src = Src::spec_period();
        let tgt = Tgt::spec_period();
        assert(1 <= ratio_numer(src, tgt) && 1 <= ratio_denom(src, tgt)) by (nonlinear_arith)
            requires
                src.numer >= 1,
                src.denom >= 1,
                tgt.numer >= 1,
                tgt.denom >= 1,
        ;
        lemma_trunc_div_reduced(
            other.spec_count().as_int(),
            ratio_numer(src, tgt),
            ratio_denom(src, tgt),
        );
    }
    let p = Src::period().div(Tgt::period());
    Tgt::new(Integer(other.count()).mul(p).0)
}

/// A whole-unit count survives a round trip: converting from `src` to `tgt`
/// and back returns the original count whenever the forward scaling loses
/// nothing to truncation, in particular whenever the source unit is a whole
/// multiple of the target unit.
pub proof fn lemma_round_trip(v: int, src: Period, tgt: Period)
    requires
        src.wf(),
        tgt.wf(),
        (v * ratio_numer(src, tgt)) % ratio_denom(src, tgt) == 0,
    ensures
        conv_count(conv_count(v, src, tgt), tgt, src) == v,
{
    assert(1 <= ratio_numer(src, tgt) && 1 <= ratio_denom(src, tgt)) by (nonlinear_arith)
        requires
            src.numer >= 1,
            src.denom >= 1,
            tgt.numer >= 1,
            tgt.denom >= 1,
    ;
    let n = ratio_numer(src, tgt);
    let d = ratio_denom(src, tgt);
    let q = (v * n) / d;
    lemma_fundamental_div_mod(v * n, d);
    assert(v * n == d * q);
    // With no remainder, the truncated forward quotient is the exact one.
    assert(conv_count(v, src, tgt) == q) by {
        if v * n >= 0 {
        } else {
            vstd::arithmetic::div_mod::lemma_div_multiples_vanish(-q, d);
            assert(-(v * n) == d * (-q)) by (nonlinear_arith)
                requires
                    v * n == d * q,
            ;
        }
    }
    // The reverse ratio swaps numerator and denominator.
    assert(ratio_numer(tgt, src) == ratio_denom(src, tgt)) by (nonlinear_arith);
    assert(ratio_denom(tgt, src) == ratio_numer(src, tgt)) by (nonlinear_arith);
    assert(q * d == v * n) by (nonlinear_arith)
        requires
            v * n == d * q,
    ;
    lemma_trunc_div_exact(v, n);
    assert(conv_count(q, tgt, src) == trunc_div(q * d, n));
    assert(trunc_div(q * d, n) == trunc_div(v * n, n));
}

/// A count of whole seconds survives the round trip through milliseconds
/// unchanged, whatever the count: scaling up to the finer unit multiplies by
/// a whole factor and loses nothing, so scaling back down recovers the
/// original exactly.
pub proof fn lemma_seconds_millis_round_trip(v: int)
    ensures
        conv_count(
            conv_count(v, (Period { numer: 1, denom: 1 }), (Period { numer: 1, denom: 1000 })),
            (Period { numer: 1, denom: 1000 }),
            (Period { numer: 1, denom: 1 }),
        ) == v,
{
    let sec = Period { numer: 1, denom: 1 };
    let ms = Period { numer: 1, denom: 1000 };
    assert((v * ratio_numer(sec, ms)) % ratio_denom(sec, ms) == 0) by {
        lemma_fundamental_div_mod(v * ratio_numer(sec, ms), 1);
    }
    lemma_round_trip(v, sec, ms);
}

/// `from_dur` and `into_dur` agree: for one source count and one pair of
/// periods, both contracts fix the converted count to `conv_count`, so any
/// result of `from_dur` equals any result of `into_dur` for the same
/// conversion.
pub proof fn lemma_conversion_symmetry(
    v: int,
    src: Period,
    tgt: Period,
    from_result: int,
    into_result: int,
)
    requires
        from_result == conv_count(v, src, tgt),
        into_result == conv_count(v, src, tgt),
    ensures
        from_result == into_result,
{
}

/// Conversion is consistent for negative counts: scaling a negated count
/// negates the scaled count, because the one division truncates toward zero,
/// symmetrically around it.
pub proof fn lemma_conversion_negation(v: int, src: Period, tgt: Period)
    requires
        src.wf(),
        tgt.wf(),
    ensures
        conv_count(-v, src, tgt) == -conv_count(v, src, tgt),
{
    assert(1 <= ratio_numer(src, tgt) && 1 <= ratio_denom(src, tgt)) by (nonlinear_arith)
        requires
            src.numer >= 1,
            src.denom >= 1,
            tgt.numer >= 1,
            tgt.denom >= 1,
    ;
    let n = ratio_numer(src, tgt);
    let d = ratio_denom(src, tgt);
    assert((-v) * n == -(v * n)) by (nonlinear_arith);
    lemma_trunc_div_neg(v * n, d);
}

/// A duration counted in whole seconds.
#[derive(Copy, Clone, Eq, PartialEq, Debug)]
pub struct Seconds<T: IntTrait>(pub T);

impl<T: IntTrait> Duration<T> for Seconds<T> {
    open spec fn spec_period() -> Period {
        Period { numer: 1, denom: 1 }
    }

    open spec fn spec_count(self) -> T {
        self.0
    }

    proof fn period_wf() {
    }

    fn new(value: T) -> Self {
        Seconds(value)
    }

    fn count(self) -> T {
        self.0
    }

    fn period() -> Period {
        Period::new_raw(1, 1)
    }
}

/// A duration counted in whole milliseconds.
#[derive(Copy, Clone, Eq, PartialEq, Debug)]
pub struct Milliseconds<T: IntTrait>(pub T);

impl<T: IntTrait> Duration<T> for Milliseconds<T> {
    open spec fn spec_period() -> Period {
        Period { numer: 1, denom: 1000 }
    }

    open spec fn spec_count(self) -> T {
        self.0
    }

    proof fn period_wf() {
    }

    fn new(value: T) -> Self {
        Milliseconds(value)
    }

    fn count(self) -> T {
        self.0
    }

    fn period() -> Period {
        Period::new_raw(1, 1000)
    }
}

/// A duration counted in whole microseconds.
#[derive(Copy, Clone, Eq, PartialEq, Debug)]
pub struct Microseconds<T: IntTrait>(pub T);

impl<T: IntTrait> Duration<T> for Microseconds<T> {
    open spec fn spec_period() -> Period {
        Period { numer: 1, denom: 1000000 }
    }

    open spec fn spec_count(self) -> T {
        self.0
    }

    proof fn period_wf() {
    }

    fn new(value: T) -> Self {
        Microseconds(value)
    }

    fn count(self) -> T {
        self.0
    }

    fn period() -> Period {
        Period::new_raw(1, 1000000)
    }
}

impl<T: IntTrait> Seconds<T> {
    /// Converts a value of any variant into this one, scaling its count by
    /// the ratio of the two periods and truncating toward zero.
    pub fn from_dur<U: Duration<T>>(other: U) -> (r: Self)
        requires
            conv_fits::<T>(other.spec_count().as_int(), U::spec_period(), Self::spec_period()),
        ensures
            r.0.as_int() == conv_count(
                other.spec_count().as_int(),
                U::spec_period(),
                Self::spec_period(),
            ),
    {
        convert_dur::<T, U, Self>(other)
    }

    /// The mirror image of `from_dur`: converts this value into any variant,
    /// scaling by the same ratio of source period over target period, so the
    /// two entry points agree on every input.
    pub fn into_dur<U: Duration<T>>(self) -> (r: U)
        requires
            conv_fits::<T>(self.0.as_int(), Self::spec_period(), U::spec_period()),
        ensures
            r.spec_count().as_int() == conv_count(
                self.0.as_int(),
                Self::spec_period(),
                U::spec_period(),
            ),
    {
        convert_dur::<T, Self, U>(self)
    }

    /// Same-unit addition: the counts add elementwise.
    pub fn add(self, rhs: Self) -> (r: Self)
        requires
            T::spec_min() <= self.0.as_int() + rhs.0.as_int() <= T::spec_max(),
        ensures
            r.0.as_int() == self.0.as_int() + rhs.0.as_int(),
    {
        Seconds(self.0.add(rhs.0))
    }

    /// Same-unit subtraction: the counts subtract elementwise.
    pub fn sub(self, rhs: Self) -> (r: Self)
        requires
            T::spec_min() <= self.0.as_int() - rhs.0.as_int() <= T::spec_max(),
        ensures
            r.0.as_int() == self.0.as_int() - rhs.0.as_int(),
    {
        Seconds(self.0.sub(rhs.0))
    }
}

impl<T: IntTrait> Milliseconds<T> {
    /// Converts a value of any variant into this one, scaling its count by
    /// the ratio of the two periods and truncating toward zero.
    pub fn from_dur<U: Duration<T>>(other: U) -> (r: Self)
        requires
            conv_fits::<T>(other.spec_count().as_int(), U::spec_period(), Self::spec_period()),
        ensures
            r.0.as_int() == conv_count(
                other.spec_count().as_int(),
                U::spec_period(),
                Self::spec_period(),
            ),
    {
        convert_dur::<T, U, Self>(other)
    }

    /// The mirror image of `from_dur`: converts this value into any variant,
    /// scaling by the same ratio of source period over target period, so the
    /// two entry points agree on every input.
    pub fn into_dur<U: Duration<T>>(self) -> (r: U)
        requires
            conv_fits::<T>(self.0.as_int(), Self::spec_period(), U::spec_period()),
        ensures
            r.spec_count().as_int() == conv_count(
                self.0.as_int(),
                Self::spec_period(),
                U::spec_period(),
            ),
    {
        convert_dur::<T, Self, U>(self)
    }

    /// Same-unit subtraction: the counts subtract elementwise.
    pub fn sub(self, rhs: Self) -> (r: Self)
        requires
            T::spec_min() <= self.0.as_int() - rhs.0.as_int() <= T::spec_max(),
        ensures
            r.0.as_int() == self.0.as_int() - rhs.0.as_int(),
    {
        Milliseconds(self.0.sub(rhs.0))
    }
}

impl<T: IntTrait> Microseconds<T> {
    /// Converts a value of any variant into this one, scaling its count by
    /// the ratio of the two periods and truncating toward zero.
    pub fn from_dur<U: Duration<T>>(other: U) -> (r: Self)
        requires
            conv_fits::<T>(other.spec_count().as_int(), U::spec_period(), Self::spec_period()),
        ensures
            r.0.as_int() == conv_count(
                other.spec_count().as_int(),
                U::spec_period(),
                Self::spec_period(),
            ),
    {
        convert_dur::<T, U, Self>(other)
    }

    /// The mirror image of `from_dur`: converts this value into any variant,
    /// scaling by the same ratio of source period over target period, so the
    /// two entry points agree on every input.
    pub fn into_dur<U: Duration<T>>(self) -> (r: U)
        requires
            conv_fits::<T>(self.0.as_int(), Self::spec_period(), U::spec_period()),
        ensures
            r.spec_count().as_int() == conv_count(
                self.0.as_int(),
                Self::spec_period(),
                U::spec_period(),
            ),
    {
        convert_dur::<T, Self, U>(self)
    }
}

} // verus!
