//! Coefficient derivation for the biquad responses.
//!
//! Every filter type is described by a formula for each of the five
//! recursion coefficients. The peaking and shelving types are stated as a
//! numerator and a denominator quadratic that are normalized by the
//! denominator's leading term; their cut branch is the boost branch with
//! numerator and denominator exchanged.
use vstd::prelude::*;
use crate::expr::{abs, neg, num, over, plus, minus, pow, sqrt, tan, times, Expr};
use crate::filter::{Branch, Type, spec_is_gain_bearing};

verus! {

/// The five coefficients of the direct-form-I recursion
/// `out = in*a0 + in_1*a1 + in_2*a2 - out_1*b1 - out_2*b2`.
#[derive(Clone, Copy, Debug, PartialEq)]
pub struct Params<T> {
    pub a0: T,
    pub a1: T,
    pub a2: T,
    pub b1: T,
    pub b2: T,
}

impl<T: Copy> Params<T> {
    /// The pass-through recursion: the output is the input, `a0 = one` and
    /// every other coefficient `zero`.
    pub fn identity(one: T, zero: T) -> (r: Self)
        ensures
            r == (Params { a0: one, a1: zero, a2: zero, b1: zero, b2: zero }),
    {
        Params { a0: one, a1: zero, a2: zero, b1: zero, b2: zero }
    }
}

/// A quadratic in the unit delay: `c0 + c1 z^-1 + c2 z^-2`.
#[derive(Debug)]
pub struct Quadratic {
    pub c0: Expr,
    pub c1: Expr,
    pub c2: Expr,
}

/// An unnormalized transfer function, numerator over denominator.
#[derive(Debug)]
pub struct Section {
    pub num: Quadratic,
    pub den: Quadratic,
}

/// `k = tan(pi * fc / fs)`.
pub open spec fn spec_k() -> Expr {
    tan(times(Expr::Pi, over(Expr::Fc, Expr::Fs)))
}

/// `k * k`.
pub open spec fn spec_k2() -> Expr {
    times(spec_k(), spec_k())
}

/// `v = 10 ^ (|gain_db| / 20)`.
pub open spec fn spec_v() -> Expr {
    pow(num(10), over(abs(Expr::GainDb), num(20)))
}

/// The quadratic `(c + x + y, 2 (y - c), c - x + y)` that every
/// denominator, and every gain-bearing numerator, takes.
pub open spec fn spec_symmetric(c: Expr, x: Expr, y: Expr) -> Quadratic {
    Quadratic {
        c0: plus(plus(c, x), y),
        c1: times(num(2), minus(y, c)),
        c2: plus(minus(c, x), y),
    }
}

/// The denominator shared by the low-pass, high-pass, band-pass and notch types.
pub open spec fn spec_resonance() -> Quadratic {
    spec_symmetric(num(1), over(spec_k(), Expr::Q), spec_k2())
}

/// The denominator of a boosting shelf.
pub open spec fn spec_shelf() -> Quadratic {
    spec_symmetric(num(1), times(sqrt(num(2)), spec_k()), spec_k2())
}

/// `sqrt(2 v) * k`.
pub open spec fn spec_shelf_gain_term() -> Expr {
    times(sqrt(times(num(2), spec_v())), spec_k())
}

/// The section of a gain-bearing type on its boost branch.
pub open spec fn spec_boost_section(t: Type) -> Section {
    match t {
        Type::Peak => Section {
            num: spec_symmetric(num(1), times(over(spec_v(), Expr::Q), spec_k()), spec_k2()),
            den: spec_symmetric(num(1), times(over(num(1), Expr::Q), spec_k()), spec_k2()),
        },
        Type::LowShelf => Section {
            num: spec_symmetric(
                num(1),
                spec_shelf_gain_term(),
                times(times(spec_v(), spec_k()), spec_k()),
            ),
            den: spec_shelf(),
        },
        _ => Section {
            num: spec_symmetric(spec_v(), spec_shelf_gain_term(), spec_k2()),
            den: spec_shelf(),
        },
    }
}

/// Numerator and denominator exchanged: the inverse response.
pub open spec fn spec_inverse(s: Section) -> Section {
    Section { num: s.den, den: s.num }
}

/// The section of a gain-bearing type on the given branch.
pub open spec fn spec_section(t: Type, b: Branch) -> Section {
    match b {
        Branch::Boost => spec_boost_section(t),
        Branch::Cut => spec_inverse(spec_boost_section(t)),
    }
}

/// `1 / d0`, the factor that makes the recursion's leading output term one.
pub open spec fn spec_norm(den: Quadratic) -> Expr {
    over(num(1), den.c0)
}

/// Every term of the section scaled by its normalization factor.
pub open spec fn spec_normalized(s: Section) -> Params<Expr> {
    let n = spec_norm(s.den);
    Params {
        a0: times(s.num.c0, n),
        a1: times(s.num.c1, n),
        a2: times(s.num.c2, n),
        b1: times(s.den.c1, n),
        b2: times(s.den.c2, n),
    }
}

/// The coefficient formulas of a filter type; the branch matters only for
/// the gain-bearing types.
pub open spec fn spec_coefficients(t: Type, b: Branch) -> Params<Expr> {
    let d = spec_resonance();
    let n = spec_norm(d);
    match t {
        Type::LowPass => Params {
            a0: times(spec_k2(), n),
            a1: times(num(2), times(spec_k2(), n)),
            a2: times(spec_k2(), n),
            b1: times(d.c1, n),
            b2: times(d.c2, n),
        },
        Type::HighPass => Params {
            a0: n,
            a1: times(neg(num(2)), n),
            a2: n,
            b1: times(d.c1, n),
            b2: times(d.c2, n),
        },
        Type::BandPass => Params {
            a0: times(over(spec_k(), Expr::Q), n),
            a1: num(0),
            a2: neg(times(over(spec_k(), Expr::Q), n)),
            b1: times(d.c1, n),
            b2: times(d.c2, n),
        },
        Type::Notch => Params {
            a0: times(plus(num(1), spec_k2()), n),
            a1: times(d.c1, n),
            a2: times(plus(num(1), spec_k2()), n),
            b1: times(d.c1, n),
            b2: times(d.c2, n),
        },
        _ => spec_normalized(spec_section(t, b)),
    }
}

fn k() -> (r: Expr)
    ensures
        r == spec_k(),
{
    Expr::Pi.times(Expr::Fc.over(Expr::Fs)).tangent()
}

fn k2() -> (r: Expr)
    ensures
        r == spec_k2(),
{
    k().times(k())
}

fn v() -> (r: Expr)
    ensures
        r == spec_v(),
{
    Expr::Num(10).raised_to(Expr::GainDb.magnitude().over(Expr::Num(20)))
}

fn symmetric(c: Expr, x: Expr, y: Expr) -> (r: Quadratic)
    ensures
        r == spec_symmetric(c, x, y),
{
    let c_mid = c.duplicate();
    let c_last = c.duplicate();
    let x_last = x.duplicate();
    let y_mid = y.duplicate();
    let y_last = y.duplicate();
    Quadratic {
        c0: c.plus(x).plus(y),
        c1: Expr::Num(2).times(y_mid.minus(c_mid)),
        c2: c_last.minus(x_last).plus(y_last),
    }
}

fn resonance() -> (r: Quadratic)
    ensures
        r == spec_resonance(),
{
    symmetric(Expr::Num(1), k().over(Expr::Q), k2())
}

fn shelf() -> (r: Quadratic)
    ensures
        r == spec_shelf(),
{
    symmetric(Expr::Num(1), Expr::Num(2).square_root().times(k()), k2())
}

fn shelf_gain_term() -> (r: Expr)
    ensures
        r == spec_shelf_gain_term(),
{
    Expr::Num(2).times(v()).square_root().times(k())
}

/// The unnormalized numerator and denominator of a peaking or shelving
/// filter on the given branch.
pub fn section(t: Type, b: Branch) -> (r: Section)
    requires
        spec_is_gain_bearing(t),
    ensures
        r == spec_section(t, b),
{
    let boost = match t {
        Type::Peak => Section {
            num: symmetric(Expr::Num(1), v().over(Expr::Q).times(k()), k2()),
            den: symmetric(Expr::Num(1), Expr::Num(1).over(Expr::Q).times(k()), k2()),
        },
        Type::LowShelf => Section {
            num: symmetric(Expr::Num(1), shelf_gain_term(), v().times(k()).times(k())),
            den: shelf(),
        },
        _ => Section { num: symmetric(v(), shelf_gain_term(), k2()), den: shelf() },
    };
    match b {
        Branch::Boost => boost,
        Branch::Cut => Section { num: boost.den, den: boost.num },
    }
}

fn norm(den_c0: &Expr) -> (r: Expr)
    ensures
        r == over(num(1), *den_c0),
{
    Expr::Num(1).over(den_c0.duplicate())
}

/// Scales every term of a section by `1 / d0`.
pub fn normalized(s: Section) -> (r: Params<Expr>)
    ensures
        r == spec_normalized(s),
{
    Params {
        a0: s.num.c0.times(norm(&s.den.c0)),
        a1: s.num.c1.times(norm(&s.den.c0)),
        a2: s.num.c2.times(norm(&s.den.c0)),
        b1: s.den.c1.times(norm(&s.den.c0)),
        b2: s.den.c2.times(norm(&s.den.c0)),
    }
}

/// The formulas of the five coefficients for a filter type and branch.
pub fn coefficients(t: Type, b: Branch) -> (r: Params<Expr>)
    ensures
        r == spec_coefficients(t, b),
{
    match t {
        Type::LowPass => {
            let d = resonance();
            Params {
                a0: k2().times(norm(&d.c0)),
                a1: Expr::Num(2).times(k2().times(norm(&d.c0))),
                a2: k2().times(norm(&d.c0)),
                b1: d.c1.times(norm(&d.c0)),
                b2: d.c2.times(norm(&d.c0)),
            }
        },
        Type::HighPass => {
            let d = resonance();
            Params {
                a0: norm(&d.c0),
                a1: Expr::Num(2).negated().times(norm(&d.c0)),
                a2: norm(&d.c0),
                b1: d.c1.times(norm(&d.c0)),
                b2: d.c2.times(norm(&d.c0)),
            }
        },
        Type::BandPass => {
            let d = resonance();
            Params {
                a0: k().over(Expr::Q).times(norm(&d.c0)),
                a1: Expr::Num(0),
                a2: k().over(Expr::Q).times(norm(&d.c0)).negated(),
                b1: d.c1.times(norm(&d.c0)),
                b2: d.c2.times(norm(&d.c0)),
            }
        },
        Type::Notch => {
            let d = resonance();
            Params {
                a0: Expr::Num(1).plus(k2()).times(norm(&d.c0)),
                a1: d.c1.duplicate().times(norm(&d.c0)),
                a2: Expr::Num(1).plus(k2()).times(norm(&d.c0)),
                b1: d.c1.times(norm(&d.c0)),
                b2: d.c2.times(norm(&d.c0)),
            }
        },
        _ => normalized(section(t, b)),
    }
}

} // verus!
