//! Properties that relate the formulas of several filter types or branches.
use vstd::prelude::*;
use crate::biquad::{
    Params, spec_boost_section, spec_coefficients, spec_inverse, spec_k, spec_k2,
    spec_resonance, spec_section, spec_shelf_gain_term, spec_symmetric, spec_v,
};
use crate::expr::{abs, gain_only_by_magnitude, num, over, sqrt, times, Expr};
use crate::filter::{Branch, Type, spec_is_gain_bearing};

verus! {

/// The low-pass, high-pass, band-pass and notch types share one
/// denominator: for the same parameters their feedback coefficients `b1`
/// and `b2` are the same formulas, whatever branch is passed.
pub proof fn lemma_pass_types_share_feedback(t: Type, b: Branch, c: Branch)
    requires
        !spec_is_gain_bearing(t),
    ensures
        spec_coefficients(t, b).b1 == spec_coefficients(Type::LowPass, c).b1,
        spec_coefficients(t, b).b2 == spec_coefficients(Type::LowPass, c).b2,
{
}

/// For a peaking or shelving type, the cut branch exchanges the roles of
/// the boost branch's numerator and denominator: the cut normalizes by the
/// boost numerator's leading term and feeds back the boost numerator's
/// terms, while its feed-forward terms are the boost denominator's.
pub proof fn lemma_cut_inverts_boost(t: Type)
    requires
        spec_is_gain_bearing(t),
    ensures
        ({
            let s = spec_boost_section(t);
            let boost_norm = over(num(1), s.den.c0);
            let cut_norm = over(num(1), s.num.c0);
            &&& spec_section(t, Branch::Cut) == spec_inverse(spec_section(t, Branch::Boost))
            &&& spec_coefficients(t, Branch::Boost) == (Params {
                a0: times(s.num.c0, boost_norm),
                a1: times(s.num.c1, boost_norm),
                a2: times(s.num.c2, boost_norm),
                b1: times(s.den.c1, boost_norm),
                b2: times(s.den.c2, boost_norm),
            })
            &&& spec_coefficients(t, Branch::Cut) == (Params {
                a0: times(s.den.c0, cut_norm),
                a1: times(s.den.c1, cut_norm),
                a2: times(s.den.c2, cut_norm),
                b1: times(s.num.c1, cut_norm),
                b2: times(s.num.c2, cut_norm),
            })
        }),
{
}

proof fn lemma_binary(a: Expr, b: Expr)
    requires
        gain_only_by_magnitude(a),
        gain_only_by_magnitude(b),
    ensures
        gain_only_by_magnitude(crate::expr::plus(a, b)),
        gain_only_by_magnitude(crate::expr::minus(a, b)),
        gain_only_by_magnitude(times(a, b)),
        gain_only_by_magnitude(over(a, b)),
{
}

proof fn lemma_common_terms()
    ensures
        gain_only_by_magnitude(spec_k()),
        gain_only_by_magnitude(spec_k2()),
        gain_only_by_magnitude(spec_v()),
        gain_only_by_magnitude(spec_shelf_gain_term()),
{
    assert(gain_only_by_magnitude(Expr::Fc));
    assert(gain_only_by_magnitude(Expr::Fs));
    assert(gain_only_by_magnitude(Expr::Pi));
    lemma_binary(Expr::Fc, Expr::Fs);
    lemma_binary(Expr::Pi, over(Expr::Fc, Expr::Fs));
    lemma_binary(spec_k(), spec_k());
    assert(gain_only_by_magnitude(num(10)));
    assert(gain_only_by_magnitude(num(20)));
    assert(gain_only_by_magnitude(num(2)));
    assert(gain_only_by_magnitude(abs(Expr::GainDb)));
    lemma_binary(abs(Expr::GainDb), num(20));
    assert(gain_only_by_magnitude(spec_v()));
    lemma_binary(num(2), spec_v());
    assert(gain_only_by_magnitude(sqrt(times(num(2), spec_v()))));
    lemma_binary(sqrt(times(num(2), spec_v())), spec_k());
}

proof fn lemma_symmetric(c: Expr, x: Expr, y: Expr)
    requires
        gain_only_by_magnitude(c),
        gain_only_by_magnitude(x),
        gain_only_by_magnitude(y),
    ensures
        ({
            let s = spec_symmetric(c, x, y);
            gain_only_by_magnitude(s.c0) && gain_only_by_magnitude(s.c1)
                && gain_only_by_magnitude(s.c2)
        }),
{
    assert(gain_only_by_magnitude(num(2)));
    lemma_binary(c, x);
    lemma_binary(crate::expr::plus(c, x), y);
    lemma_binary(y, c);
    lemma_binary(num(2), crate::expr::minus(y, c));
    lemma_binary(crate::expr::minus(c, x), y);
}

/// Every coefficient formula reads the gain only as `|gain_db|`, so on a
/// given branch the formulas are the same for a gain of `g` and of `-g`:
/// the gain's sign acts only by choosing the branch.
pub proof fn lemma_gain_enters_by_magnitude(t: Type, b: Branch)
    ensures
        ({
            let p = spec_coefficients(t, b);
            &&& gain_only_by_magnitude(p.a0)
            &&& gain_only_by_magnitude(p.a1)
            &&& gain_only_by_magnitude(p.a2)
            &&& gain_only_by_magnitude(p.b1)
            &&& gain_only_by_magnitude(p.b2)
        }),
{
    lemma_common_terms();
    assert(gain_only_by_magnitude(num(0)));
    assert(gain_only_by_magnitude(num(1)));
    assert(gain_only_by_magnitude(num(2)));
    assert(gain_only_by_magnitude(Expr::Q));
    lemma_binary(spec_k(), Expr::Q);
    lemma_symmetric(num(1), over(spec_k(), Expr::Q), spec_k2());
    let d = spec_resonance();
    lemma_binary(num(1), d.c0);
    let n = over(num(1), d.c0);
    lemma_binary(spec_k2(), n);
    lemma_binary(num(2), times(spec_k2(), n));
    assert(gain_only_by_magnitude(crate::expr::neg(num(2))));
    lemma_binary(crate::expr::neg(num(2)), n);
    lemma_binary(over(spec_k(), Expr::Q), n);
    assert(gain_only_by_magnitude(crate::expr::neg(times(over(spec_k(), Expr::Q), n))));
    lemma_binary(num(1), spec_k2());
    lemma_binary(crate::expr::plus(num(1), spec_k2()), n);
    lemma_binary(d.c1, n);
    lemma_binary(d.c2, n);
    if spec_is_gain_bearing(t) {
        assert(gain_only_by_magnitude(sqrt(num(2))));
        lemma_binary(sqrt(num(2)), spec_k());
        lemma_binary(spec_v(), Expr::Q);
        lemma_binary(over(spec_v(), Expr::Q), spec_k());
        lemma_binary(num(1), Expr::Q);
        lemma_binary(over(num(1), Expr::Q), spec_k());
        lemma_binary(spec_v(), spec_k());
        lemma_binary(times(spec_v(), spec_k()), spec_k());
        lemma_symmetric(num(1), times(over(spec_v(), Expr::Q), spec_k()), spec_k2());
        lemma_symmetric(num(1), times(over(num(1), Expr::Q), spec_k()), spec_k2());
        lemma_symmetric(
            num(1),
            spec_shelf_gain_term(),
            times(times(spec_v(), spec_k()), spec_k()),
        );
        lemma_symmetric(num(1), times(sqrt(num(2)), spec_k()), spec_k2());
        lemma_symmetric(spec_v(), spec_shelf_gain_term(), spec_k2());
        let s = spec_section(t, b);
        lemma_binary(num(1), s.den.c0);
        let m = over(num(1), s.den.c0);
        lemma_binary(s.num.c0, m);
        lemma_binary(s.num.c1, m);
        lemma_binary(s.num.c2, m);
        lemma_binary(s.den.c1, m);
        lemma_binary(s.den.c2, m);
    }
}

} // verus!
