//! One Miller loop step each: move the running point, evaluate the lines at
//! the fixed point, and fold them into the accumulator.
use vstd::prelude::*;

use crate::fields::affine::Affine;
use crate::fields::fq::Fq;
use crate::fields::fq12::Fq12;
use crate::fields::fq2::Fq2;
use crate::fields::sparse::Fq12Sparse034;
use crate::pairing::line::{LineFn, PPre};
use crate::pairing::{
    bit_dbl_add_spec, bit_o_spec, correction_at_p_spec, dbl_add_at_p_spec, double_at_p_spec,
    last_spec,
};

verus! {

/// A doubling step, folded into `f`. `p` is the fixed point whose constants
/// `p_pre` holds.
pub fn step_double_to_f(acc: &mut Affine<Fq2>, f: &mut Fq12, p_pre: &PPre, p: &Affine<Fq>)
    ensures
        (final(acc)@, final(f)@) == bit_o_spec(old(acc)@, old(f)@, p_pre@),
{
    proof {
        reveal(bit_o_spec);
    }
    let l = step_double(acc, p_pre, p);
    *f = f.mul_034(&l);
}

/// A doubling step; returns its line evaluated at the fixed point.
pub fn step_double(acc: &mut Affine<Fq2>, p_pre: &PPre, p: &Affine<Fq>) -> (r: Fq12Sparse034)
    ensures
        (final(acc)@, r@) == double_at_p_spec(old(acc)@, p_pre@),
{
    let lf = LineFn::step_double(acc);
    lf.line_fn_at_p(p_pre)
}

/// A fused double-and-add step; returns both lines evaluated at the fixed point.
pub fn step_dbl_add(
    acc: &mut Affine<Fq2>,
    p_pre: &PPre,
    p: &Affine<Fq>,
    q: &Affine<Fq2>,
) -> (r: (Fq12Sparse034, Fq12Sparse034))
    ensures
        (final(acc)@, (r.0@, r.1@)) == dbl_add_at_p_spec(old(acc)@, q@, p_pre@),
{
    let (lf1, lf2) = LineFn::step_dbl_add(acc, q);
    (lf1.line_fn_at_p(p_pre), lf2.line_fn_at_p(p_pre))
}

/// A fused double-and-add step, folded into `f`.
pub fn step_dbl_add_to_f(
    acc: &mut Affine<Fq2>,
    f: &mut Fq12,
    p_pre: &PPre,
    p: &Affine<Fq>,
    q: &Affine<Fq2>,
)
    ensures
        (final(acc)@, final(f)@) == bit_dbl_add_spec(old(acc)@, old(f)@, p_pre@, q@),
{
    proof {
        reveal(bit_dbl_add_spec);
    }
    let (l1, l2) = step_dbl_add(acc, p_pre, p, q);
    *f = f.mul_01234(l1.mul_034_by_034(&l2));
}

/// The correction step; returns both lines evaluated at the fixed point.
pub fn correction_step(
    acc: &mut Affine<Fq2>,
    p_pre: &PPre,
    p: &Affine<Fq>,
    q: &Affine<Fq2>,
    pi_idx: [usize; 6],
) -> (r: (Fq12Sparse034, Fq12Sparse034))
    ensures
        (final(acc)@, (r.0@, r.1@)) == correction_at_p_spec(old(acc)@, q@, pi_idx@, p_pre@),
{
    let (lf1, lf2) = LineFn::correction_step(acc, q, pi_idx);
    (lf1.line_fn_at_p(p_pre), lf2.line_fn_at_p(p_pre))
}

/// The correction step, folded into `f`.
pub fn correction_step_to_f(
    acc: &mut Affine<Fq2>,
    f: &mut Fq12,
    p_pre: &PPre,
    p: &Affine<Fq>,
    q: &Affine<Fq2>,
    pi_idx: [usize; 6],
)
    ensures
        (final(acc)@, final(f)@) == last_spec(old(acc)@, old(f)@, p_pre@, q@, pi_idx@),
{
    proof {
        reveal(last_spec);
    }
    let (l1, l2) = correction_step(acc, p_pre, p, q, pi_idx);
    *f = f.mul_01234(l1.mul_034_by_034(&l2));
}

} // verus!
