//! The optimal ate pairing's Miller loop, built as circuits.
use vstd::prelude::*;

use crate::circuit::Expr;
use crate::fields::affine::neg_spec;
use crate::fields::fq12::{f12_mul_01234, f12_mul_034, F12};
use crate::fields::fq2::{Fq2, F2};
use crate::fields::sparse::{f12_mul_01234_01234, f12_mul_034_by_034, f12_sqr_034};
use crate::pairing::line::{
    correction_step_spec, line_at_p_spec, p_precompute_spec, step_dbl_add_spec, step_double_spec,
    P2,
};

pub mod line;
pub mod miller_utils;
pub mod precompute;
pub mod ate_miller;

verus! {

/// What a pairing precompute holds: the fixed point `p`, the point `q`, its
/// negation, and `p`'s derived constants `(-x/y, 1/y)`.
pub type PreV = ((Expr, Expr), P2, P2, (Expr, Expr));

pub open spec fn precompute_spec(p: (Expr, Expr), q: P2) -> PreV {
    (p, q, neg_spec::<Fq2>(q), p_precompute_spec(p))
}

/// A doubling step: the new point, and its tangent line evaluated at `p`.
pub open spec fn double_at_p_spec(acc: P2, ppc: (Expr, Expr)) -> (P2, (F2, F2)) {
    let (n, l) = step_double_spec(acc);
    (n, line_at_p_spec(l, ppc))
}

/// A fused double-and-add step: the new point, and both lines evaluated at `p`.
pub open spec fn dbl_add_at_p_spec(acc: P2, q: P2, ppc: (Expr, Expr)) -> (P2, ((F2, F2), (F2, F2))) {
    let (n, ls) = step_dbl_add_spec(acc, q);
    (n, (line_at_p_spec(ls.0, ppc), line_at_p_spec(ls.1, ppc)))
}

/// The correction step: the new point, and both lines evaluated at `p`.
pub open spec fn correction_at_p_spec(
    acc: P2,
    q: P2,
    pi: Seq<usize>,
    ppc: (Expr, Expr),
) -> (P2, ((F2, F2), (F2, F2))) {
    let (n, ls) = correction_step_spec(acc, q, pi);
    (n, (line_at_p_spec(ls.0, ppc), line_at_p_spec(ls.1, ppc)))
}

/// Digit 0: multiply in the doubling line.
#[verifier::opaque]
pub open spec fn bit_o_spec(acc: P2, f: F12, ppc: (Expr, Expr)) -> (P2, F12) {
    let (n, l) = double_at_p_spec(acc, ppc);
    (n, f12_mul_034(f, l))
}

/// Digits +1 and -1: multiply in the product of the fused step's two lines.
#[verifier::opaque]
pub open spec fn bit_dbl_add_spec(acc: P2, f: F12, ppc: (Expr, Expr), q: P2) -> (P2, F12) {
    let (n, ls) = dbl_add_at_p_spec(acc, q, ppc);
    (n, f12_mul_01234(f, f12_mul_034_by_034(ls.0, ls.1)))
}

/// The first two digits, from the starting point: the doubling line is
/// squared into sparse form, then the fused step against `-q` is folded in.
#[verifier::opaque]
pub open spec fn first_second_spec(acc: P2, ppc: (Expr, Expr), neg_q: P2) -> (P2, F12) {
    let (n0, l0) = double_at_p_spec(acc, ppc);
    let (n1, ls) = dbl_add_at_p_spec(n0, neg_q, ppc);
    (n1, f12_mul_01234_01234(f12_sqr_034(l0), f12_mul_034_by_034(ls.0, ls.1)))
}

/// The correction after the last digit.
#[verifier::opaque]
pub open spec fn last_spec(acc: P2, f: F12, ppc: (Expr, Expr), q: P2, pi: Seq<usize>) -> (P2, F12) {
    let (n, ls) = correction_at_p_spec(acc, q, pi, ppc);
    (n, f12_mul_01234(f, f12_mul_034_by_034(ls.0, ls.1)))
}

} // verus!
