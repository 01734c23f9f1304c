//! Line functions: the tangent and chord lines of the pairing loop, the
//! steps that move the running point, and their evaluation at the fixed point.
use vstd::prelude::*;

use crate::circuit::{e_input, e_inv, e_mul, Expr};
use crate::fields::affine::{
    chord_spec, pt_on_slope_spec, tangent_spec, x_on_slope_spec, Affine, ECOperations,
};
use crate::fields::fq::{f1_neg, Fq};
use crate::fields::fq2::{
    f2_add, f2_conjugate, f2_div, f2_input, f2_mul, f2_neg, f2_scale, f2_sub, Fq2, F2,
};
use crate::fields::sparse::Fq12Sparse034;
use crate::fields::{FieldOps, FieldUtils};

verus! {

/// A point over the quadratic extension, as its coordinates' expression trees.
pub type P2 = (F2, F2);

/// The line of slope `λ` through `s`: `(λ, λ x_s - y_s)`.
pub open spec fn line_spec(slope: F2, s: P2) -> (F2, F2) {
    (slope, f2_sub(f2_mul(slope, s.0), s.1))
}

/// The constants derived from the fixed point `p`: `(-x/y, 1/y)`.
pub open spec fn p_precompute_spec(p: (Expr, Expr)) -> (Expr, Expr) {
    (e_mul(f1_neg(p.0), e_inv(p.1)), e_inv(p.1))
}

/// A line evaluated at the fixed point: slope scaled by `-x/y`, constant by `1/y`.
pub open spec fn line_at_p_spec(l: (F2, F2), ppc: (Expr, Expr)) -> (F2, F2) {
    (f2_scale(l.0, ppc.0), f2_scale(l.1, ppc.1))
}

/// Doubling: the new point, and the tangent line through it.
pub open spec fn step_double_spec(acc: P2) -> (P2, (F2, F2)) {
    let slope = tangent_spec::<Fq2>(acc);
    let n = pt_on_slope_spec::<Fq2>(acc, slope, acc.0);
    (n, line_spec(slope, n))
}

/// Addition of `q`: the new point, and the chord line through it.
pub open spec fn step_add_spec(acc: P2, q: P2) -> (P2, (F2, F2)) {
    let slope = chord_spec::<Fq2>(acc, q);
    let n = pt_on_slope_spec::<Fq2>(acc, slope, q.0);
    (n, line_spec(slope, n))
}

/// `acc + q`'s x coordinate, through the chord of `acc` and `q`.
pub open spec fn dbl_add_x1(acc: P2, q: P2) -> F2 {
    x_on_slope_spec::<Fq2>(acc, chord_spec::<Fq2>(acc, q), q.0)
}

/// The second slope of the fused step: `-λ1 - 2 y / (x1 - x)`.
pub open spec fn dbl_add_slope2(acc: P2, q: P2) -> F2 {
    let slope1 = chord_spec::<Fq2>(acc, q);
    f2_sub(f2_neg(slope1), f2_div(f2_add(acc.1, acc.1), f2_sub(dbl_add_x1(acc, q), acc.0)))
}

/// `2 acc + q` in one step: the new point and the two lines, the chord
/// through `acc` and `q` and the line of the second slope through the result.
pub open spec fn step_dbl_add_spec(acc: P2, q: P2) -> (P2, ((F2, F2), (F2, F2))) {
    let slope1 = chord_spec::<Fq2>(acc, q);
    let slope2 = dbl_add_slope2(acc, q);
    let n = pt_on_slope_spec::<Fq2>(acc, slope2, dbl_add_x1(acc, q));
    (n, (line_spec(slope1, acc), line_spec(slope2, n)))
}

/// The two twisted copies of `q` for the final correction. `pi` holds the
/// input positions of the twist constants: `pi[0..2]` and `pi[2..4]` are the
/// quadratic constants for the first copy, `pi[4]` and `pi[5]` the base
/// field constants for the second.
pub open spec fn correction_points(q: P2, pi: Seq<usize>) -> (P2, P2) {
    let q1 = (
        f2_mul(f2_conjugate(q.0), f2_input(pi[0] as nat, pi[1] as nat)),
        f2_mul(f2_conjugate(q.1), f2_input(pi[2] as nat, pi[3] as nat)),
    );
    let q2 = (f2_scale(q.0, e_input(pi[4] as nat)), f2_neg(f2_scale(q.1, e_input(pi[5] as nat))));
    (q1, q2)
}

/// The correction step: add the first twisted copy, then take the chord to
/// the second. Gives the new point and both lines.
pub open spec fn correction_step_spec(acc: P2, q: P2, pi: Seq<usize>) -> (P2, ((F2, F2), (F2, F2))) {
    let (q1, q2) = correction_points(q, pi);
    let (n, d) = step_add_spec(acc, q1);
    (n, (d, line_spec(chord_spec::<Fq2>(n, q2), n)))
}

/// The fixed point's derived constants.
pub struct PPre {
    neg_x_over_y: Fq,
    y_inv: Fq,
}

impl View for PPre {
    type V = (Expr, Expr);

    closed spec fn view(&self) -> (Expr, Expr) {
        (self.neg_x_over_y@, self.y_inv@)
    }
}

impl PPre {
    pub fn neg_x_over_y(&self) -> (r: &Fq)
        ensures
            r@ == self@.0,
    {
        &self.neg_x_over_y
    }

    pub fn y_inv(&self) -> (r: &Fq)
        ensures
            r@ == self@.1,
    {
        &self.y_inv
    }

    pub fn p_precompute(p: &Affine<Fq>) -> (r: PPre)
        ensures
            r@ == p_precompute_spec(p@),
    {
        let y_inv = p.y().inv();
        PPre { neg_x_over_y: p.x().neg().mul(&y_inv), y_inv }
    }

    pub fn duplicate(&self) -> (r: PPre)
        ensures
            r@ == self@,
    {
        PPre { neg_x_over_y: self.neg_x_over_y.duplicate(), y_inv: self.y_inv.duplicate() }
    }
}

/// A line `y = λ x - c` over the quadratic extension.
pub struct LineFn {
    slope: Fq2,
    c: Fq2,
}

impl View for LineFn {
    type V = (F2, F2);

    closed spec fn view(&self) -> (F2, F2) {
        (self.slope@, self.c@)
    }
}

impl LineFn {
    pub fn slope(&self) -> (r: &Fq2)
        ensures
            r@ == self@.0,
    {
        &self.slope
    }

    pub fn c(&self) -> (r: &Fq2)
        ensures
            r@ == self@.1,
    {
        &self.c
    }

    /// The line of slope `slope` through `s`.
    pub fn line_fn(slope: &Fq2, s: &Affine<Fq2>) -> (r: LineFn)
        ensures
            r@ == line_spec(slope@, s@),
    {
        LineFn { slope: slope.duplicate(), c: slope.mul(s.x()).sub(s.y()) }
    }

    /// The line evaluated at the fixed point, as a sparse duodecimal operand.
    pub fn line_fn_at_p(&self, p_pre: &PPre) -> (r: Fq12Sparse034)
        ensures
            r@ == line_at_p_spec(self@, p_pre@),
    {
        Fq12Sparse034::new(self.slope.scale(p_pre.neg_x_over_y()), self.c.scale(p_pre.y_inv()))
    }

    /// Doubles the running point; returns the tangent line through the new point.
    pub fn step_double(acc: &mut Affine<Fq2>) -> (r: LineFn)
        ensures
            (final(acc)@, r@) == step_double_spec(old(acc)@),
    {
        let slope = acc.tangent();
        let x = acc.x().duplicate();
        let new_point = acc.pt_on_slope(&slope, &x);
        *acc = new_point;
        Self::line_fn(&slope, acc)
    }

    /// Adds `q` to the running point; returns the chord line through the new point.
    pub fn step_add(acc: &mut Affine<Fq2>, q: &Affine<Fq2>) -> (r: LineFn)
        ensures
            (final(acc)@, r@) == step_add_spec(old(acc)@, q@),
    {
        let slope = acc.chord(q);
        let new_point = acc.pt_on_slope(&slope, q.x());
        *acc = new_point;
        Self::line_fn(&slope, acc)
    }

    /// Replaces the running point by `2 acc + q`, sharing the intermediate
    /// terms of the two steps; returns both lines.
    pub fn step_dbl_add(acc: &mut Affine<Fq2>, q: &Affine<Fq2>) -> (r: (LineFn, LineFn))
        ensures
            (final(acc)@, (r.0@, r.1@)) == step_dbl_add_spec(old(acc)@, q@),
    {
        let slope1 = acc.chord(q);
        let x1 = acc.x_on_slope(&slope1, q.x());
        let line1 = Self::line_fn(&slope1, acc);
        let slope2 = slope1.neg().sub(&acc.y().add(acc.y()).div(&x1.sub(acc.x())));
        let new_point = acc.pt_on_slope(&slope2, &x1);
        *acc = new_point;
        let line2 = Self::line_fn(&slope2, acc);
        (line1, line2)
    }

    /// The final correction against twisted copies of `q`, whose constants
    /// are read from the circuit inputs `pi_idx`.
    pub fn correction_step(acc: &mut Affine<Fq2>, q: &Affine<Fq2>, pi_idx: [usize; 6]) -> (r: (LineFn, LineFn))
        ensures
            (final(acc)@, (r.0@, r.1@)) == correction_step_spec(old(acc)@, q@, pi_idx@),
    {
        let q1x2_idx: [usize; 2] = [pi_idx[0], pi_idx[1]];
        let q1x3_idx: [usize; 2] = [pi_idx[2], pi_idx[3]];
        let q2x2_idx: usize = pi_idx[4];
        let q2x3_idx: usize = pi_idx[5];
        let affine_q1_idx: [usize; 4] = [pi_idx[0], pi_idx[1], pi_idx[2], pi_idx[3]];
        let affine_q2_idx: [usize; 4] = [pi_idx[4], pi_idx[5], 0, 0];

        let q1 = Affine::<Fq2>::new(
            q.x().conjugate().fq2_mul_nr(q1x2_idx),
            q.y().conjugate().fq2_mul_nr(q1x3_idx),
            affine_q1_idx,
        );
        let q2 = Affine::<Fq2>::new(
            q.x().fq2_scale_nr(q2x2_idx),
            q.y().fq2_scale_nr(q2x3_idx).neg(),
            affine_q2_idx,
        );

        let d = Self::step_add(acc, &q1);
        let slope = acc.chord(&q2);
        let e = LineFn::line_fn(&slope, acc);
        (d, e)
    }
}

} // verus!
