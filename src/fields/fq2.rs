//! The quadratic extension: pairs of base field elements.
use vstd::prelude::*;

use crate::circuit::{e_add, e_input, e_inv, e_mul, e_sub, Expr};
use crate::fields::fq::{f1_neg, f1_scl_9, Fq};
use crate::fields::{FieldOps, FieldUtils};

verus! {

/// The expression trees of a quadratic extension element, `(c0, c1)`.
pub type F2 = (Expr, Expr);

pub open spec fn f2_input(i0: nat, i1: nat) -> F2 {
    (e_input(i0), e_input(i1))
}

pub open spec fn f2_add(a: F2, b: F2) -> F2 {
    (e_add(a.0, b.0), e_add(a.1, b.1))
}

pub open spec fn f2_sub(a: F2, b: F2) -> F2 {
    (e_sub(a.0, b.0), e_sub(a.1, b.1))
}

/// Karatsuba with three products: `t0 = a0 b0`, `t1 = a1 b1`,
/// `t2 = (a0 + a1)(b0 + b1)`; the result is `(t0 - t1, t2 - (t0 + t1))`.
pub open spec fn f2_mul(a: F2, b: F2) -> F2 {
    let t0 = e_mul(a.0, b.0);
    let t1 = e_mul(a.1, b.1);
    let t2 = e_mul(e_add(a.0, a.1), e_add(b.0, b.1));
    (e_sub(t0, t1), e_sub(t2, e_add(t0, t1)))
}

/// `((a0 + a1)(a0 - a1), 2 a0 a1)`.
pub open spec fn f2_sqr(a: F2) -> F2 {
    (e_mul(e_add(a.0, a.1), e_sub(a.0, a.1)), e_mul(e_add(a.0, a.0), a.1))
}

pub open spec fn f2_neg(a: F2) -> F2 {
    (f1_neg(a.0), f1_neg(a.1))
}

/// With `t = (c0^2 + c1^2)^-1`: `(c0 t, c1 (-t))`.
pub open spec fn f2_inv(a: F2) -> F2 {
    let t = e_inv(e_add(e_mul(a.0, a.0), e_mul(a.1, a.1)));
    (e_mul(a.0, t), e_mul(a.1, f1_neg(t)))
}

pub open spec fn f2_div(a: F2, b: F2) -> F2 {
    f2_mul(a, f2_inv(b))
}

/// Multiplication by the non-residue `9 + u`: `(9 c0 - c1, 9 c1 + c0)`.
pub open spec fn f2_mul_by_xi(a: F2) -> F2 {
    (e_sub(f1_scl_9(a.0), a.1), e_add(f1_scl_9(a.1), a.0))
}

pub open spec fn f2_conjugate(a: F2) -> F2 {
    (a.0, f1_neg(a.1))
}

pub open spec fn f2_scale(a: F2, s: Expr) -> F2 {
    (e_mul(a.0, s), e_mul(a.1, s))
}

/// A quadratic extension element `c0 + c1 u`.
pub struct Fq2 {
    c0: Fq,
    c1: Fq,
    inp: Option<[usize; 2]>,
}

impl View for Fq2 {
    type V = F2;

    closed spec fn view(&self) -> F2 {
        (self.c0@, self.c1@)
    }
}

impl Fq2 {
    /// The input positions this element was built from, if it is a fresh leaf.
    pub closed spec fn origin(&self) -> Option<[usize; 2]> {
        self.inp
    }

    pub fn new(c0: Fq, c1: Fq, inp: Option<[usize; 2]>) -> (r: Fq2)
        ensures
            r@ == (c0@, c1@),
            r.origin() == inp,
    {
        Fq2 { c0, c1, inp }
    }

    /// The leaf that reads circuit inputs `idx[0]` and `idx[1]`.
    pub fn new_input(idx: [usize; 2]) -> (r: Fq2)
        ensures
            r@ == f2_input(idx[0] as nat, idx[1] as nat),
            r.origin() == Some(idx),
    {
        Fq2 { c0: Fq::new_input(idx[0]), c1: Fq::new_input(idx[1]), inp: Some(idx) }
    }

    pub fn c0(&self) -> (r: &Fq)
        ensures
            r@ == self@.0,
    {
        &self.c0
    }

    pub fn c1(&self) -> (r: &Fq)
        ensures
            r@ == self@.1,
    {
        &self.c1
    }

    pub fn mul_by_xi(&self) -> (r: Fq2)
        ensures
            r@ == f2_mul_by_xi(self@),
            r.origin() is None,
    {
        Fq2 { c0: self.c0.scl_9().sub(&self.c1), c1: self.c1.scl_9().add(&self.c0), inp: None }
    }

    /// `c0 - c1 u`.
    pub fn conjugate(&self) -> (r: Fq2)
        ensures
            r@ == f2_conjugate(self@),
            r.origin() is None,
    {
        Fq2 { c0: self.c0.duplicate(), c1: self.c1.neg(), inp: None }
    }

    /// Multiplies by the quadratic constant held in circuit inputs `idx`.
    pub fn fq2_mul_nr(&self, idx: [usize; 2]) -> (r: Fq2)
        ensures
            r@ == f2_mul(self@, f2_input(idx[0] as nat, idx[1] as nat)),
            r.origin() is None,
    {
        self.mul(&Fq2::new_input(idx))
    }

    /// Scales by the base field constant held in circuit input `idx`.
    pub fn fq2_scale_nr(&self, idx: usize) -> (r: Fq2)
        ensures
            r@ == f2_scale(self@, e_input(idx as nat)),
            r.origin() is None,
    {
        self.scale(&Fq::new_input(idx))
    }
}

impl FieldOps for Fq2 {
    open spec fn spec_add(a: F2, b: F2) -> F2 {
        f2_add(a, b)
    }

    open spec fn spec_sub(a: F2, b: F2) -> F2 {
        f2_sub(a, b)
    }

    open spec fn spec_mul(a: F2, b: F2) -> F2 {
        f2_mul(a, b)
    }

    open spec fn spec_div(a: F2, b: F2) -> F2 {
        f2_div(a, b)
    }

    open spec fn spec_sqr(a: F2) -> F2 {
        f2_sqr(a)
    }

    open spec fn spec_neg(a: F2) -> F2 {
        f2_neg(a)
    }

    open spec fn spec_inv(a: F2) -> F2 {
        f2_inv(a)
    }

    closed spec fn is_leaf(&self) -> bool {
        self.inp is Some
    }

    fn add(&self, rhs: &Self) -> (r: Self) {
        Fq2 { c0: self.c0.add(&rhs.c0), c1: self.c1.add(&rhs.c1), inp: None }
    }

    fn sub(&self, rhs: &Self) -> (r: Self) {
        Fq2 { c0: self.c0.sub(&rhs.c0), c1: self.c1.sub(&rhs.c1), inp: None }
    }

    fn mul(&self, rhs: &Self) -> (r: Self) {
        let (a0, a1) = (&self.c0, &self.c1);
        let (b0, b1) = (&rhs.c0, &rhs.c1);
        let t0 = a0.mul(b0);
        let t1 = a1.mul(b1);
        let t2 = a0.add(a1).mul(&b0.add(b1));
        let t3 = t2.sub(&t0.add(&t1));
        let t4 = t0.sub(&t1);
        Fq2 { c0: t4, c1: t3, inp: None }
    }

    fn div(&self, rhs: &Self) -> (r: Self) {
        let rhs_inv = rhs.inv();
        self.mul(&rhs_inv)
    }

    fn sqr(&self) -> (r: Self) {
        let (a0, a1) = (&self.c0, &self.c1);
        let t0 = a0.add(a1).mul(&a0.sub(a1));
        let t1 = a0.add(a0).mul(a1);
        Fq2 { c0: t0, c1: t1, inp: None }
    }

    fn neg(&self) -> (r: Self) {
        Fq2 { c0: self.c0.neg(), c1: self.c1.neg(), inp: None }
    }

    fn inv(&self) -> (r: Self) {
        let t = self.c0.sqr().add(&self.c1.sqr()).inv();
        Fq2 { c0: self.c0.mul(&t), c1: self.c1.mul(&t.neg()), inp: None }
    }

    fn duplicate(&self) -> (r: Self) {
        Fq2 { c0: self.c0.duplicate(), c1: self.c1.duplicate(), inp: self.inp }
    }
}

impl FieldUtils for Fq2 {
    type FieldChild = Fq;

    open spec fn spec_scale(a: F2, by: Expr) -> F2 {
        f2_scale(a, by)
    }

    fn scale(&self, by: &Fq) -> (r: Self) {
        Fq2 { c0: self.c0.mul(by), c1: self.c1.mul(by), inp: None }
    }
}

} // verus!
