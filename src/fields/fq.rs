//! The base field: one expression node per element.
use vstd::prelude::*;

use crate::circuit::{e_add, e_input, e_inv, e_mul, e_sub, Circuit, Expr};
use crate::fields::{FieldConstants, FieldOps};

verus! {

/// `0 - x`, where the zero is `CI::<0> - CI::<0>`: every valid circuit has
/// at least one input.
pub open spec fn f1_neg(x: Expr) -> Expr {
    e_sub(f1_zero(), x)
}

pub open spec fn f1_zero() -> Expr {
    e_sub(e_input(0), e_input(0))
}

/// `CI::<0> / CI::<0>`: one wherever input 0 is not zero.
pub open spec fn f1_one() -> Expr {
    e_mul(e_input(0), e_inv(e_input(0)))
}

pub open spec fn f1_div(a: Expr, b: Expr) -> Expr {
    e_mul(a, e_inv(b))
}

/// `9x` as `8x + x`, by three doublings.
pub open spec fn f1_scl_9(x: Expr) -> Expr {
    let two = e_add(x, x);
    let four = e_add(two, two);
    let eight = e_add(four, four);
    e_add(eight, x)
}

/// A base field element.
pub struct Fq {
    c0: Circuit,
    inp: Option<usize>,
}

impl View for Fq {
    type V = Expr;

    closed spec fn view(&self) -> Expr {
        self.c0@
    }
}

impl Fq {
    /// The input position this element was built from, if it is a fresh leaf.
    pub closed spec fn origin(&self) -> Option<usize> {
        self.inp
    }

    pub fn new(c0: Circuit, inp: Option<usize>) -> (r: Fq)
        ensures
            r@ == c0@,
            r.origin() == inp,
    {
        Fq { c0, inp }
    }

    /// The leaf that reads circuit input `idx`.
    pub fn new_input(idx: usize) -> (r: Fq)
        ensures
            r@ == e_input(idx as nat),
            r.origin() == Some(idx),
    {
        Fq { c0: Circuit::circuit_input(idx), inp: Some(idx) }
    }

    pub fn c0(&self) -> (r: &Circuit)
        ensures
            r@ == self@,
    {
        &self.c0
    }

    /// Multiplies by 9 with additions only.
    pub fn scl_9(&self) -> (r: Fq)
        ensures
            r@ == f1_scl_9(self@),
            r.origin() is None,
    {
        let two = self.add(self);
        let four = two.add(&two);
        let eight = four.add(&four);
        eight.add(self)
    }

    /// Multiplies by 9 read from circuit input 0, which the caller loads
    /// with the constant 9 (so its own inputs start at position 1).
    pub fn scl_9_no_add(&self) -> (r: Fq)
        ensures
            r@ == e_mul(self@, e_input(0)),
            r.origin() is None,
    {
        self.mul(&Self::new_input(0))
    }
}

impl FieldOps for Fq {
    open spec fn spec_add(a: Expr, b: Expr) -> Expr {
        e_add(a, b)
    }

    open spec fn spec_sub(a: Expr, b: Expr) -> Expr {
        e_sub(a, b)
    }

    open spec fn spec_mul(a: Expr, b: Expr) -> Expr {
        e_mul(a, b)
    }

    open spec fn spec_div(a: Expr, b: Expr) -> Expr {
        f1_div(a, b)
    }

    open spec fn spec_sqr(a: Expr) -> Expr {
        e_mul(a, a)
    }

    open spec fn spec_neg(a: Expr) -> Expr {
        f1_neg(a)
    }

    open spec fn spec_inv(a: Expr) -> Expr {
        e_inv(a)
    }

    closed spec fn is_leaf(&self) -> bool {
        self.inp is Some
    }

    fn add(&self, rhs: &Self) -> (r: Self) {
        Fq { c0: Circuit::circuit_add(&self.c0, &rhs.c0), inp: None }
    }

    fn sub(&self, rhs: &Self) -> (r: Self) {
        Fq { c0: Circuit::circuit_sub(&self.c0, &rhs.c0), inp: None }
    }

    fn mul(&self, rhs: &Self) -> (r: Self) {
        Fq { c0: Circuit::circuit_mul(&self.c0, &rhs.c0), inp: None }
    }

    fn div(&self, rhs: &Self) -> (r: Self) {
        Fq { c0: Circuit::circuit_mul(&self.c0, &Circuit::circuit_inv(&rhs.c0)), inp: None }
    }

    fn sqr(&self) -> (r: Self) {
        Fq { c0: Circuit::circuit_mul(&self.c0, &self.c0), inp: None }
    }

    fn neg(&self) -> (r: Self) {
        let tmp = Self::new_input(0);
        Fq { c0: Circuit::circuit_sub(&Circuit::circuit_sub(&tmp.c0, &tmp.c0), &self.c0), inp: None }
    }

    fn inv(&self) -> (r: Self) {
        Fq { c0: Circuit::circuit_inv(&self.c0), inp: None }
    }

    fn duplicate(&self) -> (r: Self) {
        Fq { c0: self.c0.clone(), inp: self.inp }
    }
}

impl FieldConstants for Fq {
    open spec fn spec_one() -> Expr {
        f1_one()
    }

    open spec fn spec_zero() -> Expr {
        f1_zero()
    }

    fn one() -> (r: Self) {
        let c0 = Self::new_input(0);
        c0.div(&c0)
    }

    fn zero() -> (r: Self) {
        let c0 = Self::new_input(0);
        c0.sub(&c0)
    }
}

} // verus!
