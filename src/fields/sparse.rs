//! Sparse operands: only the coefficients of a line evaluation that are not
//! zero by construction, and the products that exploit it.
use vstd::prelude::*;

use crate::circuit::e_add;
use crate::fields::fq::{f1_one, Fq};
use crate::fields::fq12::{F12, Fq12};
use crate::fields::fq2::{f2_add, f2_mul, f2_mul_by_xi, f2_sqr, f2_sub, Fq2, F2};
use crate::fields::fq6::{f6_add, f6_mul, f6_mul_by_v, f6_sub, F6, Fq6};
use crate::fields::{FieldConstants, FieldOps};

verus! {

/// Product of two sextic operands whose third coefficients are zero.
pub open spec fn f6_mul_01_by_01(a: (F2, F2), b: (F2, F2)) -> F6 {
    let v0 = f2_mul(a.0, b.0);
    let v1 = f2_mul(a.1, b.1);
    (v0, f2_sub(f2_sub(f2_mul(f2_add(a.0, a.1), f2_add(b.0, b.1)), v0), v1), v1)
}

/// `x + 1` on the first base coefficient, the one built as `CI::<0> / CI::<0>`.
pub open spec fn f2_add_one(x: F2) -> F2 {
    (e_add(x.0, f1_one()), x.1)
}

/// Product of two lines `1 + (c3 + c4 v) w` and `1 + (d3 + d4 v) w`.
pub open spec fn f12_mul_034_by_034(c: (F2, F2), d: (F2, F2)) -> (F6, (F2, F2)) {
    let c3d3 = f2_mul(c.0, d.0);
    let c4d4 = f2_mul(c.1, d.1);
    let x04 = f2_add(c.1, d.1);
    let x03 = f2_add(c.0, d.0);
    let x34 = f2_sub(f2_sub(f2_mul(f2_add(d.0, d.1), f2_add(c.0, c.1)), c3d3), c4d4);
    let zc0b0 = f2_add_one(f2_mul_by_xi(c4d4));
    ((zc0b0, c3d3, x34), (x03, x04))
}

/// Square of the line `1 + (c3 + c4 v) w`.
pub open spec fn f12_sqr_034(c: (F2, F2)) -> (F6, (F2, F2)) {
    let c3_sq = f2_sqr(c.0);
    let c4_sq = f2_sqr(c.1);
    let x04 = f2_add(c.1, c.1);
    let x03 = f2_add(c.0, c.0);
    let x34 = f2_sub(f2_sub(f2_sqr(f2_add(c.0, c.1)), c3_sq), c4_sq);
    let zc0b0 = f2_add_one(f2_mul_by_xi(c4_sq));
    ((zc0b0, c3_sq, x34), (x03, x04))
}

/// Adds the sparse half `b1` into the first two coefficients of `b0`.
pub open spec fn f6_fold_01(b0: F6, b1: (F2, F2)) -> F6 {
    (f2_add(b0.0, b1.0), f2_add(b0.1, b1.1), b0.2)
}

/// Product of two `01234`-sparse elements, as a dense duodecimal element.
pub open spec fn f12_mul_01234_01234(a: (F6, (F2, F2)), b: (F6, (F2, F2))) -> F12 {
    let c1 = f6_mul(f6_fold_01(a.0, a.1), f6_fold_01(b.0, b.1));
    let u = f6_mul(a.0, b.0);
    let v = f6_mul_01_by_01(a.1, b.1);
    (f6_add(f6_mul_by_v(v), u), f6_sub(c1, f6_add(u, v)))
}

/// A sextic operand `c0 + c1 v` whose third coefficient is zero.
pub struct Fq6Sparse01 {
    c0: Fq2,
    c1: Fq2,
}

impl View for Fq6Sparse01 {
    type V = (F2, F2);

    closed spec fn view(&self) -> (F2, F2) {
        (self.c0@, self.c1@)
    }
}

impl Fq6Sparse01 {
    pub fn new(c0: Fq2, c1: Fq2) -> (r: Fq6Sparse01)
        ensures
            r@ == (c0@, c1@),
    {
        Fq6Sparse01 { c0, c1 }
    }

    pub fn c0(&self) -> (r: &Fq2)
        ensures
            r@ == self@.0,
    {
        &self.c0
    }

    pub fn c1(&self) -> (r: &Fq2)
        ensures
            r@ == self@.1,
    {
        &self.c1
    }

    pub fn mul_01_by_01(&self, rhs: &Self) -> (r: Fq6)
        ensures
            r@ == f6_mul_01_by_01(self@, rhs@),
            r.origin() is None,
    {
        let (a0, a1) = (&self.c0, &self.c1);
        let (b0, b1) = (&rhs.c0, &rhs.c1);
        let v0 = a0.mul(b0);
        let v1 = a1.mul(b1);
        let c1 = a0.add(a1).mul(&b0.add(b1)).sub(&v0).sub(&v1);
        Fq6::new(v0, c1, v1, None)
    }

    pub fn duplicate(&self) -> (r: Self)
        ensures
            r@ == self@,
    {
        Fq6Sparse01 { c0: self.c0.duplicate(), c1: self.c1.duplicate() }
    }
}

/// A duodecimal operand `c0 + c1 w` whose `c1` has a zero third coefficient:
/// five of its six quadratic coefficients may be non-zero.
pub struct Fq12Sparse01234 {
    c0: Fq6,
    c1: Fq6Sparse01,
}

impl View for Fq12Sparse01234 {
    type V = (F6, (F2, F2));

    closed spec fn view(&self) -> (F6, (F2, F2)) {
        (self.c0@, self.c1@)
    }
}

impl Fq12Sparse01234 {
    pub fn new(c0: Fq6, c1: Fq6Sparse01) -> (r: Fq12Sparse01234)
        ensures
            r@ == (c0@, c1@),
    {
        Fq12Sparse01234 { c0, c1 }
    }

    pub fn c0(&self) -> (r: &Fq6)
        ensures
            r@ == self@.0,
    {
        &self.c0
    }

    pub fn c1(&self) -> (r: &Fq6Sparse01)
        ensures
            r@ == self@.1,
    {
        &self.c1
    }

    pub fn mul_01234_01234(&self, rhs: &Self) -> (r: Fq12)
        ensures
            r@ == f12_mul_01234_01234(self@, rhs@),
            r.origin() is None,
    {
        let (a0, a1) = (&self.c0, &self.c1);
        let (b0, b1) = (&rhs.c0, &rhs.c1);
        let b = Fq6::new(b0.c0().add(b1.c0()), b0.c1().add(b1.c1()), b0.c2().duplicate(), None);
        let c1 = Fq6::new(a0.c0().add(a1.c0()), a0.c1().add(a1.c1()), a0.c2().duplicate(), None);
        let c1 = c1.mul(&b);
        let u = a0.mul(b0);
        let v = a1.mul_01_by_01(b1);
        let c0 = v.mul_by_v().add(&u);
        let c1 = c1.sub(&u.add(&v));
        Fq12::new(c0, c1, None)
    }
}

/// A line evaluation `1 + (c3 + c4 v) w`: only `c3` and `c4` are kept, the
/// constant one is implicit.
pub struct Fq12Sparse034 {
    c3: Fq2,
    c4: Fq2,
}

impl View for Fq12Sparse034 {
    type V = (F2, F2);

    closed spec fn view(&self) -> (F2, F2) {
        (self.c3@, self.c4@)
    }
}

impl Fq12Sparse034 {
    pub fn new(c3: Fq2, c4: Fq2) -> (r: Fq12Sparse034)
        ensures
            r@ == (c3@, c4@),
    {
        Fq12Sparse034 { c3, c4 }
    }

    pub fn c3(&self) -> (r: &Fq2)
        ensures
            r@ == self@.0,
    {
        &self.c3
    }

    pub fn c4(&self) -> (r: &Fq2)
        ensures
            r@ == self@.1,
    {
        &self.c4
    }

    pub fn mul_034_by_034(&self, rhs: &Self) -> (r: Fq12Sparse01234)
        ensures
            r@ == f12_mul_034_by_034(self@, rhs@),
    {
        let (c3, c4) = (&self.c3, &self.c4);
        let (d3, d4) = (&rhs.c3, &rhs.c4);
        let c3d3 = c3.mul(d3);
        let c4d4 = c4.mul(d4);
        let x04 = c4.add(d4);
        let x03 = c3.add(d3);
        let x34 = d3.add(d4).mul(&c3.add(c4));
        let x34 = x34.sub(&c3d3);
        let x34 = x34.sub(&c4d4);
        let zc0b0 = c4d4.mul_by_xi();
        let zc0b0 = Fq2::new(zc0b0.c0().add(&Fq::one()), zc0b0.c1().duplicate(), None);
        Fq12Sparse01234::new(Fq6::new(zc0b0, c3d3, x34, None), Fq6Sparse01::new(x03, x04))
    }

    pub fn sqr_034(&self) -> (r: Fq12Sparse01234)
        ensures
            r@ == f12_sqr_034(self@),
    {
        let (c3, c4) = (&self.c3, &self.c4);
        let c3_sq = c3.sqr();
        let c4_sq = c4.sqr();
        let x04 = c4.add(c4);
        let x03 = c3.add(c3);
        let x34 = c3.add(c4).sqr();
        let x34 = x34.sub(&c3_sq);
        let x34 = x34.sub(&c4_sq);
        let zc0b0 = c4_sq.mul_by_xi();
        let zc0b0 = Fq2::new(zc0b0.c0().add(&Fq::one()), zc0b0.c1().duplicate(), None);
        Fq12Sparse01234::new(Fq6::new(zc0b0, c3_sq, x34, None), Fq6Sparse01::new(x03, x04))
    }
}

} // verus!
