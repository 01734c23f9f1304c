//! The duodecimal extension: pairs of sextic extension elements, with `w^2 = v`.
use vstd::prelude::*;

use crate::fields::fq2::{Fq2, F2};
use crate::fields::fq6::{
    f6_add, f6_input, f6_mul, f6_mul_01, f6_mul_by_v, f6_neg, f6_sub, Fq6, F6,
};
use crate::fields::fq::Fq;
use crate::fields::sparse::{f2_add_one, f6_fold_01, Fq12Sparse01234, Fq12Sparse034, Fq6Sparse01};
use crate::fields::{FieldConstants, FieldOps};

verus! {

/// The expression trees of a duodecimal extension element, `(c0, c1)`.
pub type F12 = (F6, F6);

pub open spec fn f12_input(idx: Seq<usize>) -> F12 {
    (f6_input(idx.subrange(0, 6)), f6_input(idx.subrange(6, 12)))
}

pub open spec fn f12_add(a: F12, b: F12) -> F12 {
    (f6_add(a.0, b.0), f6_add(a.1, b.1))
}

pub open spec fn f12_sub(a: F12, b: F12) -> F12 {
    (f6_sub(a.0, b.0), f6_sub(a.1, b.1))
}

pub open spec fn f12_neg(a: F12) -> F12 {
    (f6_neg(a.0), f6_neg(a.1))
}

/// `u = a0 b0`, `v = a1 b1`; `(v·v + u, (a0 + a1)(b0 + b1) - u - v)`, where
/// `v·v` is the sextic multiplication by `v`.
pub open spec fn f12_mul(a: F12, b: F12) -> F12 {
    let u = f6_mul(a.0, b.0);
    let v = f6_mul(a.1, b.1);
    (f6_add(f6_mul_by_v(v), u), f6_sub(f6_sub(f6_mul(f6_add(a.0, a.1), f6_add(b.0, b.1)), u), v))
}

/// `v = a0 a1`; `((a0 + a1)(a0 + a1·v) - v - v·v, 2v)`.
pub open spec fn f12_sqr(a: F12) -> F12 {
    let v = f6_mul(a.0, a.1);
    (
        f6_sub(f6_sub(f6_mul(f6_add(a.0, a.1), f6_add(a.0, f6_mul_by_v(a.1))), v), f6_mul_by_v(v)),
        f6_add(v, v),
    )
}

/// Product with the line `1 + (c3 + c4 v) w`.
pub open spec fn f12_mul_034(a: F12, l: (F2, F2)) -> F12 {
    let b = f6_mul_01(a.1, l);
    let d = f6_mul_01(f6_add(a.0, a.1), (f2_add_one(l.0), l.1));
    (f6_add(f6_mul_by_v(b), a.0), f6_sub(d, f6_add(b, a.0)))
}

/// Product with a `01234`-sparse element.
pub open spec fn f12_mul_01234(a: F12, s: (F6, (F2, F2))) -> F12 {
    let c1 = f6_mul(f6_add(a.0, a.1), f6_fold_01(s.0, s.1));
    let u = f6_mul(a.0, s.0);
    let v = f6_mul_01(a.1, s.1);
    (f6_add(f6_mul_by_v(v), u), f6_sub(c1, f6_add(u, v)))
}

/// A duodecimal extension element `c0 + c1 w`.
pub struct Fq12 {
    c0: Fq6,
    c1: Fq6,
    inp: Option<[usize; 12]>,
}

impl View for Fq12 {
    type V = F12;

    closed spec fn view(&self) -> F12 {
        (self.c0@, self.c1@)
    }
}

impl Fq12 {
    /// The input positions this element was built from, if it is a fresh leaf.
    pub closed spec fn origin(&self) -> Option<[usize; 12]> {
        self.inp
    }

    pub fn new(c0: Fq6, c1: Fq6, inp: Option<[usize; 12]>) -> (r: Fq12)
        ensures
            r@ == (c0@, c1@),
            r.origin() == inp,
    {
        Fq12 { c0, c1, inp }
    }

    /// The leaf that reads circuit inputs `idx`, two per quadratic coefficient.
    pub fn new_input(idx: [usize; 12]) -> (r: Fq12)
        ensures
            r@ == f12_input(idx@),
            r.origin() == Some(idx),
    {
        let lo = [idx[0], idx[1], idx[2], idx[3], idx[4], idx[5]];
        let hi = [idx[6], idx[7], idx[8], idx[9], idx[10], idx[11]];
        let r = Fq12 { c0: Fq6::new_input(lo), c1: Fq6::new_input(hi), inp: Some(idx) };
        assert(lo@ =~= idx@.subrange(0, 6));
        assert(hi@ =~= idx@.subrange(6, 12));
        r
    }

    pub fn c0(&self) -> (r: &Fq6)
        ensures
            r@ == self@.0,
    {
        &self.c0
    }

    pub fn c1(&self) -> (r: &Fq6)
        ensures
            r@ == self@.1,
    {
        &self.c1
    }

    pub fn add(&self, rhs: &Self) -> (r: Fq12)
        ensures
            r@ == f12_add(self@, rhs@),
            r.origin() is None,
    {
        Fq12 { c0: self.c0.add(&rhs.c0), c1: self.c1.add(&rhs.c1), inp: None }
    }

    pub fn sub(&self, rhs: &Self) -> (r: Fq12)
        ensures
            r@ == f12_sub(self@, rhs@),
            r.origin() is None,
    {
        Fq12 { c0: self.c0.sub(&rhs.c0), c1: self.c1.sub(&rhs.c1), inp: None }
    }

    pub fn neg(&self) -> (r: Fq12)
        ensures
            r@ == f12_neg(self@),
            r.origin() is None,
    {
        Fq12 { c0: self.c0.neg(), c1: self.c1.neg(), inp: None }
    }

    /// The dense product. Its text grows fast; the pairing loop uses the
    /// sparse products instead.
    pub fn mul(&self, rhs: &Self) -> (r: Fq12)
        ensures
            r@ == f12_mul(self@, rhs@),
            r.origin() is None,
    {
        let (a0, a1) = (&self.c0, &self.c1);
        let (b0, b1) = (&rhs.c0, &rhs.c1);
        let u = a0.mul(b0);
        let v = a1.mul(b1);
        let c0 = v.mul_by_v().add(&u);
        let c1 = a0.add(a1).mul(&b0.add(b1)).sub(&u).sub(&v);
        Fq12 { c0, c1, inp: None }
    }

    pub fn sqr(&self) -> (r: Fq12)
        ensures
            r@ == f12_sqr(self@),
            r.origin() is None,
    {
        let (a0, a1) = (&self.c0, &self.c1);
        let v = a0.mul(a1);
        let c0 = a0.add(a1).mul(&a0.add(&a1.mul_by_v())).sub(&v).sub(&v.mul_by_v());
        let c1 = v.add(&v);
        Fq12 { c0, c1, inp: None }
    }

    /// Multiplies by a line `1 + (c3 + c4 v) w` without a dense product.
    pub fn mul_034(&self, rhs: &Fq12Sparse034) -> (r: Fq12)
        ensures
            r@ == f12_mul_034(self@, rhs@),
            r.origin() is None,
    {
        let (a0, a1) = (&self.c0, &self.c1);
        let (c3, c4) = (rhs.c3(), rhs.c4());
        let b = a1.mul_01(&Fq6Sparse01::new(c3.duplicate(), c4.duplicate()));
        let tmp = c3.c0().add(&Fq::one());
        let c3 = Fq2::new(tmp, c3.c1().duplicate(), None);
        let d = a0.add(a1);
        let d = d.mul_01(&Fq6Sparse01::new(c3, c4.duplicate()));
        let c1 = d.sub(&b.add(a0));
        let c0 = b.mul_by_v().add(a0);
        Fq12 { c0, c1, inp: None }
    }

    /// Multiplies by a `01234`-sparse element.
    pub fn mul_01234(&self, rhs: Fq12Sparse01234) -> (r: Fq12)
        ensures
            r@ == f12_mul_01234(self@, rhs@),
            r.origin() is None,
    {
        let (a0, a1) = (&self.c0, &self.c1);
        let (b0, b1) = (rhs.c0(), rhs.c1());
        let b = Fq6::new(b0.c0().add(b1.c0()), b0.c1().add(b1.c1()), b0.c2().duplicate(), None);
        let c1 = a0.add(a1).mul(&b);
        let u = a0.mul(b0);
        let v = a1.mul_01(b1);
        let c0 = v.mul_by_v().add(&u);
        let c1 = c1.sub(&u.add(&v));
        Fq12 { c0, c1, inp: None }
    }

    pub fn duplicate(&self) -> (r: Fq12)
        ensures
            r@ == self@,
    {
        Fq12 { c0: self.c0.duplicate(), c1: self.c1.duplicate(), inp: self.inp }
    }
}

} // verus!
