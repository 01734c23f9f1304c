//! The sextic extension: triples of quadratic extension elements, a cubic
//! extension over the quadratic non-residue.
use vstd::prelude::*;

use crate::fields::fq2::{
    f2_add, f2_input, f2_inv, f2_mul, f2_mul_by_xi, f2_neg, f2_sqr, f2_sub, Fq2, F2,
};
use crate::fields::sparse::Fq6Sparse01;
use crate::fields::FieldOps;

verus! {

/// The expression trees of a sextic extension element, `(c0, c1, c2)`.
pub type F6 = (F2, F2, F2);

pub open spec fn f6_input(idx: Seq<usize>) -> F6 {
    (
        f2_input(idx[0] as nat, idx[1] as nat),
        f2_input(idx[2] as nat, idx[3] as nat),
        f2_input(idx[4] as nat, idx[5] as nat),
    )
}

pub open spec fn f6_add(a: F6, b: F6) -> F6 {
    (f2_add(a.0, b.0), f2_add(a.1, b.1), f2_add(a.2, b.2))
}

pub open spec fn f6_sub(a: F6, b: F6) -> F6 {
    (f2_sub(a.0, b.0), f2_sub(a.1, b.1), f2_sub(a.2, b.2))
}

pub open spec fn f6_neg(a: F6) -> F6 {
    (f2_neg(a.0), f2_neg(a.1), f2_neg(a.2))
}

/// Three-term Karatsuba, with one multiplication by the non-residue for
/// each term that wraps around.
pub open spec fn f6_mul(a: F6, b: F6) -> F6 {
    let v0 = f2_mul(a.0, b.0);
    let v1 = f2_mul(a.1, b.1);
    let v2 = f2_mul(a.2, b.2);
    let c0 = f2_add(
        v0,
        f2_mul_by_xi(f2_sub(f2_sub(f2_mul(f2_add(a.1, a.2), f2_add(b.1, b.2)), v1), v2)),
    );
    let c1 = f2_add(
        f2_sub(f2_sub(f2_mul(f2_add(a.0, a.1), f2_add(b.0, b.1)), v0), v1),
        f2_mul_by_xi(v2),
    );
    let c2 = f2_sub(f2_add(f2_sub(f2_mul(f2_add(a.0, a.2), f2_add(b.0, b.2)), v0), v1), v2);
    (c0, c1, c2)
}

/// Chung-Hasan squaring (SQR2).
pub open spec fn f6_sqr(a: F6) -> F6 {
    let s0 = f2_sqr(a.0);
    let ab = f2_mul(a.0, a.1);
    let s1 = f2_add(ab, ab);
    let s2 = f2_sqr(f2_sub(f2_add(a.0, a.2), a.1));
    let bc = f2_mul(a.1, a.2);
    let s3 = f2_add(bc, bc);
    let s4 = f2_sqr(a.2);
    (
        f2_add(s0, f2_mul_by_xi(s3)),
        f2_add(s1, f2_mul_by_xi(s4)),
        f2_sub(f2_sub(f2_add(f2_add(s1, s2), s3), s0), s4),
    )
}

/// Inversion through the norm: three cofactors and one quadratic inverse.
pub open spec fn f6_inv(a: F6) -> F6 {
    let v0 = f2_sub(f2_sqr(a.0), f2_mul_by_xi(f2_mul(a.1, a.2)));
    let v1 = f2_sub(f2_mul_by_xi(f2_sqr(a.2)), f2_mul(a.0, a.1));
    let v2 = f2_sub(f2_sqr(a.1), f2_mul(a.0, a.2));
    let t = f2_inv(
        f2_add(f2_mul_by_xi(f2_add(f2_mul(a.2, v1), f2_mul(a.1, v2))), f2_mul(a.0, v0)),
    );
    (f2_mul(v0, t), f2_mul(v1, t), f2_mul(v2, t))
}

pub open spec fn f6_div(a: F6, b: F6) -> F6 {
    f6_mul(a, f6_inv(b))
}

/// Multiplication by `v`: the coefficients shift up by one and the one that
/// wraps around is multiplied by the non-residue.
pub open spec fn f6_mul_by_v(a: F6) -> F6 {
    (f2_mul_by_xi(a.2), a.0, a.1)
}

/// Karatsuba against `b0 + b1 v`, whose third coefficient is zero.
pub open spec fn f6_mul_01(a: F6, b: (F2, F2)) -> F6 {
    let v0 = f2_mul(a.0, b.0);
    let v1 = f2_mul(a.1, b.1);
    (
        f2_add(f2_mul_by_xi(f2_sub(f2_mul(f2_add(a.1, a.2), b.1), v1)), v0),
        f2_sub(f2_sub(f2_mul(f2_add(a.0, a.1), f2_add(b.0, b.1)), v0), v1),
        f2_add(f2_mul(a.2, b.0), v1),
    )
}

/// A sextic extension element `c0 + c1 v + c2 v^2`.
pub struct Fq6 {
    c0: Fq2,
    c1: Fq2,
    c2: Fq2,
    inp: Option<[usize; 6]>,
}

impl View for Fq6 {
    type V = F6;

    closed spec fn view(&self) -> F6 {
        (self.c0@, self.c1@, self.c2@)
    }
}

impl Fq6 {
    /// The input positions this element was built from, if it is a fresh leaf.
    pub closed spec fn origin(&self) -> Option<[usize; 6]> {
        self.inp
    }

    pub fn new(c0: Fq2, c1: Fq2, c2: Fq2, inp: Option<[usize; 6]>) -> (r: Fq6)
        ensures
            r@ == (c0@, c1@, c2@),
            r.origin() == inp,
    {
        Fq6 { c0, c1, c2, inp }
    }

    /// The leaf that reads circuit inputs `idx`, two per coefficient.
    pub fn new_input(idx: [usize; 6]) -> (r: Fq6)
        ensures
            r@ == f6_input(idx@),
            r.origin() == Some(idx),
    {
        Fq6 {
            c0: Fq2::new_input([idx[0], idx[1]]),
            c1: Fq2::new_input([idx[2], idx[3]]),
            c2: Fq2::new_input([idx[4], idx[5]]),
            inp: Some(idx),
        }
    }

    pub fn c0(&self) -> (r: &Fq2)
        ensures
            r@ == self@.0,
    {
        &self.c0
    }

    pub fn c1(&self) -> (r: &Fq2)
        ensures
            r@ == self@.1,
    {
        &self.c1
    }

    pub fn c2(&self) -> (r: &Fq2)
        ensures
            r@ == self@.2,
    {
        &self.c2
    }

    /// Multiplies by a sparse operand whose third coefficient is zero.
    pub fn mul_01(&self, rhs: &Fq6Sparse01) -> (r: Fq6)
        ensures
            r@ == f6_mul_01(self@, rhs@),
            r.origin() is None,
    {
        let (a0, a1, a2) = (&self.c0, &self.c1, &self.c2);
        let (b0, b1) = (rhs.c0(), rhs.c1());
        let v0 = a0.mul(b0);
        let v1 = a1.mul(b1);
        let c0 = a1.add(a2).mul(b1).sub(&v1).mul_by_xi().add(&v0);
        let c1 = a0.add(a1).mul(&b0.add(b1)).sub(&v0).sub(&v1);
        let c2 = a2.mul(b0).add(&v1);
        Fq6 { c0, c1, c2, inp: None }
    }

    pub fn mul_by_v(&self) -> (r: Fq6)
        ensures
            r@ == f6_mul_by_v(self@),
            r.origin() is None,
    {
        Fq6 { c0: self.c2.mul_by_xi(), c1: self.c0.duplicate(), c2: self.c1.duplicate(), inp: None }
    }
}

impl FieldOps for Fq6 {
    open spec fn spec_add(a: F6, b: F6) -> F6 {
        f6_add(a, b)
    }

    open spec fn spec_sub(a: F6, b: F6) -> F6 {
        f6_sub(a, b)
    }

    open spec fn spec_mul(a: F6, b: F6) -> F6 {
        f6_mul(a, b)
    }

    open spec fn spec_div(a: F6, b: F6) -> F6 {
        f6_div(a, b)
    }

    open spec fn spec_sqr(a: F6) -> F6 {
        f6_sqr(a)
    }

    open spec fn spec_neg(a: F6) -> F6 {
        f6_neg(a)
    }

    open spec fn spec_inv(a: F6) -> F6 {
        f6_inv(a)
    }

    closed spec fn is_leaf(&self) -> bool {
        self.inp is Some
    }

    fn add(&self, rhs: &Self) -> (r: Self) {
        Fq6 { c0: self.c0.add(&rhs.c0), c1: self.c1.add(&rhs.c1), c2: self.c2.add(&rhs.c2), inp: None }
    }

    fn sub(&self, rhs: &Self) -> (r: Self) {
        Fq6 { c0: self.c0.sub(&rhs.c0), c1: self.c1.sub(&rhs.c1), c2: self.c2.sub(&rhs.c2), inp: None }
    }

    fn mul(&self, rhs: &Self) -> (r: Self) {
        let (a0, a1, a2) = (&self.c0, &self.c1, &self.c2);
        let (b0, b1, b2) = (&rhs.c0, &rhs.c1, &rhs.c2);
        let v0 = a0.mul(b0);
        let v1 = a1.mul(b1);
        let v2 = a2.mul(b2);
        let c0 = v0.add(&a1.add(a2).mul(&b1.add(b2)).sub(&v1).sub(&v2).mul_by_xi());
        let c1 = a0.add(a1).mul(&b0.add(b1)).sub(&v0).sub(&v1).add(&v2.mul_by_xi());
        let c2 = a0.add(a2).mul(&b0.add(b2)).sub(&v0).add(&v1).sub(&v2);
        Fq6 { c0, c1, c2, inp: None }
    }

    fn sqr(&self) -> (r: Self) {
        let (c0, c1, c2) = (&self.c0, &self.c1, &self.c2);
        let s0 = c0.sqr();
        let ab = c0.mul(c1);
        let s1 = ab.add(&ab);
        let s2 = c0.add(c2).sub(c1).sqr();
        let bc = c1.mul(c2);
        let s3 = bc.add(&bc);
        let s4 = c2.sqr();
        let r0 = s0.add(&s3.mul_by_xi());
        let r1 = s1.add(&s4.mul_by_xi());
        let r2 = s1.add(&s2).add(&s3).sub(&s0).sub(&s4);
        Fq6 { c0: r0, c1: r1, c2: r2, inp: None }
    }

    fn neg(&self) -> (r: Self) {
        Fq6 { c0: self.c0.neg(), c1: self.c1.neg(), c2: self.c2.neg(), inp: None }
    }

    fn inv(&self) -> (r: Self) {
        let (c0, c1, c2) = (&self.c0, &self.c1, &self.c2);
        let v0 = c0.sqr().sub(&c1.mul(c2).mul_by_xi());
        let v1 = c2.sqr().mul_by_xi().sub(&c0.mul(c1));
        let v2 = c1.sqr().sub(&c0.mul(c2));
        let t = c2.mul(&v1).add(&c1.mul(&v2)).mul_by_xi().add(&c0.mul(&v0)).inv();
        Fq6 { c0: v0.mul(&t), c1: v1.mul(&t), c2: v2.mul(&t), inp: None }
    }

    fn div(&self, rhs: &Self) -> (r: Self) {
        self.mul(&rhs.inv())
    }

    fn duplicate(&self) -> (r: Self) {
        Fq6 {
            c0: self.c0.duplicate(),
            c1: self.c1.duplicate(),
            c2: self.c2.duplicate(),
            inp: self.inp,
        }
    }
}

} // verus!
