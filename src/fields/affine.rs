//! Affine points `(x, y)` over any field level.
use vstd::prelude::*;

use crate::fields::fq::Fq;
use crate::fields::fq2::{f2_input, Fq2};
use crate::fields::FieldOps;
use crate::circuit::e_input;

verus! {

/// `λ^2 - x1 - x2`.
pub open spec fn x_on_slope_spec<F: FieldOps>(p: (F::V, F::V), slope: F::V, x2: F::V) -> F::V {
    F::spec_sub(F::spec_sub(F::spec_sqr(slope), p.0), x2)
}

/// `λ (x1 - x) - y1`.
pub open spec fn y_on_slope_spec<F: FieldOps>(p: (F::V, F::V), slope: F::V, x: F::V) -> F::V {
    F::spec_sub(F::spec_mul(slope, F::spec_sub(p.0, x)), p.1)
}

/// The third point on the line of slope `λ` through `p`, reflected.
pub open spec fn pt_on_slope_spec<F: FieldOps>(p: (F::V, F::V), slope: F::V, x2: F::V) -> (F::V, F::V) {
    let x = x_on_slope_spec::<F>(p, slope, x2);
    (x, y_on_slope_spec::<F>(p, slope, x))
}

/// `(y2 - y1) / (x2 - x1)`.
pub open spec fn chord_spec<F: FieldOps>(p: (F::V, F::V), q: (F::V, F::V)) -> F::V {
    F::spec_div(F::spec_sub(q.1, p.1), F::spec_sub(q.0, p.0))
}

/// `3 x^2 / 2 y`, with the multiples formed by additions.
pub open spec fn tangent_spec<F: FieldOps>(p: (F::V, F::V)) -> F::V {
    let xs = F::spec_sqr(p.0);
    F::spec_div(F::spec_add(F::spec_add(xs, xs), xs), F::spec_add(p.1, p.1))
}

pub open spec fn add_spec<F: FieldOps>(p: (F::V, F::V), q: (F::V, F::V)) -> (F::V, F::V) {
    pt_on_slope_spec::<F>(p, chord_spec::<F>(p, q), q.0)
}

pub open spec fn double_spec<F: FieldOps>(p: (F::V, F::V)) -> (F::V, F::V) {
    pt_on_slope_spec::<F>(p, tangent_spec::<F>(p), p.0)
}

pub open spec fn neg_spec<F: FieldOps>(p: (F::V, F::V)) -> (F::V, F::V) {
    (p.0, F::spec_neg(p.1))
}

/// Point arithmetic in affine coordinates, over the field `F`.
pub trait ECOperations<F: FieldOps>: Sized {
    /// The point's coordinates.
    spec fn coords(&self) -> (F::V, F::V);

    /// Whether the point records the input positions it was built from;
    /// only fresh leaves do.
    spec fn is_leaf(&self) -> bool;

    fn x_on_slope(&self, slope: &F, x2: &F) -> (r: F)
        ensures
            r@ == x_on_slope_spec::<F>(self.coords(), slope@, x2@),
    ;

    fn y_on_slope(&self, slope: &F, x: &F) -> (r: F)
        ensures
            r@ == y_on_slope_spec::<F>(self.coords(), slope@, x@),
    ;

    fn pt_on_slope(&self, slope: &F, x2: &F) -> (r: Self)
        ensures
            r.coords() == pt_on_slope_spec::<F>(self.coords(), slope@, x2@),
            !r.is_leaf(),
    ;

    fn chord(&self, rhs: &Self) -> (r: F)
        ensures
            r@ == chord_spec::<F>(self.coords(), rhs.coords()),
    ;

    fn add(&self, rhs: &Self) -> (r: Self)
        ensures
            r.coords() == add_spec::<F>(self.coords(), rhs.coords()),
            !r.is_leaf(),
    ;

    fn tangent(&self) -> (r: F)
        ensures
            r@ == tangent_spec::<F>(self.coords()),
    ;

    fn double(&self) -> (r: Self)
        ensures
            r.coords() == double_spec::<F>(self.coords()),
            !r.is_leaf(),
    ;

    fn neg(&self) -> (r: Self)
        ensures
            r.coords() == neg_spec::<F>(self.coords()),
            !r.is_leaf(),
    ;
}

/// An affine point; the curve equation is assumed, never checked.
pub struct Affine<F: FieldOps> {
    x: F,
    y: F,
    inp: Option<[usize; 4]>,
}

impl<F: FieldOps> View for Affine<F> {
    type V = (F::V, F::V);

    closed spec fn view(&self) -> (F::V, F::V) {
        (self.x@, self.y@)
    }
}

impl<F: FieldOps> Affine<F> {
    /// The input positions this point was built from, if it is a fresh leaf.
    pub closed spec fn origin(&self) -> Option<[usize; 4]> {
        self.inp
    }

    pub fn x(&self) -> (r: &F)
        ensures
            r@ == self@.0,
    {
        &self.x
    }

    pub fn y(&self) -> (r: &F)
        ensures
            r@ == self@.1,
    {
        &self.y
    }

    pub fn duplicate(&self) -> (r: Self)
        ensures
            r@ == self@,
            r.origin() == self.origin(),
    {
        Affine { x: self.x.duplicate(), y: self.y.duplicate(), inp: self.inp }
    }
}

impl Affine<Fq> {
    /// A point over the base field; `inp` records its two input positions.
    pub fn new(x: Fq, y: Fq, inp: [usize; 2]) -> (r: Self)
        ensures
            r@ == (x@, y@),
            r.origin() == Some([inp[0], inp[1], 0usize, 0usize]),
    {
        Affine { x, y, inp: Some([inp[0], inp[1], 0, 0]) }
    }

    /// The leaf point that reads `x` and `y` from inputs `idx[0]`, `idx[1]`.
    pub fn new_input(idx: [usize; 2]) -> (r: Self)
        ensures
            r@ == (e_input(idx[0] as nat), e_input(idx[1] as nat)),
            r.origin() == Some([idx[0], idx[1], 0usize, 0usize]),
    {
        Affine { x: Fq::new_input(idx[0]), y: Fq::new_input(idx[1]), inp: Some([idx[0], idx[1], 0, 0]) }
    }
}

impl Affine<Fq2> {
    /// A point over the quadratic extension; `inp` records its input positions.
    pub fn new(x: Fq2, y: Fq2, inp: [usize; 4]) -> (r: Self)
        ensures
            r@ == (x@, y@),
            r.origin() == Some(inp),
    {
        Affine { x, y, inp: Some(inp) }
    }

    /// The leaf point that reads `x` from inputs `idx[0..2]` and `y` from `idx[2..4]`.
    pub fn new_input(idx: [usize; 4]) -> (r: Self)
        ensures
            r@ == (f2_input(idx[0] as nat, idx[1] as nat), f2_input(idx[2] as nat, idx[3] as nat)),
            r.origin() == Some(idx),
    {
        Affine {
            x: Fq2::new_input([idx[0], idx[1]]),
            y: Fq2::new_input([idx[2], idx[3]]),
            inp: Some(idx),
        }
    }
}

impl<F: FieldOps> ECOperations<F> for Affine<F> {
    open spec fn coords(&self) -> (F::V, F::V) {
        self@
    }

    closed spec fn is_leaf(&self) -> bool {
        self.inp is Some
    }

    fn x_on_slope(&self, slope: &F, x2: &F) -> (r: F) {
        slope.sqr().sub(&self.x).sub(x2)
    }

    fn y_on_slope(&self, slope: &F, x: &F) -> (r: F) {
        slope.mul(&self.x.sub(x)).sub(&self.y)
    }

    fn pt_on_slope(&self, slope: &F, x2: &F) -> (r: Self) {
        let x = self.x_on_slope(slope, x2);
        let y = self.y_on_slope(slope, &x);
        Affine { x, y, inp: None }
    }

    fn chord(&self, rhs: &Self) -> (r: F) {
        let (x0, y0) = (&self.x, &self.y);
        let (x1, y1) = (&rhs.x, &rhs.y);
        y1.sub(y0).div(&x1.sub(x0))
    }

    fn add(&self, rhs: &Self) -> (r: Self) {
        self.pt_on_slope(&self.chord(rhs), &rhs.x)
    }

    fn tangent(&self) -> (r: F) {
        let (x, y) = (&self.x, &self.y);
        let x_sqr = x.sqr();
        x_sqr.add(&x_sqr).add(&x_sqr).div(&y.add(y))
    }

    fn double(&self) -> (r: Self) {
        self.pt_on_slope(&self.tangent(), &self.x)
    }

    fn neg(&self) -> (r: Self) {
        Affine { x: self.x.duplicate(), y: self.y.neg(), inp: None }
    }
}

} // verus!
