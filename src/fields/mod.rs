//! The field tower: base, quadratic, sextic and duodecimal extensions, the
//! sparse operands of the pairing loop, and affine points over them.
use vstd::prelude::*;

pub mod fq;
pub mod fq2;
pub mod fq6;
pub mod fq12;
pub mod sparse;
pub mod fq12_squaring;
pub mod affine;

verus! {

/// The arithmetic that every field level offers. Each operation builds new
/// expression nodes; the spec functions give the expression trees it builds.
pub trait FieldOps: View + Sized {
    spec fn spec_add(a: Self::V, b: Self::V) -> Self::V;

    spec fn spec_sub(a: Self::V, b: Self::V) -> Self::V;

    spec fn spec_mul(a: Self::V, b: Self::V) -> Self::V;

    spec fn spec_div(a: Self::V, b: Self::V) -> Self::V;

    spec fn spec_sqr(a: Self::V) -> Self::V;

    spec fn spec_neg(a: Self::V) -> Self::V;

    spec fn spec_inv(a: Self::V) -> Self::V;

    /// Whether the element records the input positions it was built from;
    /// only fresh leaves do.
    spec fn is_leaf(&self) -> bool;

    fn add(&self, rhs: &Self) -> (r: Self)
        ensures
            r@ == Self::spec_add(self@, rhs@),
            !r.is_leaf(),
    ;

    fn sub(&self, rhs: &Self) -> (r: Self)
        ensures
            r@ == Self::spec_sub(self@, rhs@),
            !r.is_leaf(),
    ;

    fn mul(&self, rhs: &Self) -> (r: Self)
        ensures
            r@ == Self::spec_mul(self@, rhs@),
            !r.is_leaf(),
    ;

    fn div(&self, rhs: &Self) -> (r: Self)
        ensures
            r@ == Self::spec_div(self@, rhs@),
            !r.is_leaf(),
    ;

    fn sqr(&self) -> (r: Self)
        ensures
            r@ == Self::spec_sqr(self@),
            !r.is_leaf(),
    ;

    fn neg(&self) -> (r: Self)
        ensures
            r@ == Self::spec_neg(self@),
            !r.is_leaf(),
    ;

    fn inv(&self) -> (r: Self)
        ensures
            r@ == Self::spec_inv(self@),
            !r.is_leaf(),
    ;

    /// A copy of the element, expression trees included.
    fn duplicate(&self) -> (r: Self)
        ensures
            r@ == self@,
    ;
}

/// The constants one and zero, built from circuit input 0.
pub trait FieldConstants: View + Sized {
    spec fn spec_one() -> Self::V;

    spec fn spec_zero() -> Self::V;

    fn one() -> (r: Self)
        ensures
            r@ == Self::spec_one(),
    ;

    fn zero() -> (r: Self)
        ensures
            r@ == Self::spec_zero(),
    ;
}

/// Scaling an extension element by an element of the level below.
pub trait FieldUtils: FieldOps {
    type FieldChild: View;

    spec fn spec_scale(a: Self::V, by: <Self::FieldChild as View>::V) -> Self::V;

    fn scale(&self, by: &Self::FieldChild) -> (r: Self)
        ensures
            r@ == Self::spec_scale(self@, by@),
            !r.is_leaf(),
    ;
}

} // verus!
