//! Properties of the generated circuits, stated over their expression trees.
use vstd::prelude::*;

use crate::circuit::{e_add, e_input, e_mul, e_sub, Expr};
use crate::eval::{eval, field_modulus, is_inverse};
use vstd::arithmetic::div_mod::{lemma_mod_add_multiples_vanish, lemma_small_mod};
use crate::fields::fq::f1_neg;
use crate::fields::fq12::{f12_add, f12_neg, F12};
use crate::fields::fq2::{f2_add, f2_input, f2_mul, f2_neg, F2};
use crate::fields::fq6::{f6_add, f6_neg, F6};

verus! {

/// The number of multiplication gates in a tree.
pub open spec fn mul_gates(e: Expr) -> nat
    decreases e,
{
    match e {
        Expr::Input(_) => 0,
        Expr::Raw(_) => 0,
        Expr::Add(a, b) => mul_gates(*a) + mul_gates(*b),
        Expr::Sub(a, b) => mul_gates(*a) + mul_gates(*b),
        Expr::Mul(a, b) => 1 + mul_gates(*a) + mul_gates(*b),
        Expr::Inv(a) => mul_gates(*a),
        Expr::Element(a) => mul_gates(*a),
    }
}

/// The quadratic product is the textbook Karatsuba tree, node for node:
/// `c0 = a0 b0 - a1 b1` and `c1 = (a0 + a1)(b0 + b1) - (a0 b0 + a1 b1)`,
/// for any operands.
pub proof fn law_fq2_mul_is_karatsuba(a: F2, b: F2)
    ensures
        f2_mul(a, b).0 == e_sub(e_mul(a.0, b.0), e_mul(a.1, b.1)),
        f2_mul(a, b).1 == e_sub(
            e_mul(e_add(a.0, a.1), e_add(b.0, b.1)),
            e_add(e_mul(a.0, b.0), e_mul(a.1, b.1)),
        ),
{
}

/// For leaves at any input positions, the product's second coefficient
/// holds exactly three multiplication gates, `a0 b0`, `a1 b1` and
/// `(a0 + a1)(b0 + b1)`, and the first exactly two.
pub proof fn law_fq2_mul_three_products(i0: nat, i1: nat, j0: nat, j1: nat)
    ensures
        mul_gates(f2_mul(f2_input(i0, i1), f2_input(j0, j1)).1) == 3,
        mul_gates(f2_mul(f2_input(i0, i1), f2_input(j0, j1)).0) == 2,
{
    let (a0, a1, b0, b1) = (e_input(i0), e_input(i1), e_input(j0), e_input(j1));
    assert(mul_gates(a0) == 0 && mul_gates(a1) == 0 && mul_gates(b0) == 0 && mul_gates(b1) == 0);
    assert(mul_gates(e_mul(a0, b0)) == 1);
    assert(mul_gates(e_mul(a1, b1)) == 1);
    assert(mul_gates(e_add(a0, a1)) == 0);
    assert(mul_gates(e_add(b0, b1)) == 0);
    assert(mul_gates(e_mul(e_add(a0, a1), e_add(b0, b1))) == 1);
    assert(mul_gates(e_add(e_mul(a0, b0), e_mul(a1, b1))) == 2);
}

/// `x + neg(x)` evaluates to zero, whatever `x` and the inputs hold.
pub proof fn law_fq_add_neg_is_zero(x: Expr, w: spec_fn(nat) -> int, raw: spec_fn(Seq<char>) -> int)
    ensures
        eval(e_add(x, f1_neg(x)), w, raw) == 0,
{
    let p = field_modulus();
    assert(p > 0);
    let v = eval(x, w, raw);
    let z = eval(e_sub(e_input(0), e_input(0)), w, raw);
    lemma_small_mod(0, p as nat);
    lemma_mod_add_multiples_vanish(0, p);
    assert(0 <= v < p) by {
        lemma_eval_range(x, w, raw);
    }
    assert(eval(e_input(0), w, raw) == w(0) % p);
    assert(z == 0);
    assert(eval(f1_neg(x), w, raw) == (0 - v) % p);
    assert(eval(e_add(x, f1_neg(x)), w, raw) == (v + (0 - v) % p) % p);
    if v == 0 {
        assert((0 - v) % p == 0);
    } else {
        lemma_mod_add_multiples_vanish(0 - v, p);
        lemma_small_mod((p - v) as nat, p as nat);
        assert((0 - v) % p == p - v);
    }
}

/// Values lie in `[0, p)`.
pub proof fn lemma_eval_range(e: Expr, w: spec_fn(nat) -> int, raw: spec_fn(Seq<char>) -> int)
    ensures
        0 <= eval(e, w, raw) < field_modulus(),
    decreases e,
{
    match e {
        Expr::Inv(a) => {
            let v = eval(*a, w, raw);
            let p = field_modulus();
            if exists|y: int| #[trigger] is_inverse(v, y) {
                let y = choose|y: int| #[trigger] is_inverse(v, y);
            }
        },
        Expr::Element(a) => {
            lemma_eval_range(*a, w, raw);
        },
        _ => {},
    }
}

/// In the quadratic extension, `A + (-A)` evaluates to zero in both
/// coefficients, for every value of the inputs.
pub proof fn law_fq2_add_neg_is_zero(a: F2, w: spec_fn(nat) -> int, raw: spec_fn(Seq<char>) -> int)
    ensures
        eval(f2_add(a, f2_neg(a)).0, w, raw) == 0,
        eval(f2_add(a, f2_neg(a)).1, w, raw) == 0,
{
    law_fq_add_neg_is_zero(a.0, w, raw);
    law_fq_add_neg_is_zero(a.1, w, raw);
}

/// Both coefficients of a quadratic element evaluate to zero.
pub open spec fn f2_vanishes(v: F2, w: spec_fn(nat) -> int, raw: spec_fn(Seq<char>) -> int) -> bool {
    eval(v.0, w, raw) == 0 && eval(v.1, w, raw) == 0
}

/// In the sextic extension, `A + (-A)` evaluates to zero in all six base
/// coefficients, for every value of the inputs.
pub proof fn law_fq6_add_neg_is_zero(a: F6, w: spec_fn(nat) -> int, raw: spec_fn(Seq<char>) -> int)
    ensures
        f2_vanishes(f6_add(a, f6_neg(a)).0, w, raw),
        f2_vanishes(f6_add(a, f6_neg(a)).1, w, raw),
        f2_vanishes(f6_add(a, f6_neg(a)).2, w, raw),
{
    law_fq2_add_neg_is_zero(a.0, w, raw);
    law_fq2_add_neg_is_zero(a.1, w, raw);
    law_fq2_add_neg_is_zero(a.2, w, raw);
}

/// In the duodecimal extension, `A + (-A)` evaluates to zero in all twelve
/// base coefficients, for every value of the inputs.
pub proof fn law_fq12_add_neg_is_zero(a: F12, w: spec_fn(nat) -> int, raw: spec_fn(Seq<char>) -> int)
    ensures
        f2_vanishes(f12_add(a, f12_neg(a)).0.0, w, raw),
        f2_vanishes(f12_add(a, f12_neg(a)).0.1, w, raw),
        f2_vanishes(f12_add(a, f12_neg(a)).0.2, w, raw),
        f2_vanishes(f12_add(a, f12_neg(a)).1.0, w, raw),
        f2_vanishes(f12_add(a, f12_neg(a)).1.1, w, raw),
        f2_vanishes(f12_add(a, f12_neg(a)).1.2, w, raw),
{
    law_fq6_add_neg_is_zero(a.0, w, raw);
    law_fq6_add_neg_is_zero(a.1, w, raw);
}

} // verus!
