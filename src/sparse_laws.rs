//! The sparse line products against their dense counterparts, under
//! evaluation. Values are first followed exactly over the integers, then
//! reduced modulo the prime.
use vstd::prelude::*;

use crate::circuit::{e_add, e_mul, e_sub, Expr};
use crate::fields::fq::{f1_one, f1_scl_9, f1_zero};
use crate::fields::fq12::{f12_mul, F12};
use crate::fields::sparse::f12_mul_034_by_034;
use crate::emit::adder::f12_coefs;
use crate::fields::fq2::{f2_add, f2_mul, f2_mul_by_xi, f2_sqr, f2_sub, F2};
use crate::fields::fq6::{f6_add, f6_mul, f6_mul_by_v, f6_sub, F6};
use crate::eval::{eval, field_modulus, inv_mod};
use crate::laws::lemma_eval_range;
use vstd::arithmetic::div_mod::{lemma_add_mod_noop, lemma_mul_mod_noop_general, lemma_sub_mod_noop};

verus! {

/// The exact integer value of a tree; an inverse node stands for the
/// reduced inverse of its operand's value.
pub open spec fn pe(e: Expr, w: spec_fn(nat) -> int, raw: spec_fn(Seq<char>) -> int) -> int
    decreases e,
{
    match e {
        Expr::Input(i) => w(i),
        Expr::Raw(s) => raw(s),
        Expr::Add(a, b) => pe(*a, w, raw) + pe(*b, w, raw),
        Expr::Sub(a, b) => pe(*a, w, raw) - pe(*b, w, raw),
        Expr::Mul(a, b) => pe(*a, w, raw) * pe(*b, w, raw),
        Expr::Inv(a) => inv_mod(eval(*a, w, raw)),
        Expr::Element(a) => pe(*a, w, raw),
    }
}

/// Evaluation is the exact value, reduced.
pub proof fn lemma_eval_pe(e: Expr, w: spec_fn(nat) -> int, raw: spec_fn(Seq<char>) -> int)
    ensures
        eval(e, w, raw) == pe(e, w, raw) % field_modulus(),
    decreases e,
{
    let p = field_modulus();
    assert(p > 0);
    match e {
        Expr::Add(a, b) => {
            lemma_eval_pe(*a, w, raw);
            lemma_eval_pe(*b, w, raw);
            lemma_add_mod_noop(pe(*a, w, raw), pe(*b, w, raw), p);
        },
        Expr::Sub(a, b) => {
            lemma_eval_pe(*a, w, raw);
            lemma_eval_pe(*b, w, raw);
            lemma_sub_mod_noop(pe(*a, w, raw), pe(*b, w, raw), p);
        },
        Expr::Mul(a, b) => {
            lemma_eval_pe(*a, w, raw);
            lemma_eval_pe(*b, w, raw);
            lemma_mul_mod_noop_general(pe(*a, w, raw), pe(*b, w, raw), p);
        },
        Expr::Inv(a) => {
            lemma_eval_range(e, w, raw);
            vstd::arithmetic::div_mod::lemma_small_mod(eval(e, w, raw) as nat, p as nat);
        },
        Expr::Element(a) => {
            lemma_eval_pe(*a, w, raw);
        },
        _ => {},
    }
}

/// A quadratic extension value over the integers, `x0 + x1 u` with `u^2 = -1`.
pub type Z2 = (int, int);

pub open spec fn pe2(v: F2, w: spec_fn(nat) -> int, raw: spec_fn(Seq<char>) -> int) -> Z2 {
    (pe(v.0, w, raw), pe(v.1, w, raw))
}

pub open spec fn z2_add(a: Z2, b: Z2) -> Z2 {
    (a.0 + b.0, a.1 + b.1)
}

pub open spec fn z2_sub(a: Z2, b: Z2) -> Z2 {
    (a.0 - b.0, a.1 - b.1)
}

/// The schoolbook product.
pub open spec fn z2_mul(a: Z2, b: Z2) -> Z2 {
    (a.0 * b.0 - a.1 * b.1, a.0 * b.1 + a.1 * b.0)
}

/// Multiplication by `9 + u`.
pub open spec fn z2_xi(a: Z2) -> Z2 {
    (9 * a.0 - a.1, 9 * a.1 + a.0)
}

pub proof fn lemma_pe2_add(a: F2, b: F2, w: spec_fn(nat) -> int, raw: spec_fn(Seq<char>) -> int)
    ensures
        pe2(f2_add(a, b), w, raw) == z2_add(pe2(a, w, raw), pe2(b, w, raw)),
{
}

pub proof fn lemma_pe2_sub(a: F2, b: F2, w: spec_fn(nat) -> int, raw: spec_fn(Seq<char>) -> int)
    ensures
        pe2(f2_sub(a, b), w, raw) == z2_sub(pe2(a, w, raw), pe2(b, w, raw)),
{
}

/// The Karatsuba tree evaluates exactly to the schoolbook product.
pub proof fn lemma_pe2_mul(a: F2, b: F2, w: spec_fn(nat) -> int, raw: spec_fn(Seq<char>) -> int)
    ensures
        pe2(f2_mul(a, b), w, raw) == z2_mul(pe2(a, w, raw), pe2(b, w, raw)),
{
    let (x0, x1) = pe2(a, w, raw);
    let (y0, y1) = pe2(b, w, raw);
    let t0 = e_mul(a.0, b.0);
    let t1 = e_mul(a.1, b.1);
    let s = e_mul(e_add(a.0, a.1), e_add(b.0, b.1));
    assert(pe(t0, w, raw) == x0 * y0);
    assert(pe(t1, w, raw) == x1 * y1);
    assert(pe(e_add(a.0, a.1), w, raw) == x0 + x1);
    assert(pe(e_add(b.0, b.1), w, raw) == y0 + y1);
    assert(pe(s, w, raw) == (x0 + x1) * (y0 + y1));
    assert(pe(e_add(t0, t1), w, raw) == x0 * y0 + x1 * y1);
    assert((x0 + x1) * (y0 + y1) - (x0 * y0 + x1 * y1) == x0 * y1 + x1 * y0) by (nonlinear_arith);
}

pub proof fn lemma_pe2_sqr(a: F2, w: spec_fn(nat) -> int, raw: spec_fn(Seq<char>) -> int)
    ensures
        pe2(f2_sqr(a), w, raw) == z2_mul(pe2(a, w, raw), pe2(a, w, raw)),
{
    let (x0, x1) = pe2(a, w, raw);
    assert(pe(e_add(a.0, a.1), w, raw) == x0 + x1);
    assert(pe(e_sub(a.0, a.1), w, raw) == x0 - x1);
    assert(pe(e_add(a.0, a.0), w, raw) == x0 + x0);
    assert((x0 + x1) * (x0 - x1) == x0 * x0 - x1 * x1) by (nonlinear_arith);
    assert((x0 + x0) * x1 == x0 * x1 + x1 * x0) by (nonlinear_arith);
}

pub proof fn lemma_pe_scl_9(x: Expr, w: spec_fn(nat) -> int, raw: spec_fn(Seq<char>) -> int)
    ensures
        pe(f1_scl_9(x), w, raw) == 9 * pe(x, w, raw),
{
    let two = e_add(x, x);
    let four = e_add(two, two);
    let eight = e_add(four, four);
    assert(pe(two, w, raw) == 2 * pe(x, w, raw));
    assert(pe(four, w, raw) == 4 * pe(x, w, raw));
    assert(pe(eight, w, raw) == 8 * pe(x, w, raw));
}

pub proof fn lemma_pe2_xi(a: F2, w: spec_fn(nat) -> int, raw: spec_fn(Seq<char>) -> int)
    ensures
        pe2(f2_mul_by_xi(a), w, raw) == z2_xi(pe2(a, w, raw)),
{
    lemma_pe_scl_9(a.0, w, raw);
    lemma_pe_scl_9(a.1, w, raw);
}

/// `(a + b)(c + d) - ac - bd = ad + bc` for quadratic values.
pub proof fn lemma_z2_kara(a: Z2, b: Z2, c: Z2, d: Z2)
    ensures
        z2_sub(z2_sub(z2_mul(z2_add(a, b), z2_add(c, d)), z2_mul(a, c)), z2_mul(b, d))
            == z2_add(z2_mul(a, d), z2_mul(b, c)),
{
    let (a0, a1, b0, b1) = (a.0, a.1, b.0, b.1);
    let (c0, c1, d0, d1) = (c.0, c.1, d.0, d.1);
    lemma_expand(a0, b0, c0, d0);
    lemma_expand(a1, b1, c1, d1);
    lemma_expand(a0, b0, c1, d1);
    lemma_expand(a1, b1, c0, d0);
}

/// `(a + b)(c + d) = ac + ad + bc + bd`.
proof fn lemma_expand(a: int, b: int, c: int, d: int)
    ensures
        (a + b) * (c + d) == a * c + a * d + b * c + b * d,
{
    assert((a + b) * (c + d) == a * c + a * d + b * c + b * d) by (nonlinear_arith);
}

/// The quadratic product commutes.
pub proof fn lemma_z2_mul_comm(a: Z2, b: Z2)
    ensures
        z2_mul(a, b) == z2_mul(b, a),
{
    assert(a.0 * b.0 == b.0 * a.0 && a.1 * b.1 == b.1 * a.1 && a.0 * b.1 == b.1 * a.0
        && a.1 * b.0 == b.0 * a.1) by (nonlinear_arith);
}

/// A sextic extension value over the integers, `c0 + c1 v + c2 v^2` with
/// `v^3 = 9 + u`.
pub type Z6 = (Z2, Z2, Z2);

pub open spec fn pe6(v: F6, w: spec_fn(nat) -> int, raw: spec_fn(Seq<char>) -> int) -> Z6 {
    (pe2(v.0, w, raw), pe2(v.1, w, raw), pe2(v.2, w, raw))
}

pub open spec fn z6_add(a: Z6, b: Z6) -> Z6 {
    (z2_add(a.0, b.0), z2_add(a.1, b.1), z2_add(a.2, b.2))
}

pub open spec fn z6_sub(a: Z6, b: Z6) -> Z6 {
    (z2_sub(a.0, b.0), z2_sub(a.1, b.1), z2_sub(a.2, b.2))
}

/// The schoolbook product.
pub open spec fn z6_mul(a: Z6, b: Z6) -> Z6 {
    (
        z2_add(z2_mul(a.0, b.0), z2_xi(z2_add(z2_mul(a.1, b.2), z2_mul(a.2, b.1)))),
        z2_add(z2_add(z2_mul(a.0, b.1), z2_mul(a.1, b.0)), z2_xi(z2_mul(a.2, b.2))),
        z2_add(z2_add(z2_mul(a.0, b.2), z2_mul(a.1, b.1)), z2_mul(a.2, b.0)),
    )
}

/// Multiplication by `v`.
pub open spec fn z6_shift(a: Z6) -> Z6 {
    (z2_xi(a.2), a.0, a.1)
}

pub proof fn lemma_pe6_add(a: F6, b: F6, w: spec_fn(nat) -> int, raw: spec_fn(Seq<char>) -> int)
    ensures
        pe6(f6_add(a, b), w, raw) == z6_add(pe6(a, w, raw), pe6(b, w, raw)),
{
}

pub proof fn lemma_pe6_sub(a: F6, b: F6, w: spec_fn(nat) -> int, raw: spec_fn(Seq<char>) -> int)
    ensures
        pe6(f6_sub(a, b), w, raw) == z6_sub(pe6(a, w, raw), pe6(b, w, raw)),
{
}

pub proof fn lemma_pe6_shift(a: F6, w: spec_fn(nat) -> int, raw: spec_fn(Seq<char>) -> int)
    ensures
        pe6(f6_mul_by_v(a), w, raw) == z6_shift(pe6(a, w, raw)),
{
    lemma_pe2_xi(a.2, w, raw);
}

/// The three-term Karatsuba tree evaluates exactly to the schoolbook product.
pub proof fn lemma_pe6_mul(a: F6, b: F6, w: spec_fn(nat) -> int, raw: spec_fn(Seq<char>) -> int)
    ensures
        pe6(f6_mul(a, b), w, raw) == z6_mul(pe6(a, w, raw), pe6(b, w, raw)),
{
    let (x0, x1, x2) = pe6(a, w, raw);
    let (y0, y1, y2) = pe6(b, w, raw);
    lemma_pe2_mul(a.0, b.0, w, raw);
    lemma_pe2_mul(a.1, b.1, w, raw);
    lemma_pe2_mul(a.2, b.2, w, raw);
    let v0 = f2_mul(a.0, b.0);
    let v1 = f2_mul(a.1, b.1);
    let v2 = f2_mul(a.2, b.2);

    let s12 = f2_mul(f2_add(a.1, a.2), f2_add(b.1, b.2));
    lemma_pe2_add(a.1, a.2, w, raw);
    lemma_pe2_add(b.1, b.2, w, raw);
    lemma_pe2_mul(f2_add(a.1, a.2), f2_add(b.1, b.2), w, raw);
    lemma_pe2_sub(s12, v1, w, raw);
    lemma_pe2_sub(f2_sub(s12, v1), v2, w, raw);
    lemma_pe2_xi(f2_sub(f2_sub(s12, v1), v2), w, raw);
    lemma_pe2_add(v0, f2_mul_by_xi(f2_sub(f2_sub(s12, v1), v2)), w, raw);
    lemma_z2_kara(x1, x2, y1, y2);

    let s01 = f2_mul(f2_add(a.0, a.1), f2_add(b.0, b.1));
    lemma_pe2_add(a.0, a.1, w, raw);
    lemma_pe2_add(b.0, b.1, w, raw);
    lemma_pe2_mul(f2_add(a.0, a.1), f2_add(b.0, b.1), w, raw);
    lemma_pe2_sub(s01, v0, w, raw);
    lemma_pe2_sub(f2_sub(s01, v0), v1, w, raw);
    lemma_pe2_xi(v2, w, raw);
    lemma_pe2_add(f2_sub(f2_sub(s01, v0), v1), f2_mul_by_xi(v2), w, raw);
    lemma_z2_kara(x0, x1, y0, y1);

    let s02 = f2_mul(f2_add(a.0, a.2), f2_add(b.0, b.2));
    lemma_pe2_add(a.0, a.2, w, raw);
    lemma_pe2_add(b.0, b.2, w, raw);
    lemma_pe2_mul(f2_add(a.0, a.2), f2_add(b.0, b.2), w, raw);
    lemma_pe2_sub(s02, v0, w, raw);
    lemma_pe2_add(f2_sub(s02, v0), v1, w, raw);
    lemma_pe2_sub(f2_add(f2_sub(s02, v0), v1), v2, w, raw);
    lemma_z2_kara(x0, x2, y0, y2);
}

/// The two lines `1 + (c3 + c4 v) w` and `1 + (d3 + d4 v) w`, with the one
/// standing for `o`, multiplied densely over the integers.
proof fn lemma_dense_line_product(o: int, c3: Z2, c4: Z2, d3: Z2, d4: Z2)
    ensures
        ({
            let a0: Z6 = ((o, 0), (0, 0), (0, 0));
            let a1: Z6 = (c3, c4, (0, 0));
            let b1: Z6 = (d3, d4, (0, 0));
            let u = z6_mul(a0, a0);
            let v = z6_mul(a1, b1);
            &&& z6_add(z6_shift(v), u) == (
                z2_add(z2_xi(z2_mul(c4, d4)), (o * o, 0)),
                z2_mul(c3, d3),
                z2_add(z2_mul(c3, d4), z2_mul(c4, d3)),
            )
            &&& z6_sub(z6_sub(z6_mul(z6_add(a0, a1), z6_add(a0, b1)), u), v) == (
                (o * (c3.0 + d3.0), o * (c3.1 + d3.1)),
                (o * (c4.0 + d4.0), o * (c4.1 + d4.1)),
                (0int, 0int),
            )
        }),
{
    let (c30, c31, d30, d31) = (c3.0, c3.1, d3.0, d3.1);
    let (c40, c41, d40, d41) = (c4.0, c4.1, d4.0, d4.1);
    let a0: Z6 = ((o, 0), (0, 0), (0, 0));
    let a1: Z6 = (c3, c4, (0, 0));
    let b1: Z6 = (d3, d4, (0, 0));
    let z: Z2 = (0, 0);
    assert(z2_mul(z, z) == z);
    assert(forall|x: Z2| #[trigger] z2_mul(x, z) == z && z2_mul(z, x) == z) by {
        assert forall|x: Z2| #[trigger] z2_mul(x, z) == z && z2_mul(z, x) == z by {
            assert(x.0 * 0 == 0 && x.1 * 0 == 0 && 0 * x.0 == 0 && 0 * x.1 == 0) by (nonlinear_arith);
        }
    }
    assert(z2_xi(z) == z);
    let u = z6_mul(a0, a0);
    assert(z2_mul((o, 0), (o, 0)) == (o * o, 0int)) by {
        assert(o * 0 == 0 && 0 * o == 0 && 0 * 0 == 0) by (nonlinear_arith);
    }
    assert(u == ((o * o, 0int), z, z));
    let v = z6_mul(a1, b1);
    assert(v == (z2_mul(c3, d3), z2_add(z2_mul(c3, d4), z2_mul(c4, d3)), z2_mul(c4, d4)));
    let s0 = z6_add(a0, a1);
    let s1 = z6_add(a0, b1);
    assert(s0 == ((o + c30, c31), c4, z));
    assert(s1 == ((o + d30, d31), d4, z));
    let m = z6_mul(s0, s1);
    assert(m == (
        z2_mul((o + c30, c31), (o + d30, d31)),
        z2_add(z2_mul((o + c30, c31), d4), z2_mul(c4, (o + d30, d31))),
        z2_mul(c4, d4),
    ));
    lemma_expand(o, c30, o, d30);
    assert((o + c30) * d31 == o * d31 + c30 * d31) by (nonlinear_arith);
    assert(c31 * (o + d30) == c31 * o + c31 * d30) by (nonlinear_arith);
    assert((o + c30) * d40 == o * d40 + c30 * d40) by (nonlinear_arith);
    assert((o + c30) * d41 == o * d41 + c30 * d41) by (nonlinear_arith);
    assert(c40 * (o + d30) == c40 * o + c40 * d30) by (nonlinear_arith);
    assert(c41 * (o + d30) == c41 * o + c41 * d30) by (nonlinear_arith);
    assert(o * (c30 + d30) == o * c30 + o * d30) by (nonlinear_arith);
    assert(o * (c31 + d31) == o * c31 + o * d31) by (nonlinear_arith);
    assert(o * (c40 + d40) == o * c40 + o * d40) by (nonlinear_arith);
    assert(o * (c41 + d41) == o * c41 + o * d41) by (nonlinear_arith);
    assert(c30 * o == o * c30 && c31 * o == o * c31 && c40 * o == o * c40 && c41 * o == o * c41)
        by (nonlinear_arith);
    assert(z6_sub(z6_sub(m, u), v).0 == (o * (c30 + d30), o * (c31 + d31)));
    assert(z6_sub(z6_sub(m, u), v).1 == (o * (c40 + d40), o * (c41 + d41)));
    assert(z6_sub(z6_sub(m, u), v).2 == (0int, 0int));
    assert(z6_add(z6_shift(v), u) == (
        z2_add(z2_xi(z2_mul(c4, d4)), (o * o, 0)),
        z2_mul(c3, d3),
        z2_add(z2_mul(c3, d4), z2_mul(c4, d3)),
    ));
}

pub open spec fn f2_one() -> F2 {
    (f1_one(), f1_zero())
}

pub open spec fn f2_zero() -> F2 {
    (f1_zero(), f1_zero())
}

/// The line `1 + (c3 + c4 v) w` as a dense duodecimal element, with the
/// circuit's own one and zero.
pub open spec fn line_dense(c: (F2, F2)) -> F12 {
    ((f2_one(), f2_zero(), f2_zero()), (c.0, c.1, f2_zero()))
}

/// A `01234`-sparse element as a dense one.
pub open spec fn sparse01234_dense(s: (F6, (F2, F2))) -> F12 {
    (s.0, (s.1.0, s.1.1, f2_zero()))
}

/// The values of the twelve base coefficients.
pub open spec fn eval12(v: F12, w: spec_fn(nat) -> int, raw: spec_fn(Seq<char>) -> int) -> Seq<int> {
    f12_coefs(v).map_values(|e: Expr| eval(e, w, raw))
}

proof fn lemma_same_value(a: Expr, b: Expr, w: spec_fn(nat) -> int, raw: spec_fn(Seq<char>) -> int)
    requires
        pe(a, w, raw) % field_modulus() == pe(b, w, raw) % field_modulus(),
    ensures
        eval(a, w, raw) == eval(b, w, raw),
{
    lemma_eval_pe(a, w, raw);
    lemma_eval_pe(b, w, raw);
}

proof fn lemma_scale_by_one(o: int, x: int)
    requires
        o % field_modulus() == 1,
    ensures
        (o * x) % field_modulus() == x % field_modulus(),
{
    let p = field_modulus();
    lemma_mul_mod_noop_general(o, x, p);
    lemma_mul_mod_noop_general(1, x, p);
}

/// Multiplying two lines with the sparse product gives, coefficient by
/// coefficient, the values of the dense product of the two lines written
/// out in full, for every value of the inputs at which the circuit's one
/// (`CI::<0> / CI::<0>`) is one, that is wherever input 0 is not zero.
pub proof fn law_mul_034_by_034_matches_dense(
    c: (F2, F2),
    d: (F2, F2),
    w: spec_fn(nat) -> int,
    raw: spec_fn(Seq<char>) -> int,
)
    requires
        eval(f1_one(), w, raw) == 1,
    ensures
        eval12(sparse01234_dense(f12_mul_034_by_034(c, d)), w, raw)
            == eval12(f12_mul(line_dense(c), line_dense(d)), w, raw),
{
    let p = field_modulus();
    let o = pe(f1_one(), w, raw);
    lemma_eval_pe(f1_one(), w, raw);
    assert(pe(f1_zero(), w, raw) == 0);
    let (a, b) = (line_dense(c), line_dense(d));
    let (c3, c4, d3, d4) = (pe2(c.0, w, raw), pe2(c.1, w, raw), pe2(d.0, w, raw), pe2(d.1, w, raw));
    let one2: Z2 = (o, 0);
    let zero2: Z2 = (0, 0);

    // the dense product
    let u = f6_mul(a.0, b.0);
    let v = f6_mul(a.1, b.1);
    let m = f6_mul(f6_add(a.0, a.1), f6_add(b.0, b.1));
    lemma_pe6_mul(a.0, b.0, w, raw);
    lemma_pe6_mul(a.1, b.1, w, raw);
    lemma_pe6_shift(v, w, raw);
    lemma_pe6_add(f6_mul_by_v(v), u, w, raw);
    lemma_pe6_add(a.0, a.1, w, raw);
    lemma_pe6_add(b.0, b.1, w, raw);
    lemma_pe6_mul(f6_add(a.0, a.1), f6_add(b.0, b.1), w, raw);
    lemma_pe6_sub(m, u, w, raw);
    lemma_pe6_sub(f6_sub(m, u), v, w, raw);
    assert(pe6(a.0, w, raw) == (one2, zero2, zero2));
    assert(pe6(a.1, w, raw) == (c3, c4, zero2));
    assert(pe6(b.0, w, raw) == (one2, zero2, zero2));
    assert(pe6(b.1, w, raw) == (d3, d4, zero2));
    let dense = f12_mul(a, b);

    // the sparse product
    let c3d3 = f2_mul(c.0, d.0);
    let c4d4 = f2_mul(c.1, d.1);
    let s34 = f2_mul(f2_add(d.0, d.1), f2_add(c.0, c.1));
    lemma_pe2_mul(c.0, d.0, w, raw);
    lemma_pe2_mul(c.1, d.1, w, raw);
    lemma_pe2_xi(c4d4, w, raw);
    lemma_pe2_add(d.0, d.1, w, raw);
    lemma_pe2_add(c.0, c.1, w, raw);
    lemma_pe2_mul(f2_add(d.0, d.1), f2_add(c.0, c.1), w, raw);
    lemma_pe2_sub(s34, c3d3, w, raw);
    lemma_pe2_sub(f2_sub(s34, c3d3), c4d4, w, raw);
    lemma_pe2_add(c.0, d.0, w, raw);
    lemma_pe2_add(c.1, d.1, w, raw);
    lemma_z2_kara(d3, d4, c3, c4);
    lemma_z2_mul_comm(d3, c4);
    lemma_z2_mul_comm(d4, c3);
    lemma_z2_mul_comm(d3, c3);
    lemma_z2_mul_comm(d4, c4);
    let sparse = sparse01234_dense(f12_mul_034_by_034(c, d));

    lemma_dense_line_product(o, c3, c4, d3, d4);
    let k = z2_mul(c4, d4);
    let xk = z2_xi(k);
    // first sextic half
    assert(pe(dense.0.0.0, w, raw) == xk.0 + o * o);
    assert(pe(sparse.0.0.0, w, raw) == xk.0 + o);
    lemma_mul_mod_noop_general(o, o, p);
    lemma_add_mod_noop(xk.0, o * o, p);
    lemma_add_mod_noop(xk.0, o, p);
    lemma_same_value(sparse.0.0.0, dense.0.0.0, w, raw);
    assert(pe(dense.0.0.1, w, raw) == pe(sparse.0.0.1, w, raw));
    lemma_same_value(sparse.0.0.1, dense.0.0.1, w, raw);
    assert(pe2(dense.0.1, w, raw) == pe2(sparse.0.1, w, raw));
    lemma_same_value(sparse.0.1.0, dense.0.1.0, w, raw);
    lemma_same_value(sparse.0.1.1, dense.0.1.1, w, raw);
    assert(pe2(dense.0.2, w, raw) == pe2(sparse.0.2, w, raw));
    lemma_same_value(sparse.0.2.0, dense.0.2.0, w, raw);
    lemma_same_value(sparse.0.2.1, dense.0.2.1, w, raw);

    // second sextic half
    lemma_scale_by_one(o, c3.0 + d3.0);
    lemma_scale_by_one(o, c3.1 + d3.1);
    lemma_scale_by_one(o, c4.0 + d4.0);
    lemma_scale_by_one(o, c4.1 + d4.1);
    lemma_same_value(sparse.1.0.0, dense.1.0.0, w, raw);
    lemma_same_value(sparse.1.0.1, dense.1.0.1, w, raw);
    lemma_same_value(sparse.1.1.0, dense.1.1.0, w, raw);
    lemma_same_value(sparse.1.1.1, dense.1.1.1, w, raw);
    lemma_same_value(sparse.1.2.0, dense.1.2.0, w, raw);
    lemma_same_value(sparse.1.2.1, dense.1.2.1, w, raw);
    assert(eval12(sparse, w, raw) =~= eval12(dense, w, raw));
}

} // verus!
