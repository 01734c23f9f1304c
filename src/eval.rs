//! What a expression tree computes: its value modulo the BN254 base field prime,
//! for given values of the circuit inputs.
use vstd::prelude::*;

use crate::circuit::Expr;

verus! {

/// The BN254 base field prime,
/// `21888242871839275222246405745257275088696311157297823662689037894645226208583`,
/// from its 64-bit limbs, least significant first.
pub open spec fn field_modulus() -> int {
    let b: int = 18446744073709551616;
    ((3486998266802970665int * b + 13281191951274694749int) * b + 10917124144477883021int) * b
        + 4332616871279656263int
}

/// `y` is a reduced inverse of `x` modulo the prime.
pub open spec fn is_inverse(x: int, y: int) -> bool {
    0 <= y < field_modulus() && (x * y) % field_modulus() == 1
}

/// The inverse of `x` modulo the prime; zero has none, and gets zero.
pub open spec fn inv_mod(x: int) -> int {
    if exists|y: int| #[trigger] is_inverse(x, y) {
        choose|y: int| #[trigger] is_inverse(x, y)
    } else {
        0
    }
}

/// The value of `e` when input `i` holds `w(i)` and a text node `s` stands
/// for `raw(s)`.
pub open spec fn eval(e: Expr, w: spec_fn(nat) -> int, raw: spec_fn(Seq<char>) -> int) -> int
    decreases e,
{
    let p = field_modulus();
    match e {
        Expr::Input(i) => w(i) % p,
        Expr::Raw(s) => raw(s) % p,
        Expr::Add(a, b) => (eval(*a, w, raw) + eval(*b, w, raw)) % p,
        Expr::Sub(a, b) => (eval(*a, w, raw) - eval(*b, w, raw)) % p,
        Expr::Mul(a, b) => (eval(*a, w, raw) * eval(*b, w, raw)) % p,
        Expr::Inv(a) => inv_mod(eval(*a, w, raw)),
        Expr::Element(a) => eval(*a, w, raw),
    }
}

} // verus!
