//! The loop driver: a fixed signed-digit table walked from the top down.
use vstd::prelude::*;

use crate::fields::affine::Affine;
use crate::fields::fq::Fq;
use crate::fields::fq12::{f12_sqr, Fq12, F12};
use crate::fields::fq2::Fq2;
use crate::pairing::line::P2;
use crate::pairing::precompute::Precompute;
use crate::pairing::{
    bit_dbl_add_spec, bit_o_spec, first_second_spec, last_spec, precompute_spec, PreV,
};

verus! {

/// The signed binary digits of the BN254 loop scalar `6x + 2`, with
/// `x = 4965661367192848881`; entry `i` weighs `2^i`. The top digit (one)
/// is the starting point itself.
pub open spec fn ate_loop_digits() -> Seq<i8> {
    seq![
        0i8, 0i8, 0i8, 1i8, 0i8, 1i8, 0i8, -1i8, 0i8, 0i8, -1i8, 0i8, 0i8, 0i8, 1i8, 0i8,
        0i8, -1i8, 0i8, -1i8, 0i8, 0i8, 0i8, 1i8, 0i8, -1i8, 0i8, 0i8, 0i8, 0i8, -1i8, 0i8,
        0i8, 1i8, 0i8, -1i8, 0i8, 0i8, 1i8, 0i8, 0i8, 0i8, 0i8, 0i8, -1i8, 0i8, 0i8, -1i8,
        0i8, 1i8, 0i8, -1i8, 0i8, 0i8, 0i8, -1i8, 0i8, -1i8, 0i8, 0i8, 0i8, 1i8, 0i8, -1i8,
        0i8, 1i8,
    ]
}

/// The length of the digit table.
pub const ATE_LOOP_LEN: usize = 66;

/// The digit of weight `2^i`.
pub fn ate_loop_digit(i: usize) -> (d: i8)
    requires
        i < ATE_LOOP_LEN,
    ensures
        d == ate_loop_digits()[i as int],
{
    let table: [i8; 66] = [
        0, 0, 0, 1, 0, 1, 0, -1, 0, 0, -1, 0, 0, 0, 1, 0,
        0, -1, 0, -1, 0, 0, 0, 1, 0, -1, 0, 0, 0, 0, -1, 0,
        0, 1, 0, -1, 0, 0, 1, 0, 0, 0, 0, 0, -1, 0, 0, -1,
        0, 1, 0, -1, 0, 0, 0, -1, 0, -1, 0, 0, 0, 1, 0, -1,
        0, 1,
    ];
    assert(table@ =~= ate_loop_digits());
    table[i]
}

/// One digit: square the accumulator, then multiply in the lines its sign
/// class selects.
pub open spec fn miller_step_spec(pre: PreV, acc: P2, f: F12, d: i8) -> (P2, F12) {
    let g = f12_sqr(f);
    if d == 0 {
        bit_o_spec(acc, g, pre.3)
    } else if d == 1 {
        bit_dbl_add_spec(acc, g, pre.3, pre.1)
    } else {
        bit_dbl_add_spec(acc, g, pre.3, pre.2)
    }
}

/// The digits of weight `2^(hi-1)` down to `2^lo`, in that order.
pub open spec fn miller_digits_spec(pre: PreV, acc: P2, f: F12, hi: nat, lo: nat) -> (P2, F12)
    decreases hi - lo,
{
    if hi <= lo {
        (acc, f)
    } else {
        let (a, g) = miller_step_spec(pre, acc, f, ate_loop_digits()[hi - 1]);
        miller_digits_spec(pre, a, g, (hi - 1) as nat, lo)
    }
}

/// Walking from `hi` to `lo` is walking from `hi` to `mid`, then on to `lo`.
pub proof fn lemma_miller_digits_split(pre: PreV, acc: P2, f: F12, hi: nat, mid: nat, lo: nat)
    requires
        lo <= mid <= hi,
    ensures
        ({
            let (a, g) = miller_digits_spec(pre, acc, f, hi, mid);
            miller_digits_spec(pre, a, g, mid, lo)
        }) == miller_digits_spec(pre, acc, f, hi, lo),
    decreases hi - mid,
{
    if hi > mid {
        let (a, g) = miller_step_spec(pre, acc, f, ate_loop_digits()[hi - 1]);
        lemma_miller_digits_split(pre, a, g, (hi - 1) as nat, mid, lo);
    }
}

/// The first two digits, then those of weight `2^62` down to `2^lo`.
pub open spec fn miller_loop_upto_spec(pre: PreV, q: P2, lo: nat) -> (P2, F12) {
    let (a, f) = first_second_spec(q, pre.3, pre.2);
    miller_digits_spec(pre, a, f, 63, lo)
}

/// The whole loop, and the correction when its constants are given.
pub open spec fn ate_miller_loop_spec(pre: PreV, q: P2, pi: Option<[usize; 6]>) -> F12 {
    let (a, f) = miller_loop_upto_spec(pre, q, 0);
    match pi {
        Some(pi) => last_spec(a, f, pre.3, pre.1, pi@).1,
        None => f,
    }
}

/// Walks the digits of weight `2^(hi-1)` down to `2^lo`.
fn miller_digits(precompute: &mut Precompute, q_acc: &mut Affine<Fq2>, f: &mut Fq12, hi: usize, lo: usize)
    requires
        lo <= hi <= ATE_LOOP_LEN,
    ensures
        *final(precompute) == *old(precompute),
        (final(q_acc)@, final(f)@) == miller_digits_spec(old(precompute)@, old(q_acc)@, old(f)@, hi as nat, lo as nat),
{
    let mut i: usize = hi;
    while i > lo
        invariant
            lo <= i <= hi <= ATE_LOOP_LEN,
            *precompute == *old(precompute),
            miller_digits_spec(precompute@, q_acc@, f@, i as nat, lo as nat)
                == miller_digits_spec(old(precompute)@, old(q_acc)@, old(f)@, hi as nat, lo as nat),
        decreases i,
    {
        i = i - 1;
        let d = ate_loop_digit(i);
        precompute.sqr_target(i as u32, q_acc, f);
        if d == 0 {
            precompute.miller_bit_o(i as u32, q_acc, f);
        } else if d == 1 {
            precompute.miller_bit_p(i as u32, q_acc, f);
        } else {
            precompute.miller_bit_n(i as u32, q_acc, f);
        }
    }
}

/// The whole Miller loop for `p` and `q`. With `inp`, the positions of the
/// twist constants, the final correction is applied as well.
pub fn ate_miller_loop(p: Affine<Fq>, q: Affine<Fq2>, inp: Option<[usize; 6]>) -> (r: Fq12)
    ensures
        r@ == ate_miller_loop_spec(precompute_spec(p@, q@), q@, inp),
{
    let (mut precompute, mut q_acc) = Precompute::precompute(p, q, inp);
    ate_miller_loop_steps(&mut precompute, &mut q_acc)
}

/// The whole loop from a precompute and its starting point.
pub fn ate_miller_loop_steps(precompute: &mut Precompute, q_acc: &mut Affine<Fq2>) -> (r: Fq12)
    ensures
        *final(precompute) == *old(precompute),
        r@ == ate_miller_loop_spec(old(precompute)@, old(q_acc)@, old(precompute).correction_inputs()),
{
    let mut f = ate_miller_loop_steps_first_half(precompute, q_acc);
    miller_digits(precompute, q_acc, &mut f, 31, 0);
    proof {
        let pre = old(precompute)@;
        let (a, g) = first_second_spec(old(q_acc)@, pre.3, pre.2);
        lemma_miller_digits_split(pre, a, g, 63, 31, 0);
    }
    if let Some(pi_idx) = precompute.inp() {
        precompute.miller_last(q_acc, &mut f, pi_idx);
    }
    f
}

/// The first two digits, then those of weight `2^62` down to `2^31`.
pub fn ate_miller_loop_steps_first_half(precompute: &mut Precompute, q_acc: &mut Affine<Fq2>) -> (r: Fq12)
    ensures
        *final(precompute) == *old(precompute),
        (final(q_acc)@, r@) == miller_loop_upto_spec(old(precompute)@, old(q_acc)@, 31),
{
    let mut f = precompute.miller_first_second(64, 63, q_acc);
    miller_digits(precompute, q_acc, &mut f, 63, 31);
    f
}

} // verus!
