//! The per-pairing precompute, and the loop steps it drives.
use vstd::prelude::*;

use crate::fields::affine::{Affine, ECOperations};
use crate::fields::fq::Fq;
use crate::fields::fq12::Fq12;
use crate::fields::fq2::Fq2;
use crate::pairing::line::PPre;
use crate::pairing::miller_utils;
use crate::fields::fq12::f12_sqr;
use crate::pairing::{
    bit_dbl_add_spec, bit_o_spec, first_second_spec, last_spec, precompute_spec, PreV,
};

verus! {

/// The fixed point `p`, the point `q` and its negation, and `p`'s derived
/// constants. Read-only once built.
pub struct Precompute {
    p: Affine<Fq>,
    q: Affine<Fq2>,
    neg_q: Affine<Fq2>,
    ppc: PPre,
    inp: Option<[usize; 6]>,
}

impl View for Precompute {
    type V = PreV;

    closed spec fn view(&self) -> PreV {
        (self.p@, self.q@, self.neg_q@, self.ppc@)
    }
}

impl Precompute {
    pub fn p(&self) -> (r: &Affine<Fq>)
        ensures
            r@ == self@.0,
    {
        &self.p
    }

    pub fn q(&self) -> (r: &Affine<Fq2>)
        ensures
            r@ == self@.1,
    {
        &self.q
    }

    pub fn neg_q(&self) -> (r: &Affine<Fq2>)
        ensures
            r@ == self@.2,
    {
        &self.neg_q
    }

    pub fn ppc(&self) -> (r: &PPre)
        ensures
            r@ == self@.3,
    {
        &self.ppc
    }

    /// The input positions of the twist constants, if they were given.
    pub fn inp(&self) -> (r: Option<[usize; 6]>)
        ensures
            r == self.correction_inputs(),
    {
        self.inp
    }

    /// The input positions of the twist constants for the final correction.
    pub closed spec fn correction_inputs(&self) -> Option<[usize; 6]> {
        self.inp
    }

    /// The precompute for `p` and `q`, and the starting point (`q` itself).
    pub fn precompute(p: Affine<Fq>, q: Affine<Fq2>, inp: Option<[usize; 6]>) -> (r: (Precompute, Affine<Fq2>))
        ensures
            r.0@ == precompute_spec(p@, q@),
            r.0.correction_inputs() == inp,
            r.1@ == q@,
    {
        let ppc = PPre::p_precompute(&p);
        let neg_q = q.neg();
        let precompute = Precompute { p, q: q.duplicate(), neg_q, ppc, inp };
        (precompute, q)
    }

    /// `f = f^2`. The digit position `i` is carried for the caller's
    /// bookkeeping only, here and in the steps below.
    pub fn sqr_target(&mut self, i: u32, acc: &mut Affine<Fq2>, f: &mut Fq12)
        ensures
            *final(self) == *old(self),
            final(acc)@ == old(acc)@,
            final(f)@ == f12_sqr(old(f)@),
    {
        *f = f.sqr();
    }

    /// The first two digits, from the starting point; returns the accumulator.
    pub fn miller_first_second(&mut self, i1: u32, i2: u32, acc: &mut Affine<Fq2>) -> (r: Fq12)
        ensures
            *final(self) == *old(self),
            (final(acc)@, r@) == first_second_spec(old(acc)@, old(self)@.3, old(self)@.2),
    {
        proof {
            reveal(first_second_spec);
        }
        let l0 = miller_utils::step_double(acc, &self.ppc, &self.p);
        let f_01234 = l0.sqr_034();
        let (l1, l2) = miller_utils::step_dbl_add(acc, &self.ppc, &self.p, &self.neg_q);
        f_01234.mul_01234_01234(&l1.mul_034_by_034(&l2))
    }

    /// Digit 0.
    pub fn miller_bit_o(&mut self, i: u32, acc: &mut Affine<Fq2>, f: &mut Fq12)
        ensures
            *final(self) == *old(self),
            (final(acc)@, final(f)@) == bit_o_spec(old(acc)@, old(f)@, old(self)@.3),
    {
        miller_utils::step_double_to_f(acc, f, &self.ppc, &self.p);
    }

    /// Digit +1.
    pub fn miller_bit_p(&mut self, i: u32, acc: &mut Affine<Fq2>, f: &mut Fq12)
        ensures
            *final(self) == *old(self),
            (final(acc)@, final(f)@) == bit_dbl_add_spec(old(acc)@, old(f)@, old(self)@.3, old(self)@.1),
    {
        miller_utils::step_dbl_add_to_f(acc, f, &self.ppc, &self.p, &self.q);
    }

    /// Digit -1.
    pub fn miller_bit_n(&mut self, i: u32, acc: &mut Affine<Fq2>, f: &mut Fq12)
        ensures
            *final(self) == *old(self),
            (final(acc)@, final(f)@) == bit_dbl_add_spec(old(acc)@, old(f)@, old(self)@.3, old(self)@.2),
    {
        miller_utils::step_dbl_add_to_f(acc, f, &self.ppc, &self.p, &self.neg_q);
    }

    /// The correction after the last digit, with the twist constants read
    /// from the circuit inputs `pi_idx`.
    pub fn miller_last(&mut self, acc: &mut Affine<Fq2>, f: &mut Fq12, pi_idx: [usize; 6])
        ensures
            *final(self) == *old(self),
            (final(acc)@, final(f)@) == last_spec(old(acc)@, old(f)@, old(self)@.3, old(self)@.1, pi_idx@),
    {
        miller_utils::correction_step_to_f(acc, f, &self.ppc, &self.p, &self.q, pi_idx);
    }
}

} // verus!
