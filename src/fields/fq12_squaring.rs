//! Compressed squaring in the cyclotomic subgroup (Karabina): an element is
//! kept as four of its six quadratic coefficients, `g2..g5`.
use vstd::prelude::*;

use crate::fields::fq2::{f2_add, f2_input, f2_inv, f2_mul, f2_mul_by_xi, f2_sqr, f2_sub, Fq2, F2};
use crate::fields::FieldOps;

verus! {

/// The expression trees of a compressed element, `(g2, g3, g4, g5)`.
pub type K4 = (F2, F2, F2, F2);

/// `2h + t`: with `h = t ± g` this is `3t ± 2g`, without a scalar multiplication.
pub open spec fn krbn_combine(tmp: F2, h: F2) -> F2 {
    f2_add(f2_add(h, h), tmp)
}

/// One compressed squaring. Doublings are additions.
pub open spec fn krbn_sqr(g: K4) -> K4 {
    let s2 = f2_sqr(g.0);
    let s3 = f2_sqr(g.1);
    let s4 = f2_sqr(g.2);
    let s5 = f2_sqr(g.3);
    let s4_5 = f2_sqr(f2_add(g.2, g.3));
    let s2_3 = f2_sqr(f2_add(g.0, g.1));
    let t2 = f2_mul_by_xi(f2_sub(s4_5, f2_add(s4, s5)));
    let t3 = f2_add(s4, f2_mul_by_xi(s5));
    let t4 = f2_add(s2, f2_mul_by_xi(s3));
    let t5 = f2_sub(f2_sub(s2_3, s2), s3);
    (
        krbn_combine(t2, f2_add(t2, g.0)),
        krbn_combine(t3, f2_sub(t3, g.1)),
        krbn_combine(t4, f2_sub(t4, g.2)),
        krbn_combine(t5, f2_add(t5, g.3)),
    )
}

/// The branch for a vanishing `g2`: the three compressed coefficients it
/// reads, `g3, g4, g5`, sit in the first three slots. Gives `(g0, g1)` with
/// `g1 = 2 g4 g5 / g3` and `g0 = ξ (2 (g1^2 - g3 g4) - g3 g4)`, that is
/// `ξ (2 g1^2 - 3 g3 g4)`.
pub open spec fn krbn_decompress_if_zero(g: K4) -> (F2, F2) {
    let (g3, g4, g5) = (g.0, g.1, g.2);
    let g4g5 = f2_mul(g4, g5);
    let g1 = f2_mul(f2_add(g4g5, g4g5), f2_inv(g3));
    let s1 = f2_sqr(g1);
    let t_g3g4 = f2_mul(g3, g4);
    let tmp = f2_sub(s1, t_g3g4);
    (f2_mul_by_xi(f2_sub(f2_add(tmp, tmp), t_g3g4)), g1)
}

/// The generic branch. Gives `(g0, g1)` with
/// `g1 = (ξ g5^2 + 3 g4^2 - 2 g3) / 4 g2` and
/// `g0 = ξ (2 (g1^2 - g3 g4) + g2 g5 - g3 g4)`.
pub open spec fn krbn_decompress_else(g: K4) -> (F2, F2) {
    let (g2, g3, g4, g5) = g;
    let s5xi = f2_mul_by_xi(f2_sqr(g5));
    let s4 = f2_sqr(g4);
    let tmp = f2_sub(s4, g3);
    let num = f2_add(s5xi, f2_add(s4, f2_add(tmp, tmp)));
    let x4g2 = f2_add(f2_add(f2_add(g2, g2), g2), g2);
    let g1 = f2_mul(num, f2_inv(x4g2));
    let s1 = f2_sqr(g1);
    let t_g3g4 = f2_mul(g3, g4);
    let t_g2g5 = f2_mul(g2, g5);
    let s1sg3g4 = f2_sub(s1, t_g3g4);
    (f2_mul_by_xi(f2_add(f2_add(s1sg3g4, s1sg3g4), f2_sub(t_g2g5, t_g3g4))), g1)
}

/// A cyclotomic element in compressed form.
pub struct Krbn2345 {
    g2: Fq2,
    g3: Fq2,
    g4: Fq2,
    g5: Fq2,
    inp: Option<[usize; 8]>,
}

impl View for Krbn2345 {
    type V = K4;

    closed spec fn view(&self) -> K4 {
        (self.g2@, self.g3@, self.g4@, self.g5@)
    }
}

impl Krbn2345 {
    /// The input positions this element was built from, if it is a fresh leaf.
    pub closed spec fn origin(&self) -> Option<[usize; 8]> {
        self.inp
    }

    pub fn new(g2: Fq2, g3: Fq2, g4: Fq2, g5: Fq2, inp: Option<[usize; 8]>) -> (r: Krbn2345)
        ensures
            r@ == (g2@, g3@, g4@, g5@),
            r.origin() == inp,
    {
        Krbn2345 { g2, g3, g4, g5, inp }
    }

    /// The leaf that reads circuit inputs `idx`, two per coefficient.
    pub fn new_input(idx: [usize; 8]) -> (r: Krbn2345)
        ensures
            r@ == (
                f2_input(idx[0] as nat, idx[1] as nat),
                f2_input(idx[2] as nat, idx[3] as nat),
                f2_input(idx[4] as nat, idx[5] as nat),
                f2_input(idx[6] as nat, idx[7] as nat),
            ),
            r.origin() == Some(idx),
    {
        Krbn2345 {
            g2: Fq2::new_input([idx[0], idx[1]]),
            g3: Fq2::new_input([idx[2], idx[3]]),
            g4: Fq2::new_input([idx[4], idx[5]]),
            g5: Fq2::new_input([idx[6], idx[7]]),
            inp: Some(idx),
        }
    }

    pub fn g2(&self) -> (r: &Fq2)
        ensures
            r@ == self@.0,
    {
        &self.g2
    }

    pub fn g3(&self) -> (r: &Fq2)
        ensures
            r@ == self@.1,
    {
        &self.g3
    }

    pub fn g4(&self) -> (r: &Fq2)
        ensures
            r@ == self@.2,
    {
        &self.g4
    }

    pub fn g5(&self) -> (r: &Fq2)
        ensures
            r@ == self@.3,
    {
        &self.g5
    }

    pub fn sqr_krbn(&self) -> (r: Krbn2345)
        ensures
            r@ == krbn_sqr(self@),
            r.origin() is None,
    {
        let (g2, g3, g4, g5) = (&self.g2, &self.g3, &self.g4, &self.g5);
        let s2 = g2.sqr();
        let s3 = g3.sqr();
        let s4 = g4.sqr();
        let s5 = g5.sqr();
        let s4_5 = g4.add(g5).sqr();
        let s2_3 = g2.add(g3).sqr();

        let tmp = s4_5.sub(&s4.add(&s5)).mul_by_xi();
        let h2 = tmp.add(g2);
        let h2 = h2.add(&h2).add(&tmp);

        let tmp = s4.add(&s5.mul_by_xi());
        let h3 = tmp.sub(g3);
        let h3 = h3.add(&h3).add(&tmp);

        let tmp = s2.add(&s3.mul_by_xi());
        let h4 = tmp.sub(g4);
        let h4 = h4.add(&h4).add(&tmp);

        let tmp = s2_3.sub(&s2).sub(&s3);
        let h5 = tmp.add(g5);
        let h5 = h5.add(&h5).add(&tmp);

        Krbn2345 { g2: h2, g3: h3, g4: h4, g5: h5, inp: None }
    }

    /// Recovers `(g0, g1)` when `g2` vanishes; see [`krbn_decompress_if_zero`].
    pub fn krbn_decompress_if_zero(&self) -> (r: (Fq2, Fq2))
        ensures
            (r.0@, r.1@) == krbn_decompress_if_zero(self@),
    {
        let (g3, g4, g5) = (&self.g2, &self.g3, &self.g4);
        let g4mg5 = g4.mul(g5);
        let tg24g5 = g4mg5.add(&g4mg5);
        let g1 = tg24g5.mul(&g3.inv());

        let s1 = g1.sqr();
        let t_g3g4 = g3.mul(g4);
        let tmp = s1.sub(&t_g3g4);
        let tmp = tmp.add(&tmp);
        let g0 = tmp.sub(&t_g3g4).mul_by_xi();
        (g0, g1)
    }

    /// Recovers `(g0, g1)` in the generic case; see [`krbn_decompress_else`].
    pub fn krbn_decompress_else(&self) -> (r: (Fq2, Fq2))
        ensures
            (r.0@, r.1@) == krbn_decompress_else(self@),
    {
        let (g2, g3, g4, g5) = (&self.g2, &self.g3, &self.g4, &self.g5);
        let s5xi = g5.sqr().mul_by_xi();
        let s4 = g4.sqr();
        let tmp = s4.sub(g3);
        let g1 = s5xi.add(&s4.add(&tmp.add(&tmp)));
        let x4g2 = g2.add(g2).add(g2).add(g2);
        let g1 = g1.mul(&x4g2.inv());

        let s1 = g1.sqr();
        let t_g3g4 = g3.mul(g4);
        let t_g2g5 = g2.mul(g5);
        let s1sg3g4 = s1.sub(&t_g3g4);
        let tmp = s1sg3g4.add(&s1sg3g4);
        let g0 = tmp.add(&t_g2g5.sub(&t_g3g4)).mul_by_xi();
        (g0, g1)
    }
}

} // verus!
