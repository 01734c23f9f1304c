//! How each element type emits its coefficients as statements.
use vstd::prelude::*;

use crate::circuit::{Circuit, Expr};
use crate::emit::builder::{assign_lines, chosen_names, circuits_view, strs_view, CairoCodeBuilder};
use crate::fields::affine::Affine;
use crate::fields::fq12::F12;
use crate::fields::fq12_squaring::K4;
use crate::fields::fq2::F2;
use crate::fields::fq6::F6;
use crate::fields::fq::Fq;
use crate::fields::fq12::Fq12;
use crate::fields::fq12_squaring::Krbn2345;
use crate::fields::fq2::Fq2;
use crate::fields::fq6::Fq6;
use crate::pairing::line::LineFn;
use crate::pairing::precompute::Precompute;

verus! {

/// `(c0, c1)` in order.
pub open spec fn pair_coefs(v: (Expr, Expr)) -> Seq<Expr> {
    seq![v.0, v.1]
}

/// Two quadratic coefficients, each `c0` then `c1`.
pub open spec fn quad_coefs(v: (F2, F2)) -> Seq<Expr> {
    seq![v.0.0, v.0.1, v.1.0, v.1.1]
}

pub open spec fn f6_coefs(v: F6) -> Seq<Expr> {
    seq![v.0.0, v.0.1, v.1.0, v.1.1, v.2.0, v.2.1]
}

pub open spec fn f12_coefs(v: F12) -> Seq<Expr> {
    f6_coefs(v.0) + f6_coefs(v.1)
}

pub open spec fn k4_coefs(v: K4) -> Seq<Expr> {
    seq![v.0.0, v.0.1, v.1.0, v.1.1, v.2.0, v.2.1, v.3.0, v.3.1]
}

/// Emits the base-field coefficients of an element, one named statement each.
pub trait CairoCodeAdder {
    /// The names used when the caller gives too few.
    spec fn default_names() -> Seq<Seq<char>>;

    /// The base-field coefficients, in emission order.
    spec fn coefficients(&self) -> Seq<Expr>;

    fn add_circuit(&self, builder: &mut CairoCodeBuilder, names: Option<Vec<&str>>)
        ensures
            final(builder)@ == old(builder)@ + assign_lines(
                chosen_names(names, Self::default_names()),
                self.coefficients(),
            ),
    ;
}

impl CairoCodeAdder for Fq {
    open spec fn default_names() -> Seq<Seq<char>> {
        seq!["c0"@]
    }

    open spec fn coefficients(&self) -> Seq<Expr> {
        seq![self@]
    }

    fn add_circuit(&self, builder: &mut CairoCodeBuilder, names: Option<Vec<&str>>) {
        let mut d: Vec<&str> = Vec::new();
        d.push("c0");
        let mut e: Vec<Circuit> = Vec::new();
        e.push(self.c0().clone());
        assert(strs_view(d@) =~= Self::default_names());
        assert(circuits_view(e@) =~= self.coefficients());
        builder.assign_elements(names, d, e);
    }
}

impl CairoCodeAdder for Fq2 {
    open spec fn default_names() -> Seq<Seq<char>> {
        seq!["c0"@, "c1"@]
    }

    open spec fn coefficients(&self) -> Seq<Expr> {
        pair_coefs(self@)
    }

    fn add_circuit(&self, builder: &mut CairoCodeBuilder, names: Option<Vec<&str>>) {
        let mut d: Vec<&str> = Vec::new();
        d.push("c0");
        d.push("c1");
        let mut e: Vec<Circuit> = Vec::new();
        e.push(self.c0().c0().clone());
        e.push(self.c1().c0().clone());
        assert(strs_view(d@) =~= Self::default_names());
        assert(circuits_view(e@) =~= self.coefficients());
        builder.assign_elements(names, d, e);
    }
}

impl CairoCodeAdder for Fq6 {
    open spec fn default_names() -> Seq<Seq<char>> {
        seq!["c0"@, "c1"@, "c2"@, "c3"@, "c4"@, "c5"@]
    }

    open spec fn coefficients(&self) -> Seq<Expr> {
        f6_coefs(self@)
    }

    fn add_circuit(&self, builder: &mut CairoCodeBuilder, names: Option<Vec<&str>>) {
        let mut d: Vec<&str> = Vec::new();
        d.push("c0");
        d.push("c1");
        d.push("c2");
        d.push("c3");
        d.push("c4");
        d.push("c5");
        let mut e: Vec<Circuit> = Vec::new();
        e.push(self.c0().c0().c0().clone());
        e.push(self.c0().c1().c0().clone());
        e.push(self.c1().c0().c0().clone());
        e.push(self.c1().c1().c0().clone());
        e.push(self.c2().c0().c0().clone());
        e.push(self.c2().c1().c0().clone());
        assert(strs_view(d@) =~= Self::default_names());
        assert(circuits_view(e@) =~= self.coefficients());
        builder.assign_elements(names, d, e);
    }
}

impl CairoCodeAdder for Fq12 {
    open spec fn default_names() -> Seq<Seq<char>> {
        seq!["c0"@, "c1"@, "c2"@, "c3"@, "c4"@, "c5"@, "c6"@, "c7"@, "c8"@, "c9"@, "c10"@, "c11"@]
    }

    open spec fn coefficients(&self) -> Seq<Expr> {
        f12_coefs(self@)
    }

    fn add_circuit(&self, builder: &mut CairoCodeBuilder, names: Option<Vec<&str>>) {
        let mut d: Vec<&str> = Vec::new();
        d.push("c0");
        d.push("c1");
        d.push("c2");
        d.push("c3");
        d.push("c4");
        d.push("c5");
        d.push("c6");
        d.push("c7");
        d.push("c8");
        d.push("c9");
        d.push("c10");
        d.push("c11");
        let mut e: Vec<Circuit> = Vec::new();
        e.push(self.c0().c0().c0().c0().clone());
        e.push(self.c0().c0().c1().c0().clone());
        e.push(self.c0().c1().c0().c0().clone());
        e.push(self.c0().c1().c1().c0().clone());
        e.push(self.c0().c2().c0().c0().clone());
        e.push(self.c0().c2().c1().c0().clone());
        e.push(self.c1().c0().c0().c0().clone());
        e.push(self.c1().c0().c1().c0().clone());
        e.push(self.c1().c1().c0().c0().clone());
        e.push(self.c1().c1().c1().c0().clone());
        e.push(self.c1().c2().c0().c0().clone());
        e.push(self.c1().c2().c1().c0().clone());
        assert(strs_view(d@) =~= Self::default_names());
        assert(circuits_view(e@) =~= self.coefficients());
        builder.assign_elements(names, d, e);
    }
}

impl CairoCodeAdder for Affine<Fq> {
    open spec fn default_names() -> Seq<Seq<char>> {
        seq!["x0"@, "y0"@]
    }

    open spec fn coefficients(&self) -> Seq<Expr> {
        pair_coefs(self@)
    }

    fn add_circuit(&self, builder: &mut CairoCodeBuilder, names: Option<Vec<&str>>) {
        let mut d: Vec<&str> = Vec::new();
        d.push("x0");
        d.push("y0");
        let mut e: Vec<Circuit> = Vec::new();
        e.push(self.x().c0().clone());
        e.push(self.y().c0().clone());
        assert(strs_view(d@) =~= Self::default_names());
        assert(circuits_view(e@) =~= self.coefficients());
        builder.assign_elements(names, d, e);
    }
}

impl CairoCodeAdder for Affine<Fq2> {
    open spec fn default_names() -> Seq<Seq<char>> {
        seq!["x0"@, "x1"@, "y0"@, "y1"@]
    }

    open spec fn coefficients(&self) -> Seq<Expr> {
        quad_coefs(self@)
    }

    fn add_circuit(&self, builder: &mut CairoCodeBuilder, names: Option<Vec<&str>>) {
        let mut d: Vec<&str> = Vec::new();
        d.push("x0");
        d.push("x1");
        d.push("y0");
        d.push("y1");
        let mut e: Vec<Circuit> = Vec::new();
        e.push(self.x().c0().c0().clone());
        e.push(self.x().c1().c0().clone());
        e.push(self.y().c0().c0().clone());
        e.push(self.y().c1().c0().clone());
        assert(strs_view(d@) =~= Self::default_names());
        assert(circuits_view(e@) =~= self.coefficients());
        builder.assign_elements(names, d, e);
    }
}

impl CairoCodeAdder for Precompute {
    open spec fn default_names() -> Seq<Seq<char>> {
        seq![
            "p_x0"@, "p_y0"@, "q_x0"@, "q_x1"@, "q_y0"@, "q_y1"@,
            "nq_x0"@, "nq_x1"@, "nq_y0"@, "nq_y1"@, "neg_x_over_y"@, "y_inv"@,
        ]
    }

    open spec fn coefficients(&self) -> Seq<Expr> {
        pair_coefs(self@.0) + quad_coefs(self@.1) + quad_coefs(self@.2) + pair_coefs(self@.3)
    }

    fn add_circuit(&self, builder: &mut CairoCodeBuilder, names: Option<Vec<&str>>) {
        let mut d: Vec<&str> = Vec::new();
        d.push("p_x0");
        d.push("p_y0");
        d.push("q_x0");
        d.push("q_x1");
        d.push("q_y0");
        d.push("q_y1");
        d.push("nq_x0");
        d.push("nq_x1");
        d.push("nq_y0");
        d.push("nq_y1");
        d.push("neg_x_over_y");
        d.push("y_inv");
        let mut e: Vec<Circuit> = Vec::new();
        e.push(self.p().x().c0().clone());
        e.push(self.p().y().c0().clone());
        e.push(self.q().x().c0().c0().clone());
        e.push(self.q().x().c1().c0().clone());
        e.push(self.q().y().c0().c0().clone());
        e.push(self.q().y().c1().c0().clone());
        e.push(self.neg_q().x().c0().c0().clone());
        e.push(self.neg_q().x().c1().c0().clone());
        e.push(self.neg_q().y().c0().c0().clone());
        e.push(self.neg_q().y().c1().c0().clone());
        e.push(self.ppc().neg_x_over_y().c0().clone());
        e.push(self.ppc().y_inv().c0().clone());
        assert(strs_view(d@) =~= Self::default_names());
        assert(circuits_view(e@) =~= self.coefficients());
        builder.assign_elements(names, d, e);
    }
}

impl CairoCodeAdder for LineFn {
    open spec fn default_names() -> Seq<Seq<char>> {
        seq!["slope_c0"@, "slope_c1"@, "c_c0"@, "c_c1"@]
    }

    open spec fn coefficients(&self) -> Seq<Expr> {
        quad_coefs(self@)
    }

    fn add_circuit(&self, builder: &mut CairoCodeBuilder, names: Option<Vec<&str>>) {
        let mut d: Vec<&str> = Vec::new();
        d.push("slope_c0");
        d.push("slope_c1");
        d.push("c_c0");
        d.push("c_c1");
        let mut e: Vec<Circuit> = Vec::new();
        e.push(self.slope().c0().c0().clone());
        e.push(self.slope().c1().c0().clone());
        e.push(self.c().c0().c0().clone());
        e.push(self.c().c1().c0().clone());
        assert(strs_view(d@) =~= Self::default_names());
        assert(circuits_view(e@) =~= self.coefficients());
        builder.assign_elements(names, d, e);
    }
}

impl CairoCodeAdder for Krbn2345 {
    open spec fn default_names() -> Seq<Seq<char>> {
        seq!["g2_c0"@, "g2_c1"@, "g3_c0"@, "g3_c1"@, "g4_c0"@, "g4_c1"@, "g5_c0"@, "g5_c1"@]
    }

    open spec fn coefficients(&self) -> Seq<Expr> {
        k4_coefs(self@)
    }

    fn add_circuit(&self, builder: &mut CairoCodeBuilder, names: Option<Vec<&str>>) {
        let mut d: Vec<&str> = Vec::new();
        d.push("g2_c0");
        d.push("g2_c1");
        d.push("g3_c0");
        d.push("g3_c1");
        d.push("g4_c0");
        d.push("g4_c1");
        d.push("g5_c0");
        d.push("g5_c1");
        let mut e: Vec<Circuit> = Vec::new();
        e.push(self.g2().c0().c0().clone());
        e.push(self.g2().c1().c0().clone());
        e.push(self.g3().c0().c0().clone());
        e.push(self.g3().c1().c0().clone());
        e.push(self.g4().c0().c0().clone());
        e.push(self.g4().c1().c0().clone());
        e.push(self.g5().c0().c0().clone());
        e.push(self.g5().c1().c0().clone());
        assert(strs_view(d@) =~= Self::default_names());
        assert(circuits_view(e@) =~= self.coefficients());
        builder.assign_elements(names, d, e);
    }
}

} // verus!
