//! Ready-made circuits: each builds a fixed set of operations over fresh
//! inputs and returns the emitted text.
use vstd::prelude::*;

use crate::circuit::{e_add, e_input, e_mul, e_sub, Circuit, Expr};
use crate::emit::adder::{f12_coefs, f6_coefs, k4_coefs, pair_coefs, quad_coefs, CairoCodeAdder};
use crate::emit::builder::{assign_line, assign_lines, imports_text, strs_view, CairoCodeBuilder};
use crate::fields::affine::{
    add_spec, chord_spec, double_spec, pt_on_slope_spec, tangent_spec, x_on_slope_spec,
    y_on_slope_spec, Affine, ECOperations,
};
use crate::fields::fq::Fq;
use crate::fields::fq12::{f12_add, f12_input, f12_neg, f12_sub, Fq12};
use crate::fields::fq12_squaring::{krbn_decompress_else, krbn_decompress_if_zero, krbn_sqr, Krbn2345, K4};
use crate::fields::fq2::{f2_add, f2_div, f2_input, f2_inv, f2_mul, f2_neg, f2_sqr, f2_sub, Fq2};
use crate::fields::fq6::{f6_add, f6_div, f6_input, f6_inv, f6_mul, f6_mul_01, f6_neg, f6_sqr, f6_sub, Fq6};
use crate::fields::sparse::{f12_mul_034_by_034, Fq12Sparse034, Fq6Sparse01};
use crate::fields::FieldOps;
use crate::pairing::line::{dbl_add_slope2, dbl_add_x1, step_dbl_add_spec, LineFn, P2};

verus! {

/// A line of text and its line break.
pub open spec fn line_text(s: Seq<char>) -> Seq<char> {
    s + "\n"@
}

/// Every quadratic extension operation on inputs `[0, 1]` and `[2, 3]`.
pub open spec fn fq2_field_ops_text() -> Seq<char> {
    let (l, r) = (f2_input(0, 1), f2_input(2, 3));
    let n = <Fq2 as CairoCodeAdder>::default_names();
    line_text("// Fq2 Add"@) + assign_lines(n, pair_coefs(f2_add(l, r)))
    + line_text("// Fq2 Sub"@) + assign_lines(n, pair_coefs(f2_sub(l, r)))
    + line_text("// Fq2 Mul"@) + assign_lines(n, pair_coefs(f2_mul(l, r)))
    + line_text("// Fq2 Sqr"@) + assign_lines(n, pair_coefs(f2_sqr(l)))
    + line_text("// Fq2 Div"@) + assign_lines(n, pair_coefs(f2_div(l, r)))
    + line_text("// Fq2 Inv"@) + assign_lines(n, pair_coefs(f2_inv(l)))
    + line_text("// Fq2 Neg"@) + assign_lines(n, pair_coefs(f2_neg(l)))
}

/// Every sextic extension operation on inputs `0..=5` and `6..=11`.
pub open spec fn fq6_field_ops_text() -> Seq<char> {
    let (l, r) = (f6_input(seq![0usize, 1, 2, 3, 4, 5]), f6_input(seq![6usize, 7, 8, 9, 10, 11]));
    let n = <Fq6 as CairoCodeAdder>::default_names();
    line_text("// Fq6 Add"@) + assign_lines(n, f6_coefs(f6_add(l, r)))
    + line_text("// Fq6 Sub"@) + assign_lines(n, f6_coefs(f6_sub(l, r)))
    + line_text("// Fq6 Mul"@) + assign_lines(n, f6_coefs(f6_mul(l, r)))
    + line_text("// Fq6 Sqr"@) + assign_lines(n, f6_coefs(f6_sqr(l)))
    + line_text("// Fq6 Div"@) + assign_lines(n, f6_coefs(f6_div(l, r)))
    + line_text("// Fq6 Inv"@) + assign_lines(n, f6_coefs(f6_inv(l)))
    + line_text("// Fq6 Neg"@) + assign_lines(n, f6_coefs(f6_neg(l)))
}

/// The component-wise duodecimal operations on inputs `0..=11` and `12..=23`.
pub open spec fn fq12_field_ops_text() -> Seq<char> {
    let (l, r) = (f12_input(seq![0usize, 1, 2, 3, 4, 5, 6, 7, 8, 9, 10, 11]), f12_input(seq![12usize, 13, 14, 15, 16, 17, 18, 19, 20, 21, 22, 23]));
    let n = <Fq12 as CairoCodeAdder>::default_names();
    line_text("// Fq12 Add"@) + assign_lines(n, f12_coefs(f12_add(l, r)))
    + line_text("// Fq12 Sub"@) + assign_lines(n, f12_coefs(f12_sub(l, r)))
    + line_text("// Fq12 Neg"@) + assign_lines(n, f12_coefs(f12_neg(l)))
}

pub fn generate_fq2_field_ops() -> (r: String)
    ensures
        r@ == fq2_field_ops_text(),
{
    let mut builder = CairoCodeBuilder::new();
    let lhs = Fq2::new_input([0, 1]);
    let rhs = Fq2::new_input([2, 3]);
    builder.add_line("// Fq2 Add");
    builder.add_circuit(lhs.add(&rhs), None);
    builder.add_line("// Fq2 Sub");
    builder.add_circuit(lhs.sub(&rhs), None);
    builder.add_line("// Fq2 Mul");
    builder.add_circuit(lhs.mul(&rhs), None);
    builder.add_line("// Fq2 Sqr");
    builder.add_circuit(lhs.sqr(), None);
    builder.add_line("// Fq2 Div");
    builder.add_circuit(lhs.div(&rhs), None);
    builder.add_line("// Fq2 Inv");
    builder.add_circuit(lhs.inv(), None);
    builder.add_line("// Fq2 Neg");
    builder.add_circuit(lhs.neg(), None);
    let ghost out = builder@;
    assert(out =~= fq2_field_ops_text());
    builder.build()
}

pub fn generate_fq6_field_ops() -> (r: String)
    ensures
        r@ == fq6_field_ops_text(),
{
    let mut builder = CairoCodeBuilder::new();
    let lhs = Fq6::new_input([0, 1, 2, 3, 4, 5]);
    let rhs = Fq6::new_input([6, 7, 8, 9, 10, 11]);
    assert([0usize, 1, 2, 3, 4, 5]@ =~= seq![0usize, 1, 2, 3, 4, 5]);
    assert([6usize, 7, 8, 9, 10, 11]@ =~= seq![6usize, 7, 8, 9, 10, 11]);
    builder.add_line("// Fq6 Add");
    builder.add_circuit(lhs.add(&rhs), None);
    builder.add_line("// Fq6 Sub");
    builder.add_circuit(lhs.sub(&rhs), None);
    builder.add_line("// Fq6 Mul");
    builder.add_circuit(lhs.mul(&rhs), None);
    builder.add_line("// Fq6 Sqr");
    builder.add_circuit(lhs.sqr(), None);
    builder.add_line("// Fq6 Div");
    builder.add_circuit(lhs.div(&rhs), None);
    builder.add_line("// Fq6 Inv");
    builder.add_circuit(lhs.inv(), None);
    builder.add_line("// Fq6 Neg");
    builder.add_circuit(lhs.neg(), None);
    let ghost out = builder@;
    assert(out =~= fq6_field_ops_text());
    builder.build()
}

pub fn generate_fq12_field_ops() -> (r: String)
    ensures
        r@ == fq12_field_ops_text(),
{
    let mut builder = CairoCodeBuilder::new();
    let lhs = Fq12::new_input([0, 1, 2, 3, 4, 5, 6, 7, 8, 9, 10, 11]);
    let rhs = Fq12::new_input([12, 13, 14, 15, 16, 17, 18, 19, 20, 21, 22, 23]);
    assert([0usize, 1, 2, 3, 4, 5, 6, 7, 8, 9, 10, 11]@ =~= seq![0usize, 1, 2, 3, 4, 5, 6, 7, 8, 9, 10, 11]);
    assert([12usize, 13, 14, 15, 16, 17, 18, 19, 20, 21, 22, 23]@ =~= seq![12usize, 13, 14, 15, 16, 17, 18, 19, 20, 21, 22, 23]);
    builder.add_line("// Fq12 Add");
    builder.add_circuit(lhs.add(&rhs), None);
    builder.add_line("// Fq12 Sub");
    builder.add_circuit(lhs.sub(&rhs), None);
    builder.add_line("// Fq12 Neg");
    builder.add_circuit(lhs.neg(), None);
    let ghost out = builder@;
    assert(out =~= fq12_field_ops_text());
    builder.build()
}

pub open spec fn affine_lhs() -> P2 {
    (f2_input(0, 1), f2_input(2, 3))
}

pub open spec fn affine_rhs() -> P2 {
    (f2_input(4, 5), f2_input(6, 7))
}

/// The affine operations on points at inputs `0..=3` and `4..=7`, with the
/// slope at `[4, 5]` and the x coordinate at `[6, 7]`.
pub open spec fn affine_fq2_ops_text() -> Seq<char> {
    let (l, r) = (affine_lhs(), affine_rhs());
    let (slope, x) = (f2_input(4, 5), f2_input(6, 7));
    let n2 = <Fq2 as CairoCodeAdder>::default_names();
    let np = <Affine<Fq2> as CairoCodeAdder>::default_names();
    line_text("// Affine Fq2"@)
    + line_text("// x_on_slope"@) + assign_lines(n2, pair_coefs(x_on_slope_spec::<Fq2>(l, slope, x)))
    + line_text("// y_on_slope"@) + assign_lines(n2, pair_coefs(y_on_slope_spec::<Fq2>(l, slope, x)))
    + line_text("// pt_on_slope"@) + assign_lines(np, quad_coefs(pt_on_slope_spec::<Fq2>(l, slope, x)))
    + line_text("// chord"@) + assign_lines(n2, pair_coefs(chord_spec::<Fq2>(l, r)))
    + line_text("// add"@) + assign_lines(np, quad_coefs(add_spec::<Fq2>(l, r)))
    + line_text("// tangent"@) + assign_lines(n2, pair_coefs(tangent_spec::<Fq2>(l)))
    + line_text("// double"@) + assign_lines(np, quad_coefs(double_spec::<Fq2>(l)))
}

pub fn generate_affine_fq2_ops() -> (r: String)
    ensures
        r@ == affine_fq2_ops_text(),
{
    let mut builder = CairoCodeBuilder::new();
    let lhs: Affine<Fq2> = Affine::<Fq2>::new_input([0, 1, 2, 3]);
    let rhs: Affine<Fq2> = Affine::<Fq2>::new_input([4, 5, 6, 7]);
    let slope: Fq2 = Fq2::new_input([4, 5]);
    let x: Fq2 = Fq2::new_input([6, 7]);
    builder.add_line("// Affine Fq2");
    builder.add_line("// x_on_slope");
    builder.add_circuit(lhs.x_on_slope(&slope, &x), None);
    builder.add_line("// y_on_slope");
    builder.add_circuit(lhs.y_on_slope(&slope, &x), None);
    builder.add_line("// pt_on_slope");
    builder.add_circuit(lhs.pt_on_slope(&slope, &x), None);
    builder.add_line("// chord");
    builder.add_circuit(lhs.chord(&rhs), None);
    builder.add_line("// add");
    builder.add_circuit(lhs.add(&rhs), None);
    builder.add_line("// tangent");
    builder.add_circuit(lhs.tangent(), None);
    builder.add_line("// double");
    builder.add_circuit(lhs.double(), None);
    let ghost out = builder@;
    assert(out =~= affine_fq2_ops_text());
    builder.build()
}

/// The fused double-and-add step from the point at inputs `0..=3` with the
/// point at `4..=7`: both lines, then the new point.
pub open spec fn line_fn_step_dbl_add_text() -> Seq<char> {
    let (n, ls) = step_dbl_add_spec(affine_lhs(), affine_rhs());
    line_text("// step_dbl_add"@)
    + line_text("// lf1"@) + assign_lines(seq!["Lf1SlopeC0"@, "Lf1SlopeC1"@, "Lf1C0"@, "Lf1C1"@], quad_coefs(ls.0))
    + line_text("// lf1"@) + assign_lines(seq!["Lf2SlopeC0"@, "Lf2SlopeC1"@, "Lf2C0"@, "Lf2C1"@], quad_coefs(ls.1))
    + line_text("// acc "@) + assign_lines(<Affine<Fq2> as CairoCodeAdder>::default_names(), quad_coefs(n))
}

pub fn generate_line_fn_step_dbl_add() -> (r: String)
    ensures
        r@ == line_fn_step_dbl_add_text(),
{
    let mut builder = CairoCodeBuilder::new();
    let mut acc: Affine<Fq2> = Affine::<Fq2>::new_input([0, 1, 2, 3]);
    let q: Affine<Fq2> = Affine::<Fq2>::new_input([4, 5, 6, 7]);
    let (lf1, lf2) = LineFn::step_dbl_add(&mut acc, &q);
    let mut n1: Vec<&str> = Vec::new();
    n1.push("Lf1SlopeC0");
    n1.push("Lf1SlopeC1");
    n1.push("Lf1C0");
    n1.push("Lf1C1");
    let mut n2: Vec<&str> = Vec::new();
    n2.push("Lf2SlopeC0");
    n2.push("Lf2SlopeC1");
    n2.push("Lf2C0");
    n2.push("Lf2C1");
    assert(strs_view(n1@) =~= seq!["Lf1SlopeC0"@, "Lf1SlopeC1"@, "Lf1C0"@, "Lf1C1"@]);
    assert(strs_view(n2@) =~= seq!["Lf2SlopeC0"@, "Lf2SlopeC1"@, "Lf2C0"@, "Lf2C1"@]);
    builder.add_line("// step_dbl_add");
    builder.add_line("// lf1");
    builder.add_circuit(lf1, Some(n1));
    builder.add_line("// lf1");
    builder.add_circuit(lf2, Some(n2));
    builder.add_line("// acc ");
    builder.add_circuit(acc, None);
    let ghost out = builder@;
    assert(out =~= line_fn_step_dbl_add_text());
    builder.build()
}

pub open spec fn krbn_input() -> K4 {
    (f2_input(0, 1), f2_input(2, 3), f2_input(4, 5), f2_input(6, 7))
}

/// One compressed squaring of the element at inputs `0..=7`.
pub open spec fn krbn_sqr_text() -> Seq<char> {
    line_text("// krbn_sqr2345"@) + assign_lines(<Krbn2345 as CairoCodeAdder>::default_names(), k4_coefs(krbn_sqr(krbn_input())))
}

pub fn generate_krbn_sqr() -> (r: String)
    ensures
        r@ == krbn_sqr_text(),
{
    let mut builder = CairoCodeBuilder::new();
    let kr = Krbn2345::new_input([0, 1, 2, 3, 4, 5, 6, 7]);
    builder.add_line("// krbn_sqr2345");
    builder.add_circuit(kr.sqr_krbn(), None);
    let ghost out = builder@;
    assert(out =~= krbn_sqr_text());
    builder.build()
}

/// `(g0, g1)` of the element at inputs `0..=7`, see [`krbn_decompress_if_zero`].
pub open spec fn krbn_decompress_text() -> Seq<char> {
    let (g0, g1) = krbn_decompress_if_zero(krbn_input());
    line_text("// krbn_decompress"@)
    + line_text("// g0"@) + assign_lines(seq!["KbrnDecompZeroG0C0"@, "KbrnDecompZeroG0C1"@], pair_coefs(g0))
    + line_text("// g1"@) + assign_lines(seq!["KbrnDecompZeroG1C0"@, "KbrnDecompZeroG1C1"@], pair_coefs(g1))
}

pub fn generate_krbn_decompress() -> (r: String)
    ensures
        r@ == krbn_decompress_text(),
{
    let mut builder = CairoCodeBuilder::new();
    let kr = Krbn2345::new_input([0, 1, 2, 3, 4, 5, 6, 7]);
    let (g0, g1) = kr.krbn_decompress_if_zero();
    let mut n0: Vec<&str> = Vec::new();
    n0.push("KbrnDecompZeroG0C0");
    n0.push("KbrnDecompZeroG0C1");
    let mut n1: Vec<&str> = Vec::new();
    n1.push("KbrnDecompZeroG1C0");
    n1.push("KbrnDecompZeroG1C1");
    assert(strs_view(n0@) =~= seq!["KbrnDecompZeroG0C0"@, "KbrnDecompZeroG0C1"@]);
    assert(strs_view(n1@) =~= seq!["KbrnDecompZeroG1C0"@, "KbrnDecompZeroG1C1"@]);
    builder.add_line("// krbn_decompress");
    builder.add_line("// g0");
    builder.add_circuit(g0, Some(n0));
    builder.add_line("// g1");
    builder.add_circuit(g1, Some(n1));
    let ghost out = builder@;
    assert(out =~= krbn_decompress_text());
    builder.build()
}

/// `(g0, g1)` of the element at inputs `0..=7`, see [`krbn_decompress_else`].
pub open spec fn krbn_non_zero_decompress_text() -> Seq<char> {
    let (g0, g1) = krbn_decompress_else(krbn_input());
    line_text("// krbn_decompress"@)
    + line_text("// g0"@) + assign_lines(seq!["KbrnDecompNonZeroG0C0"@, "KbrnDecompNonZeroG0C1"@], pair_coefs(g0))
    + line_text("// g1"@) + assign_lines(seq!["KbrnDecompNonZeroG1C0"@, "KbrnDecompNonZeroG1C1"@], pair_coefs(g1))
}

pub fn generate_krbn_non_zero_decompress() -> (r: String)
    ensures
        r@ == krbn_non_zero_decompress_text(),
{
    let mut builder = CairoCodeBuilder::new();
    let kr = Krbn2345::new_input([0, 1, 2, 3, 4, 5, 6, 7]);
    let (g0, g1) = kr.krbn_decompress_else();
    let mut n0: Vec<&str> = Vec::new();
    n0.push("KbrnDecompNonZeroG0C0");
    n0.push("KbrnDecompNonZeroG0C1");
    let mut n1: Vec<&str> = Vec::new();
    n1.push("KbrnDecompNonZeroG1C0");
    n1.push("KbrnDecompNonZeroG1C1");
    assert(strs_view(n0@) =~= seq!["KbrnDecompNonZeroG0C0"@, "KbrnDecompNonZeroG0C1"@]);
    assert(strs_view(n1@) =~= seq!["KbrnDecompNonZeroG1C0"@, "KbrnDecompNonZeroG1C1"@]);
    builder.add_line("// krbn_decompress");
    builder.add_line("// g0");
    builder.add_circuit(g0, Some(n0));
    builder.add_line("// g1");
    builder.add_circuit(g1, Some(n1));
    let ghost out = builder@;
    assert(out =~= krbn_non_zero_decompress_text());
    builder.build()
}

/// The product of the lines at inputs `0..=3` and `4..=7`: the dense half,
/// then the two coefficients of the sparse half.
pub open spec fn sparse_mul_034_by_034_text() -> Seq<char> {
    let (c0, c1) = f12_mul_034_by_034(affine_lhs(), affine_rhs());
    line_text("// Sparse mul_034_by_034"@)
    + line_text("// Fq6"@) + assign_lines(seq!["M034034_zC0B0C0"@, "M034034_zC0B0C1"@, "M034034_C3D3C0"@, "M034034_C3D3C1"@, "M034034_X34C0"@, "M034034_X34C1"@], f6_coefs(c0))
    + line_text("// Fq6Sparse01"@) + assign_lines(seq!["M034034_X03C0"@, "M034034_X03C1"@], pair_coefs(c1.0))
    + assign_lines(seq!["M034034_X04C0"@, "M034034_X04C1"@], pair_coefs(c1.1))
}

pub fn generate_sparse_mul_034_by_034() -> (r: String)
    ensures
        r@ == sparse_mul_034_by_034_text(),
{
    let mut builder = CairoCodeBuilder::new();
    let lhs = Fq12Sparse034::new(Fq2::new_input([0, 1]), Fq2::new_input([2, 3]));
    let rhs = Fq12Sparse034::new(Fq2::new_input([4, 5]), Fq2::new_input([6, 7]));
    let out = lhs.mul_034_by_034(&rhs);
    let mut na: Vec<&str> = Vec::new();
    na.push("M034034_zC0B0C0");
    na.push("M034034_zC0B0C1");
    na.push("M034034_C3D3C0");
    na.push("M034034_C3D3C1");
    na.push("M034034_X34C0");
    na.push("M034034_X34C1");
    let mut nb: Vec<&str> = Vec::new();
    nb.push("M034034_X03C0");
    nb.push("M034034_X03C1");
    let mut nc: Vec<&str> = Vec::new();
    nc.push("M034034_X04C0");
    nc.push("M034034_X04C1");
    assert(strs_view(na@) =~= seq!["M034034_zC0B0C0"@, "M034034_zC0B0C1"@, "M034034_C3D3C0"@, "M034034_C3D3C1"@, "M034034_X34C0"@, "M034034_X34C1"@]);
    assert(strs_view(nb@) =~= seq!["M034034_X03C0"@, "M034034_X03C1"@]);
    assert(strs_view(nc@) =~= seq!["M034034_X04C0"@, "M034034_X04C1"@]);
    builder.add_line("// Sparse mul_034_by_034");
    builder.add_line("// Fq6");
    builder.add_circuit(out.c0().duplicate(), Some(na));
    builder.add_line("// Fq6Sparse01");
    builder.add_circuit(out.c1().c0().duplicate(), Some(nb));
    builder.add_circuit(out.c1().c1().duplicate(), Some(nc));
    let ghost text = builder@;
    assert(text =~= sparse_mul_034_by_034_text());
    builder.build()
}

/// The sextic element at inputs `0..=5` times the sparse operand at `6..=9`.
pub open spec fn sparse_mul_01_text() -> Seq<char> {
    let out = f6_mul_01(f6_input(seq![0usize, 1, 2, 3, 4, 5]), (f2_input(6, 7), f2_input(8, 9)));
    line_text("// Sparse mul_01"@) + line_text("// Fq6"@) + assign_lines(seq!["M01_C0C0"@, "M01_C0C1"@, "M01_C1C0"@, "M01_C1C1"@, "M01_C2C0"@, "M01_C2C1"@], f6_coefs(out))
}

pub fn generate_sparse_mul_01() -> (r: String)
    ensures
        r@ == sparse_mul_01_text(),
{
    let mut builder = CairoCodeBuilder::new();
    let lhs: Fq6 = Fq6::new_input([0, 1, 2, 3, 4, 5]);
    let rhs: Fq6Sparse01 = Fq6Sparse01::new(Fq2::new_input([6, 7]), Fq2::new_input([8, 9]));
    assert([0usize, 1, 2, 3, 4, 5]@ =~= seq![0usize, 1, 2, 3, 4, 5]);
    let out = lhs.mul_01(&rhs);
    let mut n: Vec<&str> = Vec::new();
    n.push("M01_C0C0");
    n.push("M01_C0C1");
    n.push("M01_C1C0");
    n.push("M01_C1C1");
    n.push("M01_C2C0");
    n.push("M01_C2C1");
    assert(strs_view(n@) =~= seq!["M01_C0C0"@, "M01_C0C1"@, "M01_C1C0"@, "M01_C1C1"@, "M01_C2C0"@, "M01_C2C1"@]);
    builder.add_line("// Sparse mul_01");
    builder.add_line("// Fq6");
    builder.add_circuit(out, Some(n));
    let ghost text = builder@;
    assert(text =~= sparse_mul_01_text());
    builder.build()
}

/// The two slopes and the intermediate x coordinate of the fused step from
/// the point at inputs `0..=3` with the point at `4..=7`.
pub open spec fn step_dbl_add_slopes_text() -> Seq<char> {
    let (a, q) = (affine_lhs(), affine_rhs());
    line_text("// step_dbl_add_slopes"@)
    + line_text("// Fq2"@) + assign_lines(seq!["Slope1_C0"@, "Slope1_C1"@], pair_coefs(chord_spec::<Fq2>(a, q)))
    + line_text("// Fq2"@) + assign_lines(seq!["X1_C0"@, "X1_C1"@], pair_coefs(dbl_add_x1(a, q)))
    + line_text("// Fq2"@) + assign_lines(seq!["Slope2_C0"@, "Slope2_C1"@], pair_coefs(dbl_add_slope2(a, q)))
}

pub fn generate_step_dbl_add_slopes() -> (r: String)
    ensures
        r@ == step_dbl_add_slopes_text(),
{
    let mut builder = CairoCodeBuilder::new();
    let acc: Affine<Fq2> = Affine::<Fq2>::new_input([0, 1, 2, 3]);
    let q: Affine<Fq2> = Affine::<Fq2>::new_input([4, 5, 6, 7]);
    let slope1 = acc.chord(&q);
    let x1 = acc.x_on_slope(&slope1, q.x());
    let slope2 = slope1.neg().sub(&acc.y().add(acc.y()).div(&x1.sub(acc.x())));
    let mut na: Vec<&str> = Vec::new();
    na.push("Slope1_C0");
    na.push("Slope1_C1");
    let mut nb: Vec<&str> = Vec::new();
    nb.push("X1_C0");
    nb.push("X1_C1");
    let mut nc: Vec<&str> = Vec::new();
    nc.push("Slope2_C0");
    nc.push("Slope2_C1");
    assert(strs_view(na@) =~= seq!["Slope1_C0"@, "Slope1_C1"@]);
    assert(strs_view(nb@) =~= seq!["X1_C0"@, "X1_C1"@]);
    assert(strs_view(nc@) =~= seq!["Slope2_C0"@, "Slope2_C1"@]);
    builder.add_line("// step_dbl_add_slopes");
    builder.add_line("// Fq2");
    builder.add_circuit(slope1, Some(na));
    builder.add_line("// Fq2");
    builder.add_circuit(x1, Some(nb));
    builder.add_line("// Fq2");
    builder.add_circuit(slope2, Some(nc));
    let ghost text = builder@;
    assert(text =~= step_dbl_add_slopes_text());
    builder.build()
}

/// The two partial terms of the verifier's `D`, over inputs
/// `beta, xi, eval_a, gamma, k1, eval_b, k2, eval_c, alpha, l1, u, eval_s1,
/// eval_s2, eval_zw` at positions `0..=13`.
pub open spec fn d_partial_spec() -> (Expr, Expr) {
    let (beta, xi, eval_a, gamma, vk_k1) = (e_input(0), e_input(1), e_input(2), e_input(3), e_input(4));
    let (eval_b, vk_k2, eval_c, alpha, l1) = (e_input(5), e_input(6), e_input(7), e_input(8), e_input(9));
    let (u, eval_s1, eval_s2, eval_zw) = (e_input(10), e_input(11), e_input(12), e_input(13));
    let betaxi = e_mul(beta, xi);
    let d2a1 = e_add(e_add(eval_a, betaxi), gamma);
    let d2a2 = e_add(e_add(eval_b, e_mul(betaxi, vk_k1)), gamma);
    let d2a3 = e_add(e_add(eval_c, e_mul(betaxi, vk_k2)), gamma);
    let d2a = e_mul(e_mul(e_mul(d2a1, d2a2), d2a3), alpha);
    let d2b = e_mul(l1, e_mul(alpha, alpha));
    let d2ab = e_add(e_add(d2a, d2b), u);
    let d3a = e_add(e_add(eval_a, e_mul(beta, eval_s1)), gamma);
    let d3b = e_add(e_add(eval_b, e_mul(beta, eval_s2)), gamma);
    let d3c = e_mul(e_mul(alpha, beta), eval_zw);
    (d2ab, e_mul(e_mul(d3a, d3b), d3c))
}

pub open spec fn compute_d_partial_text() -> Seq<char> {
    let (d2ab, d3ab) = d_partial_spec();
    line_text("// d_partial"@)
    + line_text("// D2AB"@) + assign_lines(seq!["D2AB"@], seq![d2ab])
    + line_text("// D3AB"@) + assign_lines(seq!["D3AB"@], seq![d3ab])
}

#[allow(non_snake_case)]
pub fn generate_compute_D_partial() -> (r: String)
    ensures
        r@ == compute_d_partial_text(),
{
    let mut builder = CairoCodeBuilder::new();
    let beta: Fq = Fq::new_input(0);
    let xi: Fq = Fq::new_input(1);
    let eval_a: Fq = Fq::new_input(2);
    let gamma: Fq = Fq::new_input(3);
    let vk_k1: Fq = Fq::new_input(4);
    let eval_b: Fq = Fq::new_input(5);
    let vk_k2: Fq = Fq::new_input(6);
    let eval_c: Fq = Fq::new_input(7);
    let alpha: Fq = Fq::new_input(8);
    let l1: Fq = Fq::new_input(9);
    let u: Fq = Fq::new_input(10);
    let eval_s1: Fq = Fq::new_input(11);
    let eval_s2: Fq = Fq::new_input(12);
    let eval_zw: Fq = Fq::new_input(13);

    let betaxi = beta.mul(&xi);
    let d2a1 = eval_a.add(&betaxi).add(&gamma);
    let d2a2 = eval_b.add(&betaxi.mul(&vk_k1)).add(&gamma);
    let d2a3 = eval_c.add(&betaxi.mul(&vk_k2)).add(&gamma);
    let d2a = d2a1.mul(&d2a2).mul(&d2a3).mul(&alpha);
    let d2b = l1.mul(&alpha.sqr());
    let d2ab = d2a.add(&d2b).add(&u);
    let d3a = eval_a.add(&beta.mul(&eval_s1)).add(&gamma);
    let d3b = eval_b.add(&beta.mul(&eval_s2)).add(&gamma);
    let d3c = alpha.mul(&beta).mul(&eval_zw);
    let d3ab = d3a.mul(&d3b).mul(&d3c);

    let mut na: Vec<&str> = Vec::new();
    na.push("D2AB");
    let mut nb: Vec<&str> = Vec::new();
    nb.push("D3AB");
    assert(strs_view(na@) =~= seq!["D2AB"@]);
    assert(strs_view(nb@) =~= seq!["D3AB"@]);
    builder.add_line("// d_partial");
    builder.add_line("// D2AB");
    builder.add_circuit(d2ab, Some(na));
    builder.add_line("// D3AB");
    builder.add_circuit(d3ab, Some(nb));
    let ghost text = builder@;
    assert(text =~= compute_d_partial_text());
    builder.build()
}

/// The verifier's `r0`, over inputs `pi, l1, alpha, eval_a, beta, eval_s1,
/// gamma, eval_b, eval_s2, eval_c, eval_zw` at positions `0..=10`.
pub open spec fn r0_spec() -> Expr {
    let (pi, l1, alpha, eval_a, beta) = (e_input(0), e_input(1), e_input(2), e_input(3), e_input(4));
    let (eval_s1, gamma, eval_b, eval_s2) = (e_input(5), e_input(6), e_input(7), e_input(8));
    let (eval_c, eval_zw) = (e_input(9), e_input(10));
    let e2 = e_mul(l1, e_mul(alpha, alpha));
    let e3a = e_add(e_add(eval_a, e_mul(beta, eval_s1)), gamma);
    let e3b = e_add(e_add(eval_b, e_mul(beta, eval_s2)), gamma);
    let e3c = e_add(eval_c, gamma);
    let e3 = e_mul(e_mul(e_mul(e_mul(e3a, e3b), e3c), eval_zw), alpha);
    e_sub(e_sub(pi, e2), e3)
}

pub open spec fn compute_r0_text() -> Seq<char> {
    line_text("// compute R0"@) + line_text("// r0"@) + assign_lines(seq!["R0_C0"@], seq![r0_spec()])
}

#[allow(non_snake_case)]
pub fn generate_compute_R0() -> (r: String)
    ensures
        r@ == compute_r0_text(),
{
    let mut builder = CairoCodeBuilder::new();
    let pi: Fq = Fq::new_input(0);
    let l1: Fq = Fq::new_input(1);
    let alpha: Fq = Fq::new_input(2);
    let eval_a: Fq = Fq::new_input(3);
    let beta: Fq = Fq::new_input(4);
    let eval_s1: Fq = Fq::new_input(5);
    let gamma: Fq = Fq::new_input(6);
    let eval_b: Fq = Fq::new_input(7);
    let eval_s2: Fq = Fq::new_input(8);
    let eval_c: Fq = Fq::new_input(9);
    let eval_zw: Fq = Fq::new_input(10);

    let e1 = pi;
    let e2 = l1.mul(&alpha.sqr());
    let e3a = eval_a.add(&beta.mul(&eval_s1)).add(&gamma);
    let e3b = eval_b.add(&beta.mul(&eval_s2)).add(&gamma);
    let e3c = eval_c.add(&gamma);
    let e3 = e3a.mul(&e3b).mul(&e3c);
    let e3 = e3.mul(&eval_zw);
    let e3 = e3.mul(&alpha);
    let r0 = e1.sub(&e2).sub(&e3);

    let mut n: Vec<&str> = Vec::new();
    n.push("R0_C0");
    assert(strs_view(n@) =~= seq!["R0_C0"@]);
    builder.add_line("// compute R0");
    builder.add_line("// r0");
    builder.add_circuit(r0, Some(n));
    let ghost text = builder@;
    assert(text =~= compute_r0_text());
    builder.build()
}

/// A fixed sample: the two slope coefficients of a quadratic division whose
/// operands are written out as text, after the import preamble.
pub open spec fn cairo_code_text() -> Seq<char> {
    let t0 = Expr::Raw(T0_TEXT@);
    let t1 = Expr::Raw(T1_TEXT@);
    let a = Expr::Raw(A0_ADD_A1_TEXT@);
    let b = Expr::Raw(B0_ADD_B1_TEXT@);
    imports_text()
        + assign_line("slope_x"@, Expr::Element(Box::new(e_sub(t0, t1))))
        + assign_line("slope_y"@, Expr::Element(Box::new(e_sub(e_mul(a, b), e_add(t0, t1)))))
}

pub const T0_TEXT: &'static str = "M::<S::<CI::<6>, CI::<2>>, M::<S::<CI::<4>, CI::<0>>, I::<A::<M::<S::<CI::<4>, CI::<0>>, S::<CI::<4>, CI::<0>>>, M::<S::<CI::<5>, CI::<1>>, S::<CI::<5>, CI::<1>>>>>>>";

pub const T1_TEXT: &'static str = "M::<S::<CI::<7>, CI::<3>>, M::<S::<CI::<5>, CI::<1>>, S::<S::<CI::<0>, CI::<0>>, I::<A::<M::<S::<CI::<4>, CI::<0>>, S::<CI::<4>, CI::<0>>>, M::<S::<CI::<5>, CI::<1>>, S::<CI::<5>, CI::<1>>>>>>>>";

pub const A0_ADD_A1_TEXT: &'static str = "A::<S::<CI::<6>, CI::<2>>, S::<CI::<7>, CI::<3>>>";

pub const B0_ADD_B1_TEXT: &'static str = "A::<M::<S::<CI::<4>, CI::<0>>, I::<A::<M::<S::<CI::<4>, CI::<0>>, S::<CI::<4>, CI::<0>>>, M::<S::<CI::<5>, CI::<1>>, S::<CI::<5>, CI::<1>>>>>>,M::<S::<CI::<5>, CI::<1>>, S::<S::<CI::<0>, CI::<0>>, I::<A::<M::<S::<CI::<4>, CI::<0>>, S::<CI::<4>, CI::<0>>>, M::<S::<CI::<5>, CI::<1>>, S::<CI::<5>, CI::<1>>>>>>>>";

pub fn generate_cairo_code() -> (r: String)
    ensures
        r@ == cairo_code_text(),
{
    let mut builder = CairoCodeBuilder::new();
    let t0 = Circuit::new(String::from_str(T0_TEXT));
    let t1 = Circuit::new(String::from_str(T1_TEXT));
    let a0_add_a1 = Circuit::new(String::from_str(A0_ADD_A1_TEXT));
    let b0_add_b1 = Circuit::new(String::from_str(B0_ADD_B1_TEXT));

    let t2 = Circuit::circuit_mul(&a0_add_a1, &b0_add_b1);
    let t3 = Circuit::circuit_add(&t0, &t1);
    let t3 = Circuit::circuit_sub(&t2, &t3).format_circuit();
    let t4 = Circuit::circuit_sub(&t0, &t1).format_circuit();

    builder.assign_variable("slope_x", t4);
    builder.assign_variable("slope_y", t3);
    builder.add_imports();
    let ghost text = builder@;
    assert(text =~= cairo_code_text());
    builder.build()
}

} // verus!
