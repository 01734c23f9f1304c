use cairo_circuit_codegen::circuit::Circuit;
use cairo_circuit_codegen::emit::builder::CairoCodeBuilder;
use cairo_circuit_codegen::fields::affine::{Affine, ECOperations};
use cairo_circuit_codegen::fields::fq::Fq;
use cairo_circuit_codegen::fields::fq12::Fq12;
use cairo_circuit_codegen::fields::fq2::Fq2;
use cairo_circuit_codegen::fields::FieldOps;
use cairo_circuit_codegen::pairing::ate_miller::{ate_loop_digit, ATE_LOOP_LEN};
use cairo_circuit_codegen::pairing::line::LineFn;
use cairo_circuit_codegen::pairing::precompute::Precompute;

fn text(c: &Circuit) -> String {
    c.clone().inner()
}

fn fq2_text(x: &Fq2) -> (String, String) {
    (text(x.c0().c0()), text(x.c1().c0()))
}

#[test]
fn test_miller_precompute() {
    let g1: Affine<Fq> = Affine::<Fq>::new_input([0, 1]);
    let g2: Affine<Fq2> = Affine::<Fq2>::new_input([2, 3, 4, 5]);
    let miller_idx = [0, 1, 2, 3, 4, 5];

    let (precompute, q_acc) = Precompute::precompute(g1, g2, Some(miller_idx));

    let mut builder: CairoCodeBuilder = CairoCodeBuilder::new();
    builder.add_circuit(precompute, None);
    builder.add_circuit(q_acc, None);

    let code = builder.build();
    let lines: Vec<&str> = code.lines().collect();
    assert_eq!(lines.len(), 16);
    assert_eq!(lines[0], "let p_x0 = CE::<CI::<0>> {};");
    assert_eq!(lines[1], "let p_y0 = CE::<CI::<1>> {};");
    assert_eq!(lines[6], "let nq_x0 = CE::<CI::<2>> {};");
    assert_eq!(lines[8], "let nq_y0 = CE::<S::<S::<CI::<0>, CI::<0>>, CI::<4>>> {};");
    assert_eq!(
        lines[10],
        "let neg_x_over_y = CE::<M::<S::<S::<CI::<0>, CI::<0>>, CI::<0>>, I::<CI::<1>>>> {};"
    );
    assert_eq!(lines[11], "let y_inv = CE::<I::<CI::<1>>> {};");
    assert_eq!(lines[12], "let x0 = CE::<CI::<2>> {};");
    assert_eq!(lines[15], "let y1 = CE::<CI::<5>> {};");
}

#[test]
fn test_miller_sqr() {
    let g1: Affine<Fq> = Affine::<Fq>::new_input([0, 1]);
    let g2: Affine<Fq2> = Affine::<Fq2>::new_input([2, 3, 4, 5]);
    let mut f: Fq12 = Fq12::new_input([6, 7, 8, 9, 10, 11, 12, 13, 14, 15, 16, 17]);
    let expected = f.sqr();
    let (mut precompute, mut q_acc) = Precompute::precompute(g1, g2, None);
    precompute.sqr_target(0, &mut q_acc, &mut f);
    let mut a = CairoCodeBuilder::new();
    a.add_circuit(f, None);
    let mut b = CairoCodeBuilder::new();
    b.add_circuit(expected, None);
    assert_eq!(a.build(), b.build());
    assert_eq!(fq2_text(q_acc.x()), ("CI::<2>".to_string(), "CI::<3>".to_string()));
}

#[test]
fn test_miller_bit_o() {
    let g1: Affine<Fq> = Affine::<Fq>::new_input([0, 1]);
    let g2: Affine<Fq2> = Affine::<Fq2>::new_input([2, 3, 4, 5]);
    let mut f: Fq12 = Fq12::new_input([6, 7, 8, 9, 10, 11, 12, 13, 14, 15, 16, 17]);
    let miller_idx = [0, 1, 2, 3, 4, 5];

    let (mut precompute, mut q_acc) = Precompute::precompute(g1, g2, Some(miller_idx));
    precompute.miller_bit_o(0, &mut q_acc, &mut f);

    let expected_acc = Affine::<Fq2>::new_input([2, 3, 4, 5]).double();
    assert_eq!(fq2_text(q_acc.x()), fq2_text(expected_acc.x()));
    assert_eq!(fq2_text(q_acc.y()), fq2_text(expected_acc.y()));

    let mut builder: CairoCodeBuilder = CairoCodeBuilder::new();
    builder.add_circuit(q_acc, None);
    builder.add_circuit(f, None);

    let code = builder.build();
    assert_eq!(code.lines().count(), 16);
    assert!(code.contains("CI::<17>"));
}

#[test]
fn test_miller_bit_p() {
    assert_eq!(ate_loop_digit(61), 1);
    assert_eq!(ate_loop_digit(49), 1);
    assert_eq!(ate_loop_digit(38), 1);
    assert_eq!(ate_loop_digit(33), 1);
}

#[test]
fn test_miller_bit_n() {
    assert_eq!(ate_loop_digit(63), -1);
    assert_eq!(ate_loop_digit(57), -1);
    assert_eq!(ate_loop_digit(55), -1);
    assert_eq!(ate_loop_digit(35), -1);
}

#[test]
fn test_miller_last() {
    let mut acc: Affine<Fq2> = Affine::<Fq2>::new_input([6, 7, 8, 9]);
    let q: Affine<Fq2> = Affine::<Fq2>::new_input([10, 11, 12, 13]);
    let (d, e) = LineFn::correction_step(&mut acc, &q, [0, 1, 2, 3, 4, 5]);
    let q1x = q.x().conjugate().mul(&Fq2::new_input([0, 1]));
    let mut expected = Affine::<Fq2>::new_input([6, 7, 8, 9]);
    let q1 = Affine::<Fq2>::new(q1x, q.y().conjugate().mul(&Fq2::new_input([2, 3])), [0, 1, 2, 3]);
    let d2 = LineFn::step_add(&mut expected, &q1);
    assert_eq!(fq2_text(d.slope()), fq2_text(d2.slope()));
    assert_eq!(fq2_text(d.c()), fq2_text(d2.c()));
    assert_eq!(fq2_text(acc.x()), fq2_text(expected.x()));
    assert!(fq2_text(e.slope()).0.contains("M::<CI::<12>, CI::<5>>"));
}

#[test]
fn ate_miller_test() {
    let inp: [usize; 6] = (0..=5).collect::<Vec<usize>>().try_into().unwrap();

    let p: Affine<Fq> = Affine::<Fq>::new_input([0, 1]);
    let q: Affine<Fq2> = Affine::<Fq2>::new_input([2, 3, 4, 5]);

    let (precompute, q_acc) = Precompute::precompute(p, q, Some(inp));
    assert_eq!(precompute.inp(), Some(inp));
    assert_eq!(fq2_text(q_acc.y()), ("CI::<4>".to_string(), "CI::<5>".to_string()));
    assert_eq!(fq2_text(precompute.q().x()), ("CI::<2>".to_string(), "CI::<3>".to_string()));
}

#[test]
fn loop_digits_encode_six_x_plus_two() {
    // 6x + 2 for x = 4965661367192848881
    let mut value: i128 = 0;
    for i in (0..ATE_LOOP_LEN).rev() {
        value = value * 2 + ate_loop_digit(i) as i128;
    }
    assert_eq!(value, 29793968203157093288);
    assert_eq!(ate_loop_digit(65), 1);
    assert_eq!(ate_loop_digit(64), 0);
}

#[test]
fn step_double_replaces_point_and_gives_line_through_it() {
    let mut acc = Affine::<Fq2>::new_input([0, 1, 2, 3]);
    let start = Affine::<Fq2>::new_input([0, 1, 2, 3]);
    let l = LineFn::step_double(&mut acc);
    let doubled = start.double();
    assert_eq!(fq2_text(acc.x()), fq2_text(doubled.x()));
    assert_eq!(fq2_text(l.slope()), fq2_text(&start.tangent()));
    let c = l.slope().mul(acc.x()).sub(acc.y());
    assert_eq!(fq2_text(l.c()), fq2_text(&c));
}
