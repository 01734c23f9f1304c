use cairo_circuit_codegen::circuit::Circuit;
use cairo_circuit_codegen::emit::builder::CairoCodeBuilder;
use cairo_circuit_codegen::fields::affine::{Affine, ECOperations};
use cairo_circuit_codegen::fields::fq::Fq;
use cairo_circuit_codegen::fields::fq12::Fq12;
use cairo_circuit_codegen::fields::fq2::Fq2;
use cairo_circuit_codegen::fields::{FieldConstants, FieldOps};

fn text(c: &Circuit) -> String {
    c.clone().inner()
}

#[test]
fn test_fq() {
    let in0 = Fq::new_input(0);
    let in1 = Fq::new_input(1);

    let out = in0.add(&in1).c0().format_circuit();
    let mut builder: CairoCodeBuilder = CairoCodeBuilder::new();
    builder.assign_variable("out", out);

    let code = builder.build();
    assert_eq!(code, "let out = CE::<A::<CI::<0>, CI::<1>>> {};\n");
}

#[test]
fn test_fq2() {
    let in0 = &Fq2::new_input([0, 1]);
    let in1 = &Fq2::new_input([2, 3]);

    let out = in0.mul(in1);
    let out_0 = out.c0().c0().format_circuit();
    let out_1 = out.c1().c0().format_circuit();
    let mut builder: CairoCodeBuilder = CairoCodeBuilder::new();
    builder.assign_variable("out_0", out_0);
    builder.assign_variable("out_1", out_1);

    let code = builder.build();
    assert_eq!(
        code,
        "let out_0 = CE::<S::<M::<CI::<0>, CI::<2>>, M::<CI::<1>, CI::<3>>>> {};\n\
         let out_1 = CE::<S::<M::<A::<CI::<0>, CI::<1>>, A::<CI::<2>, CI::<3>>>, A::<M::<CI::<0>, CI::<2>>, M::<CI::<1>, CI::<3>>>>> {};\n"
    );
}

#[test]
fn test_fq12() {
    let idx_0: [usize; 12] = (0..=11).collect::<Vec<usize>>().try_into().unwrap();
    let idx_1: [usize; 12] = (12..=23).collect::<Vec<usize>>().try_into().unwrap();

    let in0 = &Fq12::new_input(idx_0);
    let in1 = &Fq12::new_input(idx_1);

    let out = Fq12::mul(in0, in1);

    let mut builder: CairoCodeBuilder = CairoCodeBuilder::new();
    builder.add_circuit(out, None);

    let code = builder.build();
    assert_eq!(code.lines().count(), 12);
    for (i, line) in code.lines().enumerate() {
        assert!(line.starts_with(&format!("let c{} = CE::<", i)));
        assert!(line.ends_with("> {};"));
    }
    assert!(code.contains("CI::<23>"));
}

#[test]
fn test_fq12_sqr() {
    let idx_0: [usize; 12] = (0..=11).collect::<Vec<usize>>().try_into().unwrap();

    let in0 = &Fq12::new_input(idx_0);
    let out = Fq12::sqr(in0);

    let mut builder: CairoCodeBuilder = CairoCodeBuilder::new();
    builder.add_circuit(out, None);

    let code = builder.build();
    assert_eq!(code.lines().count(), 12);
    assert!(code.contains("CI::<11>"));
    assert!(!code.contains("CI::<12>"));
}

#[test]
fn test_affine() {
    let in0 = &Affine::<Fq2>::new_input([0, 1, 2, 3]);
    let in1 = &Affine::<Fq2>::new_input([4, 5, 6, 7]);

    let out = in0.chord(in1);
    let out_0 = out.c0().c0().format_circuit();
    let out_1 = out.c1().c0().format_circuit();
    let mut builder: CairoCodeBuilder = CairoCodeBuilder::new();
    builder.assign_variable("out_0", out_0);
    builder.assign_variable("out_1", out_1);

    let code = builder.build();
    let expected_num = Fq2::new_input([6, 7]).sub(&Fq2::new_input([2, 3]));
    let expected_den = Fq2::new_input([4, 5]).sub(&Fq2::new_input([0, 1]));
    let expected = expected_num.div(&expected_den);
    assert_eq!(
        code,
        format!(
            "let out_0 = {}\nlet out_1 = {}\n",
            text(&expected.c0().c0().format_circuit()),
            text(&expected.c1().c0().format_circuit())
        )
    );
}

#[test]
fn circuit_leaf_and_gates_render_exactly() {
    let a = Circuit::circuit_input(0);
    let b = Circuit::circuit_input(1234567);
    assert_eq!(text(&a), "CI::<0>");
    assert_eq!(text(&b), "CI::<1234567>");
    assert_eq!(text(&Circuit::circuit_add(&a, &b)), "A::<CI::<0>, CI::<1234567>>");
    assert_eq!(text(&Circuit::circuit_sub(&a, &b)), "S::<CI::<0>, CI::<1234567>>");
    assert_eq!(text(&Circuit::circuit_mul(&a, &b)), "M::<CI::<0>, CI::<1234567>>");
    assert_eq!(text(&Circuit::circuit_inv(&b)), "I::<CI::<1234567>>");
    assert_eq!(text(&a.format_circuit()), "CE::<CI::<0>> {};");
    assert_eq!(text(&Circuit::new("x".to_string())), "x");
}

#[test]
fn circuit_input_largest_position() {
    let c = Circuit::circuit_input(usize::MAX);
    assert_eq!(text(&c), format!("CI::<{}>", usize::MAX));
}

#[test]
fn fq_neg_one_zero_scale() {
    let x = Fq::new_input(5);
    assert_eq!(text(x.neg().c0()), "S::<S::<CI::<0>, CI::<0>>, CI::<5>>");
    assert_eq!(text(Fq::one().c0()), "M::<CI::<0>, I::<CI::<0>>>");
    assert_eq!(text(Fq::zero().c0()), "S::<CI::<0>, CI::<0>>");
    assert_eq!(
        text(x.scl_9().c0()),
        "A::<A::<A::<A::<CI::<5>, CI::<5>>, A::<CI::<5>, CI::<5>>>, A::<A::<CI::<5>, CI::<5>>, A::<CI::<5>, CI::<5>>>>, CI::<5>>"
    );
    assert_eq!(text(x.scl_9_no_add().c0()), "M::<CI::<5>, CI::<0>>");
    assert_eq!(text(x.div(&Fq::new_input(6)).c0()), "M::<CI::<5>, I::<CI::<6>>>");
    assert_eq!(text(x.sqr().c0()), "M::<CI::<5>, CI::<5>>");
}

#[test]
fn fq2_sqr_inv_conjugate_exact() {
    let a = Fq2::new_input([0, 1]);
    let s = a.sqr();
    assert_eq!(text(s.c0().c0()), "M::<A::<CI::<0>, CI::<1>>, S::<CI::<0>, CI::<1>>>");
    assert_eq!(text(s.c1().c0()), "M::<A::<CI::<0>, CI::<0>>, CI::<1>>");
    let i = a.inv();
    assert_eq!(
        text(i.c0().c0()),
        "M::<CI::<0>, I::<A::<M::<CI::<0>, CI::<0>>, M::<CI::<1>, CI::<1>>>>>"
    );
    let c = a.conjugate();
    assert_eq!(text(c.c0().c0()), "CI::<0>");
    assert_eq!(text(c.c1().c0()), "S::<S::<CI::<0>, CI::<0>>, CI::<1>>");
}

#[test]
fn leaves_keep_positions() {
    let a = Fq2::new_input([7, 9]);
    assert_eq!(text(a.c0().c0()), "CI::<7>");
    assert_eq!(text(a.c1().c0()), "CI::<9>");
    let p = Affine::<Fq>::new_input([3, 4]);
    assert_eq!(text(p.x().c0()), "CI::<3>");
    assert_eq!(text(p.y().c0()), "CI::<4>");
}

#[test]
fn fq2_mul_has_three_products() {
    for (a, b) in [([0, 1], [2, 3]), ([5, 9], [7, 4])] {
        let out = Fq2::new_input(a).mul(&Fq2::new_input(b));
        let c1 = text(out.c1().c0());
        let t0 = format!("M::<CI::<{}>, CI::<{}>>", a[0], b[0]);
        let t1 = format!("M::<CI::<{}>, CI::<{}>>", a[1], b[1]);
        let t2 = format!("M::<A::<CI::<{}>, CI::<{}>>, A::<CI::<{}>, CI::<{}>>>", a[0], a[1], b[0], b[1]);
        assert_eq!(c1.matches(&t0).count(), 1);
        assert_eq!(c1.matches(&t1).count(), 1);
        assert_eq!(c1.matches(&t2).count(), 1);
        assert_eq!(c1.matches("M::<").count(), 3);
        assert_eq!(text(out.c0().c0()).matches("M::<").count(), 2);
    }
}
