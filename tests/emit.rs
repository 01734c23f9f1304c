use cairo_circuit_codegen::circuit::Circuit;
use cairo_circuit_codegen::cli::{calldata_fields, CliError, PLONKProof, VerificationKey};
use cairo_circuit_codegen::emit::builder::{get_imports, CairoCodeBuilder};
use cairo_circuit_codegen::fields::fq2::Fq2;
use cairo_circuit_codegen::generate::{
    generate_affine_fq2_ops, generate_cairo_code, generate_compute_D_partial, generate_compute_R0,
    generate_fq12_field_ops, generate_fq2_field_ops, generate_fq6_field_ops, generate_krbn_decompress,
    generate_krbn_non_zero_decompress, generate_krbn_sqr, generate_line_fn_step_dbl_add,
    generate_sparse_mul_01, generate_sparse_mul_034_by_034, generate_step_dbl_add_slopes,
};

const IMPORTS: &str = "use core::circuit::{\n\tAddModGate as A,\n\tSubModGate as S,\n\tMulModGate as M,\n\tInverseGate as I,\n\tCircuitInput as CI,\n\tCircuitElement as CE,\n};\n";

#[test]
fn test_generate_cairo_code() {
    let code = generate_cairo_code();
    assert!(code.starts_with(IMPORTS));
    let rest: Vec<&str> = code[IMPORTS.len()..].lines().collect();
    assert_eq!(rest.len(), 2);
    assert!(rest[0].starts_with("let slope_x = CE::<S::<M::<S::<CI::<6>, CI::<2>>"));
    assert!(rest[1].starts_with("let slope_y = CE::<S::<M::<A::<S::<CI::<6>, CI::<2>>, S::<CI::<7>, CI::<3>>>, A::<M::<"));
    assert!(rest[1].ends_with("> {};"));
}

#[test]
fn imports_preamble_exact() {
    assert_eq!(get_imports(), IMPORTS);
    let mut b = CairoCodeBuilder::new();
    b.add_line("x");
    b.add_imports();
    assert_eq!(b.build(), format!("{}x\n", IMPORTS));
}

#[test]
fn builder_keeps_emission_order() {
    let mut b = CairoCodeBuilder::new();
    b.assign_variable("z", Circuit::circuit_input(2));
    b.assign_variable("a", Circuit::circuit_input(1));
    assert_eq!(b.as_str(), "let z = CI::<2>\nlet a = CI::<1>\n");
}

#[test]
fn adder_uses_given_names_only_when_enough() {
    let x = Fq2::new_input([0, 1]);
    let mut b = CairoCodeBuilder::new();
    b.add_circuit(x, Some(vec!["only_one"]));
    assert_eq!(b.build(), "let c0 = CE::<CI::<0>> {};\nlet c1 = CE::<CI::<1>> {};\n");
    let y = Fq2::new_input([0, 1]);
    let mut b = CairoCodeBuilder::new();
    b.add_circuit(y, Some(vec!["u", "v"]));
    assert_eq!(b.build(), "let u = CE::<CI::<0>> {};\nlet v = CE::<CI::<1>> {};\n");
}

#[test]
fn generated_sections_in_order() {
    let code = generate_fq2_field_ops();
    let heads: Vec<&str> = code.lines().filter(|l| l.starts_with("//")).collect();
    assert_eq!(
        heads,
        vec!["// Fq2 Add", "// Fq2 Sub", "// Fq2 Mul", "// Fq2 Sqr", "// Fq2 Div", "// Fq2 Inv", "// Fq2 Neg"]
    );
    assert_eq!(code.lines().count(), 7 * 3);
    assert!(code.starts_with("// Fq2 Add\nlet c0 = CE::<A::<CI::<0>, CI::<2>>> {};\nlet c1 = CE::<A::<CI::<1>, CI::<3>>> {};\n"));
    assert_eq!(generate_fq6_field_ops().lines().count(), 7 * 7);
    assert_eq!(generate_fq12_field_ops().lines().count(), 3 * 13);
    assert_eq!(generate_affine_fq2_ops().lines().count(), 1 + 4 * 3 + 3 * 5);
}

#[test]
fn generated_named_outputs() {
    let code = generate_line_fn_step_dbl_add();
    assert!(code.contains("let Lf1SlopeC0 = "));
    assert!(code.contains("let Lf2C1 = "));
    assert!(code.contains("// acc \nlet x0 = "));
    let code = generate_krbn_sqr();
    assert_eq!(code.lines().count(), 9);
    assert!(code.contains("let g5_c1 = "));
    let code = generate_krbn_decompress();
    assert!(code.contains("let KbrnDecompZeroG0C0 = "));
    assert!(!code.contains("CI::<6>"));
    let code = generate_krbn_non_zero_decompress();
    assert!(code.contains("let KbrnDecompNonZeroG1C1 = "));
    assert!(code.contains("CI::<7>"));
    let code = generate_sparse_mul_034_by_034();
    assert!(code.contains("let M034034_zC0B0C0 = "));
    assert!(code.contains("let M034034_X04C1 = CE::<A::<CI::<3>, CI::<7>>> {};"));
    assert!(code.contains("let M034034_X03C0 = CE::<A::<CI::<0>, CI::<4>>> {};"));
    let code = generate_sparse_mul_01();
    assert!(code.contains("let M01_C2C1 = "));
    let code = generate_step_dbl_add_slopes();
    assert!(code.contains("let Slope2_C0 = "));
    assert!(code.contains("let X1_C1 = "));
}

#[test]
fn generated_plonk_partials() {
    let code = generate_compute_R0();
    assert_eq!(
        code,
        "// compute R0\n// r0\nlet R0_C0 = CE::<S::<S::<CI::<0>, M::<CI::<1>, M::<CI::<2>, CI::<2>>>>, \
         M::<M::<M::<M::<A::<A::<CI::<3>, M::<CI::<4>, CI::<5>>>, CI::<6>>, A::<A::<CI::<7>, M::<CI::<4>, CI::<8>>>, CI::<6>>>, \
         A::<CI::<9>, CI::<6>>>, CI::<10>>, CI::<2>>>> {};\n"
    );
    let code = generate_compute_D_partial();
    assert!(code.starts_with("// d_partial\n// D2AB\nlet D2AB = CE::<A::<A::<M::<"));
    assert!(code.contains("// D3AB\nlet D3AB = CE::<M::<M::<A::<A::<CI::<2>, M::<CI::<0>, CI::<11>>>, CI::<3>>"));
}

fn key(curve: &str, protocol: &str) -> VerificationKey {
    let s = |x: &str| x.to_string();
    let p3 = || [s("1"), s("2"), s("1")];
    VerificationKey {
        n: s("4096"),
        protocol: s(protocol),
        curve: s(curve),
        n_public: s("1"),
        n_lagrange: s("5"),
        power: s("12"),
        k1: s("2"),
        k2: s("3"),
        qm: p3(),
        ql: p3(),
        qr: p3(),
        qo: p3(),
        qc: p3(),
        s1: p3(),
        s2: p3(),
        s3: p3(),
        x_2: [[s("1"), s("2")], [s("3"), s("4")], [s("1"), s("0")]],
        w: s("5"),
    }
}

#[test]
fn validate_accepts_bn128_plonk() {
    assert_eq!(key("bn128", "plonk").validate(), Ok(()));
}

#[test]
fn validate_rejects_curve_first() {
    assert_eq!(key("bls12381", "groth16").validate(), Err("Unsupported curve type".to_string()));
    assert_eq!(key("bn128", "groth16").validate(), Err("Unsupported protocol".to_string()));
}

#[test]
fn cli_error_messages() {
    assert_eq!(CliError::IoError("a".to_string()).message(), "IO Error: a");
    assert_eq!(CliError::ParseError("b".to_string()).message(), "Parse Error: b");
    assert_eq!(CliError::VerificationError("c".to_string()).message(), "Verification Error: c");
    assert_eq!(CliError::InvalidInput("d".to_string()).message(), "Invalid Input: d");
}

#[test]
fn calldata_order() {
    let s = |x: &str| x.to_string();
    let pt = |a: &str| [s(a), s(&format!("{}y", a)), s("1")];
    let proof = PLONKProof {
        a: pt("a"),
        b: pt("b"),
        c: pt("c"),
        z: pt("z"),
        t1: pt("t1"),
        t2: pt("t2"),
        t3: pt("t3"),
        wxi: pt("wxi"),
        wxiw: pt("wxiw"),
        eval_a: s("ea"),
        eval_b: s("eb"),
        eval_c: s("ec"),
        eval_s1: s("es1"),
        eval_s2: s("es2"),
        eval_zw: s("ezw"),
        protocol: s("plonk"),
        curve: s("bn128"),
    };
    let vk = key("bn128", "plonk");
    let fields = calldata_fields(&vk, &proof);
    assert_eq!(fields.len(), 6 + 16 + 4 + 1 + 18 + 6);
    assert_eq!(&fields[0..6], &["4096", "12", "2", "3", "1", "5"]);
    assert_eq!(&fields[22..27], &["1", "2", "3", "4", "5"]);
    assert_eq!(&fields[27..29], &["a", "ay"]);
    assert_eq!(&fields[45..], &["ea", "eb", "ec", "es1", "es2", "ezw"]);
}
