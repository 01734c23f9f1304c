use cairo_circuit_codegen::circuit::Circuit;
use cairo_circuit_codegen::fields::affine::{Affine, ECOperations};
use cairo_circuit_codegen::fields::fq::Fq;
use cairo_circuit_codegen::pairing::line::LineFn;
use cairo_circuit_codegen::fields::fq12::Fq12;
use cairo_circuit_codegen::fields::fq12_squaring::Krbn2345;
use cairo_circuit_codegen::fields::fq2::Fq2;
use cairo_circuit_codegen::fields::fq6::Fq6;
use cairo_circuit_codegen::fields::sparse::Fq12Sparse034;
use cairo_circuit_codegen::fields::{FieldConstants, FieldOps};
use num_bigint::BigUint;

fn prime() -> BigUint {
    BigUint::parse_bytes(
        b"21888242871839275222246405745257275088696311157297823662689037894645226208583",
        10,
    )
    .unwrap()
}

/// Evaluates emitted gate text with input `i` holding `w[i]`.
struct Eval<'a> {
    s: &'a [u8],
    pos: usize,
    w: &'a [BigUint],
    p: BigUint,
}

impl<'a> Eval<'a> {
    fn eat(&mut self, t: &str) {
        assert!(self.s[self.pos..].starts_with(t.as_bytes()), "expected {} at {}", t, self.pos);
        self.pos += t.len();
    }

    fn sep(&mut self) {
        self.eat(",");
        if self.s[self.pos] == b' ' {
            self.pos += 1;
        }
    }

    fn expr(&mut self) -> BigUint {
        let p = self.p.clone();
        if self.s[self.pos..].starts_with(b"CE::<") {
            self.eat("CE::<");
            let v = self.expr();
            self.eat("> {};");
            return v;
        }
        if self.s[self.pos..].starts_with(b"CI::<") {
            self.eat("CI::<");
            let start = self.pos;
            while self.s[self.pos].is_ascii_digit() {
                self.pos += 1;
            }
            let i: usize = std::str::from_utf8(&self.s[start..self.pos]).unwrap().parse().unwrap();
            self.eat(">");
            return &self.w[i] % &p;
        }
        if self.s[self.pos..].starts_with(b"I::<") {
            self.eat("I::<");
            let v = self.expr();
            self.eat(">");
            return v.modpow(&(&p - 2u32), &p);
        }
        let g = self.s[self.pos];
        self.pos += 1;
        self.eat("::<");
        let a = self.expr();
        self.sep();
        let b = self.expr();
        self.eat(">");
        match g {
            b'A' => (a + b) % &p,
            b'S' => (a + &p - b) % &p,
            b'M' => (a * b) % &p,
            _ => panic!("unknown gate"),
        }
    }
}

fn eval_text(t: &str, w: &[BigUint]) -> BigUint {
    let mut e = Eval { s: t.as_bytes(), pos: 0, w, p: prime() };
    let v = e.expr();
    assert_eq!(e.pos, t.len());
    v
}

fn eval(c: &Circuit, w: &[BigUint]) -> BigUint {
    eval_text(&c.clone().inner(), w)
}

fn eval2(x: &Fq2, w: &[BigUint]) -> (BigUint, BigUint) {
    (eval(x.c0().c0(), w), eval(x.c1().c0(), w))
}

fn eval6(x: &Fq6, w: &[BigUint]) -> Vec<BigUint> {
    let mut v = Vec::new();
    for c in [x.c0(), x.c1(), x.c2()] {
        let (a, b) = eval2(c, w);
        v.push(a);
        v.push(b);
    }
    v
}

fn sample(n: usize, seed: u64) -> Vec<BigUint> {
    let p = prime();
    let mut x = BigUint::from(seed);
    (0..n)
        .map(|_| {
            x = (&x * &x * 7u32 + 12345u32) % &p;
            x.clone()
        })
        .collect()
}

#[test]
fn add_neg_evaluates_to_zero() {
    for seed in [3u64, 11, 97] {
        let w = sample(4, seed);
        let a = Fq2::new_input([1, 3]);
        let z = a.add(&a.neg());
        assert_eq!(eval2(&z, &w), (BigUint::from(0u32), BigUint::from(0u32)));
        let b = Fq::new_input(2);
        assert_eq!(eval(b.add(&b.neg()).c0(), &w), BigUint::from(0u32));
    }
}

#[test]
fn fq2_mul_matches_schoolbook() {
    let w = sample(4, 5);
    let p = prime();
    let r = Fq2::new_input([0, 1]).mul(&Fq2::new_input([2, 3]));
    let (a0, a1, b0, b1) = (&w[0], &w[1], &w[2], &w[3]);
    let c0 = (a0 * b0 + &p * &p - a1 * b1) % &p;
    let c1 = (a0 * b1 + a1 * b0) % &p;
    assert_eq!(eval2(&r, &w), (c0, c1));
}

#[test]
fn mul_by_xi_is_nine_plus_u() {
    let w = sample(2, 8);
    let p = prime();
    let r = Fq2::new_input([0, 1]).mul_by_xi();
    let c0 = (&w[0] * 9u32 + &p - &w[1]) % &p;
    let c1 = (&w[1] * 9u32 + &w[0]) % &p;
    assert_eq!(eval2(&r, &w), (c0, c1));
}

type P2 = (BigUint, BigUint);

fn p2_add(a: &P2, b: &P2) -> P2 {
    let p = prime();
    ((&a.0 + &b.0) % &p, (&a.1 + &b.1) % &p)
}

fn p2_mul(a: &P2, b: &P2) -> P2 {
    let p = prime();
    ((&a.0 * &b.0 + &p * &p - &a.1 * &b.1) % &p, (&a.0 * &b.1 + &a.1 * &b.0) % &p)
}

fn p2_xi(a: &P2) -> P2 {
    let p = prime();
    ((&a.0 * 9u32 + &p - &a.1) % &p, (&a.1 * 9u32 + &a.0) % &p)
}

/// Schoolbook product in the sextic extension, with `v^3 = 9 + u`.
fn p6_mul(a: &[P2; 3], b: &[P2; 3]) -> [P2; 3] {
    let c0 = p2_add(&p2_mul(&a[0], &b[0]), &p2_xi(&p2_add(&p2_mul(&a[1], &b[2]), &p2_mul(&a[2], &b[1]))));
    let c1 = p2_add(&p2_add(&p2_mul(&a[0], &b[1]), &p2_mul(&a[1], &b[0])), &p2_xi(&p2_mul(&a[2], &b[2])));
    let c2 = p2_add(&p2_add(&p2_mul(&a[0], &b[2]), &p2_mul(&a[1], &b[1])), &p2_mul(&a[2], &b[0]));
    [c0, c1, c2]
}

fn to_p6(v: Vec<BigUint>) -> [P2; 3] {
    [(v[0].clone(), v[1].clone()), (v[2].clone(), v[3].clone()), (v[4].clone(), v[5].clone())]
}

#[test]
fn inverses_multiply_to_one() {
    let w = sample(6, 21);
    let one = BigUint::from(1u32);
    let zero = BigUint::from(0u32);
    let a = Fq2::new_input([0, 1]);
    assert_eq!(eval2(&a.mul(&a.inv()), &w), (one.clone(), zero.clone()));
    let b = Fq6::new_input([0, 1, 2, 3, 4, 5]);
    let prod = p6_mul(&to_p6(eval6(&b, &w)), &to_p6(eval6(&b.inv(), &w)));
    assert_eq!(prod, [(one, zero.clone()), (zero.clone(), zero.clone()), (zero.clone(), zero)]);
}

#[test]
fn fq6_mul_matches_schoolbook() {
    let w = sample(12, 29);
    let a = Fq6::new_input([0, 1, 2, 3, 4, 5]);
    let b = Fq6::new_input([6, 7, 8, 9, 10, 11]);
    let expected = p6_mul(&to_p6(eval6(&a, &w)), &to_p6(eval6(&b, &w)));
    assert_eq!(to_p6(eval6(&a.mul(&b), &w)), expected);
}

#[test]
fn fq6_sqr_matches_mul() {
    let w = sample(6, 33);
    let b = Fq6::new_input([0, 1, 2, 3, 4, 5]);
    assert_eq!(eval6(&b.sqr(), &w), eval6(&b.mul(&b), &w));
}

#[test]
fn fq12_sqr_matches_mul() {
    let idx: [usize; 12] = (0..12).collect::<Vec<usize>>().try_into().unwrap();
    let w = sample(12, 41);
    let a = Fq12::new_input(idx);
    let s = a.sqr();
    let m = a.mul(&a);
    assert_eq!(eval6(s.c0(), &w), eval6(m.c0(), &w));
    assert_eq!(eval6(s.c1(), &w), eval6(m.c1(), &w));
}

fn dense_line(l: &Fq12Sparse034) -> Fq12 {
    let one = Fq2::new(Fq::one(), Fq::zero(), None);
    let zero = || Fq2::new(Fq::zero(), Fq::zero(), None);
    Fq12::new(
        Fq6::new(one, zero(), zero(), None),
        Fq6::new(l.c3().duplicate(), l.c4().duplicate(), zero(), None),
        None,
    )
}

#[test]
fn sparse_line_product_matches_dense() {
    for seed in [2u64, 19] {
        let w = sample(9, seed);
        let c = Fq12Sparse034::new(Fq2::new_input([1, 2]), Fq2::new_input([3, 4]));
        let d = Fq12Sparse034::new(Fq2::new_input([5, 6]), Fq2::new_input([7, 8]));
        let sparse = c.mul_034_by_034(&d);
        let dense = dense_line(&c).mul(&dense_line(&d));
        assert_eq!(eval6(sparse.c0(), &w), eval6(dense.c0(), &w));
        let mut hi = Vec::new();
        for x in [sparse.c1().c0(), sparse.c1().c1()] {
            let (a, b) = eval2(x, &w);
            hi.push(a);
            hi.push(b);
        }
        hi.push(BigUint::from(0u32));
        hi.push(BigUint::from(0u32));
        assert_eq!(hi, eval6(dense.c1(), &w));
    }
}

#[test]
fn sparse_line_square_matches_dense() {
    let w = sample(5, 77);
    let c = Fq12Sparse034::new(Fq2::new_input([1, 2]), Fq2::new_input([3, 4]));
    let sparse = c.sqr_034();
    let dense = dense_line(&c).sqr();
    assert_eq!(eval6(sparse.c0(), &w), eval6(dense.c0(), &w));
}

#[test]
fn mul_034_matches_dense_product() {
    let idx: [usize; 12] = (9..21).collect::<Vec<usize>>().try_into().unwrap();
    let w = sample(21, 13);
    let f = Fq12::new_input(idx);
    let l = Fq12Sparse034::new(Fq2::new_input([1, 2]), Fq2::new_input([3, 4]));
    let sparse = f.mul_034(&l);
    let dense = f.mul(&dense_line(&l));
    assert_eq!(eval6(sparse.c0(), &w), eval6(dense.c0(), &w));
    assert_eq!(eval6(sparse.c1(), &w), eval6(dense.c1(), &w));
}

fn neg_mod(x: u32) -> BigUint {
    prime() - BigUint::from(x)
}

#[test]
fn decompress_vanishing_branch_values() {
    // slots hold g3 = 1, g4 = 1, g5 = 0; then g1 = 0 and g0 = ξ (2 g1^2 - 3 g3 g4) = ξ (-3)
    let mut w = vec![BigUint::from(0u32); 8];
    w[0] = BigUint::from(1u32);
    w[2] = BigUint::from(1u32);
    let k = Krbn2345::new_input([0, 1, 2, 3, 4, 5, 6, 7]);
    let (g0, g1) = k.krbn_decompress_if_zero();
    assert_eq!(eval2(&g1, &w), (BigUint::from(0u32), BigUint::from(0u32)));
    assert_eq!(eval2(&g0, &w), (neg_mod(27), neg_mod(3)));
}

fn p6_add(a: &[P2; 3], b: &[P2; 3]) -> [P2; 3] {
    [p2_add(&a[0], &b[0]), p2_add(&a[1], &b[1]), p2_add(&a[2], &b[2])]
}

fn p6_shift(a: &[P2; 3]) -> [P2; 3] {
    [p2_xi(&a[2]), a[0].clone(), a[1].clone()]
}

type P12 = ([P2; 3], [P2; 3]);

/// Schoolbook product in the duodecimal extension, with `w^2 = v`.
fn p12_mul(a: &P12, b: &P12) -> P12 {
    let c0 = p6_add(&p6_mul(&a.0, &b.0), &p6_shift(&p6_mul(&a.1, &b.1)));
    let c1 = p6_add(&p6_mul(&a.0, &b.1), &p6_mul(&a.1, &b.0));
    (c0, c1)
}

fn p12_pow(a: &P12, e: &BigUint) -> P12 {
    let z = || (BigUint::from(0u32), BigUint::from(0u32));
    let mut r: P12 = ([(BigUint::from(1u32), BigUint::from(0u32)), z(), z()], [z(), z(), z()]);
    for i in (0..e.bits()).rev() {
        r = p12_mul(&r, &r);
        if e.bit(i) {
            r = p12_mul(&r, a);
        }
    }
    r
}

#[test]
fn compressed_square_then_decompress_matches_dense_square() {
    let p = prime();
    let v = sample(12, 1234);
    let pair = |i: usize| (v[i].clone(), v[i + 1].clone());
    let f: P12 = ([pair(0), pair(2), pair(4)], [pair(6), pair(8), pair(10)]);
    // into the cyclotomic subgroup: f^((p^6 - 1)(p^2 + 1))
    let p6 = p.pow(6u32);
    let e = (&p6 - 1u32) * (&p * &p + 1u32);
    let g = p12_pow(&f, &e);
    // layout: g = (g0, g4, g3) + (g2, g1, g5) w
    let (g2, g3, g4, g5) = (&g.1[0], &g.0[2], &g.0[1], &g.1[2]);
    let sq = p12_mul(&g, &g);
    let (h0, h1) = (&sq.0[0], &sq.1[1]);
    let (h2, h3, h4, h5) = (&sq.1[0], &sq.0[2], &sq.0[1], &sq.1[2]);

    let w: Vec<BigUint> = [g2, g3, g4, g5].iter().flat_map(|x| [x.0.clone(), x.1.clone()]).collect();
    let k = Krbn2345::new_input([0, 1, 2, 3, 4, 5, 6, 7]).sqr_krbn();
    assert_eq!(eval2(k.g2(), &w), h2.clone());
    assert_eq!(eval2(k.g3(), &w), h3.clone());
    assert_eq!(eval2(k.g4(), &w), h4.clone());
    assert_eq!(eval2(k.g5(), &w), h5.clone());

    let wh: Vec<BigUint> = [h2, h3, h4, h5].iter().flat_map(|x| [x.0.clone(), x.1.clone()]).collect();
    let (d0, d1) = Krbn2345::new_input([0, 1, 2, 3, 4, 5, 6, 7]).krbn_decompress_else();
    assert_eq!(eval2(&d1, &wh), h1.clone());
    let d0v = eval2(&d0, &wh);
    assert_eq!(((d0v.0 + 1u32) % &p, d0v.1), h0.clone());
}

#[test]
fn fused_step_reaches_the_same_point() {
    // T is any point; it lies on y^2 = x^3 + b for b = y^2 - x^3, and so does 3T.
    let v = sample(4, 555);
    let t = Affine::<Fq2>::new_input([0, 1, 2, 3]);
    let three_t = t.double().add(&t);
    let (qx, qy) = (eval2(three_t.x(), &v), eval2(three_t.y(), &v));
    let mut w = v.clone();
    w.extend([qx.0, qx.1, qy.0, qy.1]);

    let q = Affine::<Fq2>::new_input([4, 5, 6, 7]);
    let mut fused = Affine::<Fq2>::new_input([0, 1, 2, 3]);
    LineFn::step_dbl_add(&mut fused, &q);
    let mut unfused = Affine::<Fq2>::new_input([0, 1, 2, 3]);
    LineFn::step_double(&mut unfused);
    LineFn::step_add(&mut unfused, &q);
    assert_eq!(eval2(fused.x(), &w), eval2(unfused.x(), &w));
    assert_eq!(eval2(fused.y(), &w), eval2(unfused.y(), &w));
}
