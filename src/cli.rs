//! The proof-verification tool's inputs: a verification key and a proof, as
//! decimal field elements, and its errors.
use vstd::prelude::*;

verus! {

/// A PLONK proof: curve points as three coordinates, and the evaluations.
pub struct PLONKProof {
    pub a: [String; 3],
    pub b: [String; 3],
    pub c: [String; 3],
    pub z: [String; 3],
    pub t1: [String; 3],
    pub t2: [String; 3],
    pub t3: [String; 3],
    pub wxi: [String; 3],
    pub wxiw: [String; 3],
    pub eval_a: String,
    pub eval_b: String,
    pub eval_c: String,
    pub eval_s1: String,
    pub eval_s2: String,
    pub eval_zw: String,
    pub protocol: String,
    pub curve: String,
}

/// A PLONK verification key.
pub struct VerificationKey {
    pub n: String,
    pub protocol: String,
    pub curve: String,
    pub n_public: String,
    pub n_lagrange: String,
    pub power: String,
    pub k1: String,
    pub k2: String,
    pub qm: [String; 3],
    pub ql: [String; 3],
    pub qr: [String; 3],
    pub qo: [String; 3],
    pub qc: [String; 3],
    pub s1: [String; 3],
    pub s2: [String; 3],
    pub s3: [String; 3],
    pub x_2: [[String; 2]; 3],
    pub w: String,
}

impl VerificationKey {
    /// Accepts only keys for the `bn128` curve and the `plonk` protocol; the
    /// curve is checked first.
    pub fn validate(&self) -> (r: Result<(), String>)
        ensures
            r is Ok <==> (self.curve@ == "bn128"@ && self.protocol@ == "plonk"@),
            r is Err ==> r->Err_0@ == (if self.curve@ != "bn128"@ {
                "Unsupported curve type"@
            } else {
                "Unsupported protocol"@
            }),
    {
        if self.curve != String::from_str("bn128") {
            return Err(String::from_str("Unsupported curve type"));
        }
        if self.protocol != String::from_str("plonk") {
            return Err(String::from_str("Unsupported protocol"));
        }
        Ok(())
    }
}

pub open spec fn first_two(p: [String; 3]) -> Seq<Seq<char>> {
    seq![p[0]@, p[1]@]
}

/// The decimal values that go on chain, each split into two limbs there:
/// the key's scalars, the first two coordinates of each of its points, its
/// `X_2` rows but the last, its root of unity, then the proof's points the
/// same way and its evaluations.
pub open spec fn calldata_spec(vk: VerificationKey, proof: PLONKProof) -> Seq<Seq<char>> {
    seq![vk.n@, vk.power@, vk.k1@, vk.k2@, vk.n_public@, vk.n_lagrange@]
        + first_two(vk.qm) + first_two(vk.qc) + first_two(vk.ql) + first_two(vk.qr)
        + first_two(vk.qo) + first_two(vk.s1) + first_two(vk.s2) + first_two(vk.s3)
        + seq![vk.x_2[0][0]@, vk.x_2[0][1]@, vk.x_2[1][0]@, vk.x_2[1][1]@]
        + seq![vk.w@]
        + first_two(proof.a) + first_two(proof.b) + first_two(proof.c) + first_two(proof.z)
        + first_two(proof.t1) + first_two(proof.t2) + first_two(proof.t3)
        + first_two(proof.wxi) + first_two(proof.wxiw)
        + seq![proof.eval_a@, proof.eval_b@, proof.eval_c@, proof.eval_s1@, proof.eval_s2@, proof.eval_zw@]
}

fn push_first_two(out: &mut Vec<String>, p: &[String; 3])
    ensures
        final(out)@.map_values(|s: String| s@) == old(out)@.map_values(|s: String| s@) + first_two(*p),
{
    let ghost before = out@;
    out.push(p[0].clone());
    out.push(p[1].clone());
    assert(final(out)@.map_values(|s: String| s@) =~= before.map_values(|s: String| s@) + first_two(*p));
}

/// The values of `vk` and `proof` that the verifier contract takes, in its
/// order; see [`calldata_spec`].
pub fn calldata_fields(vk: &VerificationKey, proof: &PLONKProof) -> (r: Vec<String>)
    ensures
        r@.map_values(|s: String| s@) == calldata_spec(*vk, *proof),
{
    let mut out: Vec<String> = Vec::new();
    out.push(vk.n.clone());
    out.push(vk.power.clone());
    out.push(vk.k1.clone());
    out.push(vk.k2.clone());
    out.push(vk.n_public.clone());
    out.push(vk.n_lagrange.clone());
    assert(out@.map_values(|s: String| s@) =~= seq![vk.n@, vk.power@, vk.k1@, vk.k2@, vk.n_public@, vk.n_lagrange@]);
    push_first_two(&mut out, &vk.qm);
    push_first_two(&mut out, &vk.qc);
    push_first_two(&mut out, &vk.ql);
    push_first_two(&mut out, &vk.qr);
    push_first_two(&mut out, &vk.qo);
    push_first_two(&mut out, &vk.s1);
    push_first_two(&mut out, &vk.s2);
    push_first_two(&mut out, &vk.s3);
    let ghost mid = out@.map_values(|s: String| s@);
    out.push(vk.x_2[0][0].clone());
    out.push(vk.x_2[0][1].clone());
    out.push(vk.x_2[1][0].clone());
    out.push(vk.x_2[1][1].clone());
    out.push(vk.w.clone());
    assert(out@.map_values(|s: String| s@) =~= mid + seq![vk.x_2[0][0]@, vk.x_2[0][1]@, vk.x_2[1][0]@, vk.x_2[1][1]@] + seq![vk.w@]);
    push_first_two(&mut out, &proof.a);
    push_first_two(&mut out, &proof.b);
    push_first_two(&mut out, &proof.c);
    push_first_two(&mut out, &proof.z);
    push_first_two(&mut out, &proof.t1);
    push_first_two(&mut out, &proof.t2);
    push_first_two(&mut out, &proof.t3);
    push_first_two(&mut out, &proof.wxi);
    push_first_two(&mut out, &proof.wxiw);
    let ghost mid2 = out@.map_values(|s: String| s@);
    out.push(proof.eval_a.clone());
    out.push(proof.eval_b.clone());
    out.push(proof.eval_c.clone());
    out.push(proof.eval_s1.clone());
    out.push(proof.eval_s2.clone());
    out.push(proof.eval_zw.clone());
    assert(out@.map_values(|s: String| s@) =~= mid2 + seq![proof.eval_a@, proof.eval_b@, proof.eval_c@, proof.eval_s1@, proof.eval_s2@, proof.eval_zw@]);
    assert(out@.map_values(|s: String| s@) =~= calldata_spec(*vk, *proof));
    out
}

/// The tool's errors: reading, parsing, verifying, and bad input.
pub enum CliError {
    IoError(String),
    ParseError(String),
    VerificationError(String),
    InvalidInput(String),
}

impl CliError {
    /// The text shown for the error: its kind, then its detail.
    pub fn message(&self) -> (r: String)
        ensures
            r@ == match self {
                CliError::IoError(m) => "IO Error: "@ + m@,
                CliError::ParseError(m) => "Parse Error: "@ + m@,
                CliError::VerificationError(m) => "Verification Error: "@ + m@,
                CliError::InvalidInput(m) => "Invalid Input: "@ + m@,
            },
    {
        match self {
            CliError::IoError(m) => String::from_str("IO Error: ").concat(m.as_str()),
            CliError::ParseError(m) => String::from_str("Parse Error: ").concat(m.as_str()),
            CliError::VerificationError(m) => String::from_str("Verification Error: ").concat(m.as_str()),
            CliError::InvalidInput(m) => String::from_str("Invalid Input: ").concat(m.as_str()),
        }
    }
}

} // verus!
