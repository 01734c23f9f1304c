//! Expression nodes: one symbolic expression tree and its text in the circuit DSL.
use vstd::prelude::*;

verus! {

/// The expression tree that a [`Circuit`] stands for.
///
/// `Raw` is text handed in by a caller, carried through unchanged.
pub enum Expr {
    Input(nat),
    Raw(Seq<char>),
    Add(Box<Expr>, Box<Expr>),
    Sub(Box<Expr>, Box<Expr>),
    Mul(Box<Expr>, Box<Expr>),
    Inv(Box<Expr>),
    Element(Box<Expr>),
}

pub open spec fn e_add(a: Expr, b: Expr) -> Expr {
    Expr::Add(Box::new(a), Box::new(b))
}

pub open spec fn e_sub(a: Expr, b: Expr) -> Expr {
    Expr::Sub(Box::new(a), Box::new(b))
}

pub open spec fn e_mul(a: Expr, b: Expr) -> Expr {
    Expr::Mul(Box::new(a), Box::new(b))
}

pub open spec fn e_inv(a: Expr) -> Expr {
    Expr::Inv(Box::new(a))
}

pub open spec fn e_input(i: nat) -> Expr {
    Expr::Input(i)
}

pub open spec fn digit_char(d: nat) -> char {
    if d == 0 {
        '0'
    } else if d == 1 {
        '1'
    } else if d == 2 {
        '2'
    } else if d == 3 {
        '3'
    } else if d == 4 {
        '4'
    } else if d == 5 {
        '5'
    } else if d == 6 {
        '6'
    } else if d == 7 {
        '7'
    } else if d == 8 {
        '8'
    } else {
        '9'
    }
}

/// The decimal digits of `n`, most significant first, without leading zeros.
pub open spec fn decimal(n: nat) -> Seq<char>
    decreases n,
{
    if n < 10 {
        seq![digit_char(n)]
    } else {
        decimal(n / 10).push(digit_char(n % 10))
    }
}

/// `G::<l, r>` for the operation alias `G`.
pub open spec fn binary_text(g: char, l: Seq<char>, r: Seq<char>) -> Seq<char> {
    seq![g, ':', ':', '<'] + l + seq![',', ' '] + r + seq!['>']
}

/// The text of a expression tree in the target DSL.
pub open spec fn render(e: Expr) -> Seq<char>
    decreases e,
{
    match e {
        Expr::Input(i) => seq!['C', 'I', ':', ':', '<'] + decimal(i) + seq!['>'],
        Expr::Raw(s) => s,
        Expr::Add(a, b) => binary_text('A', render(*a), render(*b)),
        Expr::Sub(a, b) => binary_text('S', render(*a), render(*b)),
        Expr::Mul(a, b) => binary_text('M', render(*a), render(*b)),
        Expr::Inv(a) => seq!['I', ':', ':', '<'] + render(*a) + seq!['>'],
        Expr::Element(a) => seq!['C', 'E', ':', ':', '<'] + render(*a) + seq![
            '>',
            ' ',
            '{',
            '}',
            ';',
        ],
    }
}

fn digit_str(d: usize) -> (s: &'static str)
    requires
        d < 10,
    ensures
        s@ == seq![digit_char(d as nat)],
{
    if d == 0 {
        proof { reveal_strlit("0"); }
        "0"
    } else if d == 1 {
        proof { reveal_strlit("1"); }
        "1"
    } else if d == 2 {
        proof { reveal_strlit("2"); }
        "2"
    } else if d == 3 {
        proof { reveal_strlit("3"); }
        "3"
    } else if d == 4 {
        proof { reveal_strlit("4"); }
        "4"
    } else if d == 5 {
        proof { reveal_strlit("5"); }
        "5"
    } else if d == 6 {
        proof { reveal_strlit("6"); }
        "6"
    } else if d == 7 {
        proof { reveal_strlit("7"); }
        "7"
    } else if d == 8 {
        proof { reveal_strlit("8"); }
        "8"
    } else {
        proof { reveal_strlit("9"); }
        "9"
    }
}

/// Appends the decimal digits of `n` to `out`.
fn push_decimal(out: &mut String, n: usize)
    ensures
        final(out)@ == old(out)@ + decimal(n as nat),
    decreases n,
{
    if n >= 10 {
        push_decimal(out, n / 10);
    }
    out.append(digit_str(n % 10));
    assert(final(out)@ == old(out)@ + decimal(n as nat));
}

/// One expression node: its DSL text, and the expression tree that text renders.
pub struct Circuit {
    inner: String,
    tree: Ghost<Expr>,
}

impl View for Circuit {
    type V = Expr;

    closed spec fn view(&self) -> Expr {
        self.tree@
    }
}

impl Circuit {
    #[verifier::type_invariant]
    spec fn text_matches(&self) -> bool {
        self.inner@ == render(self.tree@)
    }

    /// A node that stands for the given text, unchanged.
    pub fn new(inner: String) -> (r: Circuit)
        ensures
            r@ == Expr::Raw(inner@),
    {
        Circuit { inner, tree: Ghost(Expr::Raw(inner@)) }
    }

    /// Wraps the node in the circuit element constructor: `CE::<x> {};`.
    pub fn format_circuit(&self) -> (r: Circuit)
        ensures
            r@ == Expr::Element(Box::new(self@)),
    {
        proof {
            use_type_invariant(self);
            reveal_strlit("CE::<");
            reveal_strlit("> {};");
        }
        let mut s = String::from_str("CE::<");
        s.append(self.inner.as_str());
        s.append("> {};");
        let ghost e = Expr::Element(Box::new(self@));
        assert(s@ == render(e));
        Circuit { inner: s, tree: Ghost(e) }
    }

    /// The leaf that reads the circuit input at `idx`: `CI::<idx>`.
    pub fn circuit_input(idx: usize) -> (r: Circuit)
        ensures
            r@ == Expr::Input(idx as nat),
    {
        proof {
            reveal_strlit("CI::<");
            reveal_strlit(">");
        }
        let mut s = String::from_str("CI::<");
        push_decimal(&mut s, idx);
        s.append(">");
        let ghost e = Expr::Input(idx as nat);
        assert(s@ == render(e));
        Circuit { inner: s, tree: Ghost(e) }
    }

    fn binary(g: &str, lhs: &Circuit, rhs: &Circuit, ghost_e: Ghost<Expr>) -> (r: Circuit)
        requires
            g@.len() == 1,
            render(ghost_e@) == binary_text(g@[0], render(lhs@), render(rhs@)),
        ensures
            r@ == ghost_e@,
    {
        proof {
            use_type_invariant(lhs);
            use_type_invariant(rhs);
            reveal_strlit("::<");
            reveal_strlit(", ");
            reveal_strlit(">");
        }
        let mut s = String::from_str(g);
        s.append("::<");
        s.append(lhs.inner.as_str());
        s.append(", ");
        s.append(rhs.inner.as_str());
        s.append(">");
        assert(s@ =~= render(ghost_e@));
        Circuit { inner: s, tree: ghost_e }
    }

    /// The addition gate: `A::<lhs, rhs>`.
    pub fn circuit_add(lhs: &Circuit, rhs: &Circuit) -> (r: Circuit)
        ensures
            r@ == e_add(lhs@, rhs@),
    {
        proof {
            use_type_invariant(lhs);
            use_type_invariant(rhs);
            reveal_strlit("A");
        }
        Self::binary("A", lhs, rhs, Ghost(e_add(lhs@, rhs@)))
    }

    /// The subtraction gate: `S::<lhs, rhs>`.
    pub fn circuit_sub(lhs: &Circuit, rhs: &Circuit) -> (r: Circuit)
        ensures
            r@ == e_sub(lhs@, rhs@),
    {
        proof {
            use_type_invariant(lhs);
            use_type_invariant(rhs);
            reveal_strlit("S");
        }
        Self::binary("S", lhs, rhs, Ghost(e_sub(lhs@, rhs@)))
    }

    /// The multiplication gate: `M::<lhs, rhs>`.
    pub fn circuit_mul(lhs: &Circuit, rhs: &Circuit) -> (r: Circuit)
        ensures
            r@ == e_mul(lhs@, rhs@),
    {
        proof {
            use_type_invariant(lhs);
            use_type_invariant(rhs);
            reveal_strlit("M");
        }
        Self::binary("M", lhs, rhs, Ghost(e_mul(lhs@, rhs@)))
    }

    /// The inverse gate: `I::<lhs>`.
    pub fn circuit_inv(lhs: &Circuit) -> (r: Circuit)
        ensures
            r@ == e_inv(lhs@),
    {
        proof {
            use_type_invariant(lhs);
            reveal_strlit("I::<");
            reveal_strlit(">");
        }
        let mut s = String::from_str("I::<");
        s.append(lhs.inner.as_str());
        s.append(">");
        let ghost e = e_inv(lhs@);
        assert(s@ == render(e));
        Circuit { inner: s, tree: Ghost(e) }
    }

    /// The node's text.
    pub fn inner(self) -> (r: String)
        ensures
            r@ == render(self@),
    {
        proof {
            use_type_invariant(&self);
        }
        self.inner
    }
}

impl Clone for Circuit {
    fn clone(&self) -> (r: Self)
        ensures
            r@ == self@,
    {
        proof {
            use_type_invariant(self);
        }
        Circuit { inner: self.inner.clone(), tree: Ghost(self.tree@) }
    }
}

} // verus!
