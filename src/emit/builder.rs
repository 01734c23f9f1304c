//! Accumulates `let <name> = <expression>;` statements as source text.
use vstd::prelude::*;

use crate::circuit::{render, Circuit, Expr};

verus! {

/// The preamble that aliases the gates and node kinds the statements use.
pub open spec fn imports_text() -> Seq<char> {
    "use core::circuit::{\n\tAddModGate as A,\n\tSubModGate as S,\n\tMulModGate as M,\n\tInverseGate as I,\n\tCircuitInput as CI,\n\tCircuitElement as CE,\n};\n"@
}

/// The preamble as a string.
pub fn get_imports() -> (r: String)
    ensures
        r@ == imports_text(),
{
    String::from_str(
        "use core::circuit::{\n\tAddModGate as A,\n\tSubModGate as S,\n\tMulModGate as M,\n\tInverseGate as I,\n\tCircuitInput as CI,\n\tCircuitElement as CE,\n};\n",
    )
}

/// `let <name> = <text of e>\n`.
pub open spec fn assign_line(name: Seq<char>, e: Expr) -> Seq<char> {
    "let "@ + name + " = "@ + render(e) + "\n"@
}

/// One statement per element, each finalized with the circuit element
/// constructor, named by `names` in order.
pub open spec fn assign_lines(names: Seq<Seq<char>>, es: Seq<Expr>) -> Seq<char>
    decreases es.len(),
{
    if es.len() == 0 {
        Seq::empty()
    } else {
        assign_lines(names, es.drop_last()) + assign_line(
            names[es.len() - 1],
            Expr::Element(Box::new(es.last())),
        )
    }
}

pub open spec fn strs_view(v: Seq<&str>) -> Seq<Seq<char>> {
    v.map_values(|s: &str| s@)
}

/// The caller's names when there are enough of them, else the defaults.
pub open spec fn chosen_names(names: Option<Vec<&str>>, defaults: Seq<Seq<char>>) -> Seq<Seq<char>> {
    if names is Some && names->0@.len() >= defaults.len() {
        strs_view(names->0@)
    } else {
        defaults
    }
}

pub open spec fn circuits_view(v: Seq<Circuit>) -> Seq<Expr> {
    v.map_values(|c: Circuit| c@)
}

/// Source text under construction.
pub struct CairoCodeBuilder {
    code: String,
}

impl View for CairoCodeBuilder {
    type V = Seq<char>;

    closed spec fn view(&self) -> Seq<char> {
        self.code@
    }
}

impl CairoCodeBuilder {
    pub fn new() -> (r: CairoCodeBuilder)
        ensures
            r@ == Seq::<char>::empty(),
    {
        CairoCodeBuilder { code: String::new() }
    }

    pub fn as_str(&self) -> (r: &str)
        ensures
            r@ == self@,
    {
        self.code.as_str()
    }

    /// Appends `let <name> = <circuit>` and a line break.
    pub fn assign_variable(&mut self, name: &str, circuit: Circuit)
        ensures
            final(self)@ == old(self)@ + assign_line(name@, circuit@),
    {
        let text = circuit.inner();
        self.code.append("let ");
        self.code.append(name);
        self.code.append(" = ");
        self.code.append(text.as_str());
        self.code.append("\n");
        assert(final(self)@ =~= old(self)@ + assign_line(name@, circuit@));
    }

    /// Appends a line as it is.
    pub fn add_line(&mut self, line: &str)
        ensures
            final(self)@ == old(self)@ + line@ + "\n"@,
    {
        self.code.append(line);
        self.code.append("\n");
        assert(final(self)@ =~= old(self)@ + line@ + "\n"@);
    }

    /// Puts the import preamble in front of the code.
    pub fn add_imports(&mut self)
        ensures
            final(self)@ == imports_text() + old(self)@,
    {
        let imports = get_imports();
        let code = imports.concat(self.code.as_str());
        self.code = code;
    }

    /// Finalizes each element and appends it under its name: the caller's
    /// names when there are at least as many as elements, else `defaults`.
    pub fn assign_elements(&mut self, names: Option<Vec<&str>>, defaults: Vec<&str>, elems: Vec<Circuit>)
        requires
            defaults@.len() == elems@.len(),
        ensures
            final(self)@ == old(self)@ + assign_lines(
                chosen_names(names, strs_view(defaults@)),
                circuits_view(elems@),
            ),
    {
        let ghost chosen_view = chosen_names(names, strs_view(defaults@));
        let use_given = match &names {
            Some(v) => v.len() >= defaults.len(),
            None => false,
        };
        let chosen = if use_given {
            names.unwrap()
        } else {
            defaults
        };
        assert(strs_view(chosen@) == chosen_view);
        let ghost start = self@;
        let mut i: usize = 0;
        while i < elems.len()
            invariant
                i <= elems@.len() <= chosen@.len(),
                strs_view(chosen@) == chosen_view,
                self@ == start + assign_lines(chosen_view, circuits_view(elems@).subrange(0, i as int)),
            decreases elems@.len() - i,
        {
            let name = chosen[i];
            let c = elems[i].format_circuit();
            self.assign_variable(name, c);
            proof {
                let es = circuits_view(elems@).subrange(0, i + 1);
                assert(es.drop_last() =~= circuits_view(elems@).subrange(0, i as int));
                assert(chosen_view[i as int] == name@);
            }
            i = i + 1;
        }
        assert(circuits_view(elems@).subrange(0, i as int) =~= circuits_view(elems@));
    }

    /// Appends the statements of `out`; see [`crate::emit::adder::CairoCodeAdder`].
    pub fn add_circuit<A: crate::emit::adder::CairoCodeAdder>(&mut self, out: A, names: Option<Vec<&str>>)
        ensures
            final(self)@ == old(self)@ + assign_lines(chosen_names(names, A::default_names()), out.coefficients()),
    {
        out.add_circuit(self, names);
    }

    /// The finished text.
    pub fn build(self) -> (r: String)
        ensures
            r@ == self@,
    {
        self.code
    }
}

} // verus!
