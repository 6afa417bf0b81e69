//! Rendering of resolved types as text.
use vstd::prelude::*;
use crate::program::{declared, declared_ty, Program, ProgramModel};
use crate::ty::{kind_size, ty_size, Constraint, LowerableIdent, Literal, Ty, TyKind};

verus! {

/// The text of one decimal digit.
pub open spec fn digit_text(d: nat) -> Seq<char> {
    if d == 0 {
        "0"@
    } else if d == 1 {
        "1"@
    } else if d == 2 {
        "2"@
    } else if d == 3 {
        "3"@
    } else if d == 4 {
        "4"@
    } else if d == 5 {
        "5"@
    } else if d == 6 {
        "6"@
    } else if d == 7 {
        "7"@
    } else if d == 8 {
        "8"@
    } else {
        "9"@
    }
}

/// The decimal digits of `n`, most significant first.
pub open spec fn decimal(n: nat) -> Seq<char>
    decreases n,
{
    if n < 10 {
        digit_text(n)
    } else {
        decimal(n / 10) + digit_text(n % 10)
    }
}

/// A literal as text: an integer in decimal, text in double quotes, a
/// boolean as `true` or `false`.
pub open spec fn lit_text(l: Literal) -> Seq<char> {
    match l {
        Literal::I32(n) => if n < 0 {
            "-"@ + decimal((-n) as nat)
        } else {
            decimal(n as nat)
        },
        Literal::Str(s) => "\""@ + s@ + "\""@,
        Literal::Bool(b) => if b {
            "true"@
        } else {
            "false"@
        },
    }
}

/// A refinement as text.
pub open spec fn constraint_text(c: Constraint) -> Seq<char> {
    match c {
        Constraint::Unrefined => "true"@,
        Constraint::Eq(l) => "= "@ + lit_text(l),
        Constraint::Neq(l) => "!= "@ + lit_text(l),
    }
}

/// A type as text: its kind, then ` where ` and its refinement if it has
/// one. A parameter shows the variable's name and declared type; `bound`
/// is the first variable index that may no longer be shown that way.
pub open spec fn ty_text(env: ProgramModel, t: Ty, bound: nat) -> Seq<char>
    decreases bound, ty_size(t), 1nat,
{
    kind_text(env, t.kind, bound) + if t.constraints is Unrefined {
        Seq::empty()
    } else {
        " where "@ + constraint_text(t.constraints)
    }
}

/// A kind as text.
pub open spec fn kind_text(env: ProgramModel, k: TyKind, bound: nat) -> Seq<char>
    decreases bound, kind_size(k), 0nat,
{
    match k {
        TyKind::Number => "Number"@,
        TyKind::Text => "Text"@,
        TyKind::Bool => "Bool"@,
        TyKind::Never => "!"@,
        TyKind::Dynamic => "*"@,
        TyKind::Param(li) => match li {
            LowerableIdent::Idx(i) => if i < bound && declared(env, i) {
                "<"@ + env.variables[i as int].0.0@ + ": "@ + ty_text(env, declared_ty(env, i), i as nat)
                    + ">"@
            } else {
                "?"@
            },
            LowerableIdent::Ident(_) => "?"@,
        },
        TyKind::Tuple(a, b) => "("@ + ty_text(env, *a, bound) + ", "@ + ty_text(env, *b, bound) + ")"@,
        TyKind::Enum(a, b) => ty_text(env, *a, bound) + " | "@ + ty_text(env, *b, bound),
    }
}

/// A type as text, against the whole environment.
pub open spec fn render_spec(env: ProgramModel, t: Ty) -> Seq<char> {
    ty_text(env, t, env.variables.len())
}

fn digit_str(d: u32) -> (r: &'static str)
    requires
        d < 10,
    ensures
        r@ == digit_text(d as nat),
{
    if d == 0 {
        "0"
    } else if d == 1 {
        "1"
    } else if d == 2 {
        "2"
    } else if d == 3 {
        "3"
    } else if d == 4 {
        "4"
    } else if d == 5 {
        "5"
    } else if d == 6 {
        "6"
    } else if d == 7 {
        "7"
    } else if d == 8 {
        "8"
    } else {
        "9"
    }
}

fn push_decimal(out: &mut String, n: u32)
    ensures
        final(out)@ == old(out)@ + decimal(n as nat),
    decreases n,
{
    if n >= 10 {
        push_decimal(out, n / 10);
    }
    out.append(digit_str(n % 10));
    assert(final(out)@ =~= old(out)@ + decimal(n as nat));
}

/// Appends the text of a literal.
pub fn push_literal(out: &mut String, l: &Literal)
    ensures
        final(out)@ == old(out)@ + lit_text(*l),
{
    match l {
        Literal::I32(n) => {
            if *n < 0 {
                out.append("-");
                let m: i64 = -(*n as i64);
                push_decimal(out, m as u32);
                assert(final(out)@ =~= old(out)@ + lit_text(*l));
            } else {
                push_decimal(out, *n as u32);
            }
        },
        Literal::Str(s) => {
            out.append("\"");
            out.append(s.as_str());
            out.append("\"");
            assert(final(out)@ =~= old(out)@ + lit_text(*l));
        },
        Literal::Bool(b) => {
            if *b {
                out.append("true");
            } else {
                out.append("false");
            }
        },
    }
}

impl Constraint {
    /// The refinement as text.
    pub fn render(&self) -> (r: String)
        ensures
            r@ == constraint_text(*self),
    {
        let mut out = String::new();
        match self {
            Constraint::Unrefined => out.append("true"),
            Constraint::Eq(l) => {
                out.append("= ");
                push_literal(&mut out, l);
            },
            Constraint::Neq(l) => {
                out.append("!= ");
                push_literal(&mut out, l);
            },
        }
        assert(out@ =~= constraint_text(*self));
        out
    }
}

fn push_ty(out: &mut String, env: &Program, t: &Ty, bound: usize)
    ensures
        final(out)@ == old(out)@ + ty_text(env@, *t, bound as nat),
    decreases bound, ty_size(*t), 1nat,
{
    push_kind(out, env, &t.kind, bound);
    match &t.constraints {
        Constraint::Unrefined => {
            assert(final(out)@ =~= old(out)@ + ty_text(env@, *t, bound as nat));
        },
        c => {
            out.append(" where ");
            let text = c.render();
            out.append(text.as_str());
            assert(final(out)@ =~= old(out)@ + ty_text(env@, *t, bound as nat));
        },
    }
}

fn push_kind(out: &mut String, env: &Program, k: &TyKind, bound: usize)
    ensures
        final(out)@ == old(out)@ + kind_text(env@, *k, bound as nat),
    decreases bound, kind_size(*k), 0nat,
{
    match k {
        TyKind::Number => out.append("Number"),
        TyKind::Text => out.append("Text"),
        TyKind::Bool => out.append("Bool"),
        TyKind::Never => out.append("!"),
        TyKind::Dynamic => out.append("*"),
        TyKind::Param(li) => {
            match li {
                LowerableIdent::Idx(i) => {
                    if *i < bound && env.is_declared(*i) {
                        out.append("<");
                        out.append(env.name_of(*i).0.as_str());
                        out.append(": ");
                        push_ty(out, env, env.declared_type(*i), *i);
                        out.append(">");
                        assert(final(out)@ =~= old(out)@ + kind_text(env@, *k, bound as nat));
                    } else {
                        out.append("?");
                    }
                },
                LowerableIdent::Ident(_) => out.append("?"),
            }
        },
        TyKind::Tuple(a, b) => {
            out.append("(");
            push_ty(out, env, a, bound);
            out.append(", ");
            push_ty(out, env, b, bound);
            out.append(")");
            assert(final(out)@ =~= old(out)@ + kind_text(env@, *k, bound as nat));
        },
        TyKind::Enum(a, b) => {
            push_ty(out, env, a, bound);
            out.append(" | ");
            push_ty(out, env, b, bound);
            assert(final(out)@ =~= old(out)@ + kind_text(env@, *k, bound as nat));
        },
    }
}

/// A type together with the environment its parameters refer to.
pub struct TyAndProgram<'a>(pub Ty, pub &'a Program);

/// A kind together with the environment its parameters refer to.
pub struct TyKindAndProgram<'a>(pub TyKind, pub &'a Program);

impl<'a> TyAndProgram<'a> {
    /// The type's text.
    pub fn render(&self) -> (r: String)
        ensures
            r@ == render_spec(self.1@, self.0),
    {
        let mut out = String::new();
        push_ty(&mut out, self.1, &self.0, self.1.len());
        assert(out@ =~= render_spec(self.1@, self.0));
        out
    }
}

impl<'a> TyKindAndProgram<'a> {
    /// The kind's text.
    pub fn render(&self) -> (r: String)
        ensures
            r@ == kind_text(self.1@, self.0, self.1@.variables.len()),
    {
        let mut out = String::new();
        push_kind(&mut out, self.1, &self.0, self.1.len());
        assert(out@ =~= kind_text(self.1@, self.0, self.1@.variables.len()));
        out
    }
}

} // verus!
