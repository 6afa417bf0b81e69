//! The kind model: identifiers, literals, type kinds, refinements and types.
use vstd::prelude::*;

verus! {

/// A variable name. Names compare by their characters.
#[derive(Debug, Clone)]
pub struct Ident(pub String);

/// A concrete constant value.
#[derive(Debug, Clone)]
pub enum Literal {
    I32(i32),
    Str(String),
    Bool(bool),
}

/// Whether two literals denote the same value.
pub open spec fn lit_eq(a: Literal, b: Literal) -> bool {
    match (a, b) {
        (Literal::I32(x), Literal::I32(y)) => x == y,
        (Literal::Str(x), Literal::Str(y)) => x@ == y@,
        (Literal::Bool(x), Literal::Bool(y)) => x == y,
        _ => false,
    }
}

/// Whether two identifiers carry the same name.
pub open spec fn ident_eq(a: Ident, b: Ident) -> bool {
    a.0@ == b.0@
}

impl Ident {
    pub fn same(&self, o: &Ident) -> (r: bool)
        ensures
            r == ident_eq(*self, *o),
    {
        self.0 == o.0
    }

    pub fn duplicate(&self) -> (r: Ident)
        ensures
            r == *self,
    {
        Ident(self.0.clone())
    }
}

impl PartialEq for Ident {
    fn eq(&self, o: &Ident) -> (r: bool) {
        self.same(o)
    }
}

impl vstd::std_specs::cmp::PartialEqSpecImpl for Ident {
    open spec fn obeys_eq_spec() -> bool {
        true
    }

    open spec fn eq_spec(&self, o: &Ident) -> bool {
        ident_eq(*self, *o)
    }
}

impl Literal {
    /// The ground kind of the literal's value.
    pub open spec fn spec_kind(&self) -> TyKind {
        match self {
            Literal::I32(_) => TyKind::Number,
            Literal::Str(_) => TyKind::Text,
            Literal::Bool(_) => TyKind::Bool,
        }
    }

    pub fn kind(&self) -> (r: TyKind)
        ensures
            r == self.spec_kind(),
    {
        match self {
            Literal::I32(_) => TyKind::Number,
            Literal::Str(_) => TyKind::Text,
            Literal::Bool(_) => TyKind::Bool,
        }
    }

    pub fn same(&self, o: &Literal) -> (r: bool)
        ensures
            r == lit_eq(*self, *o),
    {
        match (self, o) {
            (Literal::I32(x), Literal::I32(y)) => *x == *y,
            (Literal::Str(x), Literal::Str(y)) => *x == *y,
            (Literal::Bool(x), Literal::Bool(y)) => *x == *y,
            _ => false,
        }
    }

    pub fn duplicate(&self) -> (r: Literal)
        ensures
            r == *self,
    {
        match self {
            Literal::I32(x) => Literal::I32(*x),
            Literal::Str(s) => Literal::Str(s.clone()),
            Literal::Bool(b) => Literal::Bool(*b),
        }
    }
}

impl PartialEq for Literal {
    fn eq(&self, o: &Literal) -> (r: bool) {
        self.same(o)
    }
}

impl vstd::std_specs::cmp::PartialEqSpecImpl for Literal {
    open spec fn obeys_eq_spec() -> bool {
        true
    }

    open spec fn eq_spec(&self, o: &Literal) -> bool {
        lit_eq(*self, *o)
    }
}

/// A type parameter: a name while a declaration is being read, then the
/// index of the variable it refers to.
#[derive(Debug, Clone)]
pub enum LowerableIdent {
    Idx(usize),
    Ident(Ident),
}

/// Whether two type parameters are the same.
pub open spec fn lident_eq(a: LowerableIdent, b: LowerableIdent) -> bool {
    match (a, b) {
        (LowerableIdent::Idx(x), LowerableIdent::Idx(y)) => x == y,
        (LowerableIdent::Ident(x), LowerableIdent::Ident(y)) => ident_eq(x, y),
        _ => false,
    }
}

impl LowerableIdent {
    /// The variable index of a resolved parameter.
    pub fn unwrap(&self) -> (r: usize)
        requires
            self is Idx,
        ensures
            r == self->Idx_0,
    {
        match self {
            LowerableIdent::Idx(i) => *i,
            LowerableIdent::Ident(_) => 0,
        }
    }

    pub fn same(&self, o: &LowerableIdent) -> (r: bool)
        ensures
            r == lident_eq(*self, *o),
    {
        match (self, o) {
            (LowerableIdent::Idx(x), LowerableIdent::Idx(y)) => *x == *y,
            (LowerableIdent::Ident(x), LowerableIdent::Ident(y)) => x.same(y),
            _ => false,
        }
    }

    pub fn duplicate(&self) -> (r: LowerableIdent)
        ensures
            r == *self,
    {
        match self {
            LowerableIdent::Idx(i) => LowerableIdent::Idx(*i),
            LowerableIdent::Ident(id) => LowerableIdent::Ident(id.duplicate()),
        }
    }
}

/// The shape of a type.
#[derive(Debug)]
pub enum TyKind {
    /// Any value: the identity of unification.
    Dynamic,
    Number,
    Text,
    Bool,
    /// Whatever the referenced variable resolves to.
    Param(LowerableIdent),
    /// A pair of values.
    Tuple(Box<Ty>, Box<Ty>),
    /// A value of either branch.
    Enum(Box<Ty>, Box<Ty>),
    /// No value at all: the result of a contradictory unification.
    Never,
}

/// A refinement of a type by a concrete value.
#[derive(Debug, Clone)]
pub enum Constraint {
    /// No refinement.
    Unrefined,
    /// The value equals this literal.
    Eq(Literal),
    /// The value differs from this literal.
    Neq(Literal),
}

/// A kind together with a refinement.
#[derive(Debug)]
pub struct Ty {
    pub kind: TyKind,
    pub constraints: Constraint,
}

/// Whether two refinements are the same.
pub open spec fn constraint_eq(a: Constraint, b: Constraint) -> bool {
    match (a, b) {
        (Constraint::Unrefined, Constraint::Unrefined) => true,
        (Constraint::Eq(x), Constraint::Eq(y)) => lit_eq(x, y),
        (Constraint::Neq(x), Constraint::Neq(y)) => lit_eq(x, y),
        _ => false,
    }
}

/// Whether two types are the same, literal by literal and name by name.
pub open spec fn ty_eq(a: Ty, b: Ty) -> bool
    decreases a, 1nat,
{
    kind_eq(a.kind, b.kind) && constraint_eq(a.constraints, b.constraints)
}

/// Whether two kinds are the same.
pub open spec fn kind_eq(a: TyKind, b: TyKind) -> bool
    decreases a, 0nat,
{
    match a {
        TyKind::Dynamic => b is Dynamic,
        TyKind::Number => b is Number,
        TyKind::Text => b is Text,
        TyKind::Bool => b is Bool,
        TyKind::Never => b is Never,
        TyKind::Param(x) => b is Param && lident_eq(x, b->Param_0),
        TyKind::Tuple(l, r) => match b {
            TyKind::Tuple(bl, br) => ty_eq(*l, *bl) && ty_eq(*r, *br),
            _ => false,
        },
        TyKind::Enum(l, r) => match b {
            TyKind::Enum(bl, br) => ty_eq(*l, *bl) && ty_eq(*r, *br),
            _ => false,
        },
    }
}

/// The number of kind nodes in a type.
pub open spec fn ty_size(t: Ty) -> nat
    decreases t, 1nat,
{
    1 + kind_size(t.kind)
}

pub open spec fn kind_size(k: TyKind) -> nat
    decreases k, 0nat,
{
    match k {
        TyKind::Tuple(l, r) => ty_size(*l) + ty_size(*r),
        TyKind::Enum(l, r) => ty_size(*l) + ty_size(*r),
        _ => 0,
    }
}

/// The refinement that holds of a value meeting both `a` and `b`, if one of
/// the model's refinements expresses it. Two inequalities to different
/// values have no single-literal form, so they are refused.
pub open spec fn constraint_unify(a: Constraint, b: Constraint) -> Option<Constraint> {
    match (a, b) {
        (Constraint::Unrefined, o) => Some(o),
        (o, Constraint::Unrefined) => Some(o),
        (Constraint::Eq(l), Constraint::Eq(r)) => if lit_eq(l, r) {
            Some(Constraint::Eq(l))
        } else {
            None
        },
        (Constraint::Neq(l), Constraint::Neq(r)) => if lit_eq(l, r) {
            Some(Constraint::Neq(l))
        } else {
            None
        },
        (Constraint::Eq(e), Constraint::Neq(n)) => if lit_eq(e, n) {
            None
        } else {
            Some(Constraint::Eq(e))
        },
        (Constraint::Neq(n), Constraint::Eq(e)) => if lit_eq(e, n) {
            None
        } else {
            Some(Constraint::Eq(e))
        },
    }
}

/// The refinement that holds exactly where `c` does not, for a single literal.
pub open spec fn negated(c: Constraint) -> Constraint {
    match c {
        Constraint::Unrefined => Constraint::Unrefined,
        Constraint::Eq(l) => Constraint::Neq(l),
        Constraint::Neq(l) => Constraint::Eq(l),
    }
}

impl Constraint {
    /// Merges two refinements; `Err` where they contradict each other, or
    /// where they are two inequalities to different values.
    pub fn unify(&self, other: &Self) -> (r: Result<Self, ()>)
        ensures
            r matches Ok(c) ==> constraint_unify(*self, *other) == Some(c),
            r is Err ==> constraint_unify(*self, *other) is None,
    {
        match (self, other) {
            (Constraint::Unrefined, o) => Ok(o.duplicate()),
            (o, Constraint::Unrefined) => Ok(o.duplicate()),
            (Constraint::Eq(l), Constraint::Eq(r)) => {
                if l.same(r) {
                    Ok(Constraint::Eq(l.duplicate()))
                } else {
                    Err(())
                }
            },
            (Constraint::Neq(l), Constraint::Neq(r)) => {
                if l.same(r) {
                    Ok(Constraint::Neq(l.duplicate()))
                } else {
                    Err(())
                }
            },
            (Constraint::Eq(e), Constraint::Neq(n)) => {
                if e.same(n) {
                    Err(())
                } else {
                    Ok(Constraint::Eq(e.duplicate()))
                }
            },
            (Constraint::Neq(n), Constraint::Eq(e)) => {
                if e.same(n) {
                    Err(())
                } else {
                    Ok(Constraint::Eq(e.duplicate()))
                }
            },
        }
    }

    pub fn negate(&self) -> (r: Constraint)
        ensures
            r == negated(*self),
    {
        match self {
            Constraint::Unrefined => Constraint::Unrefined,
            Constraint::Eq(l) => Constraint::Neq(l.duplicate()),
            Constraint::Neq(l) => Constraint::Eq(l.duplicate()),
        }
    }

    pub fn same(&self, o: &Constraint) -> (r: bool)
        ensures
            r == constraint_eq(*self, *o),
    {
        match (self, o) {
            (Constraint::Unrefined, Constraint::Unrefined) => true,
            (Constraint::Eq(x), Constraint::Eq(y)) => x.same(y),
            (Constraint::Neq(x), Constraint::Neq(y)) => x.same(y),
            _ => false,
        }
    }

    pub fn duplicate(&self) -> (r: Constraint)
        ensures
            r == *self,
    {
        match self {
            Constraint::Unrefined => Constraint::Unrefined,
            Constraint::Eq(l) => Constraint::Eq(l.duplicate()),
            Constraint::Neq(l) => Constraint::Neq(l.duplicate()),
        }
    }
}

/// The type of every value.
pub open spec fn all_spec() -> Ty {
    Ty { kind: TyKind::Dynamic, constraints: Constraint::Unrefined }
}

/// The type of no value.
pub open spec fn none_spec() -> Ty {
    Ty { kind: TyKind::Never, constraints: Constraint::Unrefined }
}

impl Ty {
    /// Represents any valid value.
    pub fn all() -> (r: Self)
        ensures
            r == all_spec(),
    {
        Ty { kind: TyKind::Dynamic, constraints: Constraint::Unrefined }
    }

    /// Represents no value.
    pub fn none() -> (r: Self)
        ensures
            r == none_spec(),
    {
        Ty { kind: TyKind::Never, constraints: Constraint::Unrefined }
    }

    /// The type holding exactly the literal's value.
    pub fn from_literal(lit: Literal) -> (r: Self)
        ensures
            r == (Ty { kind: lit.spec_kind(), constraints: Constraint::Eq(lit) }),
    {
        Ty { kind: lit.kind(), constraints: Constraint::Eq(lit) }
    }

    pub fn same(&self, o: &Ty) -> (r: bool)
        ensures
            r == ty_eq(*self, *o),
        decreases self, 1nat,
    {
        let k = TyKind::same(&self.kind, &o.kind);
        k && self.constraints.same(&o.constraints)
    }

    pub fn duplicate(&self) -> (r: Ty)
        ensures
            r == *self,
        decreases self, 1nat,
    {
        Ty { kind: self.kind.duplicate(), constraints: self.constraints.duplicate() }
    }
}

impl TyKind {
    pub fn same(&self, o: &TyKind) -> (r: bool)
        ensures
            r == kind_eq(*self, *o),
        decreases self, 0nat,
    {
        match (self, o) {
            (TyKind::Dynamic, TyKind::Dynamic) => true,
            (TyKind::Number, TyKind::Number) => true,
            (TyKind::Text, TyKind::Text) => true,
            (TyKind::Bool, TyKind::Bool) => true,
            (TyKind::Never, TyKind::Never) => true,
            (TyKind::Param(x), TyKind::Param(y)) => x.same(y),
            (TyKind::Tuple(l, r), TyKind::Tuple(a, b)) => Ty::same(l, a) && Ty::same(r, b),
            (TyKind::Enum(l, r), TyKind::Enum(a, b)) => Ty::same(l, a) && Ty::same(r, b),
            _ => false,
        }
    }

    pub fn duplicate(&self) -> (r: TyKind)
        ensures
            r == *self,
        decreases self, 0nat,
    {
        match self {
            TyKind::Dynamic => TyKind::Dynamic,
            TyKind::Number => TyKind::Number,
            TyKind::Text => TyKind::Text,
            TyKind::Bool => TyKind::Bool,
            TyKind::Never => TyKind::Never,
            TyKind::Param(p) => TyKind::Param(p.duplicate()),
            TyKind::Tuple(l, r) => TyKind::Tuple(Box::new(Ty::duplicate(l)), Box::new(Ty::duplicate(r))),
            TyKind::Enum(l, r) => TyKind::Enum(Box::new(Ty::duplicate(l)), Box::new(Ty::duplicate(r))),
        }
    }
}

impl Clone for Ty {
    fn clone(&self) -> (r: Ty) {
        self.duplicate()
    }
}

impl Clone for TyKind {
    fn clone(&self) -> (r: TyKind) {
        self.duplicate()
    }
}

impl Clone for Ref {
    fn clone(&self) -> (r: Ref) {
        self.duplicate()
    }
}

impl PartialEq for Ty {
    fn eq(&self, o: &Ty) -> (r: bool) {
        self.same(o)
    }
}

impl vstd::std_specs::cmp::PartialEqSpecImpl for Ty {
    open spec fn obeys_eq_spec() -> bool {
        true
    }

    open spec fn eq_spec(&self, o: &Ty) -> bool {
        ty_eq(*self, *o)
    }
}

impl From<TyKind> for Ty {
    fn from(kind: TyKind) -> (r: Ty) {
        Ty { kind, constraints: Constraint::Unrefined }
    }
}

impl vstd::std_specs::convert::FromSpecImpl<TyKind> for Ty {
    open spec fn obeys_from_spec() -> bool {
        true
    }

    open spec fn from_spec(kind: TyKind) -> Ty {
        Ty { kind, constraints: Constraint::Unrefined }
    }
}

/// Which relation a constraint states between its two operands.
#[derive(Debug, Clone, Copy, PartialEq, Eq, Structural)]
pub enum ConstraintKind {
    Eq,
    Neq,
}

/// An endpoint of a constraint: a declared variable, by index, or an
/// anonymous type built from a literal.
#[derive(Debug)]
pub enum Ref {
    Ident(usize),
    Ty(Box<Ty>),
}

impl Ref {
    pub fn duplicate(&self) -> (r: Ref)
        ensures
            r == *self,
    {
        match self {
            Ref::Ident(i) => Ref::Ident(*i),
            Ref::Ty(t) => Ref::Ty(Box::new(Ty::duplicate(t))),
        }
    }
}

} // verus!
