//! The environment: declared variables, their declared types, and the
//! append-only graph of constraints; with the unifier and the walker that
//! folds every type reachable from a variable into one.
use vstd::prelude::*;
use crate::render::{render_spec, TyAndProgram};
use crate::ty::{
    all_spec, constraint_unify, ident_eq, kind_eq, lident_eq, lit_eq, negated, none_spec, ty_eq,
    ty_size, Constraint, ConstraintKind, Ident, Literal, LowerableIdent, Ref, Ty, TyKind,
};

verus! {

/// How deeply parameters may be resolved inside one another: a parameter
/// met while resolving this many others unifies to `Never`. The walk over
/// the constraint graph itself has no bound; it expands each variable once.
pub const MAX_DEPTH: u64 = 512;

/// An edge of the constraint graph.
pub type Edge = (ConstraintKind, Ref, Ref);

/// The mathematical content of a [`Program`].
pub struct ProgramModel {
    /// Each declared variable's name and the slot of its declared type.
    pub variables: Seq<(Ident, usize)>,
    /// The constraint graph, in the order the constraints were stated.
    pub constraints: Seq<Edge>,
    /// The declared types, one slot per declaration.
    pub type_values: Seq<Ty>,
}

/// Variable `i` exists and has a declared type.
pub open spec fn declared(env: ProgramModel, i: usize) -> bool {
    i < env.variables.len() && env.variables[i as int].1 < env.type_values.len()
}

/// The declared type of variable `i`.
pub open spec fn declared_ty(env: ProgramModel, i: usize) -> Ty {
    env.type_values[env.variables[i as int].1 as int]
}

/// The last of the first `n` variables that is named `name`: the most
/// recent declaration of that name among them.
pub open spec fn last_named(vars: Seq<(Ident, usize)>, name: Ident, n: nat) -> Option<usize>
    decreases n,
{
    if n == 0 {
        None
    } else if ident_eq(vars[n - 1].0, name) {
        Some((n - 1) as usize)
    } else {
        last_named(vars, name, (n - 1) as nat)
    }
}

/// The index of the most recently declared variable named `name`, if any.
pub open spec fn position_of(env: ProgramModel, name: Ident) -> Option<usize> {
    last_named(env.variables, name, env.variables.len())
}

/// The endpoint of edge `e` opposite to variable `i`, with the edge's relation.
pub open spec fn neighbor(e: Edge, i: usize) -> Option<(ConstraintKind, Ref)> {
    if e.1 == Ref::Ident(i) {
        Some((e.0, e.2))
    } else if e.2 == Ref::Ident(i) {
        Some((e.0, e.1))
    } else {
        None
    }
}

/// The neighbors of variable `i` among the first `n` edges, in edge order.
pub open spec fn neighbors(cs: Seq<Edge>, i: usize, n: nat) -> Seq<(ConstraintKind, Ref)>
    decreases n,
{
    if n == 0 {
        Seq::empty()
    } else {
        let prev = neighbors(cs, i, (n - 1) as nat);
        match neighbor(cs[n - 1], i) {
            Some(x) => prev.push(x),
            None => prev,
        }
    }
}

/// What an edge contributes to the variable at its other end: an inequality
/// to a literal contributes the literal's kind with the refinement negated;
/// anything else contributes the endpoint itself.
pub open spec fn edge_target(item: (ConstraintKind, Ref)) -> Ref {
    match item.1 {
        Ref::Ty(t) => if item.0 is Neq {
            Ref::Ty(Box::new(Ty { kind: t.kind, constraints: negated(t.constraints) }))
        } else {
            item.1
        },
        Ref::Ident(_) => item.1,
    }
}

/// The variable a parameter stands for, if it is resolved and declared.
pub open spec fn param_target(env: ProgramModel, li: LowerableIdent) -> Option<usize> {
    match li {
        LowerableIdent::Idx(i) => if declared(env, i) {
            Some(i)
        } else {
            None
        },
        LowerableIdent::Ident(_) => None,
    }
}

/// A kind with the merge of two refinements, or `Never` where they conflict.
pub open spec fn refine(k: TyKind, a: Constraint, b: Constraint) -> Ty {
    match constraint_unify(a, b) {
        Some(c) => Ty { kind: k, constraints: c },
        None => none_spec(),
    }
}

/// 1 where unification has to swap its operands to bring an `Enum` first.
pub open spec fn flip(s: Ty, o: Ty) -> nat {
    if o.kind is Enum {
        1
    } else {
        0
    }
}

/// A collapsed enum branch, with the enum's own refinement merged in.
pub open spec fn keep_own(r: Ty, own: Constraint) -> Ty {
    if r.kind is Never {
        r
    } else {
        refine(r.kind, r.constraints, own)
    }
}

/// Unification of two types: the most specific type consistent with both,
/// `Never` where none is. `fuel` bounds how deeply parameters may be
/// resolved inside one another.
pub open spec fn unify(env: ProgramModel, s: Ty, o: Ty, fuel: nat) -> Ty
    decreases fuel, 0nat, ty_size(s) + ty_size(o), flip(s, o), 0nat,
{
    if s.kind is Dynamic {
        refine(o.kind, s.constraints, o.constraints)
    } else if o.kind is Dynamic {
        refine(s.kind, s.constraints, o.constraints)
    } else if s.kind is Param && o.kind is Param && lident_eq(s.kind->Param_0, o.kind->Param_0) {
        refine(s.kind, s.constraints, o.constraints)
    } else if s.kind is Param {
        match param_target(env, s.kind->Param_0) {
            Some(p) => if fuel == 0 {
                none_spec()
            } else {
                unify(env, resolve(env, p, (fuel - 1) as nat), o, (fuel - 1) as nat)
            },
            None => none_spec(),
        }
    } else if o.kind is Param {
        match param_target(env, o.kind->Param_0) {
            Some(p) => if fuel == 0 {
                none_spec()
            } else {
                unify(env, s, resolve(env, p, (fuel - 1) as nat), (fuel - 1) as nat)
            },
            None => none_spec(),
        }
    } else if s.kind is Enum {
        let a = unify(env, *s.kind->Enum_0, o, fuel);
        let b = unify(env, *s.kind->Enum_1, o, fuel);
        if b.kind is Never {
            keep_own(a, s.constraints)
        } else if a.kind is Never {
            keep_own(b, s.constraints)
        } else if ty_eq(a, b) {
            keep_own(a, s.constraints)
        } else {
            refine(TyKind::Enum(Box::new(a), Box::new(b)), s.constraints, o.constraints)
        }
    } else if o.kind is Enum {
        unify(env, o, s, fuel)
    } else if s.kind is Tuple && o.kind is Tuple {
        let l = unify(env, *s.kind->Tuple_0, *o.kind->Tuple_0, fuel);
        let r = unify(env, *s.kind->Tuple_1, *o.kind->Tuple_1, fuel);
        refine(TyKind::Tuple(Box::new(l), Box::new(r)), s.constraints, o.constraints)
    } else if s.kind is Tuple || o.kind is Tuple {
        none_spec()
    } else if kind_eq(s.kind, o.kind) {
        refine(s.kind, s.constraints, o.constraints)
    } else {
        none_spec()
    }
}

/// How many of the variables `0 .. n` have not been visited.
pub open spec fn unvisited(n: nat, visited: Seq<usize>) -> nat
    decreases n,
{
    if n == 0 {
        0
    } else {
        unvisited((n - 1) as nat, visited) + if visited.contains((n - 1) as usize) {
            0nat
        } else {
            1nat
        }
    }
}

/// The number of variables the walk has not expanded yet.
pub open spec fn left(env: ProgramModel, st: (Ty, Seq<usize>)) -> nat {
    unvisited(env.variables.len(), st.1)
}

/// The effective type of variable `p`: its declared type merged with every
/// type reachable from it through the constraint graph.
pub open spec fn resolve(env: ProgramModel, p: usize, fuel: nat) -> Ty
    decreases fuel, 2nat, 0nat, 0nat, 0nat,
{
    walk_ident(env, (declared_ty(env, p), Seq::empty()), p, fuel).0
}

/// Expands variable `idx`, unless it was expanded before: first every
/// neighbor in the graph, then its own declared type. The two tests on
/// `left` always hold, since a walk only appends to the visited variables;
/// they make the walk's termination evident.
pub open spec fn walk_ident(env: ProgramModel, st: (Ty, Seq<usize>), idx: usize, fuel: nat) -> (Ty, Seq<usize>)
    decreases fuel, 1nat, left(env, st), 0nat, 0nat,
{
    if st.1.contains(idx) || !declared(env, idx) {
        st
    } else {
        let st1 = (st.0, st.1.push(idx));
        if left(env, st1) < left(env, st) {
            let items = neighbors(env.constraints, idx, env.constraints.len());
            let st2 = walk_items(env, st1, items, fuel);
            if left(env, st2) < left(env, st) {
                walk_ty(env, st2, declared_ty(env, idx), fuel)
            } else {
                st2
            }
        } else {
            st1
        }
    }
}

/// One step of the walk: fold what `r` stands for into the accumulated type,
/// expanding each variable at most once.
pub open spec fn walk_ref(env: ProgramModel, st: (Ty, Seq<usize>), r: Ref, fuel: nat) -> (Ty, Seq<usize>)
    decreases fuel, 1nat, left(env, st), 2nat, 0nat,
{
    match r {
        Ref::Ty(t) => walk_ty(env, st, *t, fuel),
        Ref::Ident(idx) => walk_ident(env, st, idx, fuel),
    }
}

/// Walks the neighbors of a variable in order. (The test on `left` always
/// holds, as in `walk_ident`.)
pub open spec fn walk_items(
    env: ProgramModel,
    st: (Ty, Seq<usize>),
    items: Seq<(ConstraintKind, Ref)>,
    fuel: nat,
) -> (Ty, Seq<usize>)
    decreases fuel, 1nat, left(env, st), 3nat, items.len(),
{
    if items.len() == 0 {
        st
    } else {
        let st1 = walk_ref(env, st, edge_target(items[0]), fuel);
        if left(env, st1) <= left(env, st) {
            walk_items(env, st1, items.drop_first(), fuel)
        } else {
            st1
        }
    }
}

/// Folds a type into the accumulated type; a parameter is walked as the
/// variable it refers to.
pub open spec fn walk_ty(env: ProgramModel, st: (Ty, Seq<usize>), t: Ty, fuel: nat) -> (Ty, Seq<usize>)
    decreases fuel, 1nat, left(env, st), 1nat, 0nat,
{
    if t.kind is Param {
        match t.kind->Param_0 {
            LowerableIdent::Idx(p) => walk_ident(env, st, p, fuel),
            LowerableIdent::Ident(_) => st,
        }
    } else {
        (unify(env, st.0, t, fuel), st.1)
    }
}

/// What a query on `name` answers: `Dynamic` for an unbound name, else the
/// variable's effective type.
pub open spec fn satisfied(env: ProgramModel, name: Ident) -> Ty {
    match position_of(env, name) {
        Some(i) => if declared(env, i) {
            resolve(env, i, MAX_DEPTH as nat)
        } else {
            all_spec()
        },
        None => all_spec(),
    }
}

/// The environment. Variables, declared types and constraints are only
/// ever appended.
#[derive(Debug)]
pub struct Program {
    variables: Vec<(Ident, usize)>,
    constraints: Vec<Edge>,
    type_values: Vec<Ty>,
}

impl View for Program {
    type V = ProgramModel;

    closed spec fn view(&self) -> ProgramModel {
        ProgramModel {
            variables: self.variables@,
            constraints: self.constraints@,
            type_values: self.type_values@,
        }
    }
}

impl Program {
    /// The number of declared variables.
    pub fn len(&self) -> (r: usize)
        ensures
            r == self@.variables.len(),
    {
        self.variables.len()
    }

    /// The name of variable `i`.
    pub fn name_of(&self, i: usize) -> (r: &Ident)
        requires
            i < self@.variables.len(),
        ensures
            *r == self@.variables[i as int].0,
    {
        &self.variables[i].0
    }

    /// Whether variable `i` exists and has a declared type.
    pub fn is_declared(&self, i: usize) -> (r: bool)
        ensures
            r == declared(self@, i),
    {
        i < self.variables.len() && self.variables[i].1 < self.type_values.len()
    }

    /// The declared type of variable `i`.
    pub fn declared_type(&self, i: usize) -> (r: &Ty)
        requires
            declared(self@, i),
        ensures
            *r == declared_ty(self@, i),
    {
        &self.type_values[self.variables[i].1]
    }

    /// The variable a parameter stands for, if it is resolved and declared.
    fn target_of(&self, li: &LowerableIdent) -> (r: Option<usize>)
        ensures
            r == param_target(self@, *li),
    {
        match li {
            LowerableIdent::Idx(_) => {
                let i = li.unwrap();
                if self.is_declared(i) {
                    Some(i)
                } else {
                    None
                }
            },
            LowerableIdent::Ident(_) => None,
        }
    }

    /// The endpoints opposite to variable `i` over all edges, in edge
    /// order, each with the relation of its edge.
    pub fn unified_items(&self, i: usize) -> (r: Vec<(ConstraintKind, Ref)>)
        ensures
            r@ == neighbors(self@.constraints, i, self@.constraints.len()),
    {
        let mut out: Vec<(ConstraintKind, Ref)> = Vec::new();
        let mut k: usize = 0;
        while k < self.constraints.len()
            invariant
                k <= self.constraints@.len(),
                out@ == neighbors(self@.constraints, i, k as nat),
            decreases self.constraints@.len() - k,
        {
            let e = &self.constraints[k];
            let hit_l = match &e.1 {
                Ref::Ident(j) => *j == i,
                Ref::Ty(_) => false,
            };
            let hit_r = match &e.2 {
                Ref::Ident(j) => *j == i,
                Ref::Ty(_) => false,
            };
            if hit_l {
                out.push((e.0, e.2.duplicate()));
            } else if hit_r {
                out.push((e.0, e.1.duplicate()));
            }
            k += 1;
        }
        out
    }
}

/// Whether `v` holds `x`.
fn holds(v: &Vec<usize>, x: usize) -> (r: bool)
    ensures
        r == v@.contains(x),
{
    let mut k: usize = 0;
    while k < v.len()
        invariant
            k <= v@.len(),
            forall|j: int| 0 <= j < k ==> v@[j] != x,
        decreases v@.len() - k,
    {
        if v[k] == x {
            return true;
        }
        k += 1;
    }
    false
}

/// What an edge contributes to the variable at its other end.
fn edge_target_of(item: &(ConstraintKind, Ref)) -> (r: Ref)
    ensures
        r == edge_target(*item),
{
    match &item.1 {
        Ref::Ty(t) => {
            if item.0 == ConstraintKind::Neq {
                Ref::Ty(Box::new(Ty { kind: t.kind.duplicate(), constraints: t.constraints.negate() }))
            } else {
                item.1.duplicate()
            }
        },
        Ref::Ident(_) => item.1.duplicate(),
    }
}

/// A kind with the merge of two refinements, or `Never` where they conflict.
fn refined(k: TyKind, a: &Constraint, b: &Constraint) -> (r: Ty)
    ensures
        r == refine(k, *a, *b),
{
    match a.unify(b) {
        Ok(c) => Ty { kind: k, constraints: c },
        Err(_) => Ty::none(),
    }
}

/// The walker: a type accumulated so far and the variables already expanded.
pub struct TyUnifier {
    pub ty: Ty,
    /// Visited identifiers.
    pub visited: Vec<usize>,
}

/// Walks references and types against an environment.
pub trait Visitor {
    /// The accumulated type and the variables expanded so far.
    spec fn walk_state(&self) -> (Ty, Seq<usize>);

    fn walk_ref(&mut self, r: &Ref, env: &Program)
        ensures
            final(self).walk_state() == walk_ref(env@, old(self).walk_state(), *r, MAX_DEPTH as nat),
            extends(old(self).walk_state().1, final(self).walk_state().1),
    ;

    fn walk_ty(&mut self, ty: &Ty, env: &Program)
        ensures
            final(self).walk_state() == walk_ty(env@, old(self).walk_state(), *ty, MAX_DEPTH as nat),
            extends(old(self).walk_state().1, final(self).walk_state().1),
    ;
}

/// `b` starts with `a`.
pub open spec fn extends(a: Seq<usize>, b: Seq<usize>) -> bool {
    a.len() <= b.len() && forall|i: int| 0 <= i < a.len() ==> b[i] == a[i]
}

proof fn lemma_unvisited_mono(n: nat, a: Seq<usize>, b: Seq<usize>)
    requires
        forall|x: usize| a.contains(x) ==> b.contains(x),
    ensures
        unvisited(n, b) <= unvisited(n, a),
    decreases n,
{
    if n > 0 {
        lemma_unvisited_mono((n - 1) as nat, a, b);
    }
}

/// A walk that only appends to the visited variables leaves no more of
/// them unvisited.
proof fn lemma_left_extends(env: ProgramModel, a: Seq<usize>, b: Seq<usize>)
    requires
        extends(a, b),
    ensures
        unvisited(env.variables.len(), b) <= unvisited(env.variables.len(), a),
{
    assert forall|x: usize| a.contains(x) implies b.contains(x) by {
        let i = choose|i: int| 0 <= i < a.len() && a[i] == x;
        assert(b[i] == x);
    }
    lemma_unvisited_mono(env.variables.len(), a, b);
}

/// Visiting a variable that was not visited leaves one fewer unvisited.
pub proof fn lemma_unvisited_push(n: nat, a: Seq<usize>, x: usize)
    requires
        x < n,
        n <= usize::MAX + 1,
        !a.contains(x),
    ensures
        unvisited(n, a.push(x)) < unvisited(n, a),
    decreases n,
{
    let b = a.push(x);
    assert(b[a.len() as int] == x);
    assert forall|y: usize| a.contains(y) implies b.contains(y) by {
        let i = choose|i: int| 0 <= i < a.len() && a[i] == y;
        assert(b[i] == y);
    }
    assert forall|y: usize| b.contains(y) && y != x implies a.contains(y) by {
        let i = choose|i: int| 0 <= i < b.len() && b[i] == y;
        assert(a[i] == y);
    }
    let m = (n - 1) as nat;
    if m as usize == x {
        lemma_unvisited_mono(m, a, b);
    } else {
        lemma_unvisited_push(m, a, x);
    }
}

impl TyUnifier {
    /// The walker's state: the accumulated type and the visited variables.
    pub open spec fn state(&self) -> (Ty, Seq<usize>) {
        (self.ty, self.visited@)
    }

    /// A walker seeded with `ty` that has visited nothing.
    pub fn new(ty: Ty) -> (r: TyUnifier)
        ensures
            r.state() == (ty, Seq::<usize>::empty()),
    {
        TyUnifier { ty, visited: Vec::new() }
    }

    /// Expands variable `idx` unless it was expanded before, resolving
    /// parameters within `fuel` levels of nesting.
    pub fn walk_ident_within(&mut self, idx: usize, env: &Program, fuel: u64)
        ensures
            final(self).state() == walk_ident(env@, old(self).state(), idx, fuel as nat),
            extends(old(self).visited@, final(self).visited@),
        decreases fuel, 1nat, left(env@, self.state()), 0nat, 0nat,
    {
        if holds(&self.visited, idx) || !env.is_declared(idx) {
            return;
        }
        let n = env.len();
        let ghost st0 = self.state();
        self.visited.push(idx);
        let ghost st1 = self.state();
        proof {
            lemma_unvisited_push(n as nat, st0.1, idx);
        }
        let items = env.unified_items(idx);
        assert(items@.subrange(0, items@.len() as int) =~= items@);
        let mut k: usize = 0;
        while k < items.len()
            invariant
                k <= items@.len(),
                extends(st1.1, self.visited@),
                left(env@, self.state()) <= left(env@, st1),
                left(env@, st1) < left(env@, st0),
                st0 == old(self).state(),
                walk_items(env@, self.state(), items@.subrange(k as int, items@.len() as int), fuel as nat)
                    == walk_items(env@, st1, items@, fuel as nat),
            decreases items@.len() - k,
        {
            let ghost cur = self.state();
            let ghost rest = items@.subrange(k as int, items@.len() as int);
            assert(rest.drop_first() =~= items@.subrange(k + 1, items@.len() as int));
            assert(rest[0] == items@[k as int]);
            let target = edge_target_of(&items[k]);
            self.walk_ref_within(&target, env, fuel);
            proof {
                lemma_left_extends(env@, cur.1, self.visited@);
            }
            k += 1;
        }
        assert(items@.subrange(items@.len() as int, items@.len() as int) =~= Seq::<(ConstraintKind, Ref)>::empty());
        self.walk_ty_within(env.declared_type(idx), env, fuel);
    }

    /// Folds what `r` stands for into the accumulated type, resolving
    /// parameters within `fuel` levels of nesting.
    pub fn walk_ref_within(&mut self, r: &Ref, env: &Program, fuel: u64)
        ensures
            final(self).state() == walk_ref(env@, old(self).state(), *r, fuel as nat),
            extends(old(self).visited@, final(self).visited@),
        decreases fuel, 1nat, left(env@, self.state()), 2nat, 0nat,
    {
        match r {
            Ref::Ty(t) => self.walk_ty_within(t, env, fuel),
            Ref::Ident(idx) => self.walk_ident_within(*idx, env, fuel),
        }
    }

    /// Folds `t` into the accumulated type; a parameter is walked as the
    /// variable it refers to.
    pub fn walk_ty_within(&mut self, t: &Ty, env: &Program, fuel: u64)
        ensures
            final(self).state() == walk_ty(env@, old(self).state(), *t, fuel as nat),
            extends(old(self).visited@, final(self).visited@),
        decreases fuel, 1nat, left(env@, self.state()), 1nat, 0nat,
    {
        match &t.kind {
            TyKind::Param(li) => {
                match li {
                    LowerableIdent::Idx(p) => self.walk_ident_within(*p, env, fuel),
                    LowerableIdent::Ident(_) => {},
                }
            },
            _ => {
                self.ty = self.ty.unify_within(t, env, fuel);
            },
        }
    }
}

impl Visitor for TyUnifier {
    open spec fn walk_state(&self) -> (Ty, Seq<usize>) {
        self.state()
    }

    fn walk_ref(&mut self, r: &Ref, env: &Program) {
        self.walk_ref_within(r, env, MAX_DEPTH)
    }

    fn walk_ty(&mut self, ty: &Ty, env: &Program) {
        self.walk_ty_within(ty, env, MAX_DEPTH)
    }
}

/// A collapsed enum branch, with the enum's own refinement merged in.
fn kept_own(r: Ty, own: &Constraint) -> (t: Ty)
    ensures
        t == keep_own(r, *own),
{
    if matches!(r.kind, TyKind::Never) {
        r
    } else {
        let Ty { kind, constraints } = r;
        refined(kind, &constraints, own)
    }
}

impl Program {
    /// The effective type of variable `p`, resolving parameters within
    /// `fuel` levels of nesting.
    pub fn resolve_within(&self, p: usize, fuel: u64) -> (r: Ty)
        requires
            declared(self@, p),
        ensures
            r == resolve(self@, p, fuel as nat),
        decreases fuel, 2nat, 0nat, 0nat, 0nat,
    {
        let mut walker = TyUnifier::new(self.declared_type(p).duplicate());
        walker.walk_ident_within(p, self, fuel);
        walker.ty
    }
}

impl Ty {
    /// Unifies this type with another, resolving parameters within `fuel`
    /// levels of nesting.
    pub fn unify_within(&self, other: &Self, env: &Program, fuel: u64) -> (r: Self)
        ensures
            r == unify(env@, *self, *other, fuel as nat),
        decreases fuel, 0nat, ty_size(*self) + ty_size(*other), flip(*self, *other), 0nat,
    {
        match (&self.kind, &other.kind) {
            (TyKind::Dynamic, k) => refined(k.duplicate(), &self.constraints, &other.constraints),
            (k, TyKind::Dynamic) => refined(k.duplicate(), &self.constraints, &other.constraints),
            (TyKind::Param(a), TyKind::Param(b)) if a.same(b) => refined(
                self.kind.duplicate(),
                &self.constraints,
                &other.constraints,
            ),
            (TyKind::Param(a), _) => match env.target_of(a) {
                Some(p) => {
                    if fuel == 0 {
                        Ty::none()
                    } else {
                        let resolved = env.resolve_within(p, fuel - 1);
                        resolved.unify_within(other, env, fuel - 1)
                    }
                },
                None => Ty::none(),
            },
            (_, TyKind::Param(b)) => match env.target_of(b) {
                Some(p) => {
                    if fuel == 0 {
                        Ty::none()
                    } else {
                        let resolved = env.resolve_within(p, fuel - 1);
                        self.unify_within(&resolved, env, fuel - 1)
                    }
                },
                None => Ty::none(),
            },
            (TyKind::Enum(l, r), _) => {
                let a = Ty::unify_within(l, other, env, fuel);
                let b = Ty::unify_within(r, other, env, fuel);
                if matches!(b.kind, TyKind::Never) {
                    kept_own(a, &self.constraints)
                } else if matches!(a.kind, TyKind::Never) {
                    kept_own(b, &self.constraints)
                } else if a.same(&b) {
                    kept_own(a, &self.constraints)
                } else {
                    refined(TyKind::Enum(Box::new(a), Box::new(b)), &self.constraints, &other.constraints)
                }
            },
            (_, TyKind::Enum(_, _)) => other.unify_within(self, env, fuel),
            (TyKind::Tuple(l, r), TyKind::Tuple(a, b)) => {
                let lt = Ty::unify_within(l, a, env, fuel);
                let rt = Ty::unify_within(r, b, env, fuel);
                refined(TyKind::Tuple(Box::new(lt), Box::new(rt)), &self.constraints, &other.constraints)
            },
            (TyKind::Tuple(_, _), _) | (_, TyKind::Tuple(_, _)) => Ty::none(),
            _ => {
                if self.kind.same(&other.kind) {
                    refined(self.kind.duplicate(), &self.constraints, &other.constraints)
                } else {
                    Ty::none()
                }
            },
        }
    }

    /// Unifies this type with another: the most specific type consistent
    /// with both, `Never` where none is.
    pub fn unify(&self, other: &Self, env: &Program) -> (r: Self)
        ensures
            r == unify(env@, *self, *other, MAX_DEPTH as nat),
    {
        self.unify_within(other, env, MAX_DEPTH)
    }
}

/// An operand of a constraint.
#[derive(Debug, Clone)]
pub enum LiteralOrIdent {
    Ident(Ident),
    Literal(Literal),
}

/// A statement of a program.
#[derive(Debug)]
pub enum Statement {
    /// Declares a variable with a type expression.
    Variable(Ident, Ty),
    /// States a relation between two operands.
    Constrain(ConstraintKind, LiteralOrIdent, LiteralOrIdent),
    /// Asks for the type of a variable.
    Possible(Ident),
}

/// Why a statement was refused.
#[derive(Debug, Clone)]
pub enum LowerError {
    /// An operand names no declared variable.
    UnboundVariable(Ident),
    /// A type parameter names no variable declared before it.
    UndefinedTypeParameter(Ident),
    /// A relation between two literals is false.
    ContradictoryLiterals,
}

/// A type expression whose parameters are all still names.
pub open spec fn unlowered_ty(t: Ty) -> bool
    decreases t, 1nat,
{
    unlowered_kind(t.kind)
}

pub open spec fn unlowered_kind(k: TyKind) -> bool
    decreases k, 0nat,
{
    match k {
        TyKind::Param(li) => li is Ident,
        TyKind::Tuple(l, r) => unlowered_ty(*l) && unlowered_ty(*r),
        TyKind::Enum(l, r) => unlowered_ty(*l) && unlowered_ty(*r),
        _ => true,
    }
}

/// The type expression with each parameter name replaced by the index of
/// the most recent variable of that name; the first name, left to right, that no
/// variable carries is an error.
pub open spec fn lower_ty(vars: Seq<(Ident, usize)>, t: Ty) -> Result<Ty, LowerError>
    decreases t, 1nat,
{
    match lower_kind(vars, t.kind) {
        Ok(k) => Ok(Ty { kind: k, constraints: t.constraints }),
        Err(e) => Err(e),
    }
}

pub open spec fn lower_kind(vars: Seq<(Ident, usize)>, k: TyKind) -> Result<TyKind, LowerError>
    decreases k, 0nat,
{
    match k {
        TyKind::Param(li) => match li {
            LowerableIdent::Ident(id) => match last_named(vars, id, vars.len()) {
                Some(i) => Ok(TyKind::Param(LowerableIdent::Idx(i))),
                None => Err(LowerError::UndefinedTypeParameter(id)),
            },
            LowerableIdent::Idx(_) => Ok(k),
        },
        TyKind::Tuple(l, r) => match lower_ty(vars, *l) {
            Ok(a) => match lower_ty(vars, *r) {
                Ok(b) => Ok(TyKind::Tuple(Box::new(a), Box::new(b))),
                Err(e) => Err(e),
            },
            Err(e) => Err(e),
        },
        TyKind::Enum(l, r) => match lower_ty(vars, *l) {
            Ok(a) => match lower_ty(vars, *r) {
                Ok(b) => Ok(TyKind::Enum(Box::new(a), Box::new(b))),
                Err(e) => Err(e),
            },
            Err(e) => Err(e),
        },
        _ => Ok(k),
    }
}

/// The graph endpoint an operand stands for.
pub open spec fn reify_spec(env: ProgramModel, v: LiteralOrIdent) -> Result<Ref, LowerError> {
    match v {
        LiteralOrIdent::Ident(id) => match position_of(env, id) {
            Some(i) => Ok(Ref::Ident(i)),
            None => Err(LowerError::UnboundVariable(id)),
        },
        LiteralOrIdent::Literal(l) => Ok(
            Ref::Ty(Box::new(Ty { kind: l.spec_kind(), constraints: Constraint::Eq(l) })),
        ),
    }
}

/// The environment after declaring `id` with the (lowered) type `t`.
pub open spec fn declare(env: ProgramModel, id: Ident, t: Ty) -> ProgramModel {
    ProgramModel {
        variables: env.variables.push((id, env.type_values.len() as usize)),
        type_values: env.type_values.push(t),
        ..env
    }
}

/// The environment after stating relation `c` between `l` and `r`: two
/// literals are decided at once and leave the graph as it is; otherwise
/// both operands are reified and the edge is appended.
pub open spec fn constrain(
    env: ProgramModel,
    c: ConstraintKind,
    l: LiteralOrIdent,
    r: LiteralOrIdent,
) -> Result<ProgramModel, LowerError> {
    if l is Literal && r is Literal {
        if (c is Eq) == lit_eq(l->Literal_0, r->Literal_0) {
            Ok(env)
        } else {
            Err(LowerError::ContradictoryLiterals)
        }
    } else {
        match reify_spec(env, l) {
            Ok(lr) => match reify_spec(env, r) {
                Ok(rr) => Ok(ProgramModel { constraints: env.constraints.push((c, lr, rr)), ..env }),
                Err(e) => Err(e),
            },
            Err(e) => Err(e),
        }
    }
}

/// The line a query on `id` answers: the name, ` : `, and the text of its type.
pub open spec fn query_text(env: ProgramModel, id: Ident) -> Seq<char> {
    id.0@ + " : "@ + render_spec(env, satisfied(env, id))
}

/// Every parameter in `t` is resolved, to a variable index below `n`.
pub open spec fn params_below(t: Ty, n: nat) -> bool
    decreases t, 1nat,
{
    kind_params_below(t.kind, n)
}

pub open spec fn kind_params_below(k: TyKind, n: nat) -> bool
    decreases k, 0nat,
{
    match k {
        TyKind::Param(li) => li matches LowerableIdent::Idx(i) && i < n,
        TyKind::Tuple(l, r) => params_below(*l, n) && params_below(*r, n),
        TyKind::Enum(l, r) => params_below(*l, n) && params_below(*r, n),
        _ => true,
    }
}

/// An endpoint is one of the first `n` variables, or the type of a literal.
pub open spec fn endpoint_ok(r: Ref, n: nat) -> bool {
    match r {
        Ref::Ident(j) => j < n,
        Ref::Ty(t) => t.constraints matches Constraint::Eq(l) && t.kind == l.spec_kind(),
    }
}

/// An edge between declared variables or literals, not between two literals.
pub open spec fn edge_ok(e: Edge, n: nat) -> bool {
    endpoint_ok(e.1, n) && endpoint_ok(e.2, n) && !(e.1 is Ty && e.2 is Ty)
}

/// The environment's invariant: variable `i` has slot `i`, its declared
/// type refers only to variables declared before it, and every edge joins
/// declared variables or a declared variable and a literal.
pub open spec fn wf_model(env: ProgramModel) -> bool {
    &&& env.variables.len() == env.type_values.len()
    &&& forall|i: int| 0 <= i < env.variables.len() ==> (#[trigger] env.variables[i]).1 == i
    &&& forall|i: int|
        0 <= i < env.type_values.len() ==> params_below(#[trigger] env.type_values[i], i as nat)
    &&& forall|k: int|
        0 <= k < env.constraints.len() ==> edge_ok(#[trigger] env.constraints[k], env.variables.len())
}

proof fn lemma_last_named_below(vars: Seq<(Ident, usize)>, name: Ident, n: nat)
    ensures
        last_named(vars, name, n) matches Some(k) ==> k < n,
    decreases n,
{
    if n > 0 {
        lemma_last_named_below(vars, name, (n - 1) as nat);
    }
}

proof fn lemma_lower_params(vars: Seq<(Ident, usize)>, t: Ty)
    requires
        unlowered_ty(t),
    ensures
        lower_ty(vars, t) matches Ok(lt) ==> params_below(lt, vars.len()),
    decreases t,
{
    match t.kind {
        TyKind::Param(li) => {
            lemma_last_named_below(vars, li->Ident_0, vars.len());
        },
        TyKind::Tuple(l, r) => {
            lemma_lower_params(vars, *l);
            lemma_lower_params(vars, *r);
        },
        TyKind::Enum(l, r) => {
            lemma_lower_params(vars, *l);
            lemma_lower_params(vars, *r);
        },
        _ => {},
    }
}

/// Declaring a variable keeps the invariant.
proof fn lemma_declare_wf(env: ProgramModel, id: Ident, t: Ty)
    requires
        wf_model(env),
        params_below(t, env.variables.len()),
        env.type_values.len() <= usize::MAX,
    ensures
        wf_model(declare(env, id, t)),
{
    let env2 = declare(env, id, t);
    let n = env.variables.len();
    assert forall|i: int| 0 <= i < env2.variables.len() implies (#[trigger] env2.variables[i]).1 == i by {
        if i < n {
            assert(env2.variables[i] == env.variables[i]);
        }
    }
    assert forall|i: int| 0 <= i < env2.type_values.len() implies params_below(
        #[trigger] env2.type_values[i],
        i as nat,
    ) by {
        if i < n {
            assert(env2.type_values[i] == env.type_values[i]);
        }
    }
    assert forall|k: int| 0 <= k < env2.constraints.len() implies edge_ok(
        #[trigger] env2.constraints[k],
        env2.variables.len(),
    ) by {
        assert(edge_ok(env.constraints[k], n));
    }
}

/// A constraint accepted on a well-formed environment keeps the invariant.
proof fn lemma_constrain_wf(env: ProgramModel, c: ConstraintKind, l: LiteralOrIdent, r: LiteralOrIdent)
    requires
        wf_model(env),
    ensures
        constrain(env, c, l, r) matches Ok(env2) ==> wf_model(env2),
{
    lemma_last_named_below(env.variables, l->Ident_0, env.variables.len());
    lemma_last_named_below(env.variables, r->Ident_0, env.variables.len());
    if let Ok(env2) = constrain(env, c, l, r) {
        if !(l is Literal && r is Literal) {
            assert forall|k: int| 0 <= k < env2.constraints.len() implies edge_ok(
                #[trigger] env2.constraints[k],
                env2.variables.len(),
            ) by {
                if k < env.constraints.len() {
                    assert(env2.constraints[k] == env.constraints[k]);
                }
            }
        }
    }
}

impl LowerableIdent {
    /// Resolves a parameter name to the index of the most recent variable so named.
    pub fn lower(self, env: &Program) -> (r: Result<LowerableIdent, LowerError>)
        requires
            self is Ident,
        ensures
            r == match position_of(env@, self->Ident_0) {
                Some(i) => Ok(LowerableIdent::Idx(i)),
                None => Err(LowerError::UndefinedTypeParameter(self->Ident_0)),
            },
    {
        match self {
            LowerableIdent::Ident(id) => match env.ref_for(id.duplicate()) {
                Some(i) => Ok(LowerableIdent::Idx(i)),
                None => Err(LowerError::UndefinedTypeParameter(id)),
            },
            LowerableIdent::Idx(i) => Ok(LowerableIdent::Idx(i)),
        }
    }
}

impl TyKind {
    /// Resolves every parameter name in the kind.
    pub fn lower(self, env: &Program) -> (r: Result<TyKind, LowerError>)
        requires
            unlowered_kind(self),
        ensures
            r == lower_kind(env@.variables, self),
        decreases self, 0nat,
    {
        match self {
            TyKind::Param(li) => match li.lower(env) {
                Ok(x) => Ok(TyKind::Param(x)),
                Err(e) => Err(e),
            },
            TyKind::Tuple(l, r) => match l.lower(env) {
                Ok(a) => match r.lower(env) {
                    Ok(b) => Ok(TyKind::Tuple(Box::new(a), Box::new(b))),
                    Err(e) => Err(e),
                },
                Err(e) => Err(e),
            },
            TyKind::Enum(l, r) => match l.lower(env) {
                Ok(a) => match r.lower(env) {
                    Ok(b) => Ok(TyKind::Enum(Box::new(a), Box::new(b))),
                    Err(e) => Err(e),
                },
                Err(e) => Err(e),
            },
            TyKind::Dynamic => Ok(TyKind::Dynamic),
            TyKind::Number => Ok(TyKind::Number),
            TyKind::Text => Ok(TyKind::Text),
            TyKind::Bool => Ok(TyKind::Bool),
            TyKind::Never => Ok(TyKind::Never),
        }
    }
}

impl Ty {
    /// Resolves every parameter name in the type.
    pub fn lower(self, env: &Program) -> (r: Result<Ty, LowerError>)
        requires
            unlowered_ty(self),
        ensures
            r == lower_ty(env@.variables, self),
        decreases self, 1nat,
    {
        let Ty { kind, constraints } = self;
        match kind.lower(env) {
            Ok(k) => Ok(Ty { kind: k, constraints }),
            Err(e) => Err(e),
        }
    }
}

impl Program {
    /// An environment with nothing declared.
    pub fn new() -> (r: Program)
        ensures
            wf_model(r@),
            r@.variables.len() == 0,
            r@.constraints.len() == 0,
            r@.type_values.len() == 0,
    {
        Program { variables: Vec::new(), constraints: Vec::new(), type_values: Vec::new() }
    }

    /// The index of the most recently declared variable named `i`.
    pub fn ref_for(&self, i: Ident) -> (r: Option<usize>)
        ensures
            r == position_of(self@, i),
    {
        let mut k: usize = self.variables.len();
        while k > 0
            invariant
                k <= self.variables@.len(),
                last_named(self@.variables, i, k as nat) == position_of(self@, i),
            decreases k,
        {
            if self.variables[k - 1].0.same(&i) {
                return Some(k - 1);
            }
            k -= 1;
        }
        None
    }

    /// The graph endpoint an operand stands for: a declared variable by
    /// index, or a literal as the type holding exactly its value.
    pub fn reify(&mut self, v: LiteralOrIdent) -> (r: Result<Ref, LowerError>)
        ensures
            r == reify_spec(old(self)@, v),
            final(self)@ == old(self)@,
    {
        match v {
            LiteralOrIdent::Ident(v_id) => match self.ref_for(v_id.duplicate()) {
                Some(i) => Ok(Ref::Ident(i)),
                None => Err(LowerError::UnboundVariable(v_id)),
            },
            LiteralOrIdent::Literal(l_val) => Ok(Ref::Ty(Box::new(Ty::from_literal(l_val)))),
        }
    }

    /// The type a query on `of` answers: `Dynamic` for an unbound name,
    /// else the variable's declared type merged with everything reachable
    /// from it through the constraint graph.
    pub fn satisfied_values(&self, of: Ident) -> (r: Ty)
        ensures
            r == satisfied(self@, of),
    {
        match self.ref_for(of) {
            Some(idx) => {
                if self.is_declared(idx) {
                    self.resolve_within(idx, MAX_DEPTH)
                } else {
                    Ty::all()
                }
            },
            None => Ty::all(),
        }
    }

    /// Declares variable `id` with the type expression `ty`.
    pub fn declare(&mut self, id: Ident, ty: Ty) -> (r: Result<(), LowerError>)
        requires
            wf_model(old(self)@),
            unlowered_ty(ty),
        ensures
            wf_model(final(self)@),
            match lower_ty(old(self)@.variables, ty) {
                Ok(t) => r is Ok && final(self)@ == declare(old(self)@, id, t),
                Err(e) => r == Err::<(), LowerError>(e) && final(self)@ == old(self)@,
            },
    {
        proof {
            lemma_lower_params(self@.variables, ty);
        }
        match ty.lower(self) {
            Ok(t) => {
                let t_idx = self.type_values.len();
                proof {
                    lemma_declare_wf(self@, id, t);
                }
                self.type_values.push(t);
                self.variables.push((id, t_idx));
                Ok(())
            },
            Err(e) => Err(e),
        }
    }

    /// States relation `c` between two operands.
    pub fn constrain(&mut self, c: ConstraintKind, l: LiteralOrIdent, r: LiteralOrIdent) -> (res: Result<
        (),
        LowerError,
    >)
        requires
            wf_model(old(self)@),
        ensures
            wf_model(final(self)@),
            match constrain(old(self)@, c, l, r) {
                Ok(env) => res is Ok && final(self)@ == env,
                Err(e) => res == Err::<(), LowerError>(e) && final(self)@ == old(self)@,
            },
    {
        proof {
            lemma_constrain_wf(self@, c, l, r);
        }
        match (&l, &r) {
            (LiteralOrIdent::Literal(a), LiteralOrIdent::Literal(b)) => {
                let same = a.same(b);
                if (c == ConstraintKind::Eq) == same {
                    return Ok(());
                } else {
                    return Err(LowerError::ContradictoryLiterals);
                }
            },
            _ => {},
        }
        let lr = match self.reify(l) {
            Ok(x) => x,
            Err(e) => return Err(e),
        };
        let rr = match self.reify(r) {
            Ok(x) => x,
            Err(e) => return Err(e),
        };
        self.constraints.push((c, lr, rr));
        Ok(())
    }
}

impl Program {
    /// A copy of the environment.
    pub fn duplicate(&self) -> (r: Program)
        ensures
            r@ == self@,
    {
        let mut variables: Vec<(Ident, usize)> = Vec::new();
        let mut k: usize = 0;
        while k < self.variables.len()
            invariant
                k <= self.variables@.len(),
                variables@ =~= self.variables@.subrange(0, k as int),
            decreases self.variables@.len() - k,
        {
            let v = &self.variables[k];
            variables.push((v.0.duplicate(), v.1));
            k += 1;
        }
        let mut constraints: Vec<Edge> = Vec::new();
        let mut k: usize = 0;
        while k < self.constraints.len()
            invariant
                k <= self.constraints@.len(),
                constraints@ =~= self.constraints@.subrange(0, k as int),
            decreases self.constraints@.len() - k,
        {
            let e = &self.constraints[k];
            constraints.push((e.0, e.1.duplicate(), e.2.duplicate()));
            k += 1;
        }
        let mut type_values: Vec<Ty> = Vec::new();
        let mut k: usize = 0;
        while k < self.type_values.len()
            invariant
                k <= self.type_values@.len(),
                type_values@ =~= self.type_values@.subrange(0, k as int),
            decreases self.type_values@.len() - k,
        {
            type_values.push(self.type_values[k].duplicate());
            k += 1;
        }
        assert(variables@ =~= self.variables@);
        assert(constraints@ =~= self.constraints@);
        assert(type_values@ =~= self.type_values@);
        Program { variables, constraints, type_values }
    }
}

impl Clone for Program {
    fn clone(&self) -> (r: Program) {
        self.duplicate()
    }
}

impl Default for Program {
    fn default() -> (r: Program)
        ensures
            wf_model(r@),
            r@.variables.len() == 0,
            r@.constraints.len() == 0,
            r@.type_values.len() == 0,
    {
        Program::new()
    }
}

impl Program {
    /// Folds one statement into the environment. A declaration or a
    /// constraint answers `Ok(None)` or the reason it was refused, and a
    /// refused statement leaves the environment as it was; a query answers
    /// its line of text and changes nothing.
    pub fn lower(&mut self, s: Statement) -> (res: Result<Option<String>, LowerError>)
        requires
            wf_model(old(self)@),
            s is Variable ==> unlowered_ty(s->Variable_1),
        ensures
            wf_model(final(self)@),
            match s {
                Statement::Variable(id, t) => match lower_ty(old(self)@.variables, t) {
                    Ok(lt) => res == Ok::<Option<String>, LowerError>(None) && final(self)@ == declare(
                        old(self)@,
                        id,
                        lt,
                    ),
                    Err(e) => res == Err::<Option<String>, LowerError>(e) && final(self)@ == old(self)@,
                },
                Statement::Constrain(c, l, r) => match constrain(old(self)@, c, l, r) {
                    Ok(env) => res == Ok::<Option<String>, LowerError>(None) && final(self)@ == env,
                    Err(e) => res == Err::<Option<String>, LowerError>(e) && final(self)@ == old(self)@,
                },
                Statement::Possible(id) => res matches Ok(Some(line)) && line@ == query_text(old(self)@, id)
                    && final(self)@ == old(self)@,
            },
    {
        match s {
            Statement::Variable(id, ty) => match self.declare(id, ty) {
                Ok(()) => Ok(None),
                Err(e) => Err(e),
            },
            Statement::Constrain(c, l, r) => match self.constrain(c, l, r) {
                Ok(()) => Ok(None),
                Err(e) => Err(e),
            },
            Statement::Possible(id) => {
                let possible_tys = self.satisfied_values(id.duplicate());
                let text = TyAndProgram(possible_tys, self).render();
                let mut line = id.0.clone();
                line.append(" : ");
                line.append(text.as_str());
                Ok(Some(line))
            },
        }
    }
}

} // verus!
