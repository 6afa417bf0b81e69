//! Properties of unification and resolution, proved over the model.
use vstd::prelude::*;
use crate::program::{
    declare, declared, declared_ty, lower_ty, neighbor, neighbors,
    position_of, resolve, satisfied, unify, walk_ident, walk_items, walk_ref, walk_ty, extends, left, edge_target, lemma_unvisited_push, wf_model, edge_ok, Edge,
    ProgramModel, MAX_DEPTH,
};
use crate::render::{kind_text, render_spec, ty_text};
use crate::ty::{
    all_spec, constraint_unify, ident_eq, kind_eq, none_spec, Constraint, ConstraintKind,
    Ident, Ref, Ty, TyKind,
};

verus! {

/// A type built from ground kinds, `Dynamic`, `Never` and tuples only: no
/// parameter and no enum anywhere in it.
pub open spec fn plain_ty(t: Ty) -> bool
    decreases t, 1nat,
{
    plain_kind(t.kind)
}

pub open spec fn plain_kind(k: TyKind) -> bool
    decreases k, 0nat,
{
    match k {
        TyKind::Param(_) => false,
        TyKind::Enum(_, _) => false,
        TyKind::Tuple(l, r) => plain_ty(*l) && plain_ty(*r),
        _ => true,
    }
}

/// A ground kind: `Number`, `Text`, `Bool`, or `Never`.
pub open spec fn ground(k: TyKind) -> bool {
    k is Number || k is Text || k is Bool || k is Never
}

/// No edge of the graph has variable `v` as an endpoint.
pub open spec fn unconstrained(env: ProgramModel, v: usize) -> bool {
    forall|k: int| 0 <= k < env.constraints.len() ==> #[trigger] neighbor(env.constraints[k], v) is None
}

proof fn lemma_constraint_self(c: Constraint)
    ensures
        constraint_unify(c, c) == Some(c),
{
}

proof fn lemma_no_neighbors(cs: Seq<Edge>, v: usize, n: nat)
    requires
        n <= cs.len(),
        forall|k: int| 0 <= k < n ==> #[trigger] neighbor(cs[k], v) is None,
    ensures
        neighbors(cs, v, n) == Seq::<(ConstraintKind, Ref)>::empty(),
    decreases n,
{
    if n > 0 {
        lemma_no_neighbors(cs, v, (n - 1) as nat);
    }
}

/// A plain type unifies with itself to itself.
pub proof fn lemma_unify_plain_self(env: ProgramModel, t: Ty, fuel: nat)
    requires
        plain_ty(t),
    ensures
        unify(env, t, t, fuel) == t,
    decreases t,
{
    lemma_constraint_self(t.constraints);
    match t.kind {
        TyKind::Tuple(l, r) => {
            lemma_unify_plain_self(env, *l, fuel);
            lemma_unify_plain_self(env, *r, fuel);
        },
        _ => {},
    }
}

/// A variable that no constraint mentions, declared with a plain type,
/// resolves to its declared type unchanged.
pub proof fn lemma_unconstrained_resolves_to_declared(env: ProgramModel, v: usize)
    requires
        declared(env, v),
        env.variables.len() <= usize::MAX,
        plain_ty(declared_ty(env, v)),
        unconstrained(env, v),
    ensures
        resolve(env, v, MAX_DEPTH as nat) == declared_ty(env, v),
{
    let t = declared_ty(env, v);
    let f = MAX_DEPTH as nat;
    lemma_no_neighbors(env.constraints, v, env.constraints.len());
    let st0 = (t, Seq::<usize>::empty());
    let st1 = (t, Seq::<usize>::empty().push(v));
    assert(!st0.1.contains(v));
    lemma_unvisited_push(env.variables.len(), st0.1, v);
    assert(walk_items(env, st1, Seq::empty(), f) == st1);
    lemma_unify_plain_self(env, t, f);
    assert(walk_ty(env, st1, t, f) == (t, st1.1));
    assert(walk_ident(env, st0, v, f) == (t, st1.1));
}

/// Querying a declared variable that no constraint mentions, declared with
/// a plain type, answers its declared type.
pub proof fn lemma_query_unconstrained(env: ProgramModel, name: Ident)
    requires
        position_of(env, name) is Some,
        env.variables.len() <= usize::MAX,
        declared(env, position_of(env, name)->Some_0),
        plain_ty(declared_ty(env, position_of(env, name)->Some_0)),
        unconstrained(env, position_of(env, name)->Some_0),
    ensures
        satisfied(env, name) == declared_ty(env, position_of(env, name)->Some_0),
{
    lemma_unconstrained_resolves_to_declared(env, position_of(env, name)->Some_0);
}

/// Querying a name that no variable carries answers `Dynamic`, unrefined.
pub proof fn lemma_unbound_is_dynamic(env: ProgramModel, name: Ident)
    requires
        position_of(env, name) is None,
    ensures
        satisfied(env, name) == all_spec(),
{
}

/// A ground type unifies with itself to itself, refinement included.
pub proof fn lemma_ground_idempotent(env: ProgramModel, k: TyKind, c: Constraint, fuel: nat)
    requires
        ground(k),
    ensures
        unify(env, Ty { kind: k, constraints: c }, Ty { kind: k, constraints: c }, fuel) == (Ty {
            kind: k,
            constraints: c,
        }),
{
    lemma_unify_plain_self(env, Ty { kind: k, constraints: c }, fuel);
}

/// `Dynamic` without refinement is the identity of unification, on
/// either side.
pub proof fn lemma_dynamic_identity(env: ProgramModel, x: Ty, fuel: nat)
    ensures
        unify(env, all_spec(), x, fuel) == x,
        unify(env, x, all_spec(), fuel) == x,
{
}

/// Two different ground kinds unify to `Never`, whatever their refinements.
pub proof fn lemma_ground_mismatch(env: ProgramModel, a: Ty, b: Ty, fuel: nat)
    requires
        ground(a.kind),
        ground(b.kind),
        !kind_eq(a.kind, b.kind),
    ensures
        unify(env, a, b, fuel) == none_spec(),
{
}

/// Where neither side is a parameter or an enum, contradictory refinements
/// make the result `Never`, whatever the kinds.
pub proof fn lemma_refinement_conflict(env: ProgramModel, a: Ty, b: Ty, fuel: nat)
    requires
        !(a.kind is Param),
        !(b.kind is Param),
        !(a.kind is Enum),
        !(b.kind is Enum),
        constraint_unify(a.constraints, b.constraints) is None,
    ensures
        unify(env, a, b, fuel) == none_spec(),
{
}

proof fn lemma_lower_plain(vars: Seq<(Ident, usize)>, t: Ty)
    requires
        plain_ty(t),
    ensures
        lower_ty(vars, t) == Ok::<Ty, crate::program::LowerError>(t),
    decreases t,
{
    match t.kind {
        TyKind::Tuple(l, r) => {
            lemma_lower_plain(vars, *l);
            lemma_lower_plain(vars, *r);
        },
        _ => {},
    }
}

proof fn lemma_text_plain(e1: ProgramModel, e2: ProgramModel, t: Ty, b1: nat, b2: nat)
    requires
        plain_ty(t),
    ensures
        ty_text(e1, t, b1) == ty_text(e2, t, b2),
    decreases t,
{
    match t.kind {
        TyKind::Tuple(l, r) => {
            lemma_text_plain(e1, e2, *l, b1, b2);
            lemma_text_plain(e1, e2, *r, b1, b2);
            assert(kind_text(e1, t.kind, b1) == kind_text(e2, t.kind, b2));
        },
        _ => {},
    }
}

/// Declaring a name, new or already used, with a plain type (a type as a
/// query renders it, when it has no parameter and no enum) is accepted
/// unchanged, and a query on the name gives back that type and its text.
pub proof fn lemma_redeclare_round_trip(env: ProgramModel, id: Ident, t: Ty)
    requires
        plain_ty(t),
        wf_model(env),
        env.variables.len() < usize::MAX,
    ensures
        lower_ty(env.variables, t) == Ok::<Ty, crate::program::LowerError>(t),
        satisfied(declare(env, id, t), id) == t,
        render_spec(declare(env, id, t), satisfied(declare(env, id, t), id)) == render_spec(env, t),
{
    lemma_lower_plain(env.variables, t);
    let env2 = declare(env, id, t);
    let n = env.variables.len();
    let x = (id, env.type_values.len() as usize);
    assert(env2.variables[n as int] == x);
    assert(ident_eq(id, id));
    assert(position_of(env2, id) == Some(n as usize));
    assert(declared(env2, n as usize));
    assert(declared_ty(env2, n as usize) == t);
    assert forall|k: int| 0 <= k < env2.constraints.len() implies #[trigger] neighbor(
        env2.constraints[k],
        n as usize,
    ) is None by {
        assert(env.constraints[k] == env2.constraints[k]);
        assert(edge_ok(env.constraints[k], n));
    }
    lemma_unconstrained_resolves_to_declared(env2, n as usize);
    lemma_text_plain(env2, env, t, env2.variables.len(), env.variables.len());
}

/// A variable the walk has already visited is not expanded again: walking
/// it, directly or as a parameter, changes nothing. This is what breaks
/// cycles in the constraint graph.
pub proof fn lemma_visited_not_expanded(env: ProgramModel, st: (Ty, Seq<usize>), i: usize, fuel: nat)
    requires
        st.1.contains(i),
    ensures
        walk_ref(env, st, Ref::Ident(i), fuel) == st,
        walk_ty(
            env,
            st,
            Ty { kind: TyKind::Param(crate::ty::LowerableIdent::Idx(i)), constraints: Constraint::Unrefined },
            fuel,
        ) == st,
{
}

proof fn lemma_ident_extends(env: ProgramModel, st: (Ty, Seq<usize>), idx: usize, fuel: nat)
    requires
        env.variables.len() <= usize::MAX,
    ensures
        extends(st.1, walk_ident(env, st, idx, fuel).1),
        declared(env, idx) ==> walk_ident(env, st, idx, fuel).1.contains(idx),
    decreases fuel, 1nat, left(env, st), 0nat, 0nat,
{
    if st.1.contains(idx) || !declared(env, idx) {
    } else {
        let st1 = (st.0, st.1.push(idx));
        lemma_unvisited_push(env.variables.len(), st.1, idx);
        assert(st1.1[st.1.len() as int] == idx);
        let items = neighbors(env.constraints, idx, env.constraints.len());
        let st2 = walk_items(env, st1, items, fuel);
        lemma_items_extends(env, st1, items, fuel);
        assert(st2.1[st.1.len() as int] == idx);
        if left(env, st2) < left(env, st) {
            lemma_ty_extends(env, st2, declared_ty(env, idx), fuel);
            let st3 = walk_ty(env, st2, declared_ty(env, idx), fuel);
            assert(st3.1[st.1.len() as int] == idx);
        }
    }
}

proof fn lemma_items_extends(
    env: ProgramModel,
    st: (Ty, Seq<usize>),
    items: Seq<(ConstraintKind, Ref)>,
    fuel: nat,
)
    requires
        env.variables.len() <= usize::MAX,
    ensures
        extends(st.1, walk_items(env, st, items, fuel).1),
    decreases fuel, 1nat, left(env, st), 3nat, items.len(),
{
    if items.len() > 0 {
        let st1 = walk_ref(env, st, edge_target(items[0]), fuel);
        lemma_ref_extends(env, st, edge_target(items[0]), fuel);
        if left(env, st1) <= left(env, st) {
            lemma_items_extends(env, st1, items.drop_first(), fuel);
        }
    }
}

proof fn lemma_ref_extends(env: ProgramModel, st: (Ty, Seq<usize>), r: Ref, fuel: nat)
    requires
        env.variables.len() <= usize::MAX,
    ensures
        extends(st.1, walk_ref(env, st, r, fuel).1),
    decreases fuel, 1nat, left(env, st), 2nat, 0nat,
{
    match r {
        Ref::Ty(t) => lemma_ty_extends(env, st, *t, fuel),
        Ref::Ident(idx) => lemma_ident_extends(env, st, idx, fuel),
    }
}

proof fn lemma_ty_extends(env: ProgramModel, st: (Ty, Seq<usize>), t: Ty, fuel: nat)
    requires
        env.variables.len() <= usize::MAX,
    ensures
        extends(st.1, walk_ty(env, st, t, fuel).1),
    decreases fuel, 1nat, left(env, st), 1nat, 0nat,
{
    if t.kind is Param {
        if let crate::ty::LowerableIdent::Idx(p) = t.kind->Param_0 {
            lemma_ident_extends(env, st, p, fuel);
        }
    }
}

/// Walking a declared variable only appends to the visited variables, and
/// afterwards the variable is among them.
pub proof fn lemma_walk_visits(env: ProgramModel, st: (Ty, Seq<usize>), i: usize, fuel: nat)
    requires
        env.variables.len() <= usize::MAX,
        declared(env, i),
    ensures
        extends(st.1, walk_ref(env, st, Ref::Ident(i), fuel).1),
        walk_ref(env, st, Ref::Ident(i), fuel).1.contains(i),
{
    lemma_ident_extends(env, st, i, fuel);
}

/// A parameter has no kind of its own: unifying it with anything but
/// `Dynamic` or the same parameter unifies the variable's effective type
/// instead, with one level less of the nesting budget.
pub proof fn lemma_param_resolves(env: ProgramModel, s: Ty, o: Ty, fuel: nat)
    requires
        s.kind matches TyKind::Param(crate::ty::LowerableIdent::Idx(q)) && declared(env, q),
        !(o.kind is Dynamic),
        !(o.kind is Param && crate::ty::lident_eq(s.kind->Param_0, o.kind->Param_0)),
    ensures
        unify(env, s, o, fuel + 1) == unify(
            env,
            resolve(env, s.kind->Param_0->Idx_0, fuel),
            o,
            fuel,
        ),
{
}

} // verus!
