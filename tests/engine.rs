use kanpai::program::{LiteralOrIdent, LowerError, Program, Statement, TyUnifier, Visitor};
use kanpai::render::TyAndProgram;
use kanpai::ty::{Constraint, ConstraintKind, Ident, Literal, LowerableIdent, Ref, Ty, TyKind};

fn id(s: &str) -> Ident {
    Ident(s.to_string())
}

fn num() -> Ty {
    Ty::from(TyKind::Number)
}

fn text() -> Ty {
    Ty::from(TyKind::Text)
}

fn param(s: &str) -> Ty {
    Ty::from(TyKind::Param(LowerableIdent::Ident(id(s))))
}

fn tuple(a: Ty, b: Ty) -> Ty {
    Ty::from(TyKind::Tuple(Box::new(a), Box::new(b)))
}

fn enumeration(a: Ty, b: Ty) -> Ty {
    Ty::from(TyKind::Enum(Box::new(a), Box::new(b)))
}

fn var(p: &mut Program, name: &str, t: Ty) {
    assert!(matches!(p.lower(Statement::Variable(id(name), t)), Ok(None)));
}

fn v(name: &str) -> LiteralOrIdent {
    LiteralOrIdent::Ident(id(name))
}

fn lit_int(n: i32) -> LiteralOrIdent {
    LiteralOrIdent::Literal(Literal::I32(n))
}

fn eq(p: &mut Program, l: LiteralOrIdent, r: LiteralOrIdent) -> Result<Option<String>, LowerError> {
    p.lower(Statement::Constrain(ConstraintKind::Eq, l, r))
}

fn neq(p: &mut Program, l: LiteralOrIdent, r: LiteralOrIdent) -> Result<Option<String>, LowerError> {
    p.lower(Statement::Constrain(ConstraintKind::Neq, l, r))
}

fn query(p: &mut Program, name: &str) -> String {
    match p.lower(Statement::Possible(id(name))) {
        Ok(Some(line)) => line,
        _ => panic!("a query answers a line"),
    }
}

#[test]
fn unconstrained_variable_keeps_declared_type() {
    let mut p = Program::new();
    let t = tuple(num(), tuple(text(), Ty::from(TyKind::Bool)));
    var(&mut p, "x", t.clone());
    var(&mut p, "y", num());
    assert!(matches!(eq(&mut p, v("y"), lit_int(3)), Ok(None)));
    assert_eq!(p.satisfied_values(id("x")), t);
    assert_eq!(query(&mut p, "x"), "x : (Number, (Text, Bool))");
}

#[test]
fn unbound_name_is_dynamic() {
    let mut p = Program::new();
    var(&mut p, "x", num());
    assert_eq!(p.satisfied_values(id("nope")), Ty::all());
    assert_eq!(query(&mut p, "nope"), "nope : *");
}

#[test]
fn number_with_number_is_number() {
    let p = Program::new();
    assert_eq!(num().unify(&num(), &p), num());
    let five = Ty::from_literal(Literal::I32(5));
    assert_eq!(five.unify(&five, &p), five);
}

#[test]
fn dynamic_is_identity() {
    let p = Program::new();
    let cases = vec![
        num(),
        text(),
        Ty::from(TyKind::Bool),
        Ty::none(),
        tuple(num(), text()),
        enumeration(num(), text()),
        Ty::from_literal(Literal::Str("hi".to_string())),
    ];
    for x in cases {
        assert_eq!(Ty::all().unify(&x, &p), x);
        assert_eq!(x.unify(&Ty::all(), &p), x);
    }
}

#[test]
fn number_with_text_is_never() {
    let p = Program::new();
    assert_eq!(num().unify(&text(), &p), Ty::none());
    assert_eq!(text().unify(&Ty::from(TyKind::Bool), &p), Ty::none());
    assert_eq!(tuple(num(), num()).unify(&num(), &p), Ty::none());
}

#[test]
fn contradictory_refinements_are_never() {
    let p = Program::new();
    let one = Ty::from_literal(Literal::I32(1));
    let two = Ty::from_literal(Literal::I32(2));
    let r = one.unify(&two, &p);
    assert!(matches!(r.kind, TyKind::Never));
    assert_eq!(r, Ty::none());
}

#[test]
fn cycle_between_two_dynamics_terminates() {
    let mut p = Program::new();
    var(&mut p, "a", Ty::all());
    var(&mut p, "b", Ty::all());
    assert!(matches!(eq(&mut p, v("a"), v("b")), Ok(None)));
    assert!(matches!(eq(&mut p, v("b"), v("a")), Ok(None)));
    assert_eq!(p.satisfied_values(id("a")), Ty::all());
    assert_eq!(query(&mut p, "a"), "a : *");
    assert_eq!(query(&mut p, "b"), "b : *");
}

#[test]
fn equality_to_literal_renders_refinement() {
    let mut p = Program::new();
    var(&mut p, "x", num());
    var(&mut p, "y", num());
    assert!(matches!(eq(&mut p, v("x"), lit_int(5)), Ok(None)));
    assert_eq!(query(&mut p, "x"), "x : Number where = 5");
    assert_eq!(query(&mut p, "y"), "y : Number");
}

#[test]
fn equality_then_inequality_is_never() {
    let mut p = Program::new();
    var(&mut p, "x", num());
    assert!(matches!(eq(&mut p, v("x"), lit_int(5)), Ok(None)));
    assert!(matches!(neq(&mut p, v("x"), lit_int(5)), Ok(None)));
    assert_eq!(p.satisfied_values(id("x")), Ty::none());
    assert_eq!(query(&mut p, "x"), "x : !");
}

#[test]
fn unified_tuples_stay_tuples() {
    let mut p = Program::new();
    var(&mut p, "a", tuple(num(), text()));
    var(&mut p, "b", tuple(num(), text()));
    assert!(matches!(eq(&mut p, v("a"), v("b")), Ok(None)));
    assert_eq!(p.satisfied_values(id("a")), tuple(num(), text()));
    assert_eq!(query(&mut p, "a"), "a : (Number, Text)");
}

#[test]
fn enum_collapses_to_matching_branch() {
    let mut p = Program::new();
    var(&mut p, "a", enumeration(num(), text()));
    let hello = LiteralOrIdent::Literal(Literal::Str("hello".to_string()));
    assert!(matches!(eq(&mut p, v("a"), hello), Ok(None)));
    assert_eq!(
        p.satisfied_values(id("a")),
        Ty::from_literal(Literal::Str("hello".to_string()))
    );
    assert_eq!(query(&mut p, "a"), "a : Text where = \"hello\"");
}

#[test]
fn redeclaring_rendered_ground_type_round_trips() {
    let mut p = Program::new();
    var(&mut p, "x", tuple(num(), Ty::from(TyKind::Bool)));
    let resolved = p.satisfied_values(id("x"));
    let first = TyAndProgram(resolved.clone(), &p).render();
    var(&mut p, "y", resolved.clone());
    assert_eq!(p.satisfied_values(id("y")), resolved);
    let again = TyAndProgram(p.satisfied_values(id("y")), &p).render();
    assert_eq!(first, again);
    assert_eq!(again, "(Number, Bool)");
}

#[test]
fn enum_declared_type_renders_both_branches() {
    let mut p = Program::new();
    var(&mut p, "e", enumeration(num(), text()));
    assert_eq!(query(&mut p, "e"), "e : Number | Text");
}

#[test]
fn parameter_resolves_through_graph() {
    let mut p = Program::new();
    var(&mut p, "a", num());
    var(&mut p, "b", param("a"));
    assert!(matches!(eq(&mut p, v("a"), lit_int(7)), Ok(None)));
    assert_eq!(query(&mut p, "b"), "b : Number where = 7");
}

#[test]
fn parameter_inside_tuple_renders_name_and_type() {
    let mut p = Program::new();
    var(&mut p, "a", num());
    var(&mut p, "c", tuple(param("a"), text()));
    assert_eq!(query(&mut p, "c"), "c : (<a: Number>, Text)");
}

#[test]
fn parameter_meets_conflicting_kind() {
    let mut p = Program::new();
    var(&mut p, "a", text());
    var(&mut p, "b", param("a"));
    var(&mut p, "c", num());
    assert!(matches!(eq(&mut p, v("b"), v("c")), Ok(None)));
    assert_eq!(query(&mut p, "c"), "c : !");
}

#[test]
fn negative_and_boolean_literals_render() {
    let mut p = Program::new();
    var(&mut p, "x", num());
    var(&mut p, "f", Ty::from(TyKind::Bool));
    var(&mut p, "m", num());
    assert!(matches!(eq(&mut p, v("x"), lit_int(-120)), Ok(None)));
    assert!(matches!(
        eq(&mut p, v("f"), LiteralOrIdent::Literal(Literal::Bool(true))),
        Ok(None)
    ));
    assert!(matches!(eq(&mut p, v("m"), lit_int(i32::MIN)), Ok(None)));
    assert_eq!(query(&mut p, "x"), "x : Number where = -120");
    assert_eq!(query(&mut p, "f"), "f : Bool where = true");
    assert_eq!(query(&mut p, "m"), "m : Number where = -2147483648");
}

#[test]
fn inequality_to_literal_renders() {
    let mut p = Program::new();
    var(&mut p, "x", num());
    assert!(matches!(neq(&mut p, v("x"), lit_int(3)), Ok(None)));
    assert_eq!(query(&mut p, "x"), "x : Number where != 3");
}

#[test]
fn two_different_inequalities_are_refused() {
    let mut p = Program::new();
    var(&mut p, "x", num());
    assert!(matches!(neq(&mut p, v("x"), lit_int(1)), Ok(None)));
    assert!(matches!(neq(&mut p, v("x"), lit_int(2)), Ok(None)));
    assert_eq!(query(&mut p, "x"), "x : !");
}

#[test]
fn unbound_variable_in_constraint_is_an_error() {
    let mut p = Program::new();
    var(&mut p, "x", num());
    match eq(&mut p, v("x"), v("ghost")) {
        Err(LowerError::UnboundVariable(name)) => assert_eq!(name, id("ghost")),
        _ => panic!("expected an unbound variable"),
    }
    assert!(p.unified_items(0).is_empty());
}

#[test]
fn undefined_type_parameter_is_an_error() {
    let mut p = Program::new();
    let r = p.lower(Statement::Variable(id("a"), tuple(num(), param("later"))));
    match r {
        Err(LowerError::UndefinedTypeParameter(name)) => assert_eq!(name, id("later")),
        _ => panic!("expected an undefined type parameter"),
    }
    assert_eq!(p.len(), 0);
    var(&mut p, "later", num());
    assert_eq!(p.len(), 1);
}

#[test]
fn self_reference_in_declaration_is_an_error() {
    let mut p = Program::new();
    let r = p.lower(Statement::Variable(id("a"), param("a")));
    assert!(matches!(r, Err(LowerError::UndefinedTypeParameter(_))));
}

#[test]
fn literal_constraints_are_decided_at_once() {
    let mut p = Program::new();
    assert!(matches!(eq(&mut p, lit_int(1), lit_int(1)), Ok(None)));
    assert!(matches!(eq(&mut p, lit_int(1), lit_int(2)), Err(LowerError::ContradictoryLiterals)));
    assert!(matches!(neq(&mut p, lit_int(1), lit_int(2)), Ok(None)));
    assert!(matches!(neq(&mut p, lit_int(1), lit_int(1)), Err(LowerError::ContradictoryLiterals)));
    let s = LiteralOrIdent::Literal(Literal::Str("a".to_string()));
    assert!(matches!(eq(&mut p, s, lit_int(1)), Err(LowerError::ContradictoryLiterals)));
}

#[test]
fn constraint_merge_rules() {
    let one = Literal::I32(1);
    let two = Literal::I32(2);
    let e1 = Constraint::Eq(one.clone());
    let n1 = Constraint::Neq(one.clone());
    let e2 = Constraint::Eq(two.clone());
    let n2 = Constraint::Neq(two.clone());
    assert!(matches!(Constraint::Unrefined.unify(&e1), Ok(Constraint::Eq(Literal::I32(1)))));
    assert!(matches!(n1.unify(&Constraint::Unrefined), Ok(Constraint::Neq(Literal::I32(1)))));
    assert!(matches!(e1.unify(&e1), Ok(Constraint::Eq(Literal::I32(1)))));
    assert!(e1.unify(&e2).is_err());
    assert!(matches!(n1.unify(&n1), Ok(Constraint::Neq(Literal::I32(1)))));
    assert!(n1.unify(&n2).is_err());
    assert!(e1.unify(&n1).is_err());
    assert!(n1.unify(&e1).is_err());
    assert!(matches!(e2.unify(&n1), Ok(Constraint::Eq(Literal::I32(2)))));
    assert!(matches!(n1.unify(&e2), Ok(Constraint::Eq(Literal::I32(2)))));
    assert_eq!(e1.render(), "= 1");
    assert_eq!(n2.render(), "!= 2");
}

#[test]
fn literal_kinds() {
    assert!(matches!(Literal::I32(0).kind(), TyKind::Number));
    assert!(matches!(Literal::Str(String::new()).kind(), TyKind::Text));
    assert!(matches!(Literal::Bool(false).kind(), TyKind::Bool));
    let t = Ty::from_literal(Literal::Bool(false));
    assert!(matches!(t.constraints, Constraint::Eq(Literal::Bool(false))));
}

#[test]
fn reference_lookup_and_graph_edges() {
    let mut p = Program::new();
    var(&mut p, "x", num());
    var(&mut p, "y", num());
    var(&mut p, "x", text());
    assert_eq!(p.ref_for(id("x")), Some(2));
    assert!(matches!(p.reify(v("x")), Ok(Ref::Ident(2))));
    assert_eq!(p.ref_for(id("y")), Some(1));
    assert_eq!(p.ref_for(id("z")), None);
    assert!(matches!(p.reify(v("y")), Ok(Ref::Ident(1))));
    assert!(matches!(eq(&mut p, v("y"), v("x")), Ok(None)));
    assert!(matches!(neq(&mut p, lit_int(4), v("y")), Ok(None)));
    let items = p.unified_items(1);
    assert_eq!(items.len(), 2);
    assert!(matches!(items[0], (ConstraintKind::Eq, Ref::Ident(2))));
    assert!(matches!(&items[1], (ConstraintKind::Neq, Ref::Ty(_))));
    assert_eq!(p.unified_items(0).len(), 0);
    assert_eq!(p.unified_items(2).len(), 1);
}

#[test]
fn lowering_resolves_parameter_names() {
    let mut p = Program::new();
    var(&mut p, "a", num());
    let lowered = tuple(param("a"), num()).lower(&p);
    let expected = tuple(Ty::from(TyKind::Param(LowerableIdent::Idx(0))), num());
    assert_eq!(lowered.ok(), Some(expected));
    assert!(matches!(LowerableIdent::Ident(id("a")).lower(&p), Ok(LowerableIdent::Idx(0))));
    assert!(matches!(LowerableIdent::Idx(3).unwrap(), 3));
}

#[test]
fn walker_visits_each_variable_once() {
    let mut p = Program::new();
    var(&mut p, "a", num());
    var(&mut p, "b", Ty::all());
    assert!(matches!(eq(&mut p, v("a"), v("b")), Ok(None)));
    assert!(matches!(eq(&mut p, v("b"), lit_int(2)), Ok(None)));
    let mut w = TyUnifier::new(Ty::all());
    w.walk_ref(&Ref::Ident(0), &p);
    assert_eq!(w.ty, Ty::from_literal(Literal::I32(2)));
    assert_eq!(w.visited, vec![0, 1]);
    let before = w.ty.clone();
    w.walk_ref(&Ref::Ident(1), &p);
    assert_eq!(w.ty, before);
    w.walk_ty(&text(), &p);
    assert_eq!(w.ty, Ty::none());
}

#[test]
fn default_program_is_empty() {
    let p = Program::default();
    assert_eq!(p.len(), 0);
}

#[test]
fn enum_with_equal_branches_collapses() {
    let mut p = Program::new();
    var(&mut p, "e", enumeration(num(), num()));
    assert_eq!(p.satisfied_values(id("e")), num());
    assert_eq!(query(&mut p, "e"), "e : Number");
}

#[test]
fn cloned_program_answers_alike() {
    let mut p = Program::new();
    var(&mut p, "x", num());
    assert!(matches!(eq(&mut p, v("x"), lit_int(9)), Ok(None)));
    let mut q = p.clone();
    assert_eq!(query(&mut q, "x"), query(&mut p, "x"));
}

#[test]
fn tuple_component_mismatch_stays_a_tuple() {
    let p = Program::new();
    let r = tuple(num(), text()).unify(&tuple(num(), num()), &p);
    assert_eq!(r, tuple(num(), Ty::none()));
    assert_eq!(TyAndProgram(r, &p).render(), "(Number, !)");
}

#[test]
fn long_chain_is_resolved_completely() {
    let mut p = Program::new();
    let n = 600;
    for i in 0..n {
        var(&mut p, &format!("v{}", i), Ty::all());
    }
    for i in 0..n - 1 {
        let a = format!("v{}", i);
        let b = format!("v{}", i + 1);
        assert!(matches!(eq(&mut p, v(&a), v(&b)), Ok(None)));
    }
    let last = format!("v{}", n - 1);
    assert!(matches!(eq(&mut p, v(&last), lit_int(5)), Ok(None)));
    assert_eq!(query(&mut p, "v0"), "v0 : Number where = 5");
}

#[test]
fn collapsed_enum_keeps_its_own_refinement() {
    let p = Program::new();
    let mut e = enumeration(num(), text());
    e.constraints = Constraint::Eq(Literal::I32(1));
    let two = Ty::from_literal(Literal::I32(2));
    assert_eq!(e.unify(&two, &p), Ty::none());
    let one = Ty::from_literal(Literal::I32(1));
    assert_eq!(e.unify(&one, &p), one);
}
