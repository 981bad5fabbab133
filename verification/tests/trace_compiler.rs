use containerless::trace_compiler::{Assertions, Exp, LVal};

fn number(value: f64) -> Exp {
    Exp::Number { bits: value.to_bits() }
}

fn id(name: &str) -> Exp {
    Exp::Identifier { name: name.to_string() }
}

fn let_(name: &str, named: Exp) -> Exp {
    Exp::Let { name: name.to_string(), named: Box::new(named) }
}

fn block(body: Vec<Exp>) -> Exp {
    Exp::Block { body }
}

fn binop(e1: Exp, e2: Exp) -> Exp {
    Exp::BinOp { op: "+".to_string(), e1: Box::new(e1), e2: Box::new(e2) }
}

#[test]
fn atoms_are_expressions() {
    let checker = Assertions::new();
    assert!(checker.assert_supposed_grammar(&number(1.5)));
    assert!(checker.assert_supposed_grammar(&Exp::Bool { value: true }));
    assert!(checker.assert_supposed_grammar(&id("x")));
    assert!(checker.assert_supposed_grammar(&Exp::Stringg { value: "s".to_string() }));
    assert!(checker.assert_supposed_grammar(&Exp::Undefined {}));
}

#[test]
fn statements_are_not_expressions() {
    let checker = Assertions::new();
    assert!(!checker.assert_supposed_grammar(&Exp::Unknown {}));
    assert!(!checker.assert_supposed_grammar(&let_("x", number(1.0))));
    assert!(!checker.assert_supposed_grammar(&binop(id("x"), let_("y", id("z")))));
    assert!(!checker.assert_supposed_grammar(&Exp::Array { exps: vec![id("a"), Exp::Unknown {}] }));
}

#[test]
fn block_of_statements_is_an_expression() {
    let checker = Assertions::new();
    let body = vec![
        let_("x", number(1.0)),
        Exp::If {
            cond: Box::new(id("x")),
            true_part: vec![Exp::Break { name: "l".to_string(), value: Box::new(id("x")) }],
            false_part: vec![Exp::Unknown {}],
        },
        Exp::While { cond: Box::new(id("x")), body: vec![] },
        Exp::Assign {
            name: LVal::Identifier { name: "x".to_string() },
            named: Box::new(binop(id("x"), number(1.0))),
        },
        Exp::PrimApp { event: "send".to_string(), event_args: vec![id("x")] },
    ];
    assert!(checker.assert_supposed_grammar(&block(body)));
}

#[test]
fn block_with_an_expression_in_statement_place_is_refused() {
    let checker = Assertions::new();
    assert!(!checker.assert_supposed_grammar(&block(vec![let_("x", number(1.0)), id("x")])));
    assert!(!checker.assert_supposed_grammar(&block(vec![let_("x", Exp::Unknown {})])));
}

#[test]
fn objects_closures_and_calls_are_checked_inside() {
    let checker = Assertions::new();
    let good = Exp::Object {
        properties: vec![("a".to_string(), number(1.0)), ("b".to_string(), id("x"))],
    };
    let bad = Exp::Clos { tenv: vec![("a".to_string(), Exp::Unknown {})] };
    assert!(checker.assert_supposed_grammar(&good));
    assert!(!checker.assert_supposed_grammar(&bad));
    let call = Exp::MethodCall {
        e: Box::new(good),
        method: "m".to_string(),
        method_call_args: vec![Exp::Op1 { op: "-".to_string(), e: Box::new(id("x")) }],
    };
    assert!(checker.assert_supposed_grammar(&call));
}

#[test]
fn distinct_names_pass_and_are_remembered() {
    let mut checker = Assertions::new();
    let trace = block(vec![let_("x", number(1.0)), let_("y", id("x"))]);
    assert!(checker.assert_unique_names(&trace));
    assert!(checker.has_seen("x"));
    assert!(checker.has_seen("y"));
    assert!(!checker.has_seen("z"));
}

#[test]
fn repeated_name_is_found() {
    let mut checker = Assertions::new();
    let trace = block(vec![let_("x", number(1.0)), let_("y", id("x")), let_("x", id("y")), let_("z", id("y"))]);
    assert!(!checker.assert_unique_names(&trace));
    assert!(checker.has_seen("x"));
    assert!(checker.has_seen("y"));
    assert!(!checker.has_seen("z"));
}

#[test]
fn names_are_remembered_across_traces() {
    let mut checker = Assertions::new();
    assert!(checker.assert_unique_names(&let_("x", number(1.0))));
    assert!(!checker.assert_unique_names(&let_("x", number(2.0))));
}

#[test]
fn dollar_names_may_repeat_and_are_not_remembered() {
    let mut checker = Assertions::new();
    let trace = block(vec![let_("$tmp", number(1.0)), let_("$tmp", number(2.0))]);
    assert!(checker.assert_unique_names(&trace));
    assert!(!checker.has_seen("$tmp"));
}

#[test]
fn empty_name_is_refused() {
    let mut checker = Assertions::new();
    assert!(!checker.assert_unique_names(&let_("", number(1.0))));
}

#[test]
fn what_a_let_binds_and_conditions_are_not_walked() {
    let mut checker = Assertions::new();
    let hidden = Exp::Index { e1: Box::new(id("a")), e2: Box::new(number(0.0)) };
    assert!(checker.assert_unique_names(&let_("x", hidden)));
    let hidden = Exp::Index { e1: Box::new(id("a")), e2: Box::new(number(0.0)) };
    let trace = Exp::If { cond: Box::new(hidden), true_part: vec![], false_part: vec![] };
    assert!(checker.assert_unique_names(&trace));
}

#[test]
fn kinds_that_the_walk_does_not_know_are_refused() {
    let mut checker = Assertions::new();
    let index = Exp::Index { e1: Box::new(id("a")), e2: Box::new(number(0.0)) };
    assert!(!checker.assert_unique_names(&index));
    assert!(!checker.assert_unique_names(&Exp::Clos { tenv: vec![] }));
    let nested = block(vec![
        let_("kept", number(1.0)),
        Exp::Assign {
            name: LVal::Identifier { name: "kept".to_string() },
            named: Box::new(Exp::Get { exp: Box::new(id("o")), field: "f".to_string() }),
        },
        let_("never", number(1.0)),
    ]);
    assert!(!checker.assert_unique_names(&nested));
    assert!(checker.has_seen("kept"));
    assert!(!checker.has_seen("never"));
}

#[test]
fn callbacks_and_objects_are_walked() {
    let mut checker = Assertions::new();
    let trace = Exp::Callback {
        event: "listen".to_string(),
        event_arg: Box::new(number(1.0)),
        callback_args: vec!["req".to_string()],
        callback_clos: Box::new(Exp::Object { properties: vec![("p".to_string(), block(vec![let_("in_object", id("a"))]))] }),
        body: vec![let_("in_body", id("req")), Exp::Label { name: "l".to_string(), body: vec![let_("in_label", id("req"))] }],
    };
    assert!(checker.assert_unique_names(&trace));
    assert!(checker.has_seen("in_object"));
    assert!(checker.has_seen("in_body"));
    assert!(checker.has_seen("in_label"));
}
