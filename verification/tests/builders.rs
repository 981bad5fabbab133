use containerless::untyped_traces::{
    array, binop, block, break_, callback, clos, deref, from, id, if_, index, integer, label,
    let_, loopback, number, prim_app, ref_, setref, string, undefined, unknown, while_, Exp,
    LVal, Op2,
};
use std::collections::HashMap;

fn boxed(e: Exp) -> Box<Exp> {
    Box::new(e)
}

#[test]
fn atoms_are_built() {
    assert_eq!(unknown(), Exp::Unknown {});
    assert_eq!(undefined(), Exp::Undefined {});
    assert_eq!(integer(-3), Exp::Integer { value: -3 });
    assert_eq!(number(2.5f64.to_bits()), Exp::Number { bits: 2.5f64.to_bits() });
    assert_eq!(id("x"), Exp::Identifier { name: "x".to_string() });
    assert_eq!(string("s"), Exp::Stringg { value: "s".to_string() });
}

#[test]
fn expressions_are_built() {
    assert_eq!(from(id("o"), "f"), Exp::From { exp: boxed(id("o")), field: "f".to_string() });
    assert_eq!(
        binop(&Op2::GT, integer(1), integer(2)),
        Exp::BinOp { op: Op2::GT, e1: boxed(integer(1)), e2: boxed(integer(2)) }
    );
    assert_eq!(index(id("a"), integer(0)), Exp::Index { e1: boxed(id("a")), e2: boxed(integer(0)) });
    assert_eq!(array(vec![integer(1)]), Exp::Array { exps: vec![integer(1)] });
    assert_eq!(ref_(id("x")), Exp::Ref { e: boxed(id("x")) });
    assert_eq!(deref(id("x")), Exp::Deref { e: boxed(id("x")) });
    assert_eq!(clos(HashMap::new()), Exp::Clos { tenv: HashMap::new() });
    let mut tenv: HashMap<String, Exp> = HashMap::new();
    tenv.insert("x".to_string(), integer(1));
    let built = clos(tenv);
    match built {
        Exp::Clos { tenv } => assert_eq!(tenv.get("x"), Some(&integer(1))),
        _ => panic!("not a closure"),
    }
}

#[test]
fn statements_are_built() {
    assert_eq!(
        if_(id("c"), vec![unknown()], vec![]),
        Exp::If { cond: boxed(id("c")), true_part: vec![unknown()], false_part: vec![] }
    );
    assert_eq!(
        while_(id("c"), block(vec![])),
        Exp::While { cond: boxed(id("c")), body: boxed(Exp::Block { body: vec![] }) }
    );
    assert_eq!(
        let_("x", integer(1)),
        Exp::Let { name: "x".to_string(), typ: None, named: boxed(integer(1)) }
    );
    assert_eq!(
        containerless::untyped_traces::set(LVal::Identifier { name: "x".to_string() }, integer(2)),
        Exp::Assign { name: LVal::Identifier { name: "x".to_string() }, named: boxed(integer(2)) }
    );
    assert_eq!(setref(id("r"), integer(2)), Exp::SetRef { e1: boxed(id("r")), e2: boxed(integer(2)) });
    assert_eq!(label("l", vec![unknown()]), Exp::Label { name: "l".to_string(), body: vec![unknown()] });
    assert_eq!(break_("l", undefined()), Exp::Break { name: "l".to_string(), value: boxed(undefined()) });
    assert_eq!(
        prim_app("send", vec![id("x")]),
        Exp::PrimApp { event: "send".to_string(), event_args: vec![id("x")] }
    );
}

#[test]
fn callbacks_are_built() {
    assert_eq!(
        callback("listen", integer(1), vec!["req".to_string()], id("clos"), vec![unknown()]),
        Exp::Callback {
            event: "listen".to_string(),
            event_arg: boxed(integer(1)),
            callback_args: vec!["req".to_string()],
            callback_clos: boxed(id("clos")),
            body: vec![unknown()],
        }
    );
    assert_eq!(
        loopback("listen", integer(1), id("clos"), 4),
        Exp::Loopback {
            event: "listen".to_string(),
            event_arg: boxed(integer(1)),
            callback_clos: boxed(id("clos")),
            id: 4,
        }
    );
}
