//! Traces as they come from the tracing replica, before types are inferred:
//! the nodes of a trace, the types that inference assigns to them, and
//! substitution for the metavariables of those types.
use std::collections::HashMap;
use vstd::prelude::*;
use vstd::string::*;

verus! {

broadcast use vstd::std_specs::hash::group_hash_axioms;

/// Binary operators that may occur in a trace.
#[derive(PartialEq, Eq, Debug, Clone, Copy)]
pub enum Op2 {
    Add,
    Sub,
    GT,
    StrictEq,
}

/// The type of a trace expression. `Metavar(n)` stands for a type that
/// inference has not determined yet.
#[derive(PartialEq, Debug)]
pub enum Typ {
    I32,
    F64,
    Bool,
    String,
    Unknown,
    Undefined,
    Metavar(usize),
    Ref(Box<Typ>),
    Union(Box<Typ>, Box<Typ>),
}

impl Clone for Typ {
    fn clone(&self) -> (res: Self)
        ensures
            res == *self,
        decreases *self,
    {
        match self {
            Typ::I32 => Typ::I32,
            Typ::F64 => Typ::F64,
            Typ::Bool => Typ::Bool,
            Typ::String => Typ::String,
            Typ::Unknown => Typ::Unknown,
            Typ::Undefined => Typ::Undefined,
            Typ::Metavar(x) => Typ::Metavar(*x),
            Typ::Ref(t) => Typ::Ref(Box::new((**t).clone())),
            Typ::Union(t1, t2) => Typ::Union(Box::new((**t1).clone()), Box::new((**t2).clone())),
        }
    }
}

impl Typ {
    /// The metavariables that occur in the type.
    pub open spec fn metavars(self) -> Set<usize>
        decreases self,
    {
        match self {
            Typ::Metavar(x) => set![x],
            Typ::Ref(t) => t.metavars(),
            Typ::Union(t1, t2) => t1.metavars().union(t2.metavars()),
            _ => Set::empty(),
        }
    }

    /// The type with every metavariable in the domain of `subst` replaced by
    /// the type that `subst` gives it. The replacement is not itself
    /// substituted into.
    pub open spec fn substituted(self, subst: Map<usize, Typ>) -> Typ
        decreases self,
    {
        match self {
            Typ::Metavar(x) => if subst.contains_key(x) {
                subst[x]
            } else {
                self
            },
            Typ::Ref(t) => Typ::Ref(Box::new(t.substituted(subst))),
            Typ::Union(t1, t2) => Typ::Union(
                Box::new(t1.substituted(subst)),
                Box::new(t2.substituted(subst)),
            ),
            _ => self,
        }
    }

    /// Whether any metavariable occurs in the type.
    pub fn has_metavars(&self) -> (res: bool)
        ensures
            res == !(self.metavars() =~= Set::<usize>::empty()),
        decreases *self,
    {
        match self {
            Typ::Metavar(x) => {
                assert(self.metavars().contains(*x));
                true
            },
            Typ::Ref(t) => t.has_metavars(),
            Typ::Union(t1, t2) => {
                let left = t1.has_metavars();
                let right = t2.has_metavars();
                proof {
                    if left {
                        let x = choose|x: usize| t1.metavars().contains(x);
                        assert(self.metavars().contains(x));
                    }
                    if right {
                        let x = choose|x: usize| t2.metavars().contains(x);
                        assert(self.metavars().contains(x));
                    }
                }
                left || right
            },
            Typ::I32 => false,
            Typ::F64 => false,
            Typ::Bool => false,
            Typ::String => false,
            Typ::Unknown => false,
            Typ::Undefined => false,
        }
    }

    /// Whether the metavariable `x` occurs in the type.
    pub fn occurs_in(&self, x: usize) -> (res: bool)
        ensures
            res == self.metavars().contains(x),
        decreases *self,
    {
        match self {
            Typ::Metavar(y) => x == *y,
            Typ::Ref(t) => t.occurs_in(x),
            Typ::Union(t1, t2) => t1.occurs_in(x) || t2.occurs_in(x),
            Typ::I32 => false,
            Typ::F64 => false,
            Typ::Bool => false,
            Typ::String => false,
            Typ::Unknown => false,
            Typ::Undefined => false,
        }
    }

    /// Replaces, in place, each metavariable that `subst` binds.
    pub fn apply_subst(&mut self, subst: &HashMap<usize, Typ>)
        ensures
            *final(self) == old(self).substituted(subst@),
        decreases *old(self),
    {
        match self {
            Typ::Metavar(x) => {
                match subst.get(x) {
                    None => (),
                    Some(t) => {
                        *self = t.clone();
                    },
                }
            },
            Typ::Ref(t) => t.apply_subst(subst),
            Typ::Union(t1, t2) => {
                t1.apply_subst(subst);
                t2.apply_subst(subst)
            },
            Typ::I32 => (),
            Typ::F64 => (),
            Typ::Bool => (),
            Typ::String => (),
            Typ::Unknown => (),
            Typ::Undefined => (),
        }
    }
}

/// The union of two types.
pub fn t_union(t1: Typ, t2: Typ) -> (res: Typ)
    ensures
        res == Typ::Union(Box::new(t1), Box::new(t2)),
{
    Typ::Union(Box::new(t1), Box::new(t2))
}

/// The type of references to `t`.
pub fn t_ref(t: Typ) -> (res: Typ)
    ensures
        res == Typ::Ref(Box::new(t)),
{
    Typ::Ref(Box::new(t))
}

/// Where an assignment writes to.
#[derive(PartialEq, Debug)]
pub enum LVal {
    Identifier { name: String },
    From { exp: Box<Exp>, field: String },
}

/// A node of a trace.
#[derive(PartialEq, Debug)]
#[allow(inconsistent_fields)]
pub enum Exp {
    Unknown {  },
    Integer { value: i32 },
    /// A number, by the bits of its IEEE 754 double.
    Number { bits: u64 },
    Identifier { name: String },
    From { exp: Box<Exp>, field: String },
    Stringg { value: String },
    Undefined {  },
    BinOp { op: Op2, e1: Box<Exp>, e2: Box<Exp> },
    If { cond: Box<Exp>, true_part: Vec<Exp>, false_part: Vec<Exp> },
    While { cond: Box<Exp>, body: Box<Exp> },
    Let { name: String, typ: Option<Typ>, named: Box<Exp> },
    /// An assignment to a variable or to a field.
    Assign { name: LVal, named: Box<Exp> },
    Block { body: Vec<Exp> },
    Callback {
        event: String,
        event_arg: Box<Exp>,
        callback_args: Vec<String>,
        callback_clos: Box<Exp>,
        body: Vec<Exp>,
    },
    Loopback { event: String, event_arg: Box<Exp>, callback_clos: Box<Exp>, id: i32 },
    Label { name: String, body: Vec<Exp> },
    Break { name: String, value: Box<Exp> },
    Clos { tenv: HashMap<String, Exp> },
    Array { exps: Vec<Exp> },
    Index { e1: Box<Exp>, e2: Box<Exp> },
    Ref { e: Box<Exp> },
    Deref { e: Box<Exp> },
    SetRef { e1: Box<Exp>, e2: Box<Exp> },
    PrimApp { event: String, event_args: Vec<Exp> },
}

pub fn unknown() -> (res: Exp)
    ensures
        res == (Exp::Unknown {  }),
{
    Exp::Unknown {  }
}

pub fn integer(value: i32) -> (res: Exp)
    ensures
        res == (Exp::Integer { value }),
{
    Exp::Integer { value }
}

/// A number, from the bits of its IEEE 754 double.
pub fn number(bits: u64) -> (res: Exp)
    ensures
        res == (Exp::Number { bits }),
{
    Exp::Number { bits }
}

pub fn id(name: &str) -> (res: Exp)
    ensures
        res matches Exp::Identifier { name: n } && n@ == name@,
{
    Exp::Identifier { name: String::from_str(name) }
}

pub fn from(exp: Exp, field: &str) -> (res: Exp)
    ensures
        res matches Exp::From { exp: e, field: f } && *e == exp && f@ == field@,
{
    Exp::From { exp: Box::new(exp), field: String::from_str(field) }
}

pub fn string(value: &str) -> (res: Exp)
    ensures
        res matches Exp::Stringg { value: v } && v@ == value@,
{
    Exp::Stringg { value: String::from_str(value) }
}

pub fn undefined() -> (res: Exp)
    ensures
        res == (Exp::Undefined {  }),
{
    Exp::Undefined {  }
}

pub fn binop(op: &Op2, e1: Exp, e2: Exp) -> (res: Exp)
    ensures
        res == (Exp::BinOp { op: *op, e1: Box::new(e1), e2: Box::new(e2) }),
{
    Exp::BinOp { op: *op, e1: Box::new(e1), e2: Box::new(e2) }
}

pub fn if_(cond: Exp, true_part: Vec<Exp>, false_part: Vec<Exp>) -> (res: Exp)
    ensures
        res == (Exp::If { cond: Box::new(cond), true_part, false_part }),
{
    Exp::If { cond: Box::new(cond), true_part, false_part }
}

pub fn while_(cond: Exp, body: Exp) -> (res: Exp)
    ensures
        res == (Exp::While { cond: Box::new(cond), body: Box::new(body) }),
{
    Exp::While { cond: Box::new(cond), body: Box::new(body) }
}

pub fn let_(name: &str, named: Exp) -> (res: Exp)
    ensures
        res matches Exp::Let { name: n, typ, named: e } && n@ == name@ && typ is None && *e
            == named,
{
    Exp::Let { name: String::from_str(name), typ: None, named: Box::new(named) }
}

pub fn set(name: LVal, named: Exp) -> (res: Exp)
    ensures
        res == (Exp::Assign { name, named: Box::new(named) }),
{
    Exp::Assign { name, named: Box::new(named) }
}

pub fn ref_(e: Exp) -> (res: Exp)
    ensures
        res == (Exp::Ref { e: Box::new(e) }),
{
    Exp::Ref { e: Box::new(e) }
}

pub fn deref(e: Exp) -> (res: Exp)
    ensures
        res == (Exp::Deref { e: Box::new(e) }),
{
    Exp::Deref { e: Box::new(e) }
}

pub fn setref(e1: Exp, e2: Exp) -> (res: Exp)
    ensures
        res == (Exp::SetRef { e1: Box::new(e1), e2: Box::new(e2) }),
{
    Exp::SetRef { e1: Box::new(e1), e2: Box::new(e2) }
}

pub fn block(body: Vec<Exp>) -> (res: Exp)
    ensures
        res == (Exp::Block { body }),
{
    Exp::Block { body }
}

pub fn callback(
    event: &str,
    event_arg: Exp,
    callback_args: Vec<String>,
    callback_clos: Exp,
    body: Vec<Exp>,
) -> (res: Exp)
    ensures
        res matches Exp::Callback {
            event: ev,
            event_arg: arg,
            callback_args: args,
            callback_clos: clos,
            body: b,
        } && ev@ == event@ && *arg == event_arg && args == callback_args && *clos == callback_clos
            && b == body,
{
    Exp::Callback {
        event: String::from_str(event),
        event_arg: Box::new(event_arg),
        callback_args,
        callback_clos: Box::new(callback_clos),
        body,
    }
}

pub fn loopback(event: &str, event_arg: Exp, callback_clos: Exp, id: i32) -> (res: Exp)
    ensures
        res matches Exp::Loopback { event: ev, event_arg: arg, callback_clos: clos, id: n }
            && ev@ == event@ && *arg == event_arg && *clos == callback_clos && n == id,
{
    Exp::Loopback {
        event: String::from_str(event),
        callback_clos: Box::new(callback_clos),
        event_arg: Box::new(event_arg),
        id,
    }
}

pub fn label(name: &str, body: Vec<Exp>) -> (res: Exp)
    ensures
        res matches Exp::Label { name: n, body: b } && n@ == name@ && b == body,
{
    Exp::Label { name: String::from_str(name), body }
}

pub fn break_(name: &str, value: Exp) -> (res: Exp)
    ensures
        res matches Exp::Break { name: n, value: v } && n@ == name@ && *v == value,
{
    Exp::Break { name: String::from_str(name), value: Box::new(value) }
}

pub fn array(exps: Vec<Exp>) -> (res: Exp)
    ensures
        res == (Exp::Array { exps }),
{
    Exp::Array { exps }
}

pub fn index(e1: Exp, e2: Exp) -> (res: Exp)
    ensures
        res == (Exp::Index { e1: Box::new(e1), e2: Box::new(e2) }),
{
    Exp::Index { e1: Box::new(e1), e2: Box::new(e2) }
}

pub fn prim_app(event: &str, event_args: Vec<Exp>) -> (res: Exp)
    ensures
        res matches Exp::PrimApp { event: ev, event_args: args } && ev@ == event@ && args
            == event_args,
{
    Exp::PrimApp { event: String::from_str(event), event_args }
}

pub fn clos(tenv: HashMap<String, Exp>) -> (res: Exp)
    ensures
        res == (Exp::Clos { tenv }),
{
    Exp::Clos { tenv }
}

} // verus!
