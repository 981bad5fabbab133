//! The traces that the trace compiler reads, and the checks that it makes on
//! a trace before it compiles it.
use crate::name_map::NameMap;
use vstd::prelude::*;
use vstd::string::*;

verus! {

broadcast use {
    vstd::std_specs::vec::axiom_vec_index_decreases,
    vstd::std_specs::vec::axiom_vec_decreases_to_view,
    vstd::seq::axiom_seq_index_decreases,
    vstd::seq::axiom_seq_subrange_decreases,
};

/// Where an assignment writes to.
#[derive(Debug)]
pub enum LVal {
    Identifier { name: String },
    From { exp: Box<Exp>, field: String },
}

/// A node of a trace. Some kinds of node stand for a value (expressions),
/// the others for a step (statements). A block is both.
#[derive(Debug)]
#[allow(inconsistent_fields)]
pub enum Exp {
    Unknown {  },
    /// A number, by the bits of its IEEE 754 double.
    Number { bits: u64 },
    Bool { value: bool },
    Identifier { name: String },
    From { exp: Box<Exp>, field: String },
    Index { e1: Box<Exp>, e2: Box<Exp> },
    Get { exp: Box<Exp>, field: String },
    Stringg { value: String },
    Undefined {  },
    BinOp { op: String, e1: Box<Exp>, e2: Box<Exp> },
    Op1 { op: String, e: Box<Exp> },
    If { cond: Box<Exp>, true_part: Vec<Exp>, false_part: Vec<Exp> },
    While { cond: Box<Exp>, body: Vec<Exp> },
    Let { name: String, named: Box<Exp> },
    /// An assignment to a variable or to a field.
    Assign { name: LVal, named: Box<Exp> },
    Block { body: Vec<Exp> },
    Callback {
        event: String,
        event_arg: Box<Exp>,
        callback_args: Vec<String>,
        callback_clos: Box<Exp>,
        body: Vec<Exp>,
    },
    Loopback { event: String, event_arg: Box<Exp>, callback_clos: Box<Exp>, id: i32 },
    Label { name: String, body: Vec<Exp> },
    Break { name: String, value: Box<Exp> },
    /// An object, by its properties in the order in which they are walked.
    Object { properties: Vec<(String, Exp)> },
    /// A closure, by the variables that it holds, in the order in which they
    /// are walked.
    Clos { tenv: Vec<(String, Exp)> },
    Array { exps: Vec<Exp> },
    Ref { e: Box<Exp> },
    Deref { e: Box<Exp> },
    SetRef { e1: Box<Exp>, e2: Box<Exp> },
    PrimApp { event: String, event_args: Vec<Exp> },
    MethodCall { e: Box<Exp>, method: String, method_call_args: Vec<Exp> },
}

/// Whether every one of `exps` is an expression.
pub open spec fn are_expressions(exps: Seq<Exp>) -> bool
    decreases exps, 0nat,
{
    forall|i: int| 0 <= i < exps.len() ==> is_expression(#[trigger] exps[i])
}

/// Whether every one of `exps` is a statement.
pub open spec fn are_statements(exps: Seq<Exp>) -> bool
    decreases exps, 0nat,
{
    forall|i: int| 0 <= i < exps.len() ==> is_statement(#[trigger] exps[i])
}

/// Whether the value of every one of `entries` is an expression.
pub open spec fn are_bindings(entries: Seq<(String, Exp)>) -> bool
    decreases entries, 0nat,
{
    forall|i: int| 0 <= i < entries.len() ==> is_expression((#[trigger] entries[i]).1)
}

/// Whether `exp` is an expression all the way down: its kind is one of the
/// kinds of expression, and each part of it is what that kind asks for.
pub open spec fn is_expression(exp: Exp) -> bool
    decreases exp, 1nat,
{
    match exp {
        Exp::Number { .. } | Exp::Bool { .. } | Exp::Identifier { .. } | Exp::Stringg { .. }
        | Exp::Undefined {  } => true,
        Exp::From { exp, .. } => is_expression(*exp),
        Exp::Get { exp, .. } => is_expression(*exp),
        Exp::Index { e1, e2 } => is_expression(*e1) && is_expression(*e2),
        Exp::BinOp { e1, e2, .. } => is_expression(*e1) && is_expression(*e2),
        Exp::Op1 { e, .. } => is_expression(*e),
        Exp::Block { body } => are_statements(body@),
        Exp::Object { properties } => are_bindings(properties@),
        Exp::Clos { tenv } => are_bindings(tenv@),
        Exp::Array { exps } => are_expressions(exps@),
        Exp::Ref { e } => is_expression(*e),
        Exp::Deref { e } => is_expression(*e),
        Exp::MethodCall { e, method_call_args, .. } => is_expression(*e) && are_expressions(
            method_call_args@,
        ),
        _ => false,
    }
}

/// Whether `exp` is a statement all the way down.
pub open spec fn is_statement(exp: Exp) -> bool
    decreases exp, 1nat,
{
    match exp {
        Exp::Unknown {  } => true,
        Exp::If { cond, true_part, false_part } => is_expression(*cond) && are_statements(
            true_part@,
        ) && are_statements(false_part@),
        Exp::While { cond, body } => is_expression(*cond) && are_statements(body@),
        Exp::Let { named, .. } => is_expression(*named),
        Exp::Assign { named, .. } => is_expression(*named),
        Exp::SetRef { e1, e2 } => is_expression(*e1) && is_expression(*e2),
        Exp::Block { body } => are_statements(body@),
        Exp::Callback { event_arg, callback_clos, body, .. } => is_expression(*event_arg)
            && is_expression(*callback_clos) && are_statements(body@),
        Exp::Label { body, .. } => are_statements(body@),
        Exp::Break { value, .. } => is_expression(*value),
        Exp::PrimApp { event_args, .. } => are_expressions(event_args@),
        Exp::Loopback { event_arg, callback_clos, .. } => is_expression(*event_arg)
            && is_expression(*callback_clos),
        _ => false,
    }
}

/// Whether a `let` may bind `name` after the names of `seen`: the name is
/// not empty, and it is new unless it begins with `$`.
pub open spec fn may_bind(seen: Set<Seq<char>>, name: Seq<char>) -> bool {
    name.len() > 0 && (name[0] == '$' || !seen.contains(name))
}

/// The names bound so far after a `let` of `name`. A name that begins with
/// `$` is never kept.
pub open spec fn bound(seen: Set<Seq<char>>, name: Seq<char>) -> Set<Seq<char>> {
    if name.len() > 0 && name[0] != '$' {
        seen.insert(name)
    } else {
        seen
    }
}

/// Walks `exps` in order, as `names_in` walks each.
pub open spec fn names_in_all(seen: Set<Seq<char>>, exps: Seq<Exp>) -> (Set<Seq<char>>, bool)
    decreases exps, 0nat,
{
    if exps.len() == 0 {
        (seen, true)
    } else {
        let (so_far, ok) = names_in_all(seen, exps.drop_last());
        if ok {
            names_in(so_far, exps.last())
        } else {
            (so_far, false)
        }
    }
}

/// Walks the values of `entries` in order, as `names_in` walks each.
pub open spec fn names_in_bindings(seen: Set<Seq<char>>, entries: Seq<(String, Exp)>) -> (
    Set<Seq<char>>,
    bool,
)
    decreases entries, 0nat,
{
    if entries.len() == 0 {
        (seen, true)
    } else {
        let (so_far, ok) = names_in_bindings(seen, entries.drop_last());
        if ok {
            names_in(so_far, entries.last().1)
        } else {
            (so_far, false)
        }
    }
}

/// Walks `exp` with the names `seen` bound before it, and returns the names
/// bound after it and whether all is well. The walk goes through the parts
/// of a node in order, but not into the condition of an `if` or a `while`
/// nor into what a `let` binds its name to. It ends badly, and at once, at
/// a `let` that may not bind its name, and at a node of a kind that it does
/// not know: an index, a field read, a unary operation, a closure, a method
/// call.
pub open spec fn names_in(seen: Set<Seq<char>>, exp: Exp) -> (Set<Seq<char>>, bool)
    decreases exp, 1nat,
{
    match exp {
        Exp::Unknown {  } | Exp::Number { .. } | Exp::Bool { .. } | Exp::Identifier { .. }
        | Exp::Stringg { .. } | Exp::Undefined {  } => (seen, true),
        Exp::From { exp, .. } => names_in(seen, *exp),
        Exp::BinOp { e1, e2, .. } => {
            let (so_far, ok) = names_in(seen, *e1);
            if ok {
                names_in(so_far, *e2)
            } else {
                (so_far, false)
            }
        },
        Exp::If { true_part, false_part, .. } => {
            let (so_far, ok) = names_in_all(seen, true_part@);
            if ok {
                names_in_all(so_far, false_part@)
            } else {
                (so_far, false)
            }
        },
        Exp::While { body, .. } => names_in_all(seen, body@),
        Exp::Let { name, .. } => if may_bind(seen, name@) {
            (bound(seen, name@), true)
        } else {
            (seen, false)
        },
        Exp::Assign { named, .. } => names_in(seen, *named),
        Exp::Block { body } => names_in_all(seen, body@),
        Exp::Callback { event_arg, callback_clos, body, .. } => {
            let (first, ok) = names_in(seen, *event_arg);
            if ok {
                let (second, ok) = names_in(first, *callback_clos);
                if ok {
                    names_in_all(second, body@)
                } else {
                    (second, false)
                }
            } else {
                (first, false)
            }
        },
        Exp::Label { body, .. } => names_in_all(seen, body@),
        Exp::Break { value, .. } => names_in(seen, *value),
        Exp::Object { properties } => names_in_bindings(seen, properties@),
        Exp::Array { exps } => names_in_all(seen, exps@),
        Exp::PrimApp { event_args, .. } => names_in_all(seen, event_args@),
        Exp::Loopback { event_arg, callback_clos, .. } => {
            let (so_far, ok) = names_in(seen, *event_arg);
            if ok {
                names_in(so_far, *callback_clos)
            } else {
                (so_far, false)
            }
        },
        Exp::Ref { e } => names_in(seen, *e),
        Exp::Deref { e } => names_in(seen, *e),
        Exp::SetRef { e1, e2 } => {
            let (so_far, ok) = names_in(seen, *e1);
            if ok {
                names_in(so_far, *e2)
            } else {
                (so_far, false)
            }
        },
        _ => (seen, false),
    }
}

/// The checker of traces. It remembers the names that the `let`s of the
/// traces walked so far have bound.
pub struct Assertions {
    names: NameMap<bool>,
}

impl View for Assertions {
    type V = Set<Seq<char>>;

    /// The names bound so far.
    closed spec fn view(&self) -> Set<Seq<char>> {
        self.names@.dom()
    }
}

impl Assertions {
    /// Every checker that this module hands out is well formed.
    pub closed spec fn wf(&self) -> bool {
        self.names.wf()
    }

    /// A checker that has seen no name.
    pub fn new() -> (res: Assertions)
        ensures
            res.wf(),
            res@ == Set::<Seq<char>>::empty(),
    {
        let res = Assertions { names: NameMap::new() };
        assert(res@ =~= Set::<Seq<char>>::empty());
        res
    }

    /// Whether the checker has seen a `let` of `name`.
    pub fn has_seen(&self, name: &str) -> (res: bool)
        requires
            self.wf(),
        ensures
            res == self@.contains(name@),
    {
        self.names.contains(name)
    }

    fn assert_stmts(&self, exps: &Vec<Exp>) -> (res: bool)
        ensures
            res == are_statements(exps@),
        decreases exps, 0nat,
    {
        let mut i: usize = 0;
        while i < exps.len()
            invariant
                i <= exps.len(),
                forall|j: int| 0 <= j < i ==> is_statement(#[trigger] exps@[j]),
            decreases exps.len() - i,
        {
            if !self.assert_stmt(&exps[i]) {
                return false;
            }
            i += 1;
        }
        true
    }

    fn assert_exps(&self, exps: &Vec<Exp>) -> (res: bool)
        ensures
            res == are_expressions(exps@),
        decreases exps, 0nat,
    {
        let mut i: usize = 0;
        while i < exps.len()
            invariant
                i <= exps.len(),
                forall|j: int| 0 <= j < i ==> is_expression(#[trigger] exps@[j]),
            decreases exps.len() - i,
        {
            if !self.assert_exp(&exps[i]) {
                return false;
            }
            i += 1;
        }
        true
    }

    fn assert_tenv(&self, entries: &Vec<(String, Exp)>) -> (res: bool)
        ensures
            res == are_bindings(entries@),
        decreases entries, 0nat,
    {
        let mut i: usize = 0;
        while i < entries.len()
            invariant
                i <= entries.len(),
                forall|j: int| 0 <= j < i ==> is_expression((#[trigger] entries@[j]).1),
            decreases entries.len() - i,
        {
            if !self.assert_exp(&entries[i].1) {
                return false;
            }
            i += 1;
        }
        true
    }

    fn assert_exp(&self, exp: &Exp) -> (res: bool)
        ensures
            res == is_expression(*exp),
        decreases exp, 1nat,
    {
        match exp {
            Exp::Number { .. } => true,
            Exp::Bool { .. } => true,
            Exp::Identifier { .. } => true,
            Exp::From { exp, .. } => self.assert_exp(exp),
            Exp::Index { e1, e2 } => self.assert_exp(e1) && self.assert_exp(e2),
            Exp::Get { exp, .. } => self.assert_exp(exp),
            Exp::Stringg { .. } => true,
            Exp::Undefined {  } => true,
            Exp::BinOp { e1, e2, .. } => self.assert_exp(e1) && self.assert_exp(e2),
            Exp::Op1 { e, .. } => self.assert_exp(e),
            Exp::Block { body } => self.assert_stmts(body),
            Exp::Object { properties } => self.assert_tenv(properties),
            Exp::Clos { tenv } => self.assert_tenv(tenv),
            Exp::Array { exps } => self.assert_exps(exps),
            Exp::Ref { e } => self.assert_exp(e),
            Exp::Deref { e } => self.assert_exp(e),
            Exp::MethodCall { e, method_call_args, .. } => self.assert_exp(e) && self.assert_exps(
                method_call_args,
            ),
            _ => false,
        }
    }

    fn assert_stmt(&self, exp: &Exp) -> (res: bool)
        ensures
            res == is_statement(*exp),
        decreases exp, 1nat,
    {
        match exp {
            Exp::Unknown {  } => true,
            Exp::If { cond, true_part, false_part } => self.assert_exp(cond) && self.assert_stmts(
                true_part,
            ) && self.assert_stmts(false_part),
            Exp::While { cond, body } => self.assert_exp(cond) && self.assert_stmts(body),
            Exp::Let { named, .. } => self.assert_exp(named),
            Exp::Assign { named, .. } => self.assert_exp(named),
            Exp::SetRef { e1, e2 } => self.assert_exp(e1) && self.assert_exp(e2),
            Exp::Block { body } => self.assert_stmts(body),
            Exp::Callback { event_arg, callback_clos, body, .. } => self.assert_exp(event_arg)
                && self.assert_exp(callback_clos) && self.assert_stmts(body),
            Exp::Label { body, .. } => self.assert_stmts(body),
            Exp::Break { value, .. } => self.assert_exp(value),
            Exp::PrimApp { event_args, .. } => self.assert_exps(event_args),
            Exp::Loopback { event_arg, callback_clos, .. } => self.assert_exp(event_arg)
                && self.assert_exp(callback_clos),
            _ => false,
        }
    }

    /// Whether `exp` is an expression all the way down.
    pub fn assert_supposed_grammar(&self, exp: &Exp) -> (res: bool)
        ensures
            res == is_expression(*exp),
    {
        self.assert_exp(exp)
    }

    fn assert_unique_names_vec(&mut self, exps: &Vec<Exp>) -> (res: bool)
        requires
            old(self).wf(),
        ensures
            final(self).wf(),
            (final(self)@, res) == names_in_all(old(self)@, exps@),
        decreases exps, 0nat,
    {
        let ghost seen = self@;
        let mut i: usize = 0;
        assert(exps@.subrange(0, 0) =~= Seq::<Exp>::empty());
        while i < exps.len()
            invariant
                self.wf(),
                i <= exps.len(),
                seen == old(self)@,
                (self@, true) == names_in_all(seen, exps@.subrange(0, i as int)),
            decreases exps.len() - i,
        {
            proof {
                let upto = exps@.subrange(0, i + 1);
                assert(upto.drop_last() =~= exps@.subrange(0, i as int));
                assert(upto.last() == exps@[i as int]);
            }
            if !self.assert_unique_names(&exps[i]) {
                proof {
                    assert((self@, false) == names_in_all(seen, exps@.subrange(0, i + 1)));
                    lemma_names_in_all_fails(seen, exps@, i + 1);
                }
                return false;
            }
            i += 1;
        }
        assert(exps@.subrange(0, exps.len() as int) =~= exps@);
        true
    }

    fn assert_unique_names_tenv(&mut self, entries: &Vec<(String, Exp)>) -> (res: bool)
        requires
            old(self).wf(),
        ensures
            final(self).wf(),
            (final(self)@, res) == names_in_bindings(old(self)@, entries@),
        decreases entries, 0nat,
    {
        let ghost seen = self@;
        let mut i: usize = 0;
        assert(entries@.subrange(0, 0) =~= Seq::<(String, Exp)>::empty());
        while i < entries.len()
            invariant
                self.wf(),
                i <= entries.len(),
                seen == old(self)@,
                (self@, true) == names_in_bindings(seen, entries@.subrange(0, i as int)),
            decreases entries.len() - i,
        {
            proof {
                let upto = entries@.subrange(0, i + 1);
                assert(upto.drop_last() =~= entries@.subrange(0, i as int));
                assert(upto.last() == entries@[i as int]);
            }
            if !self.assert_unique_names(&entries[i].1) {
                proof {
                    assert((self@, false) == names_in_bindings(
                        seen,
                        entries@.subrange(0, i + 1),
                    ));
                    lemma_names_in_bindings_fails(seen, entries@, i + 1);
                }
                return false;
            }
            i += 1;
        }
        assert(entries@.subrange(0, entries.len() as int) =~= entries@);
        true
    }

    /// Walks `exp` and takes in the names that its `let`s bind. Returns
    /// whether all is well: every such name is new, or begins with `$`, and
    /// every node that the walk meets is of a kind that it knows. At the
    /// first node where that fails the walk ends, with the names taken in
    /// up to there.
    pub fn assert_unique_names(&mut self, exp: &Exp) -> (res: bool)
        requires
            old(self).wf(),
        ensures
            final(self).wf(),
            (final(self)@, res) == names_in(old(self)@, *exp),
        decreases exp, 1nat,
    {
        match exp {
            Exp::Unknown {  } => true,
            Exp::Number { .. } => true,
            Exp::Bool { .. } => true,
            Exp::Identifier { .. } => true,
            Exp::From { exp, .. } => self.assert_unique_names(exp),
            Exp::Stringg { .. } => true,
            Exp::Undefined {  } => true,
            Exp::BinOp { e1, e2, .. } => self.assert_unique_names(e1) && self.assert_unique_names(
                e2,
            ),
            Exp::If { true_part, false_part, .. } => self.assert_unique_names_vec(true_part)
                && self.assert_unique_names_vec(false_part),
            Exp::While { body, .. } => self.assert_unique_names_vec(body),
            Exp::Let { name, .. } => {
                if name.as_str().unicode_len() == 0 {
                    return false;
                }
                let first = name.as_str().get_char(0);
                if first != '$' {
                    if self.names.contains(name.as_str()) {
                        return false;
                    } else {
                        self.names.insert(name.clone(), true);
                        assert(self@ =~= old(self)@.insert(name@));
                    }
                }
                true
            },
            Exp::Assign { named, .. } => self.assert_unique_names(named),
            Exp::Block { body } => self.assert_unique_names_vec(body),
            Exp::Callback { event_arg, callback_clos, body, .. } => self.assert_unique_names(
                event_arg,
            ) && self.assert_unique_names(callback_clos) && self.assert_unique_names_vec(body),
            Exp::Label { body, .. } => self.assert_unique_names_vec(body),
            Exp::Break { value, .. } => self.assert_unique_names(value),
            Exp::Object { properties } => self.assert_unique_names_tenv(properties),
            Exp::Array { exps } => self.assert_unique_names_vec(exps),
            Exp::PrimApp { event_args, .. } => self.assert_unique_names_vec(event_args),
            Exp::Loopback { event_arg, callback_clos, .. } => self.assert_unique_names(event_arg)
                && self.assert_unique_names(callback_clos),
            Exp::Ref { e } => self.assert_unique_names(e),
            Exp::Deref { e } => self.assert_unique_names(e),
            Exp::SetRef { e1, e2 } => self.assert_unique_names(e1) && self.assert_unique_names(e2),
            _ => false,
        }
    }
}

/// Once the walk of a list has ended badly, the rest of the list changes
/// nothing.
proof fn lemma_names_in_all_fails(seen: Set<Seq<char>>, exps: Seq<Exp>, upto: int)
    requires
        0 <= upto <= exps.len(),
        !names_in_all(seen, exps.subrange(0, upto)).1,
    ensures
        names_in_all(seen, exps) == names_in_all(seen, exps.subrange(0, upto)),
    decreases exps.len() - upto,
{
    if upto < exps.len() {
        let longer = exps.subrange(0, upto + 1);
        assert(longer.drop_last() =~= exps.subrange(0, upto));
        lemma_names_in_all_fails(seen, exps, upto + 1);
    } else {
        assert(exps.subrange(0, upto) =~= exps);
    }
}

/// Once the walk of a list of bindings has ended badly, the rest of the
/// list changes nothing.
proof fn lemma_names_in_bindings_fails(
    seen: Set<Seq<char>>,
    entries: Seq<(String, Exp)>,
    upto: int,
)
    requires
        0 <= upto <= entries.len(),
        !names_in_bindings(seen, entries.subrange(0, upto)).1,
    ensures
        names_in_bindings(seen, entries) == names_in_bindings(seen, entries.subrange(0, upto)),
    decreases entries.len() - upto,
{
    if upto < entries.len() {
        let longer = entries.subrange(0, upto + 1);
        assert(longer.drop_last() =~= entries.subrange(0, upto));
        lemma_names_in_bindings_fails(seen, entries, upto + 1);
    } else {
        assert(entries.subrange(0, upto) =~= entries);
    }
}

} // verus!
