//! The files of the compiler actor: where the traces lie, and the text of
//! the dispatch table that links them into the dispatcher.
use crate::names::texts;
use vstd::prelude::*;
use vstd::string::*;

verus! {

/// The directory below the root in which the traces lie.
pub open spec fn traces_directory() -> Seq<char> {
    "/dispatcher-agent/src/decontainerized_functions/"@
}

/// The line that declares the module of the function `name`.
pub open spec fn module_line(name: Seq<char>) -> Seq<char> {
    "mod function_"@ + name + ";\n"@
}

/// The line that enters the function `name` into the table.
pub open spec fn entry_line(name: Seq<char>) -> Seq<char> {
    "    ht.insert(\""@ + name + "\", function_"@ + name + "::containerless);\n"@
}

/// The module lines of `names`, in order.
pub open spec fn module_lines(names: Seq<Seq<char>>) -> Seq<char>
    decreases names.len(),
{
    if names.len() == 0 {
        Seq::empty()
    } else {
        module_lines(names.drop_last()) + module_line(names.last())
    }
}

/// The entry lines of `names`, in order.
pub open spec fn entry_lines(names: Seq<Seq<char>>) -> Seq<char>
    decreases names.len(),
{
    if names.len() == 0 {
        Seq::empty()
    } else {
        entry_lines(names.drop_last()) + entry_line(names.last())
    }
}

/// What the dispatch table begins with.
pub open spec fn table_head() -> Seq<char> {
    "use dispatcher_agent_lib::trace_runtime::Containerless;\nuse std::collections::HashMap;\n"@
}

/// What stands between the modules and the entries.
pub open spec fn table_middle() -> Seq<char> {
    "\npub fn init() -> HashMap<&'static str, Containerless> {\n    let mut ht: HashMap<&'static str, Containerless> = HashMap::new();\n"@
}

/// What the dispatch table ends with.
pub open spec fn table_tail() -> Seq<char> {
    "    return ht;\n}\n"@
}

/// The text of the dispatch table of the functions `names`: a module for
/// each, and a function that enters each into a table under its name.
pub open spec fn table_file(names: Seq<Seq<char>>) -> Seq<char> {
    table_head() + module_lines(names) + table_middle() + entry_lines(names) + table_tail()
}

/// The line that enters the function `name` into the table.
pub fn gen_function_table_entry(name: &str) -> (res: String)
    ensures
        res@ == entry_line(name@),
{
    String::from_str("    ht.insert(\"").concat(name).concat("\", function_").concat(name).concat(
        "::containerless);\n",
    )
}

/// The line that declares the module of the function `name`.
pub fn gen_function_mod(name: &str) -> (res: String)
    ensures
        res@ == module_line(name@),
{
    String::from_str("mod function_").concat(name).concat(";\n")
}

/// The text of the dispatch table of the functions `table`.
pub fn gen_function_table_file(table: &Vec<String>) -> (res: String)
    ensures
        res@ == table_file(texts(table@)),
{
    let ghost names = texts(table@);
    let mut text = String::from_str(
        "use dispatcher_agent_lib::trace_runtime::Containerless;\nuse std::collections::HashMap;\n",
    );
    let mut i: usize = 0;
    assert(names.subrange(0, 0) =~= Seq::<Seq<char>>::empty());
    assert(text@ =~= table_head() + module_lines(names.subrange(0, 0)));
    while i < table.len()
        invariant
            i <= table.len(),
            names == texts(table@),
            text@ == table_head() + module_lines(names.subrange(0, i as int)),
        decreases table.len() - i,
    {
        proof {
            let upto = names.subrange(0, i + 1);
            assert(upto.drop_last() =~= names.subrange(0, i as int));
            assert(upto.last() == table@[i as int]@);
        }
        let line = gen_function_mod(table[i].as_str());
        text.append(line.as_str());
        assert(text@ =~= table_head() + module_lines(names.subrange(0, i + 1)));
        i += 1;
    }
    assert(names.subrange(0, table.len() as int) =~= names);
    text.append(
        "\npub fn init() -> HashMap<&'static str, Containerless> {\n    let mut ht: HashMap<&'static str, Containerless> = HashMap::new();\n",
    );
    let ghost begun = text@;
    let mut i: usize = 0;
    assert(text@ =~= begun + entry_lines(names.subrange(0, 0)));
    while i < table.len()
        invariant
            i <= table.len(),
            names == texts(table@),
            begun == table_head() + module_lines(names) + table_middle(),
            text@ == begun + entry_lines(names.subrange(0, i as int)),
        decreases table.len() - i,
    {
        proof {
            let upto = names.subrange(0, i + 1);
            assert(upto.drop_last() =~= names.subrange(0, i as int));
            assert(upto.last() == table@[i as int]@);
        }
        let line = gen_function_table_entry(table[i].as_str());
        text.append(line.as_str());
        assert(text@ =~= begun + entry_lines(names.subrange(0, i + 1)));
        i += 1;
    }
    assert(names.subrange(0, table.len() as int) =~= names);
    text.append("    return ht;\n}\n");
    text
}

/// The file that holds the trace of the function `name`, below `root`.
pub fn trace_file(root: &str, name: &str) -> (res: String)
    ensures
        res@ == root@ + traces_directory() + "function_"@ + name@ + ".json"@,
{
    String::from_str(root).concat("/dispatcher-agent/src/decontainerized_functions/").concat(
        "function_",
    ).concat(name).concat(".json")
}

/// The file that holds the source made from the trace of the function
/// `name`, below `root`.
pub fn source_file(root: &str, name: &str) -> (res: String)
    ensures
        res@ == root@ + traces_directory() + "function_"@ + name@ + ".rs"@,
{
    String::from_str(root).concat("/dispatcher-agent/src/decontainerized_functions/").concat(
        "function_",
    ).concat(name).concat(".rs")
}

/// The file that holds the dispatch table, below `root`.
pub fn dispatch_table_file(root: &str) -> (res: String)
    ensures
        res@ == root@ + traces_directory() + "mod.rs"@,
{
    String::from_str(root).concat("/dispatcher-agent/src/decontainerized_functions/").concat(
        "mod.rs",
    )
}

/// The directory in which the dispatcher is built, below `root`.
pub fn build_directory(root: &str) -> (res: String)
    ensures
        res@ == root@ + "/dispatcher-agent"@,
{
    String::from_str(root).concat("/dispatcher-agent")
}

} // verus!
