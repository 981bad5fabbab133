//! The front end of the dispatcher: which request goes where.
use crate::names::{is_function_name, is_name_char, is_name_char_exec};
use vstd::prelude::*;
use vstd::string::*;

verus! {

/// Where a request goes.
#[derive(Debug)]
pub enum Target {
    /// To the readiness probe, which answers 200.
    Readiness,
    /// To the function `name`, with `path` for its path.
    Function { name: String, path: String },
    /// Nowhere.
    NotFound,
}

/// Where a request goes, by its characters.
pub enum TargetView {
    Readiness,
    Function { name: Seq<char>, path: Seq<char> },
    NotFound,
}

impl View for Target {
    type V = TargetView;

    open spec fn view(&self) -> TargetView {
        match self {
            Target::Readiness => TargetView::Readiness,
            Target::Function { name, path } => TargetView::Function { name: name@, path: path@ },
            Target::NotFound => TargetView::NotFound,
        }
    }
}

/// Whether `path` is the path of the readiness probe, with or without a
/// slash at its end.
pub open spec fn is_readiness_path(path: Seq<char>) -> bool {
    path == "/readinessProbe"@ || path == "/readinessProbe/"@
}

/// How many name characters `s` begins with from `from` on.
pub open spec fn name_end(s: Seq<char>, from: int) -> int
    decreases s.len() - from,
{
    if 0 <= from < s.len() && is_name_char(s[from]) {
        name_end(s, from + 1)
    } else {
        from
    }
}

/// Where the request for `path` goes. A `GET` for the readiness path goes to
/// the probe. Any other request whose path is a slash, a function name, a
/// slash, and anything after it goes to that function; what the function
/// sees as its path starts at the second slash.
pub open spec fn target_of(is_get: bool, path: Seq<char>) -> TargetView {
    let end = name_end(path, 1);
    if is_get && is_readiness_path(path) {
        TargetView::Readiness
    } else if path.len() > 0 && path[0] == '/' && 1 < end < path.len() && path[end] == '/' {
        TargetView::Function {
            name: path.subrange(1, end),
            path: path.subrange(end, path.len() as int),
        }
    } else {
        TargetView::NotFound
    }
}

/// What the readiness probe answers.
pub fn readiness_body() -> (res: &'static str)
    ensures
        res@ == "To invoke: http://HOSTNAME/dispatcher/FUNCTION-NAME\n"@,
{
    "To invoke: http://HOSTNAME/dispatcher/FUNCTION-NAME\n"
}

/// What a client is told, with status 500, where the invocation failed for
/// the reason `why`.
pub fn invocation_error_body(why: &str) -> (res: String)
    ensures
        res@ == "Error invoking function "@ + why@,
{
    String::from_str("Error invoking function ").concat(why)
}

/// Chooses where the request for `path` goes; `is_get` says whether its
/// method is `GET`.
pub fn route_request(is_get: bool, path: &str) -> (res: Target)
    ensures
        res@ == target_of(is_get, path@),
{
    let probe = String::from_str("/readinessProbe");
    let probe_slash = String::from_str("/readinessProbe/");
    let owned = String::from_str(path);
    if is_get && (owned == probe || owned == probe_slash) {
        return Target::Readiness;
    }
    let len = path.unicode_len();
    if len == 0 || path.get_char(0) != '/' {
        return Target::NotFound;
    }
    let mut end: usize = 1;
    while end < len && is_name_char_exec(path.get_char(end))
        invariant
            len == path@.len(),
            1 <= end <= len,
            name_end(path@, 1) == name_end(path@, end as int),
        decreases len - end,
    {
        end += 1;
    }
    if 1 < end && end < len && path.get_char(end) == '/' {
        Target::Function {
            name: String::from_str(path.substring_char(1, end)),
            path: String::from_str(path.substring_char(end, len)),
        }
    } else {
        Target::NotFound
    }
}

/// The name of a function to which a request is routed is a function name,
/// and the path that the function sees begins with a slash.
pub proof fn lemma_routed_names_are_function_names(is_get: bool, path: Seq<char>)
    ensures
        target_of(is_get, path) matches TargetView::Function { name, path: rest }
            ==> is_function_name(name) && rest.len() > 0 && rest[0] == '/' && path == seq!['/']
            + name + rest,
{
    if let TargetView::Function { name, path: rest } = target_of(is_get, path) {
        lemma_name_end(path, 1);
        let end = name_end(path, 1);
        assert forall|i: int| 0 <= i < name.len() implies is_name_char(#[trigger] name[i]) by {
            assert(name[i] == path[1 + i]);
        }
        assert(path =~= seq!['/'] + name + rest);
    }
}

/// Up to `name_end` there are name characters only.
pub proof fn lemma_name_end(s: Seq<char>, from: int)
    requires
        0 <= from <= s.len(),
    ensures
        from <= name_end(s, from) <= s.len(),
        forall|i: int| from <= i < name_end(s, from) ==> is_name_char(#[trigger] s[i]),
        name_end(s, from) < s.len() ==> !is_name_char(s[name_end(s, from)]),
    decreases s.len() - from,
{
    if from < s.len() && is_name_char(s[from]) {
        lemma_name_end(s, from + 1);
    }
}

} // verus!
