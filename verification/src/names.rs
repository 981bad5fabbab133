//! Function names and the names of the cluster objects that belong to a
//! function.
use vstd::prelude::*;
use vstd::string::*;

verus! {

/// Whether `c` may occur in a function name: an ASCII letter, an ASCII digit,
/// `_` or `-`.
pub open spec fn is_name_char(c: char) -> bool {
    ||| 'a' <= c <= 'z'
    ||| 'A' <= c <= 'Z'
    ||| '0' <= c <= '9'
    ||| c == '_'
    ||| c == '-'
}

/// A function name is a non-empty sequence of name characters.
pub open spec fn is_function_name(name: Seq<char>) -> bool {
    &&& name.len() > 0
    &&& forall|i: int| 0 <= i < name.len() ==> is_name_char(#[trigger] name[i])
}

/// The replica set that runs the containers of the function `name`.
pub open spec fn replica_set_of(name: Seq<char>) -> Seq<char> {
    "function-vanilla-"@ + name
}

/// The pod that records a trace beside the replica set `replica_set`.
pub open spec fn tracing_pod_of(replica_set: Seq<char>) -> Seq<char> {
    "function-tracing-"@ + replica_set
}

/// The service in front of the function `name`.
pub open spec fn service_of(name: Seq<char>) -> Seq<char> {
    "function-"@ + name
}

/// The function that the replica set `replica_set` belongs to: what follows
/// `function-vanilla-`, provided that it holds no line feed. A replica set
/// with any other name belongs to no function.
pub open spec fn function_of_replica_set(replica_set: Seq<char>) -> Option<Seq<char>> {
    let prefix = "function-vanilla-"@;
    if replica_set.len() >= prefix.len() && replica_set.subrange(0, prefix.len() as int) == prefix
        && !replica_set.subrange(prefix.len() as int, replica_set.len() as int).contains('\n') {
        Some(replica_set.subrange(prefix.len() as int, replica_set.len() as int))
    } else {
        None
    }
}

/// The characters of each of `strings`.
pub open spec fn texts(strings: Seq<String>) -> Seq<Seq<char>> {
    Seq::new(strings.len(), |i: int| strings[i]@)
}

/// The view of an optional string.
pub open spec fn text_of(s: Option<String>) -> Option<Seq<char>> {
    match s {
        Some(s) => Some(s@),
        None => None,
    }
}

/// Whether `c` may occur in a function name.
pub fn is_name_char_exec(c: char) -> (res: bool)
    ensures
        res == is_name_char(c),
{
    ('a' <= c && c <= 'z') || ('A' <= c && c <= 'Z') || ('0' <= c && c <= '9') || c == '_' || c
        == '-'
}

/// Whether `name` can name a function.
pub fn is_valid_function_name(name: &str) -> (res: bool)
    ensures
        res == is_function_name(name@),
{
    let len = name.unicode_len();
    if len == 0 {
        return false;
    }
    let mut i: usize = 0;
    while i < len
        invariant
            len == name@.len(),
            i <= len,
            forall|j: int| 0 <= j < i ==> is_name_char(#[trigger] name@[j]),
        decreases len - i,
    {
        if !is_name_char_exec(name.get_char(i)) {
            return false;
        }
        i += 1;
    }
    true
}

/// The name of the replica set of the function `name`.
pub fn replica_set_name(name: &str) -> (res: String)
    ensures
        res@ == replica_set_of(name@),
{
    String::from_str("function-vanilla-").concat(name)
}

/// The name of the tracing pod that accompanies the replica set `replica_set`.
pub fn tracing_pod_name(replica_set: &str) -> (res: String)
    ensures
        res@ == tracing_pod_of(replica_set@),
{
    String::from_str("function-tracing-").concat(replica_set)
}

/// The name of the service of the function `name`.
pub fn service_name(name: &str) -> (res: String)
    ensures
        res@ == service_of(name@),
{
    String::from_str("function-").concat(name)
}

/// The text of the first group of `pattern` in `haystack`, from
/// `regex::Regex::new` and `regex::Regex::captures`; `None` where the pattern
/// does not compile, does not match, or has no first group that took part.
///
/// The contract speaks of one pattern only, `^function-vanilla-(.*)$`. In the
/// syntax of that crate `^` and `$` stand for the two ends of the haystack
/// and `.` for any character but a line feed, so the pattern matches exactly
/// the haystacks that begin with `function-vanilla-` and hold no line feed
/// after it, and its group is all that follows the prefix.
#[verifier::external_body]
fn first_capture(pattern: &str, haystack: &str) -> (res: Option<String>)
    ensures
        pattern@ == "^function-vanilla-(.*)$"@ ==> text_of(res) == function_of_replica_set(
            haystack@,
        ),
{
    let re = match regex::Regex::new(pattern) {
        Ok(re) => re,
        Err(_) => return None,
    };
    match re.captures(haystack) {
        Some(captures) => match captures.get(1) {
            Some(group) => Some(group.as_str().to_string()),
            None => None,
        },
        None => None,
    }
}

/// The function that owns the replica set named `replica_set`, if any.
pub fn function_name_of_replica_set(replica_set: &str) -> (res: Option<String>)
    ensures
        text_of(res) == function_of_replica_set(replica_set@),
{
    first_capture("^function-vanilla-(.*)$", replica_set)
}

/// A replica set named after a function belongs to that function.
pub proof fn lemma_replica_set_names_round_trip(name: Seq<char>)
    requires
        !name.contains('\n'),
    ensures
        function_of_replica_set(replica_set_of(name)) == Some(name),
{
    let prefix = "function-vanilla-"@;
    let full = replica_set_of(name);
    assert(full.subrange(0, prefix.len() as int) =~= prefix);
    assert(full.subrange(prefix.len() as int, full.len() as int) =~= name);
}

/// A function name holds no line feed.
pub proof fn lemma_function_name_has_no_line_feed(name: Seq<char>)
    requires
        is_function_name(name),
    ensures
        !name.contains('\n'),
{
    if name.contains('\n') {
        let i = choose|i: int| 0 <= i < name.len() && name[i] == '\n';
        assert(is_name_char(name[i]));
    }
}

} // verus!
