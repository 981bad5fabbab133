//! What the trace compilers share.
use vstd::prelude::*;

verus! {

/// An expression of a trace that has no parts.
#[derive(Debug)]
pub enum TrexpAtom {
    Bool(bool),
    Int(i32),
    Id(String),
}

} // verus!
