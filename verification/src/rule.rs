//! The whitespace-trim rule, the illustrative consumer of the value tree.
//!
//! A rule receives a mutable reference to one addressed value node and
//! reports pass or fail; on pass it may have rewritten the node in place.
//! Every variant of [`Value`] is distinguishable by exhaustive matching, so
//! a rule narrows to the shapes it understands and no-ops on the rest.

use crate::value::Value;
use vstd::prelude::*;

verus! {

/// The characters of a string after leading and trailing whitespace are
/// removed; determined by the characters alone.
pub uninterp spec fn trimmed_of(s: Seq<char>) -> Seq<char>;

/// Relies on `str::trim`: returns the slice with leading and trailing
/// whitespace removed — a subslice, so never longer than the input — and a
/// function of the characters alone.
#[verifier::external_body]
fn trim_str(s: &str) -> (r: String)
    ensures
        r@ == trimmed_of(s@),
        r@.len() <= s@.len(),
{
    s.trim().to_owned()
}

/// The kind of a user-facing violation message.
#[derive(Debug, Clone, Copy, PartialEq, Eq, Structural)]
pub enum MessageKind {
    Trim,
}

/// A user-facing violation message, identified by its kind.
#[derive(Debug, Clone, Copy, PartialEq, Eq, Structural)]
pub struct Message {
    pub kind: MessageKind,
}

impl Message {
    pub fn new(kind: MessageKind) -> (r: Message)
        ensures
            r.kind == kind,
    {
        Message { kind }
    }
}

/// Rewrites a string node by stripping its leading and trailing whitespace;
/// every other node is left untouched. The rule always passes.
#[derive(Clone)]
pub struct Trim;

impl Trim {
    /// Applies the rule to one node and reports pass.
    pub fn call(&mut self, data: &mut Value) -> (r: bool)
        ensures
            r == true,
            (*old(data)) matches Value::String(s) ==> (*final(data)) matches Value::String(t)
                && t@ == trimmed_of(s@),
            !((*old(data)) is String) ==> *final(data) == *old(data),
    {
        let trimmed = match &*data {
            Value::String(s) => Some(trim_str(s.as_str())),
            _ => None,
        };
        match trimmed {
            Some(t) => {
                *data = Value::String(t);
            },
            None => {},
        }
        true
    }

    /// The message kind used to build this rule's violation message.
    pub fn message(&self) -> (m: Message)
        ensures
            m.kind == MessageKind::Trim,
    {
        Message::new(MessageKind::Trim)
    }

    /// The rule's stable name, for diagnostics.
    pub fn name(&self) -> (n: &'static str)
        ensures
            n@ == "trim"@,
    {
        "trim"
    }
}

} // verus!
