//! The inverse direction's policy knobs: what a writer of key/value data
//! includes when it walks a configured builder.
use vstd::prelude::*;

use crate::value::Value;

verus! {

/// Policy consulted by writers of key/value data: when `serialize_all` is
/// false, flags that are off and values that are unset are skipped.
pub trait SerializeConfig {
    fn serialize_all(&self) -> bool;
}

/// The policy that writes every field, set or not.
#[derive(Debug, Clone, Copy)]
pub struct NoSkip;

impl SerializeConfig for NoSkip {
    /// The all-fields policy always answers yes.
    fn serialize_all(&self) -> (b: bool)
        ensures
            b,
    {
        true
    }
}

/// A buffered sequence of values on its way out to a data sink.
pub struct IterSer {
    pub items: Vec<Value>,
}

impl IterSer {
    pub fn new(items: Vec<Value>) -> (r: IterSer)
        ensures
            r.items@ == items@,
    {
        IterSer { items }
    }

    /// The buffered items as one sequence value.
    pub fn into_value(self) -> (r: Value)
        ensures
            r is List,
            r->List_0@ == self.items@,
    {
        Value::List(self.items)
    }
}

} // verus!
