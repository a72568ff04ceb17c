//! The argument-group entity: its builder model.
use vstd::prelude::*;


verus! {

/// Specification-level image of [`Group`].
pub struct GroupV {
    pub id: String,
    pub args: Seq<String>,
    pub conflicts: Seq<String>,
    pub requires: Seq<String>,
    pub multiple: bool,
    pub required: bool,
}

/// The mutable builder the engine configures: one field per settable
/// property, each a plain value.  No field is ever un-set; the builder is
/// created once per decode run and mutated monotonically.
#[derive(Debug)]
pub struct Group {
    pub id: String,
    pub args: Vec<String>,
    pub conflicts: Vec<String>,
    pub requires: Vec<String>,
    pub multiple: bool,
    pub required: bool,
}

pub open spec fn view_group(a: Group) -> GroupV
{
    GroupV {
        id: a.id,
        args: a.args@,
        conflicts: a.conflicts@,
        requires: a.requires@,
        multiple: a.multiple,
        required: a.required,
    }
}

impl View for Group {
    type V = GroupV;

    open spec fn view(&self) -> GroupV {
        view_group(*self)
    }
}

impl DeepView for Group {
    type V = GroupV;

    open spec fn deep_view(&self) -> GroupV {
        view_group(*self)
    }
}

/// A fresh builder seeded with its identifying attribute.
pub open spec fn group_init(name: String) -> GroupV {
    GroupV {
        id: name,
        args: Seq::empty(),
        conflicts: Seq::empty(),
        requires: Seq::empty(),
        multiple: false,
        required: false,
    }
}

impl Group {
    pub fn new(name: String) -> (r: Group)
        ensures
            r@ == group_init(name),
    {
        let r = Group {
            id: name,
            args: Vec::new(),
            conflicts: Vec::new(),
            requires: Vec::new(),
            multiple: false,
            required: false,
        };
        r
    }
}

} // verus!
