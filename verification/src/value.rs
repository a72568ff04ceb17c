//! The keyed data model the engine consumes: a tree of plain values, and the
//! typed decoders the dispatch tables demand per key.
use vstd::prelude::*;

use crate::error::rres;
use crate::error::vres;
use crate::error::Error;
use crate::error::ErrorV;

verus! {

/// Specification-level image of [`Value`].
pub enum ValueV {
    Null,
    Bool(bool),
    Int(int),
    Real(Seq<char>),
    Str(Seq<char>),
    List(Seq<ValueV>),
    Obj(Seq<(Seq<char>, ValueV)>),
}

/// One node of a keyed data source: what any structured-text front end hands
/// the engine.  An `Obj` keeps its entries in the order the source presented
/// them.  A `Real` keeps the numeric literal as text; no key of any dispatch
/// table demands a real, so such a value only ever yields a type mismatch.
#[derive(Debug)]
pub enum Value {
    Null,
    Bool(bool),
    Int(i64),
    Real(String),
    Str(String),
    List(Vec<Value>),
    Obj(Vec<(String, Value)>),
}

pub open spec fn view_items(items: Seq<Value>) -> Seq<ValueV>
    decreases items,
{
    if items.len() == 0 {
        Seq::empty()
    } else {
        view_items(items.subrange(0, items.len() - 1)).push(view_value(items[items.len() - 1]))
    }
}

pub open spec fn view_entries(entries: Seq<(String, Value)>) -> Seq<(Seq<char>, ValueV)>
    decreases entries,
{
    if entries.len() == 0 {
        Seq::empty()
    } else {
        view_entries(entries.subrange(0, entries.len() - 1)).push(
            (entries[entries.len() - 1].0@, view_value(entries[entries.len() - 1].1)),
        )
    }
}

pub open spec fn view_value(v: Value) -> ValueV
    decreases v,
{
    match v {
        Value::Null => ValueV::Null,
        Value::Bool(b) => ValueV::Bool(b),
        Value::Int(i) => ValueV::Int(i as int),
        Value::Real(s) => ValueV::Real(s@),
        Value::Str(s) => ValueV::Str(s@),
        Value::List(items) => ValueV::List(view_items(items@)),
        Value::Obj(entries) => ValueV::Obj(view_entries(entries@)),
    }
}

impl View for Value {
    type V = ValueV;

    open spec fn view(&self) -> ValueV {
        view_value(*self)
    }
}

impl DeepView for Value {
    type V = ValueV;

    open spec fn deep_view(&self) -> ValueV {
        view_value(*self)
    }
}

/// The name of a value's shape, as the type-mismatch diagnostics report it.
pub open spec fn kind_of(v: Value) -> Seq<char> {
    match v {
        Value::Null => "null"@,
        Value::Bool(_) => "boolean"@,
        Value::Int(_) => "integer"@,
        Value::Real(_) => "real"@,
        Value::Str(_) => "string"@,
        Value::List(_) => "sequence"@,
        Value::Obj(_) => "map"@,
    }
}

pub open spec fn mismatch(expected: Seq<char>, v: Value) -> ErrorV {
    ErrorV::TypeMismatch { expected, found: kind_of(v) }
}

fn kind_name(v: &Value) -> (r: &'static str)
    ensures
        r@ == kind_of(*v),
{
    match v {
        Value::Null => "null",
        Value::Bool(_) => "boolean",
        Value::Int(_) => "integer",
        Value::Real(_) => "real",
        Value::Str(_) => "string",
        Value::List(_) => "sequence",
        Value::Obj(_) => "map",
    }
}

pub(crate) fn mismatch_err(expected: &str, v: &Value) -> (e: Error)
    ensures
        e@ == mismatch(expected@, *v),
{
    Error::TypeMismatch { expected: expected.to_owned(), found: kind_name(v).to_owned() }
}

pub open spec fn str_of(v: Value) -> Result<String, ErrorV> {
    match v {
        Value::Str(s) => Result::Ok(s),
        _ => Result::Err(mismatch("string"@, v)),
    }
}

pub fn as_str(v: &Value) -> (r: Result<String, Error>)
    ensures
        rres(r) == str_of(*v),
{
    match v {
        Value::Str(s) => Ok(s.clone()),
        _ => Err(mismatch_err("string", v)),
    }
}

pub open spec fn opt_str_of(v: Value) -> Result<Option<String>, ErrorV> {
    match v {
        Value::Null => Result::Ok(Option::None),
        Value::Str(s) => Result::Ok(Option::Some(s)),
        _ => Result::Err(mismatch("string or null"@, v)),
    }
}

pub fn as_opt_str(v: &Value) -> (r: Result<Option<String>, Error>)
    ensures
        rres(r) == opt_str_of(*v),
{
    match v {
        Value::Null => Ok(None),
        Value::Str(s) => Ok(Some(s.clone())),
        _ => Err(mismatch_err("string or null", v)),
    }
}

pub open spec fn bool_of(v: Value) -> Result<bool, ErrorV> {
    match v {
        Value::Bool(b) => Result::Ok(b),
        _ => Result::Err(mismatch("boolean"@, v)),
    }
}

pub fn as_bool(v: &Value) -> (r: Result<bool, Error>)
    ensures
        rres(r) == bool_of(*v),
{
    match v {
        Value::Bool(b) => Ok(*b),
        _ => Err(mismatch_err("boolean", v)),
    }
}

pub open spec fn usize_of(v: Value) -> Result<usize, ErrorV> {
    match v {
        Value::Int(i) => if 0 <= i && i <= usize::MAX {
            Result::Ok(i as usize)
        } else {
            Result::Err(mismatch("unsigned integer"@, v))
        },
        _ => Result::Err(mismatch("unsigned integer"@, v)),
    }
}

pub fn as_usize(v: &Value) -> (r: Result<usize, Error>)
    ensures
        rres(r) == usize_of(*v),
{
    match v {
        Value::Int(i) => {
            if 0 <= *i && (*i as u64) <= (usize::MAX as u64) {
                Ok(*i as usize)
            } else {
                Err(mismatch_err("unsigned integer", v))
            }
        },
        _ => Err(mismatch_err("unsigned integer", v)),
    }
}

pub open spec fn opt_usize_of(v: Value) -> Result<Option<usize>, ErrorV> {
    match v {
        Value::Null => Result::Ok(Option::None),
        _ => match usize_of(v) {
            Result::Ok(u) => Result::Ok(Option::Some(u)),
            Result::Err(e) => Result::Err(e),
        },
    }
}

pub fn as_opt_usize(v: &Value) -> (r: Result<Option<usize>, Error>)
    ensures
        rres(r) == opt_usize_of(*v),
{
    match v {
        Value::Null => Ok(None),
        _ => match as_usize(v) {
            Ok(u) => Ok(Some(u)),
            Err(e) => Err(e),
        },
    }
}

pub open spec fn char_of(v: Value) -> Result<char, ErrorV> {
    match v {
        Value::Str(s) => if s@.len() == 1 {
            Result::Ok(s@[0])
        } else {
            Result::Err(mismatch("character"@, v))
        },
        _ => Result::Err(mismatch("character"@, v)),
    }
}

pub fn as_char(v: &Value) -> (r: Result<char, Error>)
    ensures
        rres(r) == char_of(*v),
{
    match v {
        Value::Str(s) => {
            if s.as_str().unicode_len() == 1 {
                Ok(s.as_str().get_char(0))
            } else {
                Err(mismatch_err("character", v))
            }
        },
        _ => Err(mismatch_err("character", v)),
    }
}

pub open spec fn str_items_of(items: Seq<Value>) -> Result<Seq<String>, ErrorV>
    decreases items.len(),
{
    if items.len() == 0 {
        Result::Ok(Seq::empty())
    } else {
        match str_items_of(items.drop_last()) {
            Result::Err(e) => Result::Err(e),
            Result::Ok(pre) => match str_of(items.last()) {
                Result::Ok(x) => Result::Ok(pre.push(x)),
                Result::Err(e) => Result::Err(e),
            },
        }
    }
}

/// Once a prefix fails, the whole sequence fails with that prefix's error:
/// decoding is a left-to-right fold that stops at the first bad element.
pub proof fn lemma_str_items_err(items: Seq<Value>, k: int)
    requires
        0 <= k <= items.len(),
        str_items_of(items.take(k)) is Err,
    ensures
        str_items_of(items) == str_items_of(items.take(k)),
    decreases items.len() - k,
{
    if k < items.len() {
        assert(items.take(k + 1).drop_last() =~= items.take(k));
        assert(str_items_of(items.take(k + 1)) == str_items_of(items.take(k)));
        lemma_str_items_err(items, k + 1);
    } else {
        assert(items.take(k) =~= items);
    }
}

pub open spec fn strs_of(v: Value) -> Result<Seq<String>, ErrorV> {
    match v {
        Value::List(items) => str_items_of(items@),
        _ => Result::Err(mismatch("sequence"@, v)),
    }
}

#[verifier::loop_isolation(false)]
pub fn as_strs(v: &Value) -> (r: Result<Vec<String>, Error>)
    ensures
        vres(r) == strs_of(*v),
{
    match v {
        Value::List(items) => {
            let mut out: Vec<String> = Vec::new();
            let n: usize = items.len();
            let mut i: usize = 0;
            proof {
                assert(items@.take(0) =~= Seq::<Value>::empty());
                assert(out@ =~= Seq::<String>::empty());
            }
            while i < n
                invariant
                    i <= n,
                    n == items@.len(),
                    str_items_of(items@.take(i as int)) == Result::<Seq<String>, ErrorV>::Ok(out@),
                decreases n - i,
            {
                proof {
                    assert(items@.take(i as int + 1).drop_last() =~= items@.take(i as int));
                    assert(items@.take(i as int + 1).last() == items@[i as int]);
                }
                match as_str(&items[i]) {
                    Ok(x) => {
                        out.push(x);
                    },
                    Err(e) => {
                        proof {
                            assert(str_items_of(items@.take(i as int + 1)) == Result::<
                                Seq<String>,
                                ErrorV,
                            >::Err(e@));
                            lemma_str_items_err(items@, i as int + 1);
                        }
                        return Err(e);
                    },
                }
                i = i + 1;
            }
            proof {
                assert(items@.take(n as int) =~= items@);
            }
            Ok(out)
        },
        _ => Err(mismatch_err("sequence", v)),
    }
}

} // verus!
