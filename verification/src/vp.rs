//! The value-parser model: what kind of values an argument accepts, with an
//! optional numeric range.
//!
//! On the wire a value parser has two equivalent forms, tried in a fixed
//! order: a bare variant name (`"i64"`), or a tagged map carrying a `type`
//! field plus optional range parameters (`{type: "i64", min: 3}`).  The bare
//! form is attempted first and equals the tagged form with no parameters.
use vstd::prelude::*;

use crate::error::dres;
use crate::error::Error;
use crate::error::ErrorV;
use crate::normalize::normalize;
use crate::normalize::normalize_spec;
use crate::normalize::str_eq;
use crate::normalize::KeyCase;
use crate::value::as_bool;
use crate::value::bool_of;
use crate::value::mismatch;
use crate::value::mismatch_err;
use crate::value::Value;

verus! {

/// The integer width a ranged parser checks values against.
#[derive(Debug, Clone, Copy, PartialEq, Eq, Structural)]
pub enum NumKind {
    I64,
    I32,
    I16,
    I8,
    U64,
    U32,
    U16,
    U8,
}

/// A decoded value parser.  `Range` bounds are kept as plain integers checked
/// against the kind's width at decode time; `max_inclusive` tells whether the
/// upper bound itself is admitted.
#[derive(Debug, Clone, Copy, PartialEq, Eq, Structural)]
pub enum Vp {
    Bool,
    Str,
    OsStr,
    Path,
    Boolish,
    Falsey,
    NonEmptyStr,
    Range { kind: NumKind, min: Option<i64>, max: Option<i64>, max_inclusive: bool },
}

impl DeepView for Vp {
    type V = Vp;

    open spec fn deep_view(&self) -> Vp {
        *self
    }
}

/// The default of the `max_inclusive` range field: an upper bound is taken
/// inclusively unless the source says otherwise.
pub fn get_true() -> (b: bool)
    ensures
        b,
{
    true
}

pub open spec fn kind_min(k: NumKind) -> int {
    match k {
        NumKind::I64 => i64::MIN as int,
        NumKind::I32 => i32::MIN as int,
        NumKind::I16 => i16::MIN as int,
        NumKind::I8 => i8::MIN as int,
        _ => 0,
    }
}

pub open spec fn kind_max(k: NumKind) -> int {
    match k {
        NumKind::I64 => i64::MAX as int,
        NumKind::I32 => i32::MAX as int,
        NumKind::I16 => i16::MAX as int,
        NumKind::I8 => i8::MAX as int,
        NumKind::U64 => i64::MAX as int,
        NumKind::U32 => u32::MAX as int,
        NumKind::U16 => u16::MAX as int,
        NumKind::U8 => u8::MAX as int,
    }
}

pub open spec fn kind_label(k: NumKind) -> Seq<char> {
    match k {
        NumKind::I64 => "i64"@,
        NumKind::I32 => "i32"@,
        NumKind::I16 => "i16"@,
        NumKind::I8 => "i8"@,
        NumKind::U64 => "u64"@,
        NumKind::U32 => "u32"@,
        NumKind::U16 => "u16"@,
        NumKind::U8 => "u8"@,
    }
}

/// The bare form: a variant name in the deployment's casing convention.
pub open spec fn vp_bare(n: Seq<char>, raw: Seq<char>) -> Result<Vp, ErrorV> {
    if n == "bool"@ {
        Result::Ok(Vp::Bool)
    } else if n == "string"@ {
        Result::Ok(Vp::Str)
    } else if n == "os_string"@ {
        Result::Ok(Vp::OsStr)
    } else if n == "path_buf"@ {
        Result::Ok(Vp::Path)
    } else if n == "boolish"@ {
        Result::Ok(Vp::Boolish)
    } else if n == "falsey"@ {
        Result::Ok(Vp::Falsey)
    } else if n == "non_empty_string"@ {
        Result::Ok(Vp::NonEmptyStr)
    } else if n == "i64"@ {
        Result::Ok(Vp::Range { kind: NumKind::I64, min: None, max: None, max_inclusive: true })
    } else if n == "i32"@ {
        Result::Ok(Vp::Range { kind: NumKind::I32, min: None, max: None, max_inclusive: true })
    } else if n == "i16"@ {
        Result::Ok(Vp::Range { kind: NumKind::I16, min: None, max: None, max_inclusive: true })
    } else if n == "i8"@ {
        Result::Ok(Vp::Range { kind: NumKind::I8, min: None, max: None, max_inclusive: true })
    } else if n == "u64"@ {
        Result::Ok(Vp::Range { kind: NumKind::U64, min: None, max: None, max_inclusive: true })
    } else if n == "u32"@ {
        Result::Ok(Vp::Range { kind: NumKind::U32, min: None, max: None, max_inclusive: true })
    } else if n == "u16"@ {
        Result::Ok(Vp::Range { kind: NumKind::U16, min: None, max: None, max_inclusive: true })
    } else if n == "u8"@ {
        Result::Ok(Vp::Range { kind: NumKind::U8, min: None, max: None, max_inclusive: true })
    } else {
        Result::Err(ErrorV::TypeMismatch { expected: "value parser"@, found: raw })
    }
}

/// The field names the tagged form accepts.
pub open spec fn vp_field_names() -> Seq<Seq<char>> {
    seq!["type"@, "min"@, "max"@, "max_inclusive"@]
}

pub open spec fn int_of(v: Value) -> Result<i64, ErrorV> {
    match v {
        Value::Int(i) => Result::Ok(i),
        _ => Result::Err(mismatch("integer"@, v)),
    }
}

fn as_int(v: &Value) -> (r: Result<i64, Error>)
    ensures
        dres(r) == int_of(*v),
{
    match v {
        Value::Int(i) => Ok(*i),
        _ => Err(mismatch_err("integer", v)),
    }
}

pub open spec fn dup_field(k: Seq<char>) -> ErrorV {
    ErrorV::TypeMismatch { expected: "one occurrence of the field"@, found: k }
}

/// The fields of the tagged form, before the tag is interpreted.
pub struct VpFieldsV {
    pub ty: Option<Seq<char>>,
    pub min: Option<i64>,
    pub max: Option<i64>,
    pub max_inclusive: Option<bool>,
}

/// Folds the tagged form's entries left to right.  A repeated field and a
/// field outside [`vp_field_names`] are rejected; the tag may stand anywhere.
pub open spec fn vp_fields(entries: Seq<(String, Value)>) -> Result<VpFieldsV, ErrorV>
    decreases entries.len(),
{
    if entries.len() == 0 {
        Result::Ok(VpFieldsV { ty: None, min: None, max: None, max_inclusive: None })
    } else {
        match vp_fields(entries.drop_last()) {
            Result::Err(e) => Result::Err(e),
            Result::Ok(st) => {
                let k = entries.last().0@;
                let v = entries.last().1;
                if k == "type"@ {
                    if st.ty is Some {
                        Result::Err(dup_field(k))
                    } else {
                        match v {
                            Value::Str(s) => Result::Ok(VpFieldsV { ty: Some(s@), ..st }),
                            _ => Result::Err(mismatch("string"@, v)),
                        }
                    }
                } else if k == "min"@ {
                    if st.min is Some {
                        Result::Err(dup_field(k))
                    } else {
                        match int_of(v) {
                            Result::Ok(i) => Result::Ok(VpFieldsV { min: Some(i), ..st }),
                            Result::Err(e) => Result::Err(e),
                        }
                    }
                } else if k == "max"@ {
                    if st.max is Some {
                        Result::Err(dup_field(k))
                    } else {
                        match int_of(v) {
                            Result::Ok(i) => Result::Ok(VpFieldsV { max: Some(i), ..st }),
                            Result::Err(e) => Result::Err(e),
                        }
                    }
                } else if k == "max_inclusive"@ {
                    if st.max_inclusive is Some {
                        Result::Err(dup_field(k))
                    } else {
                        match bool_of(v) {
                            Result::Ok(b) => Result::Ok(
                                VpFieldsV { max_inclusive: Some(b), ..st },
                            ),
                            Result::Err(e) => Result::Err(e),
                        }
                    }
                } else {
                    Result::Err(ErrorV::UnknownField { key: k, valid: vp_field_names() })
                }
            },
        }
    }
}

/// Once a prefix of the tagged form fails, the whole form fails the same way.
pub proof fn lemma_vp_fields_err(entries: Seq<(String, Value)>, k: int)
    requires
        0 <= k <= entries.len(),
        vp_fields(entries.take(k)) is Err,
    ensures
        vp_fields(entries) == vp_fields(entries.take(k)),
    decreases entries.len() - k,
{
    if k < entries.len() {
        assert(entries.take(k + 1).drop_last() =~= entries.take(k));
        assert(vp_fields(entries.take(k + 1)) == vp_fields(entries.take(k)));
        lemma_vp_fields_err(entries, k + 1);
    } else {
        assert(entries.take(k) =~= entries);
    }
}

/// Interprets the folded fields: the tag picks the variant, the range fields
/// apply to the integer kinds only and must fit the kind's width.
pub open spec fn vp_tagged(kc: KeyCase, entries: Seq<(String, Value)>) -> Result<Vp, ErrorV> {
    match vp_fields(entries) {
        Result::Err(e) => Result::Err(e),
        Result::Ok(st) => match st.ty {
            None => Result::Err(ErrorV::MissingRequiredField { field: "type"@ }),
            Some(raw) => {
                let n = normalize_spec(kc, raw);
                match vp_bare(n, raw) {
                    Result::Err(e) => Result::Err(e),
                    Result::Ok(vp) => match vp {
                        Vp::Range { kind, .. } => {
                            let lo = kind_min(kind);
                            let hi = kind_max(kind);
                            if (match st.min {
                                Some(m) => !(lo <= m <= hi),
                                None => false,
                            }) {
                                Result::Err(
                                    ErrorV::TypeMismatch {
                                        expected: kind_label(kind),
                                        found: "integer"@,
                                    },
                                )
                            } else if (match st.max {
                                Some(m) => !(lo <= m <= hi),
                                None => false,
                            }) {
                                Result::Err(
                                    ErrorV::TypeMismatch {
                                        expected: kind_label(kind),
                                        found: "integer"@,
                                    },
                                )
                            } else {
                                Result::Ok(
                                    Vp::Range {
                                        kind,
                                        min: st.min,
                                        max: st.max,
                                        max_inclusive: match st.max_inclusive {
                                            Some(b) => b,
                                            None => true,
                                        },
                                    },
                                )
                            }
                        },
                        simple => if st.min is Some || st.max is Some || st.max_inclusive
                            is Some {
                            Result::Err(
                                ErrorV::TypeMismatch {
                                    expected: "integer value parser"@,
                                    found: raw,
                                },
                            )
                        } else {
                            Result::Ok(simple)
                        },
                    },
                }
            },
        },
    }
}

/// A value parser is decoded from its bare form where the value is a string,
/// and from its tagged form where the value is a map; the first matching form
/// wins and anything else fails.
pub open spec fn vp_of(kc: KeyCase, v: Value) -> Result<Vp, ErrorV> {
    match v {
        Value::Str(s) => vp_bare(normalize_spec(kc, s@), s@),
        Value::Obj(entries) => vp_tagged(kc, entries@),
        _ => Result::Err(mismatch("string or map"@, v)),
    }
}

fn decode_vp_bare(kc: KeyCase, s: &String) -> (r: Result<Vp, Error>)
    ensures
        dres(r) == vp_bare(normalize_spec(kc, s@), s@),
{
    let n = normalize(kc, s.as_str());
    if str_eq(n.as_str(), "bool") {
        Ok(Vp::Bool)
    } else if str_eq(n.as_str(), "string") {
        Ok(Vp::Str)
    } else if str_eq(n.as_str(), "os_string") {
        Ok(Vp::OsStr)
    } else if str_eq(n.as_str(), "path_buf") {
        Ok(Vp::Path)
    } else if str_eq(n.as_str(), "boolish") {
        Ok(Vp::Boolish)
    } else if str_eq(n.as_str(), "falsey") {
        Ok(Vp::Falsey)
    } else if str_eq(n.as_str(), "non_empty_string") {
        Ok(Vp::NonEmptyStr)
    } else if str_eq(n.as_str(), "i64") {
        Ok(Vp::Range { kind: NumKind::I64, min: None, max: None, max_inclusive: true })
    } else if str_eq(n.as_str(), "i32") {
        Ok(Vp::Range { kind: NumKind::I32, min: None, max: None, max_inclusive: true })
    } else if str_eq(n.as_str(), "i16") {
        Ok(Vp::Range { kind: NumKind::I16, min: None, max: None, max_inclusive: true })
    } else if str_eq(n.as_str(), "i8") {
        Ok(Vp::Range { kind: NumKind::I8, min: None, max: None, max_inclusive: true })
    } else if str_eq(n.as_str(), "u64") {
        Ok(Vp::Range { kind: NumKind::U64, min: None, max: None, max_inclusive: true })
    } else if str_eq(n.as_str(), "u32") {
        Ok(Vp::Range { kind: NumKind::U32, min: None, max: None, max_inclusive: true })
    } else if str_eq(n.as_str(), "u16") {
        Ok(Vp::Range { kind: NumKind::U16, min: None, max: None, max_inclusive: true })
    } else if str_eq(n.as_str(), "u8") {
        Ok(Vp::Range { kind: NumKind::U8, min: None, max: None, max_inclusive: true })
    } else {
        Err(Error::TypeMismatch { expected: "value parser".to_owned(), found: s.clone() })
    }
}

fn kind_bounds(kind: NumKind) -> (r: (i64, i64))
    ensures
        r.0 == kind_min(kind),
        r.1 == kind_max(kind),
{
    match kind {
        NumKind::I64 => (i64::MIN, i64::MAX),
        NumKind::I32 => (i32::MIN as i64, i32::MAX as i64),
        NumKind::I16 => (i16::MIN as i64, i16::MAX as i64),
        NumKind::I8 => (i8::MIN as i64, i8::MAX as i64),
        NumKind::U64 => (0, i64::MAX),
        NumKind::U32 => (0, u32::MAX as i64),
        NumKind::U16 => (0, u16::MAX as i64),
        NumKind::U8 => (0, u8::MAX as i64),
    }
}

fn kind_label_exec(kind: NumKind) -> (r: &'static str)
    ensures
        r@ == kind_label(kind),
{
    match kind {
        NumKind::I64 => "i64",
        NumKind::I32 => "i32",
        NumKind::I16 => "i16",
        NumKind::I8 => "i8",
        NumKind::U64 => "u64",
        NumKind::U32 => "u32",
        NumKind::U16 => "u16",
        NumKind::U8 => "u8",
    }
}

#[verifier::loop_isolation(false)]
fn decode_vp_tagged(kc: KeyCase, entries: &Vec<(String, Value)>) -> (r: Result<Vp, Error>)
    ensures
        dres(r) == vp_tagged(kc, entries@),
{
    let mut ty: Option<String> = None;
    let mut min: Option<i64> = None;
    let mut max: Option<i64> = None;
    let mut max_inclusive: Option<bool> = None;
    let n: usize = entries.len();
    let mut i: usize = 0;
    proof {
        assert(entries@.take(0) =~= Seq::<(String, Value)>::empty());
    }
    while i < n
        invariant
            i <= n,
            vp_fields(entries@.take(i as int)) == Result::<VpFieldsV, ErrorV>::Ok(
                VpFieldsV {
                    ty: ty.deep_view(),
                    min,
                    max,
                    max_inclusive,
                },
            ),
        decreases n - i,
    {
        proof {
            assert(entries@.take(i as int + 1).drop_last() =~= entries@.take(i as int));
            assert(entries@.take(i as int + 1).last() == entries@[i as int]);
        }
        let k = &entries[i].0;
        let v = &entries[i].1;
        if str_eq(k.as_str(), "type") {
            if ty.is_some() {
                proof {
                    lemma_vp_fields_err(entries@, i as int + 1);
                }
                return Err(
                    Error::TypeMismatch {
                        expected: "one occurrence of the field".to_owned(),
                        found: k.clone(),
                    },
                );
            }
            match v {
                Value::Str(s) => {
                    ty = Some(s.clone());
                },
                _ => {
                    proof {
                        lemma_vp_fields_err(entries@, i as int + 1);
                    }
                    return Err(mismatch_err("string", v));
                },
            }
        } else if str_eq(k.as_str(), "min") {
            if min.is_some() {
                proof {
                    lemma_vp_fields_err(entries@, i as int + 1);
                }
                return Err(
                    Error::TypeMismatch {
                        expected: "one occurrence of the field".to_owned(),
                        found: k.clone(),
                    },
                );
            }
            match as_int(v) {
                Ok(x) => {
                    min = Some(x);
                },
                Err(e) => {
                    proof {
                        lemma_vp_fields_err(entries@, i as int + 1);
                    }
                    return Err(e);
                },
            }
        } else if str_eq(k.as_str(), "max") {
            if max.is_some() {
                proof {
                    lemma_vp_fields_err(entries@, i as int + 1);
                }
                return Err(
                    Error::TypeMismatch {
                        expected: "one occurrence of the field".to_owned(),
                        found: k.clone(),
                    },
                );
            }
            match as_int(v) {
                Ok(x) => {
                    max = Some(x);
                },
                Err(e) => {
                    proof {
                        lemma_vp_fields_err(entries@, i as int + 1);
                    }
                    return Err(e);
                },
            }
        } else if str_eq(k.as_str(), "max_inclusive") {
            if max_inclusive.is_some() {
                proof {
                    lemma_vp_fields_err(entries@, i as int + 1);
                }
                return Err(
                    Error::TypeMismatch {
                        expected: "one occurrence of the field".to_owned(),
                        found: k.clone(),
                    },
                );
            }
            match as_bool(v) {
                Ok(b) => {
                    max_inclusive = Some(b);
                },
                Err(e) => {
                    proof {
                        lemma_vp_fields_err(entries@, i as int + 1);
                    }
                    return Err(e);
                },
            }
        } else {
            proof {
                lemma_vp_fields_err(entries@, i as int + 1);
            }
            let valid: Vec<String> = vec![
                "type".to_owned(),
                "min".to_owned(),
                "max".to_owned(),
                "max_inclusive".to_owned(),
            ];
            proof {
                assert(valid.deep_view() =~= vp_field_names());
            }
            return Err(Error::UnknownField { key: k.clone(), valid });
        }
        i = i + 1;
    }
    proof {
        assert(entries@.take(n as int) =~= entries@);
    }
    let raw = match ty {
        Some(raw) => raw,
        None => {
            return Err(Error::MissingRequiredField { field: "type".to_owned() });
        },
    };
    let vp = match decode_vp_bare(kc, &raw) {
        Ok(vp) => vp,
        Err(_) => {
            return Err(Error::TypeMismatch { expected: "value parser".to_owned(), found: raw });
        },
    };
    match vp {
        Vp::Range { kind, .. } => {
            let (lo, hi) = kind_bounds(kind);
            if (match min {
                Some(m) => !(lo <= m && m <= hi),
                None => false,
            }) {
                return Err(
                    Error::TypeMismatch {
                        expected: kind_label_exec(kind).to_owned(),
                        found: "integer".to_owned(),
                    },
                );
            }
            if (match max {
                Some(m) => !(lo <= m && m <= hi),
                None => false,
            }) {
                return Err(
                    Error::TypeMismatch {
                        expected: kind_label_exec(kind).to_owned(),
                        found: "integer".to_owned(),
                    },
                );
            }
            let max_inclusive = match max_inclusive {
                Some(b) => b,
                None => get_true(),
            };
            Ok(Vp::Range { kind, min, max, max_inclusive })
        },
        simple => {
            if min.is_some() || max.is_some() || max_inclusive.is_some() {
                return Err(
                    Error::TypeMismatch {
                        expected: "integer value parser".to_owned(),
                        found: raw,
                    },
                );
            }
            Ok(simple)
        },
    }
}

/// Decodes a value parser, trying the bare form first and falling back to the
/// tagged form.
pub fn decode_vp(kc: KeyCase, v: &Value) -> (r: Result<Vp, Error>)
    ensures
        dres(r) == vp_of(kc, *v),
{
    match v {
        Value::Str(s) => decode_vp_bare(kc, s),
        Value::Obj(entries) => decode_vp_tagged(kc, entries),
        _ => Err(mismatch_err("string or map", v)),
    }
}

/// Fallback decoding: for a value-parser name accepted in bare form, the bare
/// form and the tagged form that carries only that name decode to equal
/// parsers.
pub proof fn lemma_vp_fallback(kc: KeyCase, bare: Value, tagged: Value)
    requires
        bare is Str,
        tagged is Obj,
        tagged->Obj_0@.len() == 1,
        tagged->Obj_0@[0].0@ == "type"@,
        tagged->Obj_0@[0].1 is Str,
        tagged->Obj_0@[0].1->Str_0@ == bare->Str_0@,
        vp_of(kc, bare) is Ok,
    ensures
        vp_of(kc, tagged) == vp_of(kc, bare),
{
    let entries = tagged->Obj_0@;
    assert(entries.drop_last() =~= Seq::<(String, Value)>::empty());
    assert(vp_fields(entries.drop_last()) == Result::<VpFieldsV, ErrorV>::Ok(
        VpFieldsV { ty: None, min: None, max: None, max_inclusive: None },
    ));
}

} // verus!
