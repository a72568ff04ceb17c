//! The dispatch table and decode engine of the argument-group entity.
use vstd::prelude::*;

use crate::error::dres;
use crate::error::rres;
use crate::error::vres;
use crate::error::Error;
use crate::error::ErrorV;
use crate::group::group_init;
use crate::group::Group;
use crate::group::GroupV;
use crate::normalize::normalize;
use crate::normalize::normalize_spec;
use crate::normalize::str_eq;
use crate::value::as_bool;
use crate::value::as_str;
use crate::value::as_strs;
use crate::value::bool_of;
use crate::value::mismatch;
use crate::value::mismatch_err;
use crate::value::str_of;
use crate::value::strs_of;
use crate::value::Value;
use crate::DecodeConfig;

verus! {

#[derive(Debug, Clone, Copy, PartialEq, Eq, Structural)]
pub enum GroupListField {
    Args,
    Conflicts,
    Requires,
}

#[derive(Debug, Clone, Copy, PartialEq, Eq, Structural)]
pub enum GroupFlagField {
    Multiple,
    Required,
}

/// The dispatch entry one canonical key resolves to: which setter runs,
/// on which field, or which policy (deprecation, retirement, unknown key)
/// applies.  The table is closed: every key resolves to exactly one entry.
#[derive(Debug, Clone, Copy)]
pub enum GroupRule {
    PushStr(GroupListField),
    ExtendStr(GroupListField),
    SetName,
    SetFlag(GroupFlagField),
    Renamed,
    Unknown,
}

/// The static dispatch table: canonical key to entry.
#[verifier::opaque]
pub open spec fn group_rule(k: Seq<char>) -> GroupRule {
    if k == "arg"@ {
        GroupRule::PushStr(GroupListField::Args)
    } else if k == "args"@ {
        GroupRule::ExtendStr(GroupListField::Args)
    } else if k == "conflicts_with"@ {
        GroupRule::PushStr(GroupListField::Conflicts)
    } else if k == "conflicts_with_all"@ {
        GroupRule::ExtendStr(GroupListField::Conflicts)
    } else if k == "id"@ {
        GroupRule::SetName
    } else if k == "multiple"@ {
        GroupRule::SetFlag(GroupFlagField::Multiple)
    } else if k == "required"@ {
        GroupRule::SetFlag(GroupFlagField::Required)
    } else if k == "requires"@ {
        GroupRule::PushStr(GroupListField::Requires)
    } else if k == "requires_all"@ {
        GroupRule::ExtendStr(GroupListField::Requires)
    } else if k == "name"@ {
        GroupRule::Renamed
    } else {
        GroupRule::Unknown
    }
}

#[verifier::rlimit(100)]
#[verifier::spinoff_prover]
pub fn group_rule_exec(k: &str) -> (r: GroupRule)
    ensures
        r == group_rule(k@),
{
    proof {
        reveal(group_rule);
    }
    if str_eq(k, "arg") {
        GroupRule::PushStr(GroupListField::Args)
    } else if str_eq(k, "args") {
        GroupRule::ExtendStr(GroupListField::Args)
    } else if str_eq(k, "conflicts_with") {
        GroupRule::PushStr(GroupListField::Conflicts)
    } else if str_eq(k, "conflicts_with_all") {
        GroupRule::ExtendStr(GroupListField::Conflicts)
    } else if str_eq(k, "id") {
        GroupRule::SetName
    } else if str_eq(k, "multiple") {
        GroupRule::SetFlag(GroupFlagField::Multiple)
    } else if str_eq(k, "required") {
        GroupRule::SetFlag(GroupFlagField::Required)
    } else if str_eq(k, "requires") {
        GroupRule::PushStr(GroupListField::Requires)
    } else if str_eq(k, "requires_all") {
        GroupRule::ExtendStr(GroupListField::Requires)
    } else if str_eq(k, "name") {
        GroupRule::Renamed
    } else {
        GroupRule::Unknown
    }
}

/// The successor of a deprecated-with-replacement key.
pub open spec fn group_replacement(k: Seq<char>) -> Seq<char> {
    if k == "name"@ {
        "id"@
    } else {
        k
    }
}

fn group_replacement_exec(k: &String) -> (r: String)
    ensures
        r@ == group_replacement(k@),
{
    if str_eq(k.as_str(), "name") {
        "id".to_owned()
    } else {
        k.clone()
    }
}

/// Every key the table supports, for unknown-key diagnostics.
#[verifier::opaque]
pub open spec fn group_valid_keys() -> Seq<Seq<char>> {
    seq![
        "arg"@,
        "args"@,
        "conflicts_with"@,
        "conflicts_with_all"@,
        "id"@,
        "multiple"@,
        "required"@,
        "requires"@,
        "requires_all"@,
    ]
}

#[verifier::rlimit(100)]
#[verifier::spinoff_prover]
fn group_valid_keys_exec() -> (r: Vec<String>)
    ensures
        r.deep_view() == group_valid_keys(),
{
    proof {
        reveal(group_valid_keys);
    }
    let mut v: Vec<String> = Vec::new();
    v.push("arg".to_owned());
    v.push("args".to_owned());
    v.push("conflicts_with".to_owned());
    v.push("conflicts_with_all".to_owned());
    v.push("id".to_owned());
    v.push("multiple".to_owned());
    v.push("required".to_owned());
    v.push("requires".to_owned());
    v.push("requires_all".to_owned());
    proof {
        assert(v.deep_view() =~= group_valid_keys());
    }
    v
}

pub open spec fn group_push_str(b: GroupV, f: GroupListField, x: String) -> GroupV {
    match f {
        GroupListField::Args => GroupV { args: b.args.push(x), ..b },
        GroupListField::Conflicts => GroupV { conflicts: b.conflicts.push(x), ..b },
        GroupListField::Requires => GroupV { requires: b.requires.push(x), ..b },
    }
}

fn group_push_str_args(b: Group, x: String) -> (r: Group)
    ensures
        r@ == (GroupV { args: b@.args.push(x), ..b@ }),
{
    let mut b = b;
    b.args.push(x);
    b
}

fn group_push_str_conflicts(b: Group, x: String) -> (r: Group)
    ensures
        r@ == (GroupV { conflicts: b@.conflicts.push(x), ..b@ }),
{
    let mut b = b;
    b.conflicts.push(x);
    b
}

fn group_push_str_requires(b: Group, x: String) -> (r: Group)
    ensures
        r@ == (GroupV { requires: b@.requires.push(x), ..b@ }),
{
    let mut b = b;
    b.requires.push(x);
    b
}

#[verifier::rlimit(100)]
#[verifier::spinoff_prover]
fn group_push_str_exec(b: Group, f: GroupListField, x: String) -> (r: Group)
    ensures
        r@ == group_push_str(b@, f, x),
{
    match f {
        GroupListField::Args => group_push_str_args(b, x),
        GroupListField::Conflicts => group_push_str_conflicts(b, x),
        GroupListField::Requires => group_push_str_requires(b, x),
    }
}

pub open spec fn group_ext_str(b: GroupV, f: GroupListField, x: Seq<String>) -> GroupV {
    match f {
        GroupListField::Args => GroupV { args: b.args + x, ..b },
        GroupListField::Conflicts => GroupV { conflicts: b.conflicts + x, ..b },
        GroupListField::Requires => GroupV { requires: b.requires + x, ..b },
    }
}

fn group_ext_str_args(b: Group, x: Vec<String>) -> (r: Group)
    ensures
        r@ == (GroupV { args: b@.args + x@, ..b@ }),
{
    let mut b = b;
    let mut x = x;
    b.args.append(&mut x);
    b
}

fn group_ext_str_conflicts(b: Group, x: Vec<String>) -> (r: Group)
    ensures
        r@ == (GroupV { conflicts: b@.conflicts + x@, ..b@ }),
{
    let mut b = b;
    let mut x = x;
    b.conflicts.append(&mut x);
    b
}

fn group_ext_str_requires(b: Group, x: Vec<String>) -> (r: Group)
    ensures
        r@ == (GroupV { requires: b@.requires + x@, ..b@ }),
{
    let mut b = b;
    let mut x = x;
    b.requires.append(&mut x);
    b
}

#[verifier::rlimit(100)]
#[verifier::spinoff_prover]
fn group_ext_str_exec(b: Group, f: GroupListField, x: Vec<String>) -> (r: Group)
    ensures
        r@ == group_ext_str(b@, f, x@),
{
    match f {
        GroupListField::Args => group_ext_str_args(b, x),
        GroupListField::Conflicts => group_ext_str_conflicts(b, x),
        GroupListField::Requires => group_ext_str_requires(b, x),
    }
}

pub open spec fn group_set_flag(b: GroupV, f: GroupFlagField, x: bool) -> GroupV {
    match f {
        GroupFlagField::Multiple => GroupV { multiple: x, ..b },
        GroupFlagField::Required => GroupV { required: x, ..b },
    }
}

fn group_set_flag_multiple(b: Group, x: bool) -> (r: Group)
    ensures
        r@ == (GroupV { multiple: x, ..b@ }),
{
    let mut b = b;
    b.multiple = x;
    b
}

fn group_set_flag_required(b: Group, x: bool) -> (r: Group)
    ensures
        r@ == (GroupV { required: x, ..b@ }),
{
    let mut b = b;
    b.required = x;
    b
}

#[verifier::rlimit(100)]
#[verifier::spinoff_prover]
fn group_set_flag_exec(b: Group, f: GroupFlagField, x: bool) -> (r: Group)
    ensures
        r@ == group_set_flag(b@, f, x),
{
    match f {
        GroupFlagField::Multiple => group_set_flag_multiple(b, x),
        GroupFlagField::Required => group_set_flag_required(b, x),
    }
}

/// One terminal dispatch action: decode the value as the entry demands and
/// run the setter, or fail per the entry's policy.  A deprecated key here
/// is one reached by a rewrite, which is never rewritten again.
#[verifier::opaque]
pub open spec fn group_apply(b: GroupV, k: Seq<char>, v: Value, cfg: DecodeConfig, rule: GroupRule) -> Result<
    GroupV,
    ErrorV,
>
{
    match rule {
        GroupRule::PushStr(f) => match str_of(v) {
            Result::Ok(x) => Result::Ok(group_push_str(b, f, x)),
            Result::Err(e) => Result::Err(e),
        },
        GroupRule::ExtendStr(f) => match strs_of(v) {
            Result::Ok(x) => Result::Ok(group_ext_str(b, f, x)),
            Result::Err(e) => Result::Err(e),
        },
        GroupRule::SetName => match str_of(v) {
            Result::Ok(x) => Result::Ok(GroupV { id: x, ..b }),
            Result::Err(e) => Result::Err(e),
        },
        GroupRule::SetFlag(f) => match bool_of(v) {
            Result::Ok(x) => Result::Ok(group_set_flag(b, f, x)),
            Result::Err(e) => Result::Err(e),
        },
        GroupRule::Renamed => Result::Err(
            ErrorV::DeprecatedField { key: k, replacement: Some(group_replacement(k)) },
        ),
        GroupRule::Unknown => Result::Err(
            ErrorV::UnknownField { key: k, valid: group_valid_keys() },
        ),
    }
}

/// One dispatch step on a canonical key: a deprecated-with-replacement key
/// is rewritten once in permissive mode and rejected in strict mode; every
/// other key takes its terminal action.
pub open spec fn group_step(b: GroupV, k: Seq<char>, v: Value, cfg: DecodeConfig) -> Result<
    GroupV,
    ErrorV,
>
{
    match group_rule(k) {
        GroupRule::Renamed => if cfg.allow_deprecated {
            group_apply(b, group_replacement(k), v, cfg, group_rule(group_replacement(k)))
        } else {
            Result::Err(
                ErrorV::DeprecatedField { key: k, replacement: Some(group_replacement(k)) },
            )
        },
        rule => group_apply(b, k, v, cfg, rule),
    }
}

#[verifier::rlimit(100)]
#[verifier::spinoff_prover]
fn group_apply_exec(b: Group, key: &String, v: &Value, cfg: DecodeConfig, rule: GroupRule) -> (r: Result<
    Group,
    Error,
>)
    requires
        rule == group_rule(key@),
    ensures
        dres(r) == group_apply(b@, key@, *v, cfg, rule),
{
    let ghost bv = b@;
    match rule {
        GroupRule::PushStr(f) => {
            let r = (
                match as_str(v) {
                    Ok(x) => {
                        Ok(group_push_str_exec(b, f, x))
                    },
                    Err(e) => Err(e),
                }
            );
            proof {
                assert(dres(r) == group_apply(bv, key@, *v, cfg, rule)) by {
                    reveal(group_apply);
                }
            }
            r
        },
        GroupRule::ExtendStr(f) => {
            let r = (
                match as_strs(v) {
                    Ok(x) => {
                        Ok(group_ext_str_exec(b, f, x))
                    },
                    Err(e) => Err(e),
                }
            );
            proof {
                assert(dres(r) == group_apply(bv, key@, *v, cfg, rule)) by {
                    reveal(group_apply);
                }
            }
            r
        },
        GroupRule::SetName => {
            let r = (
                match as_str(v) {
                    Ok(x) => {
                        let mut b = b;
                        b.id = x;
                        Ok(b)
                    },
                    Err(e) => Err(e),
                }
            );
            proof {
                assert(dres(r) == group_apply(bv, key@, *v, cfg, rule)) by {
                    reveal(group_apply);
                }
            }
            r
        },
        GroupRule::SetFlag(f) => {
            let r = (
                match as_bool(v) {
                    Ok(x) => {
                        Ok(group_set_flag_exec(b, f, x))
                    },
                    Err(e) => Err(e),
                }
            );
            proof {
                assert(dres(r) == group_apply(bv, key@, *v, cfg, rule)) by {
                    reveal(group_apply);
                }
            }
            r
        },
        GroupRule::Renamed => {
            let r = (Err(Error::DeprecatedField { key: key.clone(), replacement: Some(group_replacement_exec(key)) }));
            proof {
                assert(dres(r) == group_apply(bv, key@, *v, cfg, rule)) by {
                    reveal(group_apply);
                }
            }
            r
        },
        GroupRule::Unknown => {
            let r = (Err(Error::UnknownField { key: key.clone(), valid: group_valid_keys_exec() }));
            proof {
                assert(dres(r) == group_apply(bv, key@, *v, cfg, rule)) by {
                    reveal(group_apply);
                }
            }
            r
        },
    }
}

#[verifier::rlimit(100)]
#[verifier::spinoff_prover]
pub fn group_step_exec(b: Group, key: &String, v: &Value, cfg: DecodeConfig) -> (r: Result<
    Group,
    Error,
>)
    ensures
        dres(r) == group_step(b@, key@, *v, cfg),
{
    match group_rule_exec(key.as_str()) {
        GroupRule::Renamed => {
            if cfg.allow_deprecated {
                let nk = group_replacement_exec(key);
                let rule = group_rule_exec(nk.as_str());
                group_apply_exec(b, &nk, v, cfg, rule)
            } else {
                Err(
                    Error::DeprecatedField {
                        key: key.clone(),
                        replacement: Some(group_replacement_exec(key)),
                    },
                )
            }
        },
        rule => group_apply_exec(b, key, v, cfg, rule),
    }
}

/// A whole decode run over presented entries: each key is normalized,
/// dispatched and applied in order, left to right; the first error aborts
/// the run.
pub open spec fn group_run(b: GroupV, entries: Seq<(String, Value)>, cfg: DecodeConfig) -> Result<
    GroupV,
    ErrorV,
>
    decreases entries.len(),
{
    if entries.len() == 0 {
        Result::Ok(b)
    } else {
        match group_run(b, entries.subrange(0, entries.len() - 1), cfg) {
            Result::Err(e) => Result::Err(e),
            Result::Ok(b1) => group_step(
                b1,
                normalize_spec(cfg.key_case, entries[entries.len() - 1].0@),
                entries[entries.len() - 1].1,
                cfg,
            ),
        }
    }
}

/// Once a prefix of the run fails, the whole run fails the same way.
pub proof fn lemma_group_run_err(b: GroupV, entries: Seq<(String, Value)>, cfg: DecodeConfig, k: int)
    requires
        0 <= k <= entries.len(),
        group_run(b, entries.take(k), cfg) is Err,
    ensures
        group_run(b, entries, cfg) == group_run(b, entries.take(k), cfg),
    decreases entries.len() - k,
{
    if k < entries.len() {
        assert(entries.take(k + 1).subrange(0, k) =~= entries.take(k));
        assert(group_run(b, entries.take(k + 1), cfg) == group_run(b, entries.take(k), cfg));
        lemma_group_run_err(b, entries, cfg, k + 1);
    } else {
        assert(entries.take(k) =~= entries);
    }
}

#[verifier::loop_isolation(false)]
fn group_run_exec(b: Group, entries: &Vec<(String, Value)>, cfg: DecodeConfig) -> (r: Result<
    Group,
    Error,
>)
    ensures
        dres(r) == group_run(b@, entries@, cfg),
{
    let ghost b0 = b@;
    let mut cur = b;
    let n: usize = entries.len();
    let mut i: usize = 0;
    proof {
        assert(entries@.take(0) =~= Seq::<(String, Value)>::empty());
    }
    while i < n
        invariant
            i <= n,
            group_run(b0, entries@.take(i as int), cfg) == Result::<GroupV, ErrorV>::Ok(cur@),
        decreases n - i,
    {
        proof {
            assert(entries@.take(i as int + 1).subrange(0, i as int) =~= entries@.take(i as int));
            assert(entries@.take(i as int + 1)[i as int] == entries@[i as int]);
        }
        let nk = normalize(cfg.key_case, entries[i].0.as_str());
        match group_step_exec(cur, &nk, &entries[i].1, cfg) {
            Ok(nb) => {
                cur = nb;
            },
            Err(e) => {
                proof {
                    lemma_group_run_err(b0, entries@, cfg, i as int + 1);
                }
                return Err(e);
            },
        }
        i = i + 1;
    }
    proof {
        assert(entries@.take(n as int) =~= entries@);
    }
    Ok(cur)
}

/// Decoding one group from its body: the builder is seeded with the group's
/// name and every entry of the body is dispatched in order.
pub open spec fn group_session(b: GroupV, v: Value, cfg: DecodeConfig) -> Result<GroupV, ErrorV> {
    match v {
        Value::Obj(entries) => group_run(b, entries@, cfg),
        _ => Result::Err(mismatch("map"@, v)),
    }
}

/// Constructs a named group from its body.
pub fn decode_group(name: String, v: &Value, cfg: DecodeConfig) -> (r: Result<Group, Error>)
    ensures
        dres(r) == group_session(group_init(name), *v, cfg),
{
    let b = Group::new(name);
    match v {
        Value::Obj(entries) => group_run_exec(b, entries, cfg),
        _ => Err(mismatch_err("map", v)),
    }
}


/// The entries whose action replaces a field outright, so that a repeated
/// key leaves only its last occurrence visible.
pub open spec fn group_overwriting(rule: GroupRule) -> bool {
    match rule {
        GroupRule::SetName => true,
        GroupRule::SetFlag(_) => true,
        _ => false,
    }
}

/// Last write wins: on a key whose action replaces a field, presenting the
/// key twice decodes as if only the second occurrence were present.
#[verifier::spinoff_prover]
proof fn lemma_group_set_flag_overwrites(b: GroupV, f: GroupFlagField, x: bool, y: bool)
    ensures
        group_set_flag(group_set_flag(b, f, x), f, y) == group_set_flag(b, f, y),
{
}

#[verifier::rlimit(100)]
#[verifier::spinoff_prover]
pub proof fn lemma_group_last_write_wins(
    b: GroupV,
    k: Seq<char>,
    v1: Value,
    v2: Value,
    cfg: DecodeConfig,
)
    requires
        group_overwriting(group_rule(k)),
        group_step(b, k, v1, cfg) is Ok,
    ensures
        group_step(group_step(b, k, v1, cfg)->Ok_0, k, v2, cfg) == group_step(b, k, v2, cfg),
{
    reveal(group_apply);
    if group_rule(k) is SetFlag {
        let f = group_rule(k)->SetFlag_0;
        lemma_group_set_flag_overwrites(b, f, bool_of(v1)->Ok_0, bool_of(v2)->Ok_0);
    }
}

/// Deprecation redirection: a deprecated key with a replacement decodes,
/// in permissive mode, exactly as its replacement does; in strict mode it
/// is rejected with the deprecation error naming the replacement.
pub proof fn lemma_group_deprecation(b: GroupV, k: Seq<char>, v: Value, cfg: DecodeConfig)
    requires
        group_rule(k) is Renamed,
    ensures
        cfg.allow_deprecated ==> group_step(b, k, v, cfg) == group_step(
            b,
            group_replacement(k),
            v,
            cfg,
        ),
        !cfg.allow_deprecated ==> group_step(b, k, v, cfg) == Result::<GroupV, ErrorV>::Err(
            ErrorV::DeprecatedField { key: k, replacement: Some(group_replacement(k)) },
        ),
{
    reveal(group_rule);
    reveal(group_apply);
    reveal_strlit("arg");
    reveal_strlit("args");
    reveal_strlit("conflicts_with");
    reveal_strlit("conflicts_with_all");
    reveal_strlit("id");
    reveal_strlit("multiple");
    reveal_strlit("required");
    reveal_strlit("requires");
    reveal_strlit("requires_all");
    reveal_strlit("name");
    if k == "name"@ {
        assert(!(group_rule(group_replacement(k)) is Renamed));
    }
}

/// Unknown key diagnostics: a key outside the table fails with the unknown-
/// field error whose `valid` set enumerates the whole table, is not empty,
/// and does not contain the offending key.
#[verifier::rlimit(100)]
pub proof fn lemma_group_unknown_key(b: GroupV, k: Seq<char>, v: Value, cfg: DecodeConfig)
    requires
        group_rule(k) is Unknown,
    ensures
        group_step(b, k, v, cfg) == Result::<GroupV, ErrorV>::Err(
            ErrorV::UnknownField { key: k, valid: group_valid_keys() },
        ),
        group_valid_keys().len() > 0,
        !group_valid_keys().contains(k),
{
    reveal(group_rule);
    reveal(group_apply);
    reveal(group_valid_keys);
    assert(!group_valid_keys().contains(k)) by {
        if group_valid_keys().contains(k) {
            let i = choose|i: int|
                0 <= i < group_valid_keys().len() && group_valid_keys()[i] == k;
            if i == 0 {
                assert(!(group_rule("arg"@) is Unknown));
            }
            if i == 1 {
                assert(!(group_rule("args"@) is Unknown));
            }
            if i == 2 {
                assert(!(group_rule("conflicts_with"@) is Unknown));
            }
            if i == 3 {
                assert(!(group_rule("conflicts_with_all"@) is Unknown));
            }
            if i == 4 {
                assert(!(group_rule("id"@) is Unknown));
            }
            if i == 5 {
                assert(!(group_rule("multiple"@) is Unknown));
            }
            if i == 6 {
                assert(!(group_rule("required"@) is Unknown));
            }
            if i == 7 {
                assert(!(group_rule("requires"@) is Unknown));
            }
            if i == 8 {
                assert(!(group_rule("requires_all"@) is Unknown));
            }
            assert(false);
        }
    }
}

} // verus!
