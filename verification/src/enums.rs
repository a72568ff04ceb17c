//! The engine's enumerated value types: the color policy, the per-argument
//! action and the completion hint, each decoded from its bare variant name.
use vstd::prelude::*;

use crate::error::dres;
use crate::error::Error;
use crate::error::ErrorV;
use crate::normalize::normalize;
use crate::normalize::normalize_spec;
use crate::normalize::str_eq;
use crate::normalize::KeyCase;
use crate::value::mismatch;
use crate::value::mismatch_err;
use crate::value::Value;

verus! {

/// When the application writes with color.
#[derive(Debug, Clone, Copy, PartialEq, Eq, Structural)]
pub enum ColorChoice {
    Auto,
    Always,
    Never,
}

impl DeepView for ColorChoice {
    type V = ColorChoice;

    open spec fn deep_view(&self) -> ColorChoice {
        *self
    }
}

pub open spec fn colorchoice_variant(n: Seq<char>, raw: Seq<char>) -> Result<ColorChoice, ErrorV> {
    if n == "auto"@ {
        Result::Ok(ColorChoice::Auto)
    } else if n == "always"@ {
        Result::Ok(ColorChoice::Always)
    } else if n == "never"@ {
        Result::Ok(ColorChoice::Never)
    } else {
        Result::Err(ErrorV::TypeMismatch { expected: "color choice"@, found: raw })
    }
}

/// An enumerated value appears as its bare variant name, written in the
/// deployment's casing convention.
pub open spec fn colorchoice_of(kc: KeyCase, v: Value) -> Result<ColorChoice, ErrorV> {
    match v {
        Value::Str(s) => colorchoice_variant(normalize_spec(kc, s@), s@),
        _ => Result::Err(mismatch("string"@, v)),
    }
}

pub fn decode_colorchoice(kc: KeyCase, v: &Value) -> (r: Result<ColorChoice, Error>)
    ensures
        dres(r) == colorchoice_of(kc, *v),
{
    match v {
        Value::Str(s) => {
            let n = normalize(kc, s.as_str());
            if str_eq(n.as_str(), "auto") {
                Ok(ColorChoice::Auto)
            } else if str_eq(n.as_str(), "always") {
                Ok(ColorChoice::Always)
            } else if str_eq(n.as_str(), "never") {
                Ok(ColorChoice::Never)
            } else {
                Err(Error::TypeMismatch {
                    expected: "color choice".to_owned(),
                    found: s.clone(),
                })
            }
        },
        _ => Err(mismatch_err("string", v)),
    }
}

/// What an argument does when it is seen on the command line.
#[derive(Debug, Clone, Copy, PartialEq, Eq, Structural)]
pub enum ArgAction {
    SetValue,
    Append,
    SetTrue,
    SetFalse,
    Count,
    Help,
    Version,
}

impl DeepView for ArgAction {
    type V = ArgAction;

    open spec fn deep_view(&self) -> ArgAction {
        *self
    }
}

pub open spec fn argaction_variant(n: Seq<char>, raw: Seq<char>) -> Result<ArgAction, ErrorV> {
    if n == "set"@ {
        Result::Ok(ArgAction::SetValue)
    } else if n == "append"@ {
        Result::Ok(ArgAction::Append)
    } else if n == "set_true"@ {
        Result::Ok(ArgAction::SetTrue)
    } else if n == "set_false"@ {
        Result::Ok(ArgAction::SetFalse)
    } else if n == "count"@ {
        Result::Ok(ArgAction::Count)
    } else if n == "help"@ {
        Result::Ok(ArgAction::Help)
    } else if n == "version"@ {
        Result::Ok(ArgAction::Version)
    } else {
        Result::Err(ErrorV::TypeMismatch { expected: "argument action"@, found: raw })
    }
}

/// An enumerated value appears as its bare variant name, written in the
/// deployment's casing convention.
pub open spec fn argaction_of(kc: KeyCase, v: Value) -> Result<ArgAction, ErrorV> {
    match v {
        Value::Str(s) => argaction_variant(normalize_spec(kc, s@), s@),
        _ => Result::Err(mismatch("string"@, v)),
    }
}

pub fn decode_argaction(kc: KeyCase, v: &Value) -> (r: Result<ArgAction, Error>)
    ensures
        dres(r) == argaction_of(kc, *v),
{
    match v {
        Value::Str(s) => {
            let n = normalize(kc, s.as_str());
            if str_eq(n.as_str(), "set") {
                Ok(ArgAction::SetValue)
            } else if str_eq(n.as_str(), "append") {
                Ok(ArgAction::Append)
            } else if str_eq(n.as_str(), "set_true") {
                Ok(ArgAction::SetTrue)
            } else if str_eq(n.as_str(), "set_false") {
                Ok(ArgAction::SetFalse)
            } else if str_eq(n.as_str(), "count") {
                Ok(ArgAction::Count)
            } else if str_eq(n.as_str(), "help") {
                Ok(ArgAction::Help)
            } else if str_eq(n.as_str(), "version") {
                Ok(ArgAction::Version)
            } else {
                Err(Error::TypeMismatch {
                    expected: "argument action".to_owned(),
                    found: s.clone(),
                })
            }
        },
        _ => Err(mismatch_err("string", v)),
    }
}

/// A hint to shell completion about what an argument's value is.
#[derive(Debug, Clone, Copy, PartialEq, Eq, Structural)]
pub enum ValueHint {
    Unknown,
    Other,
    AnyPath,
    FilePath,
    DirPath,
    ExecutablePath,
    CommandName,
    CommandString,
    CommandWithArguments,
    Username,
    Hostname,
    Url,
    EmailAddress,
}

impl DeepView for ValueHint {
    type V = ValueHint;

    open spec fn deep_view(&self) -> ValueHint {
        *self
    }
}

pub open spec fn valuehint_variant(n: Seq<char>, raw: Seq<char>) -> Result<ValueHint, ErrorV> {
    if n == "unknown"@ {
        Result::Ok(ValueHint::Unknown)
    } else if n == "other"@ {
        Result::Ok(ValueHint::Other)
    } else if n == "any_path"@ {
        Result::Ok(ValueHint::AnyPath)
    } else if n == "file_path"@ {
        Result::Ok(ValueHint::FilePath)
    } else if n == "dir_path"@ {
        Result::Ok(ValueHint::DirPath)
    } else if n == "executable_path"@ {
        Result::Ok(ValueHint::ExecutablePath)
    } else if n == "command_name"@ {
        Result::Ok(ValueHint::CommandName)
    } else if n == "command_string"@ {
        Result::Ok(ValueHint::CommandString)
    } else if n == "command_with_arguments"@ {
        Result::Ok(ValueHint::CommandWithArguments)
    } else if n == "username"@ {
        Result::Ok(ValueHint::Username)
    } else if n == "hostname"@ {
        Result::Ok(ValueHint::Hostname)
    } else if n == "url"@ {
        Result::Ok(ValueHint::Url)
    } else if n == "email_address"@ {
        Result::Ok(ValueHint::EmailAddress)
    } else {
        Result::Err(ErrorV::TypeMismatch { expected: "value hint"@, found: raw })
    }
}

/// An enumerated value appears as its bare variant name, written in the
/// deployment's casing convention.
pub open spec fn valuehint_of(kc: KeyCase, v: Value) -> Result<ValueHint, ErrorV> {
    match v {
        Value::Str(s) => valuehint_variant(normalize_spec(kc, s@), s@),
        _ => Result::Err(mismatch("string"@, v)),
    }
}

pub fn decode_valuehint(kc: KeyCase, v: &Value) -> (r: Result<ValueHint, Error>)
    ensures
        dres(r) == valuehint_of(kc, *v),
{
    match v {
        Value::Str(s) => {
            let n = normalize(kc, s.as_str());
            if str_eq(n.as_str(), "unknown") {
                Ok(ValueHint::Unknown)
            } else if str_eq(n.as_str(), "other") {
                Ok(ValueHint::Other)
            } else if str_eq(n.as_str(), "any_path") {
                Ok(ValueHint::AnyPath)
            } else if str_eq(n.as_str(), "file_path") {
                Ok(ValueHint::FilePath)
            } else if str_eq(n.as_str(), "dir_path") {
                Ok(ValueHint::DirPath)
            } else if str_eq(n.as_str(), "executable_path") {
                Ok(ValueHint::ExecutablePath)
            } else if str_eq(n.as_str(), "command_name") {
                Ok(ValueHint::CommandName)
            } else if str_eq(n.as_str(), "command_string") {
                Ok(ValueHint::CommandString)
            } else if str_eq(n.as_str(), "command_with_arguments") {
                Ok(ValueHint::CommandWithArguments)
            } else if str_eq(n.as_str(), "username") {
                Ok(ValueHint::Username)
            } else if str_eq(n.as_str(), "hostname") {
                Ok(ValueHint::Hostname)
            } else if str_eq(n.as_str(), "url") {
                Ok(ValueHint::Url)
            } else if str_eq(n.as_str(), "email_address") {
                Ok(ValueHint::EmailAddress)
            } else {
                Err(Error::TypeMismatch {
                    expected: "value hint".to_owned(),
                    found: s.clone(),
                })
            }
        },
        _ => Err(mismatch_err("string", v)),
    }
}

/// Decodes the color key's value; its whole behaviour is [`decode_colorchoice`].
pub struct ColorChoiceSeed;

impl ColorChoiceSeed {
    pub fn decode(self, kc: KeyCase, v: &Value) -> (r: Result<ColorChoice, Error>)
        ensures
            dres(r) == colorchoice_of(kc, *v),
    {
        decode_colorchoice(kc, v)
    }
}

} // verus!
