//! A schema-driven assembly engine for command-line interface definitions.
//!
//! The crate consumes a tree of plain key/value data (as produced by any
//! structured-text front end) and configures builder objects by dispatching
//! every key to a statically known operation: a plain or collection-valued
//! setter, a deprecated-key rewrite, a retired-key rejection, or an
//! unknown-key diagnostic.  The key normalizer, the dispatch engine of the
//! argument-group entity, the enumerated value decoders and the two-form
//! value-parser decoder are verified against specification-level
//! interpreters.
use vstd::prelude::*;

mod error;
mod value;
mod normalize;
mod enums;
mod vp;
mod group;
mod group_de;
mod ser;

pub use error::Error;
pub use error::ErrorV;
pub use value::Value;
pub use value::ValueV;
pub use value::as_str;
pub use value::as_bool;
pub use value::as_char;
pub use value::as_usize;
pub use value::as_strs;
pub use normalize::KeyCase;
pub use normalize::normalize;
pub use normalize::lemma_normalize_idempotent;
pub use enums::ColorChoice;
pub use enums::ColorChoiceSeed;
pub use enums::ArgAction;
pub use enums::ValueHint;
pub use vp::Vp;
pub use vp::NumKind;
pub use vp::get_true;
pub use vp::decode_vp;
pub use vp::lemma_vp_fallback;
pub use enums::decode_colorchoice;
pub use enums::decode_argaction;
pub use enums::decode_valuehint;
pub use group::Group;
pub use group_de::decode_group;
pub use ser::SerializeConfig;
pub use ser::NoSkip;
pub use ser::IterSer;



















verus! {

/// Per-deployment policy knobs of one decode run: the casing convention of
/// incoming keys, whether deprecated-with-replacement keys are rewritten
/// (permissive) or rejected (strict), and which optional capabilities are
/// available.  A key whose capability is off resolves to a deliberate
/// `CapabilityDisabled` error rather than an unknown-field error.
#[derive(Debug, Clone, Copy)]
pub struct DecodeConfig {
    pub key_case: KeyCase,
    pub allow_deprecated: bool,
    pub color: bool,
    pub env: bool,
}

impl Default for DecodeConfig {
    /// Keys are expected in canonical snake form, deprecated keys are hard
    /// errors, and both optional capabilities are available.
    fn default() -> (r: Self)
        ensures
            r.key_case == KeyCase::Snake,
            !r.allow_deprecated,
            r.color,
            r.env,
    {
        DecodeConfig { key_case: KeyCase::Snake, allow_deprecated: false, color: true, env: true }
    }
}

} // verus!
