use clap_serde::as_bool;
use clap_serde::as_char;
use clap_serde::as_str;
use clap_serde::as_strs;
use clap_serde::as_usize;
use clap_serde::decode_argaction;
use clap_serde::decode_colorchoice;
use clap_serde::decode_group;
use clap_serde::decode_valuehint;
use clap_serde::decode_vp;
use clap_serde::get_true;
use clap_serde::normalize;
use clap_serde::ArgAction;
use clap_serde::ColorChoice;
use clap_serde::ColorChoiceSeed;
use clap_serde::DecodeConfig;
use clap_serde::Error;
use clap_serde::IterSer;
use clap_serde::KeyCase;
use clap_serde::NoSkip;
use clap_serde::NumKind;
use clap_serde::SerializeConfig;
use clap_serde::Value;
use clap_serde::ValueHint;
use clap_serde::Vp;

fn s(t: &str) -> Value {
    Value::Str(t.to_owned())
}

fn permissive() -> DecodeConfig {
    DecodeConfig { allow_deprecated: true, ..Default::default() }
}

#[test]
fn normalize_snake_is_identity() {
    assert_eq!(normalize(KeyCase::Snake, "allow_hyphen_values"), "allow_hyphen_values");
    assert_eq!(normalize(KeyCase::Snake, "Odd-Key"), "Odd-Key");
}

#[test]
fn normalize_converts_kebab_and_pascal() {
    assert_eq!(normalize(KeyCase::Kebab, "allow-hyphen-values"), "allow_hyphen_values");
    assert_eq!(normalize(KeyCase::Pascal, "AllowHyphenValues"), "allow_hyphen_values");
}

#[test]
fn normalize_twice_equals_once() {
    for kc in [KeyCase::Snake, KeyCase::Kebab, KeyCase::Pascal] {
        let once = normalize(kc, "Visible-Long-Flag-Aliases");
        let twice = normalize(kc, once.as_str());
        assert_eq!(once, twice);
    }
}

#[test]
fn group_decodes_fields() {
    let body = Value::Obj(vec![
        ("args".to_owned(), Value::List(vec![s("apple"), s("banana")])),
        ("required".to_owned(), Value::Bool(true)),
        ("conflicts_with".to_owned(), s("cherry")),
    ]);
    let g = decode_group("fruit".to_owned(), &body, DecodeConfig::default()).unwrap();
    assert_eq!(g.id, "fruit");
    assert_eq!(g.args, vec!["apple".to_owned(), "banana".to_owned()]);
    assert!(g.required);
    assert!(!g.multiple);
    assert_eq!(g.conflicts, vec!["cherry".to_owned()]);
}

#[test]
fn group_unknown_key_lists_valid_keys() {
    let body = Value::Obj(vec![("totallyBogusKey".to_owned(), Value::Bool(true))]);
    let e = decode_group("g".to_owned(), &body, DecodeConfig::default()).unwrap_err();
    match e {
        Error::UnknownField { key, valid } => {
            assert_eq!(key, "totallyBogusKey");
            assert!(!valid.is_empty());
            assert!(!valid.contains(&"totallyBogusKey".to_owned()));
            assert!(valid.contains(&"requires_all".to_owned()));
        }
        other => panic!("expected an unknown-field error, got {:?}", other),
    }
}

#[test]
fn group_deprecated_key_redirects_when_permissive() {
    let body = Value::Obj(vec![("name".to_owned(), s("fresh"))]);
    let g = decode_group("g".to_owned(), &body, permissive()).unwrap();
    assert_eq!(g.id, "fresh");

    let body2 = Value::Obj(vec![("id".to_owned(), s("fresh"))]);
    let g2 = decode_group("g".to_owned(), &body2, permissive()).unwrap();
    assert_eq!(g.id, g2.id);
}

#[test]
fn group_deprecated_key_rejected_when_strict() {
    let body = Value::Obj(vec![("name".to_owned(), s("fresh"))]);
    let e = decode_group("g".to_owned(), &body, DecodeConfig::default()).unwrap_err();
    match e {
        Error::DeprecatedField { key, replacement } => {
            assert_eq!(key, "name");
            assert_eq!(replacement, Some("id".to_owned()));
        }
        other => panic!("expected a deprecation error, got {:?}", other),
    }
}

#[test]
fn group_last_write_wins() {
    let twice = Value::Obj(vec![
        ("id".to_owned(), s("first")),
        ("id".to_owned(), s("second")),
    ]);
    let once = Value::Obj(vec![("id".to_owned(), s("second"))]);
    let g1 = decode_group("g".to_owned(), &twice, DecodeConfig::default()).unwrap();
    let g2 = decode_group("g".to_owned(), &once, DecodeConfig::default()).unwrap();
    assert_eq!(g1.id, g2.id);
}

#[test]
fn group_type_mismatch() {
    let body = Value::Obj(vec![("required".to_owned(), s("yes"))]);
    let e = decode_group("g".to_owned(), &body, DecodeConfig::default()).unwrap_err();
    assert!(matches!(e, Error::TypeMismatch { .. }));
}

#[test]
fn group_body_must_be_a_map() {
    let e = decode_group("g".to_owned(), &Value::Int(3), DecodeConfig::default()).unwrap_err();
    assert!(matches!(e, Error::TypeMismatch { .. }));
}

#[test]
fn value_parser_bare_equals_tagged() {
    let cfg = DecodeConfig::default();
    let bare = decode_vp(cfg.key_case, &s("non_empty_string")).unwrap();
    let tagged = Value::Obj(vec![("type".to_owned(), s("non_empty_string"))]);
    let tagged = decode_vp(cfg.key_case, &tagged).unwrap();
    assert_eq!(bare, tagged);
    assert_eq!(bare, Vp::NonEmptyStr);
}

#[test]
fn value_parser_bare_numeric_equals_tagged() {
    let cfg = DecodeConfig::default();
    let bare = decode_vp(cfg.key_case, &s("i64")).unwrap();
    let tagged = Value::Obj(vec![("type".to_owned(), s("i64"))]);
    let tagged = decode_vp(cfg.key_case, &tagged).unwrap();
    assert_eq!(bare, tagged);
    assert_eq!(
        bare,
        Vp::Range { kind: NumKind::I64, min: None, max: None, max_inclusive: true }
    );
}

#[test]
fn value_parser_tagged_range() {
    let tagged = Value::Obj(vec![
        ("type".to_owned(), s("i32")),
        ("min".to_owned(), Value::Int(3)),
        ("max".to_owned(), Value::Int(7)),
        ("max_inclusive".to_owned(), Value::Bool(false)),
    ]);
    let vp = decode_vp(KeyCase::Snake, &tagged).unwrap();
    assert_eq!(
        vp,
        Vp::Range { kind: NumKind::I32, min: Some(3), max: Some(7), max_inclusive: false }
    );
}

#[test]
fn value_parser_range_checks_width() {
    let tagged = Value::Obj(vec![
        ("type".to_owned(), s("i8")),
        ("min".to_owned(), Value::Int(1000)),
    ]);
    let e = decode_vp(KeyCase::Snake, &tagged).unwrap_err();
    assert!(matches!(e, Error::TypeMismatch { .. }));
}

#[test]
fn value_parser_tag_is_required() {
    let tagged = Value::Obj(vec![("min".to_owned(), Value::Int(1))]);
    let e = decode_vp(KeyCase::Snake, &tagged).unwrap_err();
    match e {
        Error::MissingRequiredField { field } => assert_eq!(field, "type"),
        other => panic!("expected a missing-field error, got {:?}", other),
    }
}

#[test]
fn value_parser_unknown_field() {
    let tagged = Value::Obj(vec![
        ("type".to_owned(), s("u16")),
        ("bogus".to_owned(), Value::Int(1)),
    ]);
    let e = decode_vp(KeyCase::Snake, &tagged).unwrap_err();
    match e {
        Error::UnknownField { key, valid } => {
            assert_eq!(key, "bogus");
            assert_eq!(valid, vec!["type".to_owned(), "min".to_owned(), "max".to_owned(), "max_inclusive".to_owned()]);
        }
        other => panic!("expected an unknown-field error, got {:?}", other),
    }
}

#[test]
fn value_parser_unknown_name() {
    let e = decode_vp(KeyCase::Snake, &s("imaginary")).unwrap_err();
    assert!(matches!(e, Error::TypeMismatch { .. }));
}

#[test]
fn max_inclusive_defaults_to_true() {
    assert!(get_true());
    let tagged = Value::Obj(vec![
        ("type".to_owned(), s("u8")),
        ("max".to_owned(), Value::Int(9)),
    ]);
    let vp = decode_vp(KeyCase::Snake, &tagged).unwrap();
    assert_eq!(
        vp,
        Vp::Range { kind: NumKind::U8, min: None, max: Some(9), max_inclusive: true }
    );
}

#[test]
fn color_choice_names() {
    assert_eq!(decode_colorchoice(KeyCase::Snake, &s("auto")).unwrap(), ColorChoice::Auto);
    let seed = ColorChoiceSeed;
    assert_eq!(seed.decode(KeyCase::Snake, &s("never")).unwrap(), ColorChoice::Never);
    assert!(decode_colorchoice(KeyCase::Snake, &s("sometimes")).is_err());
}

#[test]
fn arg_action_and_value_hint_names() {
    assert_eq!(decode_argaction(KeyCase::Snake, &s("set_true")).unwrap(), ArgAction::SetTrue);
    assert_eq!(decode_argaction(KeyCase::Kebab, &s("set-false")).unwrap(), ArgAction::SetFalse);
    assert_eq!(decode_valuehint(KeyCase::Snake, &s("dir_path")).unwrap(), ValueHint::DirPath);
    assert!(decode_valuehint(KeyCase::Snake, &Value::Int(1)).is_err());
}

#[test]
fn ser_policy_and_buffer() {
    assert!(NoSkip.serialize_all());
    let buffered = IterSer::new(vec![s("a"), Value::Int(1)]);
    match buffered.into_value() {
        Value::List(items) => assert_eq!(items.len(), 2),
        other => panic!("expected a sequence, got {:?}", other),
    }
}

#[test]
fn scalar_decoders() {
    assert_eq!(as_str(&s("hi")).unwrap(), "hi");
    assert!(as_str(&Value::Int(1)).is_err());
    assert!(as_bool(&Value::Bool(false)).unwrap() == false);
    assert_eq!(as_char(&s("a")).unwrap(), 'a');
    assert!(as_char(&s("ab")).is_err());
    assert_eq!(as_usize(&Value::Int(7)).unwrap(), 7);
    assert!(as_usize(&Value::Int(-1)).is_err());
    assert!(as_usize(&Value::Real("1.5".to_owned())).is_err());
    assert_eq!(as_strs(&Value::List(vec![s("x"), s("y")])).unwrap(), vec!["x".to_owned(), "y".to_owned()]);
    assert!(as_strs(&Value::List(vec![s("x"), Value::Null])).is_err());
}
