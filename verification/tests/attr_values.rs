use synext::attr_args::{try_extract_attribute_args, try_extract_attribute_first_args};
use synext::model::{AttrArg, LitValue};

fn name_value(name: &str, value: &str) -> AttrArg {
    AttrArg::NameValue {
        name: name.to_string(),
        value: LitValue::Str(value.to_string()),
    }
}

fn name_other(name: &str) -> AttrArg {
    AttrArg::NameValue { name: name.to_string(), value: LitValue::Other }
}

#[test]
fn named_arg_last_entry_wins() {
    let args = vec![name_value("value", "a"), name_value("value", "b")];
    assert_eq!(try_extract_attribute_args("value", args), Some("b".to_string()));
}

#[test]
fn named_arg_none_on_empty_list() {
    assert_eq!(try_extract_attribute_args("value", vec![]), None);
}

#[test]
fn named_arg_finds_single_match() {
    let args = vec![name_value("name", "x"), name_value("value", "helloController")];
    assert_eq!(
        try_extract_attribute_args("value", args),
        Some("helloController".to_string())
    );
}

#[test]
fn named_arg_ignores_other_names() {
    let args = vec![name_value("name", "x")];
    assert_eq!(try_extract_attribute_args("value", args), None);
}

#[test]
fn named_arg_skips_non_string_values() {
    let args = vec![name_value("value", "kept"), name_other("value")];
    assert_eq!(try_extract_attribute_args("value", args), Some("kept".to_string()));
    let only_other = vec![name_other("value")];
    assert_eq!(try_extract_attribute_args("value", only_other), None);
}

#[test]
fn named_arg_skips_bare_literals_and_other_shapes() {
    let args = vec![
        AttrArg::Lit(LitValue::Str("value".to_string())),
        AttrArg::Other,
        name_value("value", "real"),
    ];
    assert_eq!(try_extract_attribute_args("value", args), Some("real".to_string()));
}

#[test]
fn first_arg_returns_leading_string_literal() {
    let args = vec![AttrArg::Lit(LitValue::Str("helloController".to_string()))];
    assert_eq!(
        try_extract_attribute_first_args(args),
        Some("helloController".to_string())
    );
}

#[test]
fn first_arg_none_on_empty_list() {
    assert_eq!(try_extract_attribute_first_args(vec![]), None);
}

#[test]
fn first_arg_none_when_first_is_name_value_pair() {
    let args = vec![name_value("value", "x")];
    assert_eq!(try_extract_attribute_first_args(args), None);
}

#[test]
fn first_arg_none_when_first_is_non_string_literal() {
    let args = vec![AttrArg::Lit(LitValue::Other)];
    assert_eq!(try_extract_attribute_first_args(args), None);
}

#[test]
fn first_arg_inspects_only_the_first_entry() {
    let args = vec![AttrArg::Other, AttrArg::Lit(LitValue::Str("late".to_string()))];
    assert_eq!(try_extract_attribute_first_args(args), None);
}

#[test]
fn extraction_is_repeatable_on_identical_input() {
    let build = || vec![name_value("value", "a"), name_value("value", "b")];
    assert_eq!(
        try_extract_attribute_args("value", build()),
        try_extract_attribute_args("value", build())
    );
    let build_first = || vec![AttrArg::Lit(LitValue::Str("v".to_string()))];
    assert_eq!(
        try_extract_attribute_first_args(build_first()),
        try_extract_attribute_first_args(build_first())
    );
}
