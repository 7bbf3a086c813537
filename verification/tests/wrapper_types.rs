use synext::model::{GenericArg, PathNode, PathSegment, TypeNode};
use synext::report::Fatal;
use synext::type_shape::{
    try_extract_inner_types, try_predicate_is_ident, try_predicate_is_not_ident,
    try_predicate_is_not_option, try_predicate_is_not_option_and_vec, try_predicate_is_not_vec,
    try_predicate_is_option, try_predicate_is_type, try_predicate_is_vec,
    try_predicate_path_segments_is_empty, try_predicate_path_segments_is_not_empty,
    try_unwrap_option, try_unwrap_single, try_unwrap_types, try_unwrap_vec,
};

fn bare_type(name: &str) -> TypeNode {
    TypeNode::Path(PathNode {
        segments: vec![PathSegment { ident: name.to_string(), args: vec![] }],
    })
}

fn wrapper(name: &str, inners: Vec<TypeNode>) -> TypeNode {
    TypeNode::Path(PathNode {
        segments: vec![PathSegment {
            ident: name.to_string(),
            args: inners.into_iter().map(GenericArg::Type).collect(),
        }],
    })
}

fn qualified(segs: &[&str], last_args: Vec<GenericArg>) -> TypeNode {
    let mut segments: Vec<PathSegment> = segs
        .iter()
        .map(|s| PathSegment { ident: s.to_string(), args: vec![] })
        .collect();
    if let Some(last) = segments.last_mut() {
        last.args = last_args;
    }
    TypeNode::Path(PathNode { segments })
}

fn last_ident(ty: &TypeNode) -> String {
    match ty {
        TypeNode::Path(p) => p.segments.last().unwrap().ident.clone(),
        TypeNode::Other => panic!("not a path"),
    }
}

#[test]
fn unwrap_types_extracts_single_argument() {
    let ty = wrapper("Wrapper", vec![bare_type("Inner")]);
    let inner = try_unwrap_types("Wrapper", 1, &ty).unwrap().unwrap();
    assert_eq!(inner.len(), 1);
    assert_eq!(last_ident(inner[0]), "Inner");
}

#[test]
fn unwrap_types_arity_mismatch_is_fatal() {
    let ty = wrapper("Wrapper", vec![bare_type("A"), bare_type("B")]);
    match try_unwrap_types("Wrapper", 1, &ty) {
        Err(Fatal::ArityMismatch { name, expected, got }) => {
            assert_eq!(name, "Wrapper");
            assert_eq!(expected, 1);
            assert_eq!(got, 2);
        }
        _ => panic!("expected ArityMismatch"),
    }
}

#[test]
fn unwrap_types_other_name_is_silent_no_match() {
    let ty = wrapper("Other", vec![bare_type("Inner")]);
    assert!(try_unwrap_types("Wrapper", 1, &ty).unwrap().is_none());
}

#[test]
fn unwrap_types_ignores_non_type_arguments() {
    let ty = qualified(
        &["Wrapper"],
        vec![GenericArg::Other, GenericArg::Type(bare_type("Inner"))],
    );
    let inner = try_unwrap_types("Wrapper", 1, &ty).unwrap().unwrap();
    assert_eq!(inner.len(), 1);
    assert_eq!(last_ident(inner[0]), "Inner");
}

#[test]
fn unwrap_types_qualified_mismatch_is_unresolvable() {
    let ty = qualified(&["module", "Thing"], vec![]);
    match try_unwrap_types("Wrapper", 1, &ty) {
        Err(Fatal::UnresolvableType { name }) => assert_eq!(name, "Wrapper"),
        _ => panic!("expected UnresolvableType"),
    }
}

#[test]
fn unwrap_types_non_path_is_silent_no_match() {
    assert!(try_unwrap_types("Wrapper", 1, &TypeNode::Other).unwrap().is_none());
}

#[test]
fn unwrap_types_empty_path_is_silent_no_match() {
    let ty = TypeNode::Path(PathNode { segments: vec![] });
    assert!(try_unwrap_types("Wrapper", 1, &ty).unwrap().is_none());
}

#[test]
fn unwrap_option_hands_back_inner_type() {
    let ty = wrapper("Option", vec![bare_type("String")]);
    let inner = try_unwrap_option(&ty).unwrap();
    assert_eq!(last_ident(inner), "String");
}

#[test]
fn unwrap_option_on_plain_type_is_fatal() {
    let ty = bare_type("String");
    match try_unwrap_option(&ty) {
        Err(Fatal::NotWrapped { name }) => assert_eq!(name, "Option"),
        _ => panic!("expected NotWrapped"),
    }
}

#[test]
fn unwrap_vec_hands_back_inner_type() {
    let ty = wrapper("Vec", vec![bare_type("Activity")]);
    let inner = try_unwrap_vec(&ty).unwrap();
    assert_eq!(last_ident(inner), "Activity");
}

#[test]
fn unwrap_vec_on_option_is_fatal() {
    let ty = wrapper("Option", vec![bare_type("String")]);
    match try_unwrap_vec(&ty) {
        Err(Fatal::NotWrapped { name }) => assert_eq!(name, "Vec"),
        _ => panic!("expected NotWrapped"),
    }
}

#[test]
fn unwrap_single_matches_unwrap_option() {
    let ty = wrapper("Option", vec![bare_type("Count")]);
    let a = last_ident(try_unwrap_single("Option", &ty).unwrap());
    let b = last_ident(try_unwrap_option(&ty).unwrap());
    assert_eq!(a, b);
}

#[test]
fn extract_inner_types_keeps_order() {
    let ty = wrapper("Result", vec![bare_type("Good"), bare_type("Bad")]);
    let inner = try_extract_inner_types(&ty).unwrap();
    assert_eq!(inner.len(), 2);
    assert_eq!(last_ident(inner[0]), "Good");
    assert_eq!(last_ident(inner[1]), "Bad");
}

#[test]
fn extract_inner_types_none_on_plain_type() {
    assert!(try_extract_inner_types(&bare_type("String")).is_none());
    assert!(try_extract_inner_types(&TypeNode::Other).is_none());
}

#[test]
fn extract_inner_types_none_when_only_non_type_arguments() {
    let ty = qualified(&["Borrowed"], vec![GenericArg::Other]);
    assert!(try_extract_inner_types(&ty).is_none());
}

#[test]
fn is_option_true_only_for_single_argument_option() {
    assert!(try_predicate_is_option(&wrapper("Option", vec![bare_type("T")])).unwrap());
    assert!(!try_predicate_is_option(&bare_type("String")).unwrap());
    assert!(!try_predicate_is_option(&wrapper("Vec", vec![bare_type("T")])).unwrap());
    assert!(!try_predicate_is_option(&TypeNode::Other).unwrap());
}

#[test]
fn is_option_on_bare_option_name_is_fatal() {
    match try_predicate_is_option(&bare_type("Option")) {
        Err(Fatal::ArityMismatch { name, expected, got }) => {
            assert_eq!(name, "Option");
            assert_eq!(expected, 1);
            assert_eq!(got, 0);
        }
        _ => panic!("expected ArityMismatch"),
    }
}

#[test]
fn is_option_accepts_fully_qualified_option() {
    let ty = qualified(
        &["std", "option", "Option"],
        vec![GenericArg::Type(bare_type("T"))],
    );
    assert!(try_predicate_is_option(&ty).unwrap());
}

#[test]
fn qualified_foreign_path_is_fatal_for_predicates() {
    let ty = qualified(&["module", "Thing"], vec![]);
    assert!(matches!(
        try_predicate_is_option(&ty),
        Err(Fatal::UnresolvableType { .. })
    ));
}

#[test]
fn is_vec_true_only_for_single_argument_vec() {
    assert!(try_predicate_is_vec(&wrapper("Vec", vec![bare_type("T")])).unwrap());
    assert!(!try_predicate_is_vec(&bare_type("String")).unwrap());
    assert!(!try_predicate_is_vec(&wrapper("Option", vec![bare_type("T")])).unwrap());
}

#[test]
fn is_type_checks_name_and_arity() {
    let pair = wrapper("Pair", vec![bare_type("K"), bare_type("V")]);
    assert!(try_predicate_is_type("Pair", 2, &pair).unwrap());
    assert!(!try_predicate_is_type("Pair", 2, &bare_type("String")).unwrap());
}

#[test]
fn negated_predicates_agree_with_positive_ones() {
    let opt = wrapper("Option", vec![bare_type("T")]);
    assert!(!try_predicate_is_not_option(&opt).unwrap());
    assert!(try_predicate_is_not_option(&bare_type("String")).unwrap());
    assert!(!try_predicate_is_not_vec(&wrapper("Vec", vec![bare_type("T")])).unwrap());
    assert!(try_predicate_is_not_vec(&bare_type("String")).unwrap());
}

#[test]
fn is_not_option_and_vec_true_only_for_plain_types() {
    assert!(try_predicate_is_not_option_and_vec(&bare_type("String")).unwrap());
    assert!(!try_predicate_is_not_option_and_vec(&wrapper("Option", vec![bare_type("T")]))
        .unwrap());
    assert!(!try_predicate_is_not_option_and_vec(&wrapper("Vec", vec![bare_type("T")])).unwrap());
}

#[test]
fn path_predicates_inspect_last_segment() {
    let path = PathNode {
        segments: vec![
            PathSegment { ident: "std".to_string(), args: vec![] },
            PathSegment { ident: "Option".to_string(), args: vec![] },
        ],
    };
    assert!(try_predicate_is_ident("Option", &path));
    assert!(!try_predicate_is_ident("std", &path));
    assert!(try_predicate_is_not_ident("std", &path));
    assert!(try_predicate_path_segments_is_not_empty(&path));
    let empty = PathNode { segments: vec![] };
    assert!(try_predicate_path_segments_is_empty(&empty));
    assert!(!try_predicate_is_ident("Option", &empty));
}

#[test]
fn nested_wrappers_unwrap_one_level_at_a_time() {
    let ty = wrapper("Option", vec![wrapper("Vec", vec![bare_type("String")])]);
    let once = try_unwrap_option(&ty).unwrap();
    assert_eq!(last_ident(once), "Vec");
    let twice = try_unwrap_vec(once).unwrap();
    assert_eq!(last_ident(twice), "String");
}

#[test]
fn wrapper_queries_are_repeatable() {
    let ty = wrapper("Option", vec![bare_type("T")]);
    let first = try_predicate_is_option(&ty).unwrap();
    let second = try_predicate_is_option(&ty).unwrap();
    assert_eq!(first, second);
    let a = last_ident(try_unwrap_option(&ty).unwrap());
    let b = last_ident(try_unwrap_option(&ty).unwrap());
    assert_eq!(a, b);
}
