//! Matching a type node against a named single-type-parameter wrapper.
//!
//! The one core routine, [`try_unwrap_types`], decides whether a node is
//! shaped as `name<..>` with a given number of type arguments and hands
//! the arguments out; everything else here — the `Option`/`Vec`
//! unwrappers and the boolean predicates — is a thin layer over it, with
//! the "no match" case swallowed or re-raised as each entry point needs.

use vstd::prelude::*;

use crate::host::str_eq;
use crate::model::{
    is_nonempty_path, last_ident, last_segment, matches_wrapper, name_matches, segment_count,
    silently_no_match, type_args_of, unresolvable_mismatch, wrapper_args, wrapper_arity_conflict,
    wrapper_fatal, GenericArg, PathNode, TypeNode,
};
use crate::report::Fatal;

verus! {

/// The recognized "optional value" wrapper name.
pub const BUILTIN_TYPE_OPTION: &'static str = "Option";

/// The recognized "repeated value" wrapper name.
pub const BUILTIN_TYPE_VEC: &'static str = "Vec";

/// The type arguments of the last path segment, in source order, with
/// non-type generic arguments dropped; `None` where the node is not a
/// non-empty path or the last segment carries no type argument.
pub fn try_extract_inner_types<'a>(ty: &'a TypeNode) -> (r: Option<Vec<&'a TypeNode>>)
    ensures
        (r is Some <==> is_nonempty_path(*ty) && wrapper_args(*ty).len() > 0),
        (r matches Some(v) ==> v@.map_values(|t: &TypeNode| *t) == wrapper_args(*ty)),
{
    match ty {
        TypeNode::Path(path) => {
            let n = path.segments.len();
            if n == 0 {
                return None;
            }
            let seg = &path.segments[n - 1];
            proof {
                assert(*seg == last_segment(*ty));
            }
            let mut collected: Vec<&'a TypeNode> = Vec::new();
            let mut i: usize = 0;
            while i < seg.args.len()
                invariant
                    i <= seg.args@.len(),
                    collected@.map_values(|t: &TypeNode| *t) == type_args_of(
                        seg.args@.take(i as int),
                    ),
                decreases seg.args@.len() - i,
            {
                proof {
                    assert(seg.args@.take(i as int + 1).drop_last() =~= seg.args@.take(i as int));
                    assert(seg.args@.take(i as int + 1).last() == seg.args@[i as int]);
                }
                match &seg.args[i] {
                    GenericArg::Type(t) => {
                        collected.push(t);
                        proof {
                            assert(collected@.map_values(|t: &TypeNode| *t) =~= type_args_of(
                                seg.args@.take(i as int + 1),
                            ));
                        }
                    },
                    GenericArg::Other => {},
                }
                i += 1;
            }
            proof {
                assert(seg.args@.take(i as int) =~= seg.args@);
            }
            if collected.len() == 0 {
                None
            } else {
                Some(collected)
            }
        },
        TypeNode::Other => None,
    }
}

/// Matches `ty` against the wrapper shape `ident<..>` with exactly
/// `target_types` type arguments.
///
/// A node that cannot match — no path, an empty path, or a plain
/// single-segment path of another name — comes back as `Ok(None)`. A
/// matching name with the wanted argument count comes back as the
/// extracted arguments. A matching name with any other argument count is
/// a fatal `ArityMismatch`, and a module-qualified path of another name
/// a fatal `UnresolvableType`.
pub fn try_unwrap_types<'a>(ident: &str, target_types: usize, ty: &'a TypeNode) -> (r: Result<
    Option<Vec<&'a TypeNode>>,
    Fatal,
>)
    ensures
        (silently_no_match(*ty, ident@) ==> (r matches Ok(inner) && inner is None)),
        (matches_wrapper(*ty, ident@, target_types as int) ==> (r matches Ok(inner) && inner
            matches Some(v) && v@.map_values(|t: &TypeNode| *t) == wrapper_args(*ty))),
        (wrapper_arity_conflict(*ty, ident@, target_types as int) ==> (r matches Err(e) && e
            matches Fatal::ArityMismatch { name, expected, got } && name@ == ident@ && expected
            == target_types && got == wrapper_args(*ty).len())),
        (unresolvable_mismatch(*ty, ident@) ==> (r matches Err(e) && e matches
        Fatal::UnresolvableType { name } && name@ == ident@)),
{
    match ty {
        TypeNode::Path(path) => {
            let n = path.segments.len();
            if n == 0 {
                return Ok(None);
            }
            if str_eq(path.segments[n - 1].ident.as_str(), ident) {
                let extracted: Vec<&'a TypeNode> = match try_extract_inner_types(ty) {
                    Some(v) => v,
                    None => Vec::new(),
                };
                if extracted.len() == target_types {
                    Ok(Some(extracted))
                } else {
                    Err(
                        Fatal::ArityMismatch {
                            name: ident.to_owned(),
                            expected: target_types,
                            got: extracted.len(),
                        },
                    )
                }
            } else if n == 1 {
                Ok(None)
            } else {
                Err(Fatal::UnresolvableType { name: ident.to_owned() })
            }
        },
        TypeNode::Other => Ok(None),
    }
}

/// Unwraps `ty` as `ident<inner>` and hands back the one inner type.
///
/// Where the node is not the wanted wrapper at all this is fatal too —
/// `NotWrapped` — since the caller demanded the wrapper; the arity and
/// unresolvable failures of the matcher pass through unchanged.
pub fn try_unwrap_single<'a>(ident: &str, ty: &'a TypeNode) -> (r: Result<&'a TypeNode, Fatal>)
    ensures
        (matches_wrapper(*ty, ident@, 1) ==> (r matches Ok(inner) && *inner == wrapper_args(
            *ty,
        )[0])),
        (silently_no_match(*ty, ident@) ==> (r matches Err(e) && e matches Fatal::NotWrapped {
            name,
        } && name@ == ident@)),
        (wrapper_arity_conflict(*ty, ident@, 1) ==> (r matches Err(e) && e matches
        Fatal::ArityMismatch { name, expected, got } && name@ == ident@ && expected == 1 && got
            == wrapper_args(*ty).len())),
        (unresolvable_mismatch(*ty, ident@) ==> (r matches Err(e) && e matches
        Fatal::UnresolvableType { name } && name@ == ident@)),
{
    proof {
        crate::model::lemma_wrapper_outcomes_partition(*ty, ident@, 1);
    }
    match try_unwrap_types(ident, 1, ty) {
        Ok(inner) => match inner {
            Some(v) => Ok(v[0]),
            None => Err(Fatal::NotWrapped { name: ident.to_owned() }),
        },
        Err(e) => Err(e),
    }
}

/// Unwraps `Option<inner>` to the inner type; fatal on anything that is
/// not exactly a single-argument `Option` wrapper.
pub fn try_unwrap_option<'a>(ty: &'a TypeNode) -> (r: Result<&'a TypeNode, Fatal>)
    ensures
        (matches_wrapper(*ty, BUILTIN_TYPE_OPTION@, 1) ==> (r matches Ok(inner) && *inner
            == wrapper_args(*ty)[0])),
        (silently_no_match(*ty, BUILTIN_TYPE_OPTION@) ==> (r matches Err(e) && e matches
        Fatal::NotWrapped { name } && name@ == BUILTIN_TYPE_OPTION@)),
        (wrapper_arity_conflict(*ty, BUILTIN_TYPE_OPTION@, 1) ==> (r matches Err(e) && e matches
        Fatal::ArityMismatch { name, expected, got } && name@ == BUILTIN_TYPE_OPTION@ && expected
            == 1 && got == wrapper_args(*ty).len())),
        (unresolvable_mismatch(*ty, BUILTIN_TYPE_OPTION@) ==> (r matches Err(e) && e matches
        Fatal::UnresolvableType { name } && name@ == BUILTIN_TYPE_OPTION@)),
{
    try_unwrap_single(BUILTIN_TYPE_OPTION, ty)
}

/// Unwraps `Vec<inner>` to the inner type; fatal on anything that is not
/// exactly a single-argument `Vec` wrapper.
pub fn try_unwrap_vec<'a>(ty: &'a TypeNode) -> (r: Result<&'a TypeNode, Fatal>)
    ensures
        (matches_wrapper(*ty, BUILTIN_TYPE_VEC@, 1) ==> (r matches Ok(inner) && *inner
            == wrapper_args(*ty)[0])),
        (silently_no_match(*ty, BUILTIN_TYPE_VEC@) ==> (r matches Err(e) && e matches
        Fatal::NotWrapped { name } && name@ == BUILTIN_TYPE_VEC@)),
        (wrapper_arity_conflict(*ty, BUILTIN_TYPE_VEC@, 1) ==> (r matches Err(e) && e matches
        Fatal::ArityMismatch { name, expected, got } && name@ == BUILTIN_TYPE_VEC@ && expected == 1
            && got == wrapper_args(*ty).len())),
        (unresolvable_mismatch(*ty, BUILTIN_TYPE_VEC@) ==> (r matches Err(e) && e matches
        Fatal::UnresolvableType { name } && name@ == BUILTIN_TYPE_VEC@)),
{
    try_unwrap_single(BUILTIN_TYPE_VEC, ty)
}

/// Whether `ty` is shaped as `ident<..>` with exactly `target_types`
/// type arguments; the fatal outcomes of the matcher are re-raised, a
/// plain miss is `Ok(false)`.
pub fn try_predicate_is_type(ident: &str, target_types: usize, ty: &TypeNode) -> (r: Result<
    bool,
    Fatal,
>)
    ensures
        (!wrapper_fatal(*ty, ident@, target_types as int) ==> (r matches Ok(b) && b
            == matches_wrapper(*ty, ident@, target_types as int))),
        (wrapper_arity_conflict(*ty, ident@, target_types as int) ==> (r matches Err(e) && e
            matches Fatal::ArityMismatch { name, expected, got } && name@ == ident@ && expected
            == target_types && got == wrapper_args(*ty).len())),
        (unresolvable_mismatch(*ty, ident@) ==> (r matches Err(e) && e matches
        Fatal::UnresolvableType { name } && name@ == ident@)),
{
    proof {
        crate::model::lemma_wrapper_outcomes_partition(*ty, ident@, target_types as int);
    }
    match try_unwrap_types(ident, target_types, ty) {
        Ok(inner) => Ok(inner.is_some()),
        Err(e) => Err(e),
    }
}

/// Whether `ty` is the single-argument `Option` wrapper; fatal outcomes
/// of the matcher are re-raised.
pub fn try_predicate_is_option(ty: &TypeNode) -> (r: Result<bool, Fatal>)
    ensures
        (!wrapper_fatal(*ty, BUILTIN_TYPE_OPTION@, 1) ==> (r matches Ok(b) && b == matches_wrapper(
            *ty,
            BUILTIN_TYPE_OPTION@,
            1,
        ))),
        (wrapper_fatal(*ty, BUILTIN_TYPE_OPTION@, 1) ==> r is Err),
{
    try_predicate_is_type(BUILTIN_TYPE_OPTION, 1, ty)
}

/// Whether `ty` is the single-argument `Vec` wrapper; fatal outcomes of
/// the matcher are re-raised.
pub fn try_predicate_is_vec(ty: &TypeNode) -> (r: Result<bool, Fatal>)
    ensures
        (!wrapper_fatal(*ty, BUILTIN_TYPE_VEC@, 1) ==> (r matches Ok(b) && b == matches_wrapper(
            *ty,
            BUILTIN_TYPE_VEC@,
            1,
        ))),
        (wrapper_fatal(*ty, BUILTIN_TYPE_VEC@, 1) ==> r is Err),
{
    try_predicate_is_type(BUILTIN_TYPE_VEC, 1, ty)
}

/// Whether `ty` is not the single-argument `Option` wrapper.
pub fn try_predicate_is_not_option(ty: &TypeNode) -> (r: Result<bool, Fatal>)
    ensures
        (!wrapper_fatal(*ty, BUILTIN_TYPE_OPTION@, 1) ==> (r matches Ok(b) && b
            == !matches_wrapper(*ty, BUILTIN_TYPE_OPTION@, 1))),
        (wrapper_fatal(*ty, BUILTIN_TYPE_OPTION@, 1) ==> r is Err),
{
    match try_predicate_is_option(ty) {
        Ok(b) => Ok(!b),
        Err(e) => Err(e),
    }
}

/// Whether `ty` is not the single-argument `Vec` wrapper.
pub fn try_predicate_is_not_vec(ty: &TypeNode) -> (r: Result<bool, Fatal>)
    ensures
        (!wrapper_fatal(*ty, BUILTIN_TYPE_VEC@, 1) ==> (r matches Ok(b) && b == !matches_wrapper(
            *ty,
            BUILTIN_TYPE_VEC@,
            1,
        ))),
        (wrapper_fatal(*ty, BUILTIN_TYPE_VEC@, 1) ==> r is Err),
{
    match try_predicate_is_vec(ty) {
        Ok(b) => Ok(!b),
        Err(e) => Err(e),
    }
}

/// Whether `ty` is neither the `Option` nor the `Vec` single-argument
/// wrapper. The `Option` check runs first and short-circuits, so its
/// fatal outcomes win; the `Vec` check is only reached on a type that is
/// not an `Option` wrapper.
pub fn try_predicate_is_not_option_and_vec(ty: &TypeNode) -> (r: Result<bool, Fatal>)
    ensures
        (wrapper_fatal(*ty, BUILTIN_TYPE_OPTION@, 1) ==> r is Err),
        ((!wrapper_fatal(*ty, BUILTIN_TYPE_OPTION@, 1) && matches_wrapper(
            *ty,
            BUILTIN_TYPE_OPTION@,
            1,
        )) ==> (r matches Ok(b) && b == false)),
        ((!wrapper_fatal(*ty, BUILTIN_TYPE_OPTION@, 1) && !matches_wrapper(
            *ty,
            BUILTIN_TYPE_OPTION@,
            1,
        ) && wrapper_fatal(*ty, BUILTIN_TYPE_VEC@, 1)) ==> r is Err),
        ((!wrapper_fatal(*ty, BUILTIN_TYPE_OPTION@, 1) && !matches_wrapper(
            *ty,
            BUILTIN_TYPE_OPTION@,
            1,
        ) && !wrapper_fatal(*ty, BUILTIN_TYPE_VEC@, 1)) ==> (r matches Ok(b) && b
            == !matches_wrapper(*ty, BUILTIN_TYPE_VEC@, 1))),
{
    match try_predicate_is_not_option(ty) {
        Ok(false) => Ok(false),
        Ok(true) => match try_predicate_is_not_vec(ty) {
            Ok(b) => Ok(b),
            Err(e) => Err(e),
        },
        Err(e) => Err(e),
    }
}

/// A plain path — a single segment that does not carry the wrapper's
/// name — never matches the wrapper at any arity and never raises a
/// fatal outcome: the boolean predicates answer `false` on it.
pub proof fn lemma_plain_path_is_no_match(ty: TypeNode, name: Seq<char>, arity: int)
    requires
        is_nonempty_path(ty),
        segment_count(ty) == 1,
        last_ident(ty) != name,
    ensures
        silently_no_match(ty, name),
        !matches_wrapper(ty, name, arity),
        !wrapper_fatal(ty, name, arity),
{
}

/// A node that is no path at all — an array, tuple, reference and the
/// like — never matches any wrapper and never raises a fatal outcome.
pub proof fn lemma_non_path_is_no_match(ty: TypeNode, name: Seq<char>, arity: int)
    requires
        !is_nonempty_path(ty),
    ensures
        silently_no_match(ty, name),
        !matches_wrapper(ty, name, arity),
        !wrapper_fatal(ty, name, arity),
{
}

/// Whether the path is non-empty and its last segment carries the given
/// identifier.
pub fn try_predicate_is_ident(ident: &str, path: &PathNode) -> (r: bool)
    ensures
        r == (path.segments@.len() > 0 && path.segments@.last().ident@ == ident@),
{
    let n = path.segments.len();
    if n == 0 {
        false
    } else {
        str_eq(path.segments[n - 1].ident.as_str(), ident)
    }
}

/// Whether the path is empty, or its last segment carries another
/// identifier.
pub fn try_predicate_is_not_ident(ident: &str, path: &PathNode) -> (r: bool)
    ensures
        r == !(path.segments@.len() > 0 && path.segments@.last().ident@ == ident@),
{
    !try_predicate_is_ident(ident, path)
}

/// Whether the path has at least one segment.
pub fn try_predicate_path_segments_is_not_empty(path: &PathNode) -> (r: bool)
    ensures
        r == (path.segments@.len() > 0),
{
    !try_predicate_path_segments_is_empty(path)
}

/// Whether the path has no segments.
pub fn try_predicate_path_segments_is_empty(path: &PathNode) -> (r: bool)
    ensures
        r == (path.segments@.len() == 0),
{
    path.segments.len() == 0
}

} // verus!
