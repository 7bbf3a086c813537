//! Pulling literal configuration values out of a macro's attribute
//! argument list.

use vstd::prelude::*;

use crate::host::str_eq;
use crate::model::{AttrArg, LitValue};

verus! {

/// The value the named-argument scan yields on the first `i` entries:
/// the string value of the last `name = "value"` entry whose name is
/// `key`, or nothing. Entries of any other shape, and entries whose
/// value is not a string literal, are passed over.
pub open spec fn named_arg_value_upto(args: Seq<AttrArg>, key: Seq<char>, i: int) -> Option<
    Seq<char>,
>
    decreases i,
{
    if i <= 0 {
        None
    } else {
        match args[i - 1] {
            AttrArg::NameValue { name, value } => match value {
                LitValue::Str(s) => if name@ == key {
                    Some(s@)
                } else {
                    named_arg_value_upto(args, key, i - 1)
                },
                LitValue::Other => named_arg_value_upto(args, key, i - 1),
            },
            _ => named_arg_value_upto(args, key, i - 1),
        }
    }
}

/// The value the named-argument scan yields on the whole list.
pub open spec fn named_arg_value(args: Seq<AttrArg>, key: Seq<char>) -> Option<Seq<char>> {
    named_arg_value_upto(args, key, args.len() as int)
}

/// The character sequence of an optional owned string.
pub open spec fn found_view(o: Option<String>) -> Option<Seq<char>> {
    match o {
        Some(s) => Some(s@),
        None => None,
    }
}

/// The string value of the last `attr = "value"` entry in the list, or
/// `None` where no entry carries the name `attr` with a string-literal
/// value. Later entries overwrite earlier ones; entries of other shapes,
/// and matching names with non-string values, are passed over.
pub fn try_extract_attribute_args(attr: &str, args: Vec<AttrArg>) -> (r: Option<String>)
    ensures
        found_view(r) == named_arg_value(args@, attr@),
{
    let mut found: Option<String> = None;
    let mut i: usize = 0;
    while i < args.len()
        invariant
            i <= args@.len(),
            found_view(found) == named_arg_value_upto(args@, attr@, i as int),
        decreases args@.len() - i,
    {
        match &args[i] {
            AttrArg::NameValue { name, value } => {
                if str_eq(name.as_str(), attr) {
                    match value {
                        LitValue::Str(s) => {
                            found = Some(s.clone());
                        },
                        LitValue::Other => {},
                    }
                }
            },
            _ => {},
        }
        i += 1;
    }
    found
}

/// The string value of the first entry, where that entry is a bare
/// string literal; `None` where the list is empty or the first entry has
/// any other shape. Only the first entry is ever inspected.
pub fn try_extract_attribute_first_args(args: Vec<AttrArg>) -> (r: Option<String>)
    ensures
        (r is Some <==> (args@.len() > 0 && (args@[0] matches AttrArg::Lit(v) && v is Str))),
        (r matches Some(s) ==> (args@[0] matches AttrArg::Lit(v) && v matches LitValue::Str(t)
            && s@ == t@)),
{
    if args.len() == 0 {
        return None;
    }
    match &args[0] {
        AttrArg::Lit(LitValue::Str(s)) => Some(s.clone()),
        _ => None,
    }
}

/// Named-argument extraction is a pure query: any two results its
/// contract admits for the same argument list and key agree.
pub proof fn lemma_extract_attribute_args_deterministic(
    args: Seq<AttrArg>,
    key: Seq<char>,
    r1: Option<String>,
    r2: Option<String>,
)
    requires
        found_view(r1) == named_arg_value(args, key),
        found_view(r2) == named_arg_value(args, key),
    ensures
        found_view(r1) == found_view(r2),
{
}

} // verus!
