//! Reading a `key = "value"` pair out of a field's attributes.
//!
//! The scan walks the field's attributes in declaration order and stops
//! at the first one whose parsed shape is a meta list and whose path
//! starts with the wanted container name. A well-formed first nested
//! item yields the value as an identifier; a malformed or
//! differently-keyed first item is a recoverable diagnostic, never
//! silently skipped.

use vstd::prelude::*;

use crate::host::str_eq;
use crate::model::{AttrShape, AttributeNode, FieldDecl, LitValue, MetaItem};
use crate::report::{keyed_attr_error_message, keyed_attr_expectation, Diagnostic, IdentNode};

verus! {

/// What one attribute contributes to the scan: nothing (wrong name or
/// shape, or an empty nested list), a found value, or a malformed first
/// nested item.
pub enum AttrStep {
    Skip,
    Found { value: Seq<char> },
    Malformed,
}

/// Classifies one attribute. An attribute counts only if its shape is a
/// meta list and its path's first segment is `container`. Its first
/// nested item then decides: a `key = "value"` pair with a string
/// literal is a find; a nested list with no items is passed over; any
/// other first item — wrong key, non-string value, or not a name-value
/// pair — is malformed.
pub open spec fn attr_step(a: AttributeNode, container: Seq<char>, key: Seq<char>) -> AttrStep {
    match a.shape {
        AttrShape::MetaList(items) => if a.path@.len() > 0 && a.path@[0]@ == container {
            if items@.len() == 0 {
                AttrStep::Skip
            } else {
                match items@[0] {
                    MetaItem::NameValue { name, value } => match value {
                        LitValue::Str(s) => if name@ == key {
                            AttrStep::Found { value: s@ }
                        } else {
                            AttrStep::Malformed
                        },
                        LitValue::Other => AttrStep::Malformed,
                    },
                    MetaItem::Other => AttrStep::Malformed,
                }
            }
        } else {
            AttrStep::Skip
        },
        AttrShape::Other => AttrStep::Skip,
    }
}

/// The outcome of scanning a field's attributes: no attribute counted,
/// or the first counting attribute (by index) was a find or malformed.
pub enum KeyedScan {
    NotFound,
    Found { idx: int, value: Seq<char> },
    Malformed { idx: int },
}

/// The scan outcome over `attrs` from index `i` on: the first
/// non-skipped attribute decides.
pub open spec fn scan_keyed_from(
    attrs: Seq<AttributeNode>,
    container: Seq<char>,
    key: Seq<char>,
    i: int,
) -> KeyedScan
    decreases attrs.len() - i,
{
    if i < 0 || i >= attrs.len() {
        KeyedScan::NotFound
    } else {
        match attr_step(attrs[i], container, key) {
            AttrStep::Skip => scan_keyed_from(attrs, container, key, i + 1),
            AttrStep::Found { value } => KeyedScan::Found { idx: i, value },
            AttrStep::Malformed => KeyedScan::Malformed { idx: i },
        }
    }
}

/// The scan outcome over the whole attribute list.
pub open spec fn scan_keyed(
    attrs: Seq<AttributeNode>,
    container: Seq<char>,
    key: Seq<char>,
) -> KeyedScan {
    scan_keyed_from(attrs, container, key, 0)
}

/// Extracts the value of `derive_attribute(path_attribute = "...")` from
/// the field's attributes.
///
/// The first attribute that is a meta list named `derive_attribute`
/// decides: a well-formed first nested item comes back as an identifier
/// anchored at that attribute's span; anything else in first position is
/// a diagnostic anchored there, with a message naming the expected
/// shape. Where no attribute counts, the result is `Ok(None)`.
pub fn try_extract_field_attribute_path_attribute(
    derive_attribute: &str,
    path_attribute: &str,
    field: &FieldDecl,
) -> (r: Result<Option<IdentNode>, Diagnostic>)
    ensures
        admitted_keyed_result(field.attrs@, derive_attribute@, path_attribute@, r),
{
    let mut i: usize = 0;
    while i < field.attrs.len()
        invariant
            i <= field.attrs@.len(),
            scan_keyed(field.attrs@, derive_attribute@, path_attribute@) == scan_keyed_from(
                field.attrs@,
                derive_attribute@,
                path_attribute@,
                i as int,
            ),
        decreases field.attrs@.len() - i,
    {
        let attr = &field.attrs[i];
        match &attr.shape {
            AttrShape::MetaList(items) => {
                if attr.path.len() > 0 && str_eq(attr.path[0].as_str(), derive_attribute) {
                    if items.len() > 0 {
                        match &items[0] {
                            MetaItem::NameValue { name, value } => match value {
                                LitValue::Str(s) => {
                                    if str_eq(name.as_str(), path_attribute) {
                                        return Ok(
                                            Some(IdentNode { name: s.clone(), span: attr.span }),
                                        );
                                    } else {
                                        return Err(
                                            Diagnostic {
                                                span: attr.span,
                                                message: keyed_attr_error_message(
                                                    derive_attribute,
                                                    path_attribute,
                                                ),
                                            },
                                        );
                                    }
                                },
                                LitValue::Other => {
                                    return Err(
                                        Diagnostic {
                                            span: attr.span,
                                            message: keyed_attr_error_message(
                                                derive_attribute,
                                                path_attribute,
                                            ),
                                        },
                                    );
                                },
                            },
                            MetaItem::Other => {
                                return Err(
                                    Diagnostic {
                                        span: attr.span,
                                        message: keyed_attr_error_message(
                                            derive_attribute,
                                            path_attribute,
                                        ),
                                    },
                                );
                            },
                        }
                    }
                }
            },
            AttrShape::Other => {},
        }
        i += 1;
    }
    Ok(None)
}

/// Whether `r` is a result the contract of
/// [`try_extract_field_attribute_path_attribute`] admits on a field with
/// the given attributes.
pub open spec fn admitted_keyed_result(
    attrs: Seq<AttributeNode>,
    container: Seq<char>,
    key: Seq<char>,
    r: Result<Option<IdentNode>, Diagnostic>,
) -> bool {
    &&& (scan_keyed(attrs, container, key) is NotFound ==> (r matches Ok(o) && o is None))
    &&& (scan_keyed(attrs, container, key) matches KeyedScan::Found { idx, value } ==> (r matches Ok(
        o,
    ) && o matches Some(id) && id.name@ == value && id.span == attrs[idx].span))
    &&& (scan_keyed(attrs, container, key) matches KeyedScan::Malformed { idx } ==> (r matches Err(
        d,
    ) && d.span == attrs[idx].span && d.message@ == keyed_attr_expectation(container, key)))
}

/// Keyed extraction is a pure query: any two results its contract
/// admits for the same attributes and names agree on variant, value and
/// anchor.
pub proof fn lemma_keyed_extraction_deterministic(
    attrs: Seq<AttributeNode>,
    container: Seq<char>,
    key: Seq<char>,
    r1: Result<Option<IdentNode>, Diagnostic>,
    r2: Result<Option<IdentNode>, Diagnostic>,
)
    requires
        admitted_keyed_result(attrs, container, key, r1),
        admitted_keyed_result(attrs, container, key, r2),
    ensures
        (r1 is Ok <==> r2 is Ok),
        (r1 matches Ok(o1) ==> (o1 matches Some(i1) ==> (r2 matches Ok(o2) && o2 matches Some(i2)
            && i1.name@ == i2.name@ && i1.span == i2.span))),
        (r1 matches Err(d1) ==> (r2 matches Err(d2) && d1.span == d2.span && d1.message@
            == d2.message@)),
{
}

} // verus!
