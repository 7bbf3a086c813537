//! Normalizing the field list of a struct declaration.
//!
//! Three entry points over a [`StructDecl`], each total: the field list
//! comes back for the accepted shapes, and every rejected shape comes
//! back as the exact [`Fatal`] value that names the offending struct.

use vstd::prelude::*;

use crate::model::{FieldDecl, StructDecl, StructShape};
use crate::report::Fatal;

verus! {

/// The fields of a named-field struct, in declaration order.
///
/// Fails with `UnsupportedShape` on a non-struct declaration and with
/// `MissingNamedFields` on a struct whose fields are positional or
/// absent; both failures carry the declaration's identifier.
pub fn try_parse_named_fields<'a>(input: &'a StructDecl) -> (r: Result<&'a Vec<FieldDecl>, Fatal>)
    ensures
        (input.shape matches StructShape::Named(fields) ==> r matches Ok(v) && v@ == fields@),
        ((input.shape is Unnamed || input.shape is Unit) ==> (r matches Err(e) && e matches
        Fatal::MissingNamedFields { target } && target@ == input.ident@)),
        (input.shape is NotStruct ==> (r matches Err(e) && e matches Fatal::UnsupportedShape {
            target,
        } && target@ == input.ident@)),
{
    match &input.shape {
        StructShape::Named(fields) => Ok(fields),
        StructShape::Unnamed(_) => Err(
            Fatal::MissingNamedFields { target: input.ident.clone() },
        ),
        StructShape::Unit => Err(Fatal::MissingNamedFields { target: input.ident.clone() }),
        StructShape::NotStruct => Err(Fatal::UnsupportedShape { target: input.ident.clone() }),
    }
}

/// The fields of a positional-field struct, in declaration order.
///
/// Fails with `UnsupportedShape` on a non-struct declaration and with
/// `MissingUnnamedFields` on a struct whose fields are named or absent;
/// both failures carry the declaration's identifier.
pub fn try_parse_unnamed_fields<'a>(input: &'a StructDecl) -> (r: Result<&'a Vec<FieldDecl>, Fatal>)
    ensures
        (input.shape matches StructShape::Unnamed(fields) ==> r matches Ok(v) && v@ == fields@),
        ((input.shape is Named || input.shape is Unit) ==> (r matches Err(e) && e matches
        Fatal::MissingUnnamedFields { target } && target@ == input.ident@)),
        (input.shape is NotStruct ==> (r matches Err(e) && e matches Fatal::UnsupportedShape {
            target,
        } && target@ == input.ident@)),
{
    match &input.shape {
        StructShape::Unnamed(fields) => Ok(fields),
        StructShape::Named(_) => Err(
            Fatal::MissingUnnamedFields { target: input.ident.clone() },
        ),
        StructShape::Unit => Err(Fatal::MissingUnnamedFields { target: input.ident.clone() }),
        StructShape::NotStruct => Err(Fatal::UnsupportedShape { target: input.ident.clone() }),
    }
}

/// The fields of a struct of either field shape, in declaration order.
///
/// Fails with `MissingFields` only where there is no field list to hand
/// back: a unit struct, or a non-struct declaration; the failure carries
/// the declaration's identifier.
pub fn try_match_fields<'a>(input: &'a StructDecl) -> (r: Result<&'a Vec<FieldDecl>, Fatal>)
    ensures
        (input.shape matches StructShape::Named(fields) ==> r matches Ok(v) && v@ == fields@),
        (input.shape matches StructShape::Unnamed(fields) ==> r matches Ok(v) && v@ == fields@),
        ((input.shape is Unit || input.shape is NotStruct) ==> (r matches Err(e) && e matches
        Fatal::MissingFields { target } && target@ == input.ident@)),
{
    match &input.shape {
        StructShape::Named(fields) => Ok(fields),
        StructShape::Unnamed(fields) => Ok(fields),
        StructShape::Unit => Err(Fatal::MissingFields { target: input.ident.clone() }),
        StructShape::NotStruct => Err(Fatal::MissingFields { target: input.ident.clone() }),
    }
}

} // verus!
