//! Trusted boundary to the host macro system.
//!
//! Everything the verifier must take on faith about the outside crates
//! stands here: the declarations of the opaque `proc_macro2` types that
//! values of this library carry through, and the one string primitive
//! that `vstd` does not specify.

use vstd::prelude::*;

verus! {

/// A source location of the host macro system. Opaque: the library only
/// copies spans from tree nodes into derived identifiers and diagnostics.
#[verifier::external_type_specification]
#[verifier::external_body]
pub struct ExSpan(proc_macro2::Span);

/// A token stream of the host macro system. Opaque: produced only as the
/// final compile-error artifact.
#[verifier::external_type_specification]
#[verifier::external_body]
pub struct ExTokenStream(proc_macro2::TokenStream);

/// Relies on `str`'s `PartialEq`: two string slices are equal exactly when
/// their character sequences are equal.
#[verifier::external_body]
pub(crate) fn str_eq(a: &str, b: &str) -> (r: bool)
    ensures
        r == (a@ == b@),
{
    a == b
}

} // verus!
