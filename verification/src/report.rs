//! What the extractors report besides plain values: fatal failures,
//! recoverable diagnostics, derived identifiers, and the adapters that
//! turn a (location, message) pair into the host's compile-error
//! artifact.

use vstd::prelude::*;
use vstd::string::StringExecFns;

verus! {

/// An identifier derived from an attribute value, anchored at the span
/// of the attribute it came from.
#[derive(Debug)]
pub struct IdentNode {
    pub name: String,
    pub span: proc_macro2::Span,
}

/// A recoverable diagnostic: a message anchored at the source span of
/// the offending tree node. The caller may collect several before
/// aborting expansion.
#[derive(Debug)]
pub struct Diagnostic {
    pub span: proc_macro2::Span,
    pub message: String,
}

/// A fatal failure: the macro was used on an unsupported shape and the
/// whole expansion must abort. Each variant carries the identifier of
/// the offending struct or the wanted type name, so the surfaced
/// message can point at it.
#[derive(Debug)]
pub enum Fatal {
    /// The declaration is not a struct at all.
    UnsupportedShape { target: String },
    /// The struct does not have named fields.
    MissingNamedFields { target: String },
    /// The struct does not have positional fields.
    MissingUnnamedFields { target: String },
    /// The struct has no fields of either kind.
    MissingFields { target: String },
    /// The wanted wrapper name is there with the wrong number of type
    /// arguments.
    ArityMismatch { name: String, expected: usize, got: usize },
    /// A module-qualified path of the wrong name cannot be simplified to
    /// a bare identifier.
    UnresolvableType { name: String },
    /// Unwrapping was demanded of a type that is not the wanted wrapper.
    NotWrapped { name: String },
}

/// The message of the diagnostic for a malformed keyed attribute:
/// ``expected `container(key = "...")` ``.
pub open spec fn keyed_attr_expectation(container: Seq<char>, key: Seq<char>) -> Seq<char> {
    "expected `"@ + container + "("@ + key + " = \"...\")`"@
}

/// Builds the malformed-keyed-attribute message for the given container
/// attribute and key names.
pub fn keyed_attr_error_message(container: &str, key: &str) -> (r: String)
    ensures
        r@ == keyed_attr_expectation(container@, key@),
{
    let mut message = "expected `".to_owned();
    message.append(container);
    message.append("(");
    message.append(key);
    message.append(" = \"...\")`");
    proof {
        assert(message@ =~= keyed_attr_expectation(container@, key@));
    }
    message
}

/// Relies on `syn::Error::new` and `syn::Error::to_compile_error`: wraps
/// a location and a message into the `compile_error!` token stream the
/// host macro system surfaces as a compile-time diagnostic.
#[verifier::external_body]
pub fn make_new_compile_error(span: proc_macro2::Span, message: &str) -> proc_macro2::TokenStream {
    syn::Error::new(span, message).to_compile_error()
}

/// Relies on `syn::Error::new` and `syn::Error::to_compile_error`: turns
/// a diagnostic into the host's compile-error token stream, anchored at
/// the span the diagnostic carries.
#[verifier::external_body]
pub fn make_new_spanned_compile_error(diagnostic: &Diagnostic) -> proc_macro2::TokenStream {
    syn::Error::new(diagnostic.span, diagnostic.message.as_str()).to_compile_error()
}

} // verus!
