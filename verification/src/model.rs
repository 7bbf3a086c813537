//! The syntax tree the library walks.
//!
//! The tree is produced by an external parser and handed in as plain
//! data: a type is a path of segments, the last of which may carry
//! angle-bracketed generic arguments; a field has an optional name, a
//! type and attributes; a struct declaration has an identifier and one of
//! four field shapes. Only what the extractors read is represented;
//! everything else collapses into an `Other` variant that no predicate
//! here matches.

use vstd::prelude::*;

verus! {

/// One generic argument of a path segment. Only type arguments are ever
/// inspected; lifetimes, const arguments and bindings are `Other`.
pub enum GenericArg {
    Type(TypeNode),
    Other,
}

/// One segment of a type path: an identifier plus the generic arguments
/// of its angle-bracketed list, in source order. A segment without such a
/// list has an empty argument list.
pub struct PathSegment {
    pub ident: String,
    pub args: Vec<GenericArg>,
}

/// A possibly module-qualified type path, e.g. `std::option::Option<T>`.
pub struct PathNode {
    pub segments: Vec<PathSegment>,
}

/// A type node: a path, or any other type form (array, tuple, reference,
/// ...), which no wrapper shape ever matches.
pub enum TypeNode {
    Path(PathNode),
    Other,
}

/// A literal value in an attribute: a string literal, or any other
/// literal kind, which the extractors treat as no match.
pub enum LitValue {
    Str(String),
    Other,
}

/// One entry of a macro's attribute argument list: a simple
/// `name = literal` pair, a bare literal, or anything else.
pub enum AttrArg {
    NameValue { name: String, value: LitValue },
    Lit(LitValue),
    Other,
}

/// One nested item of a meta-list attribute: a simple `name = literal`
/// pair whose name is a bare identifier, or anything else.
pub enum MetaItem {
    NameValue { name: String, value: LitValue },
    Other,
}

/// The parsed shape of a field attribute: a parenthesized list of nested
/// items, or any other shape (bare path, `name = value`, unparsable).
pub enum AttrShape {
    MetaList(Vec<MetaItem>),
    Other,
}

/// An attribute attached to a field: its path's segment identifiers, its
/// parsed shape, and its source span for diagnostics.
pub struct AttributeNode {
    pub path: Vec<String>,
    pub shape: AttrShape,
    pub span: proc_macro2::Span,
}

/// A field of a struct: a name for named-field structs (absent for
/// positional fields), a type, and the attached attributes in
/// declaration order.
pub struct FieldDecl {
    pub name: Option<String>,
    pub ty: TypeNode,
    pub attrs: Vec<AttributeNode>,
}

/// The field shape of a declaration: named fields, positional fields, a
/// unit struct without a field list, or a non-struct item (enum, union).
pub enum StructShape {
    Named(Vec<FieldDecl>),
    Unnamed(Vec<FieldDecl>),
    Unit,
    NotStruct,
}

/// A declaration handed to a derive macro: its identifier (kept for
/// diagnostics) and its field shape.
pub struct StructDecl {
    pub ident: String,
    pub shape: StructShape,
}

/// The type arguments among a segment's generic arguments, in source
/// order, with lifetime and const arguments dropped.
pub open spec fn type_args_of(args: Seq<GenericArg>) -> Seq<TypeNode>
    decreases args.len(),
{
    if args.len() == 0 {
        Seq::empty()
    } else {
        match args.last() {
            GenericArg::Type(t) => type_args_of(args.drop_last()).push(t),
            GenericArg::Other => type_args_of(args.drop_last()),
        }
    }
}

/// Whether the node is a path with at least one segment; nothing else is
/// ever matched against a wrapper name.
pub open spec fn is_nonempty_path(ty: TypeNode) -> bool {
    ty matches TypeNode::Path(p) && p.segments@.len() > 0
}

/// How many segments the path has.
pub open spec fn segment_count(ty: TypeNode) -> int
    recommends
        ty is Path,
{
    ty->Path_0.segments@.len() as int
}

/// The last segment of the path.
pub open spec fn last_segment(ty: TypeNode) -> PathSegment
    recommends
        is_nonempty_path(ty),
{
    ty->Path_0.segments@.last()
}

/// The identifier of the last segment.
pub open spec fn last_ident(ty: TypeNode) -> Seq<char>
    recommends
        is_nonempty_path(ty),
{
    last_segment(ty).ident@
}

/// The type arguments of the last segment.
pub open spec fn wrapper_args(ty: TypeNode) -> Seq<TypeNode>
    recommends
        is_nonempty_path(ty),
{
    type_args_of(last_segment(ty).args@)
}

/// The node is a non-empty path whose last segment carries the wanted
/// name.
pub open spec fn name_matches(ty: TypeNode, name: Seq<char>) -> bool {
    is_nonempty_path(ty) && last_ident(ty) == name
}

/// The node is shaped as `name<..>` with exactly `arity` type arguments.
pub open spec fn matches_wrapper(ty: TypeNode, name: Seq<char>, arity: int) -> bool {
    name_matches(ty, name) && wrapper_args(ty).len() == arity
}

/// The wanted name is there but the type-argument count is wrong: a
/// fatal mismatch, never a silent miss.
pub open spec fn wrapper_arity_conflict(ty: TypeNode, name: Seq<char>, arity: int) -> bool {
    name_matches(ty, name) && wrapper_args(ty).len() != arity
}

/// The node never matches and is passed over in silence: it is no path,
/// an empty path, or a plain single-segment path of a different name.
pub open spec fn silently_no_match(ty: TypeNode, name: Seq<char>) -> bool {
    !is_nonempty_path(ty) || (segment_count(ty) == 1 && last_ident(ty) != name)
}

/// A module-qualified path of a different name: the matcher cannot
/// simplify it to a bare identifier and fails fatally.
pub open spec fn unresolvable_mismatch(ty: TypeNode, name: Seq<char>) -> bool {
    is_nonempty_path(ty) && segment_count(ty) > 1 && last_ident(ty) != name
}

/// Any of the two fatal outcomes of matching `ty` against `name` at
/// `arity`.
pub open spec fn wrapper_fatal(ty: TypeNode, name: Seq<char>, arity: int) -> bool {
    wrapper_arity_conflict(ty, name, arity) || unresolvable_mismatch(ty, name)
}

/// The four outcomes of the matcher partition all type nodes: every
/// node falls under exactly one of a silent miss, a match, an arity
/// conflict, and an unresolvable mismatch.
pub proof fn lemma_wrapper_outcomes_partition(ty: TypeNode, name: Seq<char>, arity: int)
    ensures
        silently_no_match(ty, name) || matches_wrapper(ty, name, arity) || wrapper_arity_conflict(
            ty,
            name,
            arity,
        ) || unresolvable_mismatch(ty, name),
        !(silently_no_match(ty, name) && matches_wrapper(ty, name, arity)),
        !(silently_no_match(ty, name) && wrapper_arity_conflict(ty, name, arity)),
        !(silently_no_match(ty, name) && unresolvable_mismatch(ty, name)),
        !(matches_wrapper(ty, name, arity) && wrapper_arity_conflict(ty, name, arity)),
        !(matches_wrapper(ty, name, arity) && unresolvable_mismatch(ty, name)),
        !(wrapper_arity_conflict(ty, name, arity) && unresolvable_mismatch(ty, name)),
{
}

} // verus!
