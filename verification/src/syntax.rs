//! The boundary with the syntax-tree crates.
//!
//! Everything in this module is trusted: the outside types are opaque to the
//! verifier, and each function below makes one call into `syn`, `darling`,
//! `proc_macro2` or `std` whose behaviour is stated, not proved. The rest of
//! the crate is verified against these statements.
use vstd::prelude::*;

verus! {

#[verifier::external_type_specification]
#[verifier::external_body]
pub struct ExSpan(proc_macro2::Span);

#[verifier::external_type_specification]
#[verifier::external_body]
pub struct ExIdent(syn::Ident);

#[verifier::external_type_specification]
#[verifier::external_body]
pub struct ExType(syn::Type);

#[verifier::external_type_specification]
#[verifier::external_body]
pub struct ExPathSegment(syn::PathSegment);

#[verifier::external_type_specification]
#[verifier::external_body]
pub struct ExField(syn::Field);

#[verifier::external_type_specification]
#[verifier::external_body]
pub struct ExAttribute(syn::Attribute);

#[verifier::external_type_specification]
#[verifier::external_body]
pub struct ExMeta(syn::Meta);

#[verifier::external_type_specification]
#[verifier::external_body]
pub struct ExMetaList(syn::MetaList);

#[verifier::external_type_specification]
#[verifier::external_body]
pub struct ExLit(syn::Lit);

#[verifier::external_type_specification]
#[verifier::external_body]
pub struct ExLitStr(syn::LitStr);

#[verifier::external_type_specification]
#[verifier::external_body]
pub struct ExExprPath(syn::ExprPath);

#[verifier::external_type_specification]
#[verifier::external_body]
pub struct ExNestedMeta(darling::ast::NestedMeta);

#[verifier::external_type_specification]
#[verifier::external_body]
pub struct ExError(darling::Error);

/// A value that is either inherited from the field's identifier or given
/// explicitly, as `darling::util::Override` has it for a string literal.
#[derive(Debug)]
pub enum NameOverride {
    /// The option was written as a bare word.
    Inherit,
    /// The option was written with a string literal.
    Explicit(syn::LitStr),
}

// ---------------------------------------------------------------------------
// Fields
// ---------------------------------------------------------------------------
/// The identifier of a field; `None` for a field of a tuple struct.
pub uninterp spec fn ident_of(field: syn::Field) -> Option<syn::Ident>;

/// The declared type of a field.
pub uninterp spec fn type_of(field: syn::Field) -> syn::Type;

/// The attributes written on a field, in source order.
pub uninterp spec fn attributes_of(field: syn::Field) -> Seq<syn::Attribute>;

/// Reads `syn::Field::ident` and clones it: the result is the field's
/// identifier, unchanged.
#[verifier::external_body]
pub(crate) fn field_ident(field: &syn::Field) -> (ident: Option<syn::Ident>)
    ensures
        ident == ident_of(*field),
{
    field.ident.clone()
}

/// Reads `syn::Field::ty` and clones it: the result is the field's declared
/// type, unchanged.
#[verifier::external_body]
pub(crate) fn field_type(field: &syn::Field) -> (ty: syn::Type)
    ensures
        ty == type_of(*field),
{
    field.ty.clone()
}

/// Reads `syn::Field::attrs`: the field's attributes in source order.
#[verifier::external_body]
pub(crate) fn field_attributes(field: &syn::Field) -> (attrs: &Vec<syn::Attribute>)
    ensures
        attrs@ == attributes_of(*field),
{
    &field.attrs
}

/// `Clone::clone` of `syn::Attribute`: the copy equals what was cloned.
#[verifier::external_body]
pub(crate) fn clone_attribute(attr: &syn::Attribute) -> (copy: syn::Attribute)
    ensures
        copy == *attr,
{
    attr.clone()
}

/// `Clone::clone` of `syn::Type`: the copy equals what was cloned.
#[verifier::external_body]
pub(crate) fn clone_type(ty: &syn::Type) -> (copy: syn::Type)
    ensures
        copy == *ty,
{
    ty.clone()
}

// ---------------------------------------------------------------------------
// Identifiers and literals
// ---------------------------------------------------------------------------
/// The text of an identifier as it prints.
pub uninterp spec fn ident_name(ident: syn::Ident) -> Seq<char>;

/// The source location of an identifier.
pub uninterp spec fn ident_location(ident: syn::Ident) -> proc_macro2::Span;

/// The upper-case form of a text, as Unicode defines it.
pub uninterp spec fn uppercase(text: Seq<char>) -> Seq<char>;

/// The string literal with the given content at the given location.
pub uninterp spec fn literal_of(text: Seq<char>, span: proc_macro2::Span) -> syn::LitStr;

/// `ToString::to_string` of `syn::Ident`: the identifier's text.
#[verifier::external_body]
pub(crate) fn ident_text(ident: &syn::Ident) -> (text: String)
    ensures
        text@ == ident_name(*ident),
{
    ident.to_string()
}

/// `syn::Ident::span`: the identifier's source location.
#[verifier::external_body]
pub(crate) fn ident_span(ident: &syn::Ident) -> (span: proc_macro2::Span)
    ensures
        span == ident_location(*ident),
{
    ident.span()
}

/// `str::to_uppercase`: the upper-case form of the text. It depends on the
/// text alone, not on a locale.
#[verifier::external_body]
pub(crate) fn to_uppercase(text: &str) -> (upper: String)
    ensures
        upper@ == uppercase(text@),
{
    text.to_uppercase()
}

/// `syn::LitStr::new`: a string literal made of a content and a location.
#[verifier::external_body]
pub(crate) fn new_literal(text: &str, span: proc_macro2::Span) -> (literal: syn::LitStr)
    ensures
        literal == literal_of(text@, span),
{
    syn::LitStr::new(text, span)
}

// ---------------------------------------------------------------------------
// Types
// ---------------------------------------------------------------------------
/// The last segment of a type that is a path; `None` for every other type.
pub uninterp spec fn last_segment(ty: syn::Type) -> Option<syn::PathSegment>;

/// The text of a path segment's identifier.
pub uninterp spec fn segment_name(segment: syn::PathSegment) -> Seq<char>;

/// The arguments of a path segment that are written between angle brackets,
/// in order: each is `Some` of the type it names, or `None` where it names
/// no type (a lifetime, a constant, a binding). `None` for a segment without
/// arguments or with arguments in round brackets.
pub uninterp spec fn angle_arguments(segment: syn::PathSegment) -> Option<Seq<Option<syn::Type>>>;

/// Tells `syn::Type::Path` from the other variants and calls
/// `Punctuated::last` on its segments.
#[verifier::external_body]
pub(crate) fn type_last_segment(ty: &syn::Type) -> (segment: Option<&syn::PathSegment>)
    ensures
        segment == match last_segment(*ty) {
            Some(s) => Some(&s),
            None => None,
        },
{
    match ty {
        syn::Type::Path(type_path) => type_path.path.segments.last(),
        _ => None,
    }
}

/// `PartialEq<str>` of the segment's `syn::Ident`: whether the identifier's
/// text is the given name.
#[verifier::external_body]
pub(crate) fn segment_is(segment: &syn::PathSegment, name: &str) -> (same: bool)
    ensures
        same == (segment_name(*segment) == name@),
{
    segment.ident == name
}

/// Tells `syn::PathArguments::AngleBracketed` from the other variants and
/// calls `Punctuated::len` on its arguments: how many stand between the
/// angle brackets.
#[verifier::external_body]
pub(crate) fn angle_argument_count(segment: &syn::PathSegment) -> (count: Option<usize>)
    ensures
        match (count, angle_arguments(*segment)) {
            (Some(found), Some(stated)) => found == stated.len(),
            (None, None) => true,
            _ => false,
        },
{
    match &segment.arguments {
        syn::PathArguments::AngleBracketed(list) => Some(list.args.len()),
        _ => None,
    }
}

/// Indexes the arguments between the angle brackets, which panics past
/// their end, and tells `syn::GenericArgument::Type` from the other
/// variants: the type that the argument at `index` names, if it names one.
#[verifier::external_body]
pub(crate) fn angle_argument_type(segment: &syn::PathSegment, index: usize) -> (ty: Option<
    &syn::Type,
>)
    requires
        angle_arguments(*segment) matches Some(stated) && index < stated.len(),
    ensures
        ty == match angle_arguments(*segment)->0[index as int] {
            Some(t) => Some(&t),
            None => None,
        },
{
    match &segment.arguments {
        syn::PathArguments::AngleBracketed(list) => match &list.args[index] {
            syn::GenericArgument::Type(ty) => Some(ty),
            _ => None,
        },
        _ => None,
    }
}

// ---------------------------------------------------------------------------
// Attributes and their items
// ---------------------------------------------------------------------------
/// The name of an attribute whose path is a single identifier, without
/// leading colons and without arguments: that identifier's text. `None` for
/// any other path.
pub uninterp spec fn attribute_name(attr: syn::Attribute) -> Option<Seq<char>>;

/// The argument list of a named attribute written with one, as `name(...)`,
/// or the error for one written as a bare word or as `name = value`.
pub uninterp spec fn attribute_list(attr: syn::Attribute) -> Result<syn::MetaList, darling::Error>;

/// The items of an argument list, split at the commas, or the error for a
/// list that is not made of such items.
pub uninterp spec fn list_items(list: syn::MetaList) -> Result<
    Seq<darling::ast::NestedMeta>,
    darling::Error,
>;

/// The named item that a list item is, or the bare literal that it is
/// instead.
pub uninterp spec fn item_meta(item: darling::ast::NestedMeta) -> Result<syn::Meta, syn::Lit>;

/// The error that reports a literal as standing where none is expected.
pub uninterp spec fn literal_error(literal: syn::Lit) -> darling::Error;

/// `syn::Path::is_ident` on `syn::Attribute::path`: whether the attribute's
/// path is the single identifier `name`.
#[verifier::external_body]
pub(crate) fn attribute_is(attr: &syn::Attribute, name: &str) -> (same: bool)
    ensures
        same == (attribute_name(*attr) == Some(name@)),
{
    attr.path().is_ident(name)
}

/// `syn::Meta::require_list`: the argument list of an attribute that has
/// one; an error for the two other shapes, converted into a
/// `darling::Error`. For a bare word the error is built from the first and
/// the last segment of the path, and the call panics on a path without
/// segments: the attribute must have a name.
#[verifier::external_body]
pub(crate) fn require_list(attr: &syn::Attribute) -> (list: Result<&syn::MetaList, darling::Error>)
    requires
        attribute_name(*attr) is Some,
    ensures
        match (list, attribute_list(*attr)) {
            (Ok(found), Ok(stated)) => *found == stated,
            (Err(found), Err(stated)) => found == stated,
            _ => false,
        },
{
    match attr.meta.require_list() {
        Ok(list) => Ok(list),
        Err(error) => Err(error.into()),
    }
}

/// `darling::ast::NestedMeta::parse_meta_list` on the list's tokens: the
/// items in order, or the parser's error, converted into a `darling::Error`.
#[verifier::external_body]
pub(crate) fn parse_meta_list(list: &syn::MetaList) -> (items: Result<
    Vec<darling::ast::NestedMeta>,
    darling::Error,
>)
    ensures
        match (items, list_items(*list)) {
            (Ok(found), Ok(stated)) => found@ == stated,
            (Err(found), Err(stated)) => found == stated,
            _ => false,
        },
{
    match darling::ast::NestedMeta::parse_meta_list(list.tokens.clone()) {
        Ok(items) => Ok(items),
        Err(error) => Err(error.into()),
    }
}

/// Tells the two variants of `darling::ast::NestedMeta` apart: a named item
/// or a bare literal.
#[verifier::external_body]
pub(crate) fn nested_meta(item: &darling::ast::NestedMeta) -> (meta: Result<&syn::Meta, &syn::Lit>)
    ensures
        match (meta, item_meta(*item)) {
            (Ok(found), Ok(stated)) => *found == stated,
            (Err(found), Err(stated)) => *found == stated,
            _ => false,
        },
{
    match item {
        darling::ast::NestedMeta::Meta(meta) => Ok(meta),
        darling::ast::NestedMeta::Lit(literal) => Err(literal),
    }
}

/// `darling::Error::unexpected_lit_type`: the error that names the kind of
/// the literal, at the literal's location.
#[verifier::external_body]
pub(crate) fn unexpected_literal_error(literal: &syn::Lit) -> (error: darling::Error)
    ensures
        error == literal_error(*literal),
{
    darling::Error::unexpected_lit_type(literal)
}

// ---------------------------------------------------------------------------
// Named items and their values
// ---------------------------------------------------------------------------
/// The name of an item whose path is a single identifier, without leading
/// colons and without arguments: that identifier's text. `None` for any other
/// path.
pub uninterp spec fn meta_name(meta: syn::Meta) -> Option<Seq<char>>;

/// The source location of an item's name.
pub uninterp spec fn key_location(meta: syn::Meta) -> proc_macro2::Span;

/// What an item holds, read as a string literal that may be left out.
pub uninterp spec fn meta_override(meta: syn::Meta) -> Result<NameOverride, darling::Error>;

/// What an item holds, read as a string literal.
pub uninterp spec fn meta_literal(meta: syn::Meta) -> Result<syn::LitStr, darling::Error>;

/// What an item holds, read as the path of a function.
pub uninterp spec fn meta_function(meta: syn::Meta) -> Result<syn::ExprPath, darling::Error>;

/// What an item holds, read as a switch: on for a bare word, and as written
/// for a boolean or a string that spells one.
pub uninterp spec fn meta_switch(meta: syn::Meta) -> Result<bool, darling::Error>;

/// The error that reports an item's name as none of the known ones.
pub uninterp spec fn unknown_option(meta: syn::Meta) -> darling::Error;

/// `syn::Path::is_ident` on `syn::Meta::path`: whether the item's path is
/// the single identifier `name`.
#[verifier::external_body]
pub(crate) fn meta_is(meta: &syn::Meta, name: &str) -> (same: bool)
    ensures
        same == (meta_name(*meta) == Some(name@)),
{
    meta.path().is_ident(name)
}

/// `Spanned::span` of `syn::Meta::path`: where the item's name stands.
#[verifier::external_body]
pub(crate) fn meta_key_span(meta: &syn::Meta) -> (span: proc_macro2::Span)
    ensures
        span == key_location(*meta),
{
    syn::spanned::Spanned::span(meta.path())
}

/// `FromMeta::from_meta` for `darling::util::Override<syn::LitStr>`: a bare
/// word inherits, `name = "..."` is explicit, and every other shape is an
/// error. The two variants are carried over one for one.
#[verifier::external_body]
pub(crate) fn override_from_meta(meta: &syn::Meta) -> (value: Result<NameOverride, darling::Error>)
    ensures
        value == meta_override(*meta),
{
    let parsed: darling::util::Override<syn::LitStr> = darling::FromMeta::from_meta(meta)?;
    Ok(
        match parsed {
            darling::util::Override::Inherit => NameOverride::Inherit,
            darling::util::Override::Explicit(literal) => NameOverride::Explicit(literal),
        },
    )
}

/// `FromMeta::from_meta` for `syn::LitStr`: the string literal of
/// `name = "..."`, and an error for every other shape.
#[verifier::external_body]
pub(crate) fn literal_from_meta(meta: &syn::Meta) -> (value: Result<syn::LitStr, darling::Error>)
    ensures
        value == meta_literal(*meta),
{
    darling::FromMeta::from_meta(meta)
}

/// `FromMeta::from_meta` for `syn::ExprPath`: the path of `name = a::b`, or
/// the one that the string of `name = "a::b"` parses to, and an error for
/// every other shape.
#[verifier::external_body]
pub(crate) fn function_from_meta(meta: &syn::Meta) -> (value: Result<syn::ExprPath, darling::Error>)
    ensures
        value == meta_function(*meta),
{
    darling::FromMeta::from_meta(meta)
}

/// `FromMeta::from_meta` for `bool`: a bare word is `true`, a boolean is
/// itself, a string is parsed as one, and anything else is an error.
#[verifier::external_body]
pub(crate) fn switch_from_meta(meta: &syn::Meta) -> (value: Result<bool, darling::Error>)
    ensures
        value == meta_switch(*meta),
{
    darling::FromMeta::from_meta(meta)
}

/// `darling::Error::unknown_field_path` on the item's path, with the item's
/// own location attached by `darling::Error::with_span`.
#[verifier::external_body]
pub(crate) fn unknown_option_error(meta: &syn::Meta) -> (error: darling::Error)
    ensures
        error == unknown_option(*meta),
{
    darling::Error::unknown_field_path(meta.path()).with_span(&syn::spanned::Spanned::span(meta))
}

// ---------------------------------------------------------------------------
// Errors of the library, as `darling` reports them
// ---------------------------------------------------------------------------
/// The error with the given message at the given location.
pub uninterp spec fn custom_error_of(message: Seq<char>, span: proc_macro2::Span) -> darling::Error;

/// The error that reports an option of the given name as written twice.
pub uninterp spec fn duplicate_error_of(name: Seq<char>, span: proc_macro2::Span) -> darling::Error;

/// The one error that stands for several, in their order.
pub uninterp spec fn bundle_of(errors: Seq<darling::Error>) -> darling::Error;

/// `darling::Error::custom`, with the location attached by
/// `darling::Error::with_span`.
#[verifier::external_body]
pub(crate) fn custom_error(message: &str, span: proc_macro2::Span) -> (error: darling::Error)
    ensures
        error == custom_error_of(message@, span),
{
    darling::Error::custom(message).with_span(&span)
}

/// `darling::Error::duplicate_field`, with the location attached by
/// `darling::Error::with_span`.
#[verifier::external_body]
pub(crate) fn duplicate_error(name: &str, span: proc_macro2::Span) -> (error: darling::Error)
    ensures
        error == duplicate_error_of(name@, span),
{
    darling::Error::duplicate_field(name).with_span(&span)
}

/// `darling::Error::multiple`, which panics on an empty list.
#[verifier::external_body]
pub(crate) fn bundle_errors(errors: Vec<darling::Error>) -> (error: darling::Error)
    requires
        errors@.len() > 0,
    ensures
        error == bundle_of(errors@),
{
    darling::Error::multiple(errors)
}

} // verus!
