//! One field of a struct, with the configuration that its annotations give
//! it.
use crate::annotations::{diagnostics_of, documentation, options_of, read_attributes};
use crate::diagnostic::Diagnostic;
use crate::resolve::{resolution, resolve, EnvAttribute};
use crate::shape::{is_wrapper, parse_option, wrapped_type};
use crate::syntax::{
    attributes_of, clone_type, field_attributes, field_ident, field_type, ident_of, type_of,
};
use vstd::prelude::*;

verus! {

/// A field whose annotations were accepted.
#[derive(Debug)]
pub struct FromEnvFieldReceiver {
    /// The field's identifier.
    pub ident: syn::Ident,
    /// The field's declared type.
    pub ty: syn::Type,
    /// The type inside, where the declared type is written as an optional.
    pub option: Option<syn::Type>,
    /// The field's documentation, as it was written.
    pub doc_attrs: Vec<syn::Attribute>,
    /// How the field is populated.
    pub env_attr: EnvAttribute,
}

/// The diagnostics of reading followed by the one of resolving, if there is
/// one.
pub open spec fn all_diagnostics(
    read: Seq<Diagnostic>,
    resolved: Result<EnvAttribute, Diagnostic>,
) -> Seq<Diagnostic> {
    match resolved {
        Ok(_) => read,
        Err(diagnostic) => read.push(diagnostic),
    }
}

/// Closes the work on one field: the configuration stands only if nothing
/// at all was found wrong, and otherwise every diagnostic is handed back,
/// those of reading first.
pub fn conclude(read: Vec<Diagnostic>, resolved: Result<EnvAttribute, Diagnostic>) -> (outcome:
    Result<EnvAttribute, Vec<Diagnostic>>)
    ensures
        match outcome {
            Ok(config) => read@.len() == 0 && resolved == Ok::<EnvAttribute, Diagnostic>(config),
            Err(diagnostics) => diagnostics@.len() > 0 && diagnostics@ == all_diagnostics(
                read@,
                resolved,
            ),
        },
{
    let mut diagnostics = read;
    match resolved {
        Ok(config) => {
            if diagnostics.len() == 0 {
                Ok(config)
            } else {
                Err(diagnostics)
            }
        },
        Err(diagnostic) => {
            diagnostics.push(diagnostic);
            Err(diagnostics)
        },
    }
}

/// What resolving the options of a named field gives.
pub open spec fn field_resolution(field: syn::Field) -> Result<EnvAttribute, Diagnostic>
    recommends
        ident_of(field) is Some,
{
    resolution(
        ident_of(field)->0,
        is_wrapper(type_of(field)),
        options_of(attributes_of(field)),
    )
}

/// Everything that is wrong with the annotations of a named field: what
/// reading them found, in source order, and then what resolving them found.
pub open spec fn field_diagnostics(field: syn::Field) -> Seq<Diagnostic>
    recommends
        ident_of(field) is Some,
{
    all_diagnostics(diagnostics_of(attributes_of(field)), field_resolution(field))
}

/// Whether `outcome` is what a named field resolves to: the field with its
/// configuration where nothing is wrong, and every diagnostic otherwise.
pub open spec fn is_outcome(
    field: syn::Field,
    outcome: Result<FromEnvFieldReceiver, Vec<Diagnostic>>,
) -> bool
    recommends
        ident_of(field) is Some,
{
    match outcome {
        Ok(receiver) => {
            &&& field_diagnostics(field).len() == 0
            &&& Some(receiver.ident) == ident_of(field)
            &&& receiver.ty == type_of(field)
            &&& receiver.option == wrapped_type(type_of(field))
            &&& receiver.doc_attrs@ == documentation(
                attributes_of(field),
                attributes_of(field).len() as int,
            )
            &&& Ok::<EnvAttribute, Diagnostic>(receiver.env_attr) == field_resolution(field)
        },
        Err(diagnostics) => {
            &&& diagnostics@.len() > 0
            &&& diagnostics@ == field_diagnostics(field)
        },
    }
}

/// Reads and resolves the annotations of the field whose identifier is
/// `ident`.
fn resolve_named(ident: syn::Ident, field: &syn::Field) -> (outcome: Result<
    FromEnvFieldReceiver,
    Vec<Diagnostic>,
>)
    requires
        Some(ident) == ident_of(*field),
    ensures
        is_outcome(*field, outcome),
{
    let ty = field_type(field);
    let option = match parse_option(&ty) {
        Some(inner) => Some(clone_type(inner)),
        None => None,
    };
    let read = read_attributes(field_attributes(field));
    let resolved = resolve(&ident, option.is_some(), read.options);
    match conclude(read.diagnostics, resolved) {
        Ok(env_attr) => Ok(
            FromEnvFieldReceiver { ident, ty, option, doc_attrs: read.doc_attrs, env_attr },
        ),
        Err(diagnostics) => Err(diagnostics),
    }
}

impl FromEnvFieldReceiver {
    /// Reads and resolves the annotations of a named field. Every
    /// annotation and every item is looked at, whatever was found wrong
    /// before it.
    pub fn from_field(field: &syn::Field) -> (outcome: Result<
        FromEnvFieldReceiver,
        Vec<Diagnostic>,
    >)
        requires
            ident_of(*field) is Some,
        ensures
            is_outcome(*field, outcome),
    {
        resolve_named(field_ident(field).unwrap(), field)
    }

    /// Reads and resolves the annotations of a field, if it is a named one:
    /// `None` for a field without an identifier.
    pub fn try_from_field(field: &syn::Field) -> (outcome: Option<
        Result<FromEnvFieldReceiver, Vec<Diagnostic>>,
    >)
        ensures
            outcome is Some <==> ident_of(*field) is Some,
            outcome matches Some(resolved) ==> is_outcome(*field, resolved),
    {
        match field_ident(field) {
            Some(ident) => Some(resolve_named(ident, field)),
            None => None,
        }
    }
}

} // verus!
