//! What can be wrong with a field's annotations.
use crate::syntax::{
    bundle_errors, bundle_of, custom_error, custom_error_of, duplicate_error, duplicate_error_of,
};
use vstd::prelude::*;

verus! {

/// One of the six options that an annotation can set.
#[derive(Clone, Copy, Debug, PartialEq, Eq, Structural)]
pub enum Slot {
    From,
    Rename,
    Default,
    With,
    Nested,
    Ignored,
}

impl Slot {
    /// The word by which the option is written.
    pub open spec fn key(self) -> Seq<char> {
        match self {
            Slot::From => "from"@,
            Slot::Rename => "rename"@,
            Slot::Default => "default"@,
            Slot::With => "with"@,
            Slot::Nested => "nested"@,
            Slot::Ignored => "ignored"@,
        }
    }

    /// The word by which the option is written.
    pub fn name(&self) -> (text: &'static str)
        ensures
            text@ == self.key(),
    {
        match self {
            Slot::From => "from",
            Slot::Rename => "rename",
            Slot::Default => "default",
            Slot::With => "with",
            Slot::Nested => "nested",
            Slot::Ignored => "ignored",
        }
    }
}

/// The classes of diagnostics.
#[derive(Clone, Copy, Debug, PartialEq, Eq, Structural)]
pub enum DiagnosticKind {
    /// An annotation or one of its items is not in the expected shape.
    StructuralError,
    /// An item's name is none of the six options.
    UnknownOption,
    /// An option's value is not of the shape that the option requires.
    ValueShapeError,
    /// `ignored` or `nested` stands beside another option.
    ConflictError,
    /// A default is given for a field whose type is an optional.
    InvariantViolation,
}

/// One diagnostic, with what is needed to point at its source.
#[derive(Debug)]
pub enum Diagnostic {
    /// An `env` annotation that is not of the form `env(...)`, or whose
    /// arguments are not a list of items.
    MalformedBlock(darling::Error),
    /// A bare literal where a named item is expected.
    UnexpectedLiteral(darling::Error),
    /// An option written a second time, at the location of its name.
    DuplicateOption { slot: Slot, span: proc_macro2::Span },
    /// An item whose name is none of the six options.
    UnknownOption(darling::Error),
    /// An option whose value has the wrong shape.
    MalformedValue { slot: Slot, error: darling::Error },
    /// `ignored` beside another option, at the location of `ignored`.
    IgnoredClash { span: proc_macro2::Span },
    /// `nested` beside a value option, at the location of `nested`.
    NestedClash { span: proc_macro2::Span },
    /// A default on an optional field, at the location of `default`.
    OptionalDefault { span: proc_macro2::Span },
}

/// The message of [`Diagnostic::IgnoredClash`].
pub open spec fn ignored_clash_message() -> Seq<char> {
    "`ignored` cannot be used with other attributes"@
}

/// The message of [`Diagnostic::NestedClash`].
pub open spec fn nested_clash_message() -> Seq<char> {
    "`nested` cannot be used with other attributes"@
}

/// The message of [`Diagnostic::OptionalDefault`].
pub open spec fn optional_default_message() -> Seq<char> {
    "Optional fields cannot have a default"@
}

impl Diagnostic {
    /// The class of a diagnostic.
    pub open spec fn class(self) -> DiagnosticKind {
        match self {
            Diagnostic::MalformedBlock(_) => DiagnosticKind::StructuralError,
            Diagnostic::UnexpectedLiteral(_) => DiagnosticKind::StructuralError,
            Diagnostic::DuplicateOption { .. } => DiagnosticKind::StructuralError,
            Diagnostic::UnknownOption(_) => DiagnosticKind::UnknownOption,
            Diagnostic::MalformedValue { .. } => DiagnosticKind::ValueShapeError,
            Diagnostic::IgnoredClash { .. } => DiagnosticKind::ConflictError,
            Diagnostic::NestedClash { .. } => DiagnosticKind::ConflictError,
            Diagnostic::OptionalDefault { .. } => DiagnosticKind::InvariantViolation,
        }
    }

    /// The error by which a diagnostic is reported: the parser's own error
    /// where it raised one, else this crate's message at the diagnostic's
    /// location.
    pub open spec fn as_error(self) -> darling::Error {
        match self {
            Diagnostic::MalformedBlock(error) => error,
            Diagnostic::UnexpectedLiteral(error) => error,
            Diagnostic::DuplicateOption { slot, span } => duplicate_error_of(slot.key(), span),
            Diagnostic::UnknownOption(error) => error,
            Diagnostic::MalformedValue { error, .. } => error,
            Diagnostic::IgnoredClash { span } => custom_error_of(ignored_clash_message(), span),
            Diagnostic::NestedClash { span } => custom_error_of(nested_clash_message(), span),
            Diagnostic::OptionalDefault { span } => custom_error_of(
                optional_default_message(),
                span,
            ),
        }
    }

    /// The class of a diagnostic.
    pub fn kind(&self) -> (kind: DiagnosticKind)
        ensures
            kind == self.class(),
    {
        match self {
            Diagnostic::MalformedBlock(_) => DiagnosticKind::StructuralError,
            Diagnostic::UnexpectedLiteral(_) => DiagnosticKind::StructuralError,
            Diagnostic::DuplicateOption { .. } => DiagnosticKind::StructuralError,
            Diagnostic::UnknownOption(_) => DiagnosticKind::UnknownOption,
            Diagnostic::MalformedValue { .. } => DiagnosticKind::ValueShapeError,
            Diagnostic::IgnoredClash { .. } => DiagnosticKind::ConflictError,
            Diagnostic::NestedClash { .. } => DiagnosticKind::ConflictError,
            Diagnostic::OptionalDefault { .. } => DiagnosticKind::InvariantViolation,
        }
    }

    /// Turns a diagnostic into the error by which it is reported.
    pub fn into_error(self) -> (error: darling::Error)
        ensures
            error == self.as_error(),
    {
        match self {
            Diagnostic::MalformedBlock(error) => error,
            Diagnostic::UnexpectedLiteral(error) => error,
            Diagnostic::DuplicateOption { slot, span } => duplicate_error(slot.name(), span),
            Diagnostic::UnknownOption(error) => error,
            Diagnostic::MalformedValue { error, .. } => error,
            Diagnostic::IgnoredClash { span } => custom_error(
                "`ignored` cannot be used with other attributes",
                span,
            ),
            Diagnostic::NestedClash { span } => custom_error(
                "`nested` cannot be used with other attributes",
                span,
            ),
            Diagnostic::OptionalDefault { span } => custom_error(
                "Optional fields cannot have a default",
                span,
            ),
        }
    }
}

/// The errors by which a list of diagnostics is reported, one for one.
pub open spec fn errors_of(diagnostics: Seq<Diagnostic>) -> Seq<darling::Error> {
    Seq::new(diagnostics.len(), |i: int| diagnostics[i].as_error())
}

/// Bundles the diagnostics of one field into the single error that is
/// handed back: every diagnostic is in it, in the order in which it was
/// found.
pub fn report(diagnostics: Vec<Diagnostic>) -> (error: darling::Error)
    requires
        diagnostics@.len() > 0,
    ensures
        error == bundle_of(errors_of(diagnostics@)),
{
    let ghost all = diagnostics@;
    let mut rest = diagnostics;
    let mut errors: Vec<darling::Error> = Vec::new();
    while rest.len() > 0
        invariant
            errors@.len() + rest@.len() == all.len(),
            forall|i: int| 0 <= i < errors@.len() ==> errors@[i] == all[i].as_error(),
            forall|j: int| 0 <= j < rest@.len() ==> rest@[j] == all[errors@.len() + j],
        decreases rest@.len(),
    {
        let next = rest.remove(0);
        errors.push(next.into_error());
    }
    assert(errors@ =~= errors_of(all));
    bundle_errors(errors)
}

} // verus!
