//! What holds of the rules, whatever the field.
use crate::annotations::{
    after_blocks, after_items, block_diagnostics, block_items, blocks_diagnostics, diagnostics_of,
    is_env, items_diagnostics, options_of,
};
use crate::diagnostic::{Diagnostic, DiagnosticKind, Slot};
use crate::field::{field_diagnostics, field_resolution, is_outcome, FromEnvFieldReceiver};
use crate::options::RawOptionSet;
use crate::parser::{item_outcome, slot_named, OptionParser};
use crate::resolve::{default_literal, resolution, EnvAttribute};
use crate::shape::is_wrapper;
use crate::syntax::{attributes_of, ident_of, type_of, NameOverride};
use vstd::prelude::*;

verus! {

/// The six option words are distinct: each names its own option and no
/// other.
pub proof fn option_words_are_distinct(slot: Slot)
    ensures
        slot_named(slot.key()) == Some(slot),
{
    reveal_strlit("from");
    reveal_strlit("rename");
    reveal_strlit("default");
    reveal_strlit("with");
    reveal_strlit("nested");
    reveal_strlit("ignored");
    assert("from"@[0] == 'f');
    assert("rename"@[0] == 'r');
    assert("default"@[0] == 'd');
    assert("with"@[0] == 'w');
    assert("nested"@[0] == 'n');
    assert("ignored"@[0] == 'i');
}

/// A field without options is read from the variable named by its
/// identifier in upper case, without a source of its own, a fallback or a
/// conversion.
pub proof fn no_option_gives_the_default_name(ident: syn::Ident, optional: bool)
    ensures
        resolution(ident, optional, RawOptionSet::empty()) == Ok::<EnvAttribute, Diagnostic>(
            EnvAttribute::Flat {
                name: default_literal(ident),
                from: None,
                default: None,
                with: None,
            },
        ),
{
}

/// Attributes of which none is an annotation set no option and raise no
/// diagnostic.
pub proof fn other_attributes_are_passed_over(attrs: Seq<syn::Attribute>)
    requires
        forall|i: int| 0 <= i < attrs.len() ==> !is_env(#[trigger] attrs[i]),
    ensures
        options_of(attrs) == RawOptionSet::empty(),
        diagnostics_of(attrs) == Seq::<Diagnostic>::empty(),
{
    passed_over_up_to(attrs, attrs.len() as int);
}

proof fn passed_over_up_to(attrs: Seq<syn::Attribute>, n: int)
    requires
        0 <= n <= attrs.len(),
        forall|i: int| 0 <= i < attrs.len() ==> !is_env(#[trigger] attrs[i]),
    ensures
        after_blocks(OptionParser::start(), attrs, n) == OptionParser::start(),
        blocks_diagnostics(OptionParser::start(), attrs, n) == Seq::<Diagnostic>::empty(),
    decreases n,
{
    if n > 0 {
        passed_over_up_to(attrs, n - 1);
        assert(!is_env(attrs[n - 1]));
        assert(blocks_diagnostics(OptionParser::start(), attrs, n) =~= Seq::<
            Diagnostic,
        >::empty());
    }
}

/// A named field without any annotation resolves, whatever its type and
/// its other attributes, to the variable named by its identifier in upper
/// case.
pub proof fn unannotated_field_is_flat(
    field: syn::Field,
    outcome: Result<FromEnvFieldReceiver, Vec<Diagnostic>>,
)
    requires
        ident_of(field) is Some,
        forall|i: int|
            0 <= i < attributes_of(field).len() ==> !is_env(#[trigger] attributes_of(field)[i]),
        is_outcome(field, outcome),
    ensures
        outcome matches Ok(receiver) && receiver.env_attr == (EnvAttribute::Flat {
            name: default_literal(ident_of(field)->0),
            from: None,
            default: None,
            with: None,
        }),
{
    other_attributes_are_passed_over(attributes_of(field));
    no_option_gives_the_default_name(ident_of(field)->0, is_wrapper(type_of(field)));
}

/// A field whose only option is `rename` with a literal takes that literal
/// as its name, and nothing else changes.
pub proof fn rename_alone_sets_the_name(ident: syn::Ident, optional: bool, literal: syn::LitStr)
    ensures
        resolution(
            ident,
            optional,
            RawOptionSet { rename: Some(NameOverride::Explicit(literal)), ..RawOptionSet::empty() },
        ) == Ok::<EnvAttribute, Diagnostic>(
            EnvAttribute::Flat { name: literal, from: None, default: None, with: None },
        ),
{
}

/// A bare `from` stands for the identifier in upper case: it resolves as
/// `from` with that literal written out does, and where the field is read
/// from one variable, that literal is its source.
pub proof fn bare_from_is_the_default_name(ident: syn::Ident, optional: bool, options: RawOptionSet)
    requires
        options.from == Some(NameOverride::Inherit),
    ensures
        resolution(ident, optional, options) == resolution(
            ident,
            optional,
            RawOptionSet {
                from: Some(NameOverride::Explicit(default_literal(ident))),
                ..options
            },
        ),
        resolution(ident, optional, options) matches Ok(EnvAttribute::Flat { from, .. })
            ==> from == Some(default_literal(ident)),
        options.nested is None && options.ignored is None && !(optional && options.default
            is Some) ==> resolution(ident, optional, options) is Ok,
{
}

/// On a field whose type is an optional, a default is refused at the
/// location of `default`, whatever the other value options are. (Beside
/// `nested` or `ignored` the clash is reported instead.)
pub proof fn default_on_optional_is_refused(ident: syn::Ident, options: RawOptionSet)
    requires
        options.default is Some,
        options.nested is None,
        options.ignored is None,
    ensures
        resolution(ident, true, options) == Err::<EnvAttribute, Diagnostic>(
            Diagnostic::OptionalDefault { span: options.default->0.key_span },
        ),
        resolution(ident, true, options)->Err_0.class() == DiagnosticKind::InvariantViolation,
{
}

/// `ignored` beside any other option is refused at the location of
/// `ignored`, whatever the field's type and whatever else is set: no other
/// rule is looked at.
pub proof fn ignored_beside_another_is_refused(
    ident: syn::Ident,
    optional: bool,
    options: RawOptionSet,
)
    requires
        options.ignored is Some,
        options.holds_value() || options.nested is Some,
    ensures
        resolution(ident, optional, options) == Err::<EnvAttribute, Diagnostic>(
            Diagnostic::IgnoredClash { span: options.ignored->0 },
        ),
        resolution(ident, optional, options)->Err_0.class() == DiagnosticKind::ConflictError,
{
}

/// `nested` beside a value option, without `ignored`, is refused at the
/// location of `nested`, whatever the field's type.
pub proof fn nested_beside_a_value_is_refused(
    ident: syn::Ident,
    optional: bool,
    options: RawOptionSet,
)
    requires
        options.nested is Some,
        options.ignored is None,
        options.holds_value(),
    ensures
        resolution(ident, optional, options) == Err::<EnvAttribute, Diagnostic>(
            Diagnostic::NestedClash { span: options.nested->0 },
        ),
        resolution(ident, optional, options)->Err_0.class() == DiagnosticKind::ConflictError,
{
}

/// Whether a diagnostic is of a class that reading raises: about the shape
/// of an annotation, an unknown name or the shape of a value.
pub open spec fn raised_by_reading(diagnostic: Diagnostic) -> bool {
    diagnostic.class() == DiagnosticKind::StructuralError || diagnostic.class()
        == DiagnosticKind::UnknownOption || diagnostic.class() == DiagnosticKind::ValueShapeError
}

proof fn items_raise_reading_classes(
    start: OptionParser,
    items: Seq<darling::ast::NestedMeta>,
    n: int,
)
    ensures
        forall|k: int|
            0 <= k < items_diagnostics(start, items, n).len() ==> raised_by_reading(
                #[trigger] items_diagnostics(start, items, n)[k],
            ),
    decreases n,
{
    if n > 0 {
        items_raise_reading_classes(start, items, n - 1);
        let before = items_diagnostics(start, items, n - 1);
        let now = items_diagnostics(start, items, n);
        let complaint = after_items(start, items, n - 1).complaint(item_outcome(items[n - 1]));
        assert forall|k: int| 0 <= k < now.len() implies raised_by_reading(#[trigger] now[k]) by {
            if k < before.len() {
                assert(now[k] == before[k]);
            } else {
                assert(complaint is Some && now[k] == complaint->0);
            }
        }
    }
}

proof fn blocks_raise_reading_classes(start: OptionParser, attrs: Seq<syn::Attribute>, n: int)
    ensures
        forall|k: int|
            0 <= k < blocks_diagnostics(start, attrs, n).len() ==> raised_by_reading(
                #[trigger] blocks_diagnostics(start, attrs, n)[k],
            ),
    decreases n,
{
    if n > 0 {
        blocks_raise_reading_classes(start, attrs, n - 1);
        let before = blocks_diagnostics(start, attrs, n - 1);
        let state = after_blocks(start, attrs, n - 1);
        let added = block_diagnostics(state, attrs[n - 1]);
        let now = blocks_diagnostics(start, attrs, n);
        assert(now == before + added);
        assert forall|j: int| 0 <= j < added.len() implies raised_by_reading(
            #[trigger] added[j],
        ) by {
            match block_items(attrs[n - 1]) {
                Ok(items) => {
                    items_raise_reading_classes(state, items, items.len() as int);
                },
                Err(_) => {},
            }
        }
        assert forall|k: int| 0 <= k < now.len() implies raised_by_reading(#[trigger] now[k]) by {
            if k < before.len() {
                assert(now[k] == before[k]);
            } else {
                assert(now[k] == added[k - before.len()]);
            }
        }
    }
}

/// Reading never raises a conflict or a violation: those come from
/// resolving alone.
pub proof fn reading_raises_no_conflict(attrs: Seq<syn::Attribute>)
    ensures
        forall|k: int|
            0 <= k < diagnostics_of(attrs).len() ==> raised_by_reading(
                #[trigger] diagnostics_of(attrs)[k],
            ),
{
    blocks_raise_reading_classes(OptionParser::start(), attrs, attrs.len() as int);
}

/// A field that fails to resolve is reported with exactly one diagnostic of
/// resolving: the last one. Everything before it was raised by reading, so
/// nothing hides it and nothing doubles it.
pub proof fn one_diagnostic_of_resolving(field: syn::Field)
    requires
        ident_of(field) is Some,
        field_resolution(field) is Err,
    ensures
        field_diagnostics(field).len() > 0,
        field_diagnostics(field).last() == field_resolution(field)->Err_0,
        !raised_by_reading(field_diagnostics(field).last()),
        forall|k: int|
            0 <= k < field_diagnostics(field).len() - 1 ==> raised_by_reading(
                #[trigger] field_diagnostics(field)[k],
            ),
{
    reading_raises_no_conflict(attributes_of(field));
}

/// Resolving is a function of the field: two outcomes of one field agree
/// in every part.
pub proof fn same_field_same_outcome(
    field: syn::Field,
    first: Result<FromEnvFieldReceiver, Vec<Diagnostic>>,
    second: Result<FromEnvFieldReceiver, Vec<Diagnostic>>,
)
    requires
        ident_of(field) is Some,
        is_outcome(field, first),
        is_outcome(field, second),
    ensures
        match (first, second) {
            (Ok(a), Ok(b)) => {
                &&& a.ident == b.ident
                &&& a.ty == b.ty
                &&& a.option == b.option
                &&& a.doc_attrs@ == b.doc_attrs@
                &&& a.env_attr == b.env_attr
            },
            (Err(a), Err(b)) => a@ == b@,
            _ => false,
        },
{
}

proof fn items_keep_options_seen(
    start: OptionParser,
    items: Seq<darling::ast::NestedMeta>,
    n: int,
)
    requires
        start.well_formed(),
    ensures
        after_items(start, items, n).well_formed(),
    decreases n,
{
    if n > 0 {
        items_keep_options_seen(start, items, n - 1);
    }
}

proof fn blocks_keep_options_seen(start: OptionParser, attrs: Seq<syn::Attribute>, n: int)
    requires
        start.well_formed(),
    ensures
        after_blocks(start, attrs, n).well_formed(),
    decreases n,
{
    if n > 0 {
        blocks_keep_options_seen(start, attrs, n - 1);
        let state = after_blocks(start, attrs, n - 1);
        match block_items(attrs[n - 1]) {
            Ok(items) => {
                items_keep_options_seen(state, items, items.len() as int);
            },
            Err(_) => {},
        }
    }
}

/// Whatever the attributes of a field, reading them keeps track of every
/// option that it sets: an option that is set has been met.
pub proof fn reading_keeps_options_seen(attrs: Seq<syn::Attribute>, n: int)
    ensures
        after_blocks(OptionParser::start(), attrs, n).well_formed(),
{
    blocks_keep_options_seen(OptionParser::start(), attrs, n);
}

} // verus!
