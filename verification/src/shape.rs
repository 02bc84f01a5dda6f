//! The syntactic shape of a field's declared type.
use crate::syntax::{
    angle_argument_count, angle_argument_type, angle_arguments, last_segment, segment_is,
    segment_name, type_last_segment,
};
use vstd::prelude::*;

verus! {

/// The type that `ty` wraps, when `ty` is written as an optional: a path
/// whose last segment is named `Option` and carries exactly one argument
/// between angle brackets, that argument being a type.
///
/// This looks at the spelling only. A segment named `Option` counts whatever
/// it resolves to, and an alias of the standard optional does not.
pub open spec fn wrapped_type(ty: syn::Type) -> Option<syn::Type> {
    match last_segment(ty) {
        Some(segment) => if segment_name(segment) == "Option"@ {
            match angle_arguments(segment) {
                Some(arguments) => if arguments.len() == 1 {
                    arguments[0]
                } else {
                    None
                },
                None => None,
            }
        } else {
            None
        },
        None => None,
    }
}

/// Whether `ty` is written as an optional.
pub open spec fn is_wrapper(ty: syn::Type) -> bool {
    wrapped_type(ty) is Some
}

/// Finds the type inside an optional, by the rule of [`wrapped_type`].
pub fn parse_option(ty: &syn::Type) -> (inner: Option<&syn::Type>)
    ensures
        inner == match wrapped_type(*ty) {
            Some(t) => Some(&t),
            None => None,
        },
{
    let segment = match type_last_segment(ty) {
        Some(segment) => segment,
        None => {
            return None;
        },
    };
    if !segment_is(segment, "Option") {
        return None;
    }
    match angle_argument_count(segment) {
        Some(1) => angle_argument_type(segment, 0),
        _ => None,
    }
}

} // verus!
