//! The rules that turn the options of one field into its configuration.
use crate::diagnostic::Diagnostic;
use crate::options::RawOptionSet;
use crate::syntax::{
    ident_location, ident_name, ident_span, ident_text, literal_of, new_literal, to_uppercase,
    uppercase, NameOverride,
};
use vstd::prelude::*;

verus! {

/// How one field is populated.
#[derive(Debug)]
pub enum EnvAttribute {
    /// From one variable of the environment.
    Flat {
        /// The name under which the field is documented and, unless `from`
        /// says otherwise, looked up.
        name: syn::LitStr,
        /// The variable to read instead of `name`.
        from: Option<syn::LitStr>,
        /// The expression to fall back on when the variable is not set.
        default: Option<syn::LitStr>,
        /// The function that converts the variable's text.
        with: Option<syn::ExprPath>,
    },
    /// From a configuration of its own, resolved field by field.
    Nested,
    /// Not at all: the field is left out.
    Ignored,
}

/// The name that a field has where none is written: its identifier in upper
/// case, at the identifier's location.
pub open spec fn default_literal(ident: syn::Ident) -> syn::LitStr {
    literal_of(uppercase(ident_name(ident)), ident_location(ident))
}

/// What a name option stands for: the literal that was written, or the
/// default name where the option was a bare word.
pub open spec fn named_by(option: NameOverride, ident: syn::Ident) -> syn::LitStr {
    match option {
        NameOverride::Explicit(literal) => literal,
        NameOverride::Inherit => default_literal(ident),
    }
}

/// The configuration of a field that is read from one variable.
pub open spec fn flat(ident: syn::Ident, options: RawOptionSet) -> EnvAttribute {
    EnvAttribute::Flat {
        name: match options.rename {
            Some(rename) => named_by(rename, ident),
            None => default_literal(ident),
        },
        from: match options.from {
            Some(from) => Some(named_by(from, ident)),
            None => None,
        },
        default: match options.default {
            Some(default) => Some(default.expression),
            None => None,
        },
        with: options.with,
    }
}

/// The configuration that the options of a field resolve to, or what forbids
/// it. The rules, the first that applies deciding:
///
/// 1. `ignored` beside any other option is refused, at `ignored`;
/// 2. `nested` beside a value option is refused, at `nested`;
/// 3. `ignored` alone leaves the field out;
/// 4. `nested` alone makes it a configuration of its own;
/// 5. a default on an optional field is refused, at `default`;
/// 6. anything else reads the field from one variable.
pub open spec fn resolution(ident: syn::Ident, optional: bool, options: RawOptionSet) -> Result<
    EnvAttribute,
    Diagnostic,
> {
    if options.ignored is Some && (options.holds_value() || options.nested is Some) {
        Err(Diagnostic::IgnoredClash { span: options.ignored->0 })
    } else if options.nested is Some && options.holds_value() {
        Err(Diagnostic::NestedClash { span: options.nested->0 })
    } else if options.ignored is Some {
        Ok(EnvAttribute::Ignored)
    } else if options.nested is Some {
        Ok(EnvAttribute::Nested)
    } else if optional && options.default is Some {
        Err(Diagnostic::OptionalDefault { span: options.default->0.key_span })
    } else {
        Ok(flat(ident, options))
    }
}

/// Derives the name of a field from its identifier.
pub fn default_name(ident: &syn::Ident) -> (name: syn::LitStr)
    ensures
        name == default_literal(*ident),
{
    let text = ident_text(ident);
    let upper = to_uppercase(text.as_str());
    new_literal(upper.as_str(), ident_span(ident))
}

/// Resolves the options of one field, whose identifier is `ident` and whose
/// type is an optional exactly if `optional`, by the rules of
/// [`resolution`].
pub fn resolve(ident: &syn::Ident, optional: bool, options: RawOptionSet) -> (outcome: Result<
    EnvAttribute,
    Diagnostic,
>)
    ensures
        outcome == resolution(*ident, optional, options),
{
    let clash = options.has_value();
    match options.ignored {
        Some(span) => {
            if clash || options.nested.is_some() {
                return Err(Diagnostic::IgnoredClash { span });
            }
            return Ok(EnvAttribute::Ignored);
        },
        None => {},
    }
    match options.nested {
        Some(span) => {
            if clash {
                return Err(Diagnostic::NestedClash { span });
            }
            return Ok(EnvAttribute::Nested);
        },
        None => {},
    }
    let default = match options.default {
        Some(default) => {
            if optional {
                return Err(Diagnostic::OptionalDefault { span: default.key_span });
            }
            Some(default.expression)
        },
        None => None,
    };
    let name = match options.rename {
        Some(NameOverride::Explicit(literal)) => literal,
        _ => default_name(ident),
    };
    let from = match options.from {
        Some(NameOverride::Explicit(literal)) => Some(literal),
        Some(NameOverride::Inherit) => Some(default_name(ident)),
        None => None,
    };
    Ok(EnvAttribute::Flat { name, from, default, with: options.with })
}

} // verus!
