//! The options that the annotations of one field set.
use crate::diagnostic::Slot;
use crate::syntax::NameOverride;
use vstd::prelude::*;

verus! {

/// The fallback expression of a field, with the location of the word
/// `default` that introduced it.
#[derive(Debug)]
pub struct DefaultOption {
    pub expression: syn::LitStr,
    pub key_span: proc_macro2::Span,
}

/// What the annotations of one field say, option by option. An option that
/// was not written, or whose value was refused, is `None`; a switch holds the
/// location at which it was set.
#[derive(Debug)]
pub struct RawOptionSet {
    pub from: Option<NameOverride>,
    pub rename: Option<NameOverride>,
    pub default: Option<DefaultOption>,
    pub with: Option<syn::ExprPath>,
    pub nested: Option<proc_macro2::Span>,
    pub ignored: Option<proc_macro2::Span>,
}

impl RawOptionSet {
    /// The options of a field without annotations.
    pub open spec fn empty() -> RawOptionSet {
        RawOptionSet {
            from: None,
            rename: None,
            default: None,
            with: None,
            nested: None,
            ignored: None,
        }
    }

    /// Whether the given option is set.
    pub open spec fn holds(self, slot: Slot) -> bool {
        match slot {
            Slot::From => self.from is Some,
            Slot::Rename => self.rename is Some,
            Slot::Default => self.default is Some,
            Slot::With => self.with is Some,
            Slot::Nested => self.nested is Some,
            Slot::Ignored => self.ignored is Some,
        }
    }

    /// Whether one of the four options that carry a value is set.
    pub open spec fn holds_value(self) -> bool {
        self.from is Some || self.rename is Some || self.default is Some || self.with is Some
    }

    /// The options of a field without annotations.
    pub fn new() -> (options: RawOptionSet)
        ensures
            options == RawOptionSet::empty(),
    {
        RawOptionSet {
            from: None,
            rename: None,
            default: None,
            with: None,
            nested: None,
            ignored: None,
        }
    }

    /// Whether the given option is set.
    pub fn is_set(&self, slot: Slot) -> (set: bool)
        ensures
            set == self.holds(slot),
    {
        match slot {
            Slot::From => self.from.is_some(),
            Slot::Rename => self.rename.is_some(),
            Slot::Default => self.default.is_some(),
            Slot::With => self.with.is_some(),
            Slot::Nested => self.nested.is_some(),
            Slot::Ignored => self.ignored.is_some(),
        }
    }

    /// Whether one of the four options that carry a value is set.
    pub fn has_value(&self) -> (any: bool)
        ensures
            any == self.holds_value(),
    {
        self.from.is_some() || self.rename.is_some() || self.default.is_some()
            || self.with.is_some()
    }
}

} // verus!
