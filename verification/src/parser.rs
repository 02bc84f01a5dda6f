//! Reading the annotations of one field into its options.
use crate::diagnostic::{Diagnostic, Slot};
use crate::options::{DefaultOption, RawOptionSet};
use crate::syntax::{
    function_from_meta, item_meta, key_location, literal_error, literal_from_meta, meta_function,
    meta_is, meta_key_span, meta_literal, meta_name, meta_override, meta_switch, nested_meta,
    override_from_meta, switch_from_meta, unexpected_literal_error, unknown_option,
    unknown_option_error, NameOverride,
};
use vstd::prelude::*;

verus! {

/// The option that is written by the given word, if there is one.
pub open spec fn slot_named(name: Seq<char>) -> Option<Slot> {
    if name == Slot::From.key() {
        Some(Slot::From)
    } else if name == Slot::Rename.key() {
        Some(Slot::Rename)
    } else if name == Slot::Default.key() {
        Some(Slot::Default)
    } else if name == Slot::With.key() {
        Some(Slot::With)
    } else if name == Slot::Nested.key() {
        Some(Slot::Nested)
    } else if name == Slot::Ignored.key() {
        Some(Slot::Ignored)
    } else {
        None
    }
}

/// The option that an item sets, if its name is that of one.
pub open spec fn slot_of(meta: syn::Meta) -> Option<Slot> {
    match meta_name(meta) {
        Some(name) => slot_named(name),
        None => None,
    }
}

/// Finds the option that an item sets.
pub fn classify(meta: &syn::Meta) -> (slot: Option<Slot>)
    ensures
        slot == slot_of(*meta),
{
    if meta_is(meta, "from") {
        Some(Slot::From)
    } else if meta_is(meta, "rename") {
        Some(Slot::Rename)
    } else if meta_is(meta, "default") {
        Some(Slot::Default)
    } else if meta_is(meta, "with") {
        Some(Slot::With)
    } else if meta_is(meta, "nested") {
        Some(Slot::Nested)
    } else if meta_is(meta, "ignored") {
        Some(Slot::Ignored)
    } else {
        None
    }
}

/// The value of one option, in the shape that the option requires.
#[derive(Debug)]
pub enum OptionValue {
    From(NameOverride),
    Rename(NameOverride),
    Default(syn::LitStr),
    With(syn::ExprPath),
    Nested(bool),
    Ignored(bool),
}

impl OptionValue {
    /// The option that the value belongs to.
    pub open spec fn slot(self) -> Slot {
        match self {
            OptionValue::From(_) => Slot::From,
            OptionValue::Rename(_) => Slot::Rename,
            OptionValue::Default(_) => Slot::Default,
            OptionValue::With(_) => Slot::With,
            OptionValue::Nested(_) => Slot::Nested,
            OptionValue::Ignored(_) => Slot::Ignored,
        }
    }

    /// The option that the value belongs to.
    pub fn option(&self) -> (slot: Slot)
        ensures
            slot == self.slot(),
    {
        match self {
            OptionValue::From(_) => Slot::From,
            OptionValue::Rename(_) => Slot::Rename,
            OptionValue::Default(_) => Slot::Default,
            OptionValue::With(_) => Slot::With,
            OptionValue::Nested(_) => Slot::Nested,
            OptionValue::Ignored(_) => Slot::Ignored,
        }
    }
}

/// What one item of an annotation turned out to be.
#[derive(Debug)]
pub enum ItemOutcome {
    /// An option with a value of the right shape.
    Value { value: OptionValue, key_span: proc_macro2::Span },
    /// An option whose value was refused.
    Malformed { slot: Slot, key_span: proc_macro2::Span, error: darling::Error },
    /// A name that is none of the six options.
    Unknown(darling::Error),
    /// A bare literal.
    Literal(darling::Error),
}

/// What an item holds, read in the shape that `slot` requires.
pub open spec fn value_of(slot: Slot, meta: syn::Meta) -> Result<OptionValue, darling::Error> {
    match slot {
        Slot::From => match meta_override(meta) {
            Ok(name) => Ok(OptionValue::From(name)),
            Err(error) => Err(error),
        },
        Slot::Rename => match meta_override(meta) {
            Ok(name) => Ok(OptionValue::Rename(name)),
            Err(error) => Err(error),
        },
        Slot::Default => match meta_literal(meta) {
            Ok(literal) => Ok(OptionValue::Default(literal)),
            Err(error) => Err(error),
        },
        Slot::With => match meta_function(meta) {
            Ok(function) => Ok(OptionValue::With(function)),
            Err(error) => Err(error),
        },
        Slot::Nested => match meta_switch(meta) {
            Ok(on) => Ok(OptionValue::Nested(on)),
            Err(error) => Err(error),
        },
        Slot::Ignored => match meta_switch(meta) {
            Ok(on) => Ok(OptionValue::Ignored(on)),
            Err(error) => Err(error),
        },
    }
}

/// What a named item turns out to be: its name picks the option, and the
/// option picks the shape in which the value is read.
pub open spec fn meta_outcome(meta: syn::Meta) -> ItemOutcome {
    match slot_of(meta) {
        Some(slot) => match value_of(slot, meta) {
            Ok(value) => ItemOutcome::Value { value, key_span: key_location(meta) },
            Err(error) => ItemOutcome::Malformed { slot, key_span: key_location(meta), error },
        },
        None => ItemOutcome::Unknown(unknown_option(meta)),
    }
}

/// What an item of an annotation turns out to be.
pub open spec fn item_outcome(item: darling::ast::NestedMeta) -> ItemOutcome {
    match item_meta(item) {
        Ok(meta) => meta_outcome(meta),
        Err(literal) => ItemOutcome::Literal(literal_error(literal)),
    }
}

/// Reads the value of an item in the shape that `slot` requires.
pub fn read_value(slot: Slot, meta: &syn::Meta) -> (value: Result<OptionValue, darling::Error>)
    ensures
        value == value_of(slot, *meta),
{
    match slot {
        Slot::From => match override_from_meta(meta) {
            Ok(name) => Ok(OptionValue::From(name)),
            Err(error) => Err(error),
        },
        Slot::Rename => match override_from_meta(meta) {
            Ok(name) => Ok(OptionValue::Rename(name)),
            Err(error) => Err(error),
        },
        Slot::Default => match literal_from_meta(meta) {
            Ok(literal) => Ok(OptionValue::Default(literal)),
            Err(error) => Err(error),
        },
        Slot::With => match function_from_meta(meta) {
            Ok(function) => Ok(OptionValue::With(function)),
            Err(error) => Err(error),
        },
        Slot::Nested => match switch_from_meta(meta) {
            Ok(on) => Ok(OptionValue::Nested(on)),
            Err(error) => Err(error),
        },
        Slot::Ignored => match switch_from_meta(meta) {
            Ok(on) => Ok(OptionValue::Ignored(on)),
            Err(error) => Err(error),
        },
    }
}

/// Reads one item of an annotation.
pub fn read_item(item: &darling::ast::NestedMeta) -> (outcome: ItemOutcome)
    ensures
        outcome == item_outcome(*item),
{
    let meta = match nested_meta(item) {
        Ok(meta) => meta,
        Err(literal) => {
            return ItemOutcome::Literal(unexpected_literal_error(literal));
        },
    };
    match classify(meta) {
        Some(slot) => {
            let key_span = meta_key_span(meta);
            match read_value(slot, meta) {
                Ok(value) => ItemOutcome::Value { value, key_span },
                Err(error) => ItemOutcome::Malformed { slot, key_span, error },
            }
        },
        None => ItemOutcome::Unknown(unknown_option_error(meta)),
    }
}

/// A set of options.
#[derive(Clone, Copy, Debug)]
pub struct SlotSet {
    pub from: bool,
    pub rename: bool,
    pub default: bool,
    pub with: bool,
    pub nested: bool,
    pub ignored: bool,
}

impl SlotSet {
    /// The set without members.
    pub open spec fn none() -> SlotSet {
        SlotSet {
            from: false,
            rename: false,
            default: false,
            with: false,
            nested: false,
            ignored: false,
        }
    }

    /// Whether `slot` is in the set.
    pub open spec fn contains(self, slot: Slot) -> bool {
        match slot {
            Slot::From => self.from,
            Slot::Rename => self.rename,
            Slot::Default => self.default,
            Slot::With => self.with,
            Slot::Nested => self.nested,
            Slot::Ignored => self.ignored,
        }
    }

    /// The set with `slot` added.
    pub open spec fn with_slot(self, slot: Slot) -> SlotSet {
        match slot {
            Slot::From => SlotSet { from: true, ..self },
            Slot::Rename => SlotSet { rename: true, ..self },
            Slot::Default => SlotSet { default: true, ..self },
            Slot::With => SlotSet { with: true, ..self },
            Slot::Nested => SlotSet { nested: true, ..self },
            Slot::Ignored => SlotSet { ignored: true, ..self },
        }
    }

    /// The set without members.
    pub fn new() -> (set: SlotSet)
        ensures
            set == SlotSet::none(),
    {
        SlotSet {
            from: false,
            rename: false,
            default: false,
            with: false,
            nested: false,
            ignored: false,
        }
    }

    /// Whether `slot` is in the set.
    pub fn has(&self, slot: Slot) -> (member: bool)
        ensures
            member == self.contains(slot),
    {
        match slot {
            Slot::From => self.from,
            Slot::Rename => self.rename,
            Slot::Default => self.default,
            Slot::With => self.with,
            Slot::Nested => self.nested,
            Slot::Ignored => self.ignored,
        }
    }

    /// Adds `slot` to the set.
    pub fn insert(&mut self, slot: Slot)
        ensures
            *final(self) == old(self).with_slot(slot),
    {
        match slot {
            Slot::From => {
                self.from = true;
            },
            Slot::Rename => {
                self.rename = true;
            },
            Slot::Default => {
                self.default = true;
            },
            Slot::With => {
                self.with = true;
            },
            Slot::Nested => {
                self.nested = true;
            },
            Slot::Ignored => {
                self.ignored = true;
            },
        }
    }
}

/// The options with one value stored: a switch that is on holds the
/// location of its name, one that is off holds nothing.
pub open spec fn stored(
    options: RawOptionSet,
    value: OptionValue,
    key_span: proc_macro2::Span,
) -> RawOptionSet {
    match value {
        OptionValue::From(name) => RawOptionSet { from: Some(name), ..options },
        OptionValue::Rename(name) => RawOptionSet { rename: Some(name), ..options },
        OptionValue::Default(expression) => RawOptionSet {
            default: Some(DefaultOption { expression, key_span }),
            ..options
        },
        OptionValue::With(function) => RawOptionSet { with: Some(function), ..options },
        OptionValue::Nested(on) => RawOptionSet {
            nested: if on {
                Some(key_span)
            } else {
                None
            },
            ..options
        },
        OptionValue::Ignored(on) => RawOptionSet {
            ignored: if on {
                Some(key_span)
            } else {
                None
            },
            ..options
        },
    }
}

/// The state of reading one field's annotations: the options set so far,
/// and the options met so far, set or refused.
#[derive(Debug)]
pub struct OptionParser {
    pub options: RawOptionSet,
    pub seen: SlotSet,
}

impl OptionParser {
    /// The state before anything is read.
    pub open spec fn start() -> OptionParser {
        OptionParser { options: RawOptionSet::empty(), seen: SlotSet::none() }
    }

    /// Every option that is set has been met.
    pub open spec fn well_formed(self) -> bool {
        &&& self.options.from is Some ==> self.seen.from
        &&& self.options.rename is Some ==> self.seen.rename
        &&& self.options.default is Some ==> self.seen.default
        &&& self.options.with is Some ==> self.seen.with
        &&& self.options.nested is Some ==> self.seen.nested
        &&& self.options.ignored is Some ==> self.seen.ignored
    }

    /// The state after one item. An option met for the first time is marked
    /// as met, and stored where its value was accepted. Anything else leaves
    /// the state as it is: the first occurrence of an option stands.
    pub open spec fn after(self, outcome: ItemOutcome) -> OptionParser {
        match outcome {
            ItemOutcome::Value { value, key_span } => if self.seen.contains(value.slot()) {
                self
            } else {
                OptionParser {
                    options: stored(self.options, value, key_span),
                    seen: self.seen.with_slot(value.slot()),
                }
            },
            ItemOutcome::Malformed { slot, .. } => OptionParser {
                options: self.options,
                seen: self.seen.with_slot(slot),
            },
            ItemOutcome::Unknown(_) => self,
            ItemOutcome::Literal(_) => self,
        }
    }

    /// The diagnostic that one item gives rise to: none for an option that
    /// is met for the first time with an accepted value.
    pub open spec fn complaint(self, outcome: ItemOutcome) -> Option<Diagnostic> {
        match outcome {
            ItemOutcome::Value { value, key_span } => if self.seen.contains(value.slot()) {
                Some(Diagnostic::DuplicateOption { slot: value.slot(), span: key_span })
            } else {
                None
            },
            ItemOutcome::Malformed { slot, key_span, error } => if self.seen.contains(slot) {
                Some(Diagnostic::DuplicateOption { slot, span: key_span })
            } else {
                Some(Diagnostic::MalformedValue { slot, error })
            },
            ItemOutcome::Unknown(error) => Some(Diagnostic::UnknownOption(error)),
            ItemOutcome::Literal(error) => Some(Diagnostic::UnexpectedLiteral(error)),
        }
    }

    /// The state before anything is read.
    pub fn new() -> (parser: OptionParser)
        ensures
            parser == OptionParser::start(),
            parser.well_formed(),
    {
        OptionParser { options: RawOptionSet::new(), seen: SlotSet::new() }
    }

    /// Takes one item into account, and hands back the diagnostic that it
    /// gives rise to.
    pub fn record(&mut self, outcome: ItemOutcome) -> (complaint: Option<Diagnostic>)
        ensures
            *final(self) == old(self).after(outcome),
            complaint == old(self).complaint(outcome),
            old(self).well_formed() ==> final(self).well_formed(),
    {
        match outcome {
            ItemOutcome::Value { value, key_span } => {
                let slot = value.option();
                if self.seen.has(slot) {
                    return Some(Diagnostic::DuplicateOption { slot, span: key_span });
                }
                self.seen.insert(slot);
                match value {
                    OptionValue::From(name) => {
                        self.options.from = Some(name);
                    },
                    OptionValue::Rename(name) => {
                        self.options.rename = Some(name);
                    },
                    OptionValue::Default(expression) => {
                        self.options.default = Some(DefaultOption { expression, key_span });
                    },
                    OptionValue::With(function) => {
                        self.options.with = Some(function);
                    },
                    OptionValue::Nested(on) => {
                        self.options.nested = if on {
                            Some(key_span)
                        } else {
                            None
                        };
                    },
                    OptionValue::Ignored(on) => {
                        self.options.ignored = if on {
                            Some(key_span)
                        } else {
                            None
                        };
                    },
                }
                None
            },
            ItemOutcome::Malformed { slot, key_span, error } => {
                if self.seen.has(slot) {
                    return Some(Diagnostic::DuplicateOption { slot, span: key_span });
                }
                self.seen.insert(slot);
                Some(Diagnostic::MalformedValue { slot, error })
            },
            ItemOutcome::Unknown(error) => Some(Diagnostic::UnknownOption(error)),
            ItemOutcome::Literal(error) => Some(Diagnostic::UnexpectedLiteral(error)),
        }
    }
}

} // verus!
