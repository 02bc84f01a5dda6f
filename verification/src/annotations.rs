//! Walking the attributes of one field: its `env` annotations are read item
//! by item, its documentation is collected, and the rest is passed over.
use crate::diagnostic::Diagnostic;
use crate::options::RawOptionSet;
use crate::parser::{item_outcome, read_item, OptionParser};
use crate::syntax::{
    attribute_is, attribute_list, attribute_name, clone_attribute, list_items, parse_meta_list,
    require_list,
};
use vstd::prelude::*;

verus! {

/// The state after the first `n` items of a list.
pub open spec fn after_items(
    start: OptionParser,
    items: Seq<darling::ast::NestedMeta>,
    n: int,
) -> OptionParser
    decreases n,
{
    if n <= 0 {
        start
    } else {
        after_items(start, items, n - 1).after(item_outcome(items[n - 1]))
    }
}

/// The diagnostics of the first `n` items of a list, in the items' order.
pub open spec fn items_diagnostics(
    start: OptionParser,
    items: Seq<darling::ast::NestedMeta>,
    n: int,
) -> Seq<Diagnostic>
    decreases n,
{
    if n <= 0 {
        Seq::empty()
    } else {
        let before = items_diagnostics(start, items, n - 1);
        match after_items(start, items, n - 1).complaint(item_outcome(items[n - 1])) {
            Some(diagnostic) => before.push(diagnostic),
            None => before,
        }
    }
}

/// Whether an attribute is an annotation of this crate: `#[env ...]`.
pub open spec fn is_env(attr: syn::Attribute) -> bool {
    attribute_name(attr) == Some("env"@)
}

/// Whether an attribute is a piece of documentation: `#[doc ...]`.
pub open spec fn is_doc(attr: syn::Attribute) -> bool {
    attribute_name(attr) == Some("doc"@)
}

/// The items of an annotation, or the error for one that is not of the form
/// `env(...)` or whose arguments are not a list of items.
pub open spec fn block_items(attr: syn::Attribute) -> Result<
    Seq<darling::ast::NestedMeta>,
    darling::Error,
> {
    match attribute_list(attr) {
        Ok(list) => list_items(list),
        Err(error) => Err(error),
    }
}

/// The state after one attribute. Only a well-formed annotation changes it.
pub open spec fn after_block(start: OptionParser, attr: syn::Attribute) -> OptionParser {
    if is_env(attr) {
        match block_items(attr) {
            Ok(items) => after_items(start, items, items.len() as int),
            Err(_) => start,
        }
    } else {
        start
    }
}

/// The diagnostics of one attribute: those of its items, or the one that
/// refuses the annotation as a whole. An attribute that is no annotation
/// has none.
pub open spec fn block_diagnostics(start: OptionParser, attr: syn::Attribute) -> Seq<Diagnostic> {
    if is_env(attr) {
        match block_items(attr) {
            Ok(items) => items_diagnostics(start, items, items.len() as int),
            Err(error) => seq![Diagnostic::MalformedBlock(error)],
        }
    } else {
        Seq::empty()
    }
}

/// The state after the first `n` attributes of a field.
pub open spec fn after_blocks(start: OptionParser, attrs: Seq<syn::Attribute>, n: int) -> OptionParser
    decreases n,
{
    if n <= 0 {
        start
    } else {
        after_block(after_blocks(start, attrs, n - 1), attrs[n - 1])
    }
}

/// The diagnostics of the first `n` attributes of a field, in source order.
pub open spec fn blocks_diagnostics(
    start: OptionParser,
    attrs: Seq<syn::Attribute>,
    n: int,
) -> Seq<Diagnostic>
    decreases n,
{
    if n <= 0 {
        Seq::empty()
    } else {
        blocks_diagnostics(start, attrs, n - 1) + block_diagnostics(
            after_blocks(start, attrs, n - 1),
            attrs[n - 1],
        )
    }
}

/// The documentation among the first `n` attributes of a field, in source
/// order and as it was written.
pub open spec fn documentation(attrs: Seq<syn::Attribute>, n: int) -> Seq<syn::Attribute>
    decreases n,
{
    if n <= 0 {
        Seq::empty()
    } else if is_doc(attrs[n - 1]) {
        documentation(attrs, n - 1).push(attrs[n - 1])
    } else {
        documentation(attrs, n - 1)
    }
}

/// Reads the items of one annotation in order. Each item is taken into
/// account whatever the items before it turned out to be, and each
/// diagnostic is appended to `diagnostics`.
pub fn read_items(
    parser: &mut OptionParser,
    items: &Vec<darling::ast::NestedMeta>,
    diagnostics: &mut Vec<Diagnostic>,
)
    ensures
        *final(parser) == after_items(*old(parser), items@, items@.len() as int),
        final(diagnostics)@ == old(diagnostics)@ + items_diagnostics(
            *old(parser),
            items@,
            items@.len() as int,
        ),
{
    let mut i: usize = 0;
    assert(diagnostics@ =~= old(diagnostics)@ + items_diagnostics(*old(parser), items@, 0));
    while i < items.len()
        invariant
            i <= items.len(),
            *parser == after_items(*old(parser), items@, i as int),
            diagnostics@ == old(diagnostics)@ + items_diagnostics(*old(parser), items@, i as int),
        decreases items.len() - i,
    {
        let ghost before = diagnostics@;
        let outcome = read_item(&items[i]);
        match parser.record(outcome) {
            Some(diagnostic) => {
                diagnostics.push(diagnostic);
            },
            None => {},
        }
        i += 1;
        assert(diagnostics@ =~= old(diagnostics)@ + items_diagnostics(
            *old(parser),
            items@,
            i as int,
        ));
    }
}

/// Reads one attribute of a field: an annotation is read item by item, one
/// that is malformed as a whole gives one diagnostic and changes nothing,
/// and any other attribute is passed over.
pub fn read_block(
    parser: &mut OptionParser,
    attr: &syn::Attribute,
    diagnostics: &mut Vec<Diagnostic>,
)
    ensures
        *final(parser) == after_block(*old(parser), *attr),
        final(diagnostics)@ == old(diagnostics)@ + block_diagnostics(*old(parser), *attr),
{
    if !attribute_is(attr, "env") {
        assert(diagnostics@ =~= old(diagnostics)@ + block_diagnostics(*old(parser), *attr));
        return ;
    }
    let list = match require_list(attr) {
        Ok(list) => list,
        Err(error) => {
            diagnostics.push(Diagnostic::MalformedBlock(error));
            assert(diagnostics@ =~= old(diagnostics)@ + block_diagnostics(*old(parser), *attr));
            return ;
        },
    };
    match parse_meta_list(list) {
        Ok(items) => {
            read_items(parser, &items, diagnostics);
        },
        Err(error) => {
            diagnostics.push(Diagnostic::MalformedBlock(error));
            assert(diagnostics@ =~= old(diagnostics)@ + block_diagnostics(*old(parser), *attr));
        },
    }
}

/// What the attributes of one field say.
#[derive(Debug)]
pub struct Annotations {
    /// The options that the annotations set.
    pub options: RawOptionSet,
    /// Everything that is wrong with the annotations, in source order.
    pub diagnostics: Vec<Diagnostic>,
    /// The documentation of the field, as it was written.
    pub doc_attrs: Vec<syn::Attribute>,
}

/// The options that the attributes of a field set.
pub open spec fn options_of(attrs: Seq<syn::Attribute>) -> RawOptionSet {
    after_blocks(OptionParser::start(), attrs, attrs.len() as int).options
}

/// Everything that is wrong with the annotations among the attributes of a
/// field, in source order.
pub open spec fn diagnostics_of(attrs: Seq<syn::Attribute>) -> Seq<Diagnostic> {
    blocks_diagnostics(OptionParser::start(), attrs, attrs.len() as int)
}

/// Reads the attributes of one field in source order.
pub fn read_attributes(attrs: &Vec<syn::Attribute>) -> (read: Annotations)
    ensures
        read.options == options_of(attrs@),
        read.diagnostics@ == diagnostics_of(attrs@),
        read.doc_attrs@ == documentation(attrs@, attrs@.len() as int),
{
    let mut parser = OptionParser::new();
    let mut diagnostics: Vec<Diagnostic> = Vec::new();
    let mut doc_attrs: Vec<syn::Attribute> = Vec::new();
    let mut i: usize = 0;
    while i < attrs.len()
        invariant
            i <= attrs.len(),
            parser == after_blocks(OptionParser::start(), attrs@, i as int),
            diagnostics@ == blocks_diagnostics(OptionParser::start(), attrs@, i as int),
            doc_attrs@ == documentation(attrs@, i as int),
        decreases attrs.len() - i,
    {
        let attr = &attrs[i];
        read_block(&mut parser, attr, &mut diagnostics);
        if attribute_is(attr, "doc") {
            doc_attrs.push(clone_attribute(attr));
        }
        i += 1;
    }
    Annotations { options: parser.options, diagnostics, doc_attrs }
}

} // verus!
