//! The boundary to the HTML engine. Documents, elements and selectors are
//! carried through as opaque values; what the engine answers to a query is
//! given a name, and the contracts in this file are believed, not proved.

use crate::text::{slice_text, slice_texts};
use scraper::{ElementRef, Html, Selector};
use vstd::prelude::*;

verus! {

#[verifier::external_type_specification]
#[verifier::external_body]
pub struct ExHtml(Html);

#[verifier::external_type_specification]
#[verifier::external_body]
pub struct ExSelector(Selector);

#[verifier::external_type_specification]
#[verifier::external_body]
pub struct ExElementRef<'a>(ElementRef<'a>);

/// The selector that the text `css` compiles to; absent where the engine
/// rejects the text.
pub uninterp spec fn compiled_selector(css: Seq<char>) -> Option<Selector>;

/// The document tree that the engine builds from the text `page`.
pub uninterp spec fn parsed_document(page: Seq<char>) -> Html;

/// The elements of `document` that match `selector`, in the order in which
/// the engine yields them.
pub uninterp spec fn document_matches(document: Html, selector: Selector) -> Seq<
    ElementRef<'static>,
>;

/// The descendants of `scope` that match `selector`, in document order.
pub uninterp spec fn element_matches(scope: ElementRef, selector: Selector) -> Seq<ElementRef>;

/// The serialised markup of the children of `element`.
pub uninterp spec fn inner_html_of(element: ElementRef) -> Seq<char>;

/// The value of the attribute `name` of `element`; absent where the element
/// has no such attribute.
pub uninterp spec fn attribute_of(element: ElementRef, name: Seq<char>) -> Option<Seq<char>>;

/// The text nodes below `element`, in document order.
pub uninterp spec fn text_nodes_of(element: ElementRef) -> Seq<Seq<char>>;

/// `Selector::parse`, with the error dropped: the result is the compiled
/// selector of the text, and absent where the engine rejects the text.
/// Nothing is claimed about which texts are accepted.
#[verifier::external_body]
pub(crate) fn compile_selector(css: &str) -> (selector: Option<Selector>)
    ensures
        selector == compiled_selector(css@),
{
    Selector::parse(css).ok()
}

/// `Html::parse_document`: the tree is a function of the text alone. The
/// engine recovers from malformed markup, so there is no failure.
#[verifier::external_body]
pub(crate) fn parse_document(page: &str) -> (document: Html)
    ensures
        document == parsed_document(page@),
{
    Html::parse_document(page)
}

/// `Html::select`, collected: every element of the document that matches,
/// in the order of the iterator.
#[verifier::external_body]
pub(crate) fn select_in_document<'a>(document: &'a Html, selector: &Selector) -> (found: Vec<
    ElementRef<'a>,
>)
    ensures
        found@ == document_matches(*document, *selector),
{
    document.select(selector).collect()
}

/// `ElementRef::select`, collected: every matching descendant of `scope`,
/// in the order of the iterator.
#[verifier::external_body]
pub(crate) fn select_in<'a>(scope: ElementRef<'a>, selector: &Selector) -> (found: Vec<
    ElementRef<'a>,
>)
    ensures
        found@ == element_matches(scope, *selector),
{
    scope.select(selector).collect()
}

/// `ElementRef::inner_html`: the markup of the element's children.
#[verifier::external_body]
pub(crate) fn inner_html(element: ElementRef) -> (markup: String)
    ensures
        markup@ == inner_html_of(element),
{
    element.inner_html()
}

/// `ElementRef::attr`: the value of the named attribute, if the element has it.
#[verifier::external_body]
pub(crate) fn attribute<'a>(element: ElementRef<'a>, name: &str) -> (value: Option<&'a str>)
    ensures
        slice_text(value) == attribute_of(element, name@),
{
    element.attr(name)
}

/// `ElementRef::text`, collected: the text nodes below the element, in the
/// order of the iterator.
#[verifier::external_body]
pub(crate) fn text_nodes<'a>(element: ElementRef<'a>) -> (texts: Vec<&'a str>)
    ensures
        slice_texts(texts@) == text_nodes_of(element),
{
    element.text().collect()
}

} // verus!
