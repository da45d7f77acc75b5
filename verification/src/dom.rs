//! The HTML document tree behind the page readers.
//!
//! Reading HTML and matching CSS selectors is the work of the `nipper` crate. Nothing in this
//! module is proved: each function states what the crate's call returns, over names for the
//! crate's results. A document is identified by the text it was read from, a node by its
//! position in the document's node table. The statements hold of documents that are not
//! modified after reading, and this library never modifies one.

use vstd::prelude::*;

verus! {

#[verifier::external_type_specification]
#[verifier::external_body]
pub struct ExDocument(nipper::Document);

#[verifier::external_type_specification]
#[verifier::external_body]
pub struct ExSelection<'a>(nipper::Selection<'a>);

#[verifier::external_type_specification]
#[verifier::external_body]
pub struct ExMatcher(nipper::Matcher);

/// The longest page, in characters, that is handed to the document reader. The crate
/// behind this module keeps every text in a buffer whose length is a 32-bit number and
/// panics where a buffer would pass two gigabytes while it grows. A page of this length
/// takes at most 64 megabytes, and a text that the reader builds from it at most three
/// times as much.
pub const PAGE_LIMIT: usize = 0x100_0000;

/// How many nodes a node may hold, itself and two more counted in, for its markup to stay
/// below a gigabyte. Written out, an element takes at most 8 bytes for each byte of the
/// tags it was read from and 32 more, which is at most `32 * len + 32` bytes on a page of
/// `len` characters; all text and comments below a node together take less than two such
/// elements.
pub open spec fn markup_room(len: nat) -> nat {
    (0x4000_0000nat / (32 * len + 32) as nat) as nat
}

/// The text that a document was read from.
pub uninterp spec fn document_source(doc: nipper::Document) -> Seq<char>;

/// The text that the document of a selection was read from.
pub uninterp spec fn selection_source(sel: nipper::Selection) -> Seq<char>;

/// The nodes that a selection holds, in order, each by its position in the node table.
pub uninterp spec fn selection_nodes(sel: nipper::Selection) -> Seq<int>;

/// The selector text that a matcher was compiled from.
pub uninterp spec fn matcher_source(matcher: nipper::Matcher) -> Seq<char>;

/// Whether a text is a CSS selector that the crate can compile.
pub uninterp spec fn selector_accepted(css: Seq<char>) -> bool;

/// The nodes of the document read from `html` that match `css`, in document order.
pub uninterp spec fn html_select(html: Seq<char>, css: Seq<char>) -> Seq<int>;

/// The descendants of `nodes` that match `css`, in document order, none twice.
pub uninterp spec fn html_select_in(html: Seq<char>, nodes: Seq<int>, css: Seq<char>) -> Seq<int>;

/// For each of `nodes` the nearest following sibling that is an element, none twice.
pub uninterp spec fn html_next(html: Seq<char>, nodes: Seq<int>) -> Seq<int>;

/// For each of `nodes` the nearest preceding sibling that is an element, none twice.
pub uninterp spec fn html_prev(html: Seq<char>, nodes: Seq<int>) -> Seq<int>;

/// Whether one of `nodes` matches `css`.
pub uninterp spec fn html_is(html: Seq<char>, nodes: Seq<int>, css: Seq<char>) -> bool;

/// The text content of the one node in `nodes` and of its descendants, in order; empty for
/// no node.
pub uninterp spec fn html_text(html: Seq<char>, nodes: Seq<int>) -> Seq<char>;

/// The value of attribute `name` on the first of `nodes`, if it has that attribute.
pub uninterp spec fn html_attr(html: Seq<char>, nodes: Seq<int>, name: Seq<char>) -> Option<
    Seq<char>,
>;

/// The first of `nodes` written out as HTML, tags included; empty for no nodes.
pub uninterp spec fn html_markup(html: Seq<char>, nodes: Seq<int>) -> Seq<char>;

/// Reads a document from HTML text.
///
/// Stands for `Document::from(&str)`, which runs the HTML parser over the whole text and
/// accepts any input that its buffers can hold.
#[verifier::external_body]
pub(crate) fn read_document(html: &str) -> (doc: nipper::Document)
    requires
        html@.len() <= PAGE_LIMIT,
    ensures
        document_source(doc) == html@,
{
    nipper::Document::from(html)
}

/// Compiles a CSS selector.
///
/// Stands for `Matcher::new`, which returns an error for a text that is no selector.
#[verifier::external_body]
pub(crate) fn compile_selector(css: &str) -> (matcher: Option<nipper::Matcher>)
    ensures
        matcher is Some <==> selector_accepted(css@),
        matcher is Some ==> matcher_source(matcher->0) == css@,
{
    nipper::Matcher::new(css).ok()
}

/// The nodes of a document that match a selector.
///
/// Stands for `Document::select_matcher`, which walks the tree from the root in document
/// order and keeps each matching node once.
#[verifier::external_body]
pub(crate) fn select_all<'a>(doc: &'a nipper::Document, matcher: &nipper::Matcher) -> (sel:
    nipper::Selection<'a>)
    ensures
        selection_source(sel) == document_source(*doc),
        selection_nodes(sel) == html_select(document_source(*doc), matcher_source(*matcher)),
{
    doc.select_matcher(matcher)
}

/// The descendants of a selection's nodes that match a selector.
///
/// Stands for `Selection::select_matcher`, which walks below each node of the selection in
/// order and keeps each matching node once.
#[verifier::external_body]
pub(crate) fn select_in<'a>(sel: &nipper::Selection<'a>, matcher: &nipper::Matcher) -> (found:
    nipper::Selection<'a>)
    ensures
        selection_source(found) == selection_source(*sel),
        selection_nodes(found) == html_select_in(
            selection_source(*sel),
            selection_nodes(*sel),
            matcher_source(*matcher),
        ),
{
    sel.select_matcher(matcher)
}

/// The selection of the next element sibling of each node.
///
/// Stands for `Selection::next_sibling`, which skips siblings that are not elements.
#[verifier::external_body]
pub(crate) fn next_sibling<'a>(sel: &nipper::Selection<'a>) -> (next: nipper::Selection<'a>)
    ensures
        selection_source(next) == selection_source(*sel),
        selection_nodes(next) == html_next(selection_source(*sel), selection_nodes(*sel)),
{
    sel.next_sibling()
}

/// The selection of the previous element sibling of each node.
///
/// Stands for `Selection::prev_sibling`, which skips siblings that are not elements.
#[verifier::external_body]
pub(crate) fn prev_sibling<'a>(sel: &nipper::Selection<'a>) -> (prev: nipper::Selection<'a>)
    ensures
        selection_source(prev) == selection_source(*sel),
        selection_nodes(prev) == html_prev(selection_source(*sel), selection_nodes(*sel)),
{
    sel.prev_sibling()
}

/// Whether one of the selection's nodes matches a selector.
///
/// Stands for `Selection::is_matcher`, which is false for an empty selection.
#[verifier::external_body]
pub(crate) fn matches_selector(sel: &nipper::Selection, matcher: &nipper::Matcher) -> (b: bool)
    ensures
        b == html_is(selection_source(*sel), selection_nodes(*sel), matcher_source(*matcher)),
{
    sel.is_matcher(matcher)
}

/// The text of a selection of at most one node.
///
/// Stands for `Selection::text`, which joins the text nodes below each node of the
/// selection in one buffer. For one node that is text of the page, each piece once.
#[verifier::external_body]
pub(crate) fn text_of(sel: &nipper::Selection) -> (text: String)
    requires
        selection_nodes(*sel).len() <= 1,
        selection_source(*sel).len() <= PAGE_LIMIT,
    ensures
        text@ == html_text(selection_source(*sel), selection_nodes(*sel)),
{
    sel.text().to_string()
}

/// The value of an attribute on the first node of a selection.
///
/// Stands for `Selection::attr`, which returns nothing for an empty selection and for a
/// first node without that attribute.
#[verifier::external_body]
pub(crate) fn attr_of(sel: &nipper::Selection, name: &str) -> (value: Option<String>)
    ensures
        value is Some <==> html_attr(selection_source(*sel), selection_nodes(*sel), name@) is Some,
        value is Some ==> value->0@ == html_attr(
            selection_source(*sel),
            selection_nodes(*sel),
            name@,
        )->0,
{
    sel.attr(name).map(|value| value.to_string())
}

/// The first node of a selection, written out as HTML.
///
/// Stands for `Selection::html`, which serializes the first node with its own tags into one
/// buffer and returns the empty text for an empty selection. The reader may repeat an
/// element of the page below many nodes, so the markup is bounded by the number of nodes
/// written, not by the length of the page: `*` selects every element below the selection.
#[verifier::external_body]
pub(crate) fn markup_of(sel: &nipper::Selection) -> (markup: String)
    requires
        selection_source(*sel).len() <= PAGE_LIMIT,
        html_select_in(selection_source(*sel), selection_nodes(*sel), "*"@).len() + 3
            <= markup_room(selection_source(*sel).len()),
    ensures
        markup@ == html_markup(selection_source(*sel), selection_nodes(*sel)),
{
    sel.html().to_string()
}

/// The number of nodes in a selection.
///
/// Stands for `Selection::length`.
#[verifier::external_body]
pub(crate) fn count_of(sel: &nipper::Selection) -> (n: usize)
    ensures
        n == selection_nodes(*sel).len(),
{
    sel.length()
}

/// One selection for each node of a selection, in order.
///
/// Stands for `Selection::iter`, which hands out a selection of one node for each node held.
#[verifier::external_body]
pub(crate) fn each_of<'a>(sel: &nipper::Selection<'a>) -> (items: Vec<nipper::Selection<'a>>)
    ensures
        items.len() == selection_nodes(*sel).len(),
        forall|i: int|
            0 <= i < items.len() ==> selection_source(#[trigger] items[i]) == selection_source(
                *sel,
            ) && selection_nodes(items[i]) == seq![selection_nodes(*sel)[i]],
{
    sel.iter().collect()
}

} // verus!
