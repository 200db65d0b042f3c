//! The document query surface: CSS selection over parsed markup, and the
//! plain records that the page parsers read.

use vstd::prelude::*;

verus! {

/// A parsed HTML tree of the `scraper` crate. Opaque here.
#[verifier::external_type_specification]
#[verifier::external_body]
pub struct ExHtml(scraper::Html);

/// A reference to one element of a parsed tree. Opaque here.
#[verifier::external_type_specification]
#[verifier::external_body]
pub struct ExElementRef<'a>(scraper::ElementRef<'a>);

/// A compiled CSS selector group. Opaque here.
#[verifier::external_type_specification]
#[verifier::external_body]
pub struct ExSelector(scraper::Selector);

/// The attribute that holds a link's target.
pub const LINK_TARGET: &'static str = "href";

/// What a parser reports where one of its selectors does not compile.
pub const SELECTOR_FAILURE: &'static str = "Invalid selector";

/// The selector group that `scraper::Selector::parse` makes of `text`, or
/// `None` where it reports an error.
pub uninterp spec fn compiled_selector(text: Seq<char>) -> Option<scraper::Selector>;

/// The elements that `scraper::Html::select` yields for `selector` in
/// `document`, in its order.
pub uninterp spec fn matches_in_document(
    document: &scraper::Html,
    selector: scraper::Selector,
) -> Seq<scraper::ElementRef>;

/// The descendants of `element` that `scraper::ElementRef::select` yields
/// for `selector`, in its order.
pub uninterp spec fn matches_in_element(
    element: scraper::ElementRef,
    selector: scraper::Selector,
) -> Seq<scraper::ElementRef>;

/// The texts that `scraper::ElementRef::text` yields for `element`, joined.
pub uninterp spec fn text_in(element: scraper::ElementRef) -> Seq<char>;

/// What `scraper::ElementRef::attr` finds under `name` in `element`.
pub uninterp spec fn attribute_in(element: scraper::ElementRef, name: Seq<char>) -> Option<
    Seq<char>,
>;

/// What `scraper::ElementRef::html` makes of `element`.
pub uninterp spec fn markup_of(element: scraper::ElementRef) -> Seq<char>;

/// What `scraper::ElementRef::inner_html` makes of `element`.
pub uninterp spec fn inner_markup_of(element: scraper::ElementRef) -> Seq<char>;

/// Wraps `scraper::Selector::parse`. Claims only that the outcome depends
/// on the text alone.
#[verifier::external_body]
pub(crate) fn compile_selector(text: &str) -> (r: Option<scraper::Selector>)
    ensures
        r == compiled_selector(text@),
{
    match scraper::Selector::parse(text) {
        Ok(selector) => Some(selector),
        Err(_) => None,
    }
}

/// Wraps `scraper::Html::select`, collecting the elements that it yields in
/// its order. Claims only that they depend on the document and the selector
/// alone.
#[verifier::external_body]
pub(crate) fn select_in_document<'a>(
    document: &'a scraper::Html,
    selector: &scraper::Selector,
) -> (r: Vec<scraper::ElementRef<'a>>)
    ensures
        r@ == matches_in_document(document, *selector),
{
    document.select(selector).collect()
}

/// Wraps `scraper::ElementRef::select`, collecting the descendants of
/// `element` that it yields in its order. Claims only that they depend on
/// the element and the selector alone.
#[verifier::external_body]
pub(crate) fn select_in_element<'a>(
    element: scraper::ElementRef<'a>,
    selector: &scraper::Selector,
) -> (r: Vec<scraper::ElementRef<'a>>)
    ensures
        r@ == matches_in_element(element, *selector),
{
    element.select(selector).collect()
}

/// Wraps `scraper::ElementRef::text`, joining the texts that it yields.
/// Claims only that they depend on the element alone.
#[verifier::external_body]
pub(crate) fn element_text(element: scraper::ElementRef<'_>) -> (r: String)
    ensures
        r@ == text_in(element),
{
    element.text().collect()
}

/// Wraps `scraper::ElementRef::attr`, which looks up the named attribute.
/// Claims only that what it finds depends on the element and the name
/// alone.
#[verifier::external_body]
pub(crate) fn element_attr(element: scraper::ElementRef<'_>, name: &str) -> (r: Option<String>)
    ensures
        r.deep_view() == attribute_in(element, name@),
{
    match element.attr(name) {
        Some(value) => Some(value.to_string()),
        None => None,
    }
}

/// Wraps `scraper::ElementRef::html`, which serialises the element with its
/// own tag. Claims only that the markup depends on the element alone.
#[verifier::external_body]
pub(crate) fn element_html(element: scraper::ElementRef<'_>) -> (r: String)
    ensures
        r@ == markup_of(element),
{
    element.html()
}

/// Wraps `scraper::ElementRef::inner_html`, which serialises the element's
/// children. Claims only that the markup depends on the element alone.
#[verifier::external_body]
pub(crate) fn element_inner_html(element: scraper::ElementRef<'_>) -> (r: String)
    ensures
        r@ == inner_markup_of(element),
{
    element.inner_html()
}

/// Specifies `Clone::clone` of `scraper::Html`: the copy equals the document
/// it was made from.
pub assume_specification[ <scraper::Html as Clone>::clone ](document: &scraper::Html) -> (r:
    scraper::Html)
    ensures
        r == *document,
;

/// The tree that `scraper::Html::parse_document` makes of `raw`.
pub uninterp spec fn parsed_document(raw: Seq<char>) -> scraper::Html;

/// Wraps `scraper::Html::parse_document`. Claims only that the tree depends
/// on the text alone.
#[verifier::external_body]
pub(crate) fn parse_document(raw: &str) -> (r: scraper::Html)
    ensures
        r == parsed_document(raw@),
{
    scraper::Html::parse_document(raw)
}

/// What a parser reads of a link: its target, where it has one, and its
/// visible text.
#[derive(Debug, PartialEq, Eq)]
pub struct Anchor {
    pub href: Option<String>,
    pub text: String,
}

/// [`Anchor`] as plain sequences.
pub struct AnchorModel {
    pub href: Option<Seq<char>>,
    pub text: Seq<char>,
}

impl View for Anchor {
    type V = AnchorModel;

    open spec fn view(&self) -> AnchorModel {
        AnchorModel { href: self.href.deep_view(), text: self.text@ }
    }
}

impl DeepView for Anchor {
    type V = AnchorModel;

    open spec fn deep_view(&self) -> AnchorModel {
        self@
    }
}

/// Whether every link has a target.
pub open spec fn all_linked(anchors: Seq<AnchorModel>) -> bool {
    forall|i: int| 0 <= i < anchors.len() ==> (#[trigger] anchors[i]).href is Some
}

/// The text of each of the given elements, in their order.
pub open spec fn texts_in(elements: Seq<scraper::ElementRef>) -> Seq<Seq<char>> {
    Seq::new(elements.len(), |i: int| text_in(elements[i]))
}

/// What a parser reads of the link `element`, with the attribute `target`
/// as its link target.
pub open spec fn anchor_at(element: scraper::ElementRef, target: Seq<char>) -> AnchorModel {
    AnchorModel { href: attribute_in(element, target), text: text_in(element) }
}

/// The links that `selector` finds in `document`, in its order.
pub open spec fn anchors_in(
    document: &scraper::Html,
    selector: scraper::Selector,
    target: Seq<char>,
) -> Seq<AnchorModel> {
    let found = matches_in_document(document, selector);
    Seq::new(found.len(), |i: int| anchor_at(found[i], target))
}

/// The text of each of `elements`, in order.
pub(crate) fn texts_of(elements: &Vec<scraper::ElementRef<'_>>) -> (r: Vec<String>)
    ensures
        r.deep_view() == texts_in(elements@),
{
    let mut texts: Vec<String> = Vec::new();
    let mut i: usize = 0;
    while i < elements.len()
        invariant
            i <= elements.len(),
            texts.deep_view() == texts_in(elements@.take(i as int)),
        decreases elements.len() - i,
    {
        let ghost earlier = texts.deep_view();
        let text = element_text(elements[i]);
        texts.push(text);
        proof {
            assert(texts.deep_view() == earlier.push(text@));
            assert(texts_in(elements@.take(i + 1)) == earlier.push(text@));
        }
        i += 1;
    }
    assert(elements@.take(i as int) == elements@);
    texts
}

/// The anchors that `selector` finds in `document`, with the attribute
/// `target` as each one's link target.
pub(crate) fn read_anchors(document: &scraper::Html, selector: &scraper::Selector, target: &str) -> (r:
    Vec<Anchor>)
    ensures
        r.deep_view() == anchors_in(document, *selector, target@),
{
    let elements = select_in_document(document, selector);
    let mut anchors: Vec<Anchor> = Vec::new();
    let mut i: usize = 0;
    while i < elements.len()
        invariant
            i <= elements.len(),
            elements@ == matches_in_document(document, *selector),
            anchors.deep_view() == Seq::new(
                i as nat,
                |k: int| anchor_at(elements@[k], target@),
            ),
        decreases elements.len() - i,
    {
        let ghost earlier = anchors.deep_view();
        let element = elements[i];
        let anchor = Anchor { href: element_attr(element, target), text: element_text(element) };
        anchors.push(anchor);
        proof {
            assert(anchor@ == anchor_at(element, target@));
            assert(anchors.deep_view() == earlier.push(anchor@));
        }
        i += 1;
    }
    anchors
}

} // verus!
