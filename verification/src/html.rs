//! What a page holds, read through the `scraper` crate.
//!
//! Nothing here is proved. Each function parses the page, runs a CSS
//! selector over it and hands the matches out as plain values; its contract
//! gives that result a name, so that the functions built on it can say
//! exactly what they make of it.

use scraper::{Html, Selector};
use vstd::prelude::*;

verus! {

/// The two attributes read from a link element.
#[derive(Debug)]
pub struct Anchor {
    /// The `title` attribute, if the element has one.
    pub title: Option<String>,
    /// The `href` attribute, if the element has one.
    pub href: Option<String>,
}

/// An [`Anchor`] in contracts.
pub struct AnchorView {
    pub title: Option<Seq<char>>,
    pub href: Option<Seq<char>>,
}

impl DeepView for Anchor {
    type V = AnchorView;

    open spec fn deep_view(&self) -> AnchorView {
        AnchorView { title: self.title.deep_view(), href: self.href.deep_view() }
    }
}

/// For each element of the page `body` that `selector` matches, in the order
/// in which the parsed tree holds them, the element's first text node if it
/// has one. `None` where `selector` is no selector.
pub uninterp spec fn first_texts(body: Seq<char>, selector: Seq<char>) -> Option<
    Seq<Option<Seq<char>>>,
>;

/// For each element of the page `body` that `outer` matches, in the order in
/// which the parsed tree holds them: the first element below it that `inner`
/// matches, if there is one, as its two attributes named `title` and `href`.
/// `None` where `outer` or `inner` is no selector.
pub uninterp spec fn nested_anchors(
    body: Seq<char>,
    outer: Seq<char>,
    inner: Seq<char>,
    title: Seq<char>,
    href: Seq<char>,
) -> Option<Seq<Option<AnchorView>>>;

/// `Selector::parse`, `Html::parse_document`, `Html::select` and
/// `ElementRef::text` of `scraper`: the first text node of every element that
/// `selector` matches. The contract claims only that the result is a function
/// of the two texts, [`first_texts`].
#[verifier::external_body]
pub(crate) fn select_first_texts(body: &str, selector: &str) -> (cells: Option<
    Vec<Option<String>>,
>)
    ensures
        cells.deep_view() == first_texts(body@, selector@),
{
    let selector = Selector::parse(selector).ok()?;
    let document = Html::parse_document(body);
    Some(document.select(&selector).map(|e| e.text().next().map(String::from)).collect())
}

/// `Selector::parse`, `Html::parse_document`, `Html::select`,
/// `ElementRef::select` and `Element::attr` of `scraper`: two attributes of
/// the first `inner` match below every `outer` match. The contract claims only
/// that the result is a function of the five texts, [`nested_anchors`].
#[verifier::external_body]
pub(crate) fn select_nested_anchors(
    body: &str,
    outer: &str,
    inner: &str,
    title: &str,
    href: &str,
) -> (cells: Option<Vec<Option<Anchor>>>)
    ensures
        cells.deep_view() == nested_anchors(body@, outer@, inner@, title@, href@),
{
    let outer = Selector::parse(outer).ok()?;
    let inner = Selector::parse(inner).ok()?;
    let document = Html::parse_document(body);
    let attr = |a: scraper::ElementRef, name: &str| a.value().attr(name).map(String::from);
    let anchor = |a| Anchor { title: attr(a, title), href: attr(a, href) };
    Some(document.select(&outer).map(|e| e.select(&inner).next().map(anchor)).collect())
}

} // verus!
