//! Trusted boundary to the external HTML parser. The parser recovers a
//! document tree from arbitrary text; what the extraction logic reads of
//! that tree is reduced here to plain values, under two named results.

use vstd::prelude::*;

use crate::model::MetaTag;
use crate::model::MetaTagView;
use crate::model::metas_view;
use crate::model::opt_string_view;

verus! {

/// The `meta` elements of the document tree that the parser recovers from
/// the text, in document order, each reduced to its `property`, `name` and
/// `content` attribute values. A function of the text alone.
pub uninterp spec fn metas_of(html: Seq<char>) -> Seq<MetaTagView>;

/// The first text node of the first `h1` element of the recovered document
/// tree, absent when no `h1` exists or the first one holds no text. A
/// function of the text alone.
pub uninterp spec fn h1_text_of(html: Seq<char>) -> Option<Seq<char>>;

/// Relies on scraper's `Html::parse_document` and `Html::select` with the
/// fixed selector `meta`: parsing recovers a tree from any text without
/// failing, and `select` yields the matching elements in document order.
#[verifier::external_body]
pub(crate) fn scrape_metas(html: &str) -> (r: Vec<MetaTag>)
    ensures
        metas_view(r@) == metas_of(html@),
{
    let document = scraper::Html::parse_document(html);
    let selector = scraper::Selector::parse("meta").unwrap();
    document.select(&selector).map(
        |el| MetaTag {
            property: el.value().attr("property").map(|v| v.to_owned()),
            name: el.value().attr("name").map(|v| v.to_owned()),
            content: el.value().attr("content").map(|v| v.to_owned()),
        },
    ).collect()
}

/// Relies on scraper's `Html::parse_document`, `Html::select` with the fixed
/// selector `h1`, and `ElementRef::text`: `select` yields the `h1` elements
/// in document order and `text` yields an element's text nodes in order.
#[verifier::external_body]
pub(crate) fn scrape_h1_text(html: &str) -> (r: Option<String>)
    ensures
        opt_string_view(r) == h1_text_of(html@),
{
    let document = scraper::Html::parse_document(html);
    let selector = scraper::Selector::parse("h1").unwrap();
    document.select(&selector).next().and_then(|el| el.text().next()).map(|t| t.to_owned())
}

} // verus!
