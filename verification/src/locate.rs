//! Finding the JSON-LD script blocks of a page, by `scraper`.

use crate::error::SelectorRefused;
use vstd::prelude::*;

verus! {

/// The selector of the elements that hold JSON-LD.
pub const LD_JSON_SELECTOR: &'static str = "script[type=\"application/ld+json\"]";

/// The texts of the elements of a page that a selector matches, as `scraper`
/// finds them: the markup parsed by `Html::parse_document`, the selector by
/// `Selector::parse`, the elements in the order in which `Html::select`
/// yields them, and of each the text nodes below it, joined in the order of
/// `ElementRef::text`. Nothing where the selector is refused.
pub uninterp spec fn selected_texts(markup: Seq<char>, selector: Seq<char>) -> Option<Seq<Seq<char>>>;

/// `scraper::Selector::parse`, `scraper::Html::parse_document`,
/// `Html::select` and `ElementRef::text`, in one pass from markup to texts.
/// The outcome is the one named by [`selected_texts`]; nothing is claimed of
/// how markup is parsed or of what a selector matches.
#[verifier::external_body]
fn select_texts(markup: &str, selector: &str) -> (texts: Option<Vec<String>>)
    ensures
        texts.deep_view() == selected_texts(markup@, selector@),
{
    let selector = scraper::Selector::parse(selector).ok()?;
    let document = scraper::Html::parse_document(markup);
    Some(document.select(&selector).map(|element| element.text().collect()).collect())
}

/// Finds the text of each element of a page that a selector matches. A
/// selector that the selector parser refuses is an error, whatever the page.
pub fn find_blocks(markup: &str, selector: &str) -> (blocks: Result<Vec<String>, SelectorRefused>)
    ensures
        match selected_texts(markup@, selector@) {
            Some(texts) => blocks matches Ok(found) && found.deep_view() == texts,
            None => blocks is Err,
        },
{
    match select_texts(markup, selector) {
        Some(texts) => Ok(texts),
        None => Err(SelectorRefused),
    }
}

/// The JSON-LD blocks of a page: the texts that [`LD_JSON_SELECTOR`] selects
/// in it. Nothing where the selector is refused.
pub open spec fn ld_json_blocks(markup: Seq<char>) -> Option<Seq<Seq<char>>> {
    selected_texts(markup, LD_JSON_SELECTOR@)
}

/// Finds the JSON-LD blocks of a page: the text of each
/// `script[type="application/ld+json"]` element that `scraper` finds in the
/// markup. A page without such an element has no blocks, which is no error;
/// the one error is that the selector itself is refused.
pub fn find_ld_json_blocks(markup: &str) -> (blocks: Result<Vec<String>, SelectorRefused>)
    ensures
        match ld_json_blocks(markup@) {
            Some(texts) => blocks matches Ok(found) && found.deep_view() == texts,
            None => blocks is Err,
        },
{
    find_blocks(markup, LD_JSON_SELECTOR)
}

} // verus!
