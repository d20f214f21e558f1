//! The title of a rendered page.

use vstd::prelude::*;
use vstd::utf8::encode_utf8;
use scraper::Html;
use scraper::Selector;
use crate::error::{BuildError, RendererFailure};

verus! {

/// The selector that finds the title element of a page.
pub const TITLE_SELECTOR: &'static str = "title";

/// The longest page, in bytes of UTF-8, in which a title is looked for. The
/// parser holds each text that it reads in a buffer that cannot grow beyond
/// 2^31 bytes; a text of the page may take up to three times its length
/// there, and three times this limit is still below that bound.
pub const PAGE_LIMIT: usize = 536_870_912;

/// What `scraper` finds in `document`, parsed as an HTML document, for the CSS
/// selector group `selector`: for each element that matches, in the order in
/// which `Html::select` hands them out, the texts of its descendant text nodes
/// put together. `None` where `selector` is no selector group.
pub uninterp spec fn selected_texts(document: Seq<char>, selector: Seq<char>) -> Option<Seq<Seq<char>>>;

/// Calls `scraper`: `Selector::parse` on `selector`, `Html::parse_document` on
/// `document`, `Html::select`, and `ElementRef::text` on each element found.
/// All four compute on their arguments alone, so the result is a function of
/// the two strings; the contract gives that function its name and claims
/// nothing else of it. The parser panics where a text outgrows its buffer:
/// the call is for documents within [`PAGE_LIMIT`] only. Matching may go as
/// deep as the selector is long and the document is nested: the call is for
/// the title selector only, which is matched element by element.
#[verifier::external_body]
fn select_texts(document: &str, selector: &str) -> (texts: Option<Vec<String>>)
    requires
        encode_utf8(document@).len() <= PAGE_LIMIT,
        selector@ == TITLE_SELECTOR@,
    ensures
        texts.deep_view() == selected_texts(document@, selector@),
{
    match Selector::parse(selector) {
        Ok(parsed) => Some(
            Html::parse_document(document).select(&parsed).map(|element| element.text().collect()).collect(),
        ),
        Err(_) => None,
    }
}

/// The title among the texts of the elements that matched: the first of them.
pub open spec fn first_title(texts: Option<Seq<Seq<char>>>) -> Result<Seq<char>, BuildError> {
    match texts {
        Some(found) => if found.len() > 0 {
            Ok(found[0])
        } else {
            Err(BuildError::NoTitleFound)
        },
        None => Err(BuildError::NoTitleFound),
    }
}

/// The title of the page `document`: the text of its first title element.
/// A page beyond [`PAGE_LIMIT`] is not read, and has no title to give.
pub open spec fn title_of(document: Seq<char>) -> Result<Seq<char>, BuildError> {
    if encode_utf8(document).len() > PAGE_LIMIT {
        Err(BuildError::RendererInvocationFailure(RendererFailure::OversizedOutput))
    } else {
        first_title(selected_texts(document, TITLE_SELECTOR@))
    }
}

/// Picks the title from the texts of the title elements of a page, as
/// [`extract_html_title`] got them: the first one. A page without a title
/// element has no title, and that is an error.
pub fn title_from_matches(texts: Option<Vec<String>>) -> (title: Result<String, BuildError>)
    ensures
        match title {
            Ok(t) => first_title(texts.deep_view()) == Ok::<Seq<char>, BuildError>(t@),
            Err(e) => first_title(texts.deep_view()) == Err::<Seq<char>, BuildError>(e),
        },
{
    match texts {
        Some(mut found) => {
            if found.len() > 0 {
                let ghost all = found.deep_view();
                assert(all[0] == found@[0]@);
                Ok(found.remove(0))
            } else {
                Err(BuildError::NoTitleFound)
            }
        },
        None => Err(BuildError::NoTitleFound),
    }
}

/// The title of a rendered page: the text of its first title element.
/// `NoTitleFound` where the page has none. A page of more than
/// [`PAGE_LIMIT`] bytes is not parsed: it is an `OversizedOutput` of the
/// renderer.
pub fn extract_html_title(html_file_content: &str) -> (title: Result<String, BuildError>)
    ensures
        match title {
            Ok(t) => title_of(html_file_content@) == Ok::<Seq<char>, BuildError>(t@),
            Err(e) => title_of(html_file_content@) == Err::<Seq<char>, BuildError>(e),
        },
{
    if html_file_content.as_bytes().len() > PAGE_LIMIT {
        return Err(BuildError::RendererInvocationFailure(RendererFailure::OversizedOutput));
    }
    title_from_matches(select_texts(html_file_content, TITLE_SELECTOR))
}

} // verus!
