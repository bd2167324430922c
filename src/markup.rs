//! Conversion of marked-up descriptive text into render-ready HTML.
use vstd::prelude::*;

verus! {

/// The HTML that the markdown converter makes of a text.
pub uninterp spec fn html_of(text: Seq<char>) -> Seq<char>;

/// Relies on markdown::to_html: CommonMark to HTML with the default options,
/// a function of the text alone, which never fails on plain markdown.
#[verifier::external_body]
pub(crate) fn to_html(text: &str) -> (r: String)
    ensures
        r@ == html_of(text@),
{
    markdown::to_html(text)
}

} // verus!
