//! The source resolver: brings either kind of request to the bytes of one
//! SVG document. Inline markup is completed with a fixed preamble; a URL is
//! checked here and fetched by the host, whose answer is judged here again.

use vstd::prelude::*;
use vstd::string::StringSliceAdditionalSpecFns;
use vstd::utf8::encode_utf8;
use crate::error::{FetchError, FetchErrorView};
use crate::text::lemma_encode_utf8_concat;

verus! {

#[verifier::external_type_specification]
#[verifier::external_body]
pub struct ExUrl(url::Url);

#[verifier::external_type_specification]
#[verifier::external_body]
pub struct ExUrlParseError(url::ParseError);

/// What `url::Url::parse` makes of a text.
pub uninterp spec fn parsed_url(input: Seq<char>) -> Result<url::Url, url::ParseError>;

/// What `url::ParseError` prints as.
pub uninterp spec fn url_error_text(err: url::ParseError) -> Seq<char>;

/// The XML declaration and the SVG 1.1 document type that inline markup is
/// sent without.
pub const SVG_PREAMBLE: &'static str =
    "<?xml\nversion=\"1.0\" encoding=\"UTF-8\" standalone=\"no\"?>\n<!DOCTYPE svg PUBLIC \"-//W3C//DTD SVG 1.1//EN\" \"http://www.w3.org/Graphics/SVG/1.1/DTD/svg11.dtd\">\n";

/// The document that inline markup stands for: the preamble, then the markup
/// as it came, in UTF-8.
pub open spec fn inline_document(markup: Seq<char>) -> Seq<u8> {
    encode_utf8(SVG_PREAMBLE@ + markup)
}

/// Whether a text is an absolute URL.
pub open spec fn is_absolute_url(url: Seq<char>) -> bool {
    parsed_url(url) is Ok
}

/// Why a text that is no absolute URL is refused.
pub open spec fn invalid_url(url: Seq<char>) -> FetchErrorView
    recommends
        !is_absolute_url(url),
{
    FetchErrorView::InvalidUrl(url_error_text(parsed_url(url)->Err_0))
}

/// Which body of an upstream response is read: the bytes of a 200, the text
/// of anything else.
pub open spec fn upstream_delivers(status: u16) -> bool {
    status == 200
}

/// Calls `url::Url::parse`.
///
/// Assumed: the result depends on the text alone.
#[verifier::external_body]
fn parse_url(input: &str) -> (parsed: Result<url::Url, url::ParseError>)
    ensures
        parsed == parsed_url(input@),
{
    url::Url::parse(input)
}

/// Formats a `url::ParseError` through its `Display` impl.
///
/// Assumed: the text depends on the error alone.
#[verifier::external_body]
fn url_failure_text(err: &url::ParseError) -> (text: String)
    ensures
        text@ == url_error_text(*err),
{
    err.to_string()
}

/// Completes inline markup to a document: the preamble is put in front of
/// it, and nothing in it is looked at or changed.
pub fn resolve_inline(markup: &str) -> (document: Vec<u8>)
    ensures
        document@ == inline_document(markup@),
        document@ == SVG_PREAMBLE.spec_bytes() + markup.spec_bytes(),
{
    let mut text = String::from_str(SVG_PREAMBLE);
    text.append(markup);
    proof {
        lemma_encode_utf8_concat(SVG_PREAMBLE@, markup@);
    }
    text.as_str().as_bytes_vec()
}

/// Judges what the URL parser returned for `url`.
pub fn url_verdict(parsed: Result<url::Url, url::ParseError>) -> (verdict: Result<
    (),
    FetchError,
>)
    ensures
        verdict is Ok <==> parsed is Ok,
        parsed matches Err(err) ==> (verdict matches Err(error) && error@
            == FetchErrorView::InvalidUrl(url_error_text(err))),
{
    match parsed {
        Ok(_) => Ok(()),
        Err(err) => Err(FetchError::InvalidUrl(url_failure_text(&err))),
    }
}

/// Checks that `url` is an absolute URL, which is all that can be fetched.
pub fn check_url(url: &str) -> (verdict: Result<(), FetchError>)
    ensures
        verdict is Ok <==> is_absolute_url(url@),
        verdict matches Err(error) ==> error@ == invalid_url(url@),
{
    url_verdict(parse_url(url))
}

} // verus!
