//! What a client asks for: the method, the JSON body, and the source of the
//! SVG that they select.

use vstd::prelude::*;
use crate::error::{ServiceError, ServiceErrorView};
use crate::text::{strip_leading_separator, without_leading_separator};

verus! {

/// The method of an HTTP request: one of the standard methods, or `Other` for
/// any method besides them.
#[derive(Debug, Clone, Copy, PartialEq, Eq, Structural)]
pub enum Method {
    Get,
    Head,
    Post,
    Put,
    Delete,
    Connect,
    Options,
    Trace,
    Patch,
    Other,
}

/// The JSON body of a POST request, both fields optional.
#[derive(Debug, PartialEq, Eq)]
pub struct RequestBody {
    pub url: Option<String>,
    pub svg: Option<String>,
}

/// The mathematical value of a [`RequestBody`].
pub struct RequestBodyView {
    pub url: Option<Seq<char>>,
    pub svg: Option<Seq<char>>,
}

/// The characters of an optional text.
pub open spec fn optional_text(text: Option<String>) -> Option<Seq<char>> {
    match text {
        Some(text) => Some(text@),
        None => None,
    }
}

impl View for RequestBody {
    type V = RequestBodyView;

    open spec fn view(&self) -> RequestBodyView {
        RequestBodyView { url: optional_text(self.url), svg: optional_text(self.svg) }
    }
}

/// Where the SVG to render comes from.
#[derive(Debug, PartialEq, Eq)]
pub enum RenderRequest {
    /// Fetch the SVG from this URL.
    FromUrl(String),
    /// Render this markup, sent in the request itself.
    FromInlineMarkup(String),
}

/// The mathematical value of a [`RenderRequest`].
pub enum RenderRequestView {
    FromUrl(Seq<char>),
    FromInlineMarkup(Seq<char>),
}

impl View for RenderRequest {
    type V = RenderRequestView;

    open spec fn view(&self) -> RenderRequestView {
        match self {
            RenderRequest::FromUrl(url) => RenderRequestView::FromUrl(url@),
            RenderRequest::FromInlineMarkup(markup) => RenderRequestView::FromInlineMarkup(markup@),
        }
    }
}

/// The source that a body selects: its URL where it has one, whether or not
/// markup came with it; else its markup; with neither, nothing can be
/// rendered.
pub open spec fn selected_source(body: RequestBodyView) -> Result<
    RenderRequestView,
    ServiceErrorView,
> {
    match body.url {
        Some(url) => Ok(RenderRequestView::FromUrl(url)),
        None => match body.svg {
            Some(markup) => Ok(RenderRequestView::FromInlineMarkup(markup)),
            None => Err(ServiceErrorView::MissingSource),
        },
    }
}

/// A body that names a URL selects it, whether or not it holds markup too:
/// the URL takes precedence, and exactly one source is chosen.
pub proof fn lemma_url_takes_precedence(body: RequestBodyView)
    requires
        body.url is Some,
    ensures
        selected_source(body) matches Ok(RenderRequestView::FromUrl(url)) && Some(url) == body.url,
{
}

/// Markup is selected exactly when no URL comes with it.
pub proof fn lemma_markup_needs_no_url(body: RequestBodyView)
    ensures
        (selected_source(body) matches Ok(RenderRequestView::FromInlineMarkup(_))) <==> (
        body.url is None && body.svg is Some),
        selected_source(body) matches Ok(RenderRequestView::FromInlineMarkup(markup)) ==> Some(
            markup,
        ) == body.svg,
{
}

/// A body selects no source exactly when it holds neither field.
pub proof fn lemma_source_missing_iff_empty(body: RequestBodyView)
    ensures
        selected_source(body) is Err <==> body.url is None && body.svg is None,
        selected_source(body) matches Err(error) ==> error is MissingSource,
{
}

/// The mathematical value of a selection.
pub open spec fn selection_view(selected: Result<RenderRequest, ServiceError>) -> Result<
    RenderRequestView,
    ServiceErrorView,
> {
    match selected {
        Ok(request) => Ok(request@),
        Err(error) => Err(error@),
    }
}

/// Decides which source a POST body selects.
pub fn select_source(body: RequestBody) -> (selected: Result<RenderRequest, ServiceError>)
    ensures
        selection_view(selected) == selected_source(body@),
{
    match body.url {
        Some(url) => Ok(RenderRequest::FromUrl(url)),
        None => match body.svg {
            Some(markup) => Ok(RenderRequest::FromInlineMarkup(markup)),
            None => Err(ServiceError::MissingSource),
        },
    }
}

/// The source that a GET request selects: the URL written in its path behind
/// the leading separator.
pub fn source_from_path(path: &str) -> (request: RenderRequest)
    ensures
        request@ == RenderRequestView::FromUrl(without_leading_separator(path@)),
{
    RenderRequest::FromUrl(strip_leading_separator(path))
}

} // verus!
