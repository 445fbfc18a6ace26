//! The request dispatcher, as a conversation with the host.
//!
//! Reading a body and fetching a URL are the host's work, and it does them
//! between the decisions that are made here. So a request is served in
//! steps: `begin` looks at method and path and says what to do first; the
//! host does it and reports to the function that the `Action` names; that
//! function says what to do next, until an `HttpResponse` ends the request.

use vstd::prelude::*;
use vstd::utf8::encode_utf8;
use crate::error::{
    FetchError,
    FetchErrorView,
    RenderError,
    RenderErrorView,
    ServiceError,
    ServiceErrorView,
};
use crate::pipeline::{
    document_size,
    outcome_view,
    parses_to,
    png_declares_size,
    render_svg_to_png,
    renders_to,
};
use crate::request::{
    select_source,
    selected_source,
    source_from_path,
    Method,
    RenderRequest,
    RenderRequestView,
    RequestBody,
    RequestBodyView,
};
use crate::resolver::{
    check_url,
    inline_document,
    invalid_url,
    is_absolute_url,
    resolve_inline,
    upstream_delivers,
};
use crate::response::{
    error_response,
    lemma_error_response_is_no_png,
    png_response,
    HttpResponse,
    HttpResponseView,
};
use crate::text::without_leading_separator;

verus! {

/// What the host is to do next for a request.
#[derive(Debug, PartialEq, Eq)]
pub enum Action {
    /// Read the request body as JSON and report to `on_body`.
    ReadBody,
    /// Send one GET request to `url` and report to `on_fetch_result`.
    Fetch { url: String },
    /// Read the body of the upstream response as text and report to
    /// `on_upstream_text`, together with `status`.
    ReadUpstreamText { status: u16 },
    /// Read the body of the upstream response as bytes and report to
    /// `on_upstream_bytes`.
    ReadUpstreamBytes,
    /// Send this response. The request is finished.
    Respond(HttpResponse),
}

/// The mathematical value of an [`Action`].
pub enum ActionView {
    ReadBody,
    Fetch { url: Seq<char> },
    ReadUpstreamText { status: u16 },
    ReadUpstreamBytes,
    Respond(HttpResponseView),
}

impl View for Action {
    type V = ActionView;

    open spec fn view(&self) -> ActionView {
        match self {
            Action::ReadBody => ActionView::ReadBody,
            Action::Fetch { url } => ActionView::Fetch { url: url@ },
            Action::ReadUpstreamText { status } => ActionView::ReadUpstreamText { status: *status },
            Action::ReadUpstreamBytes => ActionView::ReadUpstreamBytes,
            Action::Respond(response) => ActionView::Respond(response@),
        }
    }
}

/// The mathematical value of what the host reports: what it read, or the
/// reason why it could not.
pub open spec fn report_view<T: View>(report: Result<T, String>) -> Result<T::V, Seq<char>> {
    match report {
        Ok(value) => Ok(value@),
        Err(detail) => Err(detail@),
    }
}

/// How many reports of the host an action is away from the response, at
/// most.
pub open spec fn steps_left(action: ActionView) -> nat {
    match action {
        ActionView::ReadBody => 3,
        ActionView::Fetch { .. } => 2,
        ActionView::ReadUpstreamText { .. } => 1,
        ActionView::ReadUpstreamBytes => 1,
        ActionView::Respond(_) => 0,
    }
}

/// The step that a URL source begins with: fetch it if it is an absolute
/// URL, else refuse it.
pub open spec fn fetch_step(url: Seq<char>) -> ActionView {
    if is_absolute_url(url) {
        ActionView::Fetch { url }
    } else {
        ActionView::Respond(error_response(ServiceErrorView::Fetch(invalid_url(url))))
    }
}

/// The step that a request begins with. A GET names its source in the path,
/// a POST in its body, which has to be read first; no other method is
/// served, and nothing of such a request is read.
pub open spec fn first_step(method: Method, path: Seq<char>) -> ActionView {
    match method {
        Method::Get => fetch_step(without_leading_separator(path)),
        Method::Post => ActionView::ReadBody,
        _ => ActionView::Respond(error_response(ServiceErrorView::MethodNotAllowed)),
    }
}

/// The step that follows the upstream's answer to the fetch.
pub open spec fn step_after_fetch(sent: Result<u16, Seq<char>>) -> ActionView {
    match sent {
        Ok(status) => if upstream_delivers(status) {
            ActionView::ReadUpstreamBytes
        } else {
            ActionView::ReadUpstreamText { status }
        },
        Err(detail) => ActionView::Respond(
            error_response(ServiceErrorView::Fetch(FetchErrorView::RequestFailed(detail))),
        ),
    }
}

/// The response to an upstream answer whose status is not 200, once its text
/// was read or could not be.
pub open spec fn upstream_text_response(status: u16, text: Result<Seq<char>, Seq<char>>) -> HttpResponseView {
    match text {
        Ok(body) => error_response(
            ServiceErrorView::Fetch(FetchErrorView::UpstreamError { status, body }),
        ),
        Err(detail) => error_response(
            ServiceErrorView::Fetch(FetchErrorView::BodyUnreadable(detail)),
        ),
    }
}

/// The response to a run of the render pipeline.
pub open spec fn rendered_response(outcome: Result<Seq<u8>, RenderErrorView>) -> HttpResponseView {
    match outcome {
        Ok(png) => png_response(png),
        Err(error) => error_response(ServiceErrorView::Render(error)),
    }
}

/// Whether `response` answers a request for the document `svg_data`: the
/// parser made something of those bytes, the pipeline ran on that, and the
/// response reports how it ended, with an image of the document's declared
/// size where it ended well.
pub open spec fn answers_document(svg_data: Seq<u8>, response: HttpResponseView) -> bool {
    exists|parsed: Result<usvg::Tree, usvg::Error>, outcome: Result<Seq<u8>, RenderErrorView>|
        {
            &&& #[trigger] parses_to(svg_data, parsed)
            &&& #[trigger] renders_to(parsed, outcome)
            &&& response == rendered_response(outcome)
        }
}

/// Whether `action` is the step that resolves `request`. A URL has to be
/// fetched first; inline markup is completed to a document and rendered at
/// once.
pub open spec fn resolves(request: RenderRequestView, action: ActionView) -> bool {
    match request {
        RenderRequestView::FromUrl(url) => action == fetch_step(url),
        RenderRequestView::FromInlineMarkup(markup) => action matches ActionView::Respond(response)
            && answers_document(inline_document(markup), response),
    }
}

/// Whether `action` is the step that follows the host's report of the body:
/// a refusal where there is no body or no source in it, else the step that
/// resolves the source it selects.
pub open spec fn follows_body(body: Result<RequestBodyView, Seq<char>>, action: ActionView) -> bool {
    match body {
        Err(detail) => action == ActionView::Respond(
            error_response(ServiceErrorView::MalformedBody(detail)),
        ),
        Ok(body) => match selected_source(body) {
            Err(error) => action == ActionView::Respond(error_response(error)),
            Ok(request) => resolves(request, action),
        },
    }
}

/// Whether `response` ends a request whose upstream answered 200, once the
/// bytes of that answer were read or could not be.
pub open spec fn follows_upstream_bytes(
    bytes: Result<Seq<u8>, Seq<char>>,
    response: HttpResponseView,
) -> bool {
    match bytes {
        Ok(svg_data) => answers_document(svg_data, response),
        Err(detail) => response == error_response(
            ServiceErrorView::Fetch(FetchErrorView::BodyUnreadable(detail)),
        ),
    }
}

/// A request whose method is neither GET nor POST is answered with 405 and
/// "Method not allowed", whatever its path and its body hold: nothing of it
/// is read.
pub proof fn lemma_other_methods_not_allowed(method: Method, path: Seq<char>)
    requires
        method != Method::Get,
        method != Method::Post,
    ensures
        first_step(method, path) == ActionView::Respond(
            error_response(ServiceErrorView::MethodNotAllowed),
        ),
        error_response(ServiceErrorView::MethodNotAllowed).status == 405,
        error_response(ServiceErrorView::MethodNotAllowed).body == encode_utf8(
            "Method not allowed"@,
        ),
{
}

/// A GET whose path is a separator and then `url` is served as a POST whose
/// body names `url` is: whatever step follows that body is the step that the
/// GET begins with.
pub proof fn lemma_get_is_post_with_url(
    separator: char,
    url: Seq<char>,
    svg: Option<Seq<char>>,
    action: ActionView,
)
    requires
        follows_body(Ok(RequestBodyView { url: Some(url), svg }), action),
    ensures
        action == first_step(Method::Get, seq![separator] + url),
{
    assert(without_leading_separator(seq![separator] + url) =~= url);
}

/// Every report brings the request nearer to its response: a body is read
/// at most once and before anything is fetched, one request at most is sent
/// upstream and never sent again, and what the upstream answered is read
/// once.
pub proof fn lemma_every_step_advances(
    body: Result<RequestBodyView, Seq<char>>,
    after_body: ActionView,
    sent: Result<u16, Seq<char>>,
    method: Method,
    path: Seq<char>,
)
    requires
        follows_body(body, after_body),
    ensures
        steps_left(first_step(method, path)) <= 3,
        steps_left(after_body) < steps_left(ActionView::ReadBody),
        steps_left(step_after_fetch(sent)) < 2,
        !(after_body is ReadBody),
        !(step_after_fetch(sent) is Fetch),
        !(step_after_fetch(sent) is ReadBody),
{
}

/// A POST body with both fields is served by its URL: the markup is not
/// rendered.
pub proof fn lemma_post_prefers_url(url: Seq<char>, svg: Seq<char>, action: ActionView)
    requires
        follows_body(Ok(RequestBodyView { url: Some(url), svg: Some(svg) }), action),
    ensures
        action == fetch_step(url),
        action is Fetch || action is Respond,
        action matches ActionView::Respond(response) ==> response.status == 400,
{
}

/// A POST body with neither field is answered with 400 and the message that
/// asks for one of them.
pub proof fn lemma_post_without_source(action: ActionView)
    requires
        follows_body(Ok(RequestBodyView { url: None, svg: None }), action),
    ensures
        action matches ActionView::Respond(response) && response.status == 400 && response.body
            == encode_utf8("Either 'url' or 'svg' field must be provided in request body"@),
{
}

/// A response answers a document with status 200 exactly when the pipeline
/// ended well, and then its body is a PNG of the declared size; otherwise
/// its status is 500 and no image is in it.
pub proof fn lemma_document_answer(svg_data: Seq<u8>, response: HttpResponseView)
    requires
        answers_document(svg_data, response),
    ensures
        response.status == 200 || response.status == 500,
        response.status == 200 ==> exists|tree: usvg::Tree| #[trigger]
            parses_to(svg_data, Ok(tree)) && png_declares_size(
                response.body,
                document_size(tree).0,
                document_size(tree).1,
            ),
        response.status == 500 ==> forall|width: u32, height: u32|
            !png_declares_size(response.body, width, height),
{
    let (parsed, outcome) = choose|
        parsed: Result<usvg::Tree, usvg::Error>,
        outcome: Result<Seq<u8>, RenderErrorView>,
    |
        {
            &&& #[trigger] parses_to(svg_data, parsed)
            &&& #[trigger] renders_to(parsed, outcome)
            &&& response == rendered_response(outcome)
        };
    match outcome {
        Ok(png) => {
            let tree = parsed->Ok_0;
            assert(parses_to(svg_data, Ok(tree)));
        },
        Err(error) => {
            assert forall|width: u32, height: u32|
                !png_declares_size(response.body, width, height) by {
                lemma_error_response_is_no_png(ServiceErrorView::Render(error), width, height);
            }
        },
    }
}

/// Wraps the outcome of the render pipeline as a response.
pub fn respond_rendered(outcome: Result<Vec<u8>, RenderError>) -> (response: HttpResponse)
    ensures
        response@ == rendered_response(outcome_view(outcome)),
{
    match outcome {
        Ok(png) => HttpResponse::png(png),
        Err(error) => HttpResponse::error(&ServiceError::Render(error)),
    }
}

/// Renders a complete SVG document and answers with the image or with the
/// failure.
pub fn render_response(svg_data: &[u8]) -> (response: HttpResponse)
    ensures
        answers_document(svg_data@, response@),
{
    let outcome = render_svg_to_png(svg_data);
    let ghost rendered = outcome_view(outcome);
    let response = respond_rendered(outcome);
    proof {
        let parsed = choose|parsed: Result<usvg::Tree, usvg::Error>| #[trigger]
            parses_to(svg_data@, parsed) && renders_to(parsed, rendered);
        assert(parses_to(svg_data@, parsed) && renders_to(parsed, rendered));
    }
    response
}

/// Begins a request for the SVG at `svg_url`.
pub fn handle_render_from_url(svg_url: String) -> (action: Action)
    ensures
        action@ == fetch_step(svg_url@),
{
    match check_url(svg_url.as_str()) {
        Ok(_) => Action::Fetch { url: svg_url },
        Err(error) => Action::Respond(HttpResponse::error(&ServiceError::Fetch(error))),
    }
}

/// Answers a request that brought its SVG markup along.
pub fn handle_render_from_content(svg_content: &str) -> (response: HttpResponse)
    ensures
        answers_document(inline_document(svg_content@), response@),
{
    let svg_data = resolve_inline(svg_content);
    render_response(svg_data.as_slice())
}

/// Takes the step that resolves the source of a request.
pub fn resolve(request: RenderRequest) -> (action: Action)
    ensures
        resolves(request@, action@),
{
    match request {
        RenderRequest::FromUrl(url) => handle_render_from_url(url),
        RenderRequest::FromInlineMarkup(markup) => Action::Respond(
            handle_render_from_content(markup.as_str()),
        ),
    }
}

/// Begins to serve a request.
pub fn begin(method: Method, path: &str) -> (action: Action)
    ensures
        action@ == first_step(method, path@),
{
    match method {
        Method::Get => resolve(source_from_path(path)),
        Method::Post => Action::ReadBody,
        _ => Action::Respond(HttpResponse::error(&ServiceError::MethodNotAllowed)),
    }
}

/// Goes on after `Action::ReadBody`, with the parsed body or the reason why
/// there is none.
pub fn on_body(body: Result<RequestBody, String>) -> (action: Action)
    ensures
        follows_body(report_view(body), action@),
{
    match body {
        Err(detail) => Action::Respond(HttpResponse::error(&ServiceError::MalformedBody(detail))),
        Ok(body) => match select_source(body) {
            Err(error) => Action::Respond(HttpResponse::error(&error)),
            Ok(request) => resolve(request),
        },
    }
}

/// Goes on after `Action::Fetch`, with the status of the upstream response
/// or the reason why there is none.
pub fn on_fetch_result(sent: Result<u16, String>) -> (action: Action)
    ensures
        action@ == step_after_fetch(report_view(sent)),
{
    match sent {
        Ok(status) => if status == 200 {
            Action::ReadUpstreamBytes
        } else {
            Action::ReadUpstreamText { status }
        },
        Err(detail) => Action::Respond(
            HttpResponse::error(&ServiceError::Fetch(FetchError::RequestFailed(detail))),
        ),
    }
}

/// Ends the request after `Action::ReadUpstreamText`, with the text of the
/// upstream response or the reason why it could not be read.
pub fn on_upstream_text(status: u16, text: Result<String, String>) -> (response: HttpResponse)
    ensures
        response@ == upstream_text_response(status, report_view(text)),
{
    match text {
        Ok(body) => HttpResponse::error(
            &ServiceError::Fetch(FetchError::UpstreamError { status, body }),
        ),
        Err(detail) => HttpResponse::error(
            &ServiceError::Fetch(FetchError::BodyUnreadable(detail)),
        ),
    }
}

/// Ends the request after `Action::ReadUpstreamBytes`, with the bytes of the
/// upstream response, which are taken as the SVG document without a look at
/// their size or kind, or with the reason why they could not be read.
pub fn on_upstream_bytes(bytes: Result<Vec<u8>, String>) -> (response: HttpResponse)
    ensures
        follows_upstream_bytes(report_view(bytes), response@),
{
    match bytes {
        Ok(svg_data) => render_response(svg_data.as_slice()),
        Err(detail) => HttpResponse::error(
            &ServiceError::Fetch(FetchError::BodyUnreadable(detail)),
        ),
    }
}

} // verus!
