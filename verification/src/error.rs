//! The failures of each component, and the status and message that each one
//! is answered with.

use vstd::prelude::*;
use crate::text::{decimal, decimal_text};

verus! {

/// Why the SVG source could not be obtained from a remote URL.
#[derive(Debug, PartialEq, Eq)]
pub enum FetchError {
    /// The text is not an absolute URL; holds the parser's reason.
    InvalidUrl(String),
    /// The request could not be sent or got no response; holds the reason.
    RequestFailed(String),
    /// The remote server answered with a status other than 200.
    UpstreamError { status: u16, body: String },
    /// The response arrived but its body could not be read; holds the reason.
    BodyUnreadable(String),
}

/// The mathematical value of a [`FetchError`].
pub enum FetchErrorView {
    InvalidUrl(Seq<char>),
    RequestFailed(Seq<char>),
    UpstreamError { status: u16, body: Seq<char> },
    BodyUnreadable(Seq<char>),
}

impl View for FetchError {
    type V = FetchErrorView;

    open spec fn view(&self) -> FetchErrorView {
        match self {
            FetchError::InvalidUrl(detail) => FetchErrorView::InvalidUrl(detail@),
            FetchError::RequestFailed(detail) => FetchErrorView::RequestFailed(detail@),
            FetchError::UpstreamError { status, body } => FetchErrorView::UpstreamError {
                status: *status,
                body: body@,
            },
            FetchError::BodyUnreadable(detail) => FetchErrorView::BodyUnreadable(detail@),
        }
    }
}

impl FetchErrorView {
    /// The text that describes the failure.
    pub open spec fn message(self) -> Seq<char> {
        match self {
            FetchErrorView::InvalidUrl(detail) => "failed to parse URL: "@ + detail,
            FetchErrorView::RequestFailed(detail) => "failed to request remote image: "@ + detail,
            FetchErrorView::UpstreamError { status, body } => "upstream image returned: "@
                + decimal_text(status as nat) + ": "@ + body,
            FetchErrorView::BodyUnreadable(detail) => detail,
        }
    }
}

impl FetchError {
    /// The text that describes the failure.
    pub fn message(&self) -> (text: String)
        ensures
            text@ == self@.message(),
    {
        match self {
            FetchError::InvalidUrl(detail) => {
                let mut text = String::from_str("failed to parse URL: ");
                text.append(detail.as_str());
                text
            },
            FetchError::RequestFailed(detail) => {
                let mut text = String::from_str("failed to request remote image: ");
                text.append(detail.as_str());
                text
            },
            FetchError::UpstreamError { status, body } => {
                let mut text = String::from_str("upstream image returned: ");
                let numeral = decimal(*status);
                text.append(numeral.as_str());
                text.append(": ");
                text.append(body.as_str());
                text
            },
            FetchError::BodyUnreadable(detail) => detail.clone(),
        }
    }
}

/// The stage of the render pipeline that failed.
#[derive(Debug, PartialEq, Eq)]
pub enum RenderError {
    /// The bytes are not an SVG document; holds the parser's reason.
    DecodeFailed(String),
    /// No pixel buffer of the document's size can be made.
    AllocationFailed,
    /// The rasterizer reported a failure.
    RasterFailed,
    /// The pixels could not be written as PNG; holds the encoder's reason.
    EncodeFailed(String),
}

/// The mathematical value of a [`RenderError`].
pub enum RenderErrorView {
    DecodeFailed(Seq<char>),
    AllocationFailed,
    RasterFailed,
    EncodeFailed(Seq<char>),
}

impl View for RenderError {
    type V = RenderErrorView;

    open spec fn view(&self) -> RenderErrorView {
        match self {
            RenderError::DecodeFailed(detail) => RenderErrorView::DecodeFailed(detail@),
            RenderError::AllocationFailed => RenderErrorView::AllocationFailed,
            RenderError::RasterFailed => RenderErrorView::RasterFailed,
            RenderError::EncodeFailed(detail) => RenderErrorView::EncodeFailed(detail@),
        }
    }
}

impl RenderErrorView {
    /// The text that describes the failure; its beginning tells the stage.
    pub open spec fn message(self) -> Seq<char> {
        match self {
            RenderErrorView::DecodeFailed(detail) => "failed to decode SVG: "@ + detail,
            RenderErrorView::AllocationFailed => "failed to create new pixmap"@,
            RenderErrorView::RasterFailed => "failed to render PNG"@,
            RenderErrorView::EncodeFailed(detail) => "failed to encode PNG: "@ + detail,
        }
    }
}

impl RenderError {
    /// The text that describes the failure; its beginning tells the stage.
    pub fn message(&self) -> (text: String)
        ensures
            text@ == self@.message(),
    {
        match self {
            RenderError::DecodeFailed(detail) => {
                let mut text = String::from_str("failed to decode SVG: ");
                text.append(detail.as_str());
                text
            },
            RenderError::AllocationFailed => String::from_str("failed to create new pixmap"),
            RenderError::RasterFailed => String::from_str("failed to render PNG"),
            RenderError::EncodeFailed(detail) => {
                let mut text = String::from_str("failed to encode PNG: ");
                text.append(detail.as_str());
                text
            },
        }
    }
}

/// Every way in which a request can fail.
#[derive(Debug, PartialEq, Eq)]
pub enum ServiceError {
    /// The request's method is neither GET nor POST.
    MethodNotAllowed,
    /// The request body is not JSON of the expected shape; holds the reason.
    MalformedBody(String),
    /// The request body names neither a URL nor inline markup.
    MissingSource,
    /// The SVG source could not be fetched.
    Fetch(FetchError),
    /// The SVG source could not be rendered.
    Render(RenderError),
}

/// The mathematical value of a [`ServiceError`].
pub enum ServiceErrorView {
    MethodNotAllowed,
    MalformedBody(Seq<char>),
    MissingSource,
    Fetch(FetchErrorView),
    Render(RenderErrorView),
}

impl View for ServiceError {
    type V = ServiceErrorView;

    open spec fn view(&self) -> ServiceErrorView {
        match self {
            ServiceError::MethodNotAllowed => ServiceErrorView::MethodNotAllowed,
            ServiceError::MalformedBody(detail) => ServiceErrorView::MalformedBody(detail@),
            ServiceError::MissingSource => ServiceErrorView::MissingSource,
            ServiceError::Fetch(error) => ServiceErrorView::Fetch(error@),
            ServiceError::Render(error) => ServiceErrorView::Render(error@),
        }
    }
}

impl ServiceErrorView {
    /// The HTTP status that answers the failure: 405 for a method that is not
    /// served, 400 for what the client sent wrongly, 500 for the rest.
    pub open spec fn status(self) -> u16 {
        match self {
            ServiceErrorView::MethodNotAllowed => 405,
            ServiceErrorView::MalformedBody(_) => 400,
            ServiceErrorView::MissingSource => 400,
            ServiceErrorView::Fetch(FetchErrorView::InvalidUrl(_)) => 400,
            ServiceErrorView::Fetch(_) => 500,
            ServiceErrorView::Render(_) => 500,
        }
    }

    /// The plain text that answers the failure.
    pub open spec fn message(self) -> Seq<char> {
        match self {
            ServiceErrorView::MethodNotAllowed => "Method not allowed"@,
            ServiceErrorView::MalformedBody(detail) => detail,
            ServiceErrorView::MissingSource => "Either 'url' or 'svg' field must be provided in request body"@,
            ServiceErrorView::Fetch(error) => if error is UpstreamError {
                error.message()
            } else {
                "an unexpected error occurred: "@ + error.message()
            },
            ServiceErrorView::Render(error) => "an unexpected error occurred: "@ + error.message(),
        }
    }
}

impl ServiceError {
    /// The HTTP status that answers the failure.
    pub fn status(&self) -> (code: u16)
        ensures
            code == self@.status(),
    {
        match self {
            ServiceError::MethodNotAllowed => 405,
            ServiceError::MalformedBody(_) => 400,
            ServiceError::MissingSource => 400,
            ServiceError::Fetch(FetchError::InvalidUrl(_)) => 400,
            ServiceError::Fetch(_) => 500,
            ServiceError::Render(_) => 500,
        }
    }

    /// The plain text that answers the failure.
    pub fn message(&self) -> (text: String)
        ensures
            text@ == self@.message(),
    {
        match self {
            ServiceError::MethodNotAllowed => String::from_str("Method not allowed"),
            ServiceError::MalformedBody(detail) => detail.clone(),
            ServiceError::MissingSource => String::from_str(
                "Either 'url' or 'svg' field must be provided in request body",
            ),
            ServiceError::Fetch(error) => {
                let detail = error.message();
                match error {
                    FetchError::UpstreamError { .. } => detail,
                    _ => {
                        let mut text = String::from_str("an unexpected error occurred: ");
                        text.append(detail.as_str());
                        text
                    },
                }
            },
            ServiceError::Render(error) => {
                let mut text = String::from_str("an unexpected error occurred: ");
                let detail = error.message();
                text.append(detail.as_str());
                text
            },
        }
    }
}

} // verus!
