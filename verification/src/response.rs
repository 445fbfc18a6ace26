//! The HTTP response that ends a request.

use vstd::prelude::*;
use vstd::utf8::{encode_utf8, encode_utf8_first_scalar};
use crate::error::{ServiceError, ServiceErrorView};
use crate::pipeline::{png_declares_size, png_header};

verus! {

/// An HTTP response: status, headers in the order in which they are sent, and
/// body.
#[derive(Debug, PartialEq, Eq)]
pub struct HttpResponse {
    pub status: u16,
    pub headers: Vec<(String, String)>,
    pub body: Vec<u8>,
}

/// The mathematical value of an [`HttpResponse`].
pub struct HttpResponseView {
    pub status: u16,
    pub headers: Seq<(Seq<char>, Seq<char>)>,
    pub body: Seq<u8>,
}

impl View for HttpResponse {
    type V = HttpResponseView;

    open spec fn view(&self) -> HttpResponseView {
        HttpResponseView {
            status: self.status,
            headers: Seq::new(
                self.headers@.len(),
                |i: int| (self.headers@[i].0@, self.headers@[i].1@),
            ),
            body: self.body@,
        }
    }
}

/// The response that carries a rendered image: status 200, the PNG media
/// type, one hour of public caching, and the PNG bytes as body.
pub open spec fn png_response(png: Seq<u8>) -> HttpResponseView {
    HttpResponseView {
        status: 200,
        headers: seq![
            ("content-type"@, "image/png"@),
            ("cache-control"@, "public, max-age=3600"@),
        ],
        body: png,
    }
}

/// The response that reports a failure: the failure's status, no headers, and
/// its message in UTF-8 as body.
pub open spec fn error_response(error: ServiceErrorView) -> HttpResponseView {
    HttpResponseView {
        status: error.status(),
        headers: Seq::empty(),
        body: encode_utf8(error.message()),
    }
}

/// A failure is answered with status 400, 405 or 500, never with 200, and
/// without headers.
pub proof fn lemma_error_response_status(error: ServiceErrorView)
    ensures
        error_response(error).status == 400 || error_response(error).status == 405
            || error_response(error).status == 500,
        error_response(error).status == 405 <==> error is MethodNotAllowed,
        error_response(error).headers.len() == 0,
{
}

/// No failure is answered with an image: the body of an error response is
/// text, and no text in UTF-8 begins as a PNG file does.
pub proof fn lemma_error_response_is_no_png(error: ServiceErrorView, width: u32, height: u32)
    ensures
        !png_declares_size(error_response(error).body, width, height),
{
    let message = error.message();
    let body = encode_utf8(message);
    if body.len() >= 24 {
        assert(message.len() > 0);
        encode_utf8_first_scalar(message);
        assert(body[0] != 137);
        assert(body.subrange(0, 24)[0] == body[0]);
        assert(png_header(width, height)[0] == 137);
    }
}

impl HttpResponse {
    /// Wraps PNG bytes for transmission.
    pub fn png(png: Vec<u8>) -> (response: HttpResponse)
        ensures
            response@ == png_response(png@),
    {
        let mut headers: Vec<(String, String)> = Vec::new();
        headers.push((String::from_str("content-type"), String::from_str("image/png")));
        headers.push(
            (String::from_str("cache-control"), String::from_str("public, max-age=3600")),
        );
        let response = HttpResponse { status: 200, headers, body: png };
        assert(response@.headers =~= png_response(png@).headers);
        response
    }

    /// Reports a failure to the client.
    pub fn error(error: &ServiceError) -> (response: HttpResponse)
        ensures
            response@ == error_response(error@),
    {
        let message = error.message();
        let response = HttpResponse {
            status: error.status(),
            headers: Vec::new(),
            body: message.as_str().as_bytes_vec(),
        };
        assert(response@.headers =~= Seq::empty());
        response
    }
}

} // verus!
