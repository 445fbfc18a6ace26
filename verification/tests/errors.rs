use svg2png::error::{FetchError, RenderError, ServiceError};
use svg2png::response::HttpResponse;

#[test]
fn fetch_error_messages() {
    assert_eq!(
        FetchError::InvalidUrl("empty host".to_string()).message(),
        "failed to parse URL: empty host"
    );
    assert_eq!(
        FetchError::RequestFailed("timed out".to_string()).message(),
        "failed to request remote image: timed out"
    );
    assert_eq!(
        FetchError::UpstreamError { status: 404, body: "Not Found".to_string() }.message(),
        "upstream image returned: 404: Not Found"
    );
    assert_eq!(
        FetchError::BodyUnreadable("UTF-8 decoding error".to_string()).message(),
        "UTF-8 decoding error"
    );
}

#[test]
fn upstream_error_message_with_empty_body() {
    assert_eq!(
        FetchError::UpstreamError { status: 502, body: String::new() }.message(),
        "upstream image returned: 502: "
    );
}

#[test]
fn render_error_messages() {
    assert_eq!(
        RenderError::DecodeFailed("SVG has an invalid size".to_string()).message(),
        "failed to decode SVG: SVG has an invalid size"
    );
    assert_eq!(RenderError::AllocationFailed.message(), "failed to create new pixmap");
    assert_eq!(RenderError::RasterFailed.message(), "failed to render PNG");
    assert_eq!(
        RenderError::EncodeFailed("Limits are exceeded.".to_string()).message(),
        "failed to encode PNG: Limits are exceeded."
    );
}

#[test]
fn render_error_messages_tell_the_stage() {
    let messages = [
        RenderError::DecodeFailed("x".to_string()).message(),
        RenderError::AllocationFailed.message(),
        RenderError::RasterFailed.message(),
        RenderError::EncodeFailed("x".to_string()).message(),
    ];
    for (i, first) in messages.iter().enumerate() {
        for second in messages.iter().skip(i + 1) {
            assert_ne!(first, second);
        }
    }
}

#[test]
fn service_error_statuses() {
    assert_eq!(ServiceError::MethodNotAllowed.status(), 405);
    assert_eq!(ServiceError::MalformedBody("x".to_string()).status(), 400);
    assert_eq!(ServiceError::MissingSource.status(), 400);
    assert_eq!(
        ServiceError::Fetch(FetchError::InvalidUrl("x".to_string())).status(),
        400
    );
    assert_eq!(
        ServiceError::Fetch(FetchError::RequestFailed("x".to_string())).status(),
        500
    );
    assert_eq!(
        ServiceError::Fetch(FetchError::UpstreamError { status: 404, body: "x".to_string() })
            .status(),
        500
    );
    assert_eq!(
        ServiceError::Fetch(FetchError::BodyUnreadable("x".to_string())).status(),
        500
    );
    assert_eq!(
        ServiceError::Render(RenderError::DecodeFailed("x".to_string())).status(),
        500
    );
    assert_eq!(ServiceError::Render(RenderError::AllocationFailed).status(), 500);
    assert_eq!(ServiceError::Render(RenderError::RasterFailed).status(), 500);
    assert_eq!(
        ServiceError::Render(RenderError::EncodeFailed("x".to_string())).status(),
        500
    );
}

#[test]
fn upstream_status_does_not_become_the_response_status() {
    let error = ServiceError::Fetch(FetchError::UpstreamError {
        status: 404,
        body: "gone".to_string(),
    });
    assert_eq!(error.status(), 500);
    assert_eq!(HttpResponse::error(&error).status, 500);
}

#[test]
fn service_error_messages() {
    assert_eq!(ServiceError::MethodNotAllowed.message(), "Method not allowed");
    assert_eq!(
        ServiceError::MissingSource.message(),
        "Either 'url' or 'svg' field must be provided in request body"
    );
    assert_eq!(
        ServiceError::MalformedBody("missing field".to_string()).message(),
        "missing field"
    );
    assert_eq!(
        ServiceError::Fetch(FetchError::InvalidUrl("empty host".to_string())).message(),
        "an unexpected error occurred: failed to parse URL: empty host"
    );
    assert_eq!(
        ServiceError::Fetch(FetchError::RequestFailed("timed out".to_string())).message(),
        "an unexpected error occurred: failed to request remote image: timed out"
    );
    assert_eq!(
        ServiceError::Fetch(FetchError::BodyUnreadable("broken".to_string())).message(),
        "an unexpected error occurred: broken"
    );
    assert_eq!(
        ServiceError::Render(RenderError::RasterFailed).message(),
        "an unexpected error occurred: failed to render PNG"
    );
}

#[test]
fn upstream_error_is_reported_without_prefix() {
    assert_eq!(
        ServiceError::Fetch(FetchError::UpstreamError {
            status: 403,
            body: "<h1>Forbidden</h1>".to_string()
        })
        .message(),
        "upstream image returned: 403: <h1>Forbidden</h1>"
    );
}

#[test]
fn error_response_carries_status_and_message() {
    let response = HttpResponse::error(&ServiceError::MissingSource);
    assert_eq!(response.status, 400);
    assert!(response.headers.is_empty());
    assert_eq!(
        response.body,
        b"Either 'url' or 'svg' field must be provided in request body".to_vec()
    );
}

#[test]
fn error_response_body_is_utf8() {
    let response = HttpResponse::error(&ServiceError::MalformedBody("na\u{ef}ve \u{2713}".to_string()));
    assert_eq!(response.body, "na\u{ef}ve \u{2713}".as_bytes().to_vec());
}

#[test]
fn png_response_carries_type_and_caching() {
    let response = HttpResponse::png(vec![137, 80, 78, 71]);
    assert_eq!(response.status, 200);
    assert_eq!(
        response.headers,
        vec![
            ("content-type".to_string(), "image/png".to_string()),
            ("cache-control".to_string(), "public, max-age=3600".to_string()),
        ]
    );
    assert_eq!(response.body, vec![137, 80, 78, 71]);
}
