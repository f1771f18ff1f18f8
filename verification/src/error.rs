//! Why a request is refused.

use vstd::prelude::*;

verus! {

/// Why a request was not queued.
#[derive(Debug)]
pub enum RequestError {
    /// The URL does not parse.
    InvalidUrl(String),
    /// The method is no token.
    InvalidMethod(String),
    /// A header has an impossible name.
    InvalidHeaderName(String),
    /// A header has an impossible value.
    InvalidHeaderValue(String),
    /// There are more headers than a header map takes.
    TooManyHeaders,
    /// The URL is too long for its parameters.
    UrlTooLong,
    /// The parameters cannot be written as a form.
    EncodeParameters(String),
    /// The body is larger than a body can be.
    BodyTooLarge,
    /// The content type is no header value.
    InvalidContentType(String),
    /// The client is not running.
    NotInitialized,
    /// As many requests are in flight as can be.
    QueueFull,
    /// The buffers have no room for the body.
    BufferFull,
}

/// What a [`RequestError`] holds.
pub enum RequestErrorView {
    /// The URL does not parse.
    InvalidUrl(Seq<char>),
    /// The method is no token.
    InvalidMethod(Seq<char>),
    /// A header has an impossible name.
    InvalidHeaderName(Seq<char>),
    /// A header has an impossible value.
    InvalidHeaderValue(Seq<char>),
    /// There are more headers than a header map takes.
    TooManyHeaders,
    /// The URL is too long for its parameters.
    UrlTooLong,
    /// The parameters cannot be written as a form.
    EncodeParameters(Seq<char>),
    /// The body is larger than a body can be.
    BodyTooLarge,
    /// The content type is no header value.
    InvalidContentType(Seq<char>),
    /// The client is not running.
    NotInitialized,
    /// As many requests are in flight as can be.
    QueueFull,
    /// The buffers have no room for the body.
    BufferFull,
}

impl View for RequestError {
    type V = RequestErrorView;

    open spec fn view(&self) -> RequestErrorView {
        match self {
            RequestError::InvalidUrl(why) => RequestErrorView::InvalidUrl(why@),
            RequestError::InvalidMethod(why) => RequestErrorView::InvalidMethod(why@),
            RequestError::InvalidHeaderName(why) => RequestErrorView::InvalidHeaderName(why@),
            RequestError::InvalidHeaderValue(why) => RequestErrorView::InvalidHeaderValue(why@),
            RequestError::TooManyHeaders => RequestErrorView::TooManyHeaders,
            RequestError::UrlTooLong => RequestErrorView::UrlTooLong,
            RequestError::EncodeParameters(why) => RequestErrorView::EncodeParameters(why@),
            RequestError::BodyTooLarge => RequestErrorView::BodyTooLarge,
            RequestError::InvalidContentType(why) => RequestErrorView::InvalidContentType(why@),
            RequestError::NotInitialized => RequestErrorView::NotInitialized,
            RequestError::QueueFull => RequestErrorView::QueueFull,
            RequestError::BufferFull => RequestErrorView::BufferFull,
        }
    }
}

/// The text that the failure callback gets for an error.
pub open spec fn error_text(error: RequestErrorView) -> Seq<char> {
    match error {
        RequestErrorView::InvalidUrl(why) => "Invalid URL: "@ + why,
        RequestErrorView::InvalidMethod(why) => "Invalid HTTP method: "@ + why,
        RequestErrorView::InvalidHeaderName(why) => "Invalid header name: "@ + why,
        RequestErrorView::InvalidHeaderValue(why) => "Invalid header value: "@ + why,
        RequestErrorView::TooManyHeaders => "Too many headers"@,
        RequestErrorView::UrlTooLong => "URL is too long"@,
        RequestErrorView::EncodeParameters(why) => "Failed to encode parameters: "@ + why,
        RequestErrorView::BodyTooLarge => "Request body exceeded memory limit"@,
        RequestErrorView::InvalidContentType(why) => "Invalid content type: "@ + why,
        RequestErrorView::NotInitialized => "rhttp is not initialized"@,
        RequestErrorView::QueueFull => "rhttp request queue is full (limit: 1024)"@,
        RequestErrorView::BufferFull => "rhttp buffered body limit reached"@,
    }
}

impl RequestError {
    /// The text that the failure callback gets.
    pub fn message(&self) -> (text: String)
        ensures
            text@ == error_text(self@),
    {
        match self {
            RequestError::InvalidUrl(why) => "Invalid URL: ".to_string().concat(why.as_str()),
            RequestError::InvalidMethod(why) => "Invalid HTTP method: ".to_string().concat(
                why.as_str(),
            ),
            RequestError::InvalidHeaderName(why) => "Invalid header name: ".to_string().concat(
                why.as_str(),
            ),
            RequestError::InvalidHeaderValue(why) => "Invalid header value: ".to_string().concat(
                why.as_str(),
            ),
            RequestError::TooManyHeaders => "Too many headers".to_string(),
            RequestError::UrlTooLong => "URL is too long".to_string(),
            RequestError::EncodeParameters(why) => "Failed to encode parameters: ".to_string().concat(
                why.as_str(),
            ),
            RequestError::BodyTooLarge => "Request body exceeded memory limit".to_string(),
            RequestError::InvalidContentType(why) => "Invalid content type: ".to_string().concat(
                why.as_str(),
            ),
            RequestError::NotInitialized => "rhttp is not initialized".to_string(),
            RequestError::QueueFull => "rhttp request queue is full (limit: 1024)".to_string(),
            RequestError::BufferFull => "rhttp buffered body limit reached".to_string(),
        }
    }
}

/// The text of an error says what went wrong and ends with the reason, if there is
/// one, as it was given.
pub proof fn law_text_gives_reason(why: Seq<char>)
    ensures
        error_text(RequestErrorView::InvalidUrl(why)) == "Invalid URL: "@ + why,
        error_text(RequestErrorView::InvalidMethod(why)) == "Invalid HTTP method: "@ + why,
        error_text(RequestErrorView::InvalidHeaderName(why)) == "Invalid header name: "@ + why,
        error_text(RequestErrorView::InvalidHeaderValue(why)) == "Invalid header value: "@ + why,
        error_text(RequestErrorView::EncodeParameters(why)) == "Failed to encode parameters: "@
            + why,
        error_text(RequestErrorView::InvalidContentType(why)) == "Invalid content type: "@ + why,
        error_text(RequestErrorView::TooManyHeaders) == "Too many headers"@,
        error_text(RequestErrorView::UrlTooLong) == "URL is too long"@,
        error_text(RequestErrorView::BodyTooLarge) == "Request body exceeded memory limit"@,
        error_text(RequestErrorView::NotInitialized) == "rhttp is not initialized"@,
        error_text(RequestErrorView::QueueFull) == "rhttp request queue is full (limit: 1024)"@,
        error_text(RequestErrorView::BufferFull) == "rhttp buffered body limit reached"@,
{
}

/// The view of an error is the error.
pub proof fn law_view_of_error(error: RequestError)
    ensures
        error matches RequestError::InvalidUrl(why) ==> error@ == RequestErrorView::InvalidUrl(
            why@,
        ),
        error matches RequestError::InvalidMethod(why) ==> error@
            == RequestErrorView::InvalidMethod(why@),
        error matches RequestError::InvalidHeaderName(why) ==> error@
            == RequestErrorView::InvalidHeaderName(why@),
        error matches RequestError::InvalidHeaderValue(why) ==> error@
            == RequestErrorView::InvalidHeaderValue(why@),
        error matches RequestError::EncodeParameters(why) ==> error@
            == RequestErrorView::EncodeParameters(why@),
        error matches RequestError::InvalidContentType(why) ==> error@
            == RequestErrorView::InvalidContentType(why@),
        error is TooManyHeaders <==> error@ is TooManyHeaders,
        error is UrlTooLong <==> error@ is UrlTooLong,
        error is BodyTooLarge <==> error@ is BodyTooLarge,
        error is NotInitialized <==> error@ is NotInitialized,
        error is QueueFull <==> error@ is QueueFull,
        error is BufferFull <==> error@ is BufferFull,
{
}

} // verus!
