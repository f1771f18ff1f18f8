//! From the options of a request to the request that is sent.

use reqwest::header::HeaderMap;
use vstd::prelude::*;
use vstd::utf8::{encode_utf8, is_ascii_chars};

use crate::error::{RequestError, RequestErrorView};
use crate::headers::{
    header_contains, header_contents, header_insert, header_name, header_value, lowercase,
    no_headers, valid_header_name, valid_header_value, HEADER_MAP_ROOM,
};
use crate::limits::{
    MAX_BODY_SIZE, MAX_RETRIES, MAX_RETRY_DELAY_NANOS, MIN_RETRY_DELAY_NANOS,
};
use crate::method::{ascii_upper, to_uppercase, uppercased, valid_method, Method};
use crate::retry::{base_granted, retries_granted, retry_base_delay, retry_limit};
use crate::table::pairs_view;
use crate::url::{
    add_query, encode_form, form_text, option_view, parse_url, parsed_url, query_url, result_view,
};

verus! {

/// The options of a request, as the script side gives them. What an option
/// leaves out is `None`.
#[derive(Debug)]
pub struct RequestOptions {
    /// Where the request goes.
    pub url: Option<String>,
    /// The method, in any case.
    pub method: Option<String>,
    /// The headers.
    pub headers: Option<Vec<(String, String)>>,
    /// The values of the query or of the form.
    pub parameters: Option<Vec<(String, String)>>,
    /// The body.
    pub body: Option<Vec<u8>>,
    /// The content type of the body.
    pub body_type: Option<String>,
    /// The timeout in seconds.
    pub timeout: Option<i64>,
    /// The number of retries.
    pub retries: Option<i64>,
    /// The base pause between attempts, in nanoseconds.
    pub retry_delay: Option<u128>,
}

/// What a [`RequestOptions`] holds.
pub struct RequestOptionsView {
    /// Where the request goes.
    pub url: Option<Seq<char>>,
    /// The method, in any case.
    pub method: Option<Seq<char>>,
    /// The headers.
    pub headers: Option<Seq<(Seq<char>, Seq<char>)>>,
    /// The values of the query or of the form.
    pub parameters: Option<Seq<(Seq<char>, Seq<char>)>>,
    /// The body.
    pub body: Option<Seq<u8>>,
    /// The content type of the body.
    pub body_type: Option<Seq<char>>,
    /// The timeout in seconds.
    pub timeout: Option<i64>,
    /// The number of retries.
    pub retries: Option<i64>,
    /// The base pause between attempts, in nanoseconds.
    pub retry_delay: Option<u128>,
}

/// An optional table, by its view.
pub open spec fn table_view(table: Option<Vec<(String, String)>>) -> Option<
    Seq<(Seq<char>, Seq<char>)>,
> {
    match table {
        Some(pairs) => Some(pairs_view(pairs@)),
        None => None,
    }
}

/// An optional body, by its view.
pub open spec fn body_view(body: Option<Vec<u8>>) -> Option<Seq<u8>> {
    match body {
        Some(bytes) => Some(bytes@),
        None => None,
    }
}

impl View for RequestOptions {
    type V = RequestOptionsView;

    open spec fn view(&self) -> RequestOptionsView {
        RequestOptionsView {
            url: option_view(self.url),
            method: option_view(self.method),
            headers: table_view(self.headers),
            parameters: table_view(self.parameters),
            body: body_view(self.body),
            body_type: option_view(self.body_type),
            timeout: self.timeout,
            retries: self.retries,
            retry_delay: self.retry_delay,
        }
    }
}

/// A request that can be sent.
#[derive(Debug)]
pub struct RequestPlan {
    /// Where the request goes, query included.
    pub url: String,
    /// The method.
    pub method: Method,
    /// The headers.
    pub headers: HeaderMap,
    /// The body.
    pub body: Option<Vec<u8>>,
    /// The timeout of one attempt in seconds, if it is not the default.
    pub timeout: Option<u64>,
    /// How often the request is tried again at most.
    pub retries: usize,
    /// The base pause between attempts, in nanoseconds.
    pub retry_delay: u128,
}

/// What a [`RequestPlan`] holds.
pub struct RequestPlanView {
    /// Where the request goes, query included.
    pub url: Seq<char>,
    /// The method.
    pub method: Seq<char>,
    /// The headers.
    pub headers: Map<Seq<char>, Seq<Seq<u8>>>,
    /// The body.
    pub body: Option<Seq<u8>>,
    /// The timeout of one attempt in seconds, if it is not the default.
    pub timeout: Option<u64>,
    /// How often the request is tried again at most.
    pub retries: usize,
    /// The base pause between attempts, in nanoseconds.
    pub retry_delay: u128,
}

impl View for RequestPlan {
    type V = RequestPlanView;

    open spec fn view(&self) -> RequestPlanView {
        RequestPlanView {
            url: self.url@,
            method: self.method@,
            headers: header_contents(self.headers),
            body: body_view(self.body),
            timeout: self.timeout,
            retries: self.retries,
            retry_delay: self.retry_delay,
        }
    }
}

/// The headers that named texts make, read in order: of two with one name, in
/// whatever case, the last one counts. The first name or value that no header
/// can have is the error.
pub open spec fn headers_made(pairs: Seq<(Seq<char>, Seq<char>)>) -> Result<
    Map<Seq<char>, Seq<Seq<u8>>>,
    RequestErrorView,
>
    decreases pairs.len(),
{
    if pairs.len() == 0 {
        Ok(no_headers())
    } else {
        match headers_made(pairs.drop_last()) {
            Err(error) => Err(error),
            Ok(headers) => if !valid_header_name(pairs.last().0) {
                Err(RequestErrorView::InvalidHeaderName("invalid HTTP header name"@))
            } else if !valid_header_value(encode_utf8(pairs.last().1)) {
                Err(RequestErrorView::InvalidHeaderValue("failed to parse header value"@))
            } else {
                Ok(
                    headers.insert(
                        lowercase(pairs.last().0),
                        seq![encode_utf8(pairs.last().1)],
                    ),
                )
            },
        }
    }
}

/// Whether named texts make more different headers, at some point when they are
/// read in order, than a header map is sure to take another one after.
pub open spec fn crowded(pairs: Seq<(Seq<char>, Seq<char>)>) -> bool {
    exists|n: int|
        0 <= n <= pairs.len() && (#[trigger] headers_made(pairs.take(n)) matches Ok(headers)
            && headers.dom().len() > HEADER_MAP_ROOM)
}

/// A result by its view.
pub open spec fn headers_view(result: Result<HeaderMap, RequestError>) -> Result<
    Map<Seq<char>, Seq<Seq<u8>>>,
    RequestErrorView,
> {
    match result {
        Ok(headers) => Ok(header_contents(headers)),
        Err(error) => Err(error@),
    }
}

proof fn lemma_headers_made_stops(pairs: Seq<(Seq<char>, Seq<char>)>, n: int)
    requires
        0 <= n <= pairs.len(),
        headers_made(pairs.take(n)) is Err,
    ensures
        headers_made(pairs) == headers_made(pairs.take(n)),
    decreases pairs.len() - n,
{
    if n < pairs.len() {
        assert(pairs.take(n + 1).drop_last() =~= pairs.take(n));
        lemma_headers_made_stops(pairs, n + 1);
    } else {
        assert(pairs.take(n) =~= pairs);
    }
}

/// Makes the headers of a request. More than `HEADER_MAP_ROOM` different ones may
/// be too many.
pub fn build_headers(pairs: &Vec<(String, String)>) -> (result: Result<HeaderMap, RequestError>)
    ensures
        result matches Err(RequestError::TooManyHeaders) ==> crowded(pairs_view(pairs@)),
        !(result matches Err(RequestError::TooManyHeaders)) ==> headers_view(result)
            == headers_made(pairs_view(pairs@)),
{
    let ghost all = pairs_view(pairs@);
    let mut headers: HeaderMap = HeaderMap::new();
    let mut i: usize = 0;
    assert(all.take(0) =~= Seq::empty());
    while i < pairs.len()
        invariant
            i <= pairs@.len(),
            all == pairs_view(pairs@),
            headers_made(all.take(i as int)) == Ok::<
                Map<Seq<char>, Seq<Seq<u8>>>,
                RequestErrorView,
            >(header_contents(headers)),
        decreases pairs@.len() - i,
    {
        proof {
            assert(all.take(i + 1).drop_last() =~= all.take(i as int));
            assert(all.take(i + 1).last() == (pairs@[i as int].0@, pairs@[i as int].1@));
            if headers_made(all.take(i + 1)) is Err {
                lemma_headers_made_stops(all, i + 1);
            }
        }
        match header_name(pairs[i].0.as_str()) {
            Ok(_) => {},
            Err(why) => return Err(RequestError::InvalidHeaderName(why)),
        }
        let value = match header_value(pairs[i].1.as_str()) {
            Ok(value) => value,
            Err(why) => return Err(RequestError::InvalidHeaderValue(why)),
        };
        if !header_insert(&mut headers, pairs[i].0.as_str(), &value) {
            return Err(RequestError::TooManyHeaders);
        }
        i += 1;
    }
    assert(all.take(all.len() as int) =~= all);
    Ok(headers)
}

/// What becomes of the body and the parameters.
pub struct BodyChoice {
    /// The body, given or made of the parameters.
    pub body: Option<Seq<u8>>,
    /// The content type that comes with a body made of the parameters.
    pub generated: Option<Seq<char>>,
    /// Whether the parameters go to the query.
    pub query: bool,
}

/// A POST request without a body sends its parameters as a form; with a body it
/// drops them; any other request puts them into the query.
pub open spec fn body_choice(
    method: Seq<char>,
    parameters: Option<Seq<(Seq<char>, Seq<char>)>>,
    body: Option<Seq<u8>>,
) -> BodyChoice {
    match (parameters, body) {
        (None, _) => BodyChoice { body, generated: None, query: false },
        (Some(pairs), None) if method == "POST"@ => BodyChoice {
            body: Some(encode_utf8(form_text(pairs))),
            generated: Some("application/x-www-form-urlencoded"@),
            query: false,
        },
        (Some(_), _) => BodyChoice { body, generated: None, query: method != "POST"@ },
    }
}

/// The content type of a body whose request has no header for it: the one that
/// is asked for, else the one that comes with a form, else plain text.
pub open spec fn content_type_of(
    asked: Option<Seq<char>>,
    generated: Option<Seq<char>>,
) -> Seq<char> {
    match (asked, generated) {
        (Some(text), _) => text,
        (None, Some(text)) => text,
        (None, None) => "text/plain; charset=utf-8"@,
    }
}

/// The headers after the content type was added where it is missing.
pub open spec fn headers_completed(
    headers: Map<Seq<char>, Seq<Seq<u8>>>,
    has_body: bool,
    content_type: Seq<char>,
) -> Result<Map<Seq<char>, Seq<Seq<u8>>>, RequestErrorView> {
    if !has_body || headers.contains_key("content-type"@) {
        Ok(headers)
    } else if !valid_header_value(encode_utf8(content_type)) {
        Err(RequestErrorView::InvalidContentType("failed to parse header value"@))
    } else {
        Ok(headers.insert("content-type"@, seq![encode_utf8(content_type)]))
    }
}

/// The timeout of one attempt: what is asked for, but at least a second.
pub open spec fn timeout_granted(wanted: Option<i64>) -> Option<u64> {
    match wanted {
        Some(seconds) => Some(
            if seconds < 1 {
                1
            } else {
                seconds as u64
            },
        ),
        None => None,
    }
}

/// The request that options make. `url` is what their URL parses to, `with_query`
/// is that URL with the parameters in its query, and `method` is their method in
/// upper case.
pub open spec fn planned(
    options: RequestOptionsView,
    url: Result<Seq<char>, Seq<char>>,
    with_query: Option<Seq<char>>,
    method: Seq<char>,
) -> Result<RequestPlanView, RequestErrorView> {
    let choice = body_choice(method, options.parameters, options.body);
    let made = match options.headers {
        Some(pairs) => headers_made(pairs),
        None => Ok(no_headers()),
    };
    match (url, made) {
        (Err(why), _) => Err(RequestErrorView::InvalidUrl(why)),
        _ if !valid_method(method) => Err(RequestErrorView::InvalidMethod("invalid HTTP method"@)),
        (_, Err(error)) => Err(error),
        _ if choice.query && with_query is None => Err(RequestErrorView::UrlTooLong),
        _ if choice.body is Some && choice.body->0.len() > MAX_BODY_SIZE => Err(
            RequestErrorView::BodyTooLarge,
        ),
        (Ok(plain), Ok(headers)) => match headers_completed(
            headers,
            choice.body is Some,
            content_type_of(options.body_type, choice.generated),
        ) {
            Err(error) => Err(error),
            Ok(completed) => Ok(
                RequestPlanView {
                    url: if choice.query {
                        with_query->0
                    } else {
                        plain
                    },
                    method,
                    headers: completed,
                    body: choice.body,
                    timeout: timeout_granted(options.timeout),
                    retries: retries_granted(options.retries, method) as usize,
                    retry_delay: base_granted(options.retry_delay),
                },
            ),
        },
    }
}

/// A planned request, by its view.
pub open spec fn plan_view(result: Result<RequestPlan, RequestError>) -> Result<
    RequestPlanView,
    RequestErrorView,
> {
    match result {
        Ok(plan) => Ok(plan@),
        Err(error) => Err(error@),
    }
}

/// Whether options may be refused for too many headers: they have a URL and a
/// method, and their headers are crowded.
pub open spec fn may_be_too_many(
    options: RequestOptionsView,
    url: Result<Seq<char>, Seq<char>>,
    method: Seq<char>,
) -> bool {
    &&& url is Ok
    &&& valid_method(method)
    &&& options.headers matches Some(pairs) && crowded(pairs)
}

proof fn lemma_content_type_name()
    ensures
        valid_header_name("content-type"@),
        lowercase("content-type"@) == "content-type"@,
{
    reveal_strlit("content-type");
    assert(lowercase("content-type"@) =~= "content-type"@);
}

/// Adds the content type where it is missing.
fn complete_headers(headers: &mut HeaderMap, has_body: bool, content_type: &String) -> (result:
    Result<(), RequestError>)
    ensures
        result is Ok ==> headers_completed(header_contents(*old(headers)), has_body, content_type@)
            == Ok::<Map<Seq<char>, Seq<Seq<u8>>>, RequestErrorView>(
            header_contents(*final(headers)),
        ),
        result matches Err(RequestError::TooManyHeaders) ==> header_contents(
            *old(headers),
        ).dom().len() > HEADER_MAP_ROOM,
        result matches Err(error) ==> error@ is TooManyHeaders || headers_completed(
            header_contents(*old(headers)),
            has_body,
            content_type@,
        ) == Err::<Map<Seq<char>, Seq<Seq<u8>>>, RequestErrorView>(error@),
{
    proof {
        lemma_content_type_name();
    }
    if has_body && !header_contains(headers, "content-type") {
        let value = match header_value(content_type.as_str()) {
            Ok(value) => value,
            Err(why) => return Err(RequestError::InvalidContentType(why)),
        };
        if !header_insert(headers, "content-type", &value) {
            return Err(RequestError::TooManyHeaders);
        }
    }
    Ok(())
}

/// Plans the request that options make, given what their URL parses to, that
/// URL with the parameters in its query, and their method in upper case. It is
/// refused for an error of [`planned`], and may be refused for too many headers
/// where there are more than `HEADER_MAP_ROOM` different ones.
pub fn plan_resolved(
    options: RequestOptions,
    url: Result<String, String>,
    with_query: Option<String>,
    method: String,
) -> (result: Result<RequestPlan, RequestError>)
    ensures
        result matches Err(RequestError::TooManyHeaders) ==> may_be_too_many(
            options@,
            result_view(url),
            method@,
        ),
        !(result matches Err(RequestError::TooManyHeaders)) ==> plan_view(result) == planned(
            options@,
            result_view(url),
            option_view(with_query),
            method@,
        ),
{
    let ghost given = options@.headers;
    let plain = match url {
        Ok(plain) => plain,
        Err(why) => return Err(RequestError::InvalidUrl(why)),
    };
    let method = match Method::parse(method.as_str()) {
        Ok(method) => method,
        Err(why) => return Err(RequestError::InvalidMethod(why)),
    };
    let mut headers = match &options.headers {
        Some(pairs) => match build_headers(pairs) {
            Ok(headers) => headers,
            Err(error) => return Err(error),
        },
        None => HeaderMap::new(),
    };
    let mut target = plain;
    let mut body = options.body;
    let mut generated: Option<String> = None;
    if let Some(pairs) = &options.parameters {
        if method.is("POST") {
            if body.is_none() {
                body = match encode_form(pairs) {
                    Ok(form) => Some(form.as_str().as_bytes_vec()),
                    Err(why) => return Err(RequestError::EncodeParameters(why)),
                };
                generated = Some("application/x-www-form-urlencoded".to_string());
            }
        } else {
            match with_query {
                Some(queried) => {
                    target = queried;
                },
                None => return Err(RequestError::UrlTooLong),
            }
        }
    }
    if let Some(bytes) = &body {
        if bytes.len() > MAX_BODY_SIZE {
            return Err(RequestError::BodyTooLarge);
        }
    }
    let content_type = match options.body_type {
        Some(text) => text,
        None => match generated {
            Some(text) => text,
            None => "text/plain; charset=utf-8".to_string(),
        },
    };
    proof {
        if let Some(pairs) = given {
            assert(pairs.take(pairs.len() as int) =~= pairs);
            assert(headers_made(pairs.take(pairs.len() as int)) is Ok);
        }
    }
    match complete_headers(&mut headers, body.is_some(), &content_type) {
        Ok(_) => {},
        Err(error) => return Err(error),
    }
    let timeout: Option<u64> = match options.timeout {
        Some(seconds) => Some(
            if seconds < 1 {
                1
            } else {
                seconds as u64
            },
        ),
        None => None,
    };
    let retries: usize = retry_limit(options.retries, &method);
    let retry_delay: u128 = retry_base_delay(options.retry_delay);
    Ok(RequestPlan { url: target, method, headers, body, timeout, retries, retry_delay })
}

/// A POST request that has a body ignores its parameters.
pub proof fn law_body_wins(
    options: RequestOptionsView,
    url: Result<Seq<char>, Seq<char>>,
    with_query: Option<Seq<char>>,
)
    requires
        options.body is Some,
    ensures
        planned(options, url, with_query, "POST"@) == planned(
            RequestOptionsView { parameters: None, ..options },
            url,
            with_query,
            "POST"@,
        ),
{
}

/// A POST request without a body sends its parameters as a form, to the URL as it
/// is, with the content type of forms unless its headers or its options give
/// another.
pub proof fn law_post_sends_form(
    options: RequestOptionsView,
    url: Result<Seq<char>, Seq<char>>,
    with_query: Option<Seq<char>>,
)
    requires
        options.body is None,
        options.parameters is Some,
        planned(options, url, with_query, "POST"@) is Ok,
    ensures
        ({
            let plan = planned(options, url, with_query, "POST"@)->Ok_0;
            &&& plan.url == url->Ok_0
            &&& plan.body == Some(encode_utf8(form_text(options.parameters->0)))
            &&& options.body_type is None && (options.headers matches Some(pairs) ==> headers_made(
                pairs,
            ) is Ok && !headers_made(pairs)->Ok_0.contains_key("content-type"@))
                ==> plan.headers.contains_key("content-type"@) && plan.headers["content-type"@]
                == seq![
                encode_utf8("application/x-www-form-urlencoded"@),
            ]
        }),
{
}

/// Any other request puts its parameters into the query and leaves its body
/// alone.
pub proof fn law_parameters_go_to_query(
    options: RequestOptionsView,
    url: Result<Seq<char>, Seq<char>>,
    with_query: Option<Seq<char>>,
    method: Seq<char>,
)
    requires
        method != "POST"@,
        options.parameters is Some,
        planned(options, url, with_query, method) is Ok,
    ensures
        ({
            let plan = planned(options, url, with_query, method)->Ok_0;
            &&& with_query == Some(plan.url)
            &&& plan.body == options.body
        }),
{
}

/// A body that comes without any word on its content type is sent as plain text.
pub proof fn law_body_is_plain_text_by_default(
    options: RequestOptionsView,
    url: Result<Seq<char>, Seq<char>>,
    with_query: Option<Seq<char>>,
    method: Seq<char>,
)
    requires
        options.body is Some,
        options.body_type is None,
        options.headers matches Some(pairs) ==> headers_made(pairs) is Ok
            && !headers_made(pairs)->Ok_0.contains_key("content-type"@),
        planned(options, url, with_query, method) is Ok,
    ensures
        planned(options, url, with_query, method)->Ok_0.headers["content-type"@] == seq![
            encode_utf8("text/plain; charset=utf-8"@),
        ],
{
}

/// A request without a body and without parameters has no body, and gets no
/// header beyond those it asks for.
pub proof fn law_nothing_is_made_up(
    options: RequestOptionsView,
    url: Result<Seq<char>, Seq<char>>,
    with_query: Option<Seq<char>>,
    method: Seq<char>,
)
    requires
        options.body is None,
        options.parameters is None,
        planned(options, url, with_query, method) is Ok,
    ensures
        ({
            let plan = planned(options, url, with_query, method)->Ok_0;
            &&& plan.body is None
            &&& plan.url == url->Ok_0
            &&& plan.headers == (match options.headers {
                Some(pairs) => headers_made(pairs)->Ok_0,
                None => no_headers(),
            })
        }),
{
}

/// Every request that is planned keeps the limits: its body fits, it is tried
/// again at most `MAX_RETRIES` times, a timeout of its own is at least a second,
/// and its base pause is neither too short nor too long.
pub proof fn law_plan_keeps_limits(
    options: RequestOptionsView,
    url: Result<Seq<char>, Seq<char>>,
    with_query: Option<Seq<char>>,
    method: Seq<char>,
)
    requires
        planned(options, url, with_query, method) is Ok,
    ensures
        ({
            let plan = planned(options, url, with_query, method)->Ok_0;
            &&& plan.body matches Some(body) ==> body.len() <= MAX_BODY_SIZE
            &&& plan.retries <= MAX_RETRIES
            &&& plan.timeout matches Some(seconds) ==> seconds >= 1
            &&& MIN_RETRY_DELAY_NANOS <= plan.retry_delay <= MAX_RETRY_DELAY_NANOS
        }),
{
}

/// Every body goes out with a content type, and one that the headers give is
/// kept as it is.
pub proof fn law_body_has_content_type(
    options: RequestOptionsView,
    url: Result<Seq<char>, Seq<char>>,
    with_query: Option<Seq<char>>,
    method: Seq<char>,
)
    requires
        planned(options, url, with_query, method) is Ok,
    ensures
        ({
            let plan = planned(options, url, with_query, method)->Ok_0;
            &&& plan.body is Some ==> plan.headers.contains_key("content-type"@)
            &&& options.headers matches Some(pairs) ==> headers_made(pairs)->Ok_0.submap_of(
                plan.headers,
            )
        }),
{
}

/// The URL of options; without one it is empty.
pub open spec fn url_of(options: RequestOptionsView) -> Seq<char> {
    match options.url {
        Some(text) => text,
        None => Seq::empty(),
    }
}

/// The method of options; without one it is GET.
pub open spec fn method_of(options: RequestOptionsView) -> Seq<char> {
    match options.method {
        Some(text) => text,
        None => "GET"@,
    }
}

/// The URL of options with their parameters in its query.
pub open spec fn query_of(options: RequestOptionsView) -> Option<Seq<char>> {
    match options.parameters {
        Some(pairs) => query_url(url_of(options), pairs),
        None => None,
    }
}

/// The request that options make, as [`planned`] has it.
pub open spec fn planned_request(options: RequestOptionsView) -> Result<
    RequestPlanView,
    RequestErrorView,
> {
    planned(
        options,
        parsed_url(url_of(options)),
        query_of(options),
        uppercased(method_of(options)),
    )
}

/// Whether the request that options make may be refused for too many headers, as
/// [`may_be_too_many`] has it.
pub open spec fn too_many_possible(options: RequestOptionsView) -> bool {
    may_be_too_many(options, parsed_url(url_of(options)), uppercased(method_of(options)))
}

/// Plans the request that options make, or says why there is none. A method in
/// ASCII is taken in upper case; what becomes of other letters is up to
/// `str::to_uppercase`.
pub fn plan_request(options: RequestOptions) -> (result: Result<RequestPlan, RequestError>)
    ensures
        result matches Err(RequestError::TooManyHeaders) ==> too_many_possible(options@),
        !(result matches Err(RequestError::TooManyHeaders)) ==> plan_view(result)
            == planned_request(options@),
        is_ascii_chars(method_of(options@)) ==> uppercased(method_of(options@)) == ascii_upper(
            method_of(options@),
        ),
{
    let text = match &options.url {
        Some(text) => text.clone(),
        None => String::new(),
    };
    let url = parse_url(text.as_str());
    let method = match &options.method {
        Some(name) => to_uppercase(name.as_str()),
        None => to_uppercase("GET"),
    };
    let with_query = match &options.parameters {
        Some(pairs) => if method == "POST".to_string() {
            None
        } else {
            add_query(text.as_str(), pairs)
        },
        None => None,
    };
    plan_resolved(options, url, with_query, method)
}

} // verus!
