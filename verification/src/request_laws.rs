//! What a planned request is, part by part, for all options.

use reqwest::header::HeaderMap;
use vstd::prelude::*;
use vstd::utf8::{encode_utf8, is_ascii_chars};

use crate::error::{RequestError, RequestErrorView};
use crate::headers::{
    header_contents, lowercase, no_headers, valid_header_name, valid_header_value,
};
use crate::method::{uppercased, valid_method};
use crate::request::{
    body_view, crowded, headers_made, headers_view, may_be_too_many, plan_view, planned,
    planned_request, table_view, too_many_possible, RequestOptions, RequestOptionsView,
    RequestPlan, RequestPlanView,
};
use crate::table::pairs_view;
use crate::url::{form_text, option_view, parsed_url, query_fits, with_query};

verus! {

/// Whether a pair can be a header.
pub open spec fn good_header(pair: (Seq<char>, Seq<char>)) -> bool {
    valid_header_name(pair.0) && valid_header_value(encode_utf8(pair.1))
}

/// Headers are made exactly where every pair can be one; else the error is that of
/// the first pair that cannot, its name before its value.
pub proof fn law_headers_are_owed(pairs: Seq<(Seq<char>, Seq<char>)>)
    ensures
        headers_made(pairs) is Ok <==> forall|i: int|
            0 <= i < pairs.len() ==> good_header(#[trigger] pairs[i]),
        headers_made(pairs) matches Err(error) ==> exists|i: int| #[trigger]
            first_bad(pairs, i) && (if !valid_header_name(pairs[i].0) {
                error == RequestErrorView::InvalidHeaderName("invalid HTTP header name"@)
            } else {
                error == RequestErrorView::InvalidHeaderValue("failed to parse header value"@)
            }),
    decreases pairs.len(),
{
    if pairs.len() > 0 {
        let rest = pairs.drop_last();
        let end = pairs.len() - 1;
        law_headers_are_owed(rest);
        assert(pairs[end] == pairs.last());
        assert forall|i: int| 0 <= i < rest.len() implies #[trigger] pairs[i] == rest[i] by {}
        if headers_made(rest) is Err {
            let i = choose|i: int| #[trigger]
                first_bad(rest, i) && (if !valid_header_name(rest[i].0) {
                    headers_made(rest)->Err_0 == RequestErrorView::InvalidHeaderName(
                        "invalid HTTP header name"@,
                    )
                } else {
                    headers_made(rest)->Err_0 == RequestErrorView::InvalidHeaderValue(
                        "failed to parse header value"@,
                    )
                });
            assert(first_bad(pairs, i));
            assert(!good_header(pairs[i]));
        } else {
            assert forall|i: int| 0 <= i < rest.len() implies good_header(#[trigger] pairs[i]) by {
                assert(good_header(rest[i]));
            }
            if !good_header(pairs[end]) {
                assert(first_bad(pairs, end));
            }
        }
    }
}

/// Whether the pair at this place is the first that can be no header.
pub open spec fn first_bad(pairs: Seq<(Seq<char>, Seq<char>)>, at: int) -> bool {
    &&& 0 <= at < pairs.len()
    &&& !good_header(pairs[at])
    &&& forall|i: int| 0 <= i < at ==> good_header(#[trigger] pairs[i])
}

/// The last pair of a name, in whatever case, is the one header of that name, with
/// the bytes of its value.
pub proof fn law_last_header_counts(pairs: Seq<(Seq<char>, Seq<char>)>, at: int)
    requires
        headers_made(pairs) is Ok,
        0 <= at < pairs.len(),
        forall|j: int|
            at < j < pairs.len() ==> lowercase((#[trigger] pairs[j]).0) != lowercase(pairs[at].0),
    ensures
        headers_made(pairs)->Ok_0.contains_key(lowercase(pairs[at].0)),
        headers_made(pairs)->Ok_0[lowercase(pairs[at].0)] == seq![encode_utf8(pairs[at].1)],
    decreases pairs.len(),
{
    if at < pairs.len() - 1 {
        let rest = pairs.drop_last();
        assert(rest[at] == pairs[at]);
        assert forall|j: int| at < j < rest.len() implies lowercase((#[trigger] rest[j]).0)
            != lowercase(rest[at].0) by {
            assert(rest[j] == pairs[j]);
        }
        assert(pairs[pairs.len() - 1] == pairs.last());
        law_last_header_counts(rest, at);
    }
}

/// There is no header that no pair asks for.
pub proof fn law_headers_come_from_pairs(pairs: Seq<(Seq<char>, Seq<char>)>, name: Seq<char>)
    requires
        headers_made(pairs) is Ok,
        headers_made(pairs)->Ok_0.contains_key(name),
    ensures
        exists|i: int| 0 <= i < pairs.len() && lowercase((#[trigger] pairs[i]).0) == name,
    decreases pairs.len(),
{
    if pairs.len() > 0 {
        let rest = pairs.drop_last();
        assert(pairs[pairs.len() - 1] == pairs.last());
        if lowercase(pairs.last().0) != name {
            law_headers_come_from_pairs(rest, name);
            let i = choose|i: int|
                0 <= i < rest.len() && lowercase((#[trigger] rest[i]).0) == name;
            assert(pairs[i] == rest[i]);
        }
    }
}

/// No more headers are made than there are pairs, so that 6553 pairs are never too
/// many; nor are any number of them that make no more than 6553 different headers
/// at any point.
pub proof fn law_few_headers_are_not_too_many(pairs: Seq<(Seq<char>, Seq<char>)>)
    ensures
        pairs.len() <= 6553 ==> !crowded(pairs),
        (forall|n: int|
            0 <= n <= pairs.len() ==> (#[trigger] headers_made(pairs.take(n)) is Ok
                ==> headers_made(pairs.take(n))->Ok_0.dom().len() <= 6553)) ==> !crowded(pairs),
{
    if pairs.len() <= 6553 {
        assert forall|n: int|
            0 <= n <= pairs.len() && #[trigger] headers_made(
                pairs.take(n),
            ) is Ok implies headers_made(pairs.take(n))->Ok_0.dom().len() <= 6553 by {
            lemma_no_more_headers_than_pairs(pairs.take(n));
        }
    }
}

proof fn lemma_no_more_headers_than_pairs(pairs: Seq<(Seq<char>, Seq<char>)>)
    ensures
        headers_made(pairs) matches Ok(headers) ==> headers.dom().finite() && headers.dom().len()
            <= pairs.len(),
    decreases pairs.len(),
{
    if pairs.len() > 0 {
        lemma_no_more_headers_than_pairs(pairs.drop_last());
    }
}

/// A request can be refused for too many headers only where its URL parses, its
/// method is one, and it gives more than 6553 headers.
pub proof fn law_too_many_is_no_excuse(
    options: RequestOptionsView,
    url: Result<Seq<char>, Seq<char>>,
    method: Seq<char>,
)
    ensures
        may_be_too_many(options, url, method) ==> {
            &&& url is Ok
            &&& valid_method(method)
            &&& options.headers is Some
            &&& options.headers->0.len() > 6553
            &&& crowded(options.headers->0)
        },
        too_many_possible(options) ==> {
            &&& options.headers is Some
            &&& options.headers->0.len() > 6553
            &&& crowded(options.headers->0)
        },
{
    if options.headers is Some {
        law_few_headers_are_not_too_many(options.headers->0);
    }
}

/// The headers that options ask for.
pub open spec fn asked_headers(options: RequestOptionsView) -> Map<Seq<char>, Seq<Seq<u8>>> {
    match options.headers {
        Some(pairs) => headers_made(pairs)->Ok_0,
        None => no_headers(),
    }
}

/// A planned request has the method as it is, and goes to the URL as it is; only
/// parameters of a request that is no POST take it to the URL with them in its
/// query.
pub proof fn law_plan_goes_where_asked(
    options: RequestOptionsView,
    url: Result<Seq<char>, Seq<char>>,
    queried: Option<Seq<char>>,
    method: Seq<char>,
)
    requires
        planned(options, url, queried, method) is Ok,
    ensures
        ({
            let plan = planned(options, url, queried, method)->Ok_0;
            &&& plan.method == method
            &&& url is Ok
            &&& options.parameters is None || method == "POST"@ ==> plan.url == url->Ok_0
            &&& options.parameters is Some && method != "POST"@ ==> queried == Some(plan.url)
        }),
{
}

/// A body that is given is sent as it is, by every method; without one, a POST
/// sends its parameters as a form, and nothing else has a body.
pub proof fn law_plan_sends_the_body(
    options: RequestOptionsView,
    url: Result<Seq<char>, Seq<char>>,
    queried: Option<Seq<char>>,
    method: Seq<char>,
)
    requires
        planned(options, url, queried, method) is Ok,
    ensures
        ({
            let body = planned(options, url, queried, method)->Ok_0.body;
            &&& options.body is Some ==> body == options.body
            &&& options.body is None && options.parameters is Some && method == "POST"@ ==> body
                == Some(encode_utf8(form_text(options.parameters->0)))
            &&& options.body is None && (options.parameters is None || method != "POST"@)
                ==> body is None
        }),
{
}

/// A planned request has the headers that are asked for. One with a body whose
/// headers give no content type gets that one more: the type that is asked for,
/// else that of forms for a form, else plain text.
pub proof fn law_plan_has_the_headers(
    options: RequestOptionsView,
    url: Result<Seq<char>, Seq<char>>,
    queried: Option<Seq<char>>,
    method: Seq<char>,
)
    requires
        planned(options, url, queried, method) is Ok,
    ensures
        ({
            let plan = planned(options, url, queried, method)->Ok_0;
            let asked = asked_headers(options);
            let typed = |text: Seq<char>|
                plan.headers == asked.insert("content-type"@, seq![encode_utf8(text)]);
            &&& options.headers matches Some(pairs) ==> headers_made(pairs) is Ok
            &&& plan.body is None || asked.contains_key("content-type"@) ==> plan.headers == asked
            &&& plan.body is Some && !asked.contains_key("content-type"@) ==> {
                &&& options.body_type matches Some(text) ==> typed(text)
                &&& options.body_type is None && options.body is None ==> typed(
                    "application/x-www-form-urlencoded"@,
                )
                &&& options.body_type is None && options.body is Some ==> typed(
                    "text/plain; charset=utf-8"@,
                )
            }
        }),
{
}

/// A planned request has the timeout that is asked for, but at least a second, or
/// none of its own; as many retries as are asked for, between none and five, or
/// the two or none of its method; and the base pause that is asked for, between a
/// twentieth of a second and half a minute, or a quarter of a second.
pub proof fn law_plan_has_the_numbers(
    options: RequestOptionsView,
    url: Result<Seq<char>, Seq<char>>,
    queried: Option<Seq<char>>,
    method: Seq<char>,
)
    requires
        planned(options, url, queried, method) is Ok,
    ensures
        ({
            let plan = planned(options, url, queried, method)->Ok_0;
            &&& options.timeout matches Some(seconds) ==> plan.timeout is Some && plan.timeout->0
                == (if seconds >= 1 {
                seconds as int
            } else {
                1
            })
            &&& options.timeout is None ==> plan.timeout is None
            &&& options.retries matches Some(number) ==> plan.retries == (if number < 0 {
                0
            } else if number > 5 {
                5
            } else {
                number as int
            })
            &&& options.retries is None ==> plan.retries == (if method == "GET"@ || method
                == "HEAD"@ || method == "PUT"@ || method == "DELETE"@ || method == "OPTIONS"@ {
                2int
            } else {
                0
            })
            &&& options.retry_delay matches Some(nanos) ==> plan.retry_delay == (if nanos
                < 50_000_000 {
                50_000_000
            } else if nanos > 30_000_000_000 {
                30_000_000_000
            } else {
                nanos as int
            })
            &&& options.retry_delay is None ==> plan.retry_delay == 250_000_000
        }),
{
}

/// A request is planned exactly where its URL parses, its method is one, its
/// headers can be made, its parameters fit into its URL if that is where they go,
/// its body has at most 20 MB, and a content type that is added for it can be one.
pub proof fn law_plan_is_owed(
    options: RequestOptionsView,
    url: Result<Seq<char>, Seq<char>>,
    queried: Option<Seq<char>>,
    method: Seq<char>,
)
    ensures
        planned(options, url, queried, method) is Ok <==> {
            &&& url is Ok
            &&& valid_method(method)
            &&& options.headers matches Some(pairs) ==> headers_made(pairs) is Ok
            &&& options.parameters is Some && method != "POST"@ ==> queried is Some
            &&& options.body matches Some(body) ==> body.len() <= 20_971_520
            &&& options.body is None && options.parameters is Some && method == "POST"@
                ==> encode_utf8(form_text(options.parameters->0)).len() <= 20_971_520
            &&& options.body_type is Some && !asked_headers(options).contains_key("content-type"@)
                && (options.body is Some || options.parameters is Some && method == "POST"@)
                ==> valid_header_value(encode_utf8(options.body_type->0))
        },
{
    lemma_own_types_are_values();
}

proof fn lemma_own_types_are_values()
    ensures
        valid_header_value(encode_utf8("application/x-www-form-urlencoded"@)),
        valid_header_value(encode_utf8("text/plain; charset=utf-8"@)),
{
    reveal_strlit("application/x-www-form-urlencoded");
    reveal_strlit("text/plain; charset=utf-8");
    lemma_printable_is_value("application/x-www-form-urlencoded"@);
    lemma_printable_is_value("text/plain; charset=utf-8"@);
}

proof fn lemma_printable_is_value(text: Seq<char>)
    requires
        forall|i: int| 0 <= i < text.len() ==> ' ' <= #[trigger] text[i] <= '~',
    ensures
        valid_header_value(encode_utf8(text)),
{
    assert(is_ascii_chars(text));
    vstd::utf8::is_ascii_chars_encode_utf8(text);
    let bytes = encode_utf8(text);
    assert forall|i: int| 0 <= i < bytes.len() implies crate::headers::is_value_byte(
        #[trigger] bytes[i],
    ) by {
        assert(text[i] as u8 == bytes[i]);
        assert(' ' <= text[i] <= '~');
    }
}

/// A request that is not planned is told the first thing that is wrong: its URL,
/// its method, its headers, the length of its URL, the size of its body, its
/// content type.
pub proof fn law_first_error_is_told(
    options: RequestOptionsView,
    url: Result<Seq<char>, Seq<char>>,
    queried: Option<Seq<char>>,
    method: Seq<char>,
)
    ensures
        ({
            let plan = planned(options, url, queried, method);
            let told = |error: RequestErrorView|
                plan == Err::<RequestPlanView, RequestErrorView>(error);
            let made = options.headers is None || headers_made(options.headers->0) is Ok;
            let lost = options.parameters is Some && method != "POST"@ && queried is None;
            let large = if options.body is Some {
                options.body->0.len() > 20_971_520
            } else {
                options.parameters is Some && method == "POST"@ && encode_utf8(
                    form_text(options.parameters->0),
                ).len() > 20_971_520
            };
            &&& url matches Err(why) ==> told(RequestErrorView::InvalidUrl(why))
            &&& url is Ok && !valid_method(method) ==> told(
                RequestErrorView::InvalidMethod("invalid HTTP method"@),
            )
            &&& url is Ok && valid_method(method) && !made ==> told(
                headers_made(options.headers->0)->Err_0,
            )
            &&& url is Ok && valid_method(method) && made && lost ==> told(
                RequestErrorView::UrlTooLong,
            )
            &&& url is Ok && valid_method(method) && made && !lost && large ==> told(
                RequestErrorView::BodyTooLarge,
            )
            &&& url is Ok && valid_method(method) && made && !lost && !large && plan is Err
                ==> told(
                RequestErrorView::InvalidContentType("failed to parse header value"@),
            )
        }),
{
}

/// A request that is no POST takes its parameters along in its query, whatever its
/// method is: it goes to the URL that its text parses to, with every parameter at
/// the end of the query.
pub proof fn law_parameters_reach_the_query(options: RequestOptionsView)
    requires
        options.parameters is Some,
        uppercased(
            match options.method {
                Some(name) => name,
                None => "GET"@,
            },
        ) != "POST"@,
        planned_request(options) is Ok,
    ensures
        ({
            let parsed = parsed_url(
                match options.url {
                    Some(text) => text,
                    None => Seq::empty(),
                },
            );
            &&& parsed is Ok
            &&& planned_request(options)->Ok_0.url == with_query(
                parsed->Ok_0,
                options.parameters->0,
            )
        }),
{
}

/// A request without parameters, and every POST, goes to the URL that its text
/// parses to, with nothing added.
pub proof fn law_url_is_kept(options: RequestOptionsView)
    requires
        options.parameters is None || uppercased(
            match options.method {
                Some(name) => name,
                None => "GET"@,
            },
        ) == "POST"@,
        planned_request(options) is Ok,
    ensures
        parsed_url(
            match options.url {
                Some(text) => text,
                None => Seq::empty(),
            },
        ) == Ok::<Seq<char>, Seq<char>>(planned_request(options)->Ok_0.url),
{
}

/// A request without a method is a GET, one without a URL is one with an empty URL,
/// and the method is sent in upper case.
pub proof fn law_missing_options_have_defaults(options: RequestOptionsView)
    ensures
        options.method is None ==> planned_request(options) == planned_request(
            RequestOptionsView { method: Some("GET"@), ..options },
        ),
        options.url is None ==> planned_request(options) == planned_request(
            RequestOptionsView { url: Some(Seq::empty()), ..options },
        ),
        planned_request(options) is Ok && options.method is Some ==> planned_request(
            options,
        )->Ok_0.method == uppercased(options.method->0),
{
}

/// Options are planned by the URL that their text parses to and by their method in
/// upper case, so that all that holds of a planned request holds of theirs.
pub proof fn law_options_are_planned(options: RequestOptionsView)
    requires
        options.url is Some,
        options.method is Some,
    ensures
        ({
            let parsed = parsed_url(options.url->0);
            let method = uppercased(options.method->0);
            let queried = if options.parameters is Some && parsed is Ok && query_fits(
                parsed->Ok_0,
                options.parameters->0,
            ) {
                Some(with_query(parsed->Ok_0, options.parameters->0))
            } else {
                None
            };
            &&& planned_request(options) == planned(options, parsed, queried, method)
            &&& parsed matches Err(why) ==> planned_request(options) == Err::<
                RequestPlanView,
                RequestErrorView,
            >(RequestErrorView::InvalidUrl(why))
        }),
{
}

/// The view of options is the options.
pub proof fn law_view_of_options(options: RequestOptions)
    ensures
        options@.url == option_view(options.url),
        options@.method == option_view(options.method),
        options@.headers == table_view(options.headers),
        options@.parameters == table_view(options.parameters),
        options@.body == body_view(options.body),
        options@.body_type == option_view(options.body_type),
        options@.timeout == options.timeout,
        options@.retries == options.retries,
        options@.retry_delay == options.retry_delay,
{
}

/// The view of a plan is the plan.
pub proof fn law_view_of_plan(plan: RequestPlan)
    ensures
        plan@.url == plan.url@,
        plan@.method == plan.method@,
        plan@.headers == header_contents(plan.headers),
        plan@.body == body_view(plan.body),
        plan@.timeout == plan.timeout,
        plan@.retries == plan.retries,
        plan@.retry_delay == plan.retry_delay,
{
}

/// The views of what may be missing, or may be an error, hold what is there.
pub proof fn law_views_of_parts(
    table: Vec<(String, String)>,
    body: Vec<u8>,
    plan: RequestPlan,
    headers: HeaderMap,
    error: RequestError,
)
    ensures
        table_view(Some(table)) == Some(pairs_view(table@)),
        table_view(None) is None,
        body_view(Some(body)) == Some(body@),
        body_view(None) is None,
        plan_view(Ok(plan)) == Ok::<RequestPlanView, RequestErrorView>(plan@),
        plan_view(Err(error)) == Err::<RequestPlanView, RequestErrorView>(error@),
        headers_view(Ok(headers)) == Ok::<Map<Seq<char>, Seq<Seq<u8>>>, RequestErrorView>(
            header_contents(headers),
        ),
        headers_view(Err(error)) == Err::<Map<Seq<char>, Seq<Seq<u8>>>, RequestErrorView>(error@),
{
}

} // verus!
