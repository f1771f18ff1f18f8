use gmsv_rhttp::error::RequestError;
use gmsv_rhttp::request::{
    build_headers, plan_request, plan_resolved, RequestOptions, RequestPlan,
};
use gmsv_rhttp::url::add_query;

fn pairs(list: &[(&str, &str)]) -> Vec<(String, String)> {
    let mut pairs = Vec::new();
    for (key, value) in list {
        pairs.push((key.to_string(), value.to_string()));
    }
    pairs
}

fn options(url: &str) -> RequestOptions {
    RequestOptions {
        url: Some(url.to_string()),
        method: None,
        headers: None,
        parameters: None,
        body: None,
        body_type: None,
        timeout: None,
        retries: None,
        retry_delay: None,
    }
}

fn planned(options: RequestOptions) -> RequestPlan {
    plan_request(options).expect("the request is valid")
}

fn refused(options: RequestOptions) -> RequestError {
    match plan_request(options) {
        Ok(plan) => panic!("the request was planned: {:?}", plan),
        Err(error) => error,
    }
}

fn header<'a>(plan: &'a RequestPlan, name: &str) -> Option<&'a [u8]> {
    plan.headers.get(name).map(|value| value.as_bytes())
}

#[test]
fn bare_options_are_a_plain_get() {
    let plan = planned(options("https://api.example.com/v1/users/42"));
    assert_eq!(plan.url, "https://api.example.com/v1/users/42");
    assert_eq!(plan.method.as_str(), "GET");
    assert!(plan.headers.is_empty());
    assert_eq!(plan.body, None);
    assert_eq!(plan.timeout, None);
    assert_eq!(plan.retries, 2);
    assert_eq!(plan.retry_delay, 250_000_000);
}

#[test]
fn url_is_written_in_its_normal_form() {
    let plan = planned(options("  HTTP://Example.COM:80/a/../b c"));
    assert_eq!(plan.url, "http://example.com/b%20c");
}

#[test]
fn method_is_taken_in_upper_case() {
    for (given, taken) in [("post", "POST"), ("Patch", "PATCH"), ("m-search", "M-SEARCH")] {
        let plan = planned(RequestOptions {
            method: Some(given.to_string()),
            ..options("http://localhost/")
        });
        assert_eq!(plan.method.as_str(), taken);
    }
}

#[test]
fn parameters_of_a_get_go_to_the_query() {
    let plan = planned(RequestOptions {
        parameters: Some(pairs(&[("query", "gmod"), ("page", "1")])),
        ..options("https://api.example.com/v1/search")
    });
    assert_eq!(
        plan.url,
        "https://api.example.com/v1/search?query=gmod&page=1"
    );
    assert_eq!(plan.body, None);
    assert!(plan.headers.is_empty());
}

#[test]
fn parameters_of_a_get_with_a_body_go_to_the_query_too() {
    let plan = planned(RequestOptions {
        method: Some("PUT".to_string()),
        parameters: Some(pairs(&[("a", "1")])),
        body: Some(b"data".to_vec()),
        ..options("http://localhost/")
    });
    assert_eq!(plan.url, "http://localhost/?a=1");
    assert_eq!(plan.body, Some(b"data".to_vec()));
    assert_eq!(
        header(&plan, "content-type"),
        Some(&b"text/plain; charset=utf-8"[..])
    );
}

#[test]
fn parameters_of_a_post_without_body_become_a_form() {
    let plan = planned(RequestOptions {
        method: Some("POST".to_string()),
        parameters: Some(pairs(&[
            ("username", "player"),
            ("password", "secret & more+"),
            ("name", "\u{e9}~*-._"),
        ])),
        ..options("https://api.example.com/v1/login")
    });
    assert_eq!(plan.url, "https://api.example.com/v1/login");
    assert_eq!(
        plan.body,
        Some(
            b"username=player&password=secret+%26+more%2B&name=%C3%A9%7E*-._".to_vec()
        )
    );
    assert_eq!(
        header(&plan, "content-type"),
        Some(&b"application/x-www-form-urlencoded"[..])
    );
    assert_eq!(plan.retries, 0);
}

#[test]
fn empty_parameters_of_a_post_are_an_empty_form() {
    let plan = planned(RequestOptions {
        method: Some("POST".to_string()),
        parameters: Some(vec![]),
        ..options("http://localhost/")
    });
    assert_eq!(plan.body, Some(vec![]));
    assert_eq!(
        header(&plan, "content-type"),
        Some(&b"application/x-www-form-urlencoded"[..])
    );
}

#[test]
fn body_wins_over_parameters_of_a_post() {
    let plan = planned(RequestOptions {
        method: Some("POST".to_string()),
        parameters: Some(pairs(&[("a", "1")])),
        body: Some(b"{}".to_vec()),
        ..options("http://localhost/")
    });
    assert_eq!(plan.url, "http://localhost/");
    assert_eq!(plan.body, Some(b"{}".to_vec()));
    assert_eq!(
        header(&plan, "content-type"),
        Some(&b"text/plain; charset=utf-8"[..])
    );
}

#[test]
fn content_type_header_is_kept() {
    let plan = planned(RequestOptions {
        method: Some("POST".to_string()),
        headers: Some(pairs(&[("Content-TYPE", "application/json")])),
        body: Some(b"{}".to_vec()),
        body_type: Some("text/html".to_string()),
        ..options("http://localhost/")
    });
    assert_eq!(header(&plan, "content-type"), Some(&b"application/json"[..]));
    assert_eq!(plan.headers.len(), 1);
}

#[test]
fn asked_content_type_wins_over_the_defaults() {
    let plan = planned(RequestOptions {
        method: Some("POST".to_string()),
        parameters: Some(pairs(&[("a", "1")])),
        body_type: Some("text/x-form".to_string()),
        ..options("http://localhost/")
    });
    assert_eq!(plan.body, Some(b"a=1".to_vec()));
    assert_eq!(header(&plan, "content-type"), Some(&b"text/x-form"[..]));
}

#[test]
fn content_type_without_a_body_is_not_sent() {
    let plan = planned(RequestOptions {
        body_type: Some("bad\nvalue".to_string()),
        ..options("http://localhost/")
    });
    assert!(plan.headers.is_empty());
}

#[test]
fn last_of_two_headers_of_one_name_counts() {
    let plan = planned(RequestOptions {
        headers: Some(pairs(&[
            ("X-Token", "one"),
            ("Accept", "*/*"),
            ("x-tOKEN", "tw\u{f6}"),
        ])),
        ..options("http://localhost/")
    });
    assert_eq!(plan.headers.len(), 2);
    assert_eq!(header(&plan, "x-token"), Some("tw\u{f6}".as_bytes()));
    assert_eq!(header(&plan, "accept"), Some(&b"*/*"[..]));
}

#[test]
fn timeout_is_at_least_a_second() {
    for (wanted, taken) in [(10, 10), (1, 1), (0, 1), (-5, 1), (i64::MIN, 1)] {
        let plan = planned(RequestOptions {
            timeout: Some(wanted),
            ..options("http://localhost/")
        });
        assert_eq!(plan.timeout, Some(taken));
    }
}

#[test]
fn retries_and_base_pause_are_clamped_in_a_plan() {
    let plan = planned(RequestOptions {
        method: Some("POST".to_string()),
        retries: Some(100),
        retry_delay: Some(1),
        ..options("http://localhost/")
    });
    assert_eq!(plan.retries, 5);
    assert_eq!(plan.retry_delay, 50_000_000);
}

#[test]
fn bad_url_is_refused() {
    let error = refused(options("not a url"));
    assert!(matches!(error, RequestError::InvalidUrl(_)));
    assert_eq!(
        error.message(),
        "Invalid URL: relative URL without a base"
    );
    let missing = refused(RequestOptions {
        url: None,
        ..options("")
    });
    assert_eq!(
        missing.message(),
        "Invalid URL: relative URL without a base"
    );
}

#[test]
fn bad_method_is_refused() {
    let error = refused(RequestOptions {
        method: Some("GE T".to_string()),
        ..options("http://localhost/")
    });
    assert!(matches!(error, RequestError::InvalidMethod(_)));
    assert_eq!(
        error.message(),
        "Invalid HTTP method: invalid HTTP method"
    );
}

#[test]
fn bad_header_name_is_refused() {
    for name in ["", "bad name", "bad:name", "n\u{e4}me"] {
        let error = refused(RequestOptions {
            headers: Some(pairs(&[(name, "value")])),
            ..options("http://localhost/")
        });
        assert!(matches!(error, RequestError::InvalidHeaderName(_)));
        assert_eq!(
            error.message(),
            "Invalid header name: invalid HTTP header name"
        );
    }
}

#[test]
fn longest_header_name_is_taken() {
    let longest = "a".repeat(65535);
    let headers = build_headers(&vec![(longest.clone(), "1".to_string())]).expect("it fits");
    assert!(headers.contains_key(longest.as_str()));
    let error = build_headers(&vec![("a".repeat(65536), "1".to_string())]).err();
    assert!(matches!(error, Some(RequestError::InvalidHeaderName(_))));
}

#[test]
fn bad_header_value_is_refused() {
    for value in ["line\nbreak", "nul\0", "del\u{7f}"] {
        let error = refused(RequestOptions {
            headers: Some(pairs(&[("X-Value", value)])),
            ..options("http://localhost/")
        });
        assert!(matches!(error, RequestError::InvalidHeaderValue(_)));
        assert_eq!(
            error.message(),
            "Invalid header value: failed to parse header value"
        );
    }
    let plan = planned(RequestOptions {
        headers: Some(pairs(&[("X-Value", "tab\tand space "), ("X-Empty", "")])),
        ..options("http://localhost/")
    });
    assert_eq!(header(&plan, "x-value"), Some(&b"tab\tand space "[..]));
    assert_eq!(header(&plan, "x-empty"), Some(&b""[..]));
}

#[test]
fn first_bad_header_is_the_error() {
    let error = build_headers(&pairs(&[("fine", "1"), ("x", "\n"), ("bad name", "2")]));
    assert!(matches!(error, Err(RequestError::InvalidHeaderValue(_))));
    let error = build_headers(&pairs(&[("bad name", "\n"), ("x", "\n")]));
    assert!(matches!(error, Err(RequestError::InvalidHeaderName(_))));
}

#[test]
fn thousands_of_headers_are_taken() {
    let mut many = Vec::new();
    for i in 0..6554 {
        many.push((format!("x-{}", i), format!("{}", i)));
    }
    let headers = build_headers(&many).expect("they fit");
    assert_eq!(headers.len(), 6554);
    assert_eq!(
        headers.get("x-6553").map(|value| value.as_bytes()),
        Some(&b"6553"[..])
    );
}

#[test]
fn too_many_headers_are_refused() {
    let mut many = Vec::new();
    for i in 0..40000 {
        many.push((format!("x-{}", i), "1".to_string()));
    }
    let error = build_headers(&many).err().expect("they do not fit");
    assert!(matches!(error, RequestError::TooManyHeaders));
    assert_eq!(error.message(), "Too many headers");
}

#[test]
fn body_size_is_limited() {
    let fits = planned(RequestOptions {
        body: Some(vec![0; 20_971_520]),
        ..options("http://localhost/")
    });
    assert_eq!(fits.body.map(|body| body.len()), Some(20_971_520));
    let error = refused(RequestOptions {
        body: Some(vec![0; 20_971_521]),
        ..options("http://localhost/")
    });
    assert!(matches!(error, RequestError::BodyTooLarge));
    assert_eq!(error.message(), "Request body exceeded memory limit");
}

#[test]
fn bad_content_type_is_refused() {
    let error = refused(RequestOptions {
        body: Some(b"data".to_vec()),
        body_type: Some("text\nplain".to_string()),
        ..options("http://localhost/")
    });
    assert!(matches!(error, RequestError::InvalidContentType(_)));
    assert_eq!(
        error.message(),
        "Invalid content type: failed to parse header value"
    );
}

#[test]
fn earlier_errors_hide_later_ones() {
    let everything_wrong = || RequestOptions {
        method: Some(" ".to_string()),
        headers: Some(pairs(&[("bad name", "1")])),
        body: Some(vec![0; 20_971_521]),
        ..options("nowhere")
    };
    assert!(matches!(
        refused(everything_wrong()),
        RequestError::InvalidUrl(_)
    ));
    assert!(matches!(
        refused(RequestOptions {
            url: Some("http://localhost/".to_string()),
            ..everything_wrong()
        }),
        RequestError::InvalidMethod(_)
    ));
    assert!(matches!(
        refused(RequestOptions {
            url: Some("http://localhost/".to_string()),
            method: None,
            ..everything_wrong()
        }),
        RequestError::InvalidHeaderName(_)
    ));
    assert!(matches!(
        refused(RequestOptions {
            url: Some("http://localhost/".to_string()),
            method: None,
            headers: None,
            ..everything_wrong()
        }),
        RequestError::BodyTooLarge
    ));
}

#[test]
fn plan_follows_what_was_resolved() {
    let plan = plan_resolved(
        RequestOptions {
            parameters: Some(pairs(&[("a", "1")])),
            ..options("ignored")
        },
        Ok("plain".to_string()),
        Some("queried".to_string()),
        "GET".to_string(),
    )
    .expect("the request is valid");
    assert_eq!(plan.url, "queried");

    let plan = plan_resolved(
        options("ignored"),
        Ok("plain".to_string()),
        Some("queried".to_string()),
        "GET".to_string(),
    )
    .expect("the request is valid");
    assert_eq!(plan.url, "plain");

    let error = plan_resolved(
        options("ignored"),
        Err("no good".to_string()),
        None,
        "GET".to_string(),
    )
    .err()
    .expect("the URL is wrong");
    assert_eq!(error.message(), "Invalid URL: no good");

    let error = plan_resolved(
        RequestOptions {
            parameters: Some(pairs(&[("a", "1")])),
            ..options("ignored")
        },
        Ok("plain".to_string()),
        None,
        "GET".to_string(),
    )
    .err()
    .expect("the URL is too long");
    assert!(matches!(error, RequestError::UrlTooLong));
    assert_eq!(error.message(), "URL is too long");
}

#[test]
fn query_is_opened_extended_and_kept_before_the_fragment() {
    let one = pairs(&[("k", "v w")]);
    assert_eq!(
        add_query("http://h/p", &one),
        Some("http://h/p?k=v+w".to_string())
    );
    assert_eq!(
        add_query("http://h/p?", &one),
        Some("http://h/p?k=v+w".to_string())
    );
    assert_eq!(
        add_query("http://h/p?a=1", &one),
        Some("http://h/p?a=1&k=v+w".to_string())
    );
    assert_eq!(
        add_query("http://h/p?a=1#top?x", &one),
        Some("http://h/p?a=1&k=v+w#top?x".to_string())
    );
    assert_eq!(
        add_query("http://h#f", &one),
        Some("http://h/?k=v+w#f".to_string())
    );
    assert_eq!(
        add_query("http://h/p", &pairs(&[("a", ""), ("\u{20ac}", "=&#")])),
        Some("http://h/p?a=&%E2%82%AC=%3D%26%23".to_string())
    );
    assert_eq!(add_query("nowhere", &one), None);
}

#[test]
fn empty_parameters_open_a_query() {
    assert_eq!(
        add_query("http://h/p", &vec![]),
        Some("http://h/p?".to_string())
    );
    assert_eq!(
        add_query("http://h/p?a=1#f", &vec![]),
        Some("http://h/p?a=1#f".to_string())
    );
}

#[test]
fn refusals_that_carry_no_detail_have_their_text() {
    assert_eq!(
        RequestError::EncodeParameters("why".to_string()).message(),
        "Failed to encode parameters: why"
    );
    assert_eq!(
        RequestError::NotInitialized.message(),
        "rhttp is not initialized"
    );
    assert_eq!(
        RequestError::QueueFull.message(),
        "rhttp request queue is full (limit: 1024)"
    );
    assert_eq!(
        RequestError::BufferFull.message(),
        "rhttp buffered body limit reached"
    );
}

#[test]
fn many_headers_of_one_name_are_one_header() {
    let mut many = Vec::new();
    for i in 0..50000 {
        many.push(("x-same".to_string(), format!("{}", i)));
    }
    let headers = build_headers(&many).expect("they fit");
    assert_eq!(headers.len(), 1);
    assert_eq!(
        headers.get("x-same").map(|value| value.as_bytes()),
        Some(&b"49999"[..])
    );
}
