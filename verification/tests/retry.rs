use gmsv_rhttp::limits::{DEFAULT_RETRY_DELAY_NANOS, MAX_RETRY_DELAY_NANOS};
use gmsv_rhttp::method::Method;
use gmsv_rhttp::retry::{
    default_retries, parse_u64, retry_base_delay, retry_delay, retry_limit, retryable_status,
};
use reqwest::header::{HeaderMap, HeaderValue, RETRY_AFTER};

fn method(name: &str) -> Method {
    Method::parse(name).expect("the name is a method")
}

fn retry_after(value: &'static str) -> HeaderMap {
    let mut headers = HeaderMap::new();
    headers.insert(RETRY_AFTER, HeaderValue::from_static(value));
    headers
}

#[test]
fn retries_only_idempotent_methods_by_default() {
    assert_eq!(default_retries(&method(reqwest::Method::GET.as_str())), 2);
    assert_eq!(default_retries(&method(reqwest::Method::POST.as_str())), 0);
}

#[test]
fn retries_transient_statuses() {
    assert!(retryable_status(
        reqwest::StatusCode::TOO_MANY_REQUESTS.as_u16()
    ));
    assert!(retryable_status(
        reqwest::StatusCode::SERVICE_UNAVAILABLE.as_u16()
    ));
    assert!(!retryable_status(reqwest::StatusCode::BAD_REQUEST.as_u16()));
}

#[test]
fn default_retries_of_every_kind_of_method() {
    for name in ["GET", "HEAD", "PUT", "DELETE", "OPTIONS"] {
        assert_eq!(default_retries(&method(name)), 2);
    }
    for name in ["POST", "PATCH", "CONNECT", "TRACE", "BREW", "get"] {
        assert_eq!(default_retries(&method(name)), 0);
    }
}

#[test]
fn every_transient_status_is_retryable_and_no_other() {
    let mut found = Vec::new();
    for status in 0..1000 {
        if retryable_status(status) {
            found.push(status);
        }
    }
    assert_eq!(found, vec![408, 429, 500, 502, 503, 504]);
}

#[test]
fn wanted_retries_are_clamped() {
    let post = method("POST");
    assert_eq!(retry_limit(Some(3), &post), 3);
    assert_eq!(retry_limit(Some(0), &method("GET")), 0);
    assert_eq!(retry_limit(Some(5), &post), 5);
    assert_eq!(retry_limit(Some(6), &post), 5);
    assert_eq!(retry_limit(Some(i64::MAX), &post), 5);
    assert_eq!(retry_limit(Some(-1), &post), 0);
    assert_eq!(retry_limit(Some(i64::MIN), &post), 0);
    assert_eq!(retry_limit(None, &post), 0);
    assert_eq!(retry_limit(None, &method("PUT")), 2);
}

#[test]
fn writes_are_not_repeated_by_default() {
    assert_eq!(retry_limit(None, &method("POST")), 0);
    assert_eq!(retry_limit(None, &method("PATCH")), 0);
}

#[test]
fn whole_numbers_are_read() {
    assert_eq!(parse_u64(&b"0".to_vec()), Some(0));
    assert_eq!(parse_u64(&b"120".to_vec()), Some(120));
    assert_eq!(parse_u64(&b"+7".to_vec()), Some(7));
    assert_eq!(parse_u64(&b"007".to_vec()), Some(7));
    assert_eq!(
        parse_u64(&b"18446744073709551615".to_vec()),
        Some(18446744073709551615)
    );
    assert_eq!(parse_u64(&b"18446744073709551616".to_vec()), None);
    assert_eq!(parse_u64(&b"99999999999999999999".to_vec()), None);
    assert_eq!(parse_u64(&b"".to_vec()), None);
    assert_eq!(parse_u64(&b"+".to_vec()), None);
    assert_eq!(parse_u64(&b"++1".to_vec()), None);
    assert_eq!(parse_u64(&b"-1".to_vec()), None);
    assert_eq!(parse_u64(&b" 1".to_vec()), None);
    assert_eq!(parse_u64(&b"1.5".to_vec()), None);
    assert_eq!(parse_u64(&b"99999999999999999999x".to_vec()), None);
}

#[test]
fn whole_numbers_are_read_as_the_platform_does() {
    for text in ["0", "+0", "1e3", "65536", "+18446744073709551615", "0x10", "12 "] {
        assert_eq!(
            parse_u64(&text.as_bytes().to_vec()),
            text.parse::<u64>().ok()
        );
    }
}

#[test]
fn backoff_doubles_up_to_the_longest_pause() {
    let base: u128 = 250_000_000;
    assert_eq!(retry_delay(None, 0, base), 250_000_000);
    assert_eq!(retry_delay(None, 1, base), 500_000_000);
    assert_eq!(retry_delay(None, 2, base), 1_000_000_000);
    assert_eq!(retry_delay(None, 3, base), 2_000_000_000);
    assert_eq!(retry_delay(None, 4, base), 4_000_000_000);
    assert_eq!(retry_delay(None, 5, base), 8_000_000_000);
    assert_eq!(retry_delay(None, 6, base), 16_000_000_000);
    assert_eq!(retry_delay(None, 7, base), 16_000_000_000);
    assert_eq!(retry_delay(None, usize::MAX, base), 16_000_000_000);
    assert_eq!(retry_delay(None, 5, 1_000_000_000), 30_000_000_000);
    assert_eq!(retry_delay(None, 0, u128::MAX), 30_000_000_000);
    assert_eq!(retry_delay(None, 6, u128::MAX), 30_000_000_000);
    assert_eq!(retry_delay(None, 3, 0), 0);
}

#[test]
fn numeric_retry_after_wins() {
    let headers = retry_after("7");
    assert_eq!(retry_delay(Some(&headers), 0, 250_000_000), 7_000_000_000);
    assert_eq!(retry_delay(Some(&headers), 6, u128::MAX), 7_000_000_000);
    assert_eq!(
        retry_delay(Some(&retry_after("0")), 4, 250_000_000),
        0
    );
}

#[test]
fn retry_after_is_capped() {
    assert_eq!(
        retry_delay(Some(&retry_after("29")), 0, 0),
        29_000_000_000
    );
    for value in ["30", "31", "3600", "18446744073709551615"] {
        assert_eq!(
            retry_delay(Some(&retry_after(value)), 0, 0),
            MAX_RETRY_DELAY_NANOS
        );
    }
}

#[test]
fn other_retry_after_is_ignored() {
    for value in ["soon", "", "1.5", "Fri, 31 Dec 1999 23:59:59 GMT"] {
        assert_eq!(
            retry_delay(Some(&retry_after(value)), 1, 250_000_000),
            500_000_000
        );
    }
    assert_eq!(
        retry_delay(Some(&HeaderMap::new()), 1, 250_000_000),
        500_000_000
    );
    let mut other = HeaderMap::new();
    other.insert("x-retry-after", HeaderValue::from_static("9"));
    assert_eq!(retry_delay(Some(&other), 1, 250_000_000), 500_000_000);
}

#[test]
fn first_of_several_retry_after_counts() {
    let mut headers = retry_after("3");
    headers.append(RETRY_AFTER, HeaderValue::from_static("9"));
    assert_eq!(retry_delay(Some(&headers), 0, 0), 3_000_000_000);
}

#[test]
fn base_pause_is_clamped() {
    assert_eq!(retry_base_delay(None), 250_000_000);
    assert_eq!(retry_base_delay(None), DEFAULT_RETRY_DELAY_NANOS as u128);
    assert_eq!(retry_base_delay(Some(1_000_000_000)), 1_000_000_000);
    assert_eq!(retry_base_delay(Some(0)), 50_000_000);
    assert_eq!(retry_base_delay(Some(49_999_999)), 50_000_000);
    assert_eq!(retry_base_delay(Some(50_000_001)), 50_000_001);
    assert_eq!(retry_base_delay(Some(u128::MAX)), 30_000_000_000);
}

#[test]
fn methods_are_tokens() {
    assert_eq!(method("GET").as_str(), "GET");
    assert_eq!(method("get").as_str(), "get");
    assert_eq!(method("M-SEARCH").as_str(), "M-SEARCH");
    assert!(method("GET").is("GET"));
    assert!(!method("get").is("GET"));
    for name in ["", "GE T", "GET\n", "G\u{c4}T", "GET/1"] {
        assert_eq!(
            Method::parse(name).err(),
            Some("invalid HTTP method".to_string())
        );
    }
}
