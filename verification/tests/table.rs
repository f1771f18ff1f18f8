use gmsv_rhttp::headers::response_header_table;
use gmsv_rhttp::table::{parse_string_table, TableValue};
use reqwest::header::{HeaderMap, HeaderName, HeaderValue};

fn text(value: &str) -> TableValue {
    TableValue::Text(value.to_string())
}

fn pair(key: &str, value: &str) -> (String, String) {
    (key.to_string(), value.to_string())
}

#[test]
fn strings_numbers_and_booleans_are_values() {
    let entries = vec![
        (text("query"), text("gmod")),
        (text("page"), TableValue::Number("1".to_string())),
        (text("strict"), TableValue::Flag(true)),
        (text("draft"), TableValue::Flag(false)),
        (text("nested"), TableValue::Other),
    ];
    assert_eq!(
        parse_string_table(&entries),
        vec![
            pair("query", "gmod"),
            pair("page", "1"),
            pair("strict", "true"),
            pair("draft", "false"),
        ]
    );
}

#[test]
fn only_strings_are_keys() {
    let entries = vec![
        (TableValue::Number("1".to_string()), text("first")),
        (TableValue::Flag(true), text("second")),
        (TableValue::Other, text("third")),
        (text("fourth"), text("kept")),
    ];
    assert_eq!(parse_string_table(&entries), vec![pair("fourth", "kept")]);
    assert_eq!(parse_string_table(&vec![]), vec![]);
}

#[test]
fn last_value_of_a_key_wins() {
    let entries = vec![
        (text("a"), text("1")),
        (text("b"), text("2")),
        (text("a"), text("3")),
        (text("A"), text("4")),
        (text("b"), TableValue::Other),
    ];
    assert_eq!(
        parse_string_table(&entries),
        vec![pair("a", "3"), pair("b", "2"), pair("A", "4")]
    );
}

#[test]
fn response_header_names_are_lower_case() {
    let mut headers = HeaderMap::new();
    headers.insert(
        HeaderName::from_bytes(b"X-Request-ID").expect("the name is valid"),
        HeaderValue::from_static("AbC"),
    );
    headers.insert(
        HeaderName::from_bytes(b"Content-Type").expect("the name is valid"),
        HeaderValue::from_static("Text/HTML"),
    );
    let mut table = response_header_table(&headers);
    table.sort();
    assert_eq!(
        table,
        vec![
            ("content-type".to_string(), b"Text/HTML".to_vec()),
            ("x-request-id".to_string(), b"AbC".to_vec()),
        ]
    );
}

#[test]
fn duplicate_response_headers_collapse_to_the_last() {
    let mut headers = HeaderMap::new();
    headers.append("set-cookie", HeaderValue::from_static("a=1"));
    headers.append("x-other", HeaderValue::from_static("0"));
    headers.append("set-cookie", HeaderValue::from_static("b=2"));
    headers.append("set-cookie", HeaderValue::from_static("c=3"));
    let mut table = response_header_table(&headers);
    table.sort();
    assert_eq!(
        table,
        vec![
            ("set-cookie".to_string(), b"c=3".to_vec()),
            ("x-other".to_string(), b"0".to_vec()),
        ]
    );
    assert!(response_header_table(&HeaderMap::new()).is_empty());
}

#[test]
fn response_header_values_are_bytes() {
    let mut headers = HeaderMap::new();
    headers.insert(
        "x-raw",
        HeaderValue::from_bytes(&[0xff, 0x20, 0xfe]).expect("the value is valid"),
    );
    assert_eq!(
        response_header_table(&headers),
        vec![("x-raw".to_string(), vec![0xff, 0x20, 0xfe])]
    );
}
