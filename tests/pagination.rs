use apify_client::error::ApifyApiError;
use apify_client::pagination::{decode_pagination, parse_pagination_header, NoOutput, PaginationList};
use reqwest::header::{HeaderMap, HeaderValue};

fn headers(pairs: &[(&'static str, &'static str)]) -> HeaderMap {
    let mut h = HeaderMap::new();
    for (k, v) in pairs {
        h.insert(*k, HeaderValue::from_static(v));
    }
    h
}

fn page_headers() -> HeaderMap {
    headers(&[
        ("X-Apify-Pagination-Total", "2"),
        ("X-Apify-Pagination-Limit", "999999999999"),
        ("X-Apify-Pagination-Offset", "0"),
    ])
}

#[derive(Debug, Clone, PartialEq)]
struct Item {
    field1: f64,
    field2: f64,
}

#[test]
fn page_from_headers_and_body() {
    let body = r#"[{"field1":1.0,"field2":2.0},{"field1":3.0,"field2":4.0}]"#;
    let values: Vec<serde_json::Value> = serde_json::from_str(body).unwrap();
    let items: Vec<Item> = values
        .iter()
        .map(|v| Item { field1: v["field1"].as_f64().unwrap(), field2: v["field2"].as_f64().unwrap() })
        .collect();
    let page = decode_pagination(&page_headers(), items, false).unwrap();
    assert_eq!(
        page,
        PaginationList {
            total: 2,
            offset: 0,
            limit: Some(999999999999),
            count: 2,
            desc: false,
            items: vec![Item { field1: 1., field2: 2. }, Item { field1: 3., field2: 4. }],
        }
    );
}

#[test]
fn count_is_the_number_of_items_not_a_header() {
    let mut h = page_headers();
    h.insert("X-Apify-Pagination-Count", HeaderValue::from_static("7"));
    let page = decode_pagination(&h, vec![1u8, 2, 3], true).unwrap();
    assert_eq!(page.count, 3);
    assert!(page.desc);
}

#[test]
fn lookup_ignores_case() {
    let h = headers(&[("x-apify-pagination-total", "42")]);
    assert_eq!(parse_pagination_header(&h, "X-Apify-Pagination-Total"), Ok(42));
}

#[test]
fn missing_header_is_api_failure() {
    let h = headers(&[("X-Apify-Pagination-Total", "2"), ("X-Apify-Pagination-Offset", "0")]);
    let r = decode_pagination::<u8>(&h, vec![], false);
    assert_eq!(
        r,
        Err(ApifyApiError::ApiFailure("X-Apify-Pagination-Limit headers missing in response!".to_string()))
    );
    assert_eq!(
        parse_pagination_header(&HeaderMap::new(), "X-Apify-Pagination-Offset"),
        Err(ApifyApiError::ApiFailure("X-Apify-Pagination-Offset headers missing in response!".to_string()))
    );
}

#[test]
fn invalid_name_is_never_present() {
    let h = page_headers();
    assert_eq!(
        parse_pagination_header(&h, "X Apify"),
        Err(ApifyApiError::ApiFailure("X Apify headers missing in response!".to_string()))
    );
}

#[test]
fn non_visible_header_is_api_failure() {
    let mut h = HeaderMap::new();
    h.insert("X-Apify-Pagination-Total", HeaderValue::from_bytes(b"1\xff").unwrap());
    assert_eq!(
        parse_pagination_header(&h, "X-Apify-Pagination-Total"),
        Err(ApifyApiError::ApiFailure("X-Apify-Pagination-Total header is not valid UTF-8!".to_string()))
    );
}

#[test]
fn non_numeric_header_is_api_failure() {
    for v in ["", "+", "-1", "12a", "1.5", "18446744073709551616", "99999999999999999999"] {
        let mut h = HeaderMap::new();
        h.insert("X-Apify-Pagination-Total", HeaderValue::from_str(v).unwrap());
        assert_eq!(
            parse_pagination_header(&h, "X-Apify-Pagination-Total"),
            Err(ApifyApiError::ApiFailure(
                "X-Apify-Pagination-Total header cannot be parsed to a u64!".to_string()
            )),
            "value {:?}",
            v
        );
    }
}

#[test]
fn numeric_headers_read_like_str_parse() {
    for v in ["0", "007", "+5", "18446744073709551615"] {
        let mut h = HeaderMap::new();
        h.insert("X-Apify-Pagination-Total", HeaderValue::from_str(v).unwrap());
        assert_eq!(parse_pagination_header(&h, "X-Apify-Pagination-Total"), Ok(v.parse::<u64>().unwrap()));
    }
}

#[test]
fn no_output_is_a_unit_marker() {
    assert_eq!(NoOutput::new(), NoOutput);
}
