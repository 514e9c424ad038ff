use apify_client::client::ApifyClient;
use apify_client::dataset::{Format, GetItemsParams};
use apify_client::error::{ApifyClientError, ClientValidationError};
use apify_client::locator::Method;
use apify_client::query::{append_query_param, decimal_string};
use apify_client::request::BaseBuilder;

#[test]
fn query_params_are_joined_and_absent_ones_omitted() {
    let mut q = String::new();
    append_query_param(&mut q, "a", "1");
    append_query_param(&mut q, "b", "x");
    assert_eq!(q, "a=1&b=x");

    let mut p = GetItemsParams::new();
    assert_eq!(p.to_query_params(), "");
    p.limit = Some(10);
    p.desc = Some(true);
    p.xml_root = Some("items".to_string());
    p.format = Some(Format::Csv);
    assert_eq!(p.to_query_params(), "format=csv&limit=10&desc=true&xmlRoot=items");
}

#[test]
fn decimal_text_of_numbers() {
    assert_eq!(decimal_string(0), "0");
    assert_eq!(decimal_string(10), "10");
    assert_eq!(decimal_string(999999999999), "999999999999");
    assert_eq!(decimal_string(u64::MAX), u64::MAX.to_string());
}

#[test]
fn format_names() {
    assert_eq!(Format::default(), Format::Json);
    assert_eq!(Format::Jsonl.as_str(), "jsonl");
    assert_eq!(Format::Xlsx.as_str(), "xlsx");
    assert_eq!(Format::Rss.as_str(), "rss");
}

#[test]
fn token_goes_into_the_query() {
    let client = ApifyClient::new(Some("SECRET-REDACTED".to_string()));
    let mut b: BaseBuilder<'_, ()> = BaseBuilder::for_resource(
        &client,
        "datasets".to_string(),
        "john/dataset".to_string(),
        Some("items".to_string()),
        Method::Get,
    );
    b.append_query_string("limit=5".to_string());
    let p = b.validate().unwrap();
    assert_eq!(
        p.url,
        "https://api.apify.com/v2/datasets/john~dataset/items?limit=5&token=SECRET-REDACTED"
    );
    assert!(p.token_required);
    assert_eq!(p.method, Method::Get);
    assert!(p.body.is_none());
    assert!(p.headers.is_empty());
}

#[test]
fn read_by_id_needs_no_token() {
    let client = ApifyClient::new(None);
    let b: BaseBuilder<'_, ()> = BaseBuilder::for_resource(
        &client,
        "datasets".to_string(),
        "D7mahEK1QsWkUJ1Py".to_string(),
        None,
        Method::Get,
    );
    let p = b.validate().unwrap();
    assert_eq!(p.url, "https://api.apify.com/v2/datasets/D7mahEK1QsWkUJ1Py");
    assert!(!p.token_required);
}

#[test]
fn missing_token_fails_before_dispatch() {
    let client = ApifyClient::new(None);
    for (id, method) in [("john/dataset", Method::Get), ("D7mahEK1QsWkUJ1Py", Method::Delete)] {
        let b: BaseBuilder<'_, ()> =
            BaseBuilder::for_resource(&client, "datasets".to_string(), id.to_string(), None, method);
        assert!(matches!(
            b.validate(),
            Err(ApifyClientError::ClientValidation(ClientValidationError::MissingToken))
        ));
    }
    let list: BaseBuilder<'_, ()> = BaseBuilder::new(&client, "datasets".to_string(), Method::Get);
    assert!(matches!(
        list.validate(),
        Err(ApifyClientError::ClientValidation(ClientValidationError::MissingToken))
    ));
}

#[test]
fn invalid_identifier_fails_before_dispatch() {
    let client = ApifyClient::new(Some("tok".to_string()));
    let b: BaseBuilder<'_, ()> =
        BaseBuilder::for_resource(&client, "datasets".to_string(), "bad id".to_string(), None, Method::Get);
    assert!(matches!(
        b.validate(),
        Err(ApifyClientError::ClientValidation(ClientValidationError::InvalidResourceIdOrName(_)))
    ));
}

#[test]
fn serialization_error_is_passed_on() {
    let client = ApifyClient::new(Some("tok".to_string()));
    let err = serde_json::from_str::<serde_json::Value>("{").unwrap_err();
    let mut b: BaseBuilder<'_, ()> = BaseBuilder::new(&client, "datasets".to_string(), Method::Post);
    b.raw_payload(Err(err));
    assert!(matches!(b.validate(), Err(ApifyClientError::Parse(_))));
}

#[test]
fn body_is_sent_as_json() {
    let client = ApifyClient::new(Some("tok".to_string()));
    let mut b: BaseBuilder<'_, ()> = BaseBuilder::new(&client, "datasets".to_string(), Method::Post);
    b.raw_payload(Ok(b"{}".to_vec())).append_query_string("name=x".to_string());
    let p = b.validate().unwrap();
    assert_eq!(p.url, "https://api.apify.com/v2/datasets?name=x&token=tok");
    assert_eq!(p.body, Some(b"{}".to_vec()));
    assert_eq!(p.headers, vec![("Content-Type".to_string(), "application/json".to_string())]);
}

#[test]
fn client_errors_convert() {
    let e: ApifyClientError = ClientValidationError::MissingToken.into();
    assert!(matches!(e, ApifyClientError::ClientValidation(ClientValidationError::MissingToken)));
    let e: ApifyClientError = apify_client::error::ApifyApiError::MissingToken.into();
    assert!(matches!(e, ApifyClientError::ApifyApi(apify_client::error::ApifyApiError::MissingToken)));
}

#[test]
fn token_can_be_set_later() {
    let mut client = ApifyClient::new(None);
    assert_eq!(client.base_time_to_retry, 500);
    client.token("tok".to_string());
    assert_eq!(client.optional_token, Some("tok".to_string()));
}
