use apify_client::client::ApifyClient;
use apify_client::dataset::Format;
use apify_client::error::ApifyApiError;
use apify_client::locator::Method;
use apify_client::pagination::{decode_pagination, NoOutput, PaginationList};
use apify_client::request::BaseBuilder;
use apify_client::retry::{api_error_from_body, ApifyApiErrorRaw, ApifyApiErrorRawWrapper};
use apify_client::run::Meta;
use reqwest::header::{HeaderMap, HeaderValue};

fn create_client() -> ApifyClient {
    ApifyClient::new(Some("SECRET-REDACTED".to_string()))
}

fn name_payload(name: &str) -> Vec<u8> {
    let mut m = serde_json::Map::new();
    m.insert("name".to_string(), serde_json::Value::String(name.to_string()));
    serde_json::to_vec(&serde_json::Value::Object(m)).unwrap()
}

#[derive(Debug, Clone, PartialEq)]
struct Item {
    field1: f64,
    field2: f64,
}

fn get_test_items() -> Vec<Item> {
    vec![Item { field1: 1., field2: 2. }, Item { field1: 3., field2: 4. }]
}

#[test]
fn create_update_get_and_delete_dataset() {
    let client = create_client();
    let name = "RUST-TEST-CREATE";

    let mut create: BaseBuilder<'_, ()> = BaseBuilder::new(&client, "datasets".to_string(), Method::Post);
    create.append_query_string(format!("name={}", name));
    let create = create.validate().unwrap();
    assert_eq!(create.url, "https://api.apify.com/v2/datasets?name=RUST-TEST-CREATE&token=SECRET-REDACTED");

    let dataset_id = "D7mahEK1QsWkUJ1Py";
    let dataset = client.dataset(dataset_id);
    let get = dataset.get().validate().unwrap();
    assert_eq!(get.method, Method::Get);
    assert_eq!(get.url, "https://api.apify.com/v2/datasets/D7mahEK1QsWkUJ1Py?token=SECRET-REDACTED");

    let new_name = "RUST-TEST-UPDATE";
    let update = dataset.update(Ok(name_payload(new_name))).validate().unwrap();
    assert_eq!(update.method, Method::Put);
    assert_eq!(update.body, Some(br#"{"name":"RUST-TEST-UPDATE"}"#.to_vec()));

    let delete = dataset.delete().validate().unwrap();
    assert_eq!(delete.method, Method::Delete);
    assert_eq!(NoOutput::new(), NoOutput);

    let not_found = ApifyApiErrorRawWrapper {
        error: ApifyApiErrorRaw {
            error_type: "not-found".to_string(),
            message: "Dataset was not found".to_string(),
        },
    };
    let is_correct_error = match api_error_from_body(404, Ok(not_found)) {
        ApifyApiError::NotFound(text) => text == "Dataset was not found".to_string(),
        _ => false,
    };
    assert!(is_correct_error);
}

#[test]
fn list_datasets_test() {
    let client = create_client();
    let name = "RUST-TEST-LIST";
    let mut create: BaseBuilder<'_, ()> = BaseBuilder::new(&client, "datasets".to_string(), Method::Post);
    create.append_query_string(format!("name={}", name));
    assert!(create.validate().unwrap().url.contains("name=RUST-TEST-LIST"));

    let mut list = client.datasets().list::<()>();
    list.append_query_string("limit=10".to_string());
    assert_eq!(
        list.validate().unwrap().url,
        "https://api.apify.com/v2/datasets?limit=10&token=SECRET-REDACTED"
    );
}

#[test]
fn put_get_items_test() {
    let client = create_client();
    let dataset = client.dataset("john/RUST-TEST-PUT-ITEMS");

    let push = dataset.push_items(Ok(b"[]".to_vec())).validate().unwrap();
    assert_eq!(push.method, Method::Post);
    assert_eq!(push.url, "https://api.apify.com/v2/datasets/john~RUST-TEST-PUT-ITEMS/items?token=SECRET-REDACTED");

    let mut list = dataset.list_items::<Item>();
    list.limit(10).offset(0);
    assert!(!list.descending());
    let request = list.request().validate().unwrap();
    assert_eq!(
        request.url,
        "https://api.apify.com/v2/datasets/john~RUST-TEST-PUT-ITEMS/items?offset=0&limit=10&token=SECRET-REDACTED"
    );

    let mut headers = HeaderMap::new();
    headers.insert("X-Apify-Pagination-Total", HeaderValue::from_static("2"));
    headers.insert("X-Apify-Pagination-Limit", HeaderValue::from_static("999999999999"));
    headers.insert("X-Apify-Pagination-Offset", HeaderValue::from_static("0"));
    let pagination_list = decode_pagination(&headers, get_test_items(), list.descending()).unwrap();
    let pagination_list_test = PaginationList {
        total: 2,
        offset: 0,
        limit: Some(999999999999),
        count: 2,
        desc: false,
        items: get_test_items(),
    };
    assert_eq!(pagination_list, pagination_list_test);

    let download = dataset.download_items(Format::Csv).validate().unwrap();
    assert_eq!(
        download.url,
        "https://api.apify.com/v2/datasets/john~RUST-TEST-PUT-ITEMS/items?format=csv&token=SECRET-REDACTED"
    );
}

#[test]
fn get_run_test() {
    let client = ApifyClient::new(None);
    let run = client.run("D7mahEK1QsWkUJ1Py").get::<()>().validate().unwrap();
    assert_eq!(run.url, "https://api.apify.com/v2/actor-runs/D7mahEK1QsWkUJ1Py");
    let mut meta = Meta::default();
    meta.origin = "DEVELOPMENT".to_string();
    assert_eq!(meta.origin, "DEVELOPMENT");
}
