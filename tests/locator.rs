use apify_client::error::{ApifyClientError, ClientValidationError};
use apify_client::locator::{is_resource_by_name, stringify_resource, IdOrName, Method};

fn parse(s: &str) -> IdOrName {
    IdOrName::new(s).unwrap()
}

#[test]
fn seventeen_alphanumerics_parse_as_id() {
    match parse("D7mahEK1QsWkUJ1Py") {
        IdOrName::Id(id) => assert_eq!(id, "D7mahEK1QsWkUJ1Py"),
        IdOrName::Name(_) => panic!("expected an ID"),
    }
}

#[test]
fn owner_slash_name_parses_as_name() {
    match parse("john.doe/my-dataset_1") {
        IdOrName::Name(n) => {
            assert_eq!(n.user_name_or_user_id, "john.doe");
            assert_eq!(n.resource_name, "my-dataset_1");
        }
        IdOrName::Id(_) => panic!("expected a name"),
    }
}

fn assert_invalid(s: &str) {
    match IdOrName::new(s) {
        Err(ApifyClientError::ClientValidation(ClientValidationError::InvalidResourceIdOrName(m))) => {
            assert_eq!(
                m,
                format!(
                    "Resource needs to be either an ID with 17 chars or a name with a slash. Got: {}",
                    s
                )
            );
        }
        other => panic!("expected a validation error for {:?}, got {:?}", s, other),
    }
}

#[test]
fn other_identifiers_are_rejected() {
    assert_invalid("");
    assert_invalid("D7mahEK1QsWkUJ1P");
    assert_invalid("D7mahEK1QsWkUJ1Pyy");
    assert_invalid("D7mahEK1QsWkUJ1P!");
    assert_invalid("/name");
    assert_invalid("owner/");
    assert_invalid("a/b/c");
    assert_invalid("own er/name");
    assert_invalid("owner~name");
}

#[test]
fn render_gives_tilde_form_and_id_unchanged() {
    assert_eq!(stringify_resource(&parse("john/dataset")), "john~dataset");
    assert_eq!(stringify_resource(&parse("D7mahEK1QsWkUJ1Py")), "D7mahEK1QsWkUJ1Py");
}

#[test]
fn to_string_gives_back_the_identifier() {
    assert_eq!(parse("john/dataset").to_string(), "john/dataset");
    assert_eq!(parse("D7mahEK1QsWkUJ1Py").to_string(), "D7mahEK1QsWkUJ1Py");
}

#[test]
fn token_rules_by_method_and_locator() {
    let id = parse("D7mahEK1QsWkUJ1Py");
    let name = parse("john/dataset");
    assert!(!id.requires_token(Method::Get));
    assert!(name.requires_token(Method::Get));
    for m in [Method::Post, Method::Put, Method::Delete] {
        assert!(id.requires_token(m));
        assert!(name.requires_token(m));
    }
    assert!(is_resource_by_name(&name));
    assert!(!is_resource_by_name(&id));
}
