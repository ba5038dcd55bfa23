use gateway_core::ClaimValue;
use gateway_core::HttpMethod;
use gateway_core::RequestEvent;
use gateway_core::get_sub_of_authenticated_user;
use gateway_core::is_admin;
use gateway_core::is_authenticated;
use gateway_core::parse_request_metadata;

fn base_event(claims: Option<Vec<(String, ClaimValue)>>) -> RequestEvent {
    RequestEvent {
        method: HttpMethod::Post,
        path: None,
        route_key: None,
        body: None,
        query_params: Vec::new(),
        claims,
    }
}

fn create_authenticated_request() -> RequestEvent {
    base_event(Some(vec![
        (
            "cognito:username".to_string(),
            ClaimValue::Text("FakeUsername".to_string()),
        ),
        ("sub".to_string(), ClaimValue::Text("FakeUserSub".to_string())),
    ]))
}

fn create_unauthenticated_request() -> RequestEvent {
    base_event(None)
}

#[test]
fn test_is_authenticated() {
    let authenticated_request = create_authenticated_request();
    let unauthenticated_request = create_unauthenticated_request();

    assert!(is_authenticated(&authenticated_request));
    assert!(!is_authenticated(&unauthenticated_request));
}

#[test]
fn test_get_sub_of_authenticated_user() {
    let authenticated_request = create_authenticated_request();
    let unauthenticated_request = create_unauthenticated_request();

    assert_eq!(
        get_sub_of_authenticated_user(&authenticated_request).unwrap(),
        "FakeUserSub".to_string()
    );
    let failure = get_sub_of_authenticated_user(&unauthenticated_request).unwrap_err();
    assert!(matches!(
        failure.behaviour,
        gateway_core::FailureBehaviour::ReturnUnauthorized
    ));
    assert_eq!(
        failure.message,
        "Not authorized to access this resource. (authorizer did not contain any claims)"
    );
}

#[test]
fn test_username_alone_authenticates() {
    let event = base_event(Some(vec![(
        "cognito:username".to_string(),
        ClaimValue::Text("SomeUser".to_string()),
    )]));
    assert!(is_authenticated(&event));
}

#[test]
fn test_empty_username_does_not_authenticate() {
    let event = base_event(Some(vec![(
        "cognito:username".to_string(),
        ClaimValue::Text("".to_string()),
    )]));
    assert!(!is_authenticated(&event));
    let metadata = parse_request_metadata(&event).unwrap();
    assert!(!metadata.is_authenticated);
    assert_eq!(metadata.user_sub, None);
}

#[test]
fn test_non_string_username_does_not_authenticate() {
    let event = base_event(Some(vec![(
        "cognito:username".to_string(),
        ClaimValue::Other,
    )]));
    assert!(!is_authenticated(&event));
}

#[test]
fn test_no_claims_block_is_anonymous() {
    let event = base_event(None);
    let metadata = parse_request_metadata(&event).unwrap();
    assert!(!metadata.is_authenticated);
    assert!(!metadata.is_admin);
    assert_eq!(metadata.user_sub, None);
}

#[test]
fn test_empty_claims_block_is_unauthenticated() {
    let event = base_event(Some(Vec::new()));
    let metadata = parse_request_metadata(&event).unwrap();
    assert!(!metadata.is_authenticated);
    assert!(!metadata.is_admin);
    assert_eq!(metadata.user_sub, None);
}

fn groups_event(groups: &str) -> RequestEvent {
    base_event(Some(vec![(
        "cognito:groups".to_string(),
        ClaimValue::Text(groups.to_string()),
    )]))
}

#[test]
fn test_is_admin_exact_token() {
    assert!(is_admin(&groups_event("admin")));
    assert!(is_admin(&groups_event("users,admin")));
    assert!(is_admin(&groups_event("admin,users")));
    assert!(is_admin(&groups_event("a,admin,b")));
}

#[test]
fn test_is_admin_rejects_substring_matches() {
    assert!(!is_admin(&groups_event("administrator")));
    assert!(!is_admin(&groups_event("superadmin")));
    assert!(!is_admin(&groups_event("superadmin,administrators")));
    assert!(!is_admin(&groups_event("")));
    assert!(!is_admin(&groups_event("adm,in")));
}

#[test]
fn test_is_admin_needs_string_groups() {
    let event = base_event(Some(vec![("cognito:groups".to_string(), ClaimValue::Other)]));
    assert!(!is_admin(&event));
    assert!(!is_admin(&base_event(None)));
    assert!(!is_admin(&base_event(Some(Vec::new()))));
}

#[test]
fn test_admin_without_username_is_not_authenticated() {
    let event = groups_event("admin");
    let metadata = parse_request_metadata(&event).unwrap();
    assert!(metadata.is_admin);
    assert!(!metadata.is_authenticated);
}

#[test]
fn test_authenticated_without_sub_is_internal_failure() {
    let event = base_event(Some(vec![(
        "cognito:username".to_string(),
        ClaimValue::Text("SomeUser".to_string()),
    )]));
    let failure = parse_request_metadata(&event).unwrap_err();
    assert!(matches!(
        failure.behaviour,
        gateway_core::FailureBehaviour::ReturnInternalServerError
    ));
    assert!(failure.message.contains("sub"));
}

#[test]
fn test_authenticated_with_non_string_sub_is_internal_failure() {
    let event = base_event(Some(vec![
        (
            "cognito:username".to_string(),
            ClaimValue::Text("SomeUser".to_string()),
        ),
        ("sub".to_string(), ClaimValue::Other),
    ]));
    let failure = parse_request_metadata(&event).unwrap_err();
    assert!(matches!(
        failure.behaviour,
        gateway_core::FailureBehaviour::ReturnInternalServerError
    ));
    assert_eq!(failure.message, "authorizer claims sub was not a string");
}
