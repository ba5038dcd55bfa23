use std::cell::Cell;

use gateway_core::AccessLevel;
use gateway_core::ClaimValue;
use gateway_core::CrudRoute;
use gateway_core::FailureBehaviour;
use gateway_core::FunctionRoute;
use gateway_core::HttpMethod;
use gateway_core::RequestEvent;
use gateway_core::RequestMetadata;
use gateway_core::RoutingConfig;
use gateway_core::allowed;
use gateway_core::build_error;
use gateway_core::resolve_route;

fn event(method: HttpMethod, key: &str, claims: Option<Vec<(String, ClaimValue)>>) -> RequestEvent {
    RequestEvent {
        method,
        path: Some(key.to_string()),
        route_key: Some(key.to_string()),
        body: None,
        query_params: Vec::new(),
        claims,
    }
}

fn authenticated_claims(groups: Option<&str>) -> Option<Vec<(String, ClaimValue)>> {
    let mut claims = vec![
        (
            "cognito:username".to_string(),
            ClaimValue::Text("SomeUser".to_string()),
        ),
        ("sub".to_string(), ClaimValue::Text("some-sub".to_string())),
    ];
    if let Some(groups) = groups {
        claims.push((
            "cognito:groups".to_string(),
            ClaimValue::Text(groups.to_string()),
        ));
    }
    Some(claims)
}

fn identity(is_authenticated: bool, is_admin: bool) -> RequestMetadata {
    RequestMetadata {
        is_authenticated,
        is_admin,
        user_sub: if is_authenticated {
            Some("some-sub".to_string())
        } else {
            None
        },
    }
}

#[test]
fn test_allowed_guest_admits_everyone() {
    assert!(allowed(AccessLevel::Guest, &identity(false, false)));
    assert!(allowed(AccessLevel::Guest, &identity(true, false)));
    assert!(allowed(AccessLevel::Guest, &identity(true, true)));
    assert!(allowed(AccessLevel::Guest, &identity(false, true)));
}

#[test]
fn test_allowed_user_needs_authentication() {
    assert!(!allowed(AccessLevel::User, &identity(false, false)));
    assert!(allowed(AccessLevel::User, &identity(true, false)));
}

#[test]
fn test_allowed_admin_needs_both() {
    assert!(allowed(AccessLevel::Admin, &identity(true, true)));
    assert!(!allowed(AccessLevel::Admin, &identity(true, false)));
    assert!(!allowed(AccessLevel::Admin, &identity(false, true)));
    assert!(!allowed(AccessLevel::Admin, &identity(false, false)));
}

#[test]
fn test_allowed_forbidden_denies_everyone() {
    assert!(!allowed(AccessLevel::Forbidden, &identity(true, true)));
    assert!(!allowed(AccessLevel::Forbidden, &identity(false, false)));
}

#[test]
fn test_unknown_route_is_forwarded_not_500_or_401() {
    let config: RoutingConfig<i32> = RoutingConfig::new();
    let request = event(HttpMethod::Get, "unknown", None);
    let failure = resolve_route(&config, &request).unwrap_err();
    assert!(matches!(
        failure.behaviour,
        FailureBehaviour::LogWarningForwardToClient
    ));

    assert_eq!(failure.message, "Route 'unknown' does not exist.");
    let translated = build_error(failure);
    assert_eq!(translated.response.status_code, 200);
    let body: serde_json::Value = serde_json::from_str(&translated.response.body).unwrap();
    assert_eq!(body["ok"].as_bool().unwrap(), false);
    assert!(body["error"].as_str().unwrap().contains("unknown"));
    assert_eq!(
        body["error"].as_str().unwrap(),
        "Route 'unknown' does not exist."
    );
}

#[test]
fn test_admin_route_refuses_non_admin_and_never_invokes_handler() {
    let calls = Cell::new(0u32);
    let handler: Box<dyn Fn()> = Box::new(|| calls.set(calls.get() + 1));
    let mut config: RoutingConfig<Box<dyn Fn() + '_>> = RoutingConfig::new();
    assert!(config.register_function_route(
        "secrets".to_string(),
        FunctionRoute {
            access_level: AccessLevel::Admin,
            handler,
        },
    ));

    let request = event(HttpMethod::Post, "secrets", authenticated_claims(Some("users")));
    match resolve_route(&config, &request) {
        Ok((handler, _metadata)) => handler(),
        Err(failure) => {
            assert!(matches!(failure.behaviour, FailureBehaviour::ReturnUnauthorized));
            let translated = build_error(failure);
            assert_eq!(translated.response.status_code, 401);
            assert!(translated
                .response
                .body
                .contains("the request was not properly authenticated"));
        }
    }
    assert_eq!(calls.get(), 0);
}

#[test]
fn test_admin_route_admits_admin() {
    let calls = Cell::new(0u32);
    let handler: Box<dyn Fn()> = Box::new(|| calls.set(calls.get() + 1));
    let mut config: RoutingConfig<Box<dyn Fn() + '_>> = RoutingConfig::new();
    assert!(config.register_function_route(
        "secrets".to_string(),
        FunctionRoute {
            access_level: AccessLevel::Admin,
            handler,
        },
    ));

    let request = event(
        HttpMethod::Post,
        "secrets",
        authenticated_claims(Some("users,admin")),
    );
    let (handler, metadata) = resolve_route(&config, &request).unwrap();
    assert!(metadata.is_authenticated);
    assert!(metadata.is_admin);
    assert_eq!(metadata.user_sub.as_deref(), Some("some-sub"));
    handler();
    assert_eq!(calls.get(), 1);
}

#[test]
fn test_post_widgets_user_level_without_claims_is_401() {
    let mut config: RoutingConfig<i32> = RoutingConfig::new();
    assert!(config.register_crud_route(
        "widgets".to_string(),
        CrudRoute {
            create_access_level: AccessLevel::User,
            read_access_level: AccessLevel::Guest,
            update_access_level: AccessLevel::User,
            delete_access_level: AccessLevel::Admin,
            handler: 7,
        },
    ));

    let request = event(HttpMethod::Post, "widgets", None);
    let failure = resolve_route(&config, &request).unwrap_err();
    assert!(matches!(failure.behaviour, FailureBehaviour::ReturnUnauthorized));
    assert_eq!(failure.message, "Not authorized to access this resource.");
    let translated = build_error(failure);
    assert_eq!(translated.response.status_code, 401);
    assert_eq!(
        translated.response.body,
        gateway_core::constants::unauthorized_error_msg()
    );
    assert!(translated
        .response
        .body
        .contains("the request was not properly authenticated"));
    assert!(!translated.response.body.contains("\"ok\""));
}

#[test]
fn test_crud_route_picks_level_by_verb() {
    let mut config: RoutingConfig<i32> = RoutingConfig::new();
    assert!(config.register_crud_route(
        "widgets".to_string(),
        CrudRoute {
            create_access_level: AccessLevel::User,
            read_access_level: AccessLevel::Guest,
            update_access_level: AccessLevel::User,
            delete_access_level: AccessLevel::Admin,
            handler: 7,
        },
    ));

    // An anonymous read is admitted: the read level is Guest.
    let read = event(HttpMethod::Get, "widgets", None);
    let (handler, metadata) = resolve_route(&config, &read).unwrap();
    assert_eq!(*handler, 7);
    assert!(!metadata.is_authenticated);

    // An anonymous update is refused: the update level is User.
    let update = event(HttpMethod::Put, "widgets", None);
    let failure = resolve_route(&config, &update).unwrap_err();
    assert!(matches!(failure.behaviour, FailureBehaviour::ReturnUnauthorized));

    // A verb outside the four CRUD verbs is served by no route: the
    // failure is the forwarded route-not-found one, never a 401.
    let other = event(HttpMethod::Other, "widgets", authenticated_claims(Some("admin")));
    let failure = resolve_route(&config, &other).unwrap_err();
    assert!(matches!(
        failure.behaviour,
        FailureBehaviour::LogWarningForwardToClient
    ));
    assert_eq!(failure.message, "Route 'widgets' does not exist.");
}

#[test]
fn test_forbidden_slot_on_mapped_verb_still_denies() {
    let mut config: RoutingConfig<i32> = RoutingConfig::new();
    assert!(config.register_crud_route(
        "widgets".to_string(),
        CrudRoute {
            create_access_level: AccessLevel::Guest,
            read_access_level: AccessLevel::Forbidden,
            update_access_level: AccessLevel::Guest,
            delete_access_level: AccessLevel::Guest,
            handler: 7,
        },
    ));

    // An explicitly registered Forbidden slot reached by a mapped verb is
    // an access denial, not a missing route: 401, even for an admin.
    let read = event(HttpMethod::Get, "widgets", authenticated_claims(Some("admin")));
    let failure = resolve_route(&config, &read).unwrap_err();
    assert!(matches!(failure.behaviour, FailureBehaviour::ReturnUnauthorized));
    let translated = build_error(failure);
    assert_eq!(translated.response.status_code, 401);
}

#[test]
fn test_function_route_only_serves_post() {
    let mut config: RoutingConfig<i32> = RoutingConfig::new();
    assert!(config.register_function_route(
        "invoke_me".to_string(),
        FunctionRoute {
            access_level: AccessLevel::Guest,
            handler: 3,
        },
    ));

    let post = event(HttpMethod::Post, "invoke_me", None);
    assert!(resolve_route(&config, &post).is_ok());

    let get = event(HttpMethod::Get, "invoke_me", None);
    let failure = resolve_route(&config, &get).unwrap_err();
    assert!(matches!(
        failure.behaviour,
        FailureBehaviour::LogWarningForwardToClient
    ));
    assert!(failure.message.contains("invoke_me"));
}

#[test]
fn test_inconsistent_identity_stops_dispatch_before_routing() {
    let mut config: RoutingConfig<i32> = RoutingConfig::new();
    assert!(config.register_function_route(
        "open_to_all".to_string(),
        FunctionRoute {
            access_level: AccessLevel::Guest,
            handler: 3,
        },
    ));

    // Authenticated (username present) but no subject: internal
    // inconsistency, reported before any route is considered, even though
    // the route is Guest-level.
    let mut request = event(HttpMethod::Post, "open_to_all", None);
    request.claims = Some(vec![(
        "cognito:username".to_string(),
        ClaimValue::Text("SomeUser".to_string()),
    )]);
    let failure = resolve_route(&config, &request).unwrap_err();
    assert!(matches!(
        failure.behaviour,
        FailureBehaviour::ReturnInternalServerError
    ));
    let translated = build_error(failure);
    assert_eq!(translated.response.status_code, 500);
}

#[test]
fn test_register_duplicate_key_is_refused() {
    let mut config: RoutingConfig<i32> = RoutingConfig::new();
    assert!(config.register_function_route(
        "dup".to_string(),
        FunctionRoute {
            access_level: AccessLevel::Guest,
            handler: 1,
        },
    ));
    assert!(!config.register_function_route(
        "dup".to_string(),
        FunctionRoute {
            access_level: AccessLevel::Admin,
            handler: 2,
        },
    ));

    // The first registration stands.
    let request = event(HttpMethod::Post, "dup", None);
    let (handler, _) = resolve_route(&config, &request).unwrap();
    assert_eq!(*handler, 1);
}

#[test]
fn test_route_keys_are_case_sensitive() {
    let mut config: RoutingConfig<i32> = RoutingConfig::new();
    assert!(config.register_function_route(
        "Widgets".to_string(),
        FunctionRoute {
            access_level: AccessLevel::Guest,
            handler: 1,
        },
    ));
    let request = event(HttpMethod::Post, "widgets", None);
    assert!(resolve_route(&config, &request).is_err());
}
