use kvserver::auth::{generate_secret_key, issue_jwt};
use kvserver::configuration::Configuration;
use kvserver::kvstore::KvStore;
use kvserver::server::{handle_request, Method, Server};

#[test]
fn health_answers_ok() {
    let mut store = KvStore::new();
    let config = Configuration::default();
    let r = handle_request(&mut store, &config, Method::Get, "/health", None, None);
    assert_eq!(r.status, 200);
    assert_eq!(r.body, "OK");
}

#[test]
fn post_then_get_round_trip() {
    let mut store = KvStore::new();
    let config = Configuration::default();

    let posted = handle_request(
        &mut store,
        &config,
        Method::Post,
        "/api/kv",
        None,
        Some(vec![("x".to_string(), "y".to_string())]),
    );
    assert_eq!(posted.status, 201);
    assert_eq!(posted.body, "The specified key was successfully created.");

    let got = handle_request(&mut store, &config, Method::Get, "/api/kv/x", None, None);
    assert_eq!(got.status, 200);
    assert_eq!(got.body, "y");

    let missing = handle_request(&mut store, &config, Method::Get, "/api/kv/missing", None, None);
    assert_eq!(missing.status, 404);
    assert_eq!(missing.body, "The specified key does not exist.");
}

#[test]
fn malformed_body_is_rejected_before_the_store() {
    let mut store = KvStore::new();
    let config = Configuration::default();
    let r = handle_request(&mut store, &config, Method::Post, "/api/kv", None, None);
    assert_eq!(r.status, 400);
    let after = handle_request(&mut store, &config, Method::Get, "/api/kv/x", None, None);
    assert_eq!(after.status, 404);
}

#[test]
fn unmatched_routes_fall_through_to_not_found() {
    let mut store = KvStore::new();
    let config = Configuration::default();
    let no_key = handle_request(&mut store, &config, Method::Get, "/api/kv", None, None);
    assert_eq!(no_key.status, 404);
    let deep = handle_request(&mut store, &config, Method::Get, "/api/kv/a/b", None, None);
    assert_eq!(deep.status, 404);
    let post_key = handle_request(&mut store, &config, Method::Post, "/api/kv/x", None, None);
    assert_eq!(post_key.status, 404);
}

fn enabled_config() -> Configuration {
    let secret_key = generate_secret_key();
    let jwt = issue_jwt(&secret_key, None).unwrap();
    Configuration::new_with_enabled(jwt, secret_key)
}

#[test]
fn unauthorized_without_header() {
    let mut store = KvStore::new();
    let config = enabled_config();
    let r = handle_request(&mut store, &config, Method::Get, "/api/kv/x", None, None);
    assert_eq!(r.status, 401);
}

#[test]
fn health_bypasses_the_gate() {
    let mut store = KvStore::new();
    let config = enabled_config();
    let r = handle_request(&mut store, &config, Method::Get, "/health", None, None);
    assert_eq!(r.status, 200);
    assert_eq!(r.body, "OK");
}

#[test]
fn root_credential_grants_access() {
    let mut store = KvStore::new();
    let config = enabled_config();
    let header = format!("Bearer {}", config.authentication.root_token);

    let posted = handle_request(
        &mut store,
        &config,
        Method::Post,
        "/api/kv",
        Some(header.clone()),
        Some(vec![("x".to_string(), "y".to_string())]),
    );
    assert_eq!(posted.status, 201);

    let got = handle_request(&mut store, &config, Method::Get, "/api/kv/x", Some(header), None);
    assert_eq!(got.status, 200);
    assert_eq!(got.body, "y");
}

#[test]
fn server_serves_through_its_configuration() {
    let server = Server::new(enabled_config());
    let mut store = KvStore::new();
    let denied = server.handle(&mut store, Method::Get, "/api/kv/x", None, None);
    assert_eq!(denied.status, 401);
    let header = format!("Bearer {}", server.configuration.authentication.root_token);
    let allowed = server.handle(&mut store, Method::Get, "/health", Some(header), None);
    assert_eq!(allowed.status, 200);
}
