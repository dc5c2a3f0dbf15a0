//! The dispatcher's computing half: query gating, URL resolution, the
//! fixed search body, the response envelope, and status classification.

use knife::config::KnifeConfig;
use knife::errors::KnifeError;
use knife::request::{
    dispatch_result, prepare_get, prepare_post, query_params, search_request_body,
    ChefServerResponse,
};
use knife::status::{classify, Outcome};

fn test_config() -> KnifeConfig {
    KnifeConfig {
        node_name: "bob".to_string(),
        client_key: "/tmp/bob.pem".to_string(),
        chef_server_url: "https://chef.example.org/organizations/org1".to_string(),
        organization: "org1".to_string(),
    }
}

fn test_pem() -> String {
    let rsa = openssl::rsa::Rsa::generate(2048).unwrap();
    String::from_utf8(rsa.private_key_to_pem().unwrap()).unwrap()
}

#[test]
fn empty_query_yields_no_parameters() {
    assert!(query_params("").is_empty());
}

#[test]
fn nonempty_query_yields_fixed_pagination() {
    let params = query_params("role:web");
    assert_eq!(
        params,
        vec![
            ("q".to_string(), "role:web".to_string()),
            ("start".to_string(), "0".to_string()),
            ("rows".to_string(), "1000".to_string()),
        ]
    );
}

#[test]
fn classify_maps_the_table() {
    assert_eq!(classify(200), Outcome::Success);
    assert_eq!(classify(400), Outcome::InvalidRequest);
    assert_eq!(classify(401), Outcome::AuthenticationFailed);
    assert_eq!(classify(403), Outcome::PermissionDenied);
    assert_eq!(classify(404), Outcome::NotFound);
    assert_eq!(classify(406), Outcome::UnacceptableContentType);
}

#[test]
fn classify_unmapped_codes_carry_the_code() {
    for code in [0u16, 100, 201, 301, 402, 405, 407, 418, 500, 503, u16::MAX] {
        assert_eq!(classify(code), Outcome::GenericServerError(code));
    }
}

#[test]
fn dispatch_keeps_any_status_unchanged() {
    let r = dispatch_result(Ok((404, "not found".to_string())));
    assert_eq!(
        r,
        Ok(ChefServerResponse { status: 404, body: "not found".to_string() })
    );
}

#[test]
fn dispatch_fails_only_on_transport_failure() {
    let r = dispatch_result(Err("connection refused".to_string()));
    assert_eq!(
        r,
        Err(KnifeError::Transport { detail: "connection refused".to_string() })
    );
}

#[test]
fn search_body_is_the_fixed_projection() {
    let body = search_request_body();
    let value: serde_json::Value = serde_json::from_str(&body).expect("body is JSON");
    let map = value.as_object().unwrap();
    assert_eq!(map.len(), 14);
    assert_eq!(map["node_name"], serde_json::Value::from(vec!["name"]));
    assert_eq!(map["platform"], serde_json::Value::from(vec!["platform"]));
    assert_eq!(map["ipaddress"], serde_json::Value::from(vec!["ipaddress"]));
    assert_eq!(map["run_list"], serde_json::Value::from(vec!["run_list"]));
}

#[test]
fn prepare_get_joins_url_and_gates_query() {
    let env = prepare_get(&test_config(), &test_pem(), "/organizations/org1/nodes", "").unwrap();
    assert_eq!(env.method, "GET");
    assert_eq!(env.url, "https://chef.example.org/organizations/org1/nodes");
    assert!(env.query.is_empty());
    assert!(env.body.is_none());
    assert!(!env.headers.is_empty());
}

#[test]
fn prepare_post_carries_search_body_and_query() {
    let env = prepare_post(
        &test_config(),
        &test_pem(),
        "/organizations/org1/search/node",
        "*:*",
    )
    .unwrap();
    assert_eq!(env.method, "POST");
    assert_eq!(env.body.as_deref(), Some(search_request_body().as_str()));
    assert_eq!(env.query.len(), 3);
    assert_eq!(env.query[1], ("start".to_string(), "0".to_string()));
    assert_eq!(env.query[2], ("rows".to_string(), "1000".to_string()));
}

#[test]
fn prepare_get_reports_unresolvable_url() {
    let mut config = test_config();
    config.chef_server_url = "not a url".to_string();
    let r = prepare_get(&config, &test_pem(), "/organizations/org1/nodes", "");
    assert!(matches!(r, Err(KnifeError::Transport { .. })));
}
