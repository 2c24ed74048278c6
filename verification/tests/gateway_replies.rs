use model_gateway::config::ModelConfig;
use model_gateway::gateway::{interpret_backend_reply, prepare_request};
use model_gateway::table::build_route_table;

fn one_route_table() -> model_gateway::table::RouteTable<u16> {
    let configs = vec![ModelConfig {
        name: "model".to_string(),
        port: 50051,
        path: "/opt/models/model".to_string(),
        sub_route: None,
    }];
    build_route_table(&configs, vec![50051u16]).unwrap()
}

#[test]
fn valid_body_is_forwarded_in_canonical_form() {
    let table = one_route_table();
    let name = "model".to_string();
    let (channel, payload) = prepare_request(&table, Some(&name), "{\"x\": 1}").unwrap();
    assert_eq!(*channel, 50051);
    // Whitespace is gone: the wrapper really re-serialized the body.
    assert_eq!(payload, "{\"x\":1}");
}

#[test]
fn invalid_body_yields_400_and_no_forwarding() {
    let table = one_route_table();
    let name = "model".to_string();
    let reply = prepare_request(&table, Some(&name), "{\"x\": ").unwrap_err();
    assert_eq!(reply.status, 400);
    assert_eq!(reply.body, "malformed JSON body");
}

#[test]
fn missing_route_name_yields_500() {
    let table = one_route_table();
    let reply = prepare_request(&table, None, "{}").unwrap_err();
    assert_eq!(reply.status, 500);
    assert_eq!(reply.body, "missing route name");
}

#[test]
fn unregistered_key_yields_500() {
    let table = one_route_table();
    let name = "other".to_string();
    let reply = prepare_request(&table, Some(&name), "{}").unwrap_err();
    assert_eq!(reply.status, 500);
    assert_eq!(reply.body, "unknown route key");
}

#[test]
fn config_derived_routes_never_miss() {
    let configs = vec![
        ModelConfig {
            name: "alpha".to_string(),
            port: 50051,
            path: "/opt/models/alpha".to_string(),
            sub_route: None,
        },
        ModelConfig {
            name: "beta".to_string(),
            port: 50052,
            path: "/opt/models/beta".to_string(),
            sub_route: Some("v2".to_string()),
        },
    ];
    let table = build_route_table(&configs, vec![50051u16, 50052]).unwrap();
    for (_, key) in model_gateway::routes::route_bindings(&configs) {
        // A route registered from the configuration always resolves: the
        // unknown-route 500 is unreachable here.
        assert!(prepare_request(&table, Some(&key), "{}").is_ok());
    }
}

#[test]
fn backend_json_is_wrapped_in_the_envelope() {
    let backend = "{\"y\": 2}".to_string();
    let reply = interpret_backend_reply(Some(&backend));
    assert_eq!(reply.status, 200);
    assert_eq!(reply.body, "{\"response\":{\"y\":2}}");
}

#[test]
fn failed_backend_call_yields_500() {
    let reply = interpret_backend_reply(None);
    assert_eq!(reply.status, 500);
    assert_eq!(reply.body, "backend request failed");
}

#[test]
fn non_json_backend_reply_yields_500() {
    let backend = "not json".to_string();
    let reply = interpret_backend_reply(Some(&backend));
    assert_eq!(reply.status, 500);
    assert_eq!(reply.body, "invalid backend response");
}
