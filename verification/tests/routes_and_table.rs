use model_gateway::config::ModelConfig;
use model_gateway::routes::{route_key, route_path};
use model_gateway::table::{build_route_table, RouteError};

fn config(name: &str, port: u16, sub_route: Option<&str>) -> ModelConfig {
    ModelConfig {
        name: name.to_string(),
        port,
        path: format!("/opt/models/{}", name),
        sub_route: sub_route.map(|s| s.to_string()),
    }
}

#[test]
fn key_without_sub_route_is_the_name() {
    assert_eq!(route_key(&config("resnet", 50051, None)), "resnet");
}

#[test]
fn key_with_sub_route_is_hyphenated() {
    assert_eq!(route_key(&config("resnet", 50051, Some("v2"))), "resnet-v2");
}

#[test]
fn path_appends_predict() {
    assert_eq!(route_path(&config("resnet", 50051, None)), "resnet/predict");
    assert_eq!(route_path(&config("resnet", 50051, Some("v2"))), "resnet-v2/predict");
}

#[test]
fn bindings_pair_each_path_with_its_key() {
    let configs = vec![
        config("alpha", 50051, None),
        config("beta", 50052, Some("fast")),
    ];
    let bindings = model_gateway::routes::route_bindings(&configs);
    assert_eq!(
        bindings,
        vec![
            ("alpha/predict".to_string(), "alpha".to_string()),
            ("beta-fast/predict".to_string(), "beta-fast".to_string()),
        ]
    );
}

#[test]
fn table_holds_one_entry_per_config() {
    let configs = vec![
        config("alpha", 50051, None),
        config("alpha", 50052, Some("fast")),
        config("beta", 50053, None),
    ];
    let table = build_route_table(&configs, vec![50051u16, 50052, 50053]).unwrap();
    assert_eq!(table.lookup(&"alpha".to_string()), Some(&50051));
    assert_eq!(table.lookup(&"alpha-fast".to_string()), Some(&50052));
    assert_eq!(table.lookup(&"beta".to_string()), Some(&50053));
    assert_eq!(table.lookup(&"gamma".to_string()), None);
}

#[test]
fn empty_configuration_builds_an_empty_table() {
    let configs: Vec<ModelConfig> = Vec::new();
    let table = build_route_table::<u16>(&configs, Vec::new()).unwrap();
    assert_eq!(table.lookup(&"anything".to_string()), None);
}

#[test]
fn duplicate_plain_names_are_rejected() {
    let configs = vec![config("alpha", 50051, None), config("alpha", 50052, None)];
    match build_route_table(&configs, vec![1u16, 2]) {
        Err(RouteError::DuplicateKey(k)) => assert_eq!(k, "alpha"),
        Ok(_) => panic!("duplicate keys must be rejected"),
    }
}

#[test]
fn duplicate_name_and_sub_route_pairs_are_rejected() {
    let configs = vec![
        config("alpha", 50051, Some("v1")),
        config("alpha", 50052, Some("v1")),
    ];
    match build_route_table(&configs, vec![1u16, 2]) {
        Err(RouteError::DuplicateKey(k)) => assert_eq!(k, "alpha-v1"),
        Ok(_) => panic!("duplicate keys must be rejected"),
    }
}

#[test]
fn hyphen_collision_across_name_and_sub_route_is_rejected() {
    let configs = vec![
        config("alpha-v1", 50051, None),
        config("alpha", 50052, Some("v1")),
    ];
    match build_route_table(&configs, vec![1u16, 2]) {
        Err(RouteError::DuplicateKey(k)) => assert_eq!(k, "alpha-v1"),
        Ok(_) => panic!("duplicate keys must be rejected"),
    }
}
