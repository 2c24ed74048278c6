use model_gateway::config::ModelConfig;
use model_gateway::spawn::{plan_spawn, SpawnError};
use model_gateway::supervisor::Supervisor;

fn config(name: &str, port: u16) -> ModelConfig {
    ModelConfig {
        name: name.to_string(),
        port,
        path: format!("/opt/models/{}", name),
        sub_route: None,
    }
}

#[test]
fn shutdown_signals_every_child_exactly_once() {
    let mut sup = Supervisor::new();
    sup.register("alpha".to_string(), 50051);
    sup.register("beta".to_string(), 50052);
    sup.register("gamma".to_string(), 50053);
    assert_eq!(sup.len(), 3);
    let kills = sup.shutdown();
    assert_eq!(sup.len(), 3);
    assert_eq!(kills, vec![0, 1, 2]);
    // Every child is already signalled: a second shutdown signals nobody.
    let again = sup.shutdown();
    assert!(again.is_empty());
}

#[test]
fn spawn_command_runs_the_entry_point_with_the_port() {
    let cmd = plan_spawn(&config("alpha", 50051), true, true).unwrap();
    assert_eq!(cmd.program, "/opt/models/alpha/venv/bin/python");
    assert_eq!(
        cmd.args,
        vec![
            "/opt/models/alpha/grpc_server.py".to_string(),
            "--port".to_string(),
            "50051".to_string()
        ]
    );
}

#[test]
fn missing_interpreter_refuses_the_spawn_with_its_path() {
    match plan_spawn(&config("alpha", 50051), false, true) {
        Err(SpawnError::MissingDependency(p)) => {
            assert_eq!(p, "/opt/models/alpha/venv/bin/python")
        },
        Ok(_) => panic!("spawn must be refused"),
    }
}

#[test]
fn missing_entry_point_refuses_the_spawn_with_its_path() {
    match plan_spawn(&config("alpha", 50051), true, false) {
        Err(SpawnError::MissingDependency(p)) => {
            assert_eq!(p, "/opt/models/alpha/grpc_server.py")
        },
        Ok(_) => panic!("spawn must be refused"),
    }
}
