use qarax::auth::{is_public_path, request_allowed};
use qarax::config::{
    default_disk_headroom_bytes, default_memory_health_floor_bytes, default_otlp_endpoint, DatabaseSettings,
    Environment, HaSettings, NodeClient, SandboxSettings,
};

#[test]
fn database_connection_strings() {
    let db = DatabaseSettings {
        username: "postgres".to_string(),
        password: "pw".to_string(),
        port: 5432,
        host: "db".to_string(),
        name: "qarax".to_string(),
        max_connections: 10,
    };
    assert_eq!(db.connection_string(), "postgres://postgres:pw@db:5432/qarax");
    assert_eq!(db.connection_string_without_db(), "postgres://postgres:pw@db:5432");
}

#[test]
fn environment_names() {
    assert_eq!(Environment::Local.as_str(), "local");
    assert_eq!(Environment::Production.as_str(), "production");
    assert_eq!(Environment::try_from("LOCAL".to_string()), Ok(Environment::Local));
    assert_eq!(Environment::try_from("Production".to_string()), Ok(Environment::Production));
    assert_eq!(
        Environment::try_from("Staging".to_string()),
        Err("staging is not a supported environment. Use either `local` or `production`.".to_string())
    );
}

#[test]
fn defaults() {
    assert_eq!(default_disk_headroom_bytes(), 10737418240);
    assert_eq!(default_memory_health_floor_bytes(), 1073741824);
    assert_eq!(default_otlp_endpoint(), "http://localhost:4318");
    let ha = HaSettings::default();
    assert!(ha.enabled);
    assert_eq!(ha.failover_grace_seconds, 60);
    assert_eq!(ha.check_interval_seconds, 15);
    assert_eq!(ha.retry_cooldown_seconds, 120);
    let sandbox = SandboxSettings::default();
    assert!(sandbox.ready_watcher_max_attempts > 0);
}

#[test]
fn node_client_addresses() {
    assert_eq!(NodeClient::new("10.0.0.2", 50051).address(), "http://10.0.0.2:50051");
    assert_eq!(NodeClient::from_address("node-1:50051").address(), "http://node-1:50051");
}

#[test]
fn public_paths_and_tokens() {
    assert!(is_public_path("/"));
    assert!(is_public_path("/api-docs/openapi.json"));
    assert!(is_public_path("/swagger-ui/index.html"));
    assert!(!is_public_path("/vms"));
    let tokens = vec!["t1".to_string(), "t2".to_string()];
    assert!(request_allowed(false, "/vms", None, &tokens));
    assert!(request_allowed(true, "/", None, &tokens));
    assert!(!request_allowed(true, "/vms", None, &tokens));
    assert!(!request_allowed(true, "/vms", Some("Basic t1"), &tokens));
    assert!(!request_allowed(true, "/vms", Some("Bearer t3"), &tokens));
    assert!(request_allowed(true, "/vms", Some("Bearer t2"), &tokens));
}

#[test]
fn environment_name_reads_back() {
    for e in [Environment::Local, Environment::Production] {
        assert_eq!(Environment::try_from(e.as_str().to_string()), Ok(e));
    }
}
