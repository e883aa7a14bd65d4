use pulsemetrics_backend::config::{AppConfig, Config, DatabaseConfig, Environment, ServerConfig};

#[test]
fn test_environment_parsing() {
    assert_eq!(Environment::from_str("development"), Ok(Environment::Development));
    assert_eq!(Environment::from_str("production"), Ok(Environment::Production));
    assert_eq!(Environment::from_str("test"), Ok(Environment::Test));
}

#[test]
fn test_environment_parsing_ignores_case() {
    // Exercises the lowercase folding: the uppercase spelling only parses
    // because the tag is folded before comparison.
    assert_eq!(Environment::from_str("DEVELOPMENT"), Ok(Environment::Development));
    assert_eq!(Environment::from_str("Production"), Ok(Environment::Production));
    assert_eq!(Environment::from_str("TeSt"), Ok(Environment::Test));
}

#[test]
fn test_environment_parsing_rejects_unknown() {
    assert_eq!(
        Environment::from_str("staging"),
        Err("Unknown environment: staging".to_string())
    );
    assert_eq!(Environment::from_str(""), Err("Unknown environment: ".to_string()));
}

#[test]
fn test_config_holds_snapshot() {
    let config = Config {
        server: ServerConfig { host: "0.0.0.0".to_string(), port: 8000 },
        database: DatabaseConfig {
            url: "postgres://db/analytics".to_string(),
            max_connections: 20,
            min_connections: 5,
            connect_timeout_seconds: 10,
            idle_timeout_seconds: 600,
        },
        app: AppConfig {
            environment: Environment::Development,
            api_key: "dev-api-key-change-in-production".to_string(),
            max_batch_size: 1000,
            buffer_flush_interval_ms: 100,
        },
    };
    assert_eq!(config.server.port, 8000);
    assert_eq!(config.app.max_batch_size, 1000);
    assert_eq!(config.app.environment, Environment::Development);
}
