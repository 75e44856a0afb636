use rinha::api::config::Config as ApiConfig;
use rinha::env::{ConfigError, EnvVar};
use rinha::worker::config::Config as WorkerConfig;

fn some(s: &str) -> Option<String> {
    Some(s.to_string())
}

#[test]
fn api_config_from_complete_environment() {
    let config = ApiConfig::from_vars(
        some("9999"),
        some("db"),
        some("5432"),
        some("rinha"),
        some("postgres"),
        some("secret"),
        some("redis://cache:6379"),
    )
    .unwrap();
    assert_eq!(config.api_port, 9999);
    assert_eq!(config.postgres.host, "db");
    assert_eq!(config.postgres.port, 5432);
    assert_eq!(config.postgres.db, "rinha");
    assert_eq!(config.postgres.user, "postgres");
    assert_eq!(config.postgres.password, "secret");
    assert_eq!(config.redis.url, "redis://cache:6379");
}

#[test]
fn api_config_refuses_first_bad_variable() {
    let e = ApiConfig::from_vars(None, None, None, None, None, None, None).unwrap_err();
    assert_eq!(e, ConfigError::Missing(EnvVar::ApiPort));
    let e = ApiConfig::from_vars(some("http"), None, None, None, None, None, None).unwrap_err();
    assert_eq!(e, ConfigError::InvalidPort(EnvVar::ApiPort));
    let e = ApiConfig::from_vars(some("80"), None, some("x"), None, None, None, None).unwrap_err();
    assert_eq!(e, ConfigError::Missing(EnvVar::PostgresHost));
    let e = ApiConfig::from_vars(some("80"), some("h"), some("70000"), None, None, None, None).unwrap_err();
    assert_eq!(e, ConfigError::InvalidPort(EnvVar::PostgresPort));
    let e = ApiConfig::from_vars(some("80"), some("h"), some("1"), some("d"), some("u"), some("p"), None).unwrap_err();
    assert_eq!(e, ConfigError::Missing(EnvVar::RedisUrl));
    assert_eq!(e.message(), "REDIS_URL env must be set");
    assert_eq!(
        ConfigError::InvalidPort(EnvVar::ApiPort).message(),
        "API_PORT env must be a valid u16"
    );
}

#[test]
fn worker_config_from_complete_environment() {
    let config = WorkerConfig::from_vars(
        some("http://pp-default:8080"),
        some("http://pp-fallback:8080"),
        some("db"),
        some("+5432"),
        some("rinha"),
        some("postgres"),
        some("secret"),
        some("redis://cache"),
    )
    .unwrap();
    assert_eq!(config.payment_processor_default_url, "http://pp-default:8080");
    assert_eq!(config.payment_processor_fallback_url, "http://pp-fallback:8080");
    assert_eq!(config.postgres_port, 5432);
    assert_eq!(config.redis_url, "redis://cache");
}

#[test]
fn worker_config_refuses_first_bad_variable() {
    let e = WorkerConfig::from_vars(None, None, None, None, None, None, None, None).unwrap_err();
    assert_eq!(e, ConfigError::Missing(EnvVar::PaymentProcessorDefaultUrl));
    assert_eq!(e.message(), "PAYMENT_PROCESSOR_DEFAULT_URL env must be set");
    let e = WorkerConfig::from_vars(some("a"), None, None, None, None, None, None, None).unwrap_err();
    assert_eq!(e, ConfigError::Missing(EnvVar::PaymentProcessorFallbackUrl));
    let e = WorkerConfig::from_vars(some("a"), some("b"), some("c"), some("-1"), None, None, None, None)
        .unwrap_err();
    assert_eq!(e, ConfigError::InvalidPort(EnvVar::PostgresPort));
    assert_eq!(e.message(), "POSTGRES_PORT env must be a valid u16");
}
