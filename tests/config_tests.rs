use pear::cage::config::{CageConfig, ConfigError};
use pear::config::{
    default_bind_addr, default_cpu_timeout, default_dashboard_port, default_http2_port, default_http3_port,
    default_memory_limit, default_replicas, default_true, validate_sections, AcmeManager, CagesConfig,
    DashboardConfig, NetworkConfig, ServerConfig, SettingsError, SslConfig,
};

#[test]
fn config_test_default_config() {
    let config = CageConfig::default();
    assert!(config.validate().is_ok());
    assert_eq!(config.memory_limit_bytes, 128 * 1024 * 1024);

    let config = NetworkConfig::default();
    assert_eq!(config.http2_port, 8080);
    assert_eq!(config.http3_port, 8443);
}

#[test]
fn config_test_production_config() {
    let config = CageConfig::production();
    assert!(config.validate().is_ok());
    assert!(!config.allow_filesystem);
    assert!(!config.allow_network);

    let config = NetworkConfig::production();
    assert_eq!(config.http2_port, 80);
    assert_eq!(config.http3_port, 443);
}

#[test]
fn test_validation() {
    let mut config = CageConfig::default();
    config.memory_limit_bytes = 1024;
    assert!(config.validate().is_err());
}

#[test]
fn memory_limit_one_byte_below_a_mebibyte_is_rejected() {
    let mut config = CageConfig::default();
    config.memory_limit_bytes = 1024 * 1024 - 1;
    assert_eq!(config.validate(), Err(ConfigError::MemoryLimitTooSmall));
    config.memory_limit_bytes = 1024 * 1024;
    assert_eq!(config.validate(), Ok(()));
}

#[test]
fn zero_timeout_and_zero_concurrency_are_rejected() {
    let mut config = CageConfig::default();
    config.cpu_timeout_ms = 0;
    assert_eq!(config.validate(), Err(ConfigError::ZeroCpuTimeout));
    let mut config = CageConfig::default();
    config.max_concurrent_requests = 0;
    assert_eq!(config.validate(), Err(ConfigError::ZeroConcurrency));
}

#[test]
fn development_config_is_relaxed() {
    let config = CageConfig::development();
    assert_eq!(config.memory_limit_bytes, 256 * 1024 * 1024);
    assert_eq!(config.cpu_timeout_ms, 5000);
    assert_eq!(config.max_concurrent_requests, 50);
    assert!(config.allow_filesystem && config.allow_network);
}

#[test]
fn duplicate_keeps_the_limits() {
    let mut config = CageConfig::development();
    config.preopen_dirs = vec!["/srv/site".to_string()];
    let copy = config.duplicate();
    assert_eq!(copy.memory_limit_bytes, config.memory_limit_bytes);
    assert_eq!(copy.preopen_dirs, vec!["/srv/site".to_string()]);
}

#[test]
fn test_acme_manager() {
    let manager = AcmeManager::new("admin@example.com".to_string(), vec!["example.com".to_string()]);
    assert!(!manager.needs_renewal());
}

#[test]
fn section_defaults() {
    assert_eq!(default_http2_port(), 8080);
    assert_eq!(default_http3_port(), 8443);
    assert_eq!(default_dashboard_port(), 9000);
    assert_eq!(default_bind_addr(), "0.0.0.0");
    assert_eq!(default_replicas(), 3);
    assert_eq!(default_memory_limit(), 128);
    assert_eq!(default_cpu_timeout(), 1000);
    assert!(default_true());
    let server = ServerConfig::default();
    assert_eq!(server.http2_port, 8080);
    let cages = CagesConfig::default();
    assert_eq!(cages.default_replicas, 3);
    assert_eq!(DashboardConfig::default().port, 9000);
}

#[test]
fn section_validation_errors() {
    let server = ServerConfig::default();
    let ssl = SslConfig::default();
    let cages = CagesConfig::default();
    let dashboard = DashboardConfig::default();
    assert_eq!(validate_sections(&server, &ssl, &cages, &dashboard), Ok(()));

    let mut bad = server.clone();
    bad.http2_port = 0;
    assert_eq!(validate_sections(&bad, &ssl, &cages, &dashboard), Err(SettingsError::ZeroHttp2Port));
    let mut bad = server.clone();
    bad.http3_port = 0;
    assert_eq!(validate_sections(&bad, &ssl, &cages, &dashboard), Err(SettingsError::ZeroHttp3Port));
    let bad_dash = DashboardConfig { port: 0, enabled: true };
    assert_eq!(validate_sections(&server, &ssl, &cages, &bad_dash), Err(SettingsError::ZeroDashboardPort));
    let bad_cages = CagesConfig { default_replicas: 0, ..cages };
    assert_eq!(validate_sections(&server, &ssl, &bad_cages, &dashboard), Err(SettingsError::ZeroReplicas));
    let bad_cages = CagesConfig { memory_limit_mb: 15, ..cages };
    assert_eq!(validate_sections(&server, &ssl, &bad_cages, &dashboard), Err(SettingsError::MemoryTooSmall));
    let bad_ssl = SslConfig { auto_cert: true, email: None, domains: vec!["example.com".to_string()] };
    assert_eq!(validate_sections(&server, &bad_ssl, &cages, &dashboard), Err(SettingsError::MissingEmail));
    let bad_ssl = SslConfig { auto_cert: true, email: Some("a@example.com".to_string()), domains: vec![] };
    assert_eq!(validate_sections(&server, &bad_ssl, &cages, &dashboard), Err(SettingsError::MissingDomains));
}
