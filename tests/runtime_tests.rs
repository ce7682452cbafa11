use pear::ai::{PathDecision, RequestDecision, RequestFeatures, ThreatType};
use pear::runtime::{fd_limit_plan, fd_limit_sufficient, get_deployment_advice, DetectedLanguage, PolyglotAdapter, PolyglotError};
use pear::services::{DashboardState, StorageManager, SyncConfig, SyncCoordinator, TelemetryCollector};
use pear::ai::AiStats;
use pear::router::{Router, RouterConfig};
use pear::supervisor::{Supervisor, SupervisorConfig};

fn listing(names: &[&str]) -> Vec<String> {
    names.iter().map(|n| n.to_string()).collect()
}

#[test]
fn test_runtime_config() {
    let adapter = PolyglotAdapter::new("/tmp/runtimes".to_string());
    let config = adapter.get_runtime_config(&DetectedLanguage::PHP);
    assert_eq!(config.entry_point, "index.php");
    assert_eq!(config.memory_limit_mb, 256);
}

#[test]
fn test_php_detection() {
    let adapter = PolyglotAdapter::new("/tmp/runtimes".to_string());
    assert_eq!(adapter.detect_language(&listing(&["index.php"])), DetectedLanguage::PHP);
}

#[test]
fn test_python_detection() {
    let adapter = PolyglotAdapter::new("/tmp/runtimes".to_string());
    assert_eq!(adapter.detect_language(&listing(&["requirements.txt"])), DetectedLanguage::Python);
}

#[test]
fn test_nodejs_detection() {
    let adapter = PolyglotAdapter::new("/tmp/runtimes".to_string());
    assert_eq!(adapter.detect_language(&listing(&["package.json"])), DetectedLanguage::NodeJS);
}

#[test]
fn test_static_detection() {
    let adapter = PolyglotAdapter::new("/tmp/runtimes".to_string());
    assert_eq!(adapter.detect_language(&listing(&["index.html"])), DetectedLanguage::StaticFiles);
}

#[test]
fn test_polyglot_detection() {
    let adapter = PolyglotAdapter::new("/tmp/runtimes".to_string());
    assert_eq!(adapter.detect_language(&listing(&["index.php"])), DetectedLanguage::PHP);
}

#[test]
fn detection_order_and_extensions() {
    let adapter = PolyglotAdapter::new("/r".to_string());
    assert_eq!(adapter.detect_language(&listing(&["index.html", "lib.php"])), DetectedLanguage::PHP);
    assert_eq!(adapter.detect_language(&listing(&["Gemfile", "index.js"])), DetectedLanguage::NodeJS);
    assert_eq!(adapter.detect_language(&listing(&["config.ru"])), DetectedLanguage::Ruby);
    assert_eq!(adapter.detect_language(&listing(&["about.html"])), DetectedLanguage::StaticFiles);
    assert_eq!(adapter.detect_language(&listing(&[".html", "readme.md"])), DetectedLanguage::Unknown);
    assert_eq!(adapter.detect_language(&listing(&[])), DetectedLanguage::Unknown);
}

#[test]
fn runtime_module_paths() {
    let adapter = PolyglotAdapter::new("/tmp/runtimes".to_string());
    assert_eq!(adapter.get_runtime_wasm(&DetectedLanguage::PHP), Ok("/tmp/runtimes/php-cgi.wasm".to_string()));
    assert_eq!(adapter.get_runtime_wasm(&DetectedLanguage::Unknown), Err(PolyglotError::UnknownLanguage));
    let slash = PolyglotAdapter::new("/opt/rt/".to_string());
    assert_eq!(slash.get_runtime_wasm(&DetectedLanguage::Ruby), Ok("/opt/rt/ruby-wasi.wasm".to_string()));
    let python = adapter.get_runtime_config(&DetectedLanguage::Python);
    assert_eq!(python.entry_point, "app.py");
    assert_eq!(python.memory_limit_mb, 512);
    assert!(get_deployment_advice(&DetectedLanguage::StaticFiles).starts_with("Static HTML detected."));
}

#[test]
fn descriptor_limit_policy() {
    assert_eq!(fd_limit_plan(1024, 4096), Some(4096));
    assert_eq!(fd_limit_plan(1024, u64::MAX), Some(1048576));
    assert_eq!(fd_limit_plan(1048576, u64::MAX), None);
    assert!(!fd_limit_sufficient(65535));
    assert!(fd_limit_sufficient(65536));
}

#[test]
fn test_request_features() {
    let features = RequestFeatures {
        method: "GET".to_string(),
        path: "/api/users".to_string(),
        query_params: vec![],
        headers: vec![],
        body_size: 0,
        source_ip: "127.0.0.1".to_string(),
    };
    assert_eq!(features.path, "/api/users");
}

#[test]
fn classifier_verdicts() {
    assert!(RequestDecision::Allow.is_allowed());
    assert_eq!(RequestDecision::Allow.veto_status(), None);
    assert_eq!(RequestDecision::RateLimited { retry_after_ms: 1 }.veto_status(), Some(429));
    assert_ne!(ThreatType::Xss, ThreatType::SqlInjection);
    assert_ne!(PathDecision::Safe, PathDecision::Banned);
}

#[test]
fn test_sync_coordinator_creation() {
    let coordinator = SyncCoordinator::new(SyncConfig::default());
    let stats = coordinator.stats();
    assert_eq!(stats.total_syncs, 0);
    assert!(!stats.is_running);
}

#[test]
fn sync_coordinator_runs_once() {
    let mut coordinator = SyncCoordinator::new(SyncConfig::default());
    assert!(coordinator.start());
    assert!(!coordinator.start());
    coordinator.record_sync();
    coordinator.stop();
    let stats = coordinator.stats();
    assert_eq!(stats.total_syncs, 1);
    assert!(!stats.is_running);
}

#[test]
fn telemetry_uptime() {
    let t = TelemetryCollector::new(1000);
    assert_eq!(t.uptime_seconds(4999), 3);
    assert_eq!(t.uptime_seconds(10), 0);
}

#[test]
fn storage_arithmetic() {
    let storage = StorageManager::new("/var/lib/sites".to_string());
    assert_eq!(storage.usage_mb(3 * 1024 * 1024 + 5), 3);
    assert!(storage.check_quota(10, 10).is_ok());
    assert!(storage.check_quota(11, 10).is_err());
}

#[test]
fn test_dashboard_state_creation() {
    let router = Router::new(RouterConfig::default());
    let supervisor = Supervisor::new(SupervisorConfig::default());
    let state = DashboardState::new(&router, &supervisor, AiStats { threats_detected: 0, anomaly_detection_enabled: true });
    assert_eq!(state.router.total_requests, 0);
    assert_eq!(state.supervisor.supervised_pools, 0);
}
