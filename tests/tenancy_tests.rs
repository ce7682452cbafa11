use pear::tenancy::{AuthManager, QuotaEnforcer, QuotaError, ResourceQuota, TenantUsage};

#[test]
fn test_site_quota_enforcement() {
    let quota = ResourceQuota { max_sites: 2, ..Default::default() };
    let mut enforcer = QuotaEnforcer::new(quota);
    assert!(enforcer.can_create_site().is_ok());
    enforcer.current_usage.sites_used = 2;
    assert!(enforcer.can_create_site().is_err());
}

#[test]
fn test_storage_quota_enforcement() {
    let quota = ResourceQuota { max_storage_gb: 1, ..Default::default() };
    let enforcer = QuotaEnforcer::new(quota);
    assert!(enforcer.can_allocate_storage(512).is_ok());
    assert!(enforcer.can_allocate_storage(2048).is_err());
}

#[test]
fn test_memory_quota_enforcement() {
    let quota = ResourceQuota { max_memory_per_cage_mb: 128, ..Default::default() };
    let enforcer = QuotaEnforcer::new(quota);
    assert!(enforcer.validate_cage_memory(64).is_ok());
    assert!(enforcer.validate_cage_memory(128).is_ok());
    assert!(enforcer.validate_cage_memory(256).is_err());
}

#[test]
fn test_storage_quota() {
    let quota = ResourceQuota {
        max_sites: 5,
        max_storage_gb: 1,
        max_memory_per_cage_mb: 128,
        max_cages_per_site: 3,
        max_requests_per_second: None,
    };
    let enforcer = QuotaEnforcer::new(quota);
    assert!(enforcer.can_allocate_storage(512).is_ok());
    assert!(enforcer.can_allocate_storage(2048).is_err());
}

#[test]
fn quota_errors_carry_the_numbers() {
    let enforcer = QuotaEnforcer::new(ResourceQuota::default());
    assert_eq!(enforcer.can_create_cage(2), Ok(()));
    assert_eq!(enforcer.can_create_cage(3), Err(QuotaError::CageQuotaExceeded { count: 3, limit: 3 }));
    assert_eq!(
        enforcer.validate_cage_memory(129),
        Err(QuotaError::MemoryQuotaExceeded { requested_mb: 129, limit_mb: 128 })
    );
    assert_eq!(enforcer.can_allocate_storage(10 * 1024), Ok(()));
    assert_eq!(
        enforcer.can_allocate_storage(10 * 1024 + 1),
        Err(QuotaError::StorageQuotaExceeded { limit_mb: 10 * 1024 })
    );
}

#[test]
fn usage_percentages() {
    let mut enforcer = QuotaEnforcer::new(ResourceQuota::default());
    enforcer.update_usage(TenantUsage {
        sites_used: 2,
        sites_limit: 5,
        storage_used_mb: 512,
        storage_limit_mb: 10 * 1024,
        cages_running: 1,
    });
    let p = enforcer.usage_percentage();
    assert_eq!(p.sites, 40);
    assert_eq!(p.storage, 5);
}

#[test]
fn test_auth_manager_creation() {
    let auth = AuthManager::new();
    assert!(!auth.root_admin_token.is_empty());
}

#[test]
fn root_token_is_recognised() {
    let auth = AuthManager::new();
    assert!(auth.is_root_token("root_admin_secret_token"));
    assert!(!auth.is_root_token("root_admin_secret_tokem"));
}
