//! Tenant resource quotas and their enforcement.
use vstd::prelude::*;
use vstd::string::*;

verus! {

/// Resource limits of one tenant.
#[derive(Debug, Clone, Copy)]
pub struct ResourceQuota {
    pub max_sites: usize,
    pub max_storage_gb: usize,
    pub max_memory_per_cage_mb: usize,
    pub max_cages_per_site: usize,
    pub max_requests_per_second: Option<usize>,
}

impl Default for ResourceQuota {
    /// Five sites, ten gigabytes, 128 MB per Cage, three Cages per site, no rate cap.
    fn default() -> (r: Self)
        ensures
            r.max_sites == 5,
            r.max_storage_gb == 10,
            r.max_memory_per_cage_mb == 128,
            r.max_cages_per_site == 3,
            r.max_requests_per_second.is_none(),
    {
        ResourceQuota {
            max_sites: 5,
            max_storage_gb: 10,
            max_memory_per_cage_mb: 128,
            max_cages_per_site: 3,
            max_requests_per_second: None,
        }
    }
}

/// Lifecycle of a tenant.
#[derive(Debug, Clone, Copy, PartialEq, Eq, Structural)]
pub enum TenantStatus {
    Active,
    Suspended,
    Deleted,
}

/// What a tenant currently uses.
#[derive(Debug, Clone, Copy, PartialEq, Eq, Structural)]
pub struct TenantUsage {
    pub sites_used: usize,
    pub sites_limit: usize,
    pub storage_used_mb: usize,
    pub storage_limit_mb: usize,
    pub cages_running: usize,
}

/// A refused allocation.
#[derive(Debug, Clone, Copy, PartialEq, Eq, Structural)]
pub enum QuotaError {
    /// All sites are used.
    SiteQuotaExceeded { used: usize, limit: usize },
    /// The allocation would pass the storage limit.
    StorageQuotaExceeded { limit_mb: usize },
    /// The site runs as many Cages as allowed.
    CageQuotaExceeded { count: usize, limit: usize },
    /// The Cage asks for more memory than allowed.
    MemoryQuotaExceeded { requested_mb: usize, limit_mb: usize },
}

/// Usage in percent, capped at 255.
#[derive(Debug, Clone, Copy, PartialEq, Eq, Structural)]
pub struct QuotaUsagePercentage {
    pub sites: u8,
    pub storage: u8,
}

/// `used` out of `limit` in percent, rounded down and capped at 255; an
/// exhausted zero limit counts as full (255), an unused one as empty.
pub open spec fn percent_of(used: usize, limit: usize) -> u8 {
    if limit == 0 {
        if used == 0 { 0 } else { 255 }
    } else if (100 * used as int) / (limit as int) > 255 {
        255
    } else {
        ((100 * used as int) / (limit as int)) as u8
    }
}

fn percent(used: usize, limit: usize) -> (r: u8)
    ensures
        r == percent_of(used, limit),
{
    if limit == 0 {
        if used == 0 { 0 } else { 255 }
    } else {
        let p: u128 = (used as u128) * 100 / (limit as u128);
        if p > 255 { 255 } else { p as u8 }
    }
}

/// Checks allocations of one tenant against its quota.
#[derive(Debug, Clone, Copy)]
pub struct QuotaEnforcer {
    pub quota: ResourceQuota,
    pub current_usage: TenantUsage,
}

impl QuotaEnforcer {
    /// An enforcer with nothing used yet; the storage limit is the quota in
    /// megabytes.
    pub fn new(quota: ResourceQuota) -> (r: Self)
        requires
            quota.max_storage_gb * 1024 <= usize::MAX,
        ensures
            r.quota == quota,
            r.current_usage == (TenantUsage {
                sites_used: 0,
                sites_limit: quota.max_sites,
                storage_used_mb: 0,
                storage_limit_mb: (quota.max_storage_gb * 1024) as usize,
                cages_running: 0,
            }),
    {
        QuotaEnforcer {
            quota,
            current_usage: TenantUsage {
                sites_used: 0,
                sites_limit: quota.max_sites,
                storage_used_mb: 0,
                storage_limit_mb: quota.max_storage_gb * 1024,
                cages_running: 0,
            },
        }
    }

    /// Refused once every site of the quota is used.
    pub fn can_create_site(&self) -> (r: Result<(), QuotaError>)
        ensures
            r.is_ok() <==> self.current_usage.sites_used < self.quota.max_sites,
            r.is_err() ==> r == Err::<(), QuotaError>(QuotaError::SiteQuotaExceeded {
                used: self.current_usage.sites_used,
                limit: self.quota.max_sites,
            }),
    {
        if self.current_usage.sites_used >= self.quota.max_sites {
            return Err(QuotaError::SiteQuotaExceeded {
                used: self.current_usage.sites_used,
                limit: self.quota.max_sites,
            });
        }
        Ok(())
    }

    /// Refused when `size_mb` more would pass the storage limit.
    pub fn can_allocate_storage(&self, size_mb: usize) -> (r: Result<(), QuotaError>)
        ensures
            r.is_ok() <==> self.current_usage.storage_used_mb + size_mb <= self.current_usage.storage_limit_mb,
            r.is_err() ==> r == Err::<(), QuotaError>(QuotaError::StorageQuotaExceeded {
                limit_mb: self.current_usage.storage_limit_mb,
            }),
    {
        let new_usage: u128 = self.current_usage.storage_used_mb as u128 + size_mb as u128;
        if new_usage > self.current_usage.storage_limit_mb as u128 {
            return Err(QuotaError::StorageQuotaExceeded { limit_mb: self.current_usage.storage_limit_mb });
        }
        Ok(())
    }

    /// Refused once a site runs as many Cages as the quota allows.
    pub fn can_create_cage(&self, site_cage_count: usize) -> (r: Result<(), QuotaError>)
        ensures
            r.is_ok() <==> site_cage_count < self.quota.max_cages_per_site,
            r.is_err() ==> r == Err::<(), QuotaError>(QuotaError::CageQuotaExceeded {
                count: site_cage_count,
                limit: self.quota.max_cages_per_site,
            }),
    {
        if site_cage_count >= self.quota.max_cages_per_site {
            return Err(QuotaError::CageQuotaExceeded { count: site_cage_count, limit: self.quota.max_cages_per_site });
        }
        Ok(())
    }

    /// Refused when a Cage asks for more memory than the quota allows.
    pub fn validate_cage_memory(&self, requested_mb: usize) -> (r: Result<(), QuotaError>)
        ensures
            r.is_ok() <==> requested_mb <= self.quota.max_memory_per_cage_mb,
            r.is_err() ==> r == Err::<(), QuotaError>(QuotaError::MemoryQuotaExceeded {
                requested_mb,
                limit_mb: self.quota.max_memory_per_cage_mb,
            }),
    {
        if requested_mb > self.quota.max_memory_per_cage_mb {
            return Err(QuotaError::MemoryQuotaExceeded { requested_mb, limit_mb: self.quota.max_memory_per_cage_mb });
        }
        Ok(())
    }

    pub fn update_usage(&mut self, usage: TenantUsage)
        ensures
            final(self).quota == old(self).quota,
            final(self).current_usage == usage,
    {
        self.current_usage = usage;
    }

    /// Sites used against the quota and storage used against the limit, in percent.
    pub fn usage_percentage(&self) -> (r: QuotaUsagePercentage)
        ensures
            r.sites == percent_of(self.current_usage.sites_used, self.quota.max_sites),
            r.storage == percent_of(self.current_usage.storage_used_mb, self.current_usage.storage_limit_mb),
    {
        QuotaUsagePercentage {
            sites: percent(self.current_usage.sites_used, self.quota.max_sites),
            storage: percent(self.current_usage.storage_used_mb, self.current_usage.storage_limit_mb),
        }
    }
}

/// A user's role.
#[derive(Debug, Clone, Copy, PartialEq, Eq, Structural)]
pub enum Role {
    RootAdmin,
    TenantAdmin,
}

/// The root administrator's token for this deployment.
pub const ROOT_ADMIN_TOKEN: &'static str = "root_admin_secret_token";

/// Holds the root administrator token.
#[derive(Debug, Clone)]
pub struct AuthManager {
    pub root_admin_token: String,
}

impl AuthManager {
    pub fn new() -> (r: Self)
        ensures
            r.root_admin_token@ == ROOT_ADMIN_TOKEN@,
    {
        AuthManager { root_admin_token: String::from_str(ROOT_ADMIN_TOKEN) }
    }

    /// Whether `token` is the root administrator's.
    pub fn is_root_token(&self, token: &str) -> (r: bool)
        ensures
            r == (token@ == self.root_admin_token@),
    {
        crate::sites::same_text(token, self.root_admin_token.as_str())
    }
}

} // verus!
