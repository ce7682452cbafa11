//! Resource limits and capability flags of a single Cage.
use vstd::prelude::*;

verus! {

/// One mebibyte, the smallest memory cap a Cage accepts.
pub const MIN_MEMORY_LIMIT_BYTES: usize = 1048576;

/// Why a Cage configuration was rejected.
#[derive(Debug, Clone, Copy, PartialEq, Eq, Structural)]
pub enum ConfigError {
    /// `memory_limit_bytes` is below one mebibyte.
    MemoryLimitTooSmall,
    /// `cpu_timeout_ms` is zero.
    ZeroCpuTimeout,
    /// `max_concurrent_requests` is zero.
    ZeroConcurrency,
}

/// Configuration for a Cage instance.
#[derive(Debug, Clone)]
pub struct CageConfig {
    /// Hard cap on linear memory, in bytes.
    pub memory_limit_bytes: usize,
    /// Wall-clock budget of one request, in milliseconds.
    pub cpu_timeout_ms: u64,
    /// Upper bound on requests in flight at once.
    pub max_concurrent_requests: usize,
    /// Grants the WASI filesystem capability.
    pub allow_filesystem: bool,
    /// Grants the WASI socket capability.
    pub allow_network: bool,
    /// Host directories handed to the guest when the filesystem is allowed.
    pub preopen_dirs: Vec<String>,
}

impl CageConfig {
    /// The error `validate` reports for this configuration, if any; checks run in field order.
    pub open spec fn spec_error(&self) -> Option<ConfigError> {
        if self.memory_limit_bytes < MIN_MEMORY_LIMIT_BYTES {
            Some(ConfigError::MemoryLimitTooSmall)
        } else if self.cpu_timeout_ms == 0 {
            Some(ConfigError::ZeroCpuTimeout)
        } else if self.max_concurrent_requests == 0 {
            Some(ConfigError::ZeroConcurrency)
        } else {
            None
        }
    }

    /// Same limits, flags and preopened directories.
    pub open spec fn same_as(&self, o: &CageConfig) -> bool {
        &&& self.memory_limit_bytes == o.memory_limit_bytes
        &&& self.cpu_timeout_ms == o.cpu_timeout_ms
        &&& self.max_concurrent_requests == o.max_concurrent_requests
        &&& self.allow_filesystem == o.allow_filesystem
        &&& self.allow_network == o.allow_network
        &&& self.preopen_dirs@.len() == o.preopen_dirs@.len()
        &&& forall|i: int| 0 <= i < self.preopen_dirs@.len() ==> self.preopen_dirs@[i]@ == o.preopen_dirs@[i]@
    }

    /// A copy with the same limits, for a new replica.
    pub fn duplicate(&self) -> (r: CageConfig)
        ensures
            r.same_as(self),
            r.is_valid() == self.is_valid(),
            r.spec_error() == self.spec_error(),
    {
        let mut dirs: Vec<String> = Vec::new();
        let mut i: usize = 0;
        while i < self.preopen_dirs.len()
            invariant
                i <= self.preopen_dirs@.len(),
                dirs@.len() == i,
                forall|k: int| 0 <= k < i ==> dirs@[k]@ == self.preopen_dirs@[k]@,
            decreases self.preopen_dirs@.len() - i,
        {
            dirs.push(self.preopen_dirs[i].clone());
            i = i + 1;
        }
        CageConfig {
            memory_limit_bytes: self.memory_limit_bytes,
            cpu_timeout_ms: self.cpu_timeout_ms,
            max_concurrent_requests: self.max_concurrent_requests,
            allow_filesystem: self.allow_filesystem,
            allow_network: self.allow_network,
            preopen_dirs: dirs,
        }
    }

    /// A configuration that the runtime accepts.
    pub open spec fn is_valid(&self) -> bool {
        self.spec_error().is_none()
    }

    /// Relaxed limits for local development.
    pub fn development() -> (r: Self)
        ensures
            r.memory_limit_bytes == 256 * 1048576,
            r.cpu_timeout_ms == 5000,
            r.max_concurrent_requests == 50,
            r.allow_filesystem,
            r.allow_network,
            r.preopen_dirs@.len() == 0,
            r.is_valid(),
    {
        CageConfig {
            memory_limit_bytes: 256 * 1024 * 1024,
            cpu_timeout_ms: 5000,
            max_concurrent_requests: 50,
            allow_filesystem: true,
            allow_network: true,
            preopen_dirs: Vec::new(),
        }
    }

    /// Strict limits for production.
    pub fn production() -> (r: Self)
        ensures
            r.memory_limit_bytes == 64 * 1048576,
            r.cpu_timeout_ms == 500,
            r.max_concurrent_requests == 200,
            !r.allow_filesystem,
            !r.allow_network,
            r.preopen_dirs@.len() == 0,
            r.is_valid(),
    {
        CageConfig {
            memory_limit_bytes: 64 * 1024 * 1024,
            cpu_timeout_ms: 500,
            max_concurrent_requests: 200,
            allow_filesystem: false,
            allow_network: false,
            preopen_dirs: Vec::new(),
        }
    }

    /// Checks the limits: memory at least one mebibyte, a non-zero timeout and
    /// a non-zero concurrency bound.
    pub fn validate(&self) -> (r: Result<(), ConfigError>)
        ensures
            r.is_ok() <==> self.is_valid(),
            r.is_err() ==> r == Err::<(), ConfigError>(self.spec_error().unwrap()),
    {
        if self.memory_limit_bytes < MIN_MEMORY_LIMIT_BYTES {
            return Err(ConfigError::MemoryLimitTooSmall);
        }
        if self.cpu_timeout_ms == 0 {
            return Err(ConfigError::ZeroCpuTimeout);
        }
        if self.max_concurrent_requests == 0 {
            return Err(ConfigError::ZeroConcurrency);
        }
        Ok(())
    }
}

impl Default for CageConfig {
    /// 128 MiB of memory, one second per request, 100 requests in flight, no capabilities.
    fn default() -> (r: Self)
        ensures
            r.memory_limit_bytes == 128 * 1048576,
            r.cpu_timeout_ms == 1000,
            r.max_concurrent_requests == 100,
            !r.allow_filesystem,
            !r.allow_network,
            r.preopen_dirs@.len() == 0,
            r.is_valid(),
    {
        CageConfig {
            memory_limit_bytes: 128 * 1024 * 1024,
            cpu_timeout_ms: 1000,
            max_concurrent_requests: 100,
            allow_filesystem: false,
            allow_network: false,
            preopen_dirs: Vec::new(),
        }
    }
}

} // verus!
