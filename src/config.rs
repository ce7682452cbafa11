//! Sections of the server configuration the core reads, with their
//! defaults and checks; certificate management settings.
use vstd::prelude::*;
use vstd::string::*;

verus! {

pub fn default_http2_port() -> (r: u16)
    ensures
        r == 8080,
{
    8080
}

pub fn default_http3_port() -> (r: u16)
    ensures
        r == 8443,
{
    8443
}

pub fn default_dashboard_port() -> (r: u16)
    ensures
        r == 9000,
{
    9000
}

pub fn default_bind_addr() -> (r: String)
    ensures
        r@ == "0.0.0.0"@,
{
    String::from_str("0.0.0.0")
}

pub fn default_replicas() -> (r: usize)
    ensures
        r == 3,
{
    3
}

pub fn default_memory_limit() -> (r: usize)
    ensures
        r == 128,
{
    128
}

pub fn default_cpu_timeout() -> (r: u64)
    ensures
        r == 1000,
{
    1000
}

pub fn default_true() -> (r: bool)
    ensures
        r,
{
    true
}

/// Listening ports and address.
#[derive(Debug, Clone)]
pub struct ServerConfig {
    pub http2_port: u16,
    pub http3_port: u16,
    pub bind_addr: String,
}

impl Default for ServerConfig {
    fn default() -> (r: Self)
        ensures
            r.http2_port == 8080,
            r.http3_port == 8443,
            r.bind_addr@ == "0.0.0.0"@,
    {
        ServerConfig {
            http2_port: default_http2_port(),
            http3_port: default_http3_port(),
            bind_addr: default_bind_addr(),
        }
    }
}

/// Automatic certificate settings.
#[derive(Debug, Clone)]
pub struct SslConfig {
    pub auto_cert: bool,
    pub email: Option<String>,
    pub domains: Vec<String>,
}

impl Default for SslConfig {
    fn default() -> (r: Self)
        ensures
            !r.auto_cert,
            r.email.is_none(),
            r.domains@.len() == 0,
    {
        SslConfig { auto_cert: false, email: None, domains: Vec::new() }
    }
}

/// Cage defaults.
#[derive(Debug, Clone, Copy)]
pub struct CagesConfig {
    pub default_replicas: usize,
    pub memory_limit_mb: usize,
    pub cpu_timeout_ms: u64,
}

impl Default for CagesConfig {
    fn default() -> (r: Self)
        ensures
            r.default_replicas == 3,
            r.memory_limit_mb == 128,
            r.cpu_timeout_ms == 1000,
    {
        CagesConfig {
            default_replicas: default_replicas(),
            memory_limit_mb: default_memory_limit(),
            cpu_timeout_ms: default_cpu_timeout(),
        }
    }
}

/// Administration dashboard settings.
#[derive(Debug, Clone, Copy)]
pub struct DashboardConfig {
    pub port: u16,
    pub enabled: bool,
}

impl Default for DashboardConfig {
    fn default() -> (r: Self)
        ensures
            r.port == 9000,
            r.enabled,
    {
        DashboardConfig { port: default_dashboard_port(), enabled: default_true() }
    }
}

/// A rejected configuration section.
#[derive(Debug, Clone, Copy, PartialEq, Eq, Structural)]
pub enum SettingsError {
    ZeroHttp2Port,
    ZeroHttp3Port,
    ZeroDashboardPort,
    ZeroReplicas,
    /// Cages get less than sixteen megabytes.
    MemoryTooSmall,
    /// Automatic certificates need a contact email.
    MissingEmail,
    /// Automatic certificates need at least one domain.
    MissingDomains,
}

/// The first error of the sections, checked in this order: ports, Cage
/// defaults, certificate settings.
pub open spec fn spec_sections_error(
    server: ServerConfig,
    ssl: SslConfig,
    cages: CagesConfig,
    dashboard: DashboardConfig,
) -> Option<SettingsError> {
    if server.http2_port == 0 {
        Some(SettingsError::ZeroHttp2Port)
    } else if server.http3_port == 0 {
        Some(SettingsError::ZeroHttp3Port)
    } else if dashboard.port == 0 {
        Some(SettingsError::ZeroDashboardPort)
    } else if cages.default_replicas == 0 {
        Some(SettingsError::ZeroReplicas)
    } else if cages.memory_limit_mb < 16 {
        Some(SettingsError::MemoryTooSmall)
    } else if ssl.auto_cert && ssl.email.is_none() {
        Some(SettingsError::MissingEmail)
    } else if ssl.auto_cert && ssl.domains@.len() == 0 {
        Some(SettingsError::MissingDomains)
    } else {
        None
    }
}

/// Checks the sections the core relies on (see `spec_sections_error`).
pub fn validate_sections(
    server: &ServerConfig,
    ssl: &SslConfig,
    cages: &CagesConfig,
    dashboard: &DashboardConfig,
) -> (r: Result<(), SettingsError>)
    ensures
        match spec_sections_error(*server, *ssl, *cages, *dashboard) {
            None => r.is_ok(),
            Some(e) => r == Err::<(), SettingsError>(e),
        },
{
    if server.http2_port == 0 {
        return Err(SettingsError::ZeroHttp2Port);
    }
    if server.http3_port == 0 {
        return Err(SettingsError::ZeroHttp3Port);
    }
    if dashboard.port == 0 {
        return Err(SettingsError::ZeroDashboardPort);
    }
    if cages.default_replicas == 0 {
        return Err(SettingsError::ZeroReplicas);
    }
    if cages.memory_limit_mb < 16 {
        return Err(SettingsError::MemoryTooSmall);
    }
    if ssl.auto_cert {
        if ssl.email.is_none() {
            return Err(SettingsError::MissingEmail);
        }
        if ssl.domains.len() == 0 {
            return Err(SettingsError::MissingDomains);
        }
    }
    Ok(())
}

/// Certificate manager settings.
#[derive(Debug, Clone)]
pub struct AcmeManager {
    pub email: String,
    pub domains: Vec<String>,
}

impl AcmeManager {
    pub fn new(email: String, domains: Vec<String>) -> (r: Self)
        ensures
            r.email == email,
            r.domains == domains,
    {
        AcmeManager { email, domains }
    }

    /// Whether the certificate is due for renewal. No certificate is
    /// provisioned by this manager, so none is ever due.
    pub fn needs_renewal(&self) -> (r: bool)
        ensures
            !r,
    {
        false
    }
}

/// Network listener settings.
#[derive(Debug, Clone)]
pub struct NetworkConfig {
    pub http2_port: u16,
    pub http3_port: u16,
    pub bind_addr: String,
    pub tcp_send_buffer_size: usize,
    pub tcp_recv_buffer_size: usize,
    pub http2_max_concurrent_streams: u32,
    pub http3_max_concurrent_streams: u64,
    pub quic_idle_timeout_ms: u64,
    pub tcp_nodelay: bool,
    pub so_reuseaddr: bool,
    pub so_reuseport: bool,
}

impl Default for NetworkConfig {
    /// Unprivileged development ports, 2 MiB socket buffers, a thousand
    /// streams per connection, thirty seconds of QUIC idle time.
    fn default() -> (r: Self)
        ensures
            r.http2_port == 8080,
            r.http3_port == 8443,
            r.bind_addr@ == "0.0.0.0"@,
            r.tcp_send_buffer_size == 2 * 1048576,
            r.tcp_recv_buffer_size == 2 * 1048576,
            r.http2_max_concurrent_streams == 1000,
            r.http3_max_concurrent_streams == 1000,
            r.quic_idle_timeout_ms == 30000,
            r.tcp_nodelay && r.so_reuseaddr && r.so_reuseport,
    {
        NetworkConfig {
            http2_port: 8080,
            http3_port: 8443,
            bind_addr: String::from_str("0.0.0.0"),
            tcp_send_buffer_size: 2 * 1024 * 1024,
            tcp_recv_buffer_size: 2 * 1024 * 1024,
            http2_max_concurrent_streams: 1000,
            http3_max_concurrent_streams: 1000,
            quic_idle_timeout_ms: 30000,
            tcp_nodelay: true,
            so_reuseaddr: true,
            so_reuseport: true,
        }
    }
}

impl NetworkConfig {
    /// The defaults on the privileged ports 80 and 443.
    pub fn production() -> (r: Self)
        ensures
            r.http2_port == 80,
            r.http3_port == 443,
            r.bind_addr@ == "0.0.0.0"@,
            r.tcp_send_buffer_size == 2 * 1048576,
            r.tcp_recv_buffer_size == 2 * 1048576,
            r.http2_max_concurrent_streams == 1000,
            r.http3_max_concurrent_streams == 1000,
            r.quic_idle_timeout_ms == 30000,
            r.tcp_nodelay && r.so_reuseaddr && r.so_reuseport,
    {
        let base = NetworkConfig::default();
        NetworkConfig { http2_port: 80, http3_port: 443, ..base }
    }
}

} // verus!
