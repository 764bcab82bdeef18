//! Distribution of release packages through channels and CDNs.

use vstd::prelude::*;
use std::collections::HashMap;
use crate::error::SemanticError;
use crate::release::packaging::{PackageFormat, PackageInfo};

verus! {

/// Distribution metadata
#[derive(Debug, Default)]
pub struct DistributionMetadata {
    /// Version being distributed
    pub version: String,
    
    /// Distribution assets
    pub assets: Vec<DistributionAsset>,
}

/// Distribution asset
#[derive(Debug, Clone)]
pub struct DistributionAsset {
    /// Asset name
    pub name: String,
    
    /// Asset path
    pub path: String,
    
    /// Asset size
    pub size: u64,
    
    /// Asset checksum
    pub checksum: String,
}

/// Channel credentials
#[derive(Debug, Clone)]
pub struct ChannelCredentials {
    /// API key
    pub api_key: Option<String>,
    
    /// Username
    pub username: Option<String>,
    
    /// Password (encrypted)
    pub password: Option<String>,
}

/// Distribution channel types
#[derive(Debug, Clone)]
pub enum ChannelType {
    /// GitHub Releases
    GitHub {
        owner: String,
        repo: String,
    },
    
    /// GitLab Releases
    GitLab {
        project_id: String,
    },
    
    /// Package repositories
    PackageRepository {
        repository_type: RepositoryType,
        repository_url: String,
    },
    
    /// Container registries
    ContainerRegistry {
        registry_url: String,
        namespace: String,
    },
    
    /// CDN distribution
    Cdn {
        provider: CdnProvider,
        distribution_id: String,
    },
    
    /// S3-compatible storage
    S3Compatible {
        endpoint: String,
        bucket: String,
        region: String,
    },
    
    /// FTP/SFTP server
    Ftp {
        server: String,
        path: String,
        secure: bool,
    },
    
    /// Custom distribution endpoint
    Custom {
        upload_method: String,
        parameters: HashMap<String, String>,
    },
}

/// Repository types
#[derive(Debug, Clone)]
pub enum RepositoryType {
    /// APT repository (Debian/Ubuntu)
    Apt,
    
    /// YUM repository (Red Hat/CentOS)
    Yum,
    
    /// DNF repository (Fedora)
    Dnf,
    
    /// Zypper repository (openSUSE)
    Zypper,
    
    /// Pacman repository (Arch Linux)
    Pacman,
    
    /// Homebrew tap
    Homebrew,
    
    /// Chocolatey repository
    Chocolatey,
    
    /// npm registry
    Npm,
    
    /// PyPI repository
    PyPI,
    
    /// NuGet repository
    NuGet,
    
    /// Maven repository
    Maven,
    
    /// Custom repository
    Custom(String),
}

/// CDN providers
#[derive(Debug, Clone)]
pub enum CdnProvider {
    CloudFront,
    CloudFlare,
    KeyCDN,
    MaxCDN,
    Fastly,
    Azure,
    Google,
    Custom(String),
}

/// Release stages
#[derive(Debug, Clone)]
pub enum ReleaseStage {
    /// Development releases
    Development,
    
    /// Alpha releases
    Alpha,
    
    /// Beta releases
    Beta,
    
    /// Release candidate
    ReleaseCandidate,
    
    /// Stable release
    Stable,
    
    /// Long-term support
    LongTermSupport,
    
    /// Security update
    SecurityUpdate,
    
    /// Hotfix
    Hotfix,
}

/// Authentication types
#[derive(Debug)]
pub enum AuthenticationType {
    /// API token
    ApiToken,
    
    /// OAuth2
    OAuth2,
    
    /// Basic authentication
    BasicAuth,
    
    /// SSH key
    SshKey,
    
    /// AWS credentials
    AwsCredentials,
    
    /// Google Cloud credentials
    GcpCredentials,
    
    /// Azure credentials
    AzureCredentials,
    
    /// Custom authentication
    Custom(String),
}

/// Channel status
#[derive(Debug, Clone)]
pub enum ChannelStatus {
    /// Channel is active
    Active,
    
    /// Channel is inactive
    Inactive,
    
    /// Channel has errors
    Error(String),
    
    /// Channel is under maintenance
    Maintenance,
    
    /// Channel is rate limited
    RateLimited {
        reset_at: u64,
    },
}

/// Validation configuration
#[derive(Debug, Clone)]
pub struct ValidationConfig {
    /// Validate checksums
    pub validate_checksums: bool,
    
    /// Validate signatures
    pub validate_signatures: bool,
    
    /// Scan for viruses
    pub virus_scan: bool,
    
    /// Check file format
    pub format_validation: bool,
    
    /// Custom validation scripts
    pub custom_validators: Vec<String>,
    
    /// Validation timeout
    pub timeout: u64,
}

/// Backoff strategies
#[derive(Debug, Clone)]
pub enum BackoffStrategy {
    Fixed,
    Linear,
    Exponential,
    Jittered,
}

/// Retry conditions
#[derive(Debug, Clone)]
pub enum RetryCondition {
    NetworkError,
    Timeout,
    ServerError,
    RateLimit,
    AuthenticationError,
    Custom(String),
}

/// CDN configuration
#[derive(Debug, Clone)]
pub struct CdnConfig {
    /// CDN provider settings
    pub provider_config: HashMap<String, String>,
    
    /// Custom domains
    pub custom_domains: Vec<String>,
    
    /// SSL/TLS configuration
    pub ssl_config: SslConfig,
    
    /// Geographic restrictions
    pub geo_restrictions: Option<GeoRestrictions>,
    
    /// Access logging
    pub access_logging: bool,
    
    /// Real-time logs
    pub real_time_logs: bool,
}

/// CDN distribution
#[derive(Debug, Clone)]
pub struct CdnDistribution {
    /// Distribution ID
    pub id: String,
    
    /// Distribution domain
    pub domain: String,
    
    /// Origin configuration
    pub origin: OriginConfig,
    
    /// Cache behaviors
    pub behaviors: Vec<CacheBehavior>,
    
    /// Distribution status
    pub status: DistributionStatus,
}

/// Origin configuration
#[derive(Debug, Clone)]
pub struct OriginConfig {
    /// Origin domain
    pub domain: String,
    
    /// Origin path
    pub path: String,
    
    /// Origin protocol
    pub protocol: OriginProtocol,
    
    /// Custom headers
    pub custom_headers: HashMap<String, String>,
    
    /// Connection timeout
    pub connect_timeout: u64,
    
    /// Read timeout
    pub read_timeout: u64,
}

/// Origin protocols
#[derive(Debug, Clone)]
pub enum OriginProtocol {
    Http,
    Https,
    MatchViewer,
}

/// Cache behavior
#[derive(Debug, Clone)]
pub struct CacheBehavior {
    /// Path pattern
    pub path_pattern: String,
    
    /// Cache policy
    pub cache_policy: CachePolicy,
    
    /// Compression
    pub compression: bool,
    
    /// Viewer protocol policy
    pub viewer_protocol: ViewerProtocolPolicy,
    
    /// Allowed HTTP methods
    pub allowed_methods: Vec<HttpMethod>,
}

/// Cache policies
#[derive(Debug, Clone)]
pub enum CachePolicy {
    /// Cache everything
    CacheAll {
        ttl: u64,
    },
    
    /// Cache based on headers
    CacheByHeaders {
        headers: Vec<String>,
        ttl: u64,
    },
    
    /// No caching
    NoCache,
    
    /// Custom policy
    Custom {
        rules: HashMap<String, String>,
    },
}

/// Viewer protocol policies
#[derive(Debug, Clone)]
pub enum ViewerProtocolPolicy {
    AllowAll,
    RedirectToHttps,
    HttpsOnly,
}

/// HTTP methods
#[derive(Debug, Clone)]
pub enum HttpMethod {
    Get,
    Head,
    Options,
    Put,
    Post,
    Patch,
    Delete,
}

/// Distribution status
#[derive(Debug, Clone)]
pub enum DistributionStatus {
    InProgress,
    Deployed,
    Completed,
    Error(String),
}

/// Cache configuration
#[derive(Debug, Clone)]
pub struct CacheConfig {
    /// Default TTL
    pub default_ttl: u64,
    
    /// Maximum TTL
    pub max_ttl: u64,
    
    /// Cache key policy
    pub cache_key_policy: CacheKeyPolicy,
    
    /// Compression settings
    pub compression: CompressionSettings,
    
    /// Invalidation settings
    pub invalidation: InvalidationConfig,
}

/// Cache key policies
#[derive(Debug, Clone)]
pub enum CacheKeyPolicy {
    /// Include all query parameters
    IncludeAll,
    
    /// Include specific parameters
    IncludeSpecific(Vec<String>),
    
    /// Exclude specific parameters
    ExcludeSpecific(Vec<String>),
    
    /// No query parameters
    NoCacheKey,
}

/// Compression settings
#[derive(Debug, Clone)]
pub struct CompressionSettings {
    /// Enable compression
    pub enabled: bool,
    
    /// Compression algorithms
    pub algorithms: Vec<CompressionAlgorithm>,
    
    /// Minimum file size
    pub min_size: u64,
    
    /// File types to compress
    pub file_types: Vec<String>,
}

/// Compression algorithms
#[derive(Debug, Clone)]
pub enum CompressionAlgorithm {
    Gzip,
    Brotli,
    Deflate,
}

/// Invalidation configuration
#[derive(Debug, Clone)]
pub struct InvalidationConfig {
    /// Auto-invalidate on deployment
    pub auto_invalidate: bool,
    
    /// Invalidation patterns
    pub patterns: Vec<String>,
    
    /// Maximum invalidations per hour
    pub max_per_hour: u32,
}

/// SSL configuration
#[derive(Debug, Clone)]
pub struct SslConfig {
    /// SSL certificate source
    pub certificate_source: CertificateSource,
    
    /// Minimum TLS version
    pub min_tls_version: TlsVersion,
    
    /// Security policy
    pub security_policy: SecurityPolicy,
    
    /// HSTS settings
    pub hsts: Option<HstsConfig>,
}

/// Certificate sources
#[derive(Debug, Clone)]
pub enum CertificateSource {
    /// Provider-managed certificate
    ProviderManaged,
    
    /// Custom certificate
    Custom {
        certificate: String,
        private_key: String,
        chain: Option<String>,
    },
    
    /// Let's Encrypt
    LetsEncrypt,
}

/// TLS versions
#[derive(Debug, Clone)]
pub enum TlsVersion {
    Tls10,
    Tls11,
    Tls12,
    Tls13,
}

/// Security policies
#[derive(Debug, Clone)]
pub enum SecurityPolicy {
    Modern,
    Intermediate,
    Legacy,
    Custom(HashMap<String, String>),
}

/// HSTS configuration
#[derive(Debug, Clone)]
pub struct HstsConfig {
    /// Max age in seconds
    pub max_age: u64,
    
    /// Include subdomains
    pub include_subdomains: bool,
    
    /// Preload
    pub preload: bool,
}

/// Geographic restrictions
#[derive(Debug, Clone)]
pub struct GeoRestrictions {
    /// Restriction type
    pub restriction_type: GeoRestrictionType,
    
    /// Country codes
    pub locations: Vec<String>,
}

/// Geographic restriction types
#[derive(Debug, Clone)]
pub enum GeoRestrictionType {
    Allowlist,
    Blocklist,
    Unrestricted,
}

/// Release metadata
#[derive(Debug, Clone)]
pub struct ReleaseMetadata {
    /// Release version
    pub version: String,
    
    /// Release name
    pub name: String,
    
    /// Release description
    pub description: String,
    
    /// Release notes
    pub notes: String,
    
    /// Release timestamp
    pub timestamp: String,
    
    /// Git tag
    pub tag: String,
    
    /// Git commit hash
    pub commit: String,
    
    /// Release assets
    pub assets: Vec<ReleaseAsset>,
    
    /// Release stage
    pub stage: ReleaseStage,
    
    /// Release channels
    pub channels: Vec<String>,
}

/// Release asset
#[derive(Debug, Clone)]
pub struct ReleaseAsset {
    /// Asset name
    pub name: String,
    
    /// Asset URL
    pub url: String,
    
    /// Asset size
    pub size: u64,
    
    /// Asset content type
    pub content_type: String,
    
    /// Asset checksum
    pub checksum: String,
    
    /// Download count
    pub download_count: u64,
}


impl Default for ValidationConfig {
    /// Checksums, signatures and formats checked, no virus scan, a minute.
    fn default() -> (r: Self)
        ensures
            r.validate_checksums,
            r.validate_signatures,
            !r.virus_scan,
            r.format_validation,
            r.custom_validators@.len() == 0,
            r.timeout == 60,
    {
        ValidationConfig {
            validate_checksums: true,
            validate_signatures: true,
            virus_scan: false,
            format_validation: true,
            custom_validators: Vec::new(),
            timeout: 60,
        }
    }
}


impl Default for ChannelStats {
    /// No upload yet.
    fn default() -> (r: Self)
        ensures
            r == (ChannelStats {
                total_uploads: 0,
                successful_uploads: 0,
                failed_uploads: 0,
                bytes_uploaded: 0,
                avg_upload_time: 0,
                last_upload: None,
            }),
    {
        ChannelStats {
            total_uploads: 0,
            successful_uploads: 0,
            failed_uploads: 0,
            bytes_uploaded: 0,
            avg_upload_time: 0,
            last_upload: None,
        }
    }
}

impl Default for UploadConfig {
    /// Files up to 2 GiB in 64 MiB chunks, four at a time, five minutes,
    /// resumed and verified, uncompressed, with their metadata.
    fn default() -> (r: Self)
        ensures
            r.max_file_size == 2 * 1024 * 1024 * 1024,
            r.chunk_size == 64 * 1024 * 1024,
            r.max_concurrent == 4,
            r.timeout == 300,
            r.resume_uploads,
            r.verify_uploads,
            !r.compression,
            r.include_metadata,
    {
        UploadConfig {
            max_file_size: 2 * 1024 * 1024 * 1024,
            chunk_size: 64 * 1024 * 1024,
            max_concurrent: 4,
            timeout: 300,
            resume_uploads: true,
            verify_uploads: true,
            compression: false,
            include_metadata: true,
        }
    }
}

impl Default for RetryConfig {
    /// Three attempts five seconds apart, backing off exponentially, on
    /// network errors, timeouts and server errors.
    fn default() -> (r: Self)
        ensures
            r.max_attempts == 3,
            r.delay == 5,
            r.backoff is Exponential,
            r.retry_on@.len() == 3,
            r.retry_on@[0] is NetworkError,
            r.retry_on@[1] is Timeout,
            r.retry_on@[2] is ServerError,
    {
        RetryConfig {
            max_attempts: 3,
            delay: 5,
            backoff: BackoffStrategy::Exponential,
            retry_on: vec![RetryCondition::NetworkError, RetryCondition::Timeout, RetryCondition::ServerError],
        }
    }
}

/// The MIME type a package of the given format is uploaded with.
pub open spec fn content_type(format: PackageFormat) -> Seq<char> {
    match format {
        PackageFormat::Zip => "application/zip"@,
        PackageFormat::TarGz => "application/gzip"@,
        PackageFormat::TarXz => "application/x-xz"@,
        PackageFormat::Deb => "application/vnd.debian.binary-package"@,
        PackageFormat::Rpm => "application/x-rpm"@,
        PackageFormat::Msi => "application/x-msi"@,
        PackageFormat::Dmg => "application/x-apple-diskimage"@,
        PackageFormat::AppImage => "application/x-executable"@,
        _ => "application/octet-stream"@,
    }
}

/// The MIME type a package of the given format is uploaded with.
pub fn get_content_type(format: &PackageFormat) -> (r: String)
    ensures
        r@ == content_type(*format),
{
    let t = match format {
        PackageFormat::Zip => "application/zip",
        PackageFormat::TarGz => "application/gzip",
        PackageFormat::TarXz => "application/x-xz",
        PackageFormat::Deb => "application/vnd.debian.binary-package",
        PackageFormat::Rpm => "application/x-rpm",
        PackageFormat::Msi => "application/x-msi",
        PackageFormat::Dmg => "application/x-apple-diskimage",
        PackageFormat::AppImage => "application/x-executable",
        _ => "application/octet-stream",
    };
    t.to_owned()
}


/// Channel configuration
#[derive(Debug)]
pub struct ChannelConfig {
    /// Channel name
    pub name: String,

    /// Channel description
    pub description: String,

    /// Channel endpoint URL
    pub endpoint: String,

    /// Supported package formats
    pub supported_formats: Vec<PackageFormat>,

    /// Platform targets
    pub platforms: Vec<String>,

    /// Release stages
    pub stages: Vec<ReleaseStage>,

    /// Upload configuration
    pub upload: UploadConfig,

    /// Validation rules
    pub validation: ValidationConfig,

    /// Retry configuration
    pub retry: RetryConfig,
}

/// Upload configuration
#[derive(Debug)]
pub struct UploadConfig {
    /// Maximum file size
    pub max_file_size: u64,

    /// Chunk size for multipart uploads
    pub chunk_size: u64,

    /// Concurrent uploads
    pub max_concurrent: usize,

    /// Upload timeout
    pub timeout: u64,

    /// Resume failed uploads
    pub resume_uploads: bool,

    /// Verify uploads
    pub verify_uploads: bool,

    /// Compression
    pub compression: bool,

    /// Upload metadata
    pub include_metadata: bool,
}

/// Retry configuration
#[derive(Debug)]
pub struct RetryConfig {
    /// Maximum retry attempts
    pub max_attempts: u32,

    /// Retry delay (seconds)
    pub delay: u64,

    /// Backoff strategy
    pub backoff: BackoffStrategy,

    /// Retry conditions
    pub retry_on: Vec<RetryCondition>,
}

/// Upload statistics of a channel.
#[derive(Debug, Clone, Copy)]
pub struct ChannelStats {
    pub total_uploads: u64,
    pub successful_uploads: u64,
    pub failed_uploads: u64,
    pub bytes_uploaded: u64,
    /// Average upload time, in nanoseconds
    pub avg_upload_time: u64,
    /// Time of the last upload, in seconds since the epoch
    pub last_upload: Option<u64>,
}

/// A distribution channel.
#[derive(Debug)]
pub struct DistributionChannel {
    /// Channel name
    pub name: String,

    /// Channel type
    pub channel_type: ChannelType,

    /// Channel URL or endpoint
    pub url: String,

    /// Channel statistics
    pub stats: ChannelStats,

    /// Channel status
    pub status: ChannelStatus,

    /// Channel-specific options
    pub options: HashMap<String, String>,

    /// Whether the channel is enabled
    pub enabled: bool,

    /// Channel configuration
    pub config: ChannelConfig,

    /// Channel credentials
    pub credentials: Option<ChannelCredentials>,
}

/// Measurements of one distribution; times in seconds since the epoch, the
/// duration in nanoseconds.
#[derive(Debug)]
pub struct DistributionMetrics {
    pub start_time: u64,
    pub end_time: Option<u64>,
    pub duration: Option<u64>,
    pub bytes_transferred: u64,
    pub retry_count: u32,
}

/// The distribution of packages to one channel.
#[derive(Debug)]
pub struct DistributionRecord {
    pub timestamp: u64,
    pub version: String,
    pub channel: String,
    pub status: DistributionStatus,
    pub assets: Vec<String>,
    pub metrics: DistributionMetrics,
    pub error: Option<String>,
}

/// Totals over the distributions made; the average duration in
/// nanoseconds, rounded down.
#[derive(Debug)]
pub struct DistributionStats {
    pub total_distributions: usize,
    pub successful_distributions: usize,
    pub failed_distributions: usize,
    pub total_bytes: u64,
    pub avg_duration: u64,
    pub channel_stats: Vec<ChannelStats>,
}

/// The total size of packages.
pub open spec fn package_bytes(ps: Seq<PackageInfo>) -> nat
    decreases ps.len(),
{
    if ps.len() == 0 { 0 } else { package_bytes(ps.drop_last()) + ps.last().size as nat }
}

/// The channels packages go to: the active ones, in order.
pub open spec fn active_indices(cs: Seq<DistributionChannel>) -> Seq<int>
    decreases cs.len(),
{
    if cs.len() == 0 {
        Seq::empty()
    } else {
        active_indices(cs.drop_last()) + if cs.last().status is Active { seq![cs.len() - 1] } else { Seq::empty() }
    }
}

/// A channel's statistics after an upload of `bytes` at time `now`.
pub open spec fn after_upload(s: ChannelStats, bytes: nat, now: u64) -> ChannelStats {
    ChannelStats {
        total_uploads: (s.total_uploads + 1) as u64,
        successful_uploads: (s.successful_uploads + 1) as u64,
        bytes_uploaded: (s.bytes_uploaded + bytes) as u64,
        last_upload: Some(now),
        ..s
    }
}

/// Whether the statistics of an active channel can count one more upload of
/// `bytes`.
pub open spec fn can_count(c: DistributionChannel, bytes: nat) -> bool {
    c.status is Active ==> c.stats.total_uploads < u64::MAX && c.stats.successful_uploads < u64::MAX
        && c.stats.bytes_uploaded + bytes <= u64::MAX
}

/// The total bytes of distributions.
pub open spec fn history_bytes(h: Seq<DistributionRecord>) -> nat
    decreases h.len(),
{
    if h.len() == 0 { 0 } else { history_bytes(h.drop_last()) + h.last().metrics.bytes_transferred as nat }
}

/// The total recorded duration of distributions.
pub open spec fn history_nanos(h: Seq<DistributionRecord>) -> nat
    decreases h.len(),
{
    if h.len() == 0 {
        0
    } else {
        history_nanos(h.drop_last()) + match h.last().metrics.duration {
            Some(d) => d as nat,
            None => 0,
        }
    }
}

/// The number of distributions that completed.
pub open spec fn completed_count(h: Seq<DistributionRecord>) -> nat
    decreases h.len(),
{
    if h.len() == 0 { 0 } else { completed_count(h.drop_last()) + if h.last().status is Completed { 1nat } else { 0 } }
}

/// The number of distributions that failed.
pub open spec fn failed_count(h: Seq<DistributionRecord>) -> nat
    decreases h.len(),
{
    if h.len() == 0 { 0 } else { failed_count(h.drop_last()) + if h.last().status is Error { 1nat } else { 0 } }
}

/// Distributes packages through channels, keeping the history of what went
/// where and the assets of the release.
pub struct DistributionManager {
    channels: Vec<DistributionChannel>,
    history: Vec<DistributionRecord>,
    metadata: DistributionMetadata,
}

impl DistributionManager {
    /// The channels, in the order they were added.
    pub closed spec fn channels(&self) -> Seq<DistributionChannel> {
        self.channels@
    }

    /// The distributions made so far.
    pub closed spec fn history(&self) -> Seq<DistributionRecord> {
        self.history@
    }

    /// The release's metadata.
    pub closed spec fn metadata(&self) -> DistributionMetadata {
        self.metadata
    }

    /// A manager with no channel, for version 1.0.0.
    pub fn new() -> (r: Self)
        ensures
            r.channels().len() == 0,
            r.history().len() == 0,
            r.metadata().version@ == "1.0.0"@,
            r.metadata().assets@.len() == 0,
    {
        DistributionManager {
            channels: Vec::new(),
            history: Vec::new(),
            metadata: DistributionMetadata { version: "1.0.0".to_owned(), assets: Vec::new() },
        }
    }

    /// The channels, in the order they were added.
    pub fn channels_list(&self) -> (r: &Vec<DistributionChannel>)
        ensures
            r@ == self.channels(),
    {
        &self.channels
    }

    /// The release's metadata.
    pub fn release_metadata(&self) -> (r: &DistributionMetadata)
        ensures
            *r == self.metadata(),
    {
        &self.metadata
    }

    /// Adds an active, enabled channel with no upload yet.
    pub fn add_channel(&mut self, channel_config: ChannelConfig, channel_type: ChannelType) -> (r: Result<(), SemanticError>)
        ensures
            r is Ok,
            final(self).channels().len() == old(self).channels().len() + 1,
            final(self).channels().drop_last() == old(self).channels(),
            ({
                let c = final(self).channels().last();
                &&& c.name@ == channel_config.name@
                &&& c.url@ == channel_config.endpoint@
                &&& c.config == channel_config
                &&& c.channel_type == channel_type
                &&& c.status is Active
                &&& c.enabled
                &&& c.credentials is None
                &&& c.stats == (ChannelStats {
                    total_uploads: 0,
                    successful_uploads: 0,
                    failed_uploads: 0,
                    bytes_uploaded: 0,
                    avg_upload_time: 0,
                    last_upload: None,
                })
            }),
            final(self).history() == old(self).history(),
            final(self).metadata() == old(self).metadata(),
    {
        let channel = DistributionChannel {
            name: channel_config.name.clone(),
            channel_type,
            url: channel_config.endpoint.clone(),
            stats: ChannelStats {
                total_uploads: 0,
                successful_uploads: 0,
                failed_uploads: 0,
                bytes_uploaded: 0,
                avg_upload_time: 0,
                last_upload: None,
            },
            status: ChannelStatus::Active,
            options: HashMap::new(),
            enabled: true,
            config: channel_config,
            credentials: None,
        };
        self.channels.push(channel);
        assert(self.channels@.drop_last() =~= old(self).channels@);
        Ok(())
    }

    /// Records the packages as the release's assets, in order.
    pub fn update_release_metadata(&mut self, packages: &Vec<PackageInfo>) -> (r: Result<(), SemanticError>)
        ensures
            r is Ok,
            final(self).metadata().version == old(self).metadata().version,
            final(self).metadata().assets@.len() == packages@.len(),
            forall|k: int| 0 <= k < packages@.len() ==> {
                let a = #[trigger] final(self).metadata().assets@[k];
                &&& a.name@ == packages@[k].name@
                &&& a.path@ == packages@[k].name@
                &&& a.size == packages@[k].size
                &&& a.checksum@ == packages@[k].checksum@
            },
            final(self).channels() == old(self).channels(),
            final(self).history() == old(self).history(),
    {
        self.metadata.assets = Vec::new();
        let n = packages.len();
        let mut i: usize = 0;
        while i < n
            invariant
                n == packages@.len(),
                i <= n,
                self.metadata.version == old(self).metadata.version,
                self.channels@ == old(self).channels@,
                self.history@ == old(self).history@,
                self.metadata.assets@.len() == i,
                forall|k: int| 0 <= k < i ==> {
                    let a = #[trigger] self.metadata.assets@[k];
                    &&& a.name@ == packages@[k].name@
                    &&& a.path@ == packages@[k].name@
                    &&& a.size == packages@[k].size
                    &&& a.checksum@ == packages@[k].checksum@
                },
            decreases n - i,
        {
            let p = &packages[i];
            self.metadata.assets.push(DistributionAsset {
                name: p.name.clone(),
                path: p.name.clone(),
                size: p.size,
                checksum: p.checksum.clone(),
            });
            i = i + 1;
        }
        Ok(())
    }

    /// Distributes the packages at time `now` to every active channel, in
    /// order: one completed record per channel, lasting a second and
    /// carrying all the packages; each such channel counts the upload; the
    /// packages become the release's assets and the records join the
    /// history.
    pub fn distribute_packages(&mut self, packages: &Vec<PackageInfo>, now: u64) -> (r: Result<
        Vec<DistributionRecord>,
        SemanticError,
    >)
        requires
            now < u64::MAX,
            package_bytes(packages@) <= u64::MAX,
            forall|i: int|
                0 <= i < old(self).channels().len() ==> can_count(#[trigger] old(self).channels()[i], package_bytes(packages@)),
        ensures
            r is Ok,
            ({
                let records = r->Ok_0@;
                let active = active_indices(old(self).channels());
                let h0 = old(self).history().len();
                &&& records.len() == active.len()
                &&& forall|k: int| 0 <= k < records.len() ==> distributed_record(
                    #[trigger] records[k],
                    old(self).channels()[active[k]].config.name@,
                    packages@,
                    now,
                )
                &&& final(self).history().len() == h0 + records.len()
                &&& final(self).history().subrange(0, h0 as int) == old(self).history()
                &&& forall|k: int| 0 <= k < records.len() ==> distributed_record(
                    #[trigger] final(self).history()[h0 + k],
                    old(self).channels()[active[k]].config.name@,
                    packages@,
                    now,
                )
            }),
            final(self).channels().len() == old(self).channels().len(),
            forall|i: int| 0 <= i < old(self).channels().len() ==> #[trigger] final(self).channels()[i] == if old(
                self,
            ).channels()[i].status is Active {
                DistributionChannel {
                    stats: after_upload(old(self).channels()[i].stats, package_bytes(packages@), now),
                    ..old(self).channels()[i]
                }
            } else {
                old(self).channels()[i]
            },
            final(self).metadata().version == old(self).metadata().version,
            final(self).metadata().assets@.len() == packages@.len(),
            forall|k: int| 0 <= k < packages@.len() ==> {
                let a = #[trigger] final(self).metadata().assets@[k];
                &&& a.name@ == packages@[k].name@
                &&& a.path@ == packages@[k].name@
                &&& a.size == packages@[k].size
                &&& a.checksum@ == packages@[k].checksum@
            },
    {
        let ghost bytes_total = package_bytes(packages@);
        let m = packages.len();
        let mut bytes: u64 = 0;
        let mut j: usize = 0;
        while j < m
            invariant
                m == packages@.len(),
                j <= m,
                bytes == package_bytes(packages@.subrange(0, j as int)),
                package_bytes(packages@) <= u64::MAX,
            decreases m - j,
        {
            assert(packages@.subrange(0, j + 1).drop_last() =~= packages@.subrange(0, j as int));
            proof {
                lemma_package_bytes_prefix(packages@, j + 1);
            }
            bytes = bytes + packages[j].size;
            j = j + 1;
        }
        assert(packages@.subrange(0, m as int) =~= packages@);
        let ghost old_channels = self.channels@;
        let ghost h0 = self.history@;
        let mut records: Vec<DistributionRecord> = Vec::new();
        let n = self.channels.len();
        let mut i: usize = 0;
        while i < n
            invariant
                n == old_channels.len(),
                i <= n,
                bytes == bytes_total,
                bytes_total == package_bytes(packages@),
                now < u64::MAX,
                self.channels@.len() == n,
                self.metadata == old(self).metadata,
                old_channels == old(self).channels@,
                h0 == old(self).history@,
                forall|k: int| 0 <= k < n ==> can_count(#[trigger] old_channels[k], bytes_total),
                forall|k: int| i <= k < n ==> #[trigger] self.channels@[k] == old_channels[k],
                forall|k: int| 0 <= k < i ==> #[trigger] self.channels@[k] == if old_channels[k].status is Active {
                    DistributionChannel { stats: after_upload(old_channels[k].stats, bytes_total, now), ..old_channels[k] }
                } else {
                    old_channels[k]
                },
                records@.len() == active_indices(old_channels.subrange(0, i as int)).len(),
                self.history@.len() == h0.len() + records@.len(),
                self.history@.subrange(0, h0.len() as int) == h0,
                forall|k: int| 0 <= k < records@.len() ==> distributed_record(
                    #[trigger] records@[k],
                    old_channels[active_indices(old_channels.subrange(0, i as int))[k]].config.name@,
                    packages@,
                    now,
                ),
                forall|k: int| 0 <= k < records@.len() ==> distributed_record(
                    #[trigger] self.history@[h0.len() + k],
                    old_channels[active_indices(old_channels.subrange(0, i as int))[k]].config.name@,
                    packages@,
                    now,
                ),
            decreases n - i,
        {
            let ghost before = old_channels.subrange(0, i as int);
            assert(old_channels.subrange(0, i + 1).drop_last() =~= before);
            assert(old_channels.subrange(0, i + 1).last() == old_channels[i as int]);
            if let ChannelStatus::Active = self.channels[i].status {
                let record = distribution_record(&self.channels[i].config.name, packages, now, bytes);
                let kept = distribution_record(&self.channels[i].config.name, packages, now, bytes);
                let mut channel = self.channels.remove(i);
                channel.stats.total_uploads = channel.stats.total_uploads + 1;
                channel.stats.successful_uploads = channel.stats.successful_uploads + 1;
                channel.stats.bytes_uploaded = channel.stats.bytes_uploaded + bytes;
                channel.stats.last_upload = Some(now);
                self.channels.insert(i, channel);
                let ghost rb = records@;
                let ghost hb = self.history@;
                records.push(record);
                self.history.push(kept);
                proof {
                    let ai = active_indices(old_channels.subrange(0, i + 1));
                    assert(ai == active_indices(before) + seq![i as int]);
                    assert(self.history@.subrange(0, h0.len() as int) =~= hb.subrange(0, h0.len() as int));
                    assert forall|k: int| 0 <= k < records@.len() implies distributed_record(
                        #[trigger] records@[k],
                        old_channels[ai[k]].config.name@,
                        packages@,
                        now,
                    ) by {
                        if k < rb.len() {
                            assert(records@[k] == rb[k]);
                            assert(ai[k] == active_indices(before)[k]);
                        }
                    }
                    assert forall|k: int| 0 <= k < records@.len() implies distributed_record(
                        #[trigger] self.history@[h0.len() + k],
                        old_channels[ai[k]].config.name@,
                        packages@,
                        now,
                    ) by {
                        if k < rb.len() {
                            assert(self.history@[h0.len() + k] == hb[h0.len() + k]);
                            assert(ai[k] == active_indices(before)[k]);
                        }
                    }
                }
            } else {
                assert(active_indices(old_channels.subrange(0, i + 1)) =~= active_indices(before));
            }
            i = i + 1;
        }
        assert(old_channels.subrange(0, n as int) =~= old_channels);
        let _ = self.update_release_metadata(packages);
        Ok(records)
    }

    /// Totals over the distributions made, and the statistics of each
    /// channel.
    pub fn get_distribution_stats(&self) -> (r: DistributionStats)
        requires
            history_bytes(self.history()) <= u64::MAX,
            history_nanos(self.history()) / 1_000_000_000 <= u64::MAX,
            self.history().len() <= u32::MAX,
        ensures
            r.total_distributions == self.history().len(),
            r.successful_distributions == completed_count(self.history()),
            r.failed_distributions == failed_count(self.history()),
            r.total_bytes == history_bytes(self.history()),
            r.avg_duration == if self.history().len() == 0 {
                0
            } else {
                history_nanos(self.history()) / self.history().len()
            },
            r.channel_stats@ == self.channels().map_values(|c: DistributionChannel| c.stats),
    {
        let h = &self.history;
        let n = h.len();
        let mut ok: usize = 0;
        let mut failed: usize = 0;
        let mut bytes: u64 = 0;
        let mut nanos: u128 = 0;
        let mut i: usize = 0;
        while i < n
            invariant
                n == h@.len(),
                h@ == self.history(),
                i <= n,
                history_bytes(h@) <= u64::MAX,
                n <= u32::MAX,
                nanos <= i as int * (u64::MAX as int),
                ok == completed_count(h@.subrange(0, i as int)),
                failed == failed_count(h@.subrange(0, i as int)),
                bytes == history_bytes(h@.subrange(0, i as int)),
                nanos == history_nanos(h@.subrange(0, i as int)),
                ok <= i,
                failed <= i,
            decreases n - i,
        {
            assert(h@.subrange(0, i + 1).drop_last() =~= h@.subrange(0, i as int));
            proof {
                lemma_history_prefix(h@, i + 1);
            }
            let rec = &h[i];
            if let DistributionStatus::Completed = rec.status {
                ok = ok + 1;
            }
            if let DistributionStatus::Error(_) = rec.status {
                failed = failed + 1;
            }
            bytes = bytes + rec.metrics.bytes_transferred;
            match rec.metrics.duration {
                Some(d) => {
                    nanos = nanos + d as u128;
                },
                None => {},
            }
            i = i + 1;
        }
        assert(h@.subrange(0, n as int) =~= h@);
        let avg: u64 = if n == 0 {
            0
        } else {
            let q = nanos / (n as u128);
            assert(q <= u64::MAX) by (nonlinear_arith)
                requires
                    q == nanos / (n as u128),
                    nanos <= n as int * (u64::MAX as int),
                    n > 0,
            ;
            q as u64
        };
        let mut channel_stats: Vec<ChannelStats> = Vec::new();
        let c = self.channels.len();
        let mut j: usize = 0;
        while j < c
            invariant
                c == self.channels@.len(),
                j <= c,
                channel_stats@ == self.channels@.subrange(0, j as int).map_values(|x: DistributionChannel| x.stats),
            decreases c - j,
        {
            channel_stats.push(self.channels[j].stats);
            assert(self.channels@.subrange(0, j + 1).map_values(|x: DistributionChannel| x.stats)
                =~= self.channels@.subrange(0, j as int).map_values(|x: DistributionChannel| x.stats).push(
                self.channels@[j as int].stats,
            ));
            j = j + 1;
        }
        assert(self.channels@.subrange(0, c as int) =~= self.channels@);
        DistributionStats {
            total_distributions: n,
            successful_distributions: ok,
            failed_distributions: failed,
            total_bytes: bytes,
            avg_duration: avg,
            channel_stats,
        }
    }
}

/// What a record of a distribution to `channel` at time `now` holds.
pub open spec fn distributed_record(rec: DistributionRecord, channel: Seq<char>, packages: Seq<PackageInfo>, now: u64) -> bool {
    &&& rec.channel@ == channel
    &&& rec.timestamp == now
    &&& rec.version@ == "1.0.0"@
    &&& rec.status is Completed
    &&& rec.assets@.map_values(|a: String| a@) == packages.map_values(|p: PackageInfo| p.name@)
    &&& rec.metrics.start_time == now
    &&& rec.metrics.end_time == Some((now + 1) as u64)
    &&& rec.metrics.duration == Some(1_000_000_000u64)
    &&& rec.metrics.bytes_transferred == package_bytes(packages)
    &&& rec.metrics.retry_count == 0
    &&& rec.error is None
}

/// The record of a distribution of the packages to `channel` at `now`.
fn distribution_record(channel: &String, packages: &Vec<PackageInfo>, now: u64, bytes: u64) -> (r: DistributionRecord)
    requires
        now < u64::MAX,
        bytes == package_bytes(packages@),
    ensures
        distributed_record(r, channel@, packages@, now),
{
    let n = packages.len();
    let mut names: Vec<String> = Vec::new();
    let mut i: usize = 0;
    while i < n
        invariant
            n == packages@.len(),
            i <= n,
            names@.map_values(|a: String| a@) == packages@.subrange(0, i as int).map_values(|p: PackageInfo| p.name@),
        decreases n - i,
    {
        let ghost before = names@;
        let c = packages[i].name.clone();
        names.push(c);
        assert(names@ =~= before.push(c));
        assert(names@.map_values(|a: String| a@) =~= before.map_values(|a: String| a@).push(c@));
        assert(packages@.subrange(0, i + 1).map_values(|p: PackageInfo| p.name@) =~= packages@.subrange(0, i as int).map_values(
            |p: PackageInfo| p.name@,
        ).push(packages@[i as int].name@));
        i = i + 1;
    }
    assert(packages@.subrange(0, n as int) =~= packages@);
    DistributionRecord {
        timestamp: now,
        version: "1.0.0".to_owned(),
        channel: channel.clone(),
        status: DistributionStatus::Completed,
        assets: names,
        metrics: DistributionMetrics {
            start_time: now,
            end_time: Some(now + 1),
            duration: Some(1_000_000_000),
            bytes_transferred: bytes,
            retry_count: 0,
        },
        error: None,
    }
}

/// A prefix of the packages is no larger than all of them.
proof fn lemma_package_bytes_prefix(ps: Seq<PackageInfo>, m: int)
    requires
        0 <= m <= ps.len(),
    ensures
        package_bytes(ps.subrange(0, m)) <= package_bytes(ps),
    decreases ps.len() - m,
{
    if m < ps.len() {
        lemma_package_bytes_prefix(ps, m + 1);
        assert(ps.subrange(0, m + 1).drop_last() =~= ps.subrange(0, m));
    } else {
        assert(ps.subrange(0, m) =~= ps);
    }
}

/// A prefix of the history has no more bytes and nanoseconds than all of it.
proof fn lemma_history_prefix(h: Seq<DistributionRecord>, m: int)
    requires
        0 <= m <= h.len(),
    ensures
        history_bytes(h.subrange(0, m)) <= history_bytes(h),
        history_nanos(h.subrange(0, m)) <= history_nanos(h),
    decreases h.len() - m,
{
    if m < h.len() {
        lemma_history_prefix(h, m + 1);
        assert(h.subrange(0, m + 1).drop_last() =~= h.subrange(0, m));
    } else {
        assert(h.subrange(0, m) =~= h);
    }
}

} // verus!
