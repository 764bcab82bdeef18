//! Update channels, verification and installation settings.

use vstd::prelude::*;
use std::collections::HashMap;
use crate::release::version::{law_version_less_asymmetric, law_version_less_transitive, version_less, version_less_exec};
use crate::text::{
    decimal, digits_exec, seq_contains, str_contains, str_eq,
    string_from_chars,
};

verus! {

/// Update types
#[derive(Debug, Clone, PartialEq)]
pub enum UpdateType {
    /// Major version updates
    Major,
    
    /// Minor version updates
    Minor,
    
    /// Patch updates
    Patch,
    
    /// Security updates
    Security,
    
    /// Hotfix updates
    Hotfix,
    
    /// Beta updates
    Beta,
    
    /// Nightly updates
    Nightly,
}

/// Update verification settings
#[derive(Debug, Clone)]
pub struct UpdateVerification {
    /// Verify digital signatures
    pub verify_signatures: bool,
    
    /// Verify checksums
    pub verify_checksums: bool,
    
    /// Trusted certificate authorities
    pub trusted_cas: Vec<String>,
    
    /// Required signature algorithms
    pub signature_algorithms: Vec<SignatureAlgorithm>,
    
    /// Checksum algorithms
    pub checksum_algorithms: Vec<ChecksumAlgorithm>,
    
    /// Verification timeout
    pub timeout: u64,
    
    /// Strict verification mode
    pub strict_mode: bool,
}

/// Signature algorithms
#[derive(Debug, Clone)]
pub enum SignatureAlgorithm {
    RSA2048,
    RSA4096,
    ECDSA256,
    ECDSA384,
    Ed25519,
}

/// Checksum algorithms
#[derive(Debug, Clone, Hash, Eq, PartialEq)]
pub enum ChecksumAlgorithm {
    SHA256,
    SHA512,
    BLAKE2b,
    BLAKE3,
}

/// Mirror selection strategies
#[derive(Debug, Clone)]
pub enum MirrorSelection {
    /// Fastest mirror
    Fastest,
    
    /// Geographic proximity
    Geographic,
    
    /// Round robin
    RoundRobin,
    
    /// Random selection
    Random,
    
    /// Prefer specific mirrors
    Preferred(Vec<String>),
}

/// Backoff strategies
#[derive(Debug, Clone)]
pub enum BackoffStrategy {
    Fixed,
    Linear,
    Exponential,
    Jittered,
}

/// Retry conditions
#[derive(Debug, Clone)]
pub enum RetryCondition {
    NetworkError,
    Timeout,
    ServerError,
    ChecksumMismatch,
    PartialDownload,
}

/// Installation configuration
#[derive(Debug, Clone)]
pub struct InstallationConfig {
    /// Installation strategy
    pub strategy: InstallationStrategy,
    
    /// Backup current version
    pub backup_current: bool,
    
    /// Installation timeout
    pub timeout: u64,
    
    /// Post-install verification
    pub verify_installation: bool,
    
    /// Custom install scripts
    pub custom_scripts: Vec<String>,
    
    /// Service restart settings
    pub service_restart: ServiceRestartConfig,
    
    /// File permissions
    pub preserve_permissions: bool,
    
    /// Installation directory
    pub install_dir: Option<String>,
}

/// Installation strategies
#[derive(Debug, Clone)]
pub enum InstallationStrategy {
    /// Replace current installation
    Replace,
    
    /// Side-by-side installation
    SideBySide,
    
    /// Incremental update
    Incremental,
    
    /// Blue-green deployment
    BlueGreen,
    
    /// Rolling update
    Rolling,
}

/// Service restart configuration
#[derive(Debug, Clone)]
pub struct ServiceRestartConfig {
    /// Restart services after update
    pub restart_services: bool,
    
    /// Services to restart
    pub services: Vec<String>,
    
    /// Restart timeout
    pub timeout: u64,
    
    /// Graceful shutdown
    pub graceful_shutdown: bool,
    
    /// Wait for service readiness
    pub wait_for_ready: bool,
}

/// Rollback configuration
#[derive(Debug, Clone)]
pub struct RollbackConfig {
    /// Enable automatic rollback
    pub auto_rollback: bool,
    
    /// Rollback timeout
    pub timeout: u64,
    
    /// Health check settings
    pub health_checks: Vec<HealthCheck>,
    
    /// Rollback triggers
    pub triggers: Vec<RollbackTrigger>,
    
    /// Maximum rollback attempts
    pub max_attempts: u32,
    
    /// Preserve user data
    pub preserve_data: bool,
}

/// Health check configuration
#[derive(Debug, Clone)]
pub struct HealthCheck {
    /// Check name
    pub name: String,
    
    /// Check type
    pub check_type: HealthCheckType,
    
    /// Check interval
    pub interval: u64,
    
    /// Check timeout
    pub timeout: u64,
    
    /// Failure threshold
    pub failure_threshold: u32,
    
    /// Success threshold
    pub success_threshold: u32,
}

/// Health check types
#[derive(Debug, Clone)]
pub enum HealthCheckType {
    /// HTTP endpoint check
    Http {
        url: String,
        expected_status: u16,
    },
    
    /// TCP port check
    Tcp {
        host: String,
        port: u16,
    },
    
    /// Process check
    Process {
        name: String,
    },
    
    /// File existence check
    File {
        path: String,
    },
    
    /// Custom script check
    Script {
        path: String,
        args: Vec<String>,
    },
}

/// Rollback triggers
#[derive(Debug, Clone)]
pub enum RollbackTrigger {
    /// Health check failure
    HealthCheckFailure,
    
    /// Installation failure
    InstallationFailure,
    
    /// Service start failure
    ServiceStartFailure,
    
    /// User initiated
    UserInitiated,
    
    /// Timeout exceeded
    TimeoutExceeded,
    
    /// Custom trigger
    Custom(String),
}

/// Update notifications
#[derive(Debug, Clone)]
pub struct UpdateNotifications {
    /// Enable notifications
    pub enabled: bool,
    
    /// Notification channels
    pub channels: Vec<NotificationChannel>,
    
    /// Notification events
    pub events: Vec<NotificationEvent>,
    
    /// Notification templates
    pub templates: HashMap<String, String>,
}

/// Notification channels
#[derive(Debug, Clone)]
pub enum NotificationChannel {
    /// System notifications
    System,
    
    /// Email notifications
    Email {
        smtp_server: String,
        recipients: Vec<String>,
    },
    
    /// Slack notifications
    Slack {
        webhook_url: String,
        channel: String,
    },
    
    /// Webhook notifications
    Webhook {
        url: String,
        headers: HashMap<String, String>,
    },
    
    /// Log file notifications
    Log {
        path: String,
    },
}

/// Notification events
#[derive(Debug, Clone, PartialEq)]
pub enum NotificationEvent {
    UpdateAvailable,
    UpdateStarted,
    UpdateCompleted,
    UpdateFailed,
    RollbackStarted,
    RollbackCompleted,
    HealthCheckFailed,
}

/// Bandwidth configuration
#[derive(Debug, Clone)]
pub struct BandwidthConfig {
    /// Enable bandwidth limiting
    pub enabled: bool,
    
    /// Maximum download rate (bytes/sec)
    pub max_rate: u64,
    
    /// Bandwidth scheduling
    pub schedule: Vec<BandwidthSchedule>,
    
    /// Adaptive bandwidth
    pub adaptive: bool,
    
    /// Network type detection
    pub detect_network_type: bool,
}

/// Bandwidth schedule
#[derive(Debug, Clone)]
pub struct BandwidthSchedule {
    /// Schedule name
    pub name: String,
    
    /// Time range
    pub time_range: TimeRange,
    
    /// Day of week
    pub days: Vec<DayOfWeek>,
    
    /// Bandwidth limit
    pub limit: u64,
}

/// Time range
#[derive(Debug, Clone)]
pub struct TimeRange {
    /// Start time (HH:MM)
    pub start: String,
    
    /// End time (HH:MM)
    pub end: String,
}

/// Day of week
#[derive(Debug, Clone)]
pub enum DayOfWeek {
    Monday,
    Tuesday,
    Wednesday,
    Thursday,
    Friday,
    Saturday,
    Sunday,
}

/// Update channel configuration
#[derive(Debug, Clone)]
pub struct UpdateChannelConfig {
    /// Channel name
    pub name: String,
    
    /// Channel URL
    pub url: String,
    
    /// Channel type
    pub channel_type: ChannelType,
    
    /// Update frequency
    pub update_types: Vec<UpdateType>,
    
    /// Release stages
    pub stages: Vec<ReleaseStage>,
    
    /// Authentication
    pub auth: Option<ChannelAuth>,
    
    /// Priority
    pub priority: u32,
    
    /// Channel timeout
    pub timeout: u64,
}

/// Channel types
#[derive(Debug, Clone)]
pub enum ChannelType {
    /// Official release channel
    Official,
    
    /// Beta channel
    Beta,
    
    /// Nightly builds
    Nightly,
    
    /// Security updates only
    Security,
    
    /// Custom channel
    Custom(String),
}

/// Release stages
#[derive(Debug, Clone)]
pub enum ReleaseStage {
    Development,
    Alpha,
    Beta,
    ReleaseCandidate,
    Stable,
    LongTermSupport,
}

/// Channel authentication
#[derive(Debug, Clone)]
pub struct ChannelAuth {
    /// Authentication type
    pub auth_type: AuthType,
    
    /// Credentials
    pub credentials: HashMap<String, String>,
}

/// Authentication types
#[derive(Debug, Clone)]
pub enum AuthType {
    NoAuth,
    ApiKey,
    OAuth2,
    BasicAuth,
    ClientCertificate,
}

/// Channel status
#[derive(Debug, Clone)]
pub enum ChannelStatus {
    Active,
    Inactive,
    Error(String),
    RateLimited,
}

/// Cache settings
#[derive(Debug, Clone)]
pub struct CacheSettings {
    /// Maximum cache size in bytes
    pub max_size: u64,
    
    /// Cache expiration time
    pub expiration: u64,
    
    /// Enable automatic cleanup
    pub auto_cleanup: bool,
    
    /// Compression settings
    pub compression: CompressionConfig,
    
    /// Cleanup policy
    pub cleanup_policy: CleanupPolicy,
}

/// Compression configuration
#[derive(Debug, Clone)]
pub struct CompressionConfig {
    /// Enable compression
    pub enabled: bool,
    
    /// Compression level
    pub level: u32,
}

/// Cleanup policy
#[derive(Debug, Clone)]
pub enum CleanupPolicy {
    /// Clean up files older than duration
    Age(u64),
    
    /// Clean up when size exceeds limit
    Size(u64),
    
    /// Clean up least recently used
    LRU { max_items: usize },
}

/// Platform requirement
#[derive(Debug, Clone)]
pub struct PlatformRequirement {
    /// Operating system
    pub os: String,
    
    /// Architecture
    pub arch: String,
    
    /// Minimum OS version
    pub min_os_version: Option<String>,
    
    /// Required features
    pub features: Vec<String>,
}

/// Update dependency
#[derive(Debug, Clone)]
pub struct UpdateDependency {
    /// Dependency name
    pub name: String,
    
    /// Required version
    pub version: String,
    
    /// Dependency type
    pub dependency_type: DependencyType,
}

/// Dependency types
#[derive(Debug, Clone)]
pub enum DependencyType {
    Required,
    Optional,
    Recommended,
}

/// Security severity levels
#[derive(Debug, Clone)]
pub enum SecuritySeverity {
    Low,
    Medium,
    High,
    Critical,
}

/// Download status
#[derive(Debug, Clone)]
pub enum DownloadStatus {
    Pending,
    InProgress,
    Completed,
    Failed(String),
    Paused,
    Cancelled,
}

/// Update security manager
#[derive(Debug)]
pub struct UpdateSecurity {
    /// Security policies
    policies: Vec<SecurityPolicy>,
    
    /// Trusted certificates
    trusted_certs: Vec<Certificate>,
    
    /// Signature verification settings
    signature_verification: SignatureVerificationConfig,
    
    /// Certificate validation settings
    cert_validation: CertificateValidation,
}

/// Certificate validation settings
#[derive(Debug, Clone)]
pub struct CertificateValidation {
    /// Check certificate expiration
    pub check_expiration: bool,
    
    /// Check certificate revocation
    pub check_revocation: bool,
    
    /// Validate certificate chain
    pub validate_chain: bool,
}

/// Certificate information
#[derive(Debug, Clone)]
pub struct Certificate {
    /// Certificate data
    pub data: Vec<u8>,
    
    /// Certificate format
    pub format: CertificateFormat,
    
    /// Certificate subject
    pub subject: String,
    
    /// Certificate issuer
    pub issuer: String,
    
    /// Expiration date
    pub expires_at: u64,
    
    /// Certificate fingerprint
    pub fingerprint: String,
}

/// Certificate formats
#[derive(Debug, Clone)]
pub enum CertificateFormat {
    PEM,
    DER,
    PKCS12,
}

/// Certificate validation configuration
#[derive(Debug, Clone)]
pub struct CertValidationConfig {
    /// Validate certificate chain
    pub validate_chain: bool,
    
    /// Check certificate expiration
    pub check_expiration: bool,
    
    /// Verify certificate revocation
    pub check_revocation: bool,
    
    /// Allow self-signed certificates
    pub allow_self_signed: bool,
    
    /// Certificate pinning
    pub pinned_certificates: Vec<String>,
}

/// Signature verification configuration
#[derive(Debug, Clone)]
pub struct SignatureVerificationConfig {
    /// Required signature algorithms
    pub required_algorithms: Vec<SignatureAlgorithm>,
    
    /// Minimum key size
    pub min_key_size: u32,
    
    /// Allow weak algorithms
    pub allow_weak_algorithms: bool,
    
    /// Signature validation timeout
    pub timeout: u64,
}

/// Security policy
#[derive(Debug, Clone)]
pub struct SecurityPolicy {
    /// Policy name
    pub name: String,
    
    /// Policy rules
    pub rules: Vec<SecurityRule>,
    
    /// Policy action
    pub action: PolicyAction,
}

/// Security rule
#[derive(Debug, Clone)]
pub struct SecurityRule {
    /// Rule condition
    pub condition: RuleCondition,
    
    /// Rule value
    pub value: String,
    
    /// Rule operator
    pub operator: RuleOperator,
}

/// Rule conditions
#[derive(Debug, Clone)]
pub enum RuleCondition {
    SourceURL,
    FileSize,
    UpdateType,
    ReleaseStage,
    SignaturePresent,
    CertificateIssuer,
}

/// Rule operators
#[derive(Debug, Clone)]
pub enum RuleOperator {
    Equals,
    NotEquals,
    Contains,
    NotContains,
    GreaterThan,
    LessThan,
    Matches,
}

/// Policy actions
#[derive(Debug, Clone)]
pub enum PolicyAction {
    Allow,
    Deny,
    Warn,
    RequireApproval,
}

/// Update status
#[derive(Debug, Clone)]
pub enum UpdateStatus {
    Pending,
    Downloading,
    Downloaded,
    Installing,
    Installed,
    Failed,
    RolledBack,
}

/// Rollback information
#[derive(Debug, Clone)]
pub struct RollbackInfo {
    /// Rollback timestamp
    pub timestamp: u64,
    
    /// Rollback reason
    pub reason: RollbackReason,
    
    /// Previous version
    pub previous_version: String,
    
    /// Rollback status
    pub status: RollbackStatus,
    
    /// Rollback duration
    pub duration: Option<u64>,
}

/// Rollback reasons
#[derive(Debug, Clone)]
pub enum RollbackReason {
    InstallationFailure,
    HealthCheckFailure,
    UserRequested,
    AutomaticFailover,
    SecurityIssue,
}

/// Rollback status
#[derive(Debug, Clone)]
pub enum RollbackStatus {
    InProgress,
    Completed,
    Failed,
    PartiallyCompleted,
}


/// Whether the current version meets an update's minimum version: it does
/// not come before it in the order of versions.
pub fn is_version_compatible(min_version: &str, current_version: &str) -> (r: bool)
    ensures
        r == !version_less(current_version@, min_version@),
{
    !version_less_exec(current_version, min_version)
}

/// Whether an update's version is newer than the current one: it comes after
/// it in the order of versions, part by part (`1.10.0` is newer than `1.9.0`).
pub fn is_newer_version(update_version: &str, current_version: &str) -> (r: bool)
    ensures
        r == version_less(current_version@, update_version@),
{
    version_less_exec(current_version, update_version)
}

/// Whether an update runs on the given operating system and architecture:
/// it names no platform, or one of its platforms is that pair.
pub fn is_platform_compatible(platforms: &Vec<PlatformRequirement>, os: &str, arch: &str) -> (r: bool)
    ensures
        r == (platforms@.len() == 0 || exists|i: int|
            0 <= i < platforms@.len() && (#[trigger] platforms@[i]).os@ == os@ && platforms@[i].arch@ == arch@),
{
    let n = platforms.len();
    if n == 0 {
        return true;
    }
    let mut i: usize = 0;
    while i < n
        invariant
            n == platforms@.len(),
            i <= n,
            forall|j: int| 0 <= j < i ==> !((#[trigger] platforms@[j]).os@ == os@ && platforms@[j].arch@ == arch@),
        decreases n - i,
    {
        if str_eq(platforms[i].os.as_str(), os) && str_eq(platforms[i].arch.as_str(), arch) {
            assert(platforms@[i as int].os@ == os@ && platforms@[i as int].arch@ == arch@);
            return true;
        }
        i = i + 1;
    }
    false
}


/// A security fix an update carries. Its CVSS score, a floating point
/// number, is not held.
#[derive(Debug, Clone)]
pub struct SecurityFix {
    /// CVE identifier
    pub cve_id: Option<String>,

    /// Severity level
    pub severity: SecuritySeverity,

    /// Description
    pub description: String,
}

/// An update a channel offers.
#[derive(Debug)]
pub struct UpdateInfo {
    /// Update version
    pub version: String,

    /// Update type
    pub update_type: UpdateType,

    /// Release stage
    pub stage: ReleaseStage,

    /// Release notes
    pub release_notes: String,

    /// Download URL
    pub download_url: String,

    /// File size
    pub file_size: u64,

    /// Checksums
    pub checksums: HashMap<ChecksumAlgorithm, String>,

    /// Digital signature
    pub signature: Option<String>,

    /// Release timestamp
    pub released_at: String,

    /// Minimum version requirement
    pub min_version: Option<String>,

    /// Maximum version requirement
    pub max_version: Option<String>,

    /// Platform requirements
    pub platforms: Vec<PlatformRequirement>,

    /// Dependencies
    pub dependencies: Vec<UpdateDependency>,

    /// Installation instructions
    pub install_instructions: Option<String>,

    /// Breaking changes
    pub breaking_changes: Vec<String>,

    /// Security fixes
    pub security_fixes: Vec<SecurityFix>,
}

/// Whether two update types are the same.
fn same_update_type(a: &UpdateType, b: &UpdateType) -> (r: bool)
    ensures
        r == (*a == *b),
{
    match (a, b) {
        (UpdateType::Major, UpdateType::Major) => true,
        (UpdateType::Minor, UpdateType::Minor) => true,
        (UpdateType::Patch, UpdateType::Patch) => true,
        (UpdateType::Security, UpdateType::Security) => true,
        (UpdateType::Hotfix, UpdateType::Hotfix) => true,
        (UpdateType::Beta, UpdateType::Beta) => true,
        (UpdateType::Nightly, UpdateType::Nightly) => true,
        _ => false,
    }
}

/// Whether an update type is among the allowed ones.
fn type_allowed(allowed: &Vec<UpdateType>, t: &UpdateType) -> (r: bool)
    ensures
        r == allowed@.contains(*t),
{
    let n = allowed.len();
    let mut i: usize = 0;
    while i < n
        invariant
            n == allowed@.len(),
            i <= n,
            forall|j: int| 0 <= j < i ==> allowed@[j] != *t,
        decreases n - i,
    {
        if same_update_type(&allowed[i], t) {
            assert(allowed@[i as int] == *t);
            return true;
        }
        i = i + 1;
    }
    false
}

/// Whether an update passes the checks other than the security policies:
/// its type is allowed, the current version meets its minimum version, it
/// is newer than the current version, and it runs on the platform.
pub open spec fn update_admitted(u: UpdateInfo, allowed: Seq<UpdateType>, current: Seq<char>, os: Seq<char>, arch: Seq<char>) -> bool {
    &&& allowed.contains(u.update_type)
    &&& (u.min_version matches Some(m) ==> !version_less(current, m@))
    &&& version_less(current, u.version@)
    &&& (u.platforms@.len() == 0 || exists|i: int|
        0 <= i < u.platforms@.len() && (#[trigger] u.platforms@[i]).os@ == os && u.platforms@[i].arch@ == arch)
}

/// The first `n` updates that pass every check, `secure` telling for each
/// update whether it passes the security policies; in their order.
pub open spec fn admitted_updates(
    us: Seq<UpdateInfo>,
    secure: Seq<bool>,
    allowed: Seq<UpdateType>,
    current: Seq<char>,
    os: Seq<char>,
    arch: Seq<char>,
    n: int,
) -> Seq<UpdateInfo>
    decreases n,
{
    if n <= 0 {
        Seq::empty()
    } else {
        admitted_updates(us, secure, allowed, current, os, arch, n - 1) + if update_admitted(
            us[n - 1],
            allowed,
            current,
            os,
            arch,
        ) && secure[n - 1] {
            seq![us[n - 1]]
        } else {
            Seq::empty()
        }
    }
}

/// Every update offered is newer than the current version and of an allowed
/// type.
pub proof fn law_offered_updates_are_newer(
    us: Seq<UpdateInfo>,
    secure: Seq<bool>,
    allowed: Seq<UpdateType>,
    current: Seq<char>,
    os: Seq<char>,
    arch: Seq<char>,
    n: int,
)
    ensures
        forall|k: int| 0 <= k < admitted_updates(us, secure, allowed, current, os, arch, n).len() ==> {
            let u = #[trigger] admitted_updates(us, secure, allowed, current, os, arch, n)[k];
            version_less(current, u.version@) && allowed.contains(u.update_type)
        },
    decreases n,
{
    if n > 0 {
        law_offered_updates_are_newer(us, secure, allowed, current, os, arch, n - 1);
        let prev = admitted_updates(us, secure, allowed, current, os, arch, n - 1);
        let all = admitted_updates(us, secure, allowed, current, os, arch, n);
        assert forall|k: int| 0 <= k < all.len() implies {
            let u = #[trigger] all[k];
            version_less(current, u.version@) && allowed.contains(u.update_type)
        } by {
            if k < prev.len() {
                assert(all[k] == prev[k]);
            }
        }
    }
}

/// Newest first: no update comes after a later one in the order of versions.
pub open spec fn newest_first(us: Seq<UpdateInfo>) -> bool {
    forall|i: int, j: int| 0 <= i < j < us.len() ==> !version_less(#[trigger] us[i].version@, #[trigger] us[j].version@)
}

/// The updates to offer: those whose type is allowed, whose minimum version
/// the current version meets, that are newer than the current version, that
/// run on the platform and that pass the security policies (`secure`, one
/// verdict per update), newest first.
pub fn filter_updates(
    updates: Vec<UpdateInfo>,
    allowed_types: &Vec<UpdateType>,
    current_version: &str,
    os: &str,
    arch: &str,
    secure: &Vec<bool>,
) -> (r: Vec<UpdateInfo>)
    requires
        secure@.len() == updates@.len(),
    ensures
        newest_first(r@),
        r@.to_multiset() == admitted_updates(
            updates@,
            secure@,
            allowed_types@,
            current_version@,
            os@,
            arch@,
            updates@.len() as int,
        ).to_multiset(),
{
    let ghost orig = updates@;
    let n = updates.len();
    let mut rest = updates;
    let mut kept: Vec<UpdateInfo> = Vec::new();
    let mut k: usize = 0;
    assert(rest@ =~= orig.subrange(0, n as int));
    while k < n
        invariant
            n == orig.len(),
            secure@.len() == n,
            k <= n,
            rest@ == orig.subrange(k as int, n as int),
            kept@ == admitted_updates(orig, secure@, allowed_types@, current_version@, os@, arch@, k as int),
        decreases n - k,
    {
        let ghost before = kept@;
        let u = rest.remove(0);
        assert(u == orig[k as int]);
        assert(rest@ =~= orig.subrange(k + 1, n as int));
        let minimum_met = match &u.min_version {
            Some(m) => is_version_compatible(m.as_str(), current_version),
            None => true,
        };
        let ok = type_allowed(allowed_types, &u.update_type) && minimum_met && is_newer_version(
            u.version.as_str(),
            current_version,
        ) && is_platform_compatible(&u.platforms, os, arch) && secure[k];
        if ok {
            kept.push(u);
        }
        proof {
            let next = admitted_updates(orig, secure@, allowed_types@, current_version@, os@, arch@, k + 1);
            if ok {
                assert(next == before + seq![orig[k as int]]);
                assert(kept@ =~= next);
            } else {
                assert(kept@ =~= next);
            }
        }
        k = k + 1;
    }
    let ghost ks = kept@;
    let m = kept.len();
    let mut out: Vec<UpdateInfo> = Vec::new();
    let mut j: usize = 0;
    assert(kept@ =~= ks.subrange(0, m as int));
    assert(ks.subrange(0, 0) =~= out@);
    while j < m
        invariant
            m == ks.len(),
            j <= m,
            kept@ == ks.subrange(j as int, m as int),
            newest_first(out@),
            out@.to_multiset() == ks.subrange(0, j as int).to_multiset(),
        decreases m - j,
    {
        let x = kept.remove(0);
        assert(x == ks[j as int]);
        assert(kept@ =~= ks.subrange(j + 1, m as int));
        let mut p: usize = 0;
        while p < out.len() && !version_less_exec(out[p].version.as_str(), x.version.as_str())
            invariant
                p <= out@.len(),
                forall|q: int| 0 <= q < p ==> !version_less(#[trigger] out@[q].version@, x.version@),
            decreases out@.len() - p,
        {
            p = p + 1;
        }
        let ghost old_out = out@;
        out.insert(p, x);
        proof {
            assert(out@ == old_out.insert(p as int, x));
            vstd::seq_lib::to_multiset_insert(old_out, p as int, x);
            assert(ks.subrange(0, j + 1) =~= ks.subrange(0, j as int).push(x));
            vstd::seq_lib::to_multiset_build(ks.subrange(0, j as int), x);
            assert forall|a: int, b: int| 0 <= a < b < out@.len() implies !version_less(
                #[trigger] out@[a].version@,
                #[trigger] out@[b].version@,
            ) by {
                if a < p && b == p {
                } else if a == p && b > p {
                    let y = old_out[b - 1];
                    assert(out@[b] == y);
                    if version_less(x.version@, y.version@) {
                        let z = old_out[p as int];
                        assert(version_less(z.version@, x.version@));
                        law_version_less_transitive(z.version@, x.version@, y.version@);
                        if b - 1 > p {
                            assert(!version_less(old_out[p as int].version@, old_out[b - 1].version@));
                        } else {
                            law_version_less_asymmetric(z.version@, z.version@);
                        }
                    }
                } else if b < p {
                    assert(out@[a] == old_out[a] && out@[b] == old_out[b]);
                } else if a < p && b > p {
                    assert(out@[a] == old_out[a] && out@[b] == old_out[b - 1]);
                } else {
                    assert(out@[a] == old_out[a - 1] && out@[b] == old_out[b - 1]);
                }
            }
        }
        j = j + 1;
    }
    assert(ks.subrange(0, m as int) =~= ks);
    out
}


/// The name of an update type as it is printed.
pub open spec fn update_type_name(t: UpdateType) -> Seq<char> {
    match t {
        UpdateType::Major => "Major"@,
        UpdateType::Minor => "Minor"@,
        UpdateType::Patch => "Patch"@,
        UpdateType::Security => "Security"@,
        UpdateType::Hotfix => "Hotfix"@,
        UpdateType::Beta => "Beta"@,
        UpdateType::Nightly => "Nightly"@,
    }
}

/// The name of a release stage as it is printed.
pub open spec fn release_stage_name(s: ReleaseStage) -> Seq<char> {
    match s {
        ReleaseStage::Development => "Development"@,
        ReleaseStage::Alpha => "Alpha"@,
        ReleaseStage::Beta => "Beta"@,
        ReleaseStage::ReleaseCandidate => "ReleaseCandidate"@,
        ReleaseStage::Stable => "Stable"@,
        ReleaseStage::LongTermSupport => "LongTermSupport"@,
    }
}

/// What a security rule looks at in an update: its download URL, its size
/// in decimal, the names of its type and stage, whether it is signed, or,
/// for the certificate issuer, "unknown".
pub open spec fn rule_subject(condition: RuleCondition, u: UpdateInfo) -> Seq<char> {
    match condition {
        RuleCondition::SourceURL => u.download_url@,
        RuleCondition::FileSize => decimal(u.file_size as nat),
        RuleCondition::UpdateType => update_type_name(u.update_type),
        RuleCondition::ReleaseStage => release_stage_name(u.stage),
        RuleCondition::SignaturePresent => if u.signature is Some { "true"@ } else { "false"@ },
        RuleCondition::CertificateIssuer => "unknown"@,
    }
}

/// What a security rule looks at in an update.
pub fn security_rule_subject(condition: &RuleCondition, update: &UpdateInfo) -> (r: String)
    ensures
        r@ == rule_subject(*condition, *update),
{
    match condition {
        RuleCondition::SourceURL => update.download_url.clone(),
        RuleCondition::FileSize => {
            let d = digits_exec(update.file_size, 10);
            string_from_chars(d.as_slice())
        },
        RuleCondition::UpdateType => {
            let name = match update.update_type {
                UpdateType::Major => "Major",
                UpdateType::Minor => "Minor",
                UpdateType::Patch => "Patch",
                UpdateType::Security => "Security",
                UpdateType::Hotfix => "Hotfix",
                UpdateType::Beta => "Beta",
                UpdateType::Nightly => "Nightly",
            };
            name.to_owned()
        },
        RuleCondition::ReleaseStage => {
            let name = match update.stage {
                ReleaseStage::Development => "Development",
                ReleaseStage::Alpha => "Alpha",
                ReleaseStage::Beta => "Beta",
                ReleaseStage::ReleaseCandidate => "ReleaseCandidate",
                ReleaseStage::Stable => "Stable",
                ReleaseStage::LongTermSupport => "LongTermSupport",
            };
            name.to_owned()
        },
        RuleCondition::SignaturePresent => if update.signature.is_some() {
            "true".to_owned()
        } else {
            "false".to_owned()
        },
        RuleCondition::CertificateIssuer => "unknown".to_owned(),
    }
}

/// Whether a rule's subject satisfies the rule, for the operators that
/// compare text: equal, not equal, containing, not containing, and matching,
/// which is containing. The operators that compare numbers give `None`.
pub fn evaluate_text_rule(operator: &RuleOperator, actual: &str, expected: &str) -> (r: Option<bool>)
    ensures
        match operator {
            RuleOperator::Equals => r == Some(actual@ == expected@),
            RuleOperator::NotEquals => r == Some(actual@ != expected@),
            RuleOperator::Contains => r == Some(seq_contains(actual@, expected@)),
            RuleOperator::NotContains => r == Some(!seq_contains(actual@, expected@)),
            RuleOperator::Matches => r == Some(seq_contains(actual@, expected@)),
            RuleOperator::GreaterThan => r is None,
            RuleOperator::LessThan => r is None,
        },
{
    match operator {
        RuleOperator::Equals => Some(str_eq(actual, expected)),
        RuleOperator::NotEquals => Some(!str_eq(actual, expected)),
        RuleOperator::Contains => Some(str_contains(actual, expected)),
        RuleOperator::NotContains => Some(!str_contains(actual, expected)),
        RuleOperator::Matches => Some(str_contains(actual, expected)),
        RuleOperator::GreaterThan => None,
        RuleOperator::LessThan => None,
    }
}

} // verus!
