//! Release configuration model for AetherScript: project and version
//! information, build, packaging, distribution, CI/CD and quality settings.

pub mod automation;
pub mod packaging;
pub mod distribution;
pub mod updates;
pub mod artifacts;
pub mod version;

use vstd::prelude::*;
use std::collections::HashMap;

verus! {

/// Release manager for AetherScript
#[derive(Debug)]
pub struct ReleaseHistory;

/// Project information
#[derive(Debug, Clone)]
pub struct ProjectInfo {
    /// Project name
    pub name: String,
    
    /// Project description
    pub description: String,
    
    /// Project homepage
    pub homepage: String,
    
    /// Repository URL
    pub repository: String,
    
    /// License
    pub license: String,
    
    /// Authors
    pub authors: Vec<String>,
    
    /// Keywords
    pub keywords: Vec<String>,
    
    /// Categories
    pub categories: Vec<String>,
}

/// Version information
#[derive(Debug, Clone)]
pub struct VersionInfo {
    /// Current version
    pub current: String,
    
    /// Version scheme
    pub scheme: VersionScheme,
    
    /// Pre-release identifier
    pub prerelease: Option<String>,
    
    /// Build metadata
    pub build_metadata: Option<String>,
    
    /// Version file path
    pub version_file: String,
    
    /// Auto-increment settings
    pub auto_increment: AutoIncrementConfig,
}

/// Version schemes
#[derive(Debug, Clone)]
pub enum VersionScheme {
    /// Semantic versioning
    SemVer,
    
    /// Calendar versioning
    CalVer(CalVerFormat),
    
    /// Custom versioning
    Custom(String),
}

/// Calendar versioning formats
#[derive(Debug, Clone)]
pub enum CalVerFormat {
    /// YYYY.MM.DD
    YearMonthDay,
    
    /// YYYY.MM.MICRO
    YearMonthMicro,
    
    /// YY.MM.MICRO
    ShortYearMonthMicro,
}

/// Auto-increment configuration
#[derive(Debug, Clone)]
pub struct AutoIncrementConfig {
    /// Enable auto-increment
    pub enabled: bool,
    
    /// Increment type
    pub increment_type: IncrementType,
    
    /// Pre-release handling
    pub prerelease_handling: PrereleaseHandling,
}

/// Increment types
#[derive(Debug, Clone)]
pub enum IncrementType {
    /// Patch version (0.0.X)
    Patch,
    
    /// Minor version (0.X.0)
    Minor,
    
    /// Major version (X.0.0)
    Major,
    
    /// Auto-detect based on changes
    Auto,
}

/// Pre-release handling
#[derive(Debug, Clone)]
pub enum PrereleaseHandling {
    /// Keep pre-release
    Keep,
    
    /// Remove pre-release
    Remove,
    
    /// Increment pre-release
    Increment,
}

/// Build configuration for releases
#[derive(Debug, Clone)]
pub struct BuildConfig {
    /// Build targets
    pub targets: Vec<BuildTarget>,
    
    /// Optimization level
    pub optimization: OptimizationLevel,
    
    /// Debug information
    pub debug_info: DebugInfoLevel,
    
    /// Link-time optimization
    pub lto: bool,
    
    /// Strip symbols
    pub strip: bool,
    
    /// Compression
    pub compression: CompressionConfig,
    
    /// Cross-compilation settings
    pub cross_compile: CrossCompileConfig,
}

/// Build targets
#[derive(Debug, Clone)]
pub struct BuildTarget {
    /// Target triple
    pub triple: String,
    
    /// Target name
    pub name: String,
    
    /// Architecture
    pub arch: String,
    
    /// Operating system
    pub os: String,
    
    /// Environment
    pub env: Option<String>,
    
    /// Custom flags
    pub flags: Vec<String>,
}

/// Optimization levels
#[derive(Debug, Clone)]
pub enum OptimizationLevel {
    NoOptimization,
    Size,
    Speed,
    Aggressive,
}

/// Debug information levels
#[derive(Debug, Clone)]
pub enum DebugInfoLevel {
    NoDebugInfo,
    LineNumbers,
    Full,
}

/// Compression configuration
#[derive(Debug, Clone)]
pub struct CompressionConfig {
    /// Compression algorithm
    pub algorithm: CompressionAlgorithm,
    
    /// Compression level
    pub level: u8,
    
    /// Enable compression
    pub enabled: bool,
}

/// Compression algorithms
#[derive(Debug, Clone)]
pub enum CompressionAlgorithm {
    Gzip,
    Zstd,
    Bzip2,
    Xz,
}

/// Cross-compilation configuration
#[derive(Debug, Clone)]
pub struct CrossCompileConfig {
    /// Enable cross-compilation
    pub enabled: bool,
    
    /// Toolchain configurations
    pub toolchains: HashMap<String, ToolchainConfig>,
    
    /// Docker support
    pub docker: DockerConfig,
}

/// Toolchain configuration
#[derive(Debug, Clone)]
pub struct ToolchainConfig {
    /// Toolchain path
    pub path: String,
    
    /// Compiler executable
    pub compiler: String,
    
    /// Linker executable
    pub linker: String,
    
    /// Additional environment variables
    pub env: HashMap<String, String>,
}

/// Docker configuration
#[derive(Debug, Clone)]
pub struct DockerConfig {
    /// Enable Docker builds
    pub enabled: bool,
    
    /// Base images for each target
    pub images: HashMap<String, String>,
    
    /// Docker registry
    pub registry: Option<String>,
}

/// Packaging configuration
#[derive(Debug, Clone)]
pub struct PackagingConfig {
    /// Package formats
    pub formats: Vec<PackageFormat>,
    
    /// Include patterns
    pub include_patterns: Vec<String>,
    
    /// Exclude patterns
    pub exclude: Vec<String>,
    
    /// Metadata files
    pub metadata_files: Vec<MetadataFile>,
    
    /// Signing configuration
    pub signing: SigningConfig,
    
    /// Archive settings
    pub archive: ArchiveConfig,
}

/// Package formats
#[derive(Debug, Clone)]
pub enum PackageFormat {
    /// Tarball (.tar.gz)
    Tarball,
    
    /// ZIP archive
    Zip,
    
    /// Debian package (.deb)
    Deb,
    
    /// RPM package (.rpm)
    Rpm,
    
    /// macOS package (.pkg)
    Pkg,
    
    /// Windows installer (.msi)
    Msi,
    
    /// AppImage (Linux)
    AppImage,
    
    /// Snap package
    Snap,
    
    /// Flatpak
    Flatpak,
    
    /// Homebrew formula
    Homebrew,
    
    /// Docker image
    Docker,
}

/// Metadata files
#[derive(Debug, Clone)]
pub struct MetadataFile {
    /// File name
    pub name: String,
    
    /// Template path
    pub template: String,
    
    /// Target path in package
    pub target: String,
    
    /// Template variables
    pub variables: HashMap<String, String>,
}

/// Signing configuration
#[derive(Debug, Clone)]
pub struct SigningConfig {
    /// Enable signing
    pub enabled: bool,
    
    /// Signing method
    pub method: SigningMethod,
    
    /// Key configuration
    pub key: KeyConfig,
    
    /// Verification settings
    pub verification: VerificationConfig,
}

/// Signing methods
#[derive(Debug, Clone)]
pub enum SigningMethod {
    /// GPG signing
    Gpg,
    
    /// Code signing (macOS/Windows)
    CodeSign,
    
    /// Custom signing command
    Custom(String),
}

/// Key configuration
#[derive(Debug, Clone)]
pub struct KeyConfig {
    /// Key ID or path
    pub id: String,
    
    /// Passphrase source
    pub passphrase: PassphraseSource,
    
    /// Key server
    pub server: Option<String>,
}

/// Passphrase sources
#[derive(Debug, Clone)]
pub enum PassphraseSource {
    /// Environment variable
    Environment(String),
    
    /// File path
    File(String),
    
    /// Interactive prompt
    Interactive,
    
    /// No passphrase
    NoPassphrase,
}

/// Verification configuration
#[derive(Debug, Clone)]
pub struct VerificationConfig {
    /// Verify signatures
    pub verify: bool,
    
    /// Trusted keys
    pub trusted_keys: Vec<String>,
    
    /// Key servers
    pub key_servers: Vec<String>,
}

/// Archive configuration
#[derive(Debug, Clone)]
pub struct ArchiveConfig {
    /// Compression level
    pub compression_level: u8,
    
    /// Preserve permissions
    pub preserve_permissions: bool,
    
    /// Preserve timestamps
    pub preserve_timestamps: bool,
    
    /// Archive format options
    pub format_options: HashMap<String, String>,
}

/// Channel types
#[derive(Debug, Clone)]
pub enum ChannelType {
    /// GitHub Releases
    GitHub,
    
    /// GitLab Releases
    GitLab,
    
    /// Custom HTTP server
    Http,
    
    /// FTP server
    Ftp,
    
    /// AWS S3
    S3,
    
    /// Package repository
    PackageRepo(PackageRepoType),
}

/// Package repository types
#[derive(Debug, Clone)]
pub enum PackageRepoType {
    /// APT repository (Debian/Ubuntu)
    Apt,
    
    /// YUM repository (RHEL/CentOS)
    Yum,
    
    /// Homebrew tap
    Homebrew,
    
    /// AUR (Arch User Repository)
    Aur,
    
    /// npm registry
    Npm,
    
    /// PyPI
    PyPI,
    
    /// Custom registry
    Custom(String),
}

/// Authentication configuration
#[derive(Debug, Clone)]
pub struct AuthConfig {
    /// Authentication type
    pub auth_type: AuthType,
    
    /// Credentials source
    pub credentials: CredentialsSource,
}

/// Authentication types
#[derive(Debug, Clone)]
pub enum AuthType {
    /// Token-based auth
    Token,
    
    /// Username/password
    Basic,
    
    /// OAuth 2.0
    OAuth2,
    
    /// API key
    ApiKey,
    
    /// SSH key
    SshKey,
}

/// Credentials sources
#[derive(Debug, Clone)]
pub enum CredentialsSource {
    /// Environment variables
    Environment(HashMap<String, String>),
    
    /// Configuration file
    File(String),
    
    /// System keyring
    Keyring(String),
    
    /// Interactive prompt
    Interactive,
}

/// Upload methods
#[derive(Debug, Clone)]
pub enum UploadMethod {
    /// HTTP POST/PUT
    Http,
    
    /// SFTP
    Sftp,
    
    /// SCP
    Scp,
    
    /// rsync
    Rsync,
    
    /// Git push
    Git,
    
    /// Custom command
    Custom(String),
}

/// Channel metadata
#[derive(Debug, Clone)]
pub struct ChannelMetadata {
    /// Channel description
    pub description: String,
    
    /// Priority
    pub priority: u8,
    
    /// Stability level
    pub stability: StabilityLevel,
    
    /// Update frequency
    pub update_frequency: UpdateFrequency,
}

/// Stability levels
#[derive(Debug, Clone)]
pub enum StabilityLevel {
    /// Stable releases only
    Stable,
    
    /// Release candidates
    ReleaseCandidate,
    
    /// Beta releases
    Beta,
    
    /// Alpha releases
    Alpha,
    
    /// Nightly builds
    Nightly,
}

/// Update frequencies
#[derive(Debug, Clone)]
pub enum UpdateFrequency {
    /// On each release
    OnRelease,
    
    /// Daily
    Daily,
    
    /// Weekly
    Weekly,
    
    /// Monthly
    Monthly,
    
    /// Manual
    Manual,
}

/// Release notes configuration
#[derive(Debug, Clone)]
pub struct ReleaseNotesConfig {
    /// Template file
    pub template: String,
    
    /// Output format
    pub format: ReleaseNotesFormat,
    
    /// Include sections
    pub sections: Vec<ReleaseNotesSection>,
    
    /// Changelog integration
    pub changelog: ChangelogConfig,
}

/// Release notes formats
#[derive(Debug, Clone)]
pub enum ReleaseNotesFormat {
    Markdown,
    Html,
    PlainText,
    Json,
}

/// Release notes sections
#[derive(Debug, Clone)]
pub enum ReleaseNotesSection {
    Summary,
    NewFeatures,
    Improvements,
    BugFixes,
    BreakingChanges,
    Deprecations,
    Security,
    Documentation,
    Dependencies,
    Acknowledgments,
}

/// Changelog configuration
#[derive(Debug, Clone)]
pub struct ChangelogConfig {
    /// Changelog file path
    pub file: String,
    
    /// Changelog format
    pub format: ChangelogFormat,
    
    /// Auto-generation
    pub auto_generate: bool,
    
    /// Commit parsing
    pub commit_parsing: CommitParsingConfig,
}

/// Changelog formats
#[derive(Debug, Clone)]
pub enum ChangelogFormat {
    /// Keep a Changelog format
    KeepAChangelog,
    
    /// Conventional Changelog
    Conventional,
    
    /// Custom format
    Custom(String),
}

/// Commit parsing configuration
#[derive(Debug, Clone)]
pub struct CommitParsingConfig {
    /// Commit message pattern
    pub pattern: String,
    
    /// Type mapping
    pub type_mapping: HashMap<String, ReleaseNotesSection>,
    
    /// Breaking change patterns
    pub breaking_change_patterns: Vec<String>,
}

/// Announcement channel types
#[derive(Debug, Clone)]
pub enum AnnouncementChannelType {
    /// Email
    Email,
    
    /// Slack
    Slack,
    
    /// Discord
    Discord,
    
    /// Twitter
    Twitter,
    
    /// Reddit
    Reddit,
    
    /// Blog post
    Blog,
    
    /// RSS feed
    Rss,
    
    /// Webhook
    Webhook,
}

/// Release notes source types
#[derive(Debug, Clone)]
pub enum ReleaseNotesSource {
    /// From a file
    File(String),
    
    /// From git commits
    GitCommits,
    
    /// From changelog
    Changelog,
    
    /// Manual input
    Manual(String),
}

/// Channel visibility settings
#[derive(Debug, Clone)]
pub enum ChannelVisibility {
    /// Public channel
    Public,
    
    /// Private channel
    Private,
    
    /// Unlisted channel
    Unlisted,
}

/// User types
#[derive(Debug, Clone)]
pub enum UserType {
    Developer,
    EndUser,
    Contributor,
    Maintainer,
    Sponsor,
}

/// Opt-out configuration
#[derive(Debug, Clone)]
pub struct OptOutConfig {
    /// Enable opt-out
    pub enabled: bool,
    
    /// Opt-out method
    pub method: OptOutMethod,
    
    /// Respect preferences
    pub respect_preferences: bool,
}

/// Opt-out methods
#[derive(Debug, Clone)]
pub enum OptOutMethod {
    /// Email unsubscribe
    Email,
    
    /// Configuration file
    Config,
    
    /// Environment variable
    Environment,
    
    /// Web interface
    Web,
}

/// Message formatting
#[derive(Debug, Clone)]
pub struct MessageFormatting {
    /// Template variables
    pub variables: HashMap<String, String>,
    
    /// Character limits
    pub limits: MessageLimits,
    
    /// Formatting options
    pub options: FormattingOptions,
}

/// Message limits
#[derive(Debug, Clone)]
pub struct MessageLimits {
    /// Maximum length
    pub max_length: Option<usize>,
    
    /// Line length
    pub line_length: Option<usize>,
    
    /// Truncation handling
    pub truncation: TruncationHandling,
}

/// Truncation handling
#[derive(Debug, Clone)]
pub enum TruncationHandling {
    /// Cut off at limit
    Cut,
    
    /// Truncate with ellipsis
    Ellipsis,
    
    /// Split into multiple messages
    Split,
    
    /// Fail on overflow
    Fail,
}

/// Formatting options
#[derive(Debug, Clone)]
pub struct FormattingOptions {
    /// Use markdown
    pub markdown: bool,
    
    /// Use HTML
    pub html: bool,
    
    /// Use emoji
    pub emoji: bool,
    
    /// Use mentions
    pub mentions: bool,
}

/// Scheduling configuration
#[derive(Debug, Clone)]
pub struct SchedulingConfig {
    /// Immediate announcement
    pub immediate: bool,
    
    /// Delayed announcement
    pub delay: Option<DelayConfig>,
    
    /// Scheduled times
    pub schedule: Vec<ScheduleEntry>,
}

/// Delay configuration
#[derive(Debug, Clone)]
pub struct DelayConfig {
    /// Delay duration (seconds)
    pub duration: u64,
    
    /// Delay reason
    pub reason: String,
}

/// Schedule entries
#[derive(Debug, Clone)]
pub struct ScheduleEntry {
    /// Schedule time
    pub time: ScheduleTime,
    
    /// Channels to notify
    pub channels: Vec<String>,
    
    /// Custom message
    pub custom_message: Option<String>,
}

/// Schedule time
#[derive(Debug, Clone)]
pub enum ScheduleTime {
    /// Absolute time
    Absolute(u64),
    
    /// Relative to release
    Relative(u64), // seconds after release
    
    /// Cron expression
    Cron(String),
}

/// Mirror server
#[derive(Debug, Clone)]
pub struct MirrorServer {
    /// Server name
    pub name: String,
    
    /// Server URL
    pub url: String,
    
    /// Geographic region
    pub region: String,
    
    /// Priority
    pub priority: u8,
    
    /// Health check
    pub health_check: HealthCheckConfig,
}

/// Sync methods
#[derive(Debug, Clone)]
pub enum SyncMethod {
    /// Push to mirrors
    Push,
    
    /// Pull from origin
    Pull,
    
    /// Bidirectional sync
    Bidirectional,
}

/// Sync frequencies
#[derive(Debug, Clone)]
pub enum SyncFrequency {
    /// Immediate
    Immediate,
    
    /// Scheduled
    Scheduled(String), // Cron expression
    
    /// Manual
    Manual,
}

/// Load balancing strategies
#[derive(Debug, Clone)]
pub enum LoadBalancingStrategy {
    /// Round robin
    RoundRobin,
    
    /// Geographic proximity
    Geographic,
    
    /// Weighted by priority
    Weighted,
    
    /// Least connections
    LeastConnections,
}

/// Recovery configuration
#[derive(Debug, Clone)]
pub struct RecoveryConfig {
    /// Health check interval (seconds)
    pub check_interval: u64,
    
    /// Recovery threshold
    pub recovery_threshold: u32,
    
    /// Gradual recovery
    pub gradual_recovery: bool,
}

/// Health check configuration
#[derive(Debug, Clone)]
pub struct HealthCheckConfig {
    /// Health check URL
    pub url: String,
    
    /// Check interval (seconds)
    pub interval: u64,
    
    /// Timeout (seconds)
    pub timeout: u64,
    
    /// Expected status code
    pub expected_status: u16,
}

/// CI/CD providers
#[derive(Debug, Clone)]
pub struct CiCdProvider {
    /// Provider name
    pub name: String,
    
    /// Provider type
    pub provider_type: CiCdProviderType,
    
    /// Configuration
    pub config: CiCdProviderConfig,
}

/// CI/CD provider types
#[derive(Debug, Clone)]
pub enum CiCdProviderType {
    /// GitHub Actions
    GitHubActions,
    
    /// GitLab CI
    GitLabCI,
    
    /// Jenkins
    Jenkins,
    
    /// Azure DevOps
    AzureDevOps,
    
    /// CircleCI
    CircleCI,
    
    /// Travis CI
    TravisCI,
    
    /// TeamCity
    TeamCity,
    
    /// Buildkite
    Buildkite,
}

/// CI/CD provider configuration
#[derive(Debug, Clone)]
pub struct CiCdProviderConfig {
    /// Configuration file path
    pub config_file: String,
    
    /// Template variables
    pub variables: HashMap<String, String>,
    
    /// Secret handling
    pub secrets: SecretConfig,
}

/// Secret configuration
#[derive(Debug, Clone)]
pub struct SecretConfig {
    /// Secret store
    pub store: SecretStore,
    
    /// Secret mapping
    pub mapping: HashMap<String, String>,
    
    /// Encryption settings
    pub encryption: EncryptionConfig,
}

/// Secret stores
#[derive(Debug, Clone)]
pub enum SecretStore {
    /// Environment variables
    Environment,
    
    /// Provider's secret store
    Provider,
    
    /// External secret manager
    External(ExternalSecretStore),
}

/// External secret stores
#[derive(Debug, Clone)]
pub struct ExternalSecretStore {
    /// Store type
    pub store_type: ExternalSecretStoreType,
    
    /// Connection configuration
    pub connection: SecretStoreConnection,
}

/// External secret store types
#[derive(Debug, Clone)]
pub enum ExternalSecretStoreType {
    /// HashiCorp Vault
    Vault,
    
    /// AWS Secrets Manager
    AwsSecretsManager,
    
    /// Azure Key Vault
    AzureKeyVault,
    
    /// Google Secret Manager
    GoogleSecretManager,
}

/// Secret store connection
#[derive(Debug, Clone)]
pub struct SecretStoreConnection {
    /// Connection URL
    pub url: String,
    
    /// Authentication
    pub auth: AuthConfig,
    
    /// Connection timeout
    pub timeout: u64,
}

/// Encryption configuration
#[derive(Debug, Clone)]
pub struct EncryptionConfig {
    /// Encryption algorithm
    pub algorithm: EncryptionAlgorithm,
    
    /// Key derivation
    pub key_derivation: KeyDerivationConfig,
    
    /// Encryption key source
    pub key_source: KeySource,
}

/// Encryption algorithms
#[derive(Debug, Clone)]
pub enum EncryptionAlgorithm {
    /// AES-256-GCM
    Aes256Gcm,
    
    /// ChaCha20-Poly1305
    ChaCha20Poly1305,
    
    /// XChaCha20-Poly1305
    XChaCha20Poly1305,
}

/// Key derivation configuration
#[derive(Debug, Clone)]
pub struct KeyDerivationConfig {
    /// Derivation function
    pub function: KeyDerivationFunction,
    
    /// Salt source
    pub salt_source: SaltSource,
    
    /// Iteration count
    pub iterations: u32,
}

/// Key derivation functions
#[derive(Debug, Clone)]
pub enum KeyDerivationFunction {
    /// PBKDF2
    Pbkdf2,
    
    /// Argon2
    Argon2,
    
    /// scrypt
    Scrypt,
}

/// Salt sources
#[derive(Debug, Clone)]
pub enum SaltSource {
    /// Random salt
    Random,
    
    /// Fixed salt
    Fixed(String),
    
    /// Derived from input
    Derived,
}

/// Key sources
#[derive(Debug, Clone)]
pub enum KeySource {
    /// Environment variable
    Environment(String),
    
    /// File
    File(String),
    
    /// Interactive prompt
    Interactive,
    
    /// Hardware security module
    Hsm(HsmConfig),
}

/// HSM configuration
#[derive(Debug, Clone)]
pub struct HsmConfig {
    /// HSM type
    pub hsm_type: HsmType,
    
    /// Connection details
    pub connection: HsmConnection,
    
    /// Key identifier
    pub key_id: String,
}

/// HSM types
#[derive(Debug, Clone)]
pub enum HsmType {
    /// PKCS#11
    Pkcs11,
    
    /// AWS CloudHSM
    AwsCloudHsm,
    
    /// Azure Dedicated HSM
    AzureDedicatedHsm,
}

/// HSM connection
#[derive(Debug, Clone)]
pub struct HsmConnection {
    /// Connection string
    pub connection_string: String,
    
    /// Authentication
    pub auth: AuthConfig,
    
    /// Timeout
    pub timeout: u64,
}

/// Stage types
#[derive(Debug, Clone)]
pub enum StageType {
    /// Build stage
    Build,
    
    /// Test stage
    Test,
    
    /// Quality check
    Quality,
    
    /// Security scan
    Security,
    
    /// Package stage
    Package,
    
    /// Deploy stage
    Deploy,
    
    /// Notification stage
    Notification,
    
    /// Custom stage
    Custom(String),
}

/// Stage conditions
#[derive(Debug, Clone)]
pub struct StageCondition {
    /// Condition type
    pub condition_type: ConditionType,
    
    /// Condition value
    pub value: String,
    
    /// Negate condition
    pub negate: bool,
}

/// Condition types
#[derive(Debug, Clone)]
pub enum ConditionType {
    /// Branch name
    Branch,
    
    /// Tag name
    Tag,
    
    /// Environment variable
    Environment,
    
    /// File exists
    FileExists,
    
    /// Previous stage success
    PreviousStageSuccess,
    
    /// Custom condition
    Custom(String),
}

/// Rollback configuration
#[derive(Debug, Clone)]
pub struct RollbackConfig {
    /// Enable rollback
    pub enabled: bool,
    
    /// Rollback strategy
    pub strategy: RollbackStrategy,
    
    /// Rollback conditions
    pub conditions: Vec<RollbackCondition>,
}

/// Rollback strategies
#[derive(Debug, Clone)]
pub enum RollbackStrategy {
    /// Previous version
    PreviousVersion,
    
    /// Specific version
    SpecificVersion(String),
    
    /// Custom rollback
    Custom(String),
}

/// Rollback conditions
#[derive(Debug, Clone)]
pub struct RollbackCondition {
    /// Condition type
    pub condition_type: RollbackConditionType,
    
    /// Threshold value
    pub threshold: String,
    
    /// Check interval (seconds)
    pub check_interval: u64,
}

/// Rollback condition types
#[derive(Debug, Clone)]
pub enum RollbackConditionType {
    /// Error rate
    ErrorRate,
    
    /// Response time
    ResponseTime,
    
    /// Health check failure
    HealthCheckFailure,
    
    /// Custom metric
    CustomMetric(String),
}

/// Artifact management
#[derive(Debug, Clone)]
pub struct ArtifactManagement {
    /// Artifact storage
    pub storage: ArtifactStorage,
    
    /// Retention policy
    pub retention: RetentionPolicy,
    
    /// Compression settings
    pub compression: CompressionConfig,
}

/// Artifact storage
#[derive(Debug, Clone)]
pub struct ArtifactStorage {
    /// Storage type
    pub storage_type: ArtifactStorageType,
    
    /// Storage configuration
    pub config: StorageConfig,
    
    /// Access control
    pub access_control: AccessControlConfig,
}

/// Artifact storage types
#[derive(Debug, Clone)]
pub enum ArtifactStorageType {
    /// Local filesystem
    Local,
    
    /// AWS S3
    S3,
    
    /// Google Cloud Storage
    Gcs,
    
    /// Azure Blob Storage
    AzureBlob,
    
    /// Artifactory
    Artifactory,
    
    /// Nexus
    Nexus,
}

/// Storage configuration
#[derive(Debug, Clone)]
pub struct StorageConfig {
    /// Storage path/bucket
    pub path: String,
    
    /// Authentication
    pub auth: AuthConfig,
    
    /// Region (for cloud storage)
    pub region: Option<String>,
    
    /// Storage class
    pub storage_class: Option<String>,
}

/// Access control configuration
#[derive(Debug, Clone)]
pub struct AccessControlConfig {
    /// Public access
    pub public_access: bool,
    
    /// Access permissions
    pub permissions: Vec<AccessPermission>,
    
    /// Access policies
    pub policies: Vec<AccessPolicy>,
}

/// Access permissions
#[derive(Debug, Clone)]
pub struct AccessPermission {
    /// Principal (user/group/service)
    pub principal: String,
    
    /// Permissions
    pub permissions: Vec<Permission>,
    
    /// Conditions
    pub conditions: Vec<AccessCondition>,
}

/// Permissions
#[derive(Debug, Clone)]
pub enum Permission {
    Read,
    Write,
    Delete,
    Admin,
}

/// Access conditions
#[derive(Debug, Clone)]
pub struct AccessCondition {
    /// Condition type
    pub condition_type: AccessConditionType,
    
    /// Condition value
    pub value: String,
}

/// Access condition types
#[derive(Debug, Clone)]
pub enum AccessConditionType {
    /// IP address range
    IpRange,
    
    /// Time range
    TimeRange,
    
    /// User agent
    UserAgent,
    
    /// Referrer
    Referrer,
}

/// Access policies
#[derive(Debug, Clone)]
pub struct AccessPolicy {
    /// Policy name
    pub name: String,
    
    /// Policy document
    pub document: String,
    
    /// Policy version
    pub version: String,
}

/// Retention policy
#[derive(Debug, Clone)]
pub struct RetentionPolicy {
    /// Retention period (days)
    pub retention_days: u32,
    
    /// Cleanup strategy
    pub cleanup_strategy: CleanupStrategy,
    
    /// Archive settings
    pub archive: ArchiveRetentionConfig,
}

/// Cleanup strategies
#[derive(Debug, Clone)]
pub enum CleanupStrategy {
    /// Delete old artifacts
    Delete,
    
    /// Archive old artifacts
    Archive,
    
    /// Compress old artifacts
    Compress,
    
    /// Custom cleanup
    Custom(String),
}

/// Archive retention configuration
#[derive(Debug, Clone)]
pub struct ArchiveRetentionConfig {
    /// Archive after days
    pub archive_after_days: u32,
    
    /// Archive storage
    pub archive_storage: ArtifactStorageType,
    
    /// Archive format
    pub archive_format: ArchiveFormat,
}

/// Archive formats
#[derive(Debug, Clone)]
pub enum ArchiveFormat {
    Tar,
    TarGz,
    TarXz,
    Zip,
    SevenZip,
}

/// Environment configuration
#[derive(Debug, Clone)]
pub struct EnvironmentConfig {
    /// Environment name
    pub name: String,
    
    /// Environment type
    pub env_type: EnvironmentType,
    
    /// Configuration values
    pub config: HashMap<String, String>,
    
    /// Deployment settings
    pub deployment: EnvironmentDeployment,
}

/// Environment types
#[derive(Debug, Clone)]
pub enum EnvironmentType {
    Development,
    Testing,
    Staging,
    Production,
    Custom(String),
}

/// Environment deployment
#[derive(Debug, Clone)]
pub struct EnvironmentDeployment {
    /// Deployment strategy
    pub strategy: DeploymentStrategy,
    
    /// Health checks
    pub health_checks: Vec<HealthCheckConfig>,
    
    /// Monitoring
    pub monitoring: MonitoringConfig,
}

/// Deployment configuration
#[derive(Debug, Clone)]
pub struct DeploymentConfig {
    /// Default strategy
    pub default_strategy: DeploymentStrategy,
    
    /// Environment-specific strategies
    pub environment_strategies: HashMap<String, DeploymentStrategy>,
}

#[derive(Debug, Clone)]
pub struct QualityConfig {}

#[derive(Debug, Clone)]
pub enum DeploymentStrategy {
    /// No strategy has been chosen yet.
    Unspecified,
}

#[derive(Debug, Clone)]
pub struct MonitoringConfig {}

} // verus!
