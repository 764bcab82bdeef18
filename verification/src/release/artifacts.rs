//! Release artifacts: their configuration, description and lookup.

use vstd::prelude::*;
use std::collections::HashMap;
use crate::release::{ProjectInfo, VersionInfo};
use crate::error::SemanticError;
use crate::keyed::KeyedList;
use crate::text::{concat, free_of, law_replace_absent_pattern, lemma_absent_when_free, lemma_join_free, lemma_other_absent, lemma_replace_single, push_str_chars, replace, replace_all, seq_contains, seq_ends_with, str_contains, str_eq, string_from_chars};

verus! {

/// Artifact manager for generating and organizing release artifacts
pub struct ArtifactManager {
    /// Manager configuration
    config: ArtifactConfig,
    
    /// Project information
    project: ProjectInfo,
    
    /// Version information
    version: VersionInfo,
    
    /// Generated artifacts, by id
    artifacts: KeyedList<Artifact>,
    
    /// Artifact sets
    artifact_sets: Vec<ArtifactSet>,
    
    /// Validation rules
    validation_rules: Vec<ValidationRule>,
    
    /// Signing configuration
    signing: Option<SigningConfig>,
}

/// Artifact configuration
#[derive(Debug, Clone)]
pub struct ArtifactConfig {
    /// Output directory for artifacts
    pub output_dir: String,
    
    /// Temporary directory for building
    pub temp_dir: String,
    
    /// Artifact types to generate
    pub artifact_types: Vec<ArtifactType>,
    
    /// Platform targets
    pub platforms: Vec<PlatformConfig>,
    
    /// Build configurations
    pub build_configs: Vec<BuildConfiguration>,
    
    /// Compression settings
    pub compression: CompressionConfig,
    
    /// Metadata settings
    pub metadata: MetadataConfig,
    
    /// Naming conventions
    pub naming: NamingConfig,
    
    /// Validation settings
    pub validation: ValidationConfig,
    
    /// Publishing settings
    pub publishing: PublishingConfig,
}

/// Artifact types
#[derive(Debug, Clone)]
pub enum ArtifactType {
    /// Executable binary
    Binary {
        name: String,
        target: String,
    },
    
    /// Shared library
    Library {
        name: String,
        target: String,
        version: String,
    },
    
    /// Static library
    StaticLibrary {
        name: String,
        target: String,
    },
    
    /// Documentation
    Documentation {
        format: DocumentationFormat,
        output_name: String,
    },
    
    /// Source code archive
    SourceArchive {
        format: ArchiveFormat,
        include_patterns: Vec<String>,
        exclude_patterns: Vec<String>,
    },
    
    /// Distribution package
    Package {
        format: PackageFormat,
        platform: String,
    },
    
    /// Container image
    ContainerImage {
        registry: String,
        repository: String,
        tags: Vec<String>,
    },
    
    /// Checksum file
    Checksum {
        algorithms: Vec<ChecksumAlgorithm>,
        format: ChecksumFormat,
    },
    
    /// Digital signature
    Signature {
        algorithm: SignatureAlgorithm,
        format: SignatureFormat,
    },
    
    /// Metadata file
    Metadata {
        format: MetadataFormat,
        content: MetadataContent,
    },
    
    /// Release notes
    ReleaseNotes {
        format: DocumentationFormat,
        template: Option<String>,
    },
    
    /// License file
    License {
        license_type: String,
        format: DocumentationFormat,
    },
    
    /// Installation script
    InstallScript {
        platform: String,
        script_type: ScriptType,
    },
    
    /// Configuration template
    ConfigTemplate {
        name: String,
        format: ConfigFormat,
    },
    
    /// Custom artifact
    Custom {
        name: String,
        generator: String,
        parameters: HashMap<String, String>,
    },
}

/// Documentation formats
#[derive(Debug, Clone)]
pub enum DocumentationFormat {
    Html,
    Pdf,
    Markdown,
    RestructuredText,
    AsciiDoc,
    ManPage,
    Epub,
}

/// Archive formats
#[derive(Debug, Clone)]
pub enum ArchiveFormat {
    Tar,
    TarGz,
    TarBz2,
    TarXz,
    Zip,
    SevenZip,
}

/// Package formats
#[derive(Debug, Clone)]
pub enum PackageFormat {
    Deb,
    Rpm,
    Msi,
    Pkg,
    Dmg,
    AppImage,
    Snap,
    Flatpak,
}

/// Checksum algorithms
#[derive(Debug, Clone, Hash, Eq, PartialEq)]
pub enum ChecksumAlgorithm {
    MD5,
    SHA1,
    SHA256,
    SHA512,
    Blake2b,
    Blake3,
}

/// Checksum formats
#[derive(Debug, Clone)]
pub enum ChecksumFormat {
    /// Simple text format (algorithm: checksum filename)
    Simple,
    
    /// BSD format
    BSD,
    
    /// GNU format
    GNU,
    
    /// JSON format
    JSON,
    
    /// XML format
    XML,
}

/// Signature algorithms
#[derive(Debug, Clone)]
pub enum SignatureAlgorithm {
    RSA2048,
    RSA4096,
    ECDSA256,
    ECDSA384,
    Ed25519,
}

/// Signature formats
#[derive(Debug, Clone)]
pub enum SignatureFormat {
    PEM,
    DER,
    PKCS7,
    GPG,
    Detached,
}

/// Metadata formats
#[derive(Debug, Clone)]
pub enum MetadataFormat {
    JSON,
    YAML,
    TOML,
    XML,
    Plist,
}

/// Metadata content types
#[derive(Debug, Clone)]
pub enum MetadataContent {
    ProjectInfo,
    BuildInfo,
    ReleaseInfo,
    DependencyInfo,
    SecurityInfo,
    PerformanceMetrics,
    Custom(String),
}

/// Script types
#[derive(Debug, Clone)]
pub enum ScriptType {
    Shell,
    PowerShell,
    Batch,
    Python,
    JavaScript,
    Ruby,
}

/// Configuration formats
#[derive(Debug, Clone)]
pub enum ConfigFormat {
    JSON,
    YAML,
    TOML,
    XML,
    INI,
    Properties,
}

/// Platform configuration
#[derive(Debug, Clone)]
pub struct PlatformConfig {
    /// Platform identifier
    pub name: String,
    
    /// Operating system
    pub os: String,
    
    /// Architecture
    pub arch: String,
    
    /// ABI variant
    pub abi: Option<String>,
    
    /// Minimum OS version
    pub min_os_version: Option<String>,
    
    /// Platform-specific options
    pub options: HashMap<String, String>,
    
    /// Cross-compilation settings
    pub cross_compile: Option<CrossCompileConfig>,
}

/// Cross-compilation configuration
#[derive(Debug, Clone)]
pub struct CrossCompileConfig {
    /// Target triple
    pub target: String,
    
    /// Toolchain path
    pub toolchain: Option<String>,
    
    /// Sysroot path
    pub sysroot: Option<String>,
    
    /// Environment variables
    pub env: HashMap<String, String>,
    
    /// Linker settings
    pub linker: Option<LinkerConfig>,
}

/// Linker configuration
#[derive(Debug, Clone)]
pub struct LinkerConfig {
    /// Linker executable
    pub linker: String,
    
    /// Linker flags
    pub flags: Vec<String>,
    
    /// Library paths
    pub library_paths: Vec<String>,
    
    /// Libraries to link
    pub libraries: Vec<String>,
}

/// Build configuration
#[derive(Debug, Clone)]
pub struct BuildConfiguration {
    /// Configuration name
    pub name: String,
    
    /// Build profile (debug, release, etc.)
    pub profile: String,
    
    /// Optimization level
    pub optimization: OptimizationLevel,
    
    /// Debug information
    pub debug_info: DebugInfoLevel,
    
    /// Feature flags
    pub features: Vec<String>,
    
    /// Environment variables
    pub env: HashMap<String, String>,
    
    /// Compiler flags
    pub compiler_flags: Vec<String>,
    
    /// Linker flags
    pub linker_flags: Vec<String>,
    
    /// Target-specific settings
    pub target_settings: HashMap<String, String>,
}

/// Optimization levels
#[derive(Debug, Clone)]
pub enum OptimizationLevel {
    NoOptimization,
    Size,
    Speed,
    Aggressive,
    Custom(String),
}

/// Debug information levels
#[derive(Debug, Clone)]
pub enum DebugInfoLevel {
    NoDebugInfo,
    Minimal,
    Full,
    Custom(String),
}

/// Compression configuration
#[derive(Debug, Clone)]
pub struct CompressionConfig {
    /// Enable compression
    pub enabled: bool,
    
    /// Compression algorithm
    pub algorithm: CompressionAlgorithm,
    
    /// Compression level
    pub level: u8,
    
    /// Minimum file size for compression
    pub min_size: u64,
    
    /// File patterns to compress
    pub include_patterns: Vec<String>,
    
    /// File patterns to exclude
    pub exclude_patterns: Vec<String>,
}

/// Compression algorithms
#[derive(Debug, Clone)]
pub enum CompressionAlgorithm {
    Gzip,
    Bzip2,
    Xz,
    Zstd,
    Lz4,
    Brotli,
}

/// Metadata configuration
#[derive(Debug, Clone)]
pub struct MetadataConfig {
    /// Include build metadata
    pub include_build_info: bool,
    
    /// Include dependency information
    pub include_dependencies: bool,
    
    /// Include performance metrics
    pub include_metrics: bool,
    
    /// Include security information
    pub include_security: bool,
    
    /// Custom metadata fields
    pub custom_fields: HashMap<String, String>,
    
    /// Metadata format
    pub format: MetadataFormat,
    
    /// Generate schema
    pub generate_schema: bool,
}

/// Naming configuration
#[derive(Debug, Clone)]
pub struct NamingConfig {
    /// Naming template
    pub template: String,
    
    /// Date format
    pub date_format: String,
    
    /// Version format
    pub version_format: String,
    
    /// Platform format
    pub platform_format: String,
    
    /// Custom variables
    pub variables: HashMap<String, String>,
    
    /// Case transformation
    pub case_transform: CaseTransform,
}

/// Case transformation options
#[derive(Debug, Clone)]
pub enum CaseTransform {
    Unchanged,
    Lower,
    Upper,
    Camel,
    Snake,
    Kebab,
}

/// Validation configuration
#[derive(Debug, Clone)]
pub struct ValidationConfig {
    /// Enable validation
    pub enabled: bool,
    
    /// Validation rules
    pub rules: Vec<ValidationRuleConfig>,
    
    /// Fail on validation errors
    pub fail_on_error: bool,
    
    /// Generate validation report
    pub generate_report: bool,
    
    /// Validation timeout
    pub timeout: u64,
}

/// Validation rule configuration
#[derive(Debug, Clone)]
pub struct ValidationRuleConfig {
    /// Rule name
    pub name: String,
    
    /// Rule type
    pub rule_type: ValidationRuleType,
    
    /// Rule parameters
    pub parameters: HashMap<String, String>,
    
    /// Rule severity
    pub severity: ValidationSeverity,
    
    /// Apply to artifact types
    pub apply_to: Vec<String>,
}

/// Validation rule types
#[derive(Debug, Clone)]
pub enum ValidationRuleType {
    FileSize,
    FileExists,
    Checksum,
    Signature,
    Executable,
    Library,
    Archive,
    Custom(String),
}

/// Validation severity levels
#[derive(Debug, Clone)]
pub enum ValidationSeverity {
    Info,
    Warning,
    Error,
    Critical,
}

/// Publishing configuration
#[derive(Debug, Clone)]
pub struct PublishingConfig {
    /// Enable publishing
    pub enabled: bool,
    
    /// Publishing targets
    pub targets: Vec<PublishingTarget>,
    
    /// Publishing metadata
    pub metadata: HashMap<String, String>,
    
    /// Pre-publish validation
    pub validate_before_publish: bool,
    
    /// Post-publish verification
    pub verify_after_publish: bool,
}

/// Publishing target
#[derive(Debug, Clone)]
pub struct PublishingTarget {
    /// Target name
    pub name: String,
    
    /// Target type
    pub target_type: PublishingTargetType,
    
    /// Target configuration
    pub config: HashMap<String, String>,
    
    /// Authentication
    pub auth: Option<PublishingAuth>,
    
    /// Include patterns
    pub include_patterns: Vec<String>,
    
    /// Exclude patterns
    pub exclude_patterns: Vec<String>,
}

/// Publishing target types
#[derive(Debug, Clone)]
pub enum PublishingTargetType {
    GitHub,
    GitLab,
    Registry,
    S3,
    CDN,
    Custom(String),
}

/// Publishing authentication
#[derive(Debug, Clone)]
pub struct PublishingAuth {
    /// Authentication type
    pub auth_type: AuthType,
    
    /// Credentials
    pub credentials: HashMap<String, String>,
}

/// Authentication types
#[derive(Debug, Clone)]
pub enum AuthType {
    Token,
    OAuth2,
    BasicAuth,
    Certificate,
    Custom(String),
}

/// Signing configuration
#[derive(Debug, Clone)]
pub struct SigningConfig {
    /// Signing key path
    pub key_path: String,
    
    /// Key passphrase
    pub passphrase: Option<String>,
    
    /// Signing algorithm
    pub algorithm: SignatureAlgorithm,
    
    /// Certificate chain
    pub cert_chain: Option<String>,
    
    /// Timestamp server
    pub timestamp_server: Option<String>,
    
    /// Sign all artifacts
    pub sign_all: bool,
    
    /// Signature format
    pub format: SignatureFormat,
}

/// Artifact representation
#[derive(Debug, Clone)]
pub struct Artifact {
    /// Artifact identifier
    pub id: String,
    
    /// Artifact name
    pub name: String,
    
    /// Artifact type
    pub artifact_type: ArtifactType,
    
    /// File path
    pub path: String,
    
    /// File size
    pub size: u64,
    
    /// Target platform
    pub platform: Option<String>,
    
    /// Build configuration
    pub build_config: Option<String>,
    
    /// Checksums
    pub checksums: HashMap<ChecksumAlgorithm, String>,
    
    /// Digital signature
    pub signature: Option<String>,
    
    /// Creation timestamp
    pub created_at: u64,
    
    /// Metadata
    pub metadata: ArtifactMetadata,
    
    /// Dependencies
    pub dependencies: Vec<String>,
    
    /// Validation results
    pub validation: Option<ValidationResult>,
}

/// Artifact metadata
#[derive(Debug, Clone)]
pub struct ArtifactMetadata {
    /// Content type
    pub content_type: String,
    
    /// Description
    pub description: String,
    
    /// Tags
    pub tags: Vec<String>,
    
    /// Build information
    pub build_info: Option<BuildInfo>,
    
    /// License information
    pub license: Option<String>,
    
    /// Custom properties
    pub properties: HashMap<String, String>,
}

/// Build information
#[derive(Debug, Clone)]
pub struct BuildInfo {
    /// Build timestamp
    pub timestamp: String,
    
    /// Build host
    pub host: String,
    
    /// Build user
    pub user: String,
    
    /// Compiler version
    pub compiler_version: String,
    
    /// Build flags
    pub build_flags: Vec<String>,
    
    /// Git information
    pub git_info: Option<GitInfo>,
    
    /// Environment variables
    pub env_vars: HashMap<String, String>,
}

/// Git information
#[derive(Debug, Clone)]
pub struct GitInfo {
    /// Commit hash
    pub commit: String,
    
    /// Branch name
    pub branch: String,
    
    /// Tag name
    pub tag: Option<String>,
    
    /// Repository URL
    pub repository: String,
    
    /// Commit timestamp
    pub commit_timestamp: String,
    
    /// Commit author
    pub author: String,
    
    /// Commit message
    pub message: String,
}

/// Artifact set
#[derive(Debug, Clone)]
pub struct ArtifactSet {
    /// Set name
    pub name: String,
    
    /// Set description
    pub description: String,
    
    /// Artifacts in the set
    pub artifacts: Vec<String>,
    
    /// Set metadata
    pub metadata: HashMap<String, String>,
    
    /// Release stage
    pub stage: ReleaseStage,
    
    /// Target audience
    pub audience: Vec<String>,
}

/// Release stages
#[derive(Debug, Clone)]
pub enum ReleaseStage {
    Development,
    Alpha,
    Beta,
    ReleaseCandidate,
    Stable,
    LongTermSupport,
    Deprecated,
}

/// Validation rule
pub struct ValidationRule {
    /// Rule configuration
    pub config: ValidationRuleConfig,
    
    /// Rule implementation
    pub validator: Box<dyn ArtifactValidator>,
}

/// Artifact validator trait
pub trait ArtifactValidator {
    /// Validate an artifact
    fn validate(&self, artifact: &Artifact) -> Result<ValidationResult, SemanticError>;
}

/// Validation result
#[derive(Debug, Clone)]
pub struct ValidationResult {
    /// Validation status
    pub status: ValidationStatus,
    
    /// Validation messages
    pub messages: Vec<ValidationMessage>,
    
    /// Validation duration
    pub duration: u64,
    
    /// Validation timestamp
    pub timestamp: u64,
}

/// Validation status
#[derive(Debug, Clone)]
pub enum ValidationStatus {
    Passed,
    Warning,
    Failed,
    Error,
}

/// Validation message
#[derive(Debug, Clone)]
pub struct ValidationMessage {
    /// Message severity
    pub severity: ValidationSeverity,
    
    /// Message text
    pub message: String,
    
    /// Rule name
    pub rule: String,
    
    /// Additional context
    pub context: HashMap<String, String>,
}

/// Whether two artifact types are the same kind of artifact.
pub open spec fn same_kind(a: ArtifactType, b: ArtifactType) -> bool {
    match (a, b) {
        (ArtifactType::Binary { .. }, ArtifactType::Binary { .. }) => true,
        (ArtifactType::Library { .. }, ArtifactType::Library { .. }) => true,
        (ArtifactType::StaticLibrary { .. }, ArtifactType::StaticLibrary { .. }) => true,
        (ArtifactType::Documentation { .. }, ArtifactType::Documentation { .. }) => true,
        (ArtifactType::SourceArchive { .. }, ArtifactType::SourceArchive { .. }) => true,
        (ArtifactType::Package { .. }, ArtifactType::Package { .. }) => true,
        (ArtifactType::ContainerImage { .. }, ArtifactType::ContainerImage { .. }) => true,
        (ArtifactType::Checksum { .. }, ArtifactType::Checksum { .. }) => true,
        (ArtifactType::Signature { .. }, ArtifactType::Signature { .. }) => true,
        (ArtifactType::Metadata { .. }, ArtifactType::Metadata { .. }) => true,
        (ArtifactType::ReleaseNotes { .. }, ArtifactType::ReleaseNotes { .. }) => true,
        (ArtifactType::License { .. }, ArtifactType::License { .. }) => true,
        (ArtifactType::InstallScript { .. }, ArtifactType::InstallScript { .. }) => true,
        (ArtifactType::ConfigTemplate { .. }, ArtifactType::ConfigTemplate { .. }) => true,
        (ArtifactType::Custom { .. }, ArtifactType::Custom { .. }) => true,
        _ => false,
    }
}

/// A number for each kind of artifact.
fn kind_number(t: &ArtifactType) -> (r: u8)
    ensures
        r == kind_number_spec(*t),
{
    match t {
        ArtifactType::Binary { .. } => 0,
        ArtifactType::Library { .. } => 1,
        ArtifactType::StaticLibrary { .. } => 2,
        ArtifactType::Documentation { .. } => 3,
        ArtifactType::SourceArchive { .. } => 4,
        ArtifactType::Package { .. } => 5,
        ArtifactType::ContainerImage { .. } => 6,
        ArtifactType::Checksum { .. } => 7,
        ArtifactType::Signature { .. } => 8,
        ArtifactType::Metadata { .. } => 9,
        ArtifactType::ReleaseNotes { .. } => 10,
        ArtifactType::License { .. } => 11,
        ArtifactType::InstallScript { .. } => 12,
        ArtifactType::ConfigTemplate { .. } => 13,
        ArtifactType::Custom { .. } => 14,
    }
}

/// The number of the kind of an artifact type.
pub open spec fn kind_number_spec(t: ArtifactType) -> u8 {
    match t {
        ArtifactType::Binary { .. } => 0,
        ArtifactType::Library { .. } => 1,
        ArtifactType::StaticLibrary { .. } => 2,
        ArtifactType::Documentation { .. } => 3,
        ArtifactType::SourceArchive { .. } => 4,
        ArtifactType::Package { .. } => 5,
        ArtifactType::ContainerImage { .. } => 6,
        ArtifactType::Checksum { .. } => 7,
        ArtifactType::Signature { .. } => 8,
        ArtifactType::Metadata { .. } => 9,
        ArtifactType::ReleaseNotes { .. } => 10,
        ArtifactType::License { .. } => 11,
        ArtifactType::InstallScript { .. } => 12,
        ArtifactType::ConfigTemplate { .. } => 13,
        ArtifactType::Custom { .. } => 14,
    }
}

proof fn lemma_same_kind(a: ArtifactType, b: ArtifactType)
    ensures
        same_kind(a, b) <==> kind_number_spec(a) == kind_number_spec(b),
{
}

/// Whether an artifact was built for the named platform.
pub open spec fn on_platform(a: Artifact, platform: Seq<char>) -> bool {
    a.platform matches Some(p) && p@ == platform
}


/// The lower-case name of a package format.
pub open spec fn package_format_word(f: PackageFormat) -> Seq<char> {
    match f {
        PackageFormat::Deb => "deb"@,
        PackageFormat::Rpm => "rpm"@,
        PackageFormat::Msi => "msi"@,
        PackageFormat::Pkg => "pkg"@,
        PackageFormat::Dmg => "dmg"@,
        PackageFormat::AppImage => "appimage"@,
        PackageFormat::Snap => "snap"@,
        PackageFormat::Flatpak => "flatpak"@,
    }
}

/// The lower-case name of a checksum algorithm.
pub open spec fn algorithm_word(a: ChecksumAlgorithm) -> Seq<char> {
    match a {
        ChecksumAlgorithm::MD5 => "md5"@,
        ChecksumAlgorithm::SHA1 => "sha1"@,
        ChecksumAlgorithm::SHA256 => "sha256"@,
        ChecksumAlgorithm::SHA512 => "sha512"@,
        ChecksumAlgorithm::Blake2b => "blake2b"@,
        ChecksumAlgorithm::Blake3 => "blake3"@,
    }
}

/// The lower-case name of a package format.
pub fn format_to_string(format: &PackageFormat) -> (r: String)
    ensures
        r@ == package_format_word(*format),
{
    match format {
        PackageFormat::Deb => "deb".to_owned(),
        PackageFormat::Rpm => "rpm".to_owned(),
        PackageFormat::Msi => "msi".to_owned(),
        PackageFormat::Pkg => "pkg".to_owned(),
        PackageFormat::Dmg => "dmg".to_owned(),
        PackageFormat::AppImage => "appimage".to_owned(),
        PackageFormat::Snap => "snap".to_owned(),
        PackageFormat::Flatpak => "flatpak".to_owned(),
    }
}

/// The lower-case name of a checksum algorithm.
pub fn algorithm_to_string(algorithm: &ChecksumAlgorithm) -> (r: String)
    ensures
        r@ == algorithm_word(*algorithm),
{
    match algorithm {
        ChecksumAlgorithm::MD5 => "md5".to_owned(),
        ChecksumAlgorithm::SHA1 => "sha1".to_owned(),
        ChecksumAlgorithm::SHA256 => "sha256".to_owned(),
        ChecksumAlgorithm::SHA512 => "sha512".to_owned(),
        ChecksumAlgorithm::Blake2b => "blake2b".to_owned(),
        ChecksumAlgorithm::Blake3 => "blake3".to_owned(),
    }
}

/// Whether a validation rule covers an artifact: a rule without patterns
/// covers all, otherwise one of its patterns occurs in the artifact's name or
/// id.
pub open spec fn rule_covers(apply_to: Seq<String>, a: Artifact) -> bool {
    apply_to.len() == 0 || exists|i: int| 0 <= i < apply_to.len() && (seq_contains(a.name@, (#[trigger] apply_to[i])@)
        || seq_contains(a.id@, apply_to[i]@))
}

/// The outcome of validating an artifact from the severities of the
/// findings: failed with an error or critical finding, a warning with a
/// warning finding, passed otherwise.
pub open spec fn status_of(messages: Seq<ValidationMessage>) -> ValidationStatus {
    if exists|i: int| 0 <= i < messages.len() && ((#[trigger] messages[i]).severity is Error || messages[i].severity is Critical) {
        ValidationStatus::Failed
    } else if exists|i: int| 0 <= i < messages.len() && (#[trigger] messages[i]).severity is Warning {
        ValidationStatus::Warning
    } else {
        ValidationStatus::Passed
    }
}

/// The outcome of validating an artifact, from the findings.
pub fn validation_status(messages: &Vec<ValidationMessage>) -> (r: ValidationStatus)
    ensures
        r == status_of(messages@),
{
    let mut i: usize = 0;
    while i < messages.len()
        invariant
            i <= messages@.len(),
            forall|j: int| 0 <= j < i ==> !((#[trigger] messages@[j]).severity is Error || messages@[j].severity is Critical),
        decreases messages@.len() - i,
    {
        match messages[i].severity {
            ValidationSeverity::Error | ValidationSeverity::Critical => return ValidationStatus::Failed,
            _ => {},
        }
        i = i + 1;
    }
    let mut k: usize = 0;
    while k < messages.len()
        invariant
            k <= messages@.len(),
            forall|j: int| 0 <= j < messages@.len() ==> !((#[trigger] messages@[j]).severity is Error || messages@[j].severity is Critical),
            forall|j: int| 0 <= j < k ==> !((#[trigger] messages@[j]).severity is Warning),
        decreases messages@.len() - k,
    {
        match messages[k].severity {
            ValidationSeverity::Warning => return ValidationStatus::Warning,
            _ => {},
        }
        k = k + 1;
    }
    ValidationStatus::Passed
}

impl ArtifactManager {
    /// The artifacts, by id.
    pub closed spec fn spec_artifacts(&self) -> KeyedList<Artifact> {
        self.artifacts
    }

    /// The artifact sets.
    pub closed spec fn spec_sets(&self) -> Seq<ArtifactSet> {
        self.artifact_sets@
    }

    /// Whether artifacts are signed.
    pub closed spec fn spec_signing(&self) -> Option<SigningConfig> {
        self.signing
    }

    /// The version being released.
    pub closed spec fn spec_version(&self) -> VersionInfo {
        self.version
    }

    /// The manager's configuration.
    pub closed spec fn spec_config(&self) -> ArtifactConfig {
        self.config
    }

    /// The project being released.
    pub closed spec fn spec_project(&self) -> ProjectInfo {
        self.project
    }

    /// An artifact manager with no artifacts. Creating the output
    /// directories is the caller's.
    pub fn new(config: ArtifactConfig, project: ProjectInfo, version: VersionInfo) -> (r: Self)
        ensures
            r.spec_artifacts()@ == Map::<Seq<char>, Artifact>::empty(),
            r.spec_artifacts().names().len() == 0,
            r.spec_sets().len() == 0,
            r.spec_signing() is None,
            r.spec_version() == version,
            r.spec_config() == config,
            r.spec_project() == project,
    {
        ArtifactManager {
            config,
            project,
            version,
            artifacts: KeyedList::new(),
            artifact_sets: Vec::new(),
            validation_rules: Vec::new(),
            signing: None,
        }
    }

    /// Records an artifact under its id, replacing an artifact with that id.
    pub fn insert_artifact(&mut self, artifact: Artifact)
        ensures
            final(self).spec_artifacts()@ == old(self).spec_artifacts()@.insert(artifact.id@, artifact),
            final(self).spec_sets() == old(self).spec_sets(),
            final(self).spec_signing() == old(self).spec_signing(),
            final(self).spec_version() == old(self).spec_version(),
            final(self).spec_config() == old(self).spec_config(),
            final(self).spec_project() == old(self).spec_project(),
            old(self).spec_artifacts().names().contains(artifact.id@) ==> final(self).spec_artifacts().names()
                == old(self).spec_artifacts().names(),
            !old(self).spec_artifacts().names().contains(artifact.id@) ==> final(self).spec_artifacts().names()
                == old(self).spec_artifacts().names().push(artifact.id@),
    {
        let id = artifact.id.clone();
        self.artifacts.insert(id, artifact);
    }

    /// Validates every artifact when validation is enabled, recording the
    /// outcome, the time taken (`duration`) and when (`timestamp`) in each.
    /// No validator can be registered with the manager, so every artifact
    /// passes with no findings. When validation is disabled nothing changes.
    pub fn validate_artifacts(&mut self, duration: u64, timestamp: u64) -> (r: Result<(), SemanticError>)
        ensures
            r is Ok,
            final(self).spec_sets() == old(self).spec_sets(),
            final(self).spec_signing() == old(self).spec_signing(),
            final(self).spec_version() == old(self).spec_version(),
            final(self).spec_config() == old(self).spec_config(),
            final(self).spec_project() == old(self).spec_project(),
            final(self).spec_artifacts().names() == old(self).spec_artifacts().names(),
            final(self).spec_artifacts()@.dom() == old(self).spec_artifacts()@.dom(),
            forall|k: Seq<char>| #[trigger] old(self).spec_artifacts()@.contains_key(k) ==> if old(
                self,
            ).spec_config().validation.enabled {
                validated(final(self).spec_artifacts()@[k], old(self).spec_artifacts()@[k], duration, timestamp)
            } else {
                final(self).spec_artifacts()@[k] == old(self).spec_artifacts()@[k]
            },
    {
        if !self.config.validation.enabled {
            return Ok(());
        }
        let mut old_list: KeyedList<Artifact> = KeyedList::new();
        std::mem::swap(&mut old_list, &mut self.artifacts);
        let ghost old_view = old_list@;
        let ghost old_names = old_list.names();
        let mut entries = old_list.into_entries();
        let ghost ev = entries@;
        let n = entries.len();
        let mut rebuilt: KeyedList<Artifact> = KeyedList::new();
        let mut j: usize = 0;
        assert(entries@ =~= ev.subrange(0, n as int));
        assert(rebuilt.names() =~= old_names.subrange(0, 0));
        assert(rebuilt@.dom() =~= old_names.subrange(0, 0).to_set());
        while j < n
            invariant
                n == ev.len(),
                j <= n,
                old_names.len() == n,
                old_names.no_duplicates(),
                ev.map_values(|e: (String, Artifact)| e.0@) == old_names,
                forall|i: int| 0 <= i < n ==> old_view.contains_key(#[trigger] old_names[i]) && old_view[old_names[i]] == ev[i].1,
                forall|k: Seq<char>| #[trigger] old_view.contains_key(k) <==> old_names.contains(k),
                entries@ == ev.subrange(j as int, n as int),
                rebuilt.names() == old_names.subrange(0, j as int),
                rebuilt@.dom() == old_names.subrange(0, j as int).to_set(),
                forall|i: int| 0 <= i < j ==> validated(#[trigger] rebuilt@[old_names[i]], ev[i].1, duration, timestamp),
            decreases n - j,
        {
            let (name, mut artifact) = entries.remove(0);
            assert(entries@ =~= ev.subrange(j + 1, n as int));
            assert(name@ == old_names[j as int]);
            let ghost before = rebuilt@;
            let ghost original = artifact;
            artifact.validation = Some(ValidationResult {
                status: ValidationStatus::Passed,
                messages: Vec::new(),
                duration,
                timestamp,
            });
            assert(validated(artifact, original, duration, timestamp));
            proof {
                assert(!old_names.subrange(0, j as int).contains(name@)) by {
                    if old_names.subrange(0, j as int).contains(name@) {
                        let t = old_names.subrange(0, j as int).index_of(name@);
                        assert(old_names[t] == old_names[j as int]);
                    }
                }
            }
            rebuilt.insert(name, artifact);
            proof {
                assert(old_names.subrange(0, j + 1) =~= old_names.subrange(0, j as int).push(old_names[j as int]));
                old_names.subrange(0, j as int).lemma_push_to_set_commute(old_names[j as int]);
                assert(rebuilt@.dom() =~= old_names.subrange(0, j + 1).to_set());
                assert forall|i: int| 0 <= i < j + 1 implies validated(
                    #[trigger] rebuilt@[old_names[i]],
                    ev[i].1,
                    duration,
                    timestamp,
                ) by {
                    if i < j {
                        assert(old_names[i] != old_names[j as int]);
                    }
                }
            }
            j = j + 1;
        }
        proof {
            assert(old_names.subrange(0, n as int) =~= old_names);
            assert forall|k: Seq<char>| #[trigger] old_view.contains_key(k) implies validated(
                rebuilt@[k],
                old_view[k],
                duration,
                timestamp,
            ) by {
                let i = old_names.index_of(k);
                assert(old_names[i] == k);
            }
            assert(rebuilt@.dom() =~= old_view.dom()) by {
                assert forall|k: Seq<char>| rebuilt@.dom().contains(k) <==> old_view.contains_key(k) by {
                    if old_names.contains(k) {
                        let i = old_names.index_of(k);
                        assert(old_names.to_set().contains(k));
                    }
                }
            }
        }
        self.artifacts = rebuilt;
        Ok(())
    }

    /// All artifacts, by id, in the order they were recorded.
    pub fn artifacts(&self) -> (r: &KeyedList<Artifact>)
        ensures
            *r == self.spec_artifacts(),
    {
        &self.artifacts
    }

    /// The version the artifacts are built for.
    pub fn version(&self) -> (r: &VersionInfo)
        ensures
            *r == self.spec_version(),
    {
        &self.version
    }

    /// The project the artifacts belong to.
    pub fn project(&self) -> (r: &ProjectInfo)
        ensures
            *r == self.spec_project(),
    {
        &self.project
    }

    /// The artifact with the given id.
    pub fn get_artifact(&self, id: &str) -> (r: Option<&Artifact>)
        ensures
            r is Some <==> self.spec_artifacts()@.contains_key(id@),
            r matches Some(a) ==> *a == self.spec_artifacts()@[id@],
    {
        self.artifacts.get(id)
    }

    /// The artifacts of the same kind as `artifact_type`, in the order they
    /// were recorded.
    pub fn get_artifacts_by_type(&self, artifact_type: &ArtifactType) -> (r: Vec<&Artifact>)
        ensures
            r@.map_values(|a: &Artifact| *a) == self.spec_artifacts().values().filter(
                |a: Artifact| same_kind(a.artifact_type, *artifact_type),
            ),
    {
        let entries = self.artifacts.entries();
        let ghost vals = self.spec_artifacts().values();
        let ghost pred = |a: Artifact| same_kind(a.artifact_type, *artifact_type);
        let wanted = kind_number(artifact_type);
        let mut r: Vec<&Artifact> = Vec::new();
        let mut i: usize = 0;
        while i < entries.len()
            invariant
                vals == entries@.map_values(|e: (String, Artifact)| e.1),
                i <= entries@.len(),
                wanted == kind_number_spec(*artifact_type),
                pred == (|a: Artifact| same_kind(a.artifact_type, *artifact_type)),
                r@.map_values(|a: &Artifact| *a) == vals.subrange(0, i as int).filter(pred),
            decreases entries@.len() - i,
        {
            let a = &entries[i].1;
            let ghost before = r@;
            proof {
                reveal_with_fuel(Seq::<Artifact>::filter, 1);
                assert(vals.subrange(0, i + 1).drop_last() =~= vals.subrange(0, i as int));
                assert(vals.subrange(0, i + 1).last() == *a);
                lemma_same_kind(a.artifact_type, *artifact_type);
            }
            if kind_number(&a.artifact_type) == wanted {
                r.push(a);
                assert(r@.map_values(|a: &Artifact| *a) =~= before.map_values(|a: &Artifact| *a).push(*a));
            } else {
                assert(r@.map_values(|a: &Artifact| *a) =~= before.map_values(|a: &Artifact| *a));
            }
            i = i + 1;
        }
        assert(vals.subrange(0, vals.len() as int) =~= vals);
        r
    }

    /// The artifacts built for the named platform, in the order they were
    /// recorded.
    pub fn get_artifacts_by_platform(&self, platform: &str) -> (r: Vec<&Artifact>)
        ensures
            r@.map_values(|a: &Artifact| *a) == self.spec_artifacts().values().filter(
                |a: Artifact| on_platform(a, platform@),
            ),
    {
        let entries = self.artifacts.entries();
        let ghost vals = self.spec_artifacts().values();
        let ghost pred = |a: Artifact| on_platform(a, platform@);
        let mut r: Vec<&Artifact> = Vec::new();
        let mut i: usize = 0;
        while i < entries.len()
            invariant
                vals == entries@.map_values(|e: (String, Artifact)| e.1),
                i <= entries@.len(),
                pred == (|a: Artifact| on_platform(a, platform@)),
                r@.map_values(|a: &Artifact| *a) == vals.subrange(0, i as int).filter(pred),
            decreases entries@.len() - i,
        {
            let a = &entries[i].1;
            let ghost before = r@;
            proof {
                reveal_with_fuel(Seq::<Artifact>::filter, 1);
                assert(vals.subrange(0, i + 1).drop_last() =~= vals.subrange(0, i as int));
                assert(vals.subrange(0, i + 1).last() == *a);
            }
            let matches = match &a.platform {
                Some(p) => str_eq(p.as_str(), platform),
                None => false,
            };
            if matches {
                r.push(a);
                assert(r@.map_values(|a: &Artifact| *a) =~= before.map_values(|a: &Artifact| *a).push(*a));
            } else {
                assert(r@.map_values(|a: &Artifact| *a) =~= before.map_values(|a: &Artifact| *a));
            }
            i = i + 1;
        }
        assert(vals.subrange(0, vals.len() as int) =~= vals);
        r
    }

    /// The artifact sets.
    pub fn get_artifact_sets(&self) -> (r: &[ArtifactSet])
        ensures
            r@ == self.spec_sets(),
    {
        self.artifact_sets.as_slice()
    }

    /// Whether a validation rule applies to an artifact.
    pub fn rule_applies_to_artifact(&self, rule_config: &ValidationRuleConfig, artifact: &Artifact) -> (r: bool)
        ensures
            r == rule_covers(rule_config.apply_to@, *artifact),
    {
        if rule_config.apply_to.len() == 0 {
            return true;
        }
        let mut i: usize = 0;
        while i < rule_config.apply_to.len()
            invariant
                i <= rule_config.apply_to@.len(),
                forall|j: int| 0 <= j < i ==> !(seq_contains(artifact.name@, (#[trigger] rule_config.apply_to@[j])@)
                    || seq_contains(artifact.id@, rule_config.apply_to@[j]@)),
            decreases rule_config.apply_to@.len() - i,
        {
            let pattern = rule_config.apply_to[i].as_str();
            if str_contains(artifact.name.as_str(), pattern) || str_contains(artifact.id.as_str(), pattern) {
                return true;
            }
            i = i + 1;
        }
        false
    }
}


/// The file extension of an artifact of the given type for a platform's
/// operating system.
pub open spec fn artifact_extension(t: ArtifactType, os: Option<Seq<char>>) -> Seq<char> {
    match t {
        ArtifactType::Binary { .. } => if os == Some("windows"@) { ".exe"@ } else { ""@ },
        ArtifactType::Library { .. } => if os == Some("windows"@) {
            ".dll"@
        } else if os == Some("macos"@) {
            ".dylib"@
        } else {
            ".so"@
        },
        ArtifactType::Documentation { format, .. } => match format {
            DocumentationFormat::Html => ".html"@,
            DocumentationFormat::Pdf => ".pdf"@,
            DocumentationFormat::Markdown => ".md"@,
            _ => ".txt"@,
        },
        ArtifactType::SourceArchive { format, .. } => match format {
            ArchiveFormat::Zip => ".zip"@,
            ArchiveFormat::TarGz => ".tar.gz"@,
            ArchiveFormat::TarXz => ".tar.xz"@,
            _ => ".tar"@,
        },
        _ => ""@,
    }
}

/// The name of an artifact: the naming template with `{name}`, `{version}`
/// and `{date}` filled in, then `{platform}`, `{os}` and `{arch}` when there
/// is a platform, then `{profile}` when there is a build configuration, and
/// the extension for the artifact's type appended.
pub open spec fn artifact_name(
    template: Seq<char>,
    name: Seq<char>,
    version: Seq<char>,
    date: Seq<char>,
    platform: Option<PlatformConfig>,
    profile: Option<Seq<char>>,
    t: ArtifactType,
) -> Seq<char> {
    let t1 = replace_all(replace_all(replace_all(template, "{name}"@, name), "{version}"@, version), "{date}"@, date);
    let t2 = match platform {
        Some(p) => replace_all(replace_all(replace_all(t1, "{platform}"@, p.name@), "{os}"@, p.os@), "{arch}"@, p.arch@),
        None => t1,
    };
    let t3 = match profile {
        Some(pr) => replace_all(t2, "{profile}"@, pr),
        None => t2,
    };
    t3 + artifact_extension(t, match platform {
        Some(p) => Some(p.os@),
        None => None,
    })
}

/// Artifact names end in the extension of their kind and platform: a
/// library's in `.dll` on Windows, `.dylib` on macOS and `.so` elsewhere or
/// with no platform; a binary's in `.exe` on Windows; documentation's in
/// `.html`, `.pdf`, `.md` or else `.txt`; a source archive's in `.zip`,
/// `.tar.gz`, `.tar.xz` or else `.tar`.
pub proof fn law_artifact_name_extensions(
    template: Seq<char>,
    name: Seq<char>,
    version: Seq<char>,
    date: Seq<char>,
    platform: Option<PlatformConfig>,
    profile: Option<Seq<char>>,
    t: ArtifactType,
)
    ensures
        (t is Library && (platform matches Some(p) && p.os@ == "windows"@)) ==> seq_ends_with(artifact_name(template, name, version, date, platform, profile, t), ".dll"@),
        (t is Library && (platform matches Some(p) && p.os@ == "macos"@)) ==> seq_ends_with(artifact_name(template, name, version, date, platform, profile, t), ".dylib"@),
        (t is Library && (platform is None || (platform matches Some(p) && p.os@ != "windows"@ && p.os@ != "macos"@)))
            ==> seq_ends_with(artifact_name(template, name, version, date, platform, profile, t), ".so"@),
        (t is Binary && (platform matches Some(p) && p.os@ == "windows"@)) ==> seq_ends_with(artifact_name(template, name, version, date, platform, profile, t), ".exe"@),
        (t matches ArtifactType::Documentation { format, .. } && format is Html) ==> seq_ends_with(artifact_name(template, name, version, date, platform, profile, t), ".html"@),
        (t matches ArtifactType::Documentation { format, .. } && format is Pdf) ==> seq_ends_with(artifact_name(template, name, version, date, platform, profile, t), ".pdf"@),
        (t matches ArtifactType::Documentation { format, .. } && format is Markdown) ==> seq_ends_with(artifact_name(template, name, version, date, platform, profile, t), ".md"@),
        (t matches ArtifactType::Documentation { format, .. } && !(format is Html || format is Pdf || format is Markdown))
            ==> seq_ends_with(artifact_name(template, name, version, date, platform, profile, t), ".txt"@),
        (t matches ArtifactType::SourceArchive { format, .. } && format is Zip) ==> seq_ends_with(artifact_name(template, name, version, date, platform, profile, t), ".zip"@),
        (t matches ArtifactType::SourceArchive { format, .. } && format is TarGz) ==> seq_ends_with(artifact_name(template, name, version, date, platform, profile, t), ".tar.gz"@),
        (t matches ArtifactType::SourceArchive { format, .. } && format is TarXz) ==> seq_ends_with(artifact_name(template, name, version, date, platform, profile, t), ".tar.xz"@),
        (t matches ArtifactType::SourceArchive { format, .. } && !(format is Zip || format is TarGz || format is TarXz))
            ==> seq_ends_with(artifact_name(template, name, version, date, platform, profile, t), ".tar"@),
{
    let n = artifact_name(template, name, version, date, platform, profile, t);
    let ext = artifact_extension(t, match platform {
        Some(p) => Some(p.os@),
        None => None,
    });
    reveal_strlit("windows");
    reveal_strlit("macos");
    reveal_strlit(".dll");
    reveal_strlit(".dylib");
    reveal_strlit(".so");
    reveal_strlit(".exe");
    assert("macos"@.len() != "windows"@.len());
    assert("macos"@ != "windows"@);
    assert(n.subrange(n.len() - ext.len(), n.len() as int) =~= ext);
    assert(seq_ends_with(n, ext));
    if t is Library {
        match platform {
            Some(p) => {
                if p.os@ == "windows"@ {
                    assert(ext == ".dll"@);
                } else if p.os@ == "macos"@ {
                    assert(ext == ".dylib"@);
                } else {
                    assert(ext == ".so"@);
                }
            },
            None => {
                assert(ext == ".so"@);
            },
        }
    }
    if t is Binary {
        if let Some(p) = platform {
            if p.os@ == "windows"@ {
                assert(ext == ".exe"@);
            }
        }
    }
}

/// Filling the naming template: a template that holds one of `{name}`,
/// `{version}`, `{os}` or `{arch}` once, and no other `{`, gives a name
/// with the project name, the version, the platform's operating system or
/// its architecture in its place, followed by the extension, when none of
/// the values filled in holds a `{`.
pub proof fn law_artifact_name_fills_template(
    a: Seq<char>,
    b: Seq<char>,
    name: Seq<char>,
    version: Seq<char>,
    date: Seq<char>,
    p: PlatformConfig,
    profile: Option<Seq<char>>,
    t: ArtifactType,
)
    requires
        free_of(a, '{'),
        free_of(b, '{'),
        free_of(name, '{'),
        free_of(version, '{'),
        free_of(date, '{'),
        free_of(p.name@, '{'),
        free_of(p.os@, '{'),
        free_of(p.arch@, '{'),
        profile matches Some(pr) ==> free_of(pr, '{'),
    ensures
        artifact_name(a + "{name}"@ + b, name, version, date, Some(p), profile, t) == a + name + b + artifact_extension(t, Some(p.os@)),
        artifact_name(a + "{version}"@ + b, name, version, date, Some(p), profile, t) == a + version + b + artifact_extension(t, Some(p.os@)),
        artifact_name(a + "{os}"@ + b, name, version, date, Some(p), profile, t) == a + p.os@ + b + artifact_extension(t, Some(p.os@)),
        artifact_name(a + "{arch}"@ + b, name, version, date, Some(p), profile, t) == a + p.arch@ + b + artifact_extension(t, Some(p.os@)),
{
    reveal_strlit("{name}");
    reveal_strlit("{version}");
    reveal_strlit("{date}");
    reveal_strlit("{platform}");
    reveal_strlit("{os}");
    reveal_strlit("{arch}");
    reveal_strlit("{profile}");
    // `{name}`
    {
        let pat = "{name}"@;
        assert forall|j: int| 0 < j < pat.len() implies #[trigger] pat[j] != pat[0] by {}
        let s = a + pat + b;
        lemma_replace_single(a, pat, b, name);
        lemma_join_free(a, name, b, '{');
        lemma_absent_when_free(a + name + b, "{version}"@);
        law_replace_absent_pattern(a + name + b, "{version}"@, version);
        lemma_absent_when_free(a + name + b, "{date}"@);
        law_replace_absent_pattern(a + name + b, "{date}"@, date);
        lemma_absent_when_free(a + name + b, "{platform}"@);
        law_replace_absent_pattern(a + name + b, "{platform}"@, p.name@);
        lemma_absent_when_free(a + name + b, "{os}"@);
        law_replace_absent_pattern(a + name + b, "{os}"@, p.os@);
        lemma_absent_when_free(a + name + b, "{arch}"@);
        law_replace_absent_pattern(a + name + b, "{arch}"@, p.arch@);
        match profile {
            Some(pr) => {
                lemma_absent_when_free(a + name + b, "{profile}"@);
                law_replace_absent_pattern(a + name + b, "{profile}"@, pr);
            },
            None => {},
        }
    }
    // `{version}`
    {
        let pat = "{version}"@;
        assert forall|j: int| 0 < j < pat.len() implies #[trigger] pat[j] != pat[0] by {}
        let s = a + pat + b;
        lemma_other_absent(a, pat, b, "{name}"@, 1);
        law_replace_absent_pattern(s, "{name}"@, name);
        lemma_replace_single(a, pat, b, version);
        lemma_join_free(a, version, b, '{');
        lemma_absent_when_free(a + version + b, "{date}"@);
        law_replace_absent_pattern(a + version + b, "{date}"@, date);
        lemma_absent_when_free(a + version + b, "{platform}"@);
        law_replace_absent_pattern(a + version + b, "{platform}"@, p.name@);
        lemma_absent_when_free(a + version + b, "{os}"@);
        law_replace_absent_pattern(a + version + b, "{os}"@, p.os@);
        lemma_absent_when_free(a + version + b, "{arch}"@);
        law_replace_absent_pattern(a + version + b, "{arch}"@, p.arch@);
        match profile {
            Some(pr) => {
                lemma_absent_when_free(a + version + b, "{profile}"@);
                law_replace_absent_pattern(a + version + b, "{profile}"@, pr);
            },
            None => {},
        }
    }
    // `{os}`
    {
        let pat = "{os}"@;
        assert forall|j: int| 0 < j < pat.len() implies #[trigger] pat[j] != pat[0] by {}
        let s = a + pat + b;
        lemma_other_absent(a, pat, b, "{name}"@, 1);
        law_replace_absent_pattern(s, "{name}"@, name);
        lemma_other_absent(a, pat, b, "{version}"@, 1);
        law_replace_absent_pattern(s, "{version}"@, version);
        lemma_other_absent(a, pat, b, "{date}"@, 1);
        law_replace_absent_pattern(s, "{date}"@, date);
        lemma_other_absent(a, pat, b, "{platform}"@, 1);
        law_replace_absent_pattern(s, "{platform}"@, p.name@);
        lemma_replace_single(a, pat, b, p.os@);
        lemma_join_free(a, p.os@, b, '{');
        lemma_absent_when_free(a + p.os@ + b, "{arch}"@);
        law_replace_absent_pattern(a + p.os@ + b, "{arch}"@, p.arch@);
        match profile {
            Some(pr) => {
                lemma_absent_when_free(a + p.os@ + b, "{profile}"@);
                law_replace_absent_pattern(a + p.os@ + b, "{profile}"@, pr);
            },
            None => {},
        }
    }
    // `{arch}`
    {
        let pat = "{arch}"@;
        assert forall|j: int| 0 < j < pat.len() implies #[trigger] pat[j] != pat[0] by {}
        let s = a + pat + b;
        lemma_other_absent(a, pat, b, "{name}"@, 1);
        law_replace_absent_pattern(s, "{name}"@, name);
        lemma_other_absent(a, pat, b, "{version}"@, 1);
        law_replace_absent_pattern(s, "{version}"@, version);
        lemma_other_absent(a, pat, b, "{date}"@, 1);
        law_replace_absent_pattern(s, "{date}"@, date);
        lemma_other_absent(a, pat, b, "{platform}"@, 1);
        law_replace_absent_pattern(s, "{platform}"@, p.name@);
        lemma_other_absent(a, pat, b, "{os}"@, 1);
        law_replace_absent_pattern(s, "{os}"@, p.os@);
        lemma_replace_single(a, pat, b, p.arch@);
        lemma_join_free(a, p.arch@, b, '{');
        match profile {
            Some(pr) => {
                lemma_absent_when_free(a + p.arch@ + b, "{profile}"@);
                law_replace_absent_pattern(a + p.arch@ + b, "{profile}"@, pr);
            },
            None => {},
        }
    }
}

/// The platform given, if any.
pub open spec fn platform_of(p: Option<&PlatformConfig>) -> Option<PlatformConfig> {
    match p {
        Some(x) => Some(*x),
        None => None,
    }
}

/// The build profile given, if any.
pub open spec fn profile_of(b: Option<&BuildConfiguration>) -> Option<Seq<char>> {
    match b {
        Some(x) => Some(x.profile@),
        None => None,
    }
}

/// Whether `c` is a conversion that stands alone after `%` in a date format.
pub open spec fn plain_conversion(c: char) -> bool {
    c == 'A' || c == 'B' || c == 'C' || c == 'D' || c == 'F' || c == 'G' || c == 'H' || c == 'I'
        || c == 'M' || c == 'P' || c == 'R' || c == 'S' || c == 'T' || c == 'U' || c == 'V'
        || c == 'W' || c == 'X' || c == 'Y' || c == 'Z' || c == 'a' || c == 'b' || c == 'c'
        || c == 'd' || c == 'e' || c == 'f' || c == 'g' || c == 'h' || c == 'j' || c == 'k'
        || c == 'l' || c == 'm' || c == 'n' || c == 'p' || c == 'q' || c == 'r' || c == 's'
        || c == 't' || c == 'u' || c == 'v' || c == 'w' || c == 'x' || c == 'y' || c == 'z'
        || c == '+' || c == '%'
}

/// Whether `c` is a numeric conversion, one that takes a padding modifier.
pub open spec fn numeric_conversion(c: char) -> bool {
    c == 'C' || c == 'G' || c == 'H' || c == 'I' || c == 'M' || c == 'S' || c == 'U' || c == 'V'
        || c == 'W' || c == 'Y' || c == 'd' || c == 'e' || c == 'f' || c == 'g' || c == 'j'
        || c == 'k' || c == 'l' || c == 'm' || c == 'q' || c == 's' || c == 'u' || c == 'w'
        || c == 'y'
}

/// Whether `c` is a padding modifier: `-`, `0` or `_`.
pub open spec fn padding_modifier(c: char) -> bool {
    c == '-' || c == '0' || c == '_'
}

/// Whether `c` is one of the fraction widths `3`, `6` and `9`.
pub open spec fn fraction_width(c: char) -> bool {
    c == '3' || c == '6' || c == '9'
}

/// Whether the character at `j` of `s` is `c`.
pub open spec fn char_at(s: Seq<char>, j: int, c: char) -> bool {
    0 <= j < s.len() && s[j] == c
}

/// The length of the date-format directive that starts with the `%` at `i`
/// of `s`, or 0 where no valid directive starts there. Valid directives are
/// a plain conversion (`%Y`), a padded numeric one (`%-d`), a second
/// fraction (`%.f`, `%.3f`, `%3f`) and an offset with colons (`%:z`, `%::z`,
/// `%:::z`).
pub open spec fn directive_len(s: Seq<char>, i: int) -> int {
    let n = s.len();
    if i + 1 < n && plain_conversion(s[i + 1]) {
        2
    } else if i + 2 < n && padding_modifier(s[i + 1]) && numeric_conversion(s[i + 2]) {
        3
    } else if char_at(s, i + 1, '.') && char_at(s, i + 2, 'f') {
        3
    } else if char_at(s, i + 1, '.') && i + 2 < n && fraction_width(s[i + 2]) && char_at(s, i + 3, 'f') {
        4
    } else if i + 1 < n && fraction_width(s[i + 1]) && char_at(s, i + 2, 'f') {
        3
    } else if char_at(s, i + 1, ':') && char_at(s, i + 2, 'z') {
        3
    } else if char_at(s, i + 1, ':') && char_at(s, i + 2, ':') && char_at(s, i + 3, 'z') {
        4
    } else if char_at(s, i + 1, ':') && char_at(s, i + 2, ':') && char_at(s, i + 3, ':') && char_at(s, i + 4, 'z') {
        5
    } else {
        0
    }
}

/// Whether every `%` of `s` from `i` on starts a valid directive.
pub open spec fn date_format_from(s: Seq<char>, i: int) -> bool
    decreases s.len() - i,
{
    if i < 0 || i >= s.len() {
        true
    } else if s[i] == '%' {
        let k = directive_len(s, i);
        k > 0 && date_format_from(s, i + k)
    } else {
        date_format_from(s, i + 1)
    }
}

/// Whether `s` is a date format that `chrono` formats a UTC time with:
/// every `%` starts a valid directive.
pub open spec fn date_format_ok(s: Seq<char>) -> bool {
    date_format_from(s, 0)
}

/// Whether `c` is the character at `i + off` of `v`.
fn char_at_exec(v: &Vec<char>, i: usize, off: usize, c: char) -> (r: bool)
    requires
        i < v.len(),
    ensures
        r == char_at(v@, i + off, c),
{
    off < v.len() - i && v[i + off] == c
}

fn is_plain_conversion(c: char) -> (r: bool)
    ensures
        r == plain_conversion(c),
{
    c == 'A' || c == 'B' || c == 'C' || c == 'D' || c == 'F' || c == 'G' || c == 'H' || c == 'I'
        || c == 'M' || c == 'P' || c == 'R' || c == 'S' || c == 'T' || c == 'U' || c == 'V'
        || c == 'W' || c == 'X' || c == 'Y' || c == 'Z' || c == 'a' || c == 'b' || c == 'c'
        || c == 'd' || c == 'e' || c == 'f' || c == 'g' || c == 'h' || c == 'j' || c == 'k'
        || c == 'l' || c == 'm' || c == 'n' || c == 'p' || c == 'q' || c == 'r' || c == 's'
        || c == 't' || c == 'u' || c == 'v' || c == 'w' || c == 'x' || c == 'y' || c == 'z'
        || c == '+' || c == '%'
}

fn is_numeric_conversion(c: char) -> (r: bool)
    ensures
        r == numeric_conversion(c),
{
    c == 'C' || c == 'G' || c == 'H' || c == 'I' || c == 'M' || c == 'S' || c == 'U' || c == 'V'
        || c == 'W' || c == 'Y' || c == 'd' || c == 'e' || c == 'f' || c == 'g' || c == 'j'
        || c == 'k' || c == 'l' || c == 'm' || c == 'q' || c == 's' || c == 'u' || c == 'w'
        || c == 'y'
}

/// The length of the directive at `i`, as `directive_len` gives it.
fn directive_len_exec(v: &Vec<char>, i: usize) -> (r: usize)
    requires
        i < v.len(),
    ensures
        r as int == directive_len(v@, i as int),
{
    let rest = v.len() - i;
    if 1 < rest && is_plain_conversion(v[i + 1]) {
        2
    } else if 2 < rest && (v[i + 1] == '-' || v[i + 1] == '0' || v[i + 1] == '_') && is_numeric_conversion(v[i + 2]) {
        3
    } else if char_at_exec(v, i, 1, '.') && char_at_exec(v, i, 2, 'f') {
        3
    } else if char_at_exec(v, i, 1, '.') && 2 < rest && (v[i + 2] == '3' || v[i + 2] == '6' || v[i + 2] == '9')
        && char_at_exec(v, i, 3, 'f') {
        4
    } else if 1 < rest && (v[i + 1] == '3' || v[i + 1] == '6' || v[i + 1] == '9') && char_at_exec(v, i, 2, 'f') {
        3
    } else if char_at_exec(v, i, 1, ':') && char_at_exec(v, i, 2, 'z') {
        3
    } else if char_at_exec(v, i, 1, ':') && char_at_exec(v, i, 2, ':') && char_at_exec(v, i, 3, 'z') {
        4
    } else if char_at_exec(v, i, 1, ':') && char_at_exec(v, i, 2, ':') && char_at_exec(v, i, 3, ':')
        && char_at_exec(v, i, 4, 'z') {
        5
    } else {
        0
    }
}

/// Whether `format` is a date format that the naming configuration can use:
/// every `%` in it starts a valid `chrono` directive.
pub fn valid_date_format(format: &str) -> (r: bool)
    ensures
        r == date_format_ok(format@),
{
    let v = crate::text::chars_of(format);
    let n = v.len();
    let mut i: usize = 0;
    while i < n
        invariant
            n == v@.len(),
            v@ == format@,
            i <= n + 4,
            date_format_ok(format@) == date_format_from(v@, i as int),
        decreases n + 4 - i,
    {
        if v[i] == '%' {
            let k = directive_len_exec(&v, i);
            if k == 0 {
                return false;
            }
            i = i + k;
        } else {
            i = i + 1;
        }
    }
    true
}

/// `%Y-%m-%d` is a valid date format.
proof fn lemma_iso_date_format()
    ensures
        date_format_ok("%Y-%m-%d"@),
{
    reveal_strlit("%Y-%m-%d");
    let s = "%Y-%m-%d"@;
    assert(date_format_from(s, 8));
    assert(date_format_from(s, 6));
    assert(date_format_from(s, 5));
    assert(date_format_from(s, 3));
    assert(date_format_from(s, 2));
    assert(date_format_from(s, 0));
}

/// The current time in UTC, formatted with the `chrono` format string
/// `format` (`chrono::Utc::now().format(format).to_string()`). `chrono`
/// fails, and `to_string` panics, on a format with an invalid directive, so
/// the format must pass `date_format_ok`. What it returns depends on the
/// clock, so nothing is stated of it.
#[verifier::external_body]
fn formatted_now(format: &str) -> String
    requires
        date_format_ok(format@),
{
    chrono::Utc::now().format(format).to_string()
}

impl ArtifactManager {
    /// The name of an artifact of the given type, with `date` standing for
    /// `{date}` in the naming template.
    pub fn artifact_name_on(
        &self,
        artifact_type: &ArtifactType,
        platform: Option<&PlatformConfig>,
        build_config: Option<&BuildConfiguration>,
        date: &str,
    ) -> (r: String)
        ensures
            r@ == artifact_name(
                self.spec_config().naming.template@,
                self.spec_project().name@,
                self.spec_version().current@,
                date@,
                platform_of(platform),
                profile_of(build_config),
                *artifact_type,
            ),
    {
        proof {
            reveal_strlit("{name}");
            reveal_strlit("{version}");
            reveal_strlit("{date}");
            reveal_strlit("{platform}");
            reveal_strlit("{os}");
            reveal_strlit("{arch}");
            reveal_strlit("{profile}");
        }
        let mut template = replace(self.config.naming.template.as_str(), "{name}", self.project.name.as_str());
        template = replace(template.as_str(), "{version}", self.version.current.as_str());
        template = replace(template.as_str(), "{date}", date);
        match platform {
            Some(p) => {
                template = replace(template.as_str(), "{platform}", p.name.as_str());
                template = replace(template.as_str(), "{os}", p.os.as_str());
                template = replace(template.as_str(), "{arch}", p.arch.as_str());
            },
            None => {},
        }
        match build_config {
            Some(b) => {
                template = replace(template.as_str(), "{profile}", b.profile.as_str());
            },
            None => {},
        }
        let windows = match platform {
            Some(p) => str_eq(p.os.as_str(), "windows"),
            None => false,
        };
        let macos = match platform {
            Some(p) => str_eq(p.os.as_str(), "macos"),
            None => false,
        };
        let extension = match artifact_type {
            ArtifactType::Binary { .. } => if windows { ".exe" } else { "" },
            ArtifactType::Library { .. } => if windows {
                ".dll"
            } else if macos {
                ".dylib"
            } else {
                ".so"
            },
            ArtifactType::Documentation { format, .. } => match format {
                DocumentationFormat::Html => ".html",
                DocumentationFormat::Pdf => ".pdf",
                DocumentationFormat::Markdown => ".md",
                _ => ".txt",
            },
            ArtifactType::SourceArchive { format, .. } => match format {
                ArchiveFormat::Zip => ".zip",
                ArchiveFormat::TarGz => ".tar.gz",
                ArchiveFormat::TarXz => ".tar.xz",
                _ => ".tar",
            },
            _ => "",
        };
        let mut out: Vec<char> = Vec::new();
        push_str_chars(&mut out, template.as_str());
        push_str_chars(&mut out, extension);
        string_from_chars(out.as_slice())
    }

    /// The name of an artifact of the given type, dated now in the naming
    /// configuration's date format.
    pub fn generate_artifact_name(
        &self,
        artifact_type: &ArtifactType,
        platform: Option<&PlatformConfig>,
        build_config: Option<&BuildConfiguration>,
    ) -> (r: String)
        requires
            date_format_ok(self.spec_config().naming.date_format@),
        ensures
            exists|date: Seq<char>| r@ == #[trigger] artifact_name(
                self.spec_config().naming.template@,
                self.spec_project().name@,
                self.spec_version().current@,
                date,
                platform_of(platform),
                profile_of(build_config),
                *artifact_type,
            ),
    {
        let date = formatted_now(self.config.naming.date_format.as_str());
        self.artifact_name_on(artifact_type, platform, build_config, date.as_str())
    }
}


/// The content type of a metadata file in the given format.
pub open spec fn metadata_content_type_text(format: MetadataFormat) -> Seq<char> {
    match format {
        MetadataFormat::JSON => "application/json"@,
        MetadataFormat::YAML => "application/x-yaml"@,
        MetadataFormat::TOML => "application/toml"@,
        MetadataFormat::XML => "application/xml"@,
        MetadataFormat::Plist => "text/plain"@,
    }
}

/// The content type of a metadata file in the given format.
pub fn metadata_content_type(format: &MetadataFormat) -> (r: String)
    ensures
        r@ == metadata_content_type_text(*format),
{
    match format {
        MetadataFormat::JSON => "application/json".to_owned(),
        MetadataFormat::YAML => "application/x-yaml".to_owned(),
        MetadataFormat::TOML => "application/toml".to_owned(),
        MetadataFormat::XML => "application/xml".to_owned(),
        MetadataFormat::Plist => "text/plain".to_owned(),
    }
}

/// The lines of a checksum file, one per `(checksum, file name)` pair in
/// order, each `checksum  name` and a newline.
pub open spec fn checksum_text(entries: Seq<(Seq<char>, Seq<char>)>) -> Seq<char>
    decreases entries.len(),
{
    if entries.len() == 0 {
        Seq::empty()
    } else {
        checksum_text(entries.drop_last()) + entries.last().0 + "  "@ + entries.last().1 + "\n"@
    }
}

/// The name of the checksum file of an algorithm: `checksums.` and the
/// algorithm's lower-case name.
pub fn checksum_file_name(algorithm: &ChecksumAlgorithm) -> (r: String)
    ensures
        r@ == "checksums."@ + algorithm_word(*algorithm),
{
    let word = algorithm_to_string(algorithm);
    concat("checksums.", word.as_str())
}

/// The id under which the checksum file of an algorithm is recorded:
/// `checksums-` and the algorithm's lower-case name.
pub fn checksum_artifact_id(algorithm: &ChecksumAlgorithm) -> (r: String)
    ensures
        r@ == "checksums-"@ + algorithm_word(*algorithm),
{
    let word = algorithm_to_string(algorithm);
    concat("checksums-", word.as_str())
}

/// The contents of a checksum file listing `(checksum, file name)` pairs:
/// one line `checksum  name` for each, in order.
pub fn checksum_file_text(entries: &Vec<(String, String)>) -> (r: String)
    ensures
        r@ == checksum_text(entries@.map_values(|e: (String, String)| (e.0@, e.1@))),
{
    let ghost ev = entries@.map_values(|e: (String, String)| (e.0@, e.1@));
    let mut out: Vec<char> = Vec::new();
    let mut i: usize = 0;
    while i < entries.len()
        invariant
            i <= entries@.len(),
            ev == entries@.map_values(|e: (String, String)| (e.0@, e.1@)),
            out@ == checksum_text(ev.subrange(0, i as int)),
        decreases entries@.len() - i,
    {
        push_str_chars(&mut out, entries[i].0.as_str());
        push_str_chars(&mut out, "  ");
        push_str_chars(&mut out, entries[i].1.as_str());
        push_str_chars(&mut out, "\n");
        proof {
            assert(ev.subrange(0, i + 1).drop_last() =~= ev.subrange(0, i as int));
            assert(ev.subrange(0, i + 1).last() == ev[i as int]);
        }
        i = i + 1;
    }
    assert(ev.subrange(0, entries@.len() as int) =~= ev);
    string_from_chars(out.as_slice())
}

/// Whether `after` is `before` with a passing validation recorded: no
/// findings, the given duration and time, every other field unchanged.
pub open spec fn validated(after: Artifact, before: Artifact, duration: u64, timestamp: u64) -> bool {
    &&& after.validation matches Some(v) && v.status is Passed && v.messages@.len() == 0 && v.duration == duration
        && v.timestamp == timestamp
    &&& after == Artifact { validation: after.validation, ..before }
}

/// The platforms artifacts are built for, each once, in the order they first
/// appear.
pub open spec fn platforms_of(arts: Seq<Artifact>) -> Seq<Seq<char>>
    decreases arts.len(),
{
    if arts.len() == 0 {
        Seq::empty()
    } else {
        let rest = platforms_of(arts.drop_last());
        match arts.last().platform {
            Some(p) => if rest.contains(p@) { rest } else { rest.push(p@) },
            None => rest,
        }
    }
}

/// Whether an artifact is built for the platform `p`.
pub open spec fn on_platform_named(a: Artifact, p: Seq<char>) -> bool {
    a.platform matches Some(q) && q@ == p
}

/// Whether an artifact documents the release: documentation, release notes
/// or a license.
pub open spec fn is_documentation(a: Artifact) -> bool {
    a.artifact_type is Documentation || a.artifact_type is ReleaseNotes || a.artifact_type is License
}

/// The ids of the artifacts that satisfy `pred`, in order.
pub open spec fn ids_where(arts: Seq<Artifact>, pred: spec_fn(Artifact) -> bool) -> Seq<Seq<char>> {
    arts.filter(pred).map_values(|a: Artifact| a.id@)
}

/// An artifact set as a mathematical value: name, description, artifact ids,
/// stage, audience, and whether its metadata is empty.
pub open spec fn set_view(s: ArtifactSet) -> (Seq<char>, Seq<char>, Seq<Seq<char>>, ReleaseStage, Seq<Seq<char>>, bool) {
    (
        s.name@,
        s.description@,
        s.artifacts@.map_values(|x: String| x@),
        s.stage,
        s.audience@.map_values(|x: String| x@),
        s.metadata@ == Map::<String, String>::empty(),
    )
}

/// The set of a platform's artifacts.
pub open spec fn platform_set(arts: Seq<Artifact>, p: Seq<char>, version: Seq<char>) -> (Seq<char>, Seq<char>, Seq<Seq<char>>, ReleaseStage, Seq<Seq<char>>, bool) {
    (
        p + "-"@ + version,
        "Artifacts for "@ + p + " platform"@,
        ids_where(arts, |a: Artifact| on_platform_named(a, p)),
        ReleaseStage::Stable,
        seq!["end-users"@],
        true,
    )
}

/// The set of the documentation artifacts.
pub open spec fn documentation_set(arts: Seq<Artifact>, version: Seq<char>) -> (Seq<char>, Seq<char>, Seq<Seq<char>>, ReleaseStage, Seq<Seq<char>>, bool) {
    (
        "documentation-"@ + version,
        "Documentation and release information"@,
        ids_where(arts, |a: Artifact| is_documentation(a)),
        ReleaseStage::Stable,
        seq!["developers"@, "end-users"@],
        true,
    )
}

/// The sets made from the artifacts: one per platform, in the order the
/// platforms first appear, then one of the documentation when there is any.
pub open spec fn new_sets(arts: Seq<Artifact>, version: Seq<char>) -> Seq<(Seq<char>, Seq<char>, Seq<Seq<char>>, ReleaseStage, Seq<Seq<char>>, bool)> {
    let per_platform = platforms_of(arts).map_values(|p: Seq<char>| platform_set(arts, p, version));
    if ids_where(arts, |a: Artifact| is_documentation(a)).len() > 0 {
        per_platform.push(documentation_set(arts, version))
    } else {
        per_platform
    }
}

/// Whether one of the strings holds the characters of `s`.
fn contains_string(v: &Vec<String>, s: &str) -> (r: bool)
    ensures
        r == v@.map_values(|x: String| x@).contains(s@),
{
    let ghost vv = v@.map_values(|x: String| x@);
    let mut i: usize = 0;
    while i < v.len()
        invariant
            vv == v@.map_values(|x: String| x@),
            i <= v@.len(),
            forall|j: int| 0 <= j < i ==> vv[j] != s@,
        decreases v@.len() - i,
    {
        if str_eq(v[i].as_str(), s) {
            assert(vv[i as int] == s@);
            return true;
        }
        i = i + 1;
    }
    false
}

/// The ids of the artifacts that satisfy the predicate `keep`.
fn ids_matching(vals: &Vec<(String, Artifact)>, platform: Option<&str>) -> (r: Vec<String>)
    ensures
        r@.map_values(|x: String| x@) == (match platform {
            Some(p) => ids_where(vals@.map_values(|e: (String, Artifact)| e.1), |a: Artifact| on_platform_named(a, p@)),
            None => ids_where(vals@.map_values(|e: (String, Artifact)| e.1), |a: Artifact| is_documentation(a)),
        }),
{
    let ghost arts = vals@.map_values(|e: (String, Artifact)| e.1);
    let ghost pred = match platform {
        Some(p) => |a: Artifact| on_platform_named(a, p@),
        None => |a: Artifact| is_documentation(a),
    };
    let mut r: Vec<String> = Vec::new();
    let mut i: usize = 0;
    while i < vals.len()
        invariant
            arts == vals@.map_values(|e: (String, Artifact)| e.1),
            pred == (match platform {
                Some(p) => |a: Artifact| on_platform_named(a, p@),
                None => |a: Artifact| is_documentation(a),
            }),
            i <= vals@.len(),
            r@.map_values(|x: String| x@) == arts.subrange(0, i as int).filter(pred).map_values(|a: Artifact| a.id@),
        decreases vals@.len() - i,
    {
        let a = &vals[i].1;
        let ghost before = r@;
        proof {
            reveal_with_fuel(Seq::<Artifact>::filter, 1);
            assert(arts.subrange(0, i + 1).drop_last() =~= arts.subrange(0, i as int));
            assert(arts.subrange(0, i + 1).last() == *a);
        }
        let keep = match platform {
            Some(p) => match &a.platform {
                Some(q) => str_eq(q.as_str(), p),
                None => false,
            },
            None => match &a.artifact_type {
                ArtifactType::Documentation { .. } | ArtifactType::ReleaseNotes { .. } | ArtifactType::License { .. } => true,
                _ => false,
            },
        };
        assert(keep == pred(*a));
        let ghost kept = arts.subrange(0, i as int).filter(pred);
        if keep {
            let id = a.id.clone();
            r.push(id);
            assert(r@.map_values(|x: String| x@) =~= before.map_values(|x: String| x@).push(a.id@));
            assert(kept.push(*a).map_values(|a: Artifact| a.id@) =~= kept.map_values(|a: Artifact| a.id@).push(a.id@));
            assert(r@.map_values(|x: String| x@) =~= kept.push(*a).map_values(|a: Artifact| a.id@));
        } else {
            assert(r@.map_values(|x: String| x@) =~= kept.map_values(|a: Artifact| a.id@));
        }
        i = i + 1;
    }
    assert(arts.subrange(0, vals@.len() as int) =~= arts);
    r
}

impl ArtifactManager {
    /// Groups the artifacts into sets: one per platform, named
    /// `platform-version`, in the order the platforms first appear among the
    /// artifacts, then one of the documentation artifacts when there are any.
    /// The sets are added after those already made.
    pub fn create_artifact_sets(&mut self)
        ensures
            final(self).spec_sets().map_values(|x: ArtifactSet| set_view(x))
                == old(self).spec_sets().map_values(|x: ArtifactSet| set_view(x))
                + new_sets(old(self).spec_artifacts().values(), old(self).spec_version().current@),
            final(self).spec_artifacts() == old(self).spec_artifacts(),
            final(self).spec_version() == old(self).spec_version(),
            final(self).spec_config() == old(self).spec_config(),
            final(self).spec_project() == old(self).spec_project(),
    {
        let entries = self.artifacts.entries();
        let ghost arts = self.spec_artifacts().values();
        assert(arts == entries@.map_values(|e: (String, Artifact)| e.1));
        let mut platforms: Vec<String> = Vec::new();
        let mut i: usize = 0;
        while i < entries.len()
            invariant
                arts == entries@.map_values(|e: (String, Artifact)| e.1),
                i <= entries@.len(),
                platforms@.map_values(|x: String| x@) == platforms_of(arts.subrange(0, i as int)),
            decreases entries@.len() - i,
        {
            let ghost pre = arts.subrange(0, i + 1);
            assert(pre.drop_last() =~= arts.subrange(0, i as int));
            assert(pre.last() == entries@[i as int].1);
            match &entries[i].1.platform {
                Some(p) => {
                    if !contains_string(&platforms, p.as_str()) {
                        let ghost before = platforms@;
                        platforms.push(p.clone());
                        assert(platforms@.map_values(|x: String| x@) =~= before.map_values(|x: String| x@).push(p@));
                    }
                },
                None => {},
            }
            i = i + 1;
        }
        assert(arts.subrange(0, entries@.len() as int) =~= arts);
        let ghost version = self.version.current@;
        let ghost old_sets = self.artifact_sets@.map_values(|x: ArtifactSet| set_view(x));
        let ghost plats = platforms_of(arts);
        let mut sets: Vec<ArtifactSet> = Vec::new();
        let mut k: usize = 0;
        while k < platforms.len()
            invariant
                arts == entries@.map_values(|e: (String, Artifact)| e.1),
                plats == platforms@.map_values(|x: String| x@),
                k <= platforms@.len(),
                version == self.version.current@,
                sets@.map_values(|x: ArtifactSet| set_view(x))
                    == plats.subrange(0, k as int).map_values(|p: Seq<char>| platform_set(arts, p, version)),
            decreases platforms@.len() - k,
        {
            let p = &platforms[k];
            let ids = ids_matching(entries, Some(p.as_str()));
            let name = concat(concat(p.as_str(), "-").as_str(), self.version.current.as_str());
            let description = concat(concat("Artifacts for ", p.as_str()).as_str(), " platform");
            let audience = vec!["end-users".to_owned()];
            let set = ArtifactSet {
                name,
                description,
                artifacts: ids,
                metadata: HashMap::new(),
                stage: ReleaseStage::Stable,
                audience,
            };
            assert(set.audience@.map_values(|x: String| x@) =~= seq!["end-users"@]);
            assert(set_view(set) == platform_set(arts, plats[k as int], version));
            let ghost before = sets@;
            let ghost sv = set_view(set);
            sets.push(set);
            assert(sets@.map_values(|x: ArtifactSet| set_view(x)) =~= before.map_values(|x: ArtifactSet| set_view(x)).push(sv));
            assert(plats.subrange(0, k + 1).map_values(|p: Seq<char>| platform_set(arts, p, version))
                =~= plats.subrange(0, k as int).map_values(|p: Seq<char>| platform_set(arts, p, version)).push(platform_set(arts, plats[k as int], version)));
            assert(sets@.map_values(|x: ArtifactSet| set_view(x))
                =~= plats.subrange(0, k + 1).map_values(|p: Seq<char>| platform_set(arts, p, version)));
            k = k + 1;
        }
        assert(plats.subrange(0, plats.len() as int) =~= plats);
        let docs = ids_matching(entries, None);
        if docs.len() > 0 {
            let set = ArtifactSet {
                name: concat("documentation-", self.version.current.as_str()),
                description: "Documentation and release information".to_owned(),
                artifacts: docs,
                metadata: HashMap::new(),
                stage: ReleaseStage::Stable,
                audience: vec!["developers".to_owned(), "end-users".to_owned()],
            };
            assert(set.audience@.map_values(|x: String| x@) =~= seq!["developers"@, "end-users"@]);
            let ghost before = sets@;
            sets.push(set);
            assert(sets@.map_values(|x: ArtifactSet| set_view(x))
                =~= before.map_values(|x: ArtifactSet| set_view(x)).push(documentation_set(arts, version)));
        }
        let ghost made = sets@.map_values(|x: ArtifactSet| set_view(x));
        assert(made == new_sets(arts, version));
        let ghost prior = self.artifact_sets@;
        self.artifact_sets.append(&mut sets);
        assert(self.artifact_sets@.map_values(|x: ArtifactSet| set_view(x))
            =~= prior.map_values(|x: ArtifactSet| set_view(x)) + made);
    }
}


/// `new` is `old` with the signature `signature_for_` followed by its id.
pub open spec fn signed_artifact(new: Artifact, old: Artifact) -> bool {
    &&& new.signature is Some
    &&& new == (Artifact { signature: new.signature, ..old })
    &&& new.signature->Some_0@ == "signature_for_"@ + old.id@
}

impl ArtifactManager {
    /// Signs each artifact, when signing is configured: its signature becomes
    /// `signature_for_` followed by its id.
    pub fn sign_artifacts(&mut self) -> (r: Result<(), SemanticError>)
        ensures
            r is Ok,
            final(self).spec_config() == old(self).spec_config(),
            final(self).spec_project() == old(self).spec_project(),
            final(self).spec_version() == old(self).spec_version(),
            final(self).spec_sets() == old(self).spec_sets(),
            final(self).spec_signing() == old(self).spec_signing(),
            old(self).spec_signing() is None ==> final(self).spec_artifacts() == old(self).spec_artifacts(),
            old(self).spec_signing() is Some ==> {
                &&& final(self).spec_artifacts()@.dom() == old(self).spec_artifacts()@.dom()
                &&& forall|k: Seq<char>| #[trigger] old(self).spec_artifacts()@.contains_key(k) ==> signed_artifact(
                    final(self).spec_artifacts()@[k],
                    old(self).spec_artifacts()@[k],
                )
            },
    {
        if self.signing.is_none() {
            return Ok(());
        }
        let mut signed: KeyedList<Artifact> = KeyedList::new();
        let mut old_list: KeyedList<Artifact> = KeyedList::new();
        std::mem::swap(&mut old_list, &mut self.artifacts);
        let ghost old_map = old_list@;
        let ghost names = old_list.names();
        let ghost values = old_list.values();
        let mut rest = old_list.into_entries();
        let ghost all = rest@;
        let n = rest.len();
        let mut i: usize = 0;
        while i < n
            invariant
                n == all.len(),
                i <= n,
                rest@ == all.subrange(i as int, n as int),
                all.map_values(|e: (String, Artifact)| e.0@) == names,
                all.map_values(|e: (String, Artifact)| e.1) == values,
                names.no_duplicates(),
                forall|j: int| 0 <= j < names.len() ==> old_map.contains_key(#[trigger] names[j]) && old_map[names[j]]
                    == values[j],
                forall|k: Seq<char>| #[trigger] old_map.contains_key(k) <==> names.contains(k),
                forall|k: Seq<char>| #[trigger] signed@.contains_key(k) <==> names.subrange(0, i as int).contains(k),
                forall|k: Seq<char>| #[trigger] signed@.contains_key(k) ==> signed_artifact(signed@[k], old_map[k]),
            decreases n - i,
        {
            let (name, mut a) = rest.remove(0);
            assert(name@ == names[i as int]);
            assert(a == values[i as int]);
            let ghost old_a = a;
            let mut sig: Vec<char> = Vec::new();
            push_str_chars(&mut sig, "signature_for_");
            push_str_chars(&mut sig, a.id.as_str());
            a.signature = Some(string_from_chars(sig.as_slice()));
            let ghost key = name@;
            signed.insert(name, a);
            i = i + 1;
            proof {
                assert(old_map[key] == old_a);
                assert(names.subrange(0, i as int) =~= names.subrange(0, i - 1).push(key));
                assert forall|k: Seq<char>| #[trigger] signed@.contains_key(k) <==> names.subrange(0, i as int).contains(k) by {
                    if names.subrange(0, i - 1).contains(k) {
                        let j = names.subrange(0, i - 1).index_of(k);
                        assert(names.subrange(0, i as int)[j] == k);
                    }
                    if names.subrange(0, i as int).contains(k) && k != key {
                        let j = names.subrange(0, i as int).index_of(k);
                        assert(j != i - 1);
                        assert(names.subrange(0, i - 1)[j] == k);
                    }
                    if k == key {
                        assert(names.subrange(0, i as int)[i - 1] == k);
                    }
                }
                assert(rest@ =~= all.subrange(i as int, n as int));
            }
        }
        proof {
            assert(names.subrange(0, n as int) =~= names);
            assert(signed@.dom() =~= old_map.dom());
        }
        self.artifacts = signed;
        Ok(())
    }

}


/// The install script for a platform: a shell script, a PowerShell script, or
/// for other script types a comment naming the project and the platform.
pub open spec fn install_script(name: Seq<char>, version: Seq<char>, platform: Seq<char>, t: ScriptType) -> Seq<char> {
    match t {
        ScriptType::Shell => "#!/bin/bash\n# Installation script for "@ + name + " "@ + version + "\n\nset -e\n\necho \"Installing "@ + name + " "@ + version + "...\"\n\n# Check platform\nif [[ \"$OSTYPE\" != \"linux-gnu\"* ]]; then\n    echo \"This installer is for Linux only\"\n    exit 1\nfi\n\n# Install binary\nsudo cp aether /usr/local/bin/\nsudo chmod +x /usr/local/bin/aether\n\necho \"Installation complete!\"\necho \"Run 'aether --version' to verify\"\n                "@,
        ScriptType::PowerShell => "# Installation script for "@ + name + " "@ + version + "\n\nWrite-Host \"Installing "@ + name + " "@ + version + "...\"\n\n# Check platform\nif ($env:OS -ne \"Windows_NT\") {\n    Write-Error \"This installer is for Windows only\"\n    exit 1\n}\n\n# Install binary\nCopy-Item \"aether.exe\" \"C:\\Program Files\\"@ + name + "\\aether.exe\" -Force\n\nWrite-Host \"Installation complete!\"\nWrite-Host \"Run 'aether --version' to verify\"\n                "@,
        _ => "# Installation script for "@ + name + " "@ + version + "\n# Platform: "@ + platform + "\n"@,
    }
}

/// The configuration template in a text format; `None` for JSON, which is
/// written by a JSON serializer.
pub open spec fn config_template(name: Seq<char>, version: Seq<char>, format: ConfigFormat) -> Option<Seq<char>> {
    match format {
        ConfigFormat::JSON => None,
        ConfigFormat::YAML => Some("# Configuration for "@ + name + "\nname: "@ + name + "\nversion: "@ + version + "\nlog_level: info\ndebug: false\nfeatures:\n  optimization: true\n  debugging: false\n                "@),
        ConfigFormat::TOML => Some("# Configuration for "@ + name + "\nname = \""@ + name + "\"\nversion = \""@ + version + "\"\nlog_level = \"info\"\ndebug = false\n\n[features]\noptimization = true\ndebugging = false\n                "@),
        _ => Some("# Configuration for "@ + name + "\nname="@ + name + "\nversion="@ + version + "\n"@),
    }
}

/// The default release notes, dated `date`.
pub open spec fn default_release_notes(name: Seq<char>, version: Seq<char>, date: Seq<char>) -> Seq<char> {
    "\n# Release Notes - "@ + name + " "@ + version + "\n\n## What's New\n\n- Bug fixes and performance improvements\n- Updated dependencies\n- Enhanced error handling\n\n## Breaking Changes\n\nNone\n\n## Security Fixes\n\nNone\n\n## Known Issues\n\nNone\n\n---\n\nReleased on: "@ + date + "\n            "@
}

impl ArtifactManager {
    /// The text of the install script for a platform.
    pub fn install_script_text(&self, platform: &str, script_type: &ScriptType) -> (r: String)
        ensures
            r@ == install_script(self.spec_project().name@, self.spec_version().current@, platform@, *script_type),
    {
        let name = self.project.name.as_str();
        let version = self.version.current.as_str();
        let mut out: Vec<char> = Vec::new();
        match script_type {
            ScriptType::Shell => {
                push_str_chars(&mut out, "#!/bin/bash\n# Installation script for ");
                push_str_chars(&mut out, name);
                push_str_chars(&mut out, " ");
                push_str_chars(&mut out, version);
                push_str_chars(&mut out, "\n\nset -e\n\necho \"Installing ");
                push_str_chars(&mut out, name);
                push_str_chars(&mut out, " ");
                push_str_chars(&mut out, version);
                push_str_chars(&mut out, "...\"\n\n# Check platform\nif [[ \"$OSTYPE\" != \"linux-gnu\"* ]]; then\n    echo \"This installer is for Linux only\"\n    exit 1\nfi\n\n# Install binary\nsudo cp aether /usr/local/bin/\nsudo chmod +x /usr/local/bin/aether\n\necho \"Installation complete!\"\necho \"Run 'aether --version' to verify\"\n                ");
            },
            ScriptType::PowerShell => {
                push_str_chars(&mut out, "# Installation script for ");
                push_str_chars(&mut out, name);
                push_str_chars(&mut out, " ");
                push_str_chars(&mut out, version);
                push_str_chars(&mut out, "\n\nWrite-Host \"Installing ");
                push_str_chars(&mut out, name);
                push_str_chars(&mut out, " ");
                push_str_chars(&mut out, version);
                push_str_chars(&mut out, "...\"\n\n# Check platform\nif ($env:OS -ne \"Windows_NT\") {\n    Write-Error \"This installer is for Windows only\"\n    exit 1\n}\n\n# Install binary\nCopy-Item \"aether.exe\" \"C:\\Program Files\\");
                push_str_chars(&mut out, name);
                push_str_chars(&mut out, "\\aether.exe\" -Force\n\nWrite-Host \"Installation complete!\"\nWrite-Host \"Run 'aether --version' to verify\"\n                ");
            },
            _ => {
                push_str_chars(&mut out, "# Installation script for ");
                push_str_chars(&mut out, name);
                push_str_chars(&mut out, " ");
                push_str_chars(&mut out, version);
                push_str_chars(&mut out, "\n# Platform: ");
                push_str_chars(&mut out, platform);
                push_str_chars(&mut out, "\n");
            },
        }
        string_from_chars(out.as_slice())
    }

    /// The text of the configuration template in a text format; `None` for
    /// JSON.
    pub fn config_template_text(&self, format: &ConfigFormat) -> (r: Option<String>)
        ensures
            match config_template(self.spec_project().name@, self.spec_version().current@, *format) {
                Some(t) => r matches Some(s) && s@ == t,
                None => r is None,
            },
    {
        let name = self.project.name.as_str();
        let version = self.version.current.as_str();
        let mut out: Vec<char> = Vec::new();
        match format {
            ConfigFormat::JSON => {
                return None;
            },
            ConfigFormat::YAML => {
                push_str_chars(&mut out, "# Configuration for ");
                push_str_chars(&mut out, name);
                push_str_chars(&mut out, "\nname: ");
                push_str_chars(&mut out, name);
                push_str_chars(&mut out, "\nversion: ");
                push_str_chars(&mut out, version);
                push_str_chars(&mut out, "\nlog_level: info\ndebug: false\nfeatures:\n  optimization: true\n  debugging: false\n                ");
            },
            ConfigFormat::TOML => {
                push_str_chars(&mut out, "# Configuration for ");
                push_str_chars(&mut out, name);
                push_str_chars(&mut out, "\nname = \"");
                push_str_chars(&mut out, name);
                push_str_chars(&mut out, "\"\nversion = \"");
                push_str_chars(&mut out, version);
                push_str_chars(&mut out, "\"\nlog_level = \"info\"\ndebug = false\n\n[features]\noptimization = true\ndebugging = false\n                ");
            },
            _ => {
                push_str_chars(&mut out, "# Configuration for ");
                push_str_chars(&mut out, name);
                push_str_chars(&mut out, "\nname=");
                push_str_chars(&mut out, name);
                push_str_chars(&mut out, "\nversion=");
                push_str_chars(&mut out, version);
                push_str_chars(&mut out, "\n");
            },
        }
        Some(string_from_chars(out.as_slice()))
    }

    /// The release notes: the template when one is given, else the default
    /// notes dated `date`.
    pub fn release_notes_on(&self, template: &Option<String>, date: &str) -> (r: String)
        ensures
            match template {
                Some(t) => r@ == t@,
                None => r@ == default_release_notes(self.spec_project().name@, self.spec_version().current@, date@),
            },
    {
        match template {
            Some(t) => t.clone(),
            None => {
                let name = self.project.name.as_str();
                let version = self.version.current.as_str();
                let mut out: Vec<char> = Vec::new();
                push_str_chars(&mut out, "\n# Release Notes - ");
                push_str_chars(&mut out, name);
                push_str_chars(&mut out, " ");
                push_str_chars(&mut out, version);
                push_str_chars(&mut out, "\n\n## What's New\n\n- Bug fixes and performance improvements\n- Updated dependencies\n- Enhanced error handling\n\n## Breaking Changes\n\nNone\n\n## Security Fixes\n\nNone\n\n## Known Issues\n\nNone\n\n---\n\nReleased on: ");
                push_str_chars(&mut out, date);
                push_str_chars(&mut out, "\n            ");
                string_from_chars(out.as_slice())
            },
        }
    }

    /// The release notes, the default ones dated today (`%Y-%m-%d`, UTC).
    pub fn release_notes_text(&self, template: &Option<String>) -> (r: String)
        ensures
            match template {
                Some(t) => r@ == t@,
                None => exists|date: Seq<char>| r@ == #[trigger] default_release_notes(
                    self.spec_project().name@,
                    self.spec_version().current@,
                    date,
                ),
            },
    {
        proof {
            lemma_iso_date_format();
        }
        let date = formatted_now("%Y-%m-%d");
        self.release_notes_on(template, date.as_str())
    }
}


/// The documentation of a release in the given format, dated `date`.
pub open spec fn documentation(name: Seq<char>, version: Seq<char>, date: Seq<char>, format: DocumentationFormat) -> Seq<char> {
    match format {
        DocumentationFormat::Html => "\n<!DOCTYPE html>\n<html>\n<head>\n    <title>"@ + name + " Documentation</title>\n</head>\n<body>\n    <h1>"@ + name + " Documentation</h1>\n    <p>Version: "@ + version + "</p>\n    <p>Generated on: "@ + date + "</p>\n</body>\n</html>\n                "@,
        DocumentationFormat::Markdown => "\n# "@ + name + " Documentation\n\nVersion: "@ + version + "\nGenerated: "@ + date + "\n\n## Overview\n\n"@ + name + " is a programming language designed for optimal generation by Large Language Models.\n\n## Installation\n\nInstructions for installing "@ + name + ".\n\n## Usage\n\nBasic usage examples and tutorials.\n                "@,
        _ => name + " Documentation\nVersion: "@ + version + "\nGenerated: "@ + date,
    }
}

/// The MIME type documentation in the given format is published with.
pub open spec fn documentation_content_type(format: DocumentationFormat) -> Seq<char> {
    match format {
        DocumentationFormat::Html => "text/html"@,
        DocumentationFormat::Pdf => "application/pdf"@,
        DocumentationFormat::Markdown => "text/markdown"@,
        _ => "text/plain"@,
    }
}

/// The MIME type documentation in the given format is published with.
pub fn documentation_content_type_of(format: &DocumentationFormat) -> (r: String)
    ensures
        r@ == documentation_content_type(*format),
{
    let t = match format {
        DocumentationFormat::Html => "text/html",
        DocumentationFormat::Pdf => "application/pdf",
        DocumentationFormat::Markdown => "text/markdown",
        _ => "text/plain",
    };
    t.to_owned()
}

impl ArtifactManager {
    /// The documentation in the given format, dated `date`.
    pub fn documentation_text_on(&self, format: &DocumentationFormat, date: &str) -> (r: String)
        ensures
            r@ == documentation(self.spec_project().name@, self.spec_version().current@, date@, *format),
    {
        let name = self.project.name.as_str();
        let version = self.version.current.as_str();
        let mut out: Vec<char> = Vec::new();
        match format {
            DocumentationFormat::Html => {
                push_str_chars(&mut out, "\n<!DOCTYPE html>\n<html>\n<head>\n    <title>");
                push_str_chars(&mut out, name);
                push_str_chars(&mut out, " Documentation</title>\n</head>\n<body>\n    <h1>");
                push_str_chars(&mut out, name);
                push_str_chars(&mut out, " Documentation</h1>\n    <p>Version: ");
                push_str_chars(&mut out, version);
                push_str_chars(&mut out, "</p>\n    <p>Generated on: ");
                push_str_chars(&mut out, date);
                push_str_chars(&mut out, "</p>\n</body>\n</html>\n                ");
            },
            DocumentationFormat::Markdown => {
                push_str_chars(&mut out, "\n# ");
                push_str_chars(&mut out, name);
                push_str_chars(&mut out, " Documentation\n\nVersion: ");
                push_str_chars(&mut out, version);
                push_str_chars(&mut out, "\nGenerated: ");
                push_str_chars(&mut out, date);
                push_str_chars(&mut out, "\n\n## Overview\n\n");
                push_str_chars(&mut out, name);
                push_str_chars(&mut out, " is a programming language designed for optimal generation by Large Language Models.\n\n## Installation\n\nInstructions for installing ");
                push_str_chars(&mut out, name);
                push_str_chars(&mut out, ".\n\n## Usage\n\nBasic usage examples and tutorials.\n                ");
            },
            _ => {
                push_str_chars(&mut out, name);
                push_str_chars(&mut out, " Documentation\nVersion: ");
                push_str_chars(&mut out, version);
                push_str_chars(&mut out, "\nGenerated: ");
                push_str_chars(&mut out, date);
            },
        }
        string_from_chars(out.as_slice())
    }

    /// The documentation in the given format, dated today (`%Y-%m-%d`, UTC).
    pub fn documentation_text(&self, format: &DocumentationFormat) -> (r: String)
        ensures
            exists|date: Seq<char>| r@ == #[trigger] documentation(
                self.spec_project().name@,
                self.spec_version().current@,
                date,
                *format,
            ),
    {
        proof {
            lemma_iso_date_format();
        }
        let date = formatted_now("%Y-%m-%d");
        self.documentation_text_on(format, date.as_str())
    }
}

} // verus!
