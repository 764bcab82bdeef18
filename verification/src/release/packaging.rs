//! Package creation for AetherScript releases: formats, metadata, and the
//! generated package names and control files.

use vstd::prelude::*;
use std::collections::HashMap;
use crate::checksum::{hex8, hex_bytes, padded_hex, sha256_digest, sha256_hex, sha512_digest, sha512_hex};
use crate::error::SemanticError;
use crate::keyed::KeyedList;
use crate::text::{decimal, digits_exec, push_str_chars, str_eq, string_from_chars};

verus! {

/// Package builder for creating distribution packages
pub struct PackageBuilder {
    /// Builder configuration
    config: PackageBuilderConfig,
    
    /// Build artifacts, by file name
    artifacts: KeyedList<ArtifactInfo>,
    
    /// Package metadata
    metadata: PackageMetadata,
    
    /// Supported package formats
    formats: Vec<PackageFormat>,
    
    /// Compression settings
    compression: CompressionSettings,
}

/// Compression settings
#[derive(Debug, Clone)]
pub struct CompressionSettings {
    /// Compression level (0-9)
    pub level: u32,
    
    /// Compression algorithm
    pub algorithm: CompressionAlgorithm,
}

/// Compression algorithm
#[derive(Debug, Clone)]
pub enum CompressionAlgorithm {
    Uncompressed,
    Gzip,
    Bzip2,
    Xz,
    Zstd,
    Lz4,
    Brotli,
}

/// Package builder configuration
#[derive(Debug, Clone)]
pub struct PackageBuilderConfig {
    /// Build directory
    pub build_dir: String,
    
    /// Output directory
    pub output_dir: String,
    
    /// Temporary directory
    pub temp_dir: String,
    
    /// Signing configuration
    pub signing: Option<SigningConfig>,
    
    /// Verification settings
    pub verification: VerificationConfig,
    
    /// Package formats to create
    pub formats: Vec<PackageFormatConfig>,
    
    /// Archive settings
    pub archive: ArchiveConfig,
    
    /// Installer settings
    pub installer: InstallerConfig,
}

/// Package formats
#[derive(Debug, Clone, PartialEq)]
pub enum PackageFormat {
    /// ZIP archive
    Zip,
    
    /// TAR.GZ archive
    TarGz,
    
    /// TAR.XZ archive
    TarXz,
    
    /// DEB package (Debian/Ubuntu)
    Deb,
    
    /// RPM package (Red Hat/SUSE)
    Rpm,
    
    /// MSI installer (Windows)
    Msi,
    
    /// PKG installer (macOS)
    Pkg,
    
    /// DMG disk image (macOS)
    Dmg,
    
    /// AppImage (Linux)
    AppImage,
    
    /// Snap package (Linux)
    Snap,
    
    /// Flatpak (Linux)
    Flatpak,
    
    /// Docker image
    Docker,
    
    /// OCI container
    Oci,
    
    /// Homebrew formula
    Homebrew,
    
    /// Chocolatey package
    Chocolatey,
    
    /// NPM package
    Npm,
    
    /// PyPI package
    PyPi,
    
    /// Custom format
    Custom(String),
}

/// Package format configuration
#[derive(Debug, Clone)]
pub struct PackageFormatConfig {
    /// Format type
    pub format: PackageFormat,
    
    /// Platform targets
    pub platforms: Vec<PlatformTarget>,
    
    /// Format-specific options
    pub options: HashMap<String, String>,
    
    /// Include patterns
    pub includes: Vec<String>,
    
    /// Exclude patterns
    pub excludes: Vec<String>,
    
    /// Post-processing steps
    pub post_process: Vec<String>,
}

/// Platform target
#[derive(Debug, Clone)]
pub struct PlatformTarget {
    /// Operating system
    pub os: String,
    
    /// Architecture
    pub arch: String,
    
    /// ABI/variant
    pub variant: Option<String>,
    
    /// Minimum OS version
    pub min_version: Option<String>,
    
    /// Platform-specific options
    pub options: HashMap<String, String>,
}

/// Artifact information
#[derive(Debug, Clone)]
pub struct ArtifactInfo {
    /// Artifact path
    pub path: String,
    
    /// Artifact type
    pub artifact_type: ArtifactType,
    
    /// Target platform
    pub platform: Option<PlatformTarget>,
    
    /// File size
    pub size: u64,
    
    /// Checksum
    pub checksum: String,
    
    /// Signature
    pub signature: Option<String>,
    
    /// Metadata
    pub metadata: HashMap<String, String>,
}

/// Artifact types
#[derive(Debug, Clone)]
pub enum ArtifactType {
    /// Executable binary
    Executable,
    
    /// Shared library
    Library,
    
    /// Static library
    StaticLibrary,
    
    /// Documentation
    Documentation,
    
    /// Configuration file
    Configuration,
    
    /// Resource file
    Resource,
    
    /// Script
    Script,
    
    /// Archive
    Archive,
    
    /// Installer
    Installer,
    
    /// Container image
    Container,
    
    /// Metadata file
    Metadata,
}

/// Package metadata
#[derive(Debug, Clone)]
pub struct PackageMetadata {
    /// Package name
    pub name: String,
    
    /// Package version
    pub version: String,
    
    /// Package description
    pub description: String,
    
    /// Package maintainer
    pub maintainer: String,
    
    /// Package homepage
    pub homepage: String,
    
    /// Package license
    pub license: String,
    
    /// Package dependencies
    pub dependencies: Vec<PackageDependency>,
    
    /// Package categories
    pub categories: Vec<String>,
    
    /// Package keywords
    pub keywords: Vec<String>,
    
    /// Installation size
    pub installed_size: Option<u64>,
    
    /// Download size
    pub download_size: Option<u64>,
    
    /// Package priority
    pub priority: PackagePriority,
    
    /// Custom fields
    pub custom_fields: HashMap<String, String>,
}

/// Package dependency
#[derive(Debug, Clone)]
pub struct PackageDependency {
    /// Dependency name
    pub name: String,
    
    /// Version requirement
    pub version: Option<String>,
    
    /// Dependency type
    pub dependency_type: DependencyType,
    
    /// Platform constraints
    pub platforms: Vec<PlatformTarget>,
}

/// Dependency types
#[derive(Debug, Clone)]
pub enum DependencyType {
    /// Required dependency
    Required,
    
    /// Optional dependency
    Optional,
    
    /// Recommended dependency
    Recommended,
    
    /// Suggested dependency
    Suggested,
    
    /// Build dependency
    Build,
    
    /// Test dependency
    Test,
    
    /// Runtime dependency
    Runtime,
}

/// Package priority levels
#[derive(Debug, Clone)]
pub enum PackagePriority {
    Required,
    Important,
    Standard,
    Optional,
    Extra,
}

/// Signing configuration
#[derive(Debug, Clone)]
pub struct SigningConfig {
    /// Signing key path
    pub key_path: String,
    
    /// Key passphrase
    pub passphrase: Option<String>,
    
    /// Signing algorithm
    pub algorithm: SigningAlgorithm,
    
    /// Certificate chain
    pub cert_chain: Option<String>,
    
    /// Timestamp server
    pub timestamp_server: Option<String>,
    
    /// Sign all artifacts
    pub sign_all: bool,
}

/// Signing algorithms
#[derive(Debug, Clone)]
pub enum SigningAlgorithm {
    Rsa2048,
    Rsa4096,
    EcdsaP256,
    EcdsaP384,
    Ed25519,
}

/// Verification configuration
#[derive(Debug, Clone)]
pub struct VerificationConfig {
    /// Generate checksums
    pub checksums: bool,
    
    /// Checksum algorithms
    pub checksum_algorithms: Vec<ChecksumAlgorithm>,
    
    /// Verify signatures
    pub verify_signatures: bool,
    
    /// Trusted certificates
    pub trusted_certs: Vec<String>,
    
    /// Verification strict mode
    pub strict_mode: bool,
}

/// Checksum algorithms
#[derive(Debug, Clone, Hash, Eq, PartialEq)]
pub enum ChecksumAlgorithm {
    Md5,
    Sha1,
    Sha256,
    Sha512,
    Blake2b,
    Blake3,
}

/// Archive configuration
#[derive(Debug, Clone)]
pub struct ArchiveConfig {
    /// Compression level (0-9)
    pub compression_level: u8,
    
    /// Include hidden files
    pub include_hidden: bool,
    
    /// Preserve permissions
    pub preserve_permissions: bool,
    
    /// Preserve timestamps
    pub preserve_timestamps: bool,
    
    /// Archive format options
    pub format_options: HashMap<String, String>,
}

/// Installer configuration
#[derive(Debug, Clone)]
pub struct InstallerConfig {
    /// Installer type
    pub installer_type: InstallerType,
    
    /// Installation directory
    pub install_dir: String,
    
    /// Create desktop shortcuts
    pub desktop_shortcuts: bool,
    
    /// Create start menu entries
    pub start_menu: bool,
    
    /// Add to PATH
    pub add_to_path: bool,
    
    /// License agreement
    pub license_agreement: Option<String>,
    
    /// Custom install scripts
    pub install_scripts: Vec<String>,
    
    /// Uninstall scripts
    pub uninstall_scripts: Vec<String>,
    
    /// Installer branding
    pub branding: InstallerBranding,
}

/// Installer types
#[derive(Debug, Clone)]
pub enum InstallerType {
    /// NSIS installer (Windows)
    Nsis,
    
    /// WiX installer (Windows)
    Wix,
    
    /// InstallShield (Windows)
    InstallShield,
    
    /// PackageMaker (macOS)
    PackageMaker,
    
    /// productbuild (macOS)
    ProductBuild,
    
    /// makeself (Linux)
    MakeSelf,
    
    /// Generic shell script
    ShellScript,
}

/// Installer branding
#[derive(Debug, Clone)]
pub struct InstallerBranding {
    /// Company name
    pub company: String,
    
    /// Product name
    pub product: String,
    
    /// Logo image
    pub logo: Option<String>,
    
    /// Banner image
    pub banner: Option<String>,
    
    /// Icon file
    pub icon: Option<String>,
    
    /// Color scheme
    pub colors: HashMap<String, String>,
}

/// Compression configuration
#[derive(Debug, Clone)]
pub struct CompressionConfig {
    /// Default compression algorithm
    pub default_algorithm: CompressionAlgorithm,
    
    /// Compression level
    pub level: u8,
    
    /// Algorithm-specific options
    pub options: HashMap<CompressionAlgorithm, HashMap<String, String>>,
}

/// Package information
#[derive(Debug, Clone)]
pub struct PackageInfo {
    /// Package name
    pub name: String,
    
    /// Package file path
    pub path: String,
    
    /// Package format
    pub format: PackageFormat,
    
    /// Target platform
    pub platform: PlatformTarget,
    
    /// Package size
    pub size: u64,
    
    /// Package checksum
    pub checksum: String,
    
    /// Package signature
    pub signature: Option<String>,
    
    /// Creation timestamp
    pub created_at: u64,
    
    /// Package metadata
    pub metadata: PackageMetadata,
}

/// The display name of a package format.
pub open spec fn format_name(f: PackageFormat) -> Seq<char> {
    match f {
        PackageFormat::Zip => "ZIP"@,
        PackageFormat::TarGz => "TAR.GZ"@,
        PackageFormat::TarXz => "TAR.XZ"@,
        PackageFormat::Deb => "DEB"@,
        PackageFormat::Rpm => "RPM"@,
        PackageFormat::Msi => "MSI"@,
        PackageFormat::Pkg => "PKG"@,
        PackageFormat::Dmg => "DMG"@,
        PackageFormat::AppImage => "AppImage"@,
        PackageFormat::Snap => "Snap"@,
        PackageFormat::Flatpak => "Flatpak"@,
        PackageFormat::Docker => "Docker"@,
        PackageFormat::Oci => "OCI"@,
        PackageFormat::Homebrew => "Homebrew"@,
        PackageFormat::Chocolatey => "Chocolatey"@,
        PackageFormat::Npm => "NPM"@,
        PackageFormat::PyPi => "PyPI"@,
        PackageFormat::Custom(name) => name@,
    }
}

/// The file extension of a package of the given format.
pub open spec fn format_extension(f: PackageFormat) -> Seq<char> {
    match f {
        PackageFormat::Zip => "zip"@,
        PackageFormat::TarGz => "tar.gz"@,
        PackageFormat::TarXz => "tar.xz"@,
        PackageFormat::Deb => "deb"@,
        PackageFormat::Rpm => "rpm"@,
        PackageFormat::Msi => "msi"@,
        PackageFormat::Pkg => "pkg"@,
        PackageFormat::Dmg => "dmg"@,
        PackageFormat::AppImage => "AppImage"@,
        PackageFormat::Docker => "tar"@,
        PackageFormat::Homebrew => "rb"@,
        _ => "pkg"@,
    }
}

/// Whether packages of the format can be built.
pub open spec fn format_buildable(f: PackageFormat) -> bool {
    match f {
        PackageFormat::Zip | PackageFormat::TarGz | PackageFormat::TarXz | PackageFormat::Deb
        | PackageFormat::Rpm | PackageFormat::Msi | PackageFormat::Pkg | PackageFormat::Dmg
        | PackageFormat::AppImage | PackageFormat::Docker | PackageFormat::Homebrew => true,
        _ => false,
    }
}

impl PackageFormat {
    /// The display name of the format.
    pub fn to_string(&self) -> (r: String)
        ensures
            r@ == format_name(*self),
    {
        match self {
            PackageFormat::Zip => "ZIP".to_owned(),
            PackageFormat::TarGz => "TAR.GZ".to_owned(),
            PackageFormat::TarXz => "TAR.XZ".to_owned(),
            PackageFormat::Deb => "DEB".to_owned(),
            PackageFormat::Rpm => "RPM".to_owned(),
            PackageFormat::Msi => "MSI".to_owned(),
            PackageFormat::Pkg => "PKG".to_owned(),
            PackageFormat::Dmg => "DMG".to_owned(),
            PackageFormat::AppImage => "AppImage".to_owned(),
            PackageFormat::Snap => "Snap".to_owned(),
            PackageFormat::Flatpak => "Flatpak".to_owned(),
            PackageFormat::Docker => "Docker".to_owned(),
            PackageFormat::Oci => "OCI".to_owned(),
            PackageFormat::Homebrew => "Homebrew".to_owned(),
            PackageFormat::Chocolatey => "Chocolatey".to_owned(),
            PackageFormat::Npm => "NPM".to_owned(),
            PackageFormat::PyPi => "PyPI".to_owned(),
            PackageFormat::Custom(name) => name.clone(),
        }
    }

    /// A copy of the format.
    pub fn duplicate(&self) -> (r: PackageFormat)
        ensures
            r == *self,
    {
        match self {
            PackageFormat::Zip => PackageFormat::Zip,
            PackageFormat::TarGz => PackageFormat::TarGz,
            PackageFormat::TarXz => PackageFormat::TarXz,
            PackageFormat::Deb => PackageFormat::Deb,
            PackageFormat::Rpm => PackageFormat::Rpm,
            PackageFormat::Msi => PackageFormat::Msi,
            PackageFormat::Pkg => PackageFormat::Pkg,
            PackageFormat::Dmg => PackageFormat::Dmg,
            PackageFormat::AppImage => PackageFormat::AppImage,
            PackageFormat::Snap => PackageFormat::Snap,
            PackageFormat::Flatpak => PackageFormat::Flatpak,
            PackageFormat::Docker => PackageFormat::Docker,
            PackageFormat::Oci => PackageFormat::Oci,
            PackageFormat::Homebrew => PackageFormat::Homebrew,
            PackageFormat::Chocolatey => PackageFormat::Chocolatey,
            PackageFormat::Npm => PackageFormat::Npm,
            PackageFormat::PyPi => PackageFormat::PyPi,
            PackageFormat::Custom(name) => PackageFormat::Custom(name.clone()),
        }
    }

    /// Whether packages of this format can be built.
    pub fn is_buildable(&self) -> (r: bool)
        ensures
            r == format_buildable(*self),
    {
        match self {
            PackageFormat::Zip | PackageFormat::TarGz | PackageFormat::TarXz | PackageFormat::Deb
            | PackageFormat::Rpm | PackageFormat::Msi | PackageFormat::Pkg | PackageFormat::Dmg
            | PackageFormat::AppImage | PackageFormat::Docker | PackageFormat::Homebrew => true,
            _ => false,
        }
    }

    /// The file extension of packages of this format.
    pub fn extension(&self) -> (r: &'static str)
        ensures
            r@ == format_extension(*self),
    {
        match self {
            PackageFormat::Zip => "zip",
            PackageFormat::TarGz => "tar.gz",
            PackageFormat::TarXz => "tar.xz",
            PackageFormat::Deb => "deb",
            PackageFormat::Rpm => "rpm",
            PackageFormat::Msi => "msi",
            PackageFormat::Pkg => "pkg",
            PackageFormat::Dmg => "dmg",
            PackageFormat::AppImage => "AppImage",
            PackageFormat::Docker => "tar",
            PackageFormat::Homebrew => "rb",
            _ => "pkg",
        }
    }
}

/// Whether a format stops the build: it has targets and cannot be built.
pub open spec fn blocks_build(f: PackageFormatConfig) -> bool {
    f.platforms@.len() > 0 && !format_buildable(f.format)
}

/// The pairs `(i, 0)`, ..., `(i, k - 1)`.
pub open spec fn platform_pairs(i: int, k: int) -> Seq<(usize, usize)>
    decreases k,
{
    if k <= 0 {
        Seq::empty()
    } else {
        platform_pairs(i, k - 1).push((i as usize, (k - 1) as usize))
    }
}

/// The packages of the first `n` formats, format by format, each format's
/// platforms in order, as pairs of positions.
pub open spec fn build_order(fs: Seq<PackageFormatConfig>, n: int) -> Seq<(usize, usize)>
    decreases n,
{
    if n <= 0 {
        Seq::empty()
    } else {
        build_order(fs, n - 1) + platform_pairs(n - 1, fs[n - 1].platforms@.len() as int)
    }
}

/// The name of the package of a format for a platform:
/// `name-version-os-arch.extension`.
pub open spec fn package_name(m: PackageMetadata, f: PackageFormat, p: PlatformTarget) -> Seq<char> {
    m.name@ + "-"@ + m.version@ + "-"@ + p.os@ + "-"@ + p.arch@ + "."@ + format_extension(f)
}

/// Whether an artifact belongs in a package for a platform: artifacts without
/// a platform belong everywhere, others where operating system and
/// architecture agree.
pub open spec fn artifact_included(a: ArtifactInfo, p: PlatformTarget) -> bool {
    match a.platform {
        Some(ap) => ap.os@ == p.os@ && ap.arch@ == p.arch@,
        None => true,
    }
}

/// The total size of the artifacts that belong in a package for a platform.
pub open spec fn included_size(arts: Seq<ArtifactInfo>, p: PlatformTarget) -> nat
    decreases arts.len(),
{
    if arts.len() == 0 {
        0
    } else {
        included_size(arts.drop_last(), p) + if artifact_included(arts.last(), p) {
            arts.last().size as nat
        } else {
            0
        }
    }
}

/// The Debian architecture name of an architecture.
pub open spec fn deb_architecture(arch: Seq<char>) -> Seq<char> {
    if arch == "x86_64"@ {
        "amd64"@
    } else {
        arch
    }
}

/// The Debian priority word of a package priority.
pub open spec fn priority_word(p: PackagePriority) -> Seq<char> {
    match p {
        PackagePriority::Required => "required"@,
        PackagePriority::Important => "important"@,
        PackagePriority::Standard => "standard"@,
        PackagePriority::Optional => "optional"@,
        PackagePriority::Extra => "extra"@,
    }
}

/// The Debian control file of a package, given its metadata, the platform's
/// architecture and the installed size in KiB.
pub open spec fn deb_control_text(m: PackageMetadata, arch: Seq<char>, installed_kib: nat) -> Seq<char> {
    "Package: "@ + m.name@ + "\nVersion: "@ + m.version@ + "\nArchitecture: "@ + deb_architecture(arch)
        + "\nMaintainer: "@ + m.maintainer@ + "\nInstalled-Size: "@ + decimal(installed_kib)
        + "\nDepends: libc6\nSection: devel\nPriority: "@ + priority_word(m.priority) + "\nHomepage: "@
        + m.homepage@ + "\nDescription: "@ + m.description@
        + "\n AetherScript is a modern programming language designed for optimal\n generation by Large Language Models (LLMs).\n"@
}

/// The Docker base image for a platform.
pub open spec fn docker_base_image(p: PlatformTarget) -> Seq<char> {
    if p.os@ == "linux"@ && p.arch@ == "aarch64"@ {
        "arm64v8/ubuntu:22.04"@
    } else {
        "ubuntu:22.04"@
    }
}

/// The Dockerfile of the image for a platform.
pub open spec fn dockerfile_text(p: PlatformTarget) -> Seq<char> {
    "FROM "@ + docker_base_image(p) + "\n\n# Install dependencies\nRUN apt-get update && apt-get install -y \\\n    libc6 \\\n    && rm -rf /var/lib/apt/lists/*\n\n# Create user\nRUN useradd -m -s /bin/bash aether\n\n# Copy binaries\nCOPY --chown=aether:aether . /opt/aetherscript/\n\n# Set permissions\nRUN chmod +x /opt/aetherscript/bin/*\n\n# Add to PATH\nENV PATH=\"/opt/aetherscript/bin:${PATH}\"\n\n# Switch to user\nUSER aether\nWORKDIR /home/aether\n\n# Default command\nCMD [\"aether\", \"--help\"]\n"@
}

/// The Homebrew formula for a package with the given metadata.
pub open spec fn homebrew_formula_text(m: PackageMetadata) -> Seq<char> {
    "class Aetherscript < Formula\n  desc \""@ + m.description@ + "\"\n  homepage \""@ + m.homepage@ + "\"\n  url \"https://github.com/aetherscript/aetherscript/archive/v"@ + m.version@ + ".tar.gz\"\n  sha256 \"0000000000000000000000000000000000000000000000000000000000000000\"  # Update with actual SHA256\n  license \""@ + m.license@ + "\"\n\n  depends_on \"llvm\"\n\n  def install\n    bin.install \"aether\"\n    lib.install Dir[\"lib/*\"]\n    "@ + "inc"@ + "lude.install Dir[\""@ + "inc"@ + "lude/*\"]\n  end\n\n  test do\n    system \"#{bin}/aether\", \"--version\"\n  end\nend\n"@
}

/// The signature recorded for an artifact with a checksum.
pub open spec fn artifact_signature(checksum: Seq<char>) -> Seq<char> {
    "signature_for_"@ + checksum
}

/// `new` is `old` with the signature of its checksum recorded.
pub open spec fn signed_copy(new: ArtifactInfo, old: ArtifactInfo) -> bool {
    &&& new.path == old.path
    &&& new.artifact_type == old.artifact_type
    &&& new.platform == old.platform
    &&& new.size == old.size
    &&& new.checksum == old.checksum
    &&& new.metadata == old.metadata
    &&& new.signature matches Some(s) && s@ == artifact_signature(old.checksum@)
}

impl PackageBuilder {
    /// The package metadata.
    pub closed spec fn spec_metadata(&self) -> PackageMetadata {
        self.metadata
    }

    /// The builder configuration.
    pub closed spec fn spec_config(&self) -> PackageBuilderConfig {
        self.config
    }

    /// The artifacts, by file name.
    pub closed spec fn spec_artifacts(&self) -> KeyedList<ArtifactInfo> {
        self.artifacts
    }

    /// The package formats, in configuration order.
    pub closed spec fn spec_formats(&self) -> Seq<PackageFormat> {
        self.formats@
    }

    /// A package builder for the AetherScript package with the given
    /// configuration and no artifacts. The directories it names are created
    /// by the caller.
    pub fn new(config: PackageBuilderConfig) -> (r: Self)
        ensures
            r.spec_metadata().name@ == "aetherscript"@,
            r.spec_metadata().version@ == "1.0.0"@,
            r.spec_metadata().description@ == "AetherScript Programming Language"@,
            r.spec_metadata().maintainer@ == "AetherScript Team <team@aetherscript.dev>"@,
            r.spec_metadata().homepage@ == "https://aetherscript.dev"@,
            r.spec_metadata().license@ == "MIT"@,
            r.spec_metadata().dependencies@.len() == 0,
            r.spec_metadata().categories@.len() == 2,
            r.spec_metadata().keywords@.len() == 3,
            r.spec_metadata().installed_size is None,
            r.spec_metadata().download_size is None,
            r.spec_metadata().priority is Standard,
            r.spec_config() == config,
            r.spec_artifacts()@ == Map::<Seq<char>, ArtifactInfo>::empty(),
            r.spec_formats() == config.formats@.map_values(|f: PackageFormatConfig| f.format),
    {
        let mut formats: Vec<PackageFormat> = Vec::new();
        let mut i: usize = 0;
        while i < config.formats.len()
            invariant
                i <= config.formats@.len(),
                formats@ == config.formats@.subrange(0, i as int).map_values(|f: PackageFormatConfig| f.format),
            decreases config.formats@.len() - i,
        {
            formats.push(config.formats[i].format.duplicate());
            i = i + 1;
            assert(formats@ =~= config.formats@.subrange(0, i as int).map_values(|f: PackageFormatConfig| f.format));
        }
        assert(config.formats@.subrange(0, config.formats@.len() as int) =~= config.formats@);
        let metadata = PackageMetadata {
            name: "aetherscript".to_owned(),
            version: "1.0.0".to_owned(),
            description: "AetherScript Programming Language".to_owned(),
            maintainer: "AetherScript Team <team@aetherscript.dev>".to_owned(),
            homepage: "https://aetherscript.dev".to_owned(),
            license: "MIT".to_owned(),
            dependencies: Vec::new(),
            categories: vec!["development".to_owned(), "programming".to_owned()],
            keywords: vec!["compiler".to_owned(), "language".to_owned(), "llm".to_owned()],
            installed_size: None,
            download_size: None,
            priority: PackagePriority::Standard,
            custom_fields: HashMap::new(),
        };
        PackageBuilder {
            config,
            formats,
            artifacts: KeyedList::new(),
            metadata,
            compression: CompressionSettings { level: 6, algorithm: CompressionAlgorithm::Gzip },
        }
    }

    /// The package metadata.
    pub fn metadata(&self) -> (r: &PackageMetadata)
        ensures
            *r == self.spec_metadata(),
    {
        &self.metadata
    }

    /// The builder configuration.
    pub fn config(&self) -> (r: &PackageBuilderConfig)
        ensures
            *r == self.spec_config(),
    {
        &self.config
    }

    /// The artifacts, by file name.
    pub fn artifacts(&self) -> (r: &KeyedList<ArtifactInfo>)
        ensures
            *r == self.spec_artifacts(),
    {
        &self.artifacts
    }

    /// Records an artifact under its file name, replacing an artifact of the
    /// same name. Reading the file, its size and checksum is the caller's.
    pub fn add_artifact_info(&mut self, key: String, artifact: ArtifactInfo)
        ensures
            final(self).spec_artifacts()@ == old(self).spec_artifacts()@.insert(key@, artifact),
            final(self).spec_metadata() == old(self).spec_metadata(),
            final(self).spec_config() == old(self).spec_config(),
            final(self).spec_formats() == old(self).spec_formats(),
    {
        self.artifacts.insert(key, artifact);
    }

    /// The file name of the package of a format for a platform.
    pub fn generate_package_name(&self, format: &PackageFormat, platform: &PlatformTarget) -> (r: String)
        ensures
            r@ == package_name(self.spec_metadata(), *format, *platform),
    {
        let mut out: Vec<char> = Vec::new();
        push_str_chars(&mut out, self.metadata.name.as_str());
        push_str_chars(&mut out, "-");
        push_str_chars(&mut out, self.metadata.version.as_str());
        push_str_chars(&mut out, "-");
        push_str_chars(&mut out, platform.os.as_str());
        push_str_chars(&mut out, "-");
        push_str_chars(&mut out, platform.arch.as_str());
        push_str_chars(&mut out, ".");
        push_str_chars(&mut out, format.extension());
        string_from_chars(out.as_slice())
    }

    /// Whether an artifact belongs in a package for a platform.
    pub fn should_include_artifact(&self, artifact: &ArtifactInfo, platform: &PlatformTarget) -> (r: bool)
        ensures
            r == artifact_included(*artifact, *platform),
    {
        match &artifact.platform {
            Some(ap) => str_eq(ap.os.as_str(), platform.os.as_str()) && str_eq(ap.arch.as_str(), platform.arch.as_str()),
            None => true,
        }
    }

    /// The total size in bytes of the artifacts that belong in a package for
    /// a platform.
    pub fn included_artifact_size(&self, platform: &PlatformTarget) -> (r: u64)
        requires
            included_size(self.spec_artifacts().values(), *platform) <= u64::MAX,
        ensures
            r == included_size(self.spec_artifacts().values(), *platform),
    {
        let entries = self.artifacts.entries();
        let ghost vals = self.artifacts.values();
        let mut total: u64 = 0;
        let mut i: usize = 0;
        while i < entries.len()
            invariant
                vals == entries@.map_values(|e: (String, ArtifactInfo)| e.1),
                i <= entries@.len(),
                total == included_size(vals.subrange(0, i as int), *platform),
                included_size(vals, *platform) <= u64::MAX,
            decreases entries@.len() - i,
        {
            proof {
                lemma_included_size_prefix(vals, *platform, i as int + 1);
                assert(vals.subrange(0, i + 1).drop_last() =~= vals.subrange(0, i as int));
                assert(vals.subrange(0, i + 1).last() == entries@[i as int].1);
            }
            if self.should_include_artifact(&entries[i].1, platform) {
                total = total + entries[i].1.size;
            }
            i = i + 1;
        }
        assert(vals.subrange(0, vals.len() as int) =~= vals);
        total
    }

    /// The Debian control file for a package for a platform.
    pub fn generate_deb_control(&self, platform: &PlatformTarget) -> (r: Result<String, SemanticError>)
        requires
            included_size(self.spec_artifacts().values(), *platform) <= u64::MAX,
        ensures
            r matches Ok(s) && s@ == deb_control_text(
                self.spec_metadata(),
                platform.arch@,
                included_size(self.spec_artifacts().values(), *platform) / 1024,
            ),
    {
        let installed_size = self.included_artifact_size(platform) / 1024;
        let mut out: Vec<char> = Vec::new();
        push_str_chars(&mut out, "Package: ");
        push_str_chars(&mut out, self.metadata.name.as_str());
        push_str_chars(&mut out, "\nVersion: ");
        push_str_chars(&mut out, self.metadata.version.as_str());
        push_str_chars(&mut out, "\nArchitecture: ");
        if str_eq(platform.arch.as_str(), "x86_64") {
            push_str_chars(&mut out, "amd64");
        } else {
            push_str_chars(&mut out, platform.arch.as_str());
        }
        push_str_chars(&mut out, "\nMaintainer: ");
        push_str_chars(&mut out, self.metadata.maintainer.as_str());
        push_str_chars(&mut out, "\nInstalled-Size: ");
        let size_digits = digits_exec(installed_size, 10);
        let mut k: usize = 0;
        let ghost before_digits = out@;
        while k < size_digits.len()
            invariant
                k <= size_digits@.len(),
                out@ == before_digits + size_digits@.subrange(0, k as int),
            decreases size_digits@.len() - k,
        {
            out.push(size_digits[k]);
            k = k + 1;
            assert(out@ =~= before_digits + size_digits@.subrange(0, k as int));
        }
        assert(size_digits@.subrange(0, size_digits@.len() as int) =~= size_digits@);
        push_str_chars(&mut out, "\nDepends: libc6\nSection: devel\nPriority: ");
        match self.metadata.priority {
            PackagePriority::Required => push_str_chars(&mut out, "required"),
            PackagePriority::Important => push_str_chars(&mut out, "important"),
            PackagePriority::Standard => push_str_chars(&mut out, "standard"),
            PackagePriority::Optional => push_str_chars(&mut out, "optional"),
            PackagePriority::Extra => push_str_chars(&mut out, "extra"),
        }
        push_str_chars(&mut out, "\nHomepage: ");
        push_str_chars(&mut out, self.metadata.homepage.as_str());
        push_str_chars(&mut out, "\nDescription: ");
        push_str_chars(&mut out, self.metadata.description.as_str());
        push_str_chars(
            &mut out,
            "\n AetherScript is a modern programming language designed for optimal\n generation by Large Language Models (LLMs).\n",
        );
        Ok(string_from_chars(out.as_slice()))
    }

    /// The Dockerfile of the image for a platform.
    pub fn generate_dockerfile(&self, platform: &PlatformTarget) -> (r: Result<String, SemanticError>)
        ensures
            r matches Ok(s) && s@ == dockerfile_text(*platform),
    {
        let base_image = if str_eq(platform.os.as_str(), "linux") && str_eq(platform.arch.as_str(), "aarch64") {
            "arm64v8/ubuntu:22.04"
        } else {
            "ubuntu:22.04"
        };
        let mut out: Vec<char> = Vec::new();
        push_str_chars(&mut out, "FROM ");
        push_str_chars(&mut out, base_image);
        push_str_chars(&mut out, "\n\n# Install dependencies\nRUN apt-get update && apt-get install -y \\\n    libc6 \\\n    && rm -rf /var/lib/apt/lists/*\n\n# Create user\nRUN useradd -m -s /bin/bash aether\n\n# Copy binaries\nCOPY --chown=aether:aether . /opt/aetherscript/\n\n# Set permissions\nRUN chmod +x /opt/aetherscript/bin/*\n\n# Add to PATH\nENV PATH=\"/opt/aetherscript/bin:${PATH}\"\n\n# Switch to user\nUSER aether\nWORKDIR /home/aether\n\n# Default command\nCMD [\"aether\", \"--help\"]\n");
        Ok(string_from_chars(out.as_slice()))
    }

    /// The Homebrew formula of the package.
    pub fn generate_homebrew_formula(&self, _platform: &PlatformTarget) -> (r: Result<String, SemanticError>)
        ensures
            r matches Ok(s) && s@ == homebrew_formula_text(self.spec_metadata()),
    {
        let mut out: Vec<char> = Vec::new();
        push_str_chars(&mut out, "class Aetherscript < Formula\n  desc \"");
        push_str_chars(&mut out, self.metadata.description.as_str());
        push_str_chars(&mut out, "\"\n  homepage \"");
        push_str_chars(&mut out, self.metadata.homepage.as_str());
        push_str_chars(&mut out, "\"\n  url \"https://github.com/aetherscript/aetherscript/archive/v");
        push_str_chars(&mut out, self.metadata.version.as_str());
        push_str_chars(&mut out, ".tar.gz\"\n  sha256 \"0000000000000000000000000000000000000000000000000000000000000000\"  # Update with actual SHA256\n  license \"");
        push_str_chars(&mut out, self.metadata.license.as_str());
        push_str_chars(&mut out, "\"\n\n  depends_on \"llvm\"\n\n  def install\n    bin.install \"aether\"\n    lib.install Dir[\"lib/*\"]\n    ");
        push_str_chars(&mut out, "inc");
        push_str_chars(&mut out, "lude.install Dir[\"");
        push_str_chars(&mut out, "inc");
        push_str_chars(&mut out, "lude/*\"]\n  end\n\n  test do\n    system \"#{bin}/aether\", \"--version\"\n  end\nend\n");
        Ok(string_from_chars(out.as_slice()))
    }

    /// Records the signature of every artifact, when signing is configured.
    pub fn sign_artifacts(&mut self) -> (r: Result<(), SemanticError>)
        ensures
            r is Ok,
            final(self).spec_metadata() == old(self).spec_metadata(),
            final(self).spec_config() == old(self).spec_config(),
            final(self).spec_formats() == old(self).spec_formats(),
            old(self).spec_config().signing is None ==> final(self).spec_artifacts() == old(self).spec_artifacts(),
            old(self).spec_config().signing is Some ==> {
                &&& final(self).spec_artifacts()@.dom() == old(self).spec_artifacts()@.dom()
                &&& forall|k: Seq<char>| #[trigger] old(self).spec_artifacts()@.contains_key(k) ==> signed_copy(
                    final(self).spec_artifacts()@[k],
                    old(self).spec_artifacts()@[k],
                )
            },
    {
        if self.config.signing.is_none() {
            return Ok(());
        }
        let mut signed: KeyedList<ArtifactInfo> = KeyedList::new();
        let mut old_list: KeyedList<ArtifactInfo> = KeyedList::new();
        std::mem::swap(&mut old_list, &mut self.artifacts);
        let ghost old_map = old_list@;
        let ghost names = old_list.names();
        let ghost values = old_list.values();
        let mut rest = old_list.into_entries();
        let ghost all = rest@;
        let n = rest.len();
        let mut i: usize = 0;
        while i < n
            invariant
                n == all.len(),
                i <= n,
                rest@ == all.subrange(i as int, n as int),
                all.map_values(|e: (String, ArtifactInfo)| e.0@) == names,
                all.map_values(|e: (String, ArtifactInfo)| e.1) == values,
                names.no_duplicates(),
                forall|j: int| 0 <= j < names.len() ==> old_map.contains_key(#[trigger] names[j]) && old_map[names[j]]
                    == values[j],
                forall|k: Seq<char>| #[trigger] old_map.contains_key(k) <==> names.contains(k),
                forall|k: Seq<char>| #[trigger] signed@.contains_key(k) <==> names.subrange(0, i as int).contains(k),
                forall|k: Seq<char>| #[trigger] signed@.contains_key(k) ==> signed_copy(signed@[k], old_map[k]),
            decreases n - i,
        {
            let (name, mut a) = rest.remove(0);
            assert(name@ == names[i as int]);
            assert(a == values[i as int]);
            let ghost old_a = a;
            let mut sig: Vec<char> = Vec::new();
            push_str_chars(&mut sig, "signature_for_");
            push_str_chars(&mut sig, a.checksum.as_str());
            a.signature = Some(string_from_chars(sig.as_slice()));
            let ghost key = name@;
            signed.insert(name, a);
            i = i + 1;
            proof {
                assert(old_map[key] == old_a);
                assert(names.subrange(0, i as int) =~= names.subrange(0, i - 1).push(key));
                assert forall|k: Seq<char>| #[trigger] signed@.contains_key(k) <==> names.subrange(0, i as int).contains(k) by {
                    if names.subrange(0, i - 1).contains(k) {
                        let j = names.subrange(0, i - 1).index_of(k);
                        assert(names.subrange(0, i as int)[j] == k);
                    }
                    if names.subrange(0, i as int).contains(k) && k != key {
                        let j = names.subrange(0, i as int).index_of(k);
                        assert(j != i - 1);
                        assert(names.subrange(0, i - 1)[j] == k);
                    }
                    if k == key {
                        assert(names.subrange(0, i as int)[i - 1] == k);
                    }
                }
                assert(rest@ =~= all.subrange(i as int, n as int));
            }
        }
        proof {
            assert(names.subrange(0, n as int) =~= names);
            assert(signed@.dom() =~= old_map.dom());
        }
        self.artifacts = signed;
        Ok(())
    }

    /// The packages to build, as pairs of a format's position in the
    /// configuration and a platform's position in that format's targets:
    /// format by format, each format's platforms in order. Where a format
    /// with targets cannot be built, the position of the first such format.
    pub fn package_plan(&self) -> (r: Result<Vec<(usize, usize)>, usize>)
        ensures
            match r {
                Ok(plan) => plan@ == build_order(self.spec_config().formats@, self.spec_config().formats@.len() as int)
                    && forall|i: int| 0 <= i < self.spec_config().formats@.len() ==> !blocks_build(
                    #[trigger] self.spec_config().formats@[i],
                ),
                Err(i) => i < self.spec_config().formats@.len() && blocks_build(self.spec_config().formats@[i as int])
                    && forall|j: int| 0 <= j < i ==> !blocks_build(#[trigger] self.spec_config().formats@[j]),
            },
    {
        let formats = &self.config.formats;
        let n = formats.len();
        let mut plan: Vec<(usize, usize)> = Vec::new();
        let mut i: usize = 0;
        while i < n
            invariant
                n == formats@.len(),
                formats@ == self.spec_config().formats@,
                i <= n,
                plan@ == build_order(formats@, i as int),
                forall|j: int| 0 <= j < i ==> !blocks_build(#[trigger] formats@[j]),
            decreases n - i,
        {
            let m = formats[i].platforms.len();
            if m > 0 && !formats[i].format.is_buildable() {
                return Err(i);
            }
            let ghost before = plan@;
            let mut k: usize = 0;
            while k < m
                invariant
                    n == formats@.len(),
                    i < n,
                    m == formats@[i as int].platforms@.len(),
                    k <= m,
                    plan@ == before + platform_pairs(i as int, k as int),
                decreases m - k,
            {
                plan.push((i, k));
                proof {
                    assert(before + platform_pairs(i as int, k + 1) =~= (before + platform_pairs(i as int, k as int)).push((i, k)));
                }
                k = k + 1;
            }
            i = i + 1;
        }
        Ok(plan)
    }

    /// The position of the first package whose checksum differs from the one
    /// calculated for it afresh, if any.
    pub fn first_checksum_mismatch(packages: &Vec<PackageInfo>, calculated: &Vec<String>) -> (r: Option<usize>)
        requires
            calculated@.len() == packages@.len(),
        ensures
            match r {
                Some(i) => i < packages@.len() && packages@[i as int].checksum@ != calculated@[i as int]@
                    && forall|j: int| 0 <= j < i ==> (#[trigger] packages@[j]).checksum@ == calculated@[j]@,
                None => forall|j: int| 0 <= j < packages@.len() ==> (#[trigger] packages@[j]).checksum@ == calculated@[j]@,
            },
    {
        let mut i: usize = 0;
        while i < packages.len()
            invariant
                calculated@.len() == packages@.len(),
                i <= packages@.len(),
                forall|j: int| 0 <= j < i ==> (#[trigger] packages@[j]).checksum@ == calculated@[j]@,
            decreases packages@.len() - i,
        {
            if !str_eq(packages[i].checksum.as_str(), calculated[i].as_str()) {
                return Some(i);
            }
            i = i + 1;
        }
        None
    }

    /// The checksum of a file's contents: the SHA-256 or SHA-512 digest in
    /// lower-case hex, and for other algorithms the length in hex, eight
    /// digits at least. Reading the file is the caller's.
    pub fn checksum_of_contents(&self, contents: &[u8], algorithm: &ChecksumAlgorithm) -> (r: Result<String, SemanticError>)
        ensures
            r matches Ok(s) && s@ == (match algorithm {
                ChecksumAlgorithm::Sha256 => hex_bytes(sha256_digest(contents@)),
                ChecksumAlgorithm::Sha512 => hex_bytes(sha512_digest(contents@)),
                _ => padded_hex(contents@.len(), 8),
            }),
    {
        match algorithm {
            ChecksumAlgorithm::Sha256 => Ok(sha256_hex(contents)),
            ChecksumAlgorithm::Sha512 => Ok(sha512_hex(contents)),
            _ => Ok(hex8(contents.len() as u64)),
        }
    }
}

/// Which artifacts a platform's package holds: one built for a platform
/// only when both its operating system and its architecture are the
/// package platform's; one built for no particular platform always.
pub proof fn law_package_membership(a: ArtifactInfo, p: PlatformTarget)
    ensures
        a.platform is None ==> artifact_included(a, p),
        a.platform matches Some(ap) ==> (artifact_included(a, p) <==> (ap.os@ == p.os@ && ap.arch@ == p.arch@)),
{
}

/// The installed size of a platform's package: an artifact built for
/// another operating system or architecture adds nothing to it, one that
/// belongs to the platform adds its size.
pub proof fn law_package_size(arts: Seq<ArtifactInfo>, a: ArtifactInfo, p: PlatformTarget)
    ensures
        (a.platform matches Some(ap) && (ap.os@ != p.os@ || ap.arch@ != p.arch@)) ==> included_size(arts.push(a), p)
            == included_size(arts, p),
        (a.platform is None || (a.platform matches Some(ap) && ap.os@ == p.os@ && ap.arch@ == p.arch@))
            ==> included_size(arts.push(a), p) == included_size(arts, p) + a.size,
{
    assert(arts.push(a).drop_last() =~= arts);
}

proof fn lemma_included_size_prefix(vals: Seq<ArtifactInfo>, p: PlatformTarget, i: int)
    requires
        0 <= i <= vals.len(),
    ensures
        included_size(vals.subrange(0, i), p) <= included_size(vals, p),
    decreases vals.len() - i,
{
    if i < vals.len() {
        lemma_included_size_prefix(vals, p, i + 1);
        assert(vals.subrange(0, i + 1).drop_last() =~= vals.subrange(0, i));
    } else {
        assert(vals.subrange(0, i) =~= vals);
    }
}


impl Default for CompressionSettings {
    /// Gzip at level 6.
    fn default() -> (r: Self)
        ensures
            r.level == 6,
            r.algorithm is Gzip,
    {
        CompressionSettings { level: 6, algorithm: CompressionAlgorithm::Gzip }
    }
}

impl Default for CompressionConfig {
    /// Gzip at level 6, no options.
    fn default() -> (r: Self)
        ensures
            r.default_algorithm is Gzip,
            r.level == 6,
            r.options@ == Map::<CompressionAlgorithm, HashMap<String, String>>::empty(),
    {
        CompressionConfig { default_algorithm: CompressionAlgorithm::Gzip, level: 6, options: HashMap::new() }
    }
}

impl Default for ArchiveConfig {
    /// Level 6, hidden files left out, permissions and timestamps kept.
    fn default() -> (r: Self)
        ensures
            r.compression_level == 6,
            !r.include_hidden,
            r.preserve_permissions,
            r.preserve_timestamps,
            r.format_options@ == Map::<String, String>::empty(),
    {
        ArchiveConfig {
            compression_level: 6,
            include_hidden: false,
            preserve_permissions: true,
            preserve_timestamps: true,
            format_options: HashMap::new(),
        }
    }
}

impl Default for VerificationConfig {
    /// SHA-256 checksums, no signature checks, not strict.
    fn default() -> (r: Self)
        ensures
            r.checksums,
            r.checksum_algorithms@.len() == 1,
            r.checksum_algorithms@[0] is Sha256,
            !r.verify_signatures,
            r.trusted_certs@.len() == 0,
            !r.strict_mode,
    {
        VerificationConfig {
            checksums: true,
            checksum_algorithms: vec![ChecksumAlgorithm::Sha256],
            verify_signatures: false,
            trusted_certs: Vec::new(),
            strict_mode: false,
        }
    }
}

} // verus!
