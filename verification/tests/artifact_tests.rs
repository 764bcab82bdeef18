//! Tests of artifact naming, grouping, signing and generated texts.

use std::collections::HashMap;

use aetherscript::release::artifacts::{metadata_content_type, checksum_artifact_id, checksum_file_name, checksum_file_text, valid_date_format, ChecksumAlgorithm, ValidationStatus, 
    documentation_content_type_of, Artifact, ArtifactConfig, ArtifactManager, ArtifactMetadata, ArtifactType, CaseTransform, CompressionAlgorithm,
    CompressionConfig, ConfigFormat, DocumentationFormat, MetadataConfig, MetadataFormat, NamingConfig, PlatformConfig,
    PublishingConfig, ReleaseStage, ScriptType, ValidationConfig,
};
use aetherscript::release::distribution::get_content_type;
use aetherscript::release::packaging::PackageFormat;
use aetherscript::release::{
    AutoIncrementConfig, IncrementType, PrereleaseHandling, ProjectInfo, VersionInfo, VersionScheme,
};

fn config(template: &str) -> ArtifactConfig {
    ArtifactConfig {
        output_dir: "target/artifacts".to_string(),
        temp_dir: "target/tmp".to_string(),
        artifact_types: vec![],
        platforms: vec![],
        build_configs: vec![],
        compression: CompressionConfig {
            enabled: false,
            algorithm: CompressionAlgorithm::Gzip,
            level: 6,
            min_size: 0,
            include_patterns: vec![],
            exclude_patterns: vec![],
        },
        metadata: MetadataConfig {
            include_build_info: false,
            include_dependencies: false,
            include_metrics: false,
            include_security: false,
            custom_fields: HashMap::new(),
            format: MetadataFormat::JSON,
            generate_schema: false,
        },
        naming: NamingConfig {
            template: template.to_string(),
            date_format: "%Y%m%d".to_string(),
            version_format: "{version}".to_string(),
            platform_format: "{os}-{arch}".to_string(),
            variables: HashMap::new(),
            case_transform: CaseTransform::Unchanged,
        },
        validation: ValidationConfig {
            enabled: false,
            rules: vec![],
            fail_on_error: false,
            generate_report: false,
            timeout: 60,
        },
        publishing: PublishingConfig {
            enabled: false,
            targets: vec![],
            metadata: HashMap::new(),
            validate_before_publish: false,
            verify_after_publish: false,
        },
    }
}

fn project() -> ProjectInfo {
    ProjectInfo {
        name: "aetherscript".to_string(),
        description: "AetherScript".to_string(),
        homepage: "https://aetherscript.dev".to_string(),
        repository: "https://github.com/user/aetherscript".to_string(),
        license: "MIT".to_string(),
        authors: vec![],
        keywords: vec![],
        categories: vec![],
    }
}

fn version() -> VersionInfo {
    VersionInfo {
        current: "1.2.3".to_string(),
        scheme: VersionScheme::SemVer,
        prerelease: None,
        build_metadata: None,
        version_file: "version.txt".to_string(),
        auto_increment: AutoIncrementConfig {
            enabled: false,
            increment_type: IncrementType::Patch,
            prerelease_handling: PrereleaseHandling::Keep,
        },
    }
}

fn platform(name: &str, os: &str, arch: &str) -> PlatformConfig {
    PlatformConfig {
        name: name.to_string(),
        os: os.to_string(),
        arch: arch.to_string(),
        abi: None,
        min_os_version: None,
        options: HashMap::new(),
        cross_compile: None,
    }
}

fn artifact(id: &str, artifact_type: ArtifactType, platform: Option<&str>) -> Artifact {
    Artifact {
        id: id.to_string(),
        name: id.to_string(),
        artifact_type,
        path: format!("target/artifacts/{}", id),
        size: 10,
        platform: platform.map(|p| p.to_string()),
        build_config: None,
        checksums: HashMap::new(),
        signature: None,
        created_at: 0,
        metadata: ArtifactMetadata {
            content_type: "application/octet-stream".to_string(),
            description: String::new(),
            tags: vec![],
            build_info: None,
            license: None,
            properties: HashMap::new(),
        },
        dependencies: vec![],
        validation: None,
    }
}

fn binary() -> ArtifactType {
    ArtifactType::Binary { name: "aether".to_string(), target: "x".to_string() }
}

#[test]
fn test_artifact_name_template() {
    let manager = ArtifactManager::new(config("{name}-{version}-{os}-{arch}-{date}"), project(), version());
    let windows = platform("win", "windows", "x86_64");
    let name = manager.artifact_name_on(&binary(), Some(&windows), None, "20240101");
    assert_eq!(name, "aetherscript-1.2.3-windows-x86_64-20240101.exe");
    let macos = platform("mac", "macos", "aarch64");
    let lib = ArtifactType::Library { name: "l".to_string(), target: "t".to_string(), version: "1".to_string() };
    assert_eq!(manager.artifact_name_on(&lib, Some(&macos), None, "d"), "aetherscript-1.2.3-macos-aarch64-d.dylib");
    let docs = ArtifactType::Documentation { format: DocumentationFormat::Markdown, output_name: "docs".to_string() };
    assert_eq!(manager.artifact_name_on(&docs, None, None, "d"), "aetherscript-1.2.3-{os}-{arch}-d.md");
    let dated = manager.generate_artifact_name(&binary(), None, None);
    assert!(dated.starts_with("aetherscript-1.2.3-{os}-{arch}-"));
}

#[test]
fn test_artifact_sets_by_platform() {
    let mut manager = ArtifactManager::new(config("{name}"), project(), version());
    manager.insert_artifact(artifact("bin-linux", binary(), Some("linux")));
    manager.insert_artifact(artifact("bin-mac", binary(), Some("macos")));
    manager.insert_artifact(artifact("lib-linux", binary(), Some("linux")));
    manager.insert_artifact(artifact(
        "notes",
        ArtifactType::ReleaseNotes { format: DocumentationFormat::Markdown, template: None },
        None,
    ));
    manager.create_artifact_sets();
    let sets = manager.get_artifact_sets();
    assert_eq!(sets.len(), 3);
    assert_eq!(sets[0].name, "linux-1.2.3");
    assert_eq!(sets[0].description, "Artifacts for linux platform");
    assert_eq!(sets[0].artifacts, vec!["bin-linux".to_string(), "lib-linux".to_string()]);
    assert!(matches!(sets[0].stage, ReleaseStage::Stable));
    assert_eq!(sets[1].name, "macos-1.2.3");
    assert_eq!(sets[1].artifacts, vec!["bin-mac".to_string()]);
    assert_eq!(sets[2].name, "documentation-1.2.3");
    assert_eq!(sets[2].artifacts, vec!["notes".to_string()]);
    assert_eq!(sets[2].audience, vec!["developers".to_string(), "end-users".to_string()]);
}

#[test]
fn test_artifact_signing() {
    let mut manager = ArtifactManager::new(config("{name}"), project(), version());
    manager.insert_artifact(artifact("bin", binary(), None));
    manager.sign_artifacts().unwrap();
    assert_eq!(manager.get_artifact("bin").unwrap().signature, None);
}

#[test]
fn test_generated_texts() {
    let manager = ArtifactManager::new(config("{name}"), project(), version());
    let other = manager.install_script_text("freebsd", &ScriptType::Python);
    assert_eq!(other, "# Installation script for aetherscript 1.2.3\n# Platform: freebsd\n");
    let shell = manager.install_script_text("linux", &ScriptType::Shell);
    assert!(shell.starts_with("#!/bin/bash\n# Installation script for aetherscript 1.2.3\n"));
    assert!(shell.contains("echo \"Installing aetherscript 1.2.3...\""));
    let ps = manager.install_script_text("windows", &ScriptType::PowerShell);
    assert!(ps.contains("C:\\Program Files\\aetherscript\\aether.exe"));
    assert!(ps.contains("if ($env:OS -ne \"Windows_NT\") {"));
    assert_eq!(manager.config_template_text(&ConfigFormat::JSON), None);
    assert_eq!(
        manager.config_template_text(&ConfigFormat::INI).unwrap(),
        "# Configuration for aetherscript\nname=aetherscript\nversion=1.2.3\n"
    );
    assert!(manager.config_template_text(&ConfigFormat::TOML).unwrap().contains("name = \"aetherscript\""));
    let notes = manager.release_notes_on(&None, "2024-01-01");
    assert!(notes.starts_with("\n# Release Notes - aetherscript 1.2.3\n"));
    assert!(notes.contains("Released on: 2024-01-01"));
    assert_eq!(manager.release_notes_on(&Some("custom".to_string()), "x"), "custom");
}

#[test]
fn test_content_type_detection() {
    assert_eq!(get_content_type(&PackageFormat::Zip), "application/zip");
    assert_eq!(get_content_type(&PackageFormat::TarGz), "application/gzip");
    assert_eq!(get_content_type(&PackageFormat::Deb), "application/vnd.debian.binary-package");
    assert_eq!(get_content_type(&PackageFormat::Snap), "application/octet-stream");
}

#[test]
fn test_generated_documentation() {
    let manager = ArtifactManager::new(config("{name}"), project(), version());
    assert_eq!(
        manager.documentation_text_on(&DocumentationFormat::ManPage, "2024-01-01"),
        "aetherscript Documentation\nVersion: 1.2.3\nGenerated: 2024-01-01"
    );
    let html = manager.documentation_text_on(&DocumentationFormat::Html, "2024-01-01");
    assert!(html.contains("<title>aetherscript Documentation</title>"));
    assert!(html.contains("<p>Generated on: 2024-01-01</p>"));
    let markdown = manager.documentation_text_on(&DocumentationFormat::Markdown, "2024-01-01");
    assert!(markdown.starts_with("\n# aetherscript Documentation\n\nVersion: 1.2.3\nGenerated: 2024-01-01\n"));
    assert!(markdown.contains("Instructions for installing aetherscript."));
    assert!(manager.documentation_text(&DocumentationFormat::Pdf).starts_with("aetherscript Documentation\n"));
    assert_eq!(documentation_content_type_of(&DocumentationFormat::Markdown), "text/markdown");
    assert_eq!(documentation_content_type_of(&DocumentationFormat::Epub), "text/plain");
}

#[test]
fn test_valid_date_format() {
    assert!(valid_date_format("%Y-%m-%d"));
    assert!(valid_date_format("%Y%m%d"));
    assert!(valid_date_format("build-%-d.%_m %H:%M:%S%.3f %:z %::z %%"));
    assert!(valid_date_format("no directives"));
    assert!(valid_date_format(""));
    assert!(!valid_date_format("%"));
    assert!(!valid_date_format("%Y-%"));
    assert!(!valid_date_format("%Q"));
    assert!(!valid_date_format("%#z"));
    assert!(!valid_date_format("%-D"));
    assert!(!valid_date_format("%.4f"));
    assert!(!valid_date_format("%:Z"));
}

#[test]
fn test_validate_artifacts() {
    let mut enabled = config("{name}");
    enabled.validation.enabled = true;
    let mut manager = ArtifactManager::new(enabled, project(), version());
    manager.insert_artifact(artifact("bin-linux", ArtifactType::Binary { name: "aether".to_string(), target: "x86_64".to_string() }, Some("linux")));
    manager.insert_artifact(artifact("docs", binary(), None));
    assert!(manager.validate_artifacts(5, 100).is_ok());
    for id in ["bin-linux", "docs"] {
        let v = manager.get_artifact(id).unwrap().validation.as_ref().unwrap();
        assert!(matches!(v.status, ValidationStatus::Passed));
        assert!(v.messages.is_empty());
        assert_eq!(v.duration, 5);
        assert_eq!(v.timestamp, 100);
    }
    assert_eq!(manager.get_artifact("bin-linux").unwrap().id, "bin-linux");

    let mut disabled = ArtifactManager::new(config("{name}"), project(), version());
    disabled.insert_artifact(artifact("docs", binary(), None));
    assert!(disabled.validate_artifacts(5, 100).is_ok());
    assert!(disabled.get_artifact("docs").unwrap().validation.is_none());
}

#[test]
fn test_checksum_file_contents() {
    assert_eq!(checksum_file_name(&ChecksumAlgorithm::SHA256), "checksums.sha256");
    assert_eq!(checksum_artifact_id(&ChecksumAlgorithm::Blake3), "checksums-blake3");
    let listed = vec![
        ("abc123".to_string(), "aether-linux".to_string()),
        ("def456".to_string(), "aether.exe".to_string()),
    ];
    assert_eq!(checksum_file_text(&listed), "abc123  aether-linux\ndef456  aether.exe\n");
    assert_eq!(checksum_file_text(&vec![]), "");
}

#[test]
fn test_metadata_content_types() {
    assert_eq!(metadata_content_type(&MetadataFormat::JSON), "application/json");
    assert_eq!(metadata_content_type(&MetadataFormat::YAML), "application/x-yaml");
    assert_eq!(metadata_content_type(&MetadataFormat::TOML), "application/toml");
    assert_eq!(metadata_content_type(&MetadataFormat::XML), "application/xml");
    assert_eq!(metadata_content_type(&MetadataFormat::Plist), "text/plain");
}
