//! Tests of the distribution manager.

use std::collections::HashMap;

use aetherscript::release::distribution::{
    BackoffStrategy, ChannelConfig, ChannelStatus, ChannelType, DistributionManager, DistributionStatus, ReleaseStage,
    RetryCondition, RetryConfig, UploadConfig, ValidationConfig,
};
use aetherscript::release::packaging::{PackageFormat, PackageInfo, PackageMetadata, PackagePriority, PlatformTarget};

fn channel_config(name: &str) -> ChannelConfig {
    ChannelConfig {
        name: name.to_string(),
        description: "GitHub Releases".to_string(),
        endpoint: "https://api.github.com".to_string(),
        supported_formats: vec![PackageFormat::Zip, PackageFormat::TarGz],
        platforms: vec!["linux".to_string(), "darwin".to_string()],
        stages: vec![ReleaseStage::Stable],
        upload: UploadConfig {
            max_file_size: 100 * 1024 * 1024,
            chunk_size: 5 * 1024 * 1024,
            max_concurrent: 4,
            timeout: 300,
            resume_uploads: true,
            verify_uploads: true,
            compression: true,
            include_metadata: true,
        },
        validation: ValidationConfig::default(),
        retry: RetryConfig {
            max_attempts: 3,
            delay: 1,
            backoff: BackoffStrategy::Exponential,
            retry_on: vec![RetryCondition::NetworkError],
        },
    }
}

fn package(name: &str, size: u64, checksum: &str) -> PackageInfo {
    PackageInfo {
        name: name.to_string(),
        path: name.to_string(),
        format: PackageFormat::Zip,
        platform: PlatformTarget {
            os: "linux".to_string(),
            arch: "x86_64".to_string(),
            variant: None,
            min_version: None,
            options: HashMap::new(),
        },
        size,
        checksum: checksum.to_string(),
        signature: None,
        created_at: 0,
        metadata: PackageMetadata {
            name: "test".to_string(),
            version: "1.0.0".to_string(),
            description: "Test package".to_string(),
            maintainer: "Test".to_string(),
            homepage: "https://test.com".to_string(),
            license: "MIT".to_string(),
            dependencies: vec![],
            categories: vec![],
            keywords: vec![],
            installed_size: None,
            download_size: None,
            priority: PackagePriority::Standard,
            custom_fields: HashMap::new(),
        },
    }
}

#[test]
fn test_distribution_manager_creation() {
    let manager = DistributionManager::new();
    assert_eq!(manager.channels_list().len(), 0);
    assert_eq!(manager.release_metadata().version, "1.0.0");
}

#[test]
fn test_channel_addition() {
    let mut manager = DistributionManager::new();
    let channel_type = ChannelType::GitHub { owner: "aetherscript".to_string(), repo: "aetherscript".to_string() };
    manager.add_channel(channel_config("github"), channel_type).unwrap();
    assert_eq!(manager.channels_list().len(), 1);
}

#[test]
fn test_release_metadata_update() {
    let mut manager = DistributionManager::new();
    let packages = vec![package("test-package.zip", 1024, "abcd1234")];
    manager.update_release_metadata(&packages).unwrap();
    assert_eq!(manager.release_metadata().assets.len(), 1);
    assert_eq!(manager.release_metadata().assets[0].name, "test-package.zip");
}

#[test]
fn test_distribution_to_active_channels() {
    let mut manager = DistributionManager::new();
    manager
        .add_channel(channel_config("github"), ChannelType::GitHub { owner: "a".to_string(), repo: "b".to_string() })
        .unwrap();
    manager.add_channel(channel_config("mirror"), ChannelType::GitLab { project_id: "7".to_string() }).unwrap();
    let packages = vec![package("a.zip", 1000, "aa"), package("b.zip", 24, "bb")];
    let records = manager.distribute_packages(&packages, 500).unwrap();
    assert_eq!(records.len(), 2);
    assert_eq!(records[0].channel, "github");
    assert_eq!(records[1].channel, "mirror");
    assert_eq!(records[0].metrics.bytes_transferred, 1024);
    assert_eq!(records[0].metrics.end_time, Some(501));
    assert!(matches!(records[0].status, DistributionStatus::Completed));
    assert_eq!(records[1].assets, vec!["a.zip".to_string(), "b.zip".to_string()]);
    assert_eq!(manager.channels_list()[0].stats.total_uploads, 1);
    assert_eq!(manager.channels_list()[1].stats.bytes_uploaded, 1024);
    assert!(matches!(manager.channels_list()[0].status, ChannelStatus::Active));
    assert_eq!(manager.release_metadata().assets.len(), 2);

    let stats = manager.get_distribution_stats();
    assert_eq!(stats.total_distributions, 2);
    assert_eq!(stats.successful_distributions, 2);
    assert_eq!(stats.failed_distributions, 0);
    assert_eq!(stats.total_bytes, 2048);
    assert_eq!(stats.avg_duration, 1_000_000_000);
    assert_eq!(stats.channel_stats.len(), 2);
}

#[test]
fn test_empty_distribution_stats() {
    let manager = DistributionManager::new();
    let stats = manager.get_distribution_stats();
    assert_eq!(stats.total_distributions, 0);
    assert_eq!(stats.avg_duration, 0);
}

#[test]
fn test_distribution_defaults() {
    let upload = UploadConfig::default();
    assert_eq!(upload.max_file_size, 2 * 1024 * 1024 * 1024);
    assert_eq!(upload.chunk_size, 64 * 1024 * 1024);
    assert!(!upload.compression);
    let retry = RetryConfig::default();
    assert_eq!(retry.max_attempts, 3);
    assert_eq!(retry.retry_on.len(), 3);
    let stats = aetherscript::release::distribution::ChannelStats::default();
    assert_eq!(stats.total_uploads, 0);
    assert_eq!(stats.last_upload, None);
}
