//! Tests of the release tooling's decision logic and generated files.

use std::collections::HashMap;

use aetherscript::keyed::KeyedList;
use aetherscript::release::automation::{
    create_stage_groups, evaluate_condition, pipeline_status, RunEffect, RunOutcome, RunStep, SequentialRun, ConditionOperator, ConditionType, EnvironmentInfo,
    ExecutorType, GitInfo, NotificationConfig, ParallelConfig, PipelineContext, PipelineStatus, StageCondition,
    StageExecutor, StageStatus, TimeoutConfig,
};
use aetherscript::release::packaging::{
    ArchiveConfig, ChecksumAlgorithm, InstallerBranding, InstallerConfig, InstallerType, PackageBuilder,
    PackageBuilderConfig, PackageFormat, PackageFormatConfig, PackageInfo, PlatformTarget, VerificationConfig,
};
use aetherscript::release::updates::{is_newer_version, is_platform_compatible, is_version_compatible, PlatformRequirement};
use aetherscript::text::{replace, str_contains};

fn builder_config() -> PackageBuilderConfig {
    PackageBuilderConfig {
        build_dir: "target/build".to_string(),
        output_dir: "target/packages".to_string(),
        temp_dir: "target/temp".to_string(),
        signing: None,
        verification: VerificationConfig::default(),
        formats: vec![],
        archive: ArchiveConfig::default(),
        installer: InstallerConfig {
            installer_type: InstallerType::ShellScript,
            install_dir: "/usr/local".to_string(),
            desktop_shortcuts: false,
            start_menu: false,
            add_to_path: true,
            license_agreement: None,
            install_scripts: vec![],
            uninstall_scripts: vec![],
            branding: InstallerBranding {
                company: "AetherScript".to_string(),
                product: "AetherScript Compiler".to_string(),
                logo: None,
                banner: None,
                icon: None,
                colors: HashMap::new(),
            },
        },
    }
}

fn linux() -> PlatformTarget {
    PlatformTarget {
        os: "linux".to_string(),
        arch: "x86_64".to_string(),
        variant: None,
        min_version: None,
        options: HashMap::new(),
    }
}

fn environment() -> EnvironmentInfo {
    EnvironmentInfo {
        os: "linux".to_string(),
        arch: "x86_64".to_string(),
        env_type: "development".to_string(),
        ci_system: None,
        build_number: None,
    }
}

#[test]
fn test_package_builder_creation() {
    let builder = PackageBuilder::new(builder_config());
    assert_eq!(builder.metadata().name, "aetherscript");
}

#[test]
fn test_package_name_generation() {
    let builder = PackageBuilder::new(builder_config());
    let name = builder.generate_package_name(&PackageFormat::Zip, &linux());
    assert_eq!(name, "aetherscript-1.0.0-linux-x86_64.zip");
}

#[test]
fn test_checksum_calculation() {
    let builder = PackageBuilder::new(builder_config());
    let checksum = builder.checksum_of_contents(b"test content", &ChecksumAlgorithm::Sha256).unwrap();
    assert!(!checksum.is_empty());
}

#[test]
fn test_sha256_checksum_value() {
    let builder = PackageBuilder::new(builder_config());
    let checksum = builder.checksum_of_contents(b"abc", &ChecksumAlgorithm::Sha256).unwrap();
    assert_eq!(checksum, "ba7816bf8f01cfea414140de5dae2223b00361a396177a9cb410ff61f20015ad");
    let md5 = builder.checksum_of_contents(b"abc", &ChecksumAlgorithm::Md5).unwrap();
    assert_eq!(md5, "00000003");
}

#[test]
fn test_deb_control_generation() {
    let builder = PackageBuilder::new(builder_config());
    let control = builder.generate_deb_control(&linux()).unwrap();
    assert!(control.contains("Package: aetherscript"));
    assert!(control.contains("Version: 1.0.0"));
    assert!(control.contains("Architecture: amd64"));
}

#[test]
fn test_variable_expansion() {
    let context = PipelineContext::from_environment(environment()).unwrap();
    let executor = StageExecutor {
        executor_type: ExecutorType::Shell,
        working_dir: ".".to_string(),
        environment: HashMap::new(),
    };

    let command = "echo 'Project: ${PROJECT_NAME}, Version: ${VERSION}'";
    let expanded = executor.expand_variables(command, &context);

    assert!(expanded.contains(&context.project.name));
    assert!(expanded.contains(&context.version.current));
}

#[test]
fn test_condition_evaluation() {
    let git = GitInfo::from_git().unwrap();
    let condition = StageCondition {
        condition_type: ConditionType::Environment,
        value: "PATH".to_string(),
        operator: ConditionOperator::NotEquals,
    };
    assert!(evaluate_condition(&condition, &git, "/usr/bin:/bin", false, None));

    let condition2 = StageCondition {
        condition_type: ConditionType::FileExists,
        value: "test_temp_file.txt".to_string(),
        operator: ConditionOperator::NotEquals,
    };
    assert!(evaluate_condition(&condition2, &git, "", true, None));
}

#[test]
fn test_condition_on_branch_tags_and_stages() {
    let git = GitInfo::from_git().unwrap();
    let branch = StageCondition {
        condition_type: ConditionType::Branch,
        value: "main".to_string(),
        operator: ConditionOperator::Equals,
    };
    assert!(evaluate_condition(&branch, &git, "", false, None));
    let tag = StageCondition {
        condition_type: ConditionType::Tag,
        value: "v1".to_string(),
        operator: ConditionOperator::Contains,
    };
    assert!(evaluate_condition(&tag, &git, "", false, None));
    let stage = StageCondition {
        condition_type: ConditionType::StageResult,
        value: "success".to_string(),
        operator: ConditionOperator::Equals,
    };
    assert!(evaluate_condition(&stage, &git, "", false, Some(&StageStatus::Success)));
    assert!(!evaluate_condition(&stage, &git, "", false, None));
}

#[test]
fn test_stage_groups() {
    let deps: Vec<Vec<String>> = vec![vec![], vec!["build".to_string()]];
    let done = vec!["build".to_string()];
    let groups = create_stage_groups(&deps, &done).unwrap();
    assert_eq!(groups, vec![vec![0, 1]]);
    let none: Vec<Vec<String>> = vec![];
    assert!(create_stage_groups(&none, &done).unwrap().is_empty());
    assert!(create_stage_groups(&deps, &vec![]).is_err());
}

#[test]
fn test_metric_extraction() {
    let executor = StageExecutor {
        executor_type: ExecutorType::Shell,
        working_dir: ".".to_string(),
        environment: HashMap::new(),
    };
    let metrics = executor.extract_metrics("METRIC_coverage: 85.5\nplain: 3\nno colon\n tests_METRIC :  12 ");
    assert_eq!(metrics, vec![
        ("METRIC_coverage".to_string(), "85.5".to_string()),
        ("tests_METRIC".to_string(), "12".to_string()),
    ]);
}

#[test]
fn test_pipeline_status_rules() {
    assert!(matches!(pipeline_status(0, 3, false), PipelineStatus::Pending));
    assert!(matches!(pipeline_status(1, 3, false), PipelineStatus::Running));
    assert!(matches!(pipeline_status(3, 3, false), PipelineStatus::Completed));
    assert!(matches!(pipeline_status(1, 3, true), PipelineStatus::Failed));
}

#[test]
fn test_default_configurations() {
    let t = TimeoutConfig::default();
    assert_eq!((t.default_stage, t.pipeline, t.build, t.test, t.deploy), (300, 3600, 1800, 1200, 600));
    let p = ParallelConfig::default();
    assert!(!p.enabled);
    assert_eq!(p.max_parallel, 4);
    let n = NotificationConfig::default();
    assert!(n.channels.is_empty() && n.triggers.is_empty() && n.templates.is_empty());
    let a = ArchiveConfig::default();
    assert_eq!(a.compression_level, 6);
    let v = VerificationConfig::default();
    assert!(v.checksums && !v.strict_mode);
}

#[test]
fn test_keyed_list_insert_then_get() {
    let mut list: KeyedList<u32> = KeyedList::new();
    list.insert("a".to_string(), 1);
    list.insert("b".to_string(), 2);
    list.insert("a".to_string(), 3);
    assert_eq!(list.len(), 2);
    assert_eq!(list.get("a"), Some(&3));
    assert_eq!(list.get("b"), Some(&2));
    assert!(!list.contains_key("c"));
}

#[test]
fn test_text_replace() {
    assert_eq!(replace("a-b-c", "-", "+"), "a+b+c");
    assert_eq!(replace("abc", "x", "y"), "abc");
    assert!(str_contains("hello world", "o w"));
}

#[test]
fn test_sequential_run_decisions() {
    let mut run = SequentialRun::new(3);
    assert_eq!(run.next_step(), RunStep::CheckConditions(0));
    assert_eq!(run.advance(RunOutcome::Conditions(false)), RunEffect::RecordSkipped(0));
    assert_eq!(run.next_step(), RunStep::CheckConditions(1));
    assert_eq!(run.advance(RunOutcome::Conditions(true)), RunEffect::Nothing);
    assert_eq!(run.next_step(), RunStep::Execute(1));
    assert_eq!(run.advance(RunOutcome::Executed(false)), RunEffect::Nothing);
    assert_eq!(run.next_step(), RunStep::CheckGates(1));
    assert_eq!(run.advance(RunOutcome::GatesPassed), RunEffect::RecordResult { stage: 1, failed: false });
    assert_eq!(run.current_stage(), 2);
    assert_eq!(run.advance(RunOutcome::Conditions(true)), RunEffect::Nothing);
    assert_eq!(run.advance(RunOutcome::Executed(true)), RunEffect::Nothing);
    assert_eq!(run.advance(RunOutcome::GatesPassed), RunEffect::RecordResult { stage: 2, failed: true });
    assert_eq!(run.next_step(), RunStep::Done);
    assert_eq!(run.current_stage(), 2);

    let empty = SequentialRun::new(0);
    assert_eq!(empty.next_step(), RunStep::Done);
}

#[test]
fn test_update_version_and_platform_checks() {
    assert!(is_newer_version("1.1.0", "1.0.0"));
    assert!(!is_newer_version("1.0.0", "1.0.0"));
    assert!(!is_newer_version("1.0", "1.0.0"));
    // Versions compare part by part, numbers by value.
    assert!(is_newer_version("1.10.0", "1.9.0"));
    assert!(!is_newer_version("1.9.0", "1.10.0"));
    assert!(!is_newer_version("1.01.0", "1.1.0"));
    assert!(is_newer_version("1.0.0-beta", "1.0.0"));
    assert!(is_version_compatible("1.9", "1.10"));
    assert!(is_version_compatible("1.0.0", "1.0.0"));
    assert!(is_version_compatible("1.0.0", "1.2.0"));
    assert!(!is_version_compatible("2.0", "1.9"));

    let linux = PlatformRequirement {
        os: "linux".to_string(),
        arch: "x86_64".to_string(),
        min_os_version: None,
        features: vec![],
    };
    assert!(is_platform_compatible(&vec![], "windows", "x86"));
    assert!(is_platform_compatible(&vec![linux.clone()], "linux", "x86_64"));
    assert!(!is_platform_compatible(&vec![linux], "linux", "aarch64"));
}

fn format_config(format: PackageFormat, platforms: Vec<PlatformTarget>) -> PackageFormatConfig {
    PackageFormatConfig { format, platforms, options: HashMap::new(), includes: vec![], excludes: vec![], post_process: vec![] }
}

fn macos() -> PlatformTarget {
    PlatformTarget {
        os: "macos".to_string(),
        arch: "aarch64".to_string(),
        variant: None,
        min_version: None,
        options: HashMap::new(),
    }
}

#[test]
fn test_package_plan_orders_formats_then_platforms() {
    let mut config = builder_config();
    config.formats = vec![
        format_config(PackageFormat::Zip, vec![linux(), macos()]),
        format_config(PackageFormat::Snap, vec![]),
        format_config(PackageFormat::Deb, vec![linux()]),
    ];
    let builder = PackageBuilder::new(config);
    assert_eq!(builder.package_plan(), Ok(vec![(0, 0), (0, 1), (2, 0)]));

    let mut blocked = builder_config();
    blocked.formats = vec![
        format_config(PackageFormat::Zip, vec![linux()]),
        format_config(PackageFormat::Snap, vec![linux()]),
        format_config(PackageFormat::Npm, vec![linux()]),
    ];
    assert_eq!(PackageBuilder::new(blocked).package_plan(), Err(1));
    assert_eq!(PackageBuilder::new(builder_config()).package_plan(), Ok(vec![]));
}

#[test]
fn test_first_checksum_mismatch() {
    let builder = PackageBuilder::new(builder_config());
    let package = |name: &str, checksum: &str| PackageInfo {
        name: name.to_string(),
        path: format!("target/packages/{}", name),
        format: PackageFormat::Zip,
        platform: linux(),
        size: 1,
        checksum: checksum.to_string(),
        signature: None,
        created_at: 0,
        metadata: builder.metadata().clone(),
    };
    let packages = vec![package("a.zip", "aa"), package("b.zip", "bb"), package("c.zip", "cc")];
    let same = vec!["aa".to_string(), "bb".to_string(), "cc".to_string()];
    assert_eq!(PackageBuilder::first_checksum_mismatch(&packages, &same), None);
    let differs = vec!["aa".to_string(), "bx".to_string(), "cx".to_string()];
    assert_eq!(PackageBuilder::first_checksum_mismatch(&packages, &differs), Some(1));
    assert_eq!(PackageBuilder::first_checksum_mismatch(&vec![], &vec![]), None);
}
