//! Tests of the choice of updates.

use std::collections::HashMap;

use aetherscript::release::updates::{
    evaluate_text_rule, filter_updates, security_rule_subject, PlatformRequirement, ReleaseStage, RuleCondition,
    RuleOperator, UpdateInfo, UpdateType,
};

fn update(version: &str, update_type: UpdateType, min_version: Option<&str>, os: Option<&str>) -> UpdateInfo {
    UpdateInfo {
        version: version.to_string(),
        update_type,
        stage: ReleaseStage::Stable,
        release_notes: "Bug fixes and improvements".to_string(),
        download_url: format!("https://updates.example.com/{}.tar.gz", version),
        file_size: 50 * 1024 * 1024,
        checksums: HashMap::new(),
        signature: Some("signature_data".to_string()),
        released_at: "2024-01-01T00:00:00Z".to_string(),
        min_version: min_version.map(|m| m.to_string()),
        max_version: None,
        platforms: os
            .map(|o| {
                vec![PlatformRequirement {
                    os: o.to_string(),
                    arch: "x86_64".to_string(),
                    min_os_version: None,
                    features: vec![],
                }]
            })
            .unwrap_or_default(),
        dependencies: vec![],
        install_instructions: None,
        breaking_changes: vec![],
        security_fixes: vec![],
    }
}

#[test]
fn test_filter_updates() {
    let updates = vec![
        update("1.1.0", UpdateType::Patch, Some("1.0.0"), Some("linux")),
        update("1.3.0", UpdateType::Security, None, None),
        update("0.9.0", UpdateType::Patch, None, None),
        update("1.2.0", UpdateType::Major, None, None),
        update("1.5.0", UpdateType::Patch, Some("2.0.0"), None),
        update("1.4.0", UpdateType::Patch, None, None),
        update("1.6.0", UpdateType::Patch, None, Some("windows")),
    ];
    let secure = vec![true, true, true, true, true, false, true];
    let allowed = vec![UpdateType::Security, UpdateType::Patch];
    let offered = filter_updates(updates, &allowed, "1.0.0", "linux", "x86_64", &secure);
    let versions: Vec<&str> = offered.iter().map(|u| u.version.as_str()).collect();
    assert_eq!(versions, vec!["1.3.0", "1.1.0"]);

    let numbered = vec![
        update("1.9.0", UpdateType::Patch, None, None),
        update("1.10.0", UpdateType::Patch, None, None),
        update("1.2.0", UpdateType::Patch, None, None),
    ];
    let offered = filter_updates(numbered, &allowed, "1.0.0", "linux", "x86_64", &vec![true, true, true]);
    let versions: Vec<&str> = offered.iter().map(|u| u.version.as_str()).collect();
    assert_eq!(versions, vec!["1.10.0", "1.9.0", "1.2.0"]);

    let none = filter_updates(vec![], &allowed, "1.0.0", "linux", "x86_64", &vec![]);
    assert!(none.is_empty());
}

#[test]
fn test_security_rule_text() {
    let u = update("1.1.0", UpdateType::Minor, None, None);
    assert_eq!(security_rule_subject(&RuleCondition::FileSize, &u), "52428800");
    assert_eq!(security_rule_subject(&RuleCondition::UpdateType, &u), "Minor");
    assert_eq!(security_rule_subject(&RuleCondition::ReleaseStage, &u), "Stable");
    assert_eq!(security_rule_subject(&RuleCondition::SignaturePresent, &u), "true");
    assert_eq!(security_rule_subject(&RuleCondition::CertificateIssuer, &u), "unknown");
    let url = security_rule_subject(&RuleCondition::SourceURL, &u);
    assert_eq!(evaluate_text_rule(&RuleOperator::Contains, &url, "https://"), Some(true));
    assert_eq!(evaluate_text_rule(&RuleOperator::NotContains, &url, "https://"), Some(false));
    assert_eq!(evaluate_text_rule(&RuleOperator::Equals, "Minor", "Minor"), Some(true));
    assert_eq!(evaluate_text_rule(&RuleOperator::GreaterThan, "52428800", "1000"), None);
}
