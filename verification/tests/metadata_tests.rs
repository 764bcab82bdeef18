//! Tests of the semantic metadata repository.

use aetherscript::semantic::metadata::{MetadataRepository, PrivacyLevel, SemanticType, StylePreference};

fn semantic_type(name: &str, constraint: Option<&str>) -> SemanticType {
    SemanticType {
        name: name.to_string(),
        base_type: "String".to_string(),
        constraint: constraint.map(|c| c.to_string()),
        semantic_category: "contact".to_string(),
        privacy_level: Some(PrivacyLevel::PersonallyIdentifiable),
        hints: vec![],
    }
}

#[test]
fn test_metadata_repository_validation() {
    let mut repository = MetadataRepository::new();
    assert!(matches!(repository.global_hints.style_preference, StylePreference::Defensive));
    assert_eq!(repository.global_hints.include_patterns, vec!["validation".to_string(), "error_handling".to_string()]);
    assert_eq!(
        repository.validate_semantic_type("email_address", "a@b.c"),
        Err("Unknown semantic type: email_address".to_string())
    );
    repository.register_type(semantic_type("email_address", Some("^.+@.+$")));
    repository.register_type(semantic_type("nickname", None));
    assert_eq!(repository.validate_semantic_type("email_address", "a@b.c"), Ok(()));
    assert_eq!(
        repository.validate_semantic_type("email_address", ""),
        Err("Value for email_address cannot be empty".to_string())
    );
    assert_eq!(repository.validate_semantic_type("nickname", ""), Ok(()));
    assert_eq!(repository.types.len(), 2);
}
