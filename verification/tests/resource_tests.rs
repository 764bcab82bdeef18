//! Tests of the resource lifecycle analysis.

use aetherscript::ast::{
    Argument, Block, CleanupSpecification, Expression, FunctionCall, FunctionReference, Identifier, ResourceAcquisition,
    ResourceScope, SourceLocation, Statement,
};
use aetherscript::error::{ErrorKind, SemanticError};
use aetherscript::resource::analysis::ResourceAnalyzer;
use aetherscript::resource::ResourceManager;

fn acquisition(resource_type: &str, binding: &str, cleanup: &str) -> ResourceAcquisition {
    ResourceAcquisition {
        resource_type: resource_type.to_string(),
        binding: Identifier::new(binding.to_string(), SourceLocation::unknown()),
        acquisition: Expression::NullLiteral { source_location: SourceLocation::unknown() },
        cleanup: CleanupSpecification::Function { name: cleanup.to_string(), pass_resource: true },
        type_spec: None,
        parameters: vec![],
    }
}

fn use_of(name: &str) -> Statement {
    Statement::FunctionCall {
        call: FunctionCall {
            function_reference: FunctionReference::Local {
                name: Identifier::new("read".to_string(), SourceLocation::unknown()),
            },
            arguments: vec![Argument {
                parameter_name: Identifier::new("handle".to_string(), SourceLocation::unknown()),
                value: Box::new(Expression::Variable {
                    name: Identifier::new(name.to_string(), SourceLocation::unknown()),
                    source_location: SourceLocation::unknown(),
                }),
                source_location: SourceLocation::unknown(),
            }],
            variadic_arguments: vec![],
        },
        source_location: SourceLocation::unknown(),
    }
}

#[test]
fn test_resource_leak_detection() {
    let mut analyzer = ResourceAnalyzer::new();
    analyzer.enter_scope("test_scope".to_string(), SourceLocation::unknown());
    let resource = acquisition("file_handle", "file", "close");
    analyzer.acquire_resource(&resource).unwrap();
    analyzer.check_function_exit_leaks(&SourceLocation::unknown());
    assert_eq!(analyzer.get_results().leaks.len(), 1);
    assert_eq!(analyzer.get_results().leaks[0].resource_type, "file_handle");
}

#[test]
fn test_double_release_detection() {
    let mut analyzer = ResourceAnalyzer::new();
    analyzer.enter_scope("test_scope".to_string(), SourceLocation::unknown());
    let resource = acquisition("memory_buffer", "buffer", "free");
    analyzer.acquire_resource(&resource).unwrap();
    analyzer.release_resource("buffer", "memory_buffer", &SourceLocation::unknown()).unwrap();
    let result = analyzer.release_resource("buffer", "memory_buffer", &SourceLocation::unknown());
    assert!(result.is_err());
    assert_eq!(analyzer.get_results().double_releases.len(), 1);
}

#[test]
fn test_resource_manager_creation() {
    let manager = ResourceManager::new();
    let results = manager.get_results();
    assert_eq!(results.max_concurrent_resources, 0);
    assert!(results.leaks.is_empty());
}

#[test]
fn test_release_of_unknown_binding() {
    let mut analyzer = ResourceAnalyzer::new();
    match analyzer.release_resource("ghost", "file_handle", &SourceLocation::unknown()) {
        Err(SemanticError::UndefinedSymbol { symbol, .. }) => assert_eq!(symbol, "ghost"),
        other => panic!("unexpected {:?}", other),
    }
}

#[test]
fn test_resource_scope_releases_in_reverse() {
    let mut analyzer = ResourceAnalyzer::new();
    let scope = ResourceScope {
        scope_id: "io".to_string(),
        resources: vec![acquisition("file_handle", "input", "close"), acquisition("file_handle", "output", "close")],
        body: Block { statements: vec![use_of("input"), use_of("output")], source_location: SourceLocation::unknown() },
        source_location: SourceLocation::unknown(),
    };
    assert!(analyzer.analyze_resource_scope(&scope).is_ok());
    assert_eq!(analyzer.get_results().max_concurrent_resources, 2);
    assert_eq!(analyzer.count_active_resources(), 0);
    analyzer.check_function_exit_leaks(&SourceLocation::unknown());
    assert!(analyzer.get_results().leaks.is_empty());
}

#[test]
fn test_use_after_release_is_reported() {
    let mut analyzer = ResourceAnalyzer::new();
    analyzer.enter_scope("outer".to_string(), SourceLocation::unknown());
    analyzer.acquire_resource(&acquisition("socket", "conn", "close")).unwrap();
    analyzer.release_resource("conn", "socket", &SourceLocation::unknown()).unwrap();
    let read = Expression::Variable {
        name: Identifier::new("conn".to_string(), SourceLocation::unknown()),
        source_location: SourceLocation::unknown(),
    };
    // A released binding is no longer watched, so reading it is not checked.
    assert!(analyzer.check_resource_usage_in_expression(&read).is_ok());
    // Acquired again under the same name, it is watched, and the first
    // resource bound to it has been released.
    analyzer.acquire_resource(&acquisition("socket", "conn", "close")).unwrap();
    assert_eq!(analyzer.count_active_resources(), 1);
    let result = analyzer.check_resource_usage_in_expression(&read);
    assert_eq!(result.unwrap_err().kind(), ErrorKind::InvalidOperation);
    assert_eq!(analyzer.get_results().use_after_release.len(), 1);
    assert_eq!(analyzer.get_results().use_after_release[0].resource_type, "socket");
}

fn at(line: usize) -> SourceLocation {
    SourceLocation { file: "res.aether".to_string(), line, column: 1, offset: 0 }
}

#[test]
fn test_finding_locations() {
    let mut analyzer = ResourceAnalyzer::new();
    analyzer.enter_scope("outer".to_string(), SourceLocation::unknown());
    let mut buffer = acquisition("memory_buffer", "buffer", "free");
    buffer.binding = Identifier::new("buffer".to_string(), at(3));
    analyzer.acquire_resource(&buffer).unwrap();
    analyzer.release_resource("buffer", "memory_buffer", &at(7)).unwrap();
    assert!(analyzer.release_resource("buffer", "memory_buffer", &at(9)).is_err());
    let double = &analyzer.get_results().double_releases[0];
    assert_eq!(double.first_release.line, 3);
    assert_eq!(double.second_release.line, 9);

    let mut file = acquisition("file_handle", "file", "close");
    file.binding = Identifier::new("file".to_string(), at(11));
    analyzer.acquire_resource(&file).unwrap();
    analyzer.check_function_exit_leaks(&at(20));
    let leak = &analyzer.get_results().leaks[0];
    assert_eq!(leak.binding, "file");
    assert_eq!(leak.acquisition_location.line, 11);
    assert_eq!(leak.scope_exit_location.line, 20);
    assert!(analyzer.get_results().contract_violations.is_empty());
}
