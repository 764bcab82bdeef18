//! Tests of the semantic analyzer.

use aetherscript::ast::{
    Argument, AssignmentTarget, Block, CatchClause, ConstantDeclaration, EnumVariant, ExportStatement, Expression, FieldValue,
    Function,
    FunctionCall, FunctionMetadata, FunctionReference, Identifier, ImportStatement, MatchCase, Module, Mutability, Parameter,
    Pattern,
    PassingMode, PrimitiveType, Program, ResourceAcquisition, ResourceScope, SourceLocation, Statement, StructField,
    TypeDefinition, TypeSpecifier, CleanupSpecification,
};
use aetherscript::error::{ErrorKind, SemanticError};
use aetherscript::semantic::symbols::{Symbol, SymbolKind};
use aetherscript::semantic::types::Type;
use aetherscript::semantic::SemanticAnalyzer;

fn loc() -> SourceLocation {
    SourceLocation::unknown()
}

fn ident(name: &str) -> Identifier {
    Identifier::new(name.to_string(), loc())
}

fn prim(p: PrimitiveType) -> Box<TypeSpecifier> {
    Box::new(TypeSpecifier::Primitive { prim: p, source_location: loc() })
}

fn int_lit(v: i64) -> Box<Expression> {
    Box::new(Expression::IntegerLiteral { value: v, source_location: loc() })
}

fn float(v: f64) -> Box<Expression> {
    Box::new(Expression::FloatLiteral { bits: v.to_bits(), source_location: loc() })
}

fn string(v: &str) -> Box<Expression> {
    Box::new(Expression::StringLiteral { value: v.to_string(), source_location: loc() })
}

fn var(name: &str) -> Box<Expression> {
    Box::new(Expression::Variable { name: ident(name), source_location: loc() })
}

fn empty_module(name: &str) -> Module {
    Module {
        name: ident(name),
        intent: None,
        imports: Vec::new(),
        exports: Vec::new(),
        type_definitions: Vec::new(),
        constant_declarations: Vec::new(),
        function_definitions: Vec::new(),
        external_functions: Vec::new(),
        source_location: loc(),
    }
}

fn create_test_module() -> Module {
    let mut module = empty_module("test_module");
    module.intent = Some("Test module".to_string());
    module.constant_declarations.push(ConstantDeclaration {
        name: ident("PI"),
        type_spec: prim(PrimitiveType::Float),
        value: float(3.14159),
        intent: Some("Mathematical constant PI".to_string()),
        source_location: loc(),
    });
    module
}

fn metadata() -> FunctionMetadata {
    FunctionMetadata {
        preconditions: Vec::new(),
        postconditions: Vec::new(),
        invariants: Vec::new(),
        algorithm_hint: None,
        throws_exceptions: Vec::new(),
        thread_safe: None,
        may_block: None,
    }
}

fn param(name: &str, p: PrimitiveType) -> Parameter {
    Parameter {
        name: ident(name),
        param_type: prim(p),
        intent: None,
        passing_mode: PassingMode::ByValue,
        source_location: loc(),
    }
}

fn function(name: &str, params: Vec<Parameter>, ret: PrimitiveType, statements: Vec<Statement>) -> Function {
    Function {
        name: ident(name),
        intent: None,
        generic_parameters: Vec::new(),
        parameters: params,
        return_type: prim(ret),
        metadata: metadata(),
        body: Block { statements, source_location: loc() },
        source_location: loc(),
    }
}

fn declare(name: &str, p: PrimitiveType, mutability: Mutability, init: Option<Box<Expression>>) -> Statement {
    Statement::VariableDeclaration {
        name: ident(name),
        type_spec: prim(p),
        mutability,
        initial_value: init,
        intent: None,
        source_location: loc(),
    }
}

fn call(name: &str, args: Vec<Box<Expression>>) -> Box<Expression> {
    let arguments = args
        .into_iter()
        .map(|value| Argument { parameter_name: ident("arg"), value, source_location: loc() })
        .collect();
    Box::new(Expression::FunctionCall {
        call: FunctionCall {
            function_reference: FunctionReference::Local { name: ident(name) },
            arguments,
            variadic_arguments: Vec::new(),
        },
        source_location: loc(),
    })
}

fn is_prim(t: &Type, p: PrimitiveType) -> bool {
    t.equals(&Type::Primitive(p))
}

fn kind_of(r: Result<(), SemanticError>) -> Option<ErrorKind> {
    match r {
        Ok(()) => None,
        Err(e) => Some(e.kind()),
    }
}

#[test]
fn test_semantic_analyzer_creation() {
    let analyzer = SemanticAnalyzer::new();
    assert!(!analyzer.has_errors());
    assert_eq!(analyzer.get_statistics().modules_analyzed, 0);
}

#[test]
fn test_constant_declaration_analysis() {
    let mut analyzer = SemanticAnalyzer::new();
    let module = create_test_module();

    let result = analyzer.analyze_module(&module);
    assert!(result.is_ok());
    assert_eq!(analyzer.get_statistics().modules_analyzed, 1);
    assert_eq!(analyzer.get_statistics().variables_declared, 1);
}

#[test]
fn test_type_mismatch_detection() {
    let mut analyzer = SemanticAnalyzer::new();

    let mut module = create_test_module();
    module.constant_declarations[0].value = string("not a float");

    let result = analyzer.analyze_module(&module);
    assert!(result.is_err());
}

#[test]
fn test_expression_type_analysis() {
    let analyzer = SemanticAnalyzer::new();

    let int_type = analyzer.analyze_expression(&int_lit(42)).unwrap();
    assert!(is_prim(&int_type, PrimitiveType::Integer));

    let add_expr = Expression::Add { left: int_lit(10), right: int_lit(20), source_location: loc() };
    let add_type = analyzer.analyze_expression(&add_expr).unwrap();
    assert!(is_prim(&add_type, PrimitiveType::Integer));
}

#[test]
fn test_variable_initialization_checking() {
    let mut analyzer = SemanticAnalyzer::new();

    let var_symbol = Symbol {
        name: "x".to_string(),
        symbol_type: Type::Primitive(PrimitiveType::Integer),
        kind: SymbolKind::Variable,
        is_mutable: true,
        is_initialized: false,
        declaration_location: loc(),
        is_moved: false,
    };
    analyzer.add_symbol(var_symbol).unwrap();

    let result = analyzer.analyze_expression(&var("x"));
    assert!(result.is_err());
    if let Err(SemanticError::UseBeforeInitialization { .. }) = result {
        // Expected error
    } else {
        panic!("Expected UseBeforeInitialization error");
    }
}

#[test]
fn test_float_promotion_in_arithmetic() {
    let analyzer = SemanticAnalyzer::new();
    let e = Expression::Multiply { left: int_lit(2), right: float(1.5), source_location: loc() };
    assert!(is_prim(&analyzer.analyze_expression(&e).unwrap(), PrimitiveType::Float));
    let bad = Expression::Subtract { left: int_lit(2), right: string("x"), source_location: loc() };
    assert_eq!(analyzer.analyze_expression(&bad).unwrap_err().kind(), ErrorKind::TypeMismatch);
}

#[test]
fn test_undefined_variable_is_reported() {
    let analyzer = SemanticAnalyzer::new();
    match analyzer.analyze_expression(&var("missing")) {
        Err(SemanticError::UndefinedSymbol { symbol, .. }) => assert_eq!(symbol, "missing"),
        other => panic!("unexpected {:?}", other),
    }
}

#[test]
fn test_string_operations_types() {
    let analyzer = SemanticAnalyzer::new();
    let concat = Expression::StringConcat { operands: vec![string("a"), string("b")], source_location: loc() };
    assert!(is_prim(&analyzer.analyze_expression(&concat).unwrap(), PrimitiveType::String));
    let bad = Expression::StringConcat { operands: vec![string("a"), int_lit(1)], source_location: loc() };
    assert_eq!(analyzer.analyze_expression(&bad).unwrap_err().kind(), ErrorKind::TypeMismatch);
    let len = Expression::StringLength { string: string("abc"), source_location: loc() };
    assert!(is_prim(&analyzer.analyze_expression(&len).unwrap(), PrimitiveType::Integer));
    let at = Expression::StringCharAt { string: string("abc"), index: int_lit(1), source_location: loc() };
    assert!(is_prim(&analyzer.analyze_expression(&at).unwrap(), PrimitiveType::Char));
    let eq = Expression::StringEquals { left: string("a"), right: string("b"), source_location: loc() };
    assert!(is_prim(&analyzer.analyze_expression(&eq).unwrap(), PrimitiveType::Boolean));
}

#[test]
fn test_array_and_null_types() {
    let analyzer = SemanticAnalyzer::new();
    let arr = Expression::ArrayLiteral {
        element_type: prim(PrimitiveType::Integer),
        elements: vec![int_lit(1), int_lit(2), int_lit(3)],
        source_location: loc(),
    };
    let t = analyzer.analyze_expression(&arr).unwrap();
    assert!(t.equals(&Type::Array { element_type: Box::new(Type::Primitive(PrimitiveType::Integer)), size: Some(3) }));
    assert_eq!(t.display_name(), "Array<Integer>");
    let access = Expression::ArrayAccess { array: Box::new(arr), index: int_lit(0), source_location: loc() };
    assert!(is_prim(&analyzer.analyze_expression(&access).unwrap(), PrimitiveType::Integer));
    let null = Expression::NullLiteral { source_location: loc() };
    let p = analyzer.analyze_expression(&null).unwrap();
    assert!(p.equals(&Type::Pointer { target_type: Box::new(Type::Primitive(PrimitiveType::Void)), is_mutable: false }));
    let other = Expression::LessThan { left: int_lit(1), right: int_lit(2), source_location: loc() };
    assert!(analyzer.analyze_expression(&other).unwrap().equals(&Type::Error));
}

#[test]
fn test_function_call_checks() {
    let mut module = empty_module("calls");
    module.function_definitions.push(function("add", vec![param("a", PrimitiveType::Integer), param("b", PrimitiveType::Integer)], PrimitiveType::Integer, vec![]));
    module.function_definitions.push(function(
        "main",
        vec![],
        PrimitiveType::Void,
        vec![
            declare("r", PrimitiveType::Integer, Mutability::Immutable, Some(call("add", vec![int_lit(1), int_lit(2)]))),
            Statement::Expression { expr: call("printf", vec![string("%d")]), source_location: loc() },
        ],
    ));
    let mut analyzer = SemanticAnalyzer::new();
    assert!(analyzer.analyze_module(&module).is_ok());
    assert_eq!(analyzer.get_statistics().functions_analyzed, 2);
    assert_eq!(analyzer.get_statistics().variables_declared, 1);

    let mut bad = empty_module("calls");
    bad.function_definitions.push(function("add", vec![param("a", PrimitiveType::Integer)], PrimitiveType::Integer, vec![]));
    bad.function_definitions.push(function(
        "main",
        vec![],
        PrimitiveType::Void,
        vec![Statement::Expression { expr: call("add", vec![int_lit(1), int_lit(2)]), source_location: loc() }],
    ));
    let mut analyzer = SemanticAnalyzer::new();
    assert_eq!(kind_of(analyzer.analyze_module(&bad)), Some(ErrorKind::ArgumentCountMismatch));
}

#[test]
fn test_assignment_rules() {
    let mut module = empty_module("assign");
    module.function_definitions.push(function(
        "main",
        vec![],
        PrimitiveType::Void,
        vec![
            declare("x", PrimitiveType::Integer, Mutability::Mutable, None),
            Statement::Assignment {
                target: AssignmentTarget::Variable { name: ident("x") },
                value: int_lit(5),
                source_location: loc(),
            },
            Statement::Return { value: Some(var("x")), source_location: loc() },
        ],
    ));
    let mut analyzer = SemanticAnalyzer::new();
    assert!(analyzer.analyze_module(&module).is_ok());

    let mut immutable = empty_module("assign");
    immutable.function_definitions.push(function(
        "main",
        vec![],
        PrimitiveType::Void,
        vec![
            declare("x", PrimitiveType::Integer, Mutability::Immutable, Some(int_lit(1))),
            Statement::Assignment {
                target: AssignmentTarget::Variable { name: ident("x") },
                value: int_lit(5),
                source_location: loc(),
            },
        ],
    ));
    let mut analyzer = SemanticAnalyzer::new();
    assert_eq!(kind_of(analyzer.analyze_module(&immutable)), Some(ErrorKind::AssignToImmutable));

    let mut uninitialized = empty_module("assign");
    uninitialized.function_definitions.push(function(
        "main",
        vec![],
        PrimitiveType::Void,
        vec![
            declare("x", PrimitiveType::Integer, Mutability::Mutable, None),
            Statement::Return { value: Some(var("x")), source_location: loc() },
        ],
    ));
    let mut analyzer = SemanticAnalyzer::new();
    assert_eq!(kind_of(analyzer.analyze_module(&uninitialized)), Some(ErrorKind::UseBeforeInitialization));
}

#[test]
fn test_control_flow_checks() {
    let mut module = empty_module("flow");
    module.function_definitions.push(function(
        "main",
        vec![param("n", PrimitiveType::Integer)],
        PrimitiveType::Void,
        vec![
            Statement::If {
                condition: Box::new(Expression::BooleanLiteral { value: true, source_location: loc() }),
                then_block: Block { statements: vec![declare("y", PrimitiveType::Integer, Mutability::Immutable, Some(var("n")))], source_location: loc() },
                else_ifs: Vec::new(),
                else_block: None,
                source_location: loc(),
            },
            Statement::FixedIterationLoop {
                counter: ident("i"),
                from_value: int_lit(0),
                to_value: var("n"),
                step_value: None,
                inclusive: false,
                body: Block { statements: vec![Statement::Expression { expr: var("i"), source_location: loc() }], source_location: loc() },
                label: None,
                source_location: loc(),
            },
        ],
    ));
    let mut analyzer = SemanticAnalyzer::new();
    assert!(analyzer.analyze_module(&module).is_ok());

    let mut bad = empty_module("flow");
    bad.function_definitions.push(function(
        "main",
        vec![],
        PrimitiveType::Void,
        vec![Statement::WhileLoop {
            condition: int_lit(1),
            body: Block { statements: vec![], source_location: loc() },
            invariant: None,
            label: None,
            source_location: loc(),
        }],
    ));
    let mut analyzer = SemanticAnalyzer::new();
    assert_eq!(kind_of(analyzer.analyze_module(&bad)), Some(ErrorKind::TypeMismatch));

    let mut labeled = empty_module("flow");
    labeled.function_definitions.push(function(
        "main",
        vec![],
        PrimitiveType::Void,
        vec![Statement::Break { target_label: Some(ident("outer")), source_location: loc() }],
    ));
    let mut analyzer = SemanticAnalyzer::new();
    match analyzer.analyze_module(&labeled) {
        Err(SemanticError::UnsupportedFeature { feature, .. }) => assert_eq!(feature, "labeled break"),
        other => panic!("unexpected {:?}", other),
    }
}

#[test]
fn test_struct_checks() {
    let mut module = empty_module("shapes");
    module.type_definitions.push(TypeDefinition::Structured {
        name: ident("Point"),
        fields: vec![
            StructField { name: ident("x"), field_type: prim(PrimitiveType::Integer), source_location: loc() },
            StructField { name: ident("y"), field_type: prim(PrimitiveType::Integer), source_location: loc() },
        ],
        source_location: loc(),
    });
    let mut analyzer = SemanticAnalyzer::new();
    assert!(analyzer.analyze_module(&module).is_ok());
    assert_eq!(analyzer.get_statistics().types_defined, 1);

    let missing = Expression::StructConstruct {
        struct_name: ident("Point"),
        field_values: vec![FieldValue { field_name: ident("x"), value: int_lit(1), source_location: loc() }],
        source_location: loc(),
    };
    match analyzer.analyze_expression(&missing) {
        Err(SemanticError::MissingField { field_name, .. }) => assert_eq!(field_name, "y"),
        other => panic!("unexpected {:?}", other),
    }
    let full = Expression::StructConstruct {
        struct_name: ident("Point"),
        field_values: vec![
            FieldValue { field_name: ident("x"), value: int_lit(1), source_location: loc() },
            FieldValue { field_name: ident("y"), value: int_lit(2), source_location: loc() },
        ],
        source_location: loc(),
    };
    let t = analyzer.analyze_expression(&full).unwrap();
    assert_eq!(t.display_name(), "Point");
    let access = Expression::FieldAccess { instance: Box::new(full), field_name: ident("y"), source_location: loc() };
    assert!(is_prim(&analyzer.analyze_expression(&access).unwrap(), PrimitiveType::Integer));

    let mut twice = empty_module("twice");
    for _ in 0..2 {
        twice.type_definitions.push(TypeDefinition::Alias {
            new_name: ident("Count"),
            original_type: prim(PrimitiveType::Integer),
            source_location: loc(),
        });
    }
    let mut analyzer = SemanticAnalyzer::new();
    assert_eq!(kind_of(analyzer.analyze_module(&twice)), Some(ErrorKind::DuplicateDefinition));
}

#[test]
fn test_exports_and_imports() {
    let mut lib = create_test_module();
    lib.name = ident("lib");
    lib.exports.push(ExportStatement::Constant { name: ident("PI"), source_location: loc() });
    let mut user = empty_module("user");
    user.imports.push(ImportStatement { module_name: ident("lib"), alias: None, source_location: loc() });
    user.constant_declarations.push(ConstantDeclaration {
        name: ident("TAU"),
        type_spec: prim(PrimitiveType::Float),
        value: var("lib.PI"),
        intent: None,
        source_location: loc(),
    });
    let mut analyzer = SemanticAnalyzer::new();
    let program = Program { modules: vec![lib, user], source_location: loc() };
    assert!(analyzer.analyze_program(&program).is_ok());
    assert_eq!(analyzer.get_statistics().modules_analyzed, 2);

    let mut orphan = empty_module("orphan");
    orphan.imports.push(ImportStatement { module_name: ident("nowhere"), alias: None, source_location: loc() });
    let mut bad_export = empty_module("bad");
    bad_export.exports.push(ExportStatement::Function { name: ident("ghost"), source_location: loc() });
    let mut analyzer = SemanticAnalyzer::new();
    let program = Program { modules: vec![orphan, bad_export], source_location: loc() };
    let errors = analyzer.analyze_program(&program).unwrap_err();
    assert_eq!(errors.len(), 2);
    assert_eq!(errors[0].kind(), ErrorKind::ImportError);
    assert_eq!(errors[1].kind(), ErrorKind::UndefinedSymbol);
    assert!(analyzer.has_errors());
    assert_eq!(analyzer.get_errors().len(), 2);
}

fn block(statements: Vec<Statement>) -> Block {
    Block { statements, source_location: loc() }
}

fn throw(e: Box<Expression>) -> Statement {
    Statement::Throw { exception: e, source_location: loc() }
}

fn catch(p: PrimitiveType, binding: Option<&str>, statements: Vec<Statement>) -> CatchClause {
    CatchClause {
        exception_type: prim(p),
        binding_variable: binding.map(ident),
        handler_block: block(statements),
        source_location: loc(),
    }
}

fn try_module(statements: Vec<Statement>) -> Module {
    let mut module = empty_module("errors");
    module.function_definitions.push(function("main", vec![], PrimitiveType::Void, statements));
    module
}

#[test]
fn test_try_and_throw_checks() {
    let ok = try_module(vec![Statement::TryBlock {
        protected_block: block(vec![throw(string("boom"))]),
        catch_clauses: vec![catch(
            PrimitiveType::String,
            Some("e"),
            vec![Statement::Expression { expr: var("e"), source_location: loc() }],
        )],
        finally_block: Some(block(vec![])),
        source_location: loc(),
    }]);
    let mut analyzer = SemanticAnalyzer::new();
    assert!(analyzer.analyze_module(&ok).is_ok());

    let integer = try_module(vec![throw(int_lit(3))]);
    let mut analyzer = SemanticAnalyzer::new();
    assert_eq!(kind_of(analyzer.analyze_module(&integer)), Some(ErrorKind::InvalidType));

    let in_finally = try_module(vec![Statement::TryBlock {
        protected_block: block(vec![]),
        catch_clauses: vec![],
        finally_block: Some(block(vec![throw(string("late"))])),
        source_location: loc(),
    }]);
    let mut analyzer = SemanticAnalyzer::new();
    assert_eq!(kind_of(analyzer.analyze_module(&in_finally)), Some(ErrorKind::InvalidOperation));

    let twice = try_module(vec![Statement::TryBlock {
        protected_block: block(vec![]),
        catch_clauses: vec![catch(PrimitiveType::String, None, vec![]), catch(PrimitiveType::String, None, vec![])],
        finally_block: None,
        source_location: loc(),
    }]);
    let mut analyzer = SemanticAnalyzer::new();
    assert_eq!(kind_of(analyzer.analyze_module(&twice)), Some(ErrorKind::DuplicateCatchClause));

    let scoped = try_module(vec![
        Statement::TryBlock {
            protected_block: block(vec![]),
            catch_clauses: vec![catch(PrimitiveType::String, Some("e"), vec![])],
            finally_block: None,
            source_location: loc(),
        },
        Statement::Expression { expr: var("e"), source_location: loc() },
    ]);
    let mut analyzer = SemanticAnalyzer::new();
    assert_eq!(kind_of(analyzer.analyze_module(&scoped)), Some(ErrorKind::UndefinedSymbol));
}

fn shapes_analyzer() -> SemanticAnalyzer {
    let mut module = empty_module("shapes");
    module.type_definitions.push(TypeDefinition::Enumeration {
        name: ident("Shape"),
        variants: vec![
            EnumVariant { name: ident("Circle"), associated_type: Some(prim(PrimitiveType::Float)), source_location: loc() },
            EnumVariant { name: ident("Empty"), associated_type: None, source_location: loc() },
        ],
        source_location: loc(),
    });
    let mut analyzer = SemanticAnalyzer::new();
    assert!(analyzer.analyze_module(&module).is_ok());
    analyzer
}

fn circle() -> Box<Expression> {
    Box::new(Expression::EnumVariant {
        enum_name: ident("Shape"),
        variant_name: ident("Circle"),
        value: Some(float(2.0)),
        source_location: loc(),
    })
}

fn variant_case(name: &str, binding: Option<&str>, nested: Option<Pattern>, body: Box<Expression>) -> MatchCase {
    MatchCase {
        pattern: Pattern::EnumVariant {
            enum_name: None,
            variant_name: ident(name),
            binding: binding.map(ident),
            nested_pattern: nested.map(Box::new),
            source_location: loc(),
        },
        body,
        source_location: loc(),
    }
}

fn wildcard_case(binding: Option<&str>, body: Box<Expression>) -> MatchCase {
    MatchCase { pattern: Pattern::Wildcard { binding: binding.map(ident), source_location: loc() }, body, source_location: loc() }
}

fn match_on(value: Box<Expression>, cases: Vec<MatchCase>) -> Expression {
    Expression::Match { value, cases, source_location: loc() }
}

#[test]
fn test_match_expressions() {
    let analyzer = shapes_analyzer();

    let full = match_on(
        circle(),
        vec![
            variant_case("Circle", Some("radius"), None, var("radius")),
            variant_case("Empty", None, None, float(0.0)),
        ],
    );
    assert!(is_prim(&analyzer.analyze_expression(&full).unwrap(), PrimitiveType::Float));

    let with_wildcard = match_on(
        circle(),
        vec![variant_case("Empty", None, None, int_lit(0)), wildcard_case(Some("s"), int_lit(1))],
    );
    assert!(is_prim(&analyzer.analyze_expression(&with_wildcard).unwrap(), PrimitiveType::Integer));

    let missing = match_on(circle(), vec![variant_case("Circle", Some("radius"), None, var("radius"))]);
    match analyzer.analyze_expression(&missing) {
        Err(SemanticError::InvalidOperation { reason, .. }) => {
            assert_eq!(reason, "non-exhaustive patterns: missing variants Empty")
        },
        other => panic!("unexpected {:?}", other),
    }

    let differing = match_on(
        circle(),
        vec![variant_case("Circle", None, None, float(1.0)), variant_case("Empty", None, None, string("none"))],
    );
    assert_eq!(analyzer.analyze_expression(&differing).unwrap_err().kind(), ErrorKind::TypeMismatch);

    let not_enum = match_on(int_lit(3), vec![wildcard_case(None, int_lit(1))]);
    assert_eq!(analyzer.analyze_expression(&not_enum).unwrap_err().kind(), ErrorKind::TypeMismatch);

    let unknown = match_on(circle(), vec![variant_case("Square", None, None, int_lit(1))]);
    match analyzer.analyze_expression(&unknown) {
        Err(SemanticError::UndefinedSymbol { symbol, .. }) => assert_eq!(symbol, "variant 'Square'"),
        other => panic!("unexpected {:?}", other),
    }

    let nested_without_data = match_on(
        circle(),
        vec![
            variant_case("Empty", None, Some(Pattern::Wildcard { binding: None, source_location: loc() }), int_lit(0)),
            wildcard_case(None, int_lit(1)),
        ],
    );
    assert_eq!(analyzer.analyze_expression(&nested_without_data).unwrap_err().kind(), ErrorKind::InvalidOperation);

    let binding_leaves_scope = match_on(
        circle(),
        vec![variant_case("Circle", Some("radius"), None, var("radius")), wildcard_case(None, var("radius"))],
    );
    assert_eq!(analyzer.analyze_expression(&binding_leaves_scope).unwrap_err().kind(), ErrorKind::UndefinedSymbol);
}

fn resource(kind: &str, binding: &str) -> ResourceAcquisition {
    ResourceAcquisition {
        resource_type: kind.to_string(),
        binding: ident(binding),
        acquisition: Expression::NullLiteral { source_location: loc() },
        cleanup: CleanupSpecification::Function { name: "close".to_string(), pass_resource: true },
        type_spec: None,
        parameters: vec![],
    }
}

fn resource_scope(resources: Vec<ResourceAcquisition>, statements: Vec<Statement>) -> Statement {
    Statement::ResourceScope {
        scope: ResourceScope { scope_id: "io".to_string(), resources, body: block(statements), source_location: loc() },
        source_location: loc(),
    }
}

#[test]
fn test_resource_scope_statements() {
    let module = try_module(vec![resource_scope(
        vec![resource("file_handle", "input"), resource("memory_buffer", "buffer")],
        vec![
            Statement::Expression { expr: var("input"), source_location: loc() },
            Statement::Expression { expr: var("buffer"), source_location: loc() },
        ],
    )]);
    let mut analyzer = SemanticAnalyzer::new();
    assert!(analyzer.analyze_module(&module).is_ok());

    let outside = try_module(vec![
        resource_scope(vec![resource("file_handle", "input")], vec![]),
        Statement::Expression { expr: var("input"), source_location: loc() },
    ]);
    let mut analyzer = SemanticAnalyzer::new();
    assert_eq!(kind_of(analyzer.analyze_module(&outside)), Some(ErrorKind::UndefinedSymbol));

    let twice = try_module(vec![resource_scope(vec![resource("mutex", "lock"), resource("mutex", "lock")], vec![])]);
    let mut analyzer = SemanticAnalyzer::new();
    match analyzer.analyze_module(&twice) {
        Err(SemanticError::InvalidOperation { operation, .. }) => assert_eq!(operation, "double release"),
        other => panic!("unexpected {:?}", other),
    }
}

#[test]
fn test_comparison_mismatch_details() {
    let analyzer = SemanticAnalyzer::new();
    let at = SourceLocation { file: "main.aether".to_string(), line: 3, column: 7, offset: 40 };
    let eq = Expression::Equals { left: int_lit(1), right: string("one"), source_location: at.clone() };
    match analyzer.analyze_expression(&eq) {
        Err(SemanticError::TypeMismatch { expected, found, location }) => {
            assert_eq!(expected, "Integer");
            assert_eq!(found, "String");
            assert_eq!(location.line, 3);
            assert_eq!(location.column, 7);
            assert_eq!(location.file, "main.aether");
        }
        _ => panic!("expected a type mismatch"),
    }
    let ne = Expression::NotEquals { left: int_lit(1), right: int_lit(2), source_location: at };
    assert!(is_prim(&analyzer.analyze_expression(&ne).unwrap(), PrimitiveType::Boolean));
}

#[test]
fn test_expression_error_details() {
    let analyzer = SemanticAnalyzer::new();
    let at = SourceLocation { file: "calc.aether".to_string(), line: 9, column: 2, offset: 120 };

    match analyzer.analyze_expression(&Expression::Variable { name: ident("ghost"), source_location: at.clone() }) {
        Err(SemanticError::UndefinedSymbol { symbol, location }) => {
            assert_eq!(symbol, "ghost");
            assert_eq!(location.line, 9);
            assert_eq!(location.file, "calc.aether");
        }
        _ => panic!("expected an undefined symbol"),
    }

    let add = Expression::Add { left: int_lit(1), right: string("two"), source_location: at.clone() };
    match analyzer.analyze_expression(&add) {
        Err(SemanticError::TypeMismatch { expected, found, location }) => {
            assert_eq!(expected, "numeric type");
            assert_eq!(found, "Integer and String");
            assert_eq!(location.column, 2);
        }
        _ => panic!("expected a type mismatch"),
    }

    let cast = Expression::TypeCast {
        value: string("x"),
        target_type: prim(PrimitiveType::Boolean),
        failure_behavior: aetherscript::ast::FailureBehavior::ThrowException,
        source_location: at,
    };
    match analyzer.analyze_expression(&cast) {
        Err(SemanticError::InvalidOperation { operation, reason, location }) => {
            assert_eq!(operation, "cast from String to Boolean");
            assert_eq!(reason, "invalid type conversion");
            assert_eq!(location.offset, 120);
        }
        _ => panic!("expected an invalid cast"),
    }
}

#[test]
fn test_more_expression_error_details() {
    let analyzer = SemanticAnalyzer::new();
    let at = SourceLocation { file: "more.aether".to_string(), line: 4, column: 5, offset: 60 };

    let deref = Expression::Dereference { pointer: int_lit(3), source_location: at.clone() };
    match analyzer.analyze_expression(&deref) {
        Err(SemanticError::TypeMismatch { expected, found, location }) => {
            assert_eq!(expected, "pointer type");
            assert_eq!(found, "Integer");
            assert_eq!(location.line, 4);
        }
        _ => panic!("expected a type mismatch"),
    }

    let len = Expression::StringLength { string: int_lit(3), source_location: at.clone() };
    match analyzer.analyze_expression(&len) {
        Err(SemanticError::TypeMismatch { expected, found, location }) => {
            assert_eq!(expected, "String");
            assert_eq!(found, "Integer");
            assert_eq!(location.column, 5);
        }
        _ => panic!("expected a type mismatch"),
    }

    let construct = Expression::StructConstruct { struct_name: ident("Point"), field_values: vec![], source_location: at };
    match analyzer.analyze_expression(&construct) {
        Err(SemanticError::UndefinedSymbol { symbol, location }) => {
            assert_eq!(symbol, "Point");
            assert_eq!(location.offset, 60);
        }
        _ => panic!("expected an undefined struct"),
    }
}
