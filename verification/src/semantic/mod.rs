//! Semantic analysis of AetherScript programs: type checking, symbol
//! resolution and the checks on declarations, statements and exports.

pub mod metadata;
pub mod types;
pub mod symbols;
pub mod typing;
pub mod statements;
pub mod modules;

use vstd::prelude::*;
use crate::ast::{export_name, unlocated, 
    AssignmentTarget, Block, CatchClause, ConstantDeclaration, EnumVariant, Expression, ExternalFunction, FieldValue, Function,
    ExportStatement, FunctionCall, FunctionReference, ImportStatement, MatchCase, Module, Mutability, Parameter, Pattern,
    PrimitiveType, Program, ResourceScope, SourceLocation, Statement, StructField, TypeDefinition, TypeSpecifier,
};
use crate::error::{fault_of, SemanticError};
use crate::resource::analysis::ResourceAnalyzer;
use crate::semantic::symbols::{
    enum_with_variant, fields_view, find_type, info_view, lookup, opt_type_view, variant_in, variants_view, Fault, Symbol, SymbolKind, SymbolTable, SymbolView, TypeInfo,
    TypeInfoView, VariantInfo,
};
use crate::semantic::modules::{
    add_imported, after_walk, bind_params, bodies_run, body_run, const_run, consts_run, convert_fields,
    convert_variants, definition_of, export_entry, exports_check, exports_view, external_run, externals_run,
    find_analyzed, import_run, imported_symbol, imports_run, module_run, param_types, program_run, set_scopes,
    bumps, law_module_counts, law_module_success, signature_run, signatures_run, typedef_run, typedefs_run, walk_of, AnalyzerView, ExportKind, ModuleExports,
};
use crate::semantic::statements::{
    bind_resources, lemma_bind_resources_prefix_err, resource_scope_run, resource_type_of, with_scopes, block_run, catches_run, check_condition, check_numeric, else_ifs_run, entered, scoped_body, stmt_run, stmts_run,
    condition_ok, throwable, with_exceptions, Walk,
};
use crate::semantic::types::{compatible, is_numeric, primitive_text, type_text, 
    copy_name_opt, lemma_type_views, name_view, numeric_primitive, primitive_name, type_view, type_views,
    types_compatible, without, Type, TypeView,
};
use crate::semantic::typing::{
    call_type, cast_allowed, check_call_args, check_entries, check_exprs, check_field_values, check_named_args, convert_type,
    cases_type, convert_types, covers, exhaustive, exhaustiveness_reason, missing_variants, expr_type, field_type, first_missing_field, has_field_value, has_wildcard,
    is_enum, lemma_pattern_scopes, mismatch, names_variant, pattern_scopes, prepend, qualified_struct_name, Env,
};
use crate::text::{concat, str_eq};

verus! {

/// Statistics about the semantic analysis.
#[derive(Debug, Clone, Copy, PartialEq, Eq, Structural)]
pub struct AnalysisStats {
    pub modules_analyzed: usize,
    pub functions_analyzed: usize,
    pub variables_declared: usize,
    pub types_defined: usize,
    pub external_functions_analyzed: usize,
    pub errors_found: usize,
}

/// Statistics with every count zero.
pub open spec fn zero_stats() -> AnalysisStats {
    AnalysisStats {
        modules_analyzed: 0,
        functions_analyzed: 0,
        variables_declared: 0,
        types_defined: 0,
        external_functions_analyzed: 0,
        errors_found: 0,
    }
}

impl AnalysisStats {
    /// All counts zero.
    pub fn zero() -> (r: AnalysisStats)
        ensures
            r == zero_stats(),
    {
        AnalysisStats {
            modules_analyzed: 0,
            functions_analyzed: 0,
            variables_declared: 0,
            types_defined: 0,
            external_functions_analyzed: 0,
            errors_found: 0,
        }
    }
}

impl Default for AnalysisStats {
    fn default() -> (r: AnalysisStats)
        ensures
            r == zero_stats(),
    {
        AnalysisStats::zero()
    }
}

/// One more than `n`, wrapping to zero past the largest `usize`.
pub open spec fn bump(n: usize) -> usize {
    if n == usize::MAX { 0 } else { (n + 1) as usize }
}

/// One more than `n`, wrapping to zero past the largest `usize`.
pub fn bump_count(n: usize) -> (r: usize)
    ensures
        r == bump(n),
{
    if n == usize::MAX { 0 } else { n + 1 }
}

/// Whether an exec result agrees with a typing rule's result: equal types,
/// or an error of the kind, and about the name, the rule gives.
pub open spec fn agrees(r: Result<Type, SemanticError>, s: Result<TypeView, Fault>) -> bool {
    match (r, s) {
        (Ok(t), Ok(v)) => t@ == v,
        (Err(e), Err(f)) => fault_of(e) == f,
        _ => false,
    }
}

/// The error of a comparison whose operands have different types: a type
/// mismatch that gives the left operand's type as expected and the right
/// one's as found, at the comparison's location.
pub open spec fn comparison_mismatch(
    env: Env,
    left: Expression,
    right: Expression,
    location: SourceLocation,
    r: Result<Type, SemanticError>,
) -> bool {
    match (expr_type(env, left), expr_type(env, right)) {
        (Ok(tl), Ok(tr)) => tl != tr ==> (r matches Err(SemanticError::TypeMismatch { expected, found, location: l })
            && expected@ == type_text(tl) && found@ == type_text(tr) && l == location),
        _ => true,
    }
}

/// What a variable reference reports, at the reference's location: an
/// undeclared name as undefined, a variable without a value as used before
/// initialization, a moved one as used after a move.
pub open spec fn variable_detail(env: Env, e: Expression, r: Result<Type, SemanticError>) -> bool {
    match e {
        Expression::Variable { name, source_location } => match lookup(env.scopes, name.name@) {
            None => r matches Err(SemanticError::UndefinedSymbol { symbol, location }) && symbol@ == name.name@
                && location == source_location,
            Some(sym) => if !sym.is_initialized {
                r matches Err(SemanticError::UseBeforeInitialization { variable, location }) && variable@ == name.name@
                    && location == source_location
            } else if sym.is_moved {
                r matches Err(SemanticError::UseAfterMove { variable, location }) && variable@ == name.name@
                    && location == source_location
            } else {
                true
            },
        },
        _ => true,
    }
}

/// The error of arithmetic on operands that are not both numeric: a type
/// mismatch expecting `numeric type` and finding `<left> and <right>`, at
/// the operation's location.
pub open spec fn arithmetic_mismatch(
    env: Env,
    left: Expression,
    right: Expression,
    location: SourceLocation,
    r: Result<Type, SemanticError>,
) -> bool {
    match (expr_type(env, left), expr_type(env, right)) {
        (Ok(tl), Ok(tr)) => !(is_numeric(tl) && is_numeric(tr)) ==> (r matches Err(
            SemanticError::TypeMismatch { expected, found, location: l },
        ) && expected@ == "numeric type"@ && found@ == type_text(tl) + " and "@ + type_text(tr) && l == location),
        _ => true,
    }
}

/// The error of a cast between types that do not convert: an invalid
/// operation `cast from <type> to <type>`, for the reason `invalid type
/// conversion`, at the cast's location.
pub open spec fn cast_mismatch(
    env: Env,
    value: Expression,
    target: TypeSpecifier,
    location: SourceLocation,
    r: Result<Type, SemanticError>,
) -> bool {
    match (expr_type(env, value), convert_type(env, target)) {
        (Ok(vt), Ok(tt)) => !(vt matches TypeView::Primitive(from) && tt matches TypeView::Primitive(to) && cast_allowed(
            from,
            to,
        )) ==> (r matches Err(SemanticError::InvalidOperation { operation, reason, location: l })
            && operation@ == "cast from "@ + type_text(vt) + " to "@ + type_text(tt) && reason@
            == "invalid type conversion"@ && l == location),
        _ => true,
    }
}

/// A type mismatch expecting `want` and finding `found`, at `location`.
pub open spec fn wrong_type(r: Result<Type, SemanticError>, want: Seq<char>, found: TypeView, location: SourceLocation) -> bool {
    r matches Err(SemanticError::TypeMismatch { expected, found: f, location: l }) && expected@ == want
        && f@ == type_text(found) && l == location
}

/// Two operands checked after both are typed: the first that is not of the
/// wanted type is reported, at `location`.
pub open spec fn pair_detail(
    env: Env,
    a: Expression,
    b: Expression,
    want_a: PrimitiveType,
    want_b: PrimitiveType,
    location: SourceLocation,
    r: Result<Type, SemanticError>,
) -> bool {
    match (expr_type(env, a), expr_type(env, b)) {
        (Ok(ta), Ok(tb)) => if ta != TypeView::Primitive(want_a) {
            wrong_type(r, primitive_text(want_a), ta, location)
        } else if tb != TypeView::Primitive(want_b) {
            wrong_type(r, primitive_text(want_b), tb, location)
        } else {
            true
        },
        _ => true,
    }
}

/// What a string operation reports of its own: the first operand, in
/// order, whose type is not the one the operation takes, as a type
/// mismatch at the operation's location.
pub open spec fn string_detail(env: Env, e: Expression, r: Result<Type, SemanticError>) -> bool {
    let string = TypeView::Primitive(PrimitiveType::String);
    let integer = TypeView::Primitive(PrimitiveType::Integer);
    match e {
        Expression::StringLength { string: s, source_location } => match expr_type(env, *s) {
            Ok(t) => t != string ==> wrong_type(r, "String"@, t, source_location),
            _ => true,
        },
        Expression::StringCharAt { string: s, index, source_location } =>
            pair_detail(env, *s, *index, PrimitiveType::String, PrimitiveType::Integer, source_location, r),
        Expression::Substring { string: s, start_index, length, source_location } => match expr_type(env, *s) {
            Ok(st) => if st != string {
                wrong_type(r, "String"@, st, source_location)
            } else {
                match expr_type(env, *start_index) {
                    Ok(it) => if it != integer {
                        wrong_type(r, "Integer"@, it, source_location)
                    } else {
                        match expr_type(env, *length) {
                            Ok(lt) => lt != integer ==> wrong_type(r, "Integer"@, lt, source_location),
                            _ => true,
                        }
                    },
                    _ => true,
                }
            },
            _ => true,
        },
        Expression::StringEquals { left, right, source_location } =>
            pair_detail(env, *left, *right, PrimitiveType::String, PrimitiveType::String, source_location, r),
        Expression::StringContains { haystack, needle, source_location } =>
            pair_detail(env, *haystack, *needle, PrimitiveType::String, PrimitiveType::String, source_location, r),
        _ => true,
    }
}

/// What an access to an array or a map reports of its own, at the access's
/// location: a value that is not an array (or map) as a type mismatch
/// expecting `Array` (or `Map`); an index that is not an integer, or a key
/// that does not fit the map's key type, as a type mismatch.
pub open spec fn access_detail(env: Env, e: Expression, r: Result<Type, SemanticError>) -> bool {
    match e {
        Expression::ArrayAccess { array, index, source_location } => match expr_type(env, *array) {
            Ok(TypeView::Array(_, _)) => match expr_type(env, *index) {
                Ok(it) => it != TypeView::Primitive(PrimitiveType::Integer) ==> wrong_type(r, "Integer"@, it, source_location),
                _ => true,
            },
            Ok(at) => wrong_type(r, "Array"@, at, source_location),
            _ => true,
        },
        Expression::ArrayLength { array, source_location } => match expr_type(env, *array) {
            Ok(TypeView::Array(_, _)) => true,
            Ok(at) => wrong_type(r, "Array"@, at, source_location),
            _ => true,
        },
        Expression::MapAccess { map, key, source_location } => match expr_type(env, *map) {
            Ok(TypeView::Mapping(k, _)) => match expr_type(env, *key) {
                Ok(kt) => !compatible(*k, kt) ==> wrong_type(r, type_text(*k), kt, source_location),
                _ => true,
            },
            Ok(mt) => wrong_type(r, "Map"@, mt, source_location),
            _ => true,
        },
        _ => true,
    }
}

/// What a struct construction, a field access or an enum variant reports of
/// its own, at the expression's location: an unknown struct, enumeration
/// variant or instance type as undefined; a type that is not a struct as a
/// type mismatch expecting `struct type`; the first field left out of a
/// construction as missing; a field the struct lacks as unknown; a variant
/// value that does not fit, is missing, or is not expected.
pub open spec fn user_type_detail(env: Env, e: Expression, r: Result<Type, SemanticError>) -> bool {
    match e {
        Expression::StructConstruct { struct_name, field_values, source_location } => match find_type(
            env.types,
            struct_name.name@,
        ) {
            None => r matches Err(SemanticError::UndefinedSymbol { symbol, location }) && symbol@ == struct_name.name@
                && location == source_location,
            Some(TypeInfoView::Struct(fields)) => match first_missing_field(fields, field_values@) {
                Some(missing) => r matches Err(SemanticError::MissingField { struct_name: sn, field_name, location })
                    && sn@ == struct_name.name@ && field_name@ == missing && location == source_location,
                None => true,
            },
            Some(_) => r matches Err(SemanticError::TypeMismatch { expected, found, location })
                && expected@ == "struct type"@ && found@ == "non-struct type"@ && location == source_location,
        },
        Expression::FieldAccess { instance, field_name, source_location } => match expr_type(env, *instance) {
            Ok(TypeView::Named(n, m)) => match find_type(env.types, n) {
                None => r matches Err(SemanticError::UndefinedSymbol { symbol, location })
                    && symbol@ == qualified_struct_name(n, m) && location == source_location,
                Some(TypeInfoView::Struct(fields)) => field_type(fields, field_name.name@) is None ==> (r matches Err(
                    SemanticError::UnknownField { struct_name, field_name: f, location },
                ) && struct_name@ == n && f@ == field_name.name@ && location == source_location),
                Some(_) => wrong_type(r, "struct type"@, TypeView::Named(n, m), source_location),
            },
            Ok(it) => wrong_type(r, "struct type"@, it, source_location),
            _ => true,
        },
        Expression::EnumVariant { variant_name, value, source_location, .. } => match enum_with_variant(
            env.types,
            variant_name.name@,
        ) {
            None => r matches Err(SemanticError::UndefinedSymbol { symbol, location })
                && symbol@ == "enum variant '"@ + variant_name.name@ + "'"@ && location == source_location,
            Some((enum_name, carried)) => match carried {
                Some(at) => match value {
                    Some(v) => match expr_type(env, *v) {
                        Ok(t) => !compatible(at, t) ==> wrong_type(r, type_text(at), t, source_location),
                        _ => true,
                    },
                    None => r matches Err(SemanticError::MissingEnumVariantValue { variant, enum_name: en, location })
                        && variant@ == variant_name.name@ && en@ == enum_name && location == source_location,
                },
                None => value is Some ==> (r matches Err(
                    SemanticError::UnexpectedEnumVariantValue { variant, enum_name: en, location },
                ) && variant@ == variant_name.name@ && en@ == enum_name && location == source_location),
            },
        },
        _ => true,
    }
}

/// What a pointer operation reports of its own, at its location: a value
/// that is not a pointer as a type mismatch expecting `pointer type`; an
/// offset that is not an integer as one expecting `Integer`.
pub open spec fn pointer_detail(env: Env, e: Expression, r: Result<Type, SemanticError>) -> bool {
    match e {
        Expression::Dereference { pointer, source_location } => match expr_type(env, *pointer) {
            Ok(TypeView::Pointer(_, _)) => true,
            Ok(pt) => wrong_type(r, "pointer type"@, pt, source_location),
            _ => true,
        },
        Expression::PointerArithmetic { pointer, offset, source_location, .. } => match (
            expr_type(env, *pointer),
            expr_type(env, *offset),
        ) {
            (Ok(TypeView::Pointer(_, _)), Ok(ot)) => ot != TypeView::Primitive(PrimitiveType::Integer) ==> wrong_type(
                r,
                "Integer"@,
                ot,
                source_location,
            ),
            (Ok(pt), Ok(_)) => wrong_type(r, "pointer type"@, pt, source_location),
            _ => true,
        },
        _ => true,
    }
}

/// What an operation reports of its own, beyond the errors of its operands:
/// see `variable_detail`, `arithmetic_mismatch`, `cast_mismatch`,
/// `comparison_detail`, `string_detail`, `access_detail`,
/// `user_type_detail` and `pointer_detail`.
pub open spec fn operation_detail(env: Env, e: Expression, r: Result<Type, SemanticError>) -> bool {
    &&& variable_detail(env, e, r)
    &&& comparison_detail(env, e, r)
    &&& string_detail(env, e, r)
    &&& access_detail(env, e, r)
    &&& user_type_detail(env, e, r)
    &&& pointer_detail(env, e, r)
    &&& match e {
        Expression::Add { left, right, source_location } => arithmetic_mismatch(env, *left, *right, source_location, r),
        Expression::Subtract { left, right, source_location } => arithmetic_mismatch(env, *left, *right, source_location, r),
        Expression::Multiply { left, right, source_location } => arithmetic_mismatch(env, *left, *right, source_location, r),
        Expression::Divide { left, right, source_location } => arithmetic_mismatch(env, *left, *right, source_location, r),
        Expression::TypeCast { value, target_type, source_location, .. } =>
            cast_mismatch(env, *value, *target_type, source_location, r),
        _ => true,
    }
}

/// What an equality or inequality test reports when its operands' types
/// differ (see `comparison_mismatch`); nothing for other expressions.
pub open spec fn comparison_detail(env: Env, e: Expression, r: Result<Type, SemanticError>) -> bool {
    match e {
        Expression::Equals { left, right, source_location } =>
            comparison_mismatch(env, *left, *right, source_location, r),
        Expression::NotEquals { left, right, source_location } =>
            comparison_mismatch(env, *left, *right, source_location, r),
        _ => true,
    }
}

/// What a call to a local function (other than `printf`) reports of its
/// own, at the call's location: an undeclared name as undefined; a name
/// that is not a function as a type mismatch expecting `function type`; a
/// different number of arguments (named and variadic together) than the
/// function takes with the function's name, the number of parameters and
/// the number of arguments (at most the largest `usize`).
pub open spec fn call_count_detail(env: Env, call: FunctionCall, location: SourceLocation, r: Result<Type, SemanticError>) -> bool {
    match call.function_reference {
        FunctionReference::Local { name } => name.name@ != "printf"@ ==> match lookup(env.scopes, name.name@) {
            Some(sym) => match sym.ty {
                TypeView::Function(ps, _) => {
                    let total: int = (call.arguments@.len() + call.variadic_arguments@.len()) as int;
                    total != ps.len() ==> (r matches Err(
                        SemanticError::ArgumentCountMismatch { function, expected, found, location: l },
                    ) && function@ == name.name@ && expected == ps.len() && found == (if total > usize::MAX {
                        usize::MAX as int
                    } else {
                        total
                    }) && l == location)
                },
                other => r matches Err(SemanticError::TypeMismatch { expected, found, location: l })
                    && expected@ == "function type"@ && found@ == type_text(other) && l == location,
            },
            None => r matches Err(SemanticError::UndefinedSymbol { symbol, location: l }) && symbol@ == name.name@
                && l == location,
        },
        _ => true,
    }
}

/// What an assignment to a variable reports when its value has a type: an
/// undeclared variable as undefined, an immutable one as assigned to
/// immutable, each with the variable's name and the statement's location.
pub open spec fn assignment_detail(env: Env, st: Statement, r: Result<(), SemanticError>) -> bool {
    match st {
        Statement::Assignment { target: AssignmentTarget::Variable { name }, value, source_location } =>
            expr_type(env, *value) is Ok ==> match lookup(env.scopes, name.name@) {
                None => r matches Err(SemanticError::UndefinedSymbol { symbol, location }) && symbol@ == name.name@
                    && location == source_location,
                Some(sym) => !sym.is_mutable ==> (r matches Err(SemanticError::AssignToImmutable { variable, location })
                    && variable@ == name.name@ && location == source_location),
            },
        _ => true,
    }
}

/// A type mismatch expecting `want` and finding `found`, at the location
/// of synthesized items.
pub open spec fn wrong_unlocated(r: Result<(), SemanticError>, want: Seq<char>, found: TypeView) -> bool {
    r matches Err(SemanticError::TypeMismatch { expected, found: f, location }) && expected@ == want
        && f@ == type_text(found) && unlocated(location)
}

/// What the check of a condition reports of its own: a type that is neither
/// boolean nor undetermined, as a type mismatch expecting `Boolean`.
pub open spec fn condition_detail(env: Env, c: Expression, r: Result<(), SemanticError>) -> bool {
    match expr_type(env, c) {
        Ok(t) => !condition_ok(t) ==> wrong_unlocated(r, "Boolean"@, t),
        _ => true,
    }
}

/// What the check of a loop bound reports of its own: a type that is not
/// numeric, as a type mismatch expecting `numeric type`.
pub open spec fn numeric_detail(env: Env, c: Expression, r: Result<(), SemanticError>) -> bool {
    match expr_type(env, c) {
        Ok(t) => !is_numeric(t) ==> wrong_unlocated(r, "numeric type"@, t),
        _ => true,
    }
}

/// What a loop reports of its own: the condition of a `while`; the
/// collection of a for-each that is neither an array nor a map, and an
/// element type that does not fit (at the binding's location); the first
/// bound of a counting loop that is not numeric.
pub open spec fn loop_detail(env: Env, st: Statement, r: Result<(), SemanticError>) -> bool {
    match st {
        Statement::WhileLoop { condition, .. } => condition_detail(env, *condition, r),
        Statement::ForEachLoop { collection, element_binding, element_type, .. } => match expr_type(env, *collection) {
            Ok(ct) => {
                let actual = match ct {
                    TypeView::Array(el, _) => Some(*el),
                    TypeView::Mapping(_, v) => Some(*v),
                    _ => None,
                };
                match actual {
                    None => wrong_unlocated(r, "Array or Map"@, ct),
                    Some(at) => match convert_type(env, *element_type) {
                        Ok(dt) => !compatible(dt, at) ==> (r matches Err(
                            SemanticError::TypeMismatch { expected, found, location },
                        ) && expected@ == type_text(dt) && found@ == type_text(at)
                            && location == element_binding.source_location),
                        _ => true,
                    },
                }
            },
            _ => true,
        },
        Statement::FixedIterationLoop { from_value, to_value, step_value, .. } =>
            if check_numeric(env, *from_value) is Err {
                numeric_detail(env, *from_value, r)
            } else if check_numeric(env, *to_value) is Err {
                numeric_detail(env, *to_value, r)
            } else {
                match step_value {
                    Some(sv) => numeric_detail(env, *sv, r),
                    None => true,
                }
            },
        Statement::If { condition, .. } => condition_detail(env, *condition, r),
        _ => true,
    }
}

/// What a statement reports of its own: see `assignment_detail` and
/// `loop_detail` (with the condition of an `if`); at the statement's
/// location, a declaration whose initial value does not fit its
/// type as a type mismatch between the two; a `throw` inside a `finally`
/// block, or of a type that cannot be thrown, with the original's texts; a
/// labelled `break` or `continue` as unsupported.
pub open spec fn statement_detail(w: Walk, st: Statement, r: Result<(), SemanticError>) -> bool {
    &&& assignment_detail(w.env, st, r)
    &&& loop_detail(w.env, st, r)
    &&& match st {
        Statement::VariableDeclaration { type_spec, initial_value: Some(v), source_location, .. } =>
            match (convert_type(w.env, *type_spec), expr_type(w.env, *v)) {
                (Ok(dt), Ok(t)) => !compatible(dt, t) ==> (r matches Err(
                    SemanticError::TypeMismatch { expected, found, location },
                ) && expected@ == type_text(dt) && found@ == type_text(t) && location == source_location),
                _ => true,
            },
        Statement::Throw { exception, source_location } => if w.in_finally {
            r matches Err(SemanticError::InvalidOperation { operation, reason, location })
                && operation@ == "throw in finally block"@
                && reason@ == "Finally blocks should not throw exceptions except for cleanup"@
                && location == source_location
        } else {
            match expr_type(w.env, *exception) {
                Ok(t) => !throwable(t) ==> (r matches Err(SemanticError::InvalidType { invalid_type, reason, location })
                    && invalid_type@ == type_text(t)
                    && reason@ == "type is not throwable (must implement Exception trait)"@
                    && location == source_location),
                _ => true,
            }
        },
        Statement::Break { target_label: Some(_), source_location } =>
            r matches Err(SemanticError::UnsupportedFeature { feature, location }) && feature@ == "labeled break"@
                && location == source_location,
        Statement::Continue { target_label: Some(_), source_location } =>
            r matches Err(SemanticError::UnsupportedFeature { feature, location }) && feature@ == "labeled continue"@
                && location == source_location,
        _ => true,
    }
}

/// What an import reports of its own: a module not analysed before, as an
/// import error with the original's reason, at the import's location.
pub open spec fn import_detail(v: AnalyzerView, imp: ImportStatement, r: Result<(), SemanticError>) -> bool {
    find_analyzed(v.analyzed, imp.module_name.name@) is None ==> (r matches Err(
        SemanticError::ImportError { module, reason, location },
    ) && module@ == imp.module_name.name@ && reason@ == "Failed to load module: it has not been analysed"@
        && location == imp.source_location)
}

/// What a constant reports of its own: a value whose type does not fit the
/// declared one, as a type mismatch at the declaration's location.
pub open spec fn constant_detail(v: AnalyzerView, c: ConstantDeclaration, r: Result<(), SemanticError>) -> bool {
    match (convert_type(v.env, *c.type_spec), expr_type(v.env, *c.value)) {
        (Ok(dt), Ok(t)) => !compatible(dt, t) ==> (r matches Err(SemanticError::TypeMismatch { expected, found, location })
            && expected@ == type_text(dt) && found@ == type_text(t) && location == c.source_location),
        _ => true,
    }
}

/// The location an export statement was written at.
pub open spec fn export_location(e: ExportStatement) -> SourceLocation {
    match e {
        ExportStatement::Function { source_location, .. } => source_location,
        ExportStatement::Type { source_location, .. } => source_location,
        ExportStatement::Constant { source_location, .. } => source_location,
    }
}

/// Whether an exec outcome agrees with a check's result.
pub open spec fn agrees_unit(r: Result<(), SemanticError>, s: Result<(), Fault>) -> bool {
    match (r, s) {
        (Ok(_), Ok(_)) => true,
        (Err(e), Err(f)) => fault_of(e) == f,
        _ => false,
    }
}

/// A type mismatch error.
fn mismatch_error(expected: &str, found: String, location: &SourceLocation) -> (r: SemanticError)
    ensures
        fault_of(r) == mismatch(),
        r matches SemanticError::TypeMismatch { expected: e, found: f, location: l }
            && e@ == expected@ && f@ == found@ && l == *location,
{
    SemanticError::TypeMismatch { expected: expected.to_owned(), found, location: location.duplicate() }
}

/// Whether a primitive type is numeric.
fn numeric_prim(p: PrimitiveType) -> (r: bool)
    ensures
        r == numeric_primitive(p),
{
    Type::Primitive(p).is_numeric()
}

/// Whether a cast between two primitive types is allowed.
fn cast_allowed_exec(from: PrimitiveType, to: PrimitiveType) -> (r: bool)
    ensures
        r == cast_allowed(from, to),
{
    (to == PrimitiveType::String && (numeric_prim(from) || from == PrimitiveType::Boolean))
        || (from == PrimitiveType::String && numeric_prim(to))
        || (numeric_prim(from) && numeric_prim(to))
}

/// The type of the field named `name`, the first one so named.
fn find_field<'a>(fields: &'a Vec<(String, Type)>, name: &str) -> (r: Option<&'a Type>)
    ensures
        match r {
            Some(t) => field_type(fields_view(fields@), name@) == Some(t@),
            None => field_type(fields_view(fields@), name@) is None,
        },
{
    let n = fields.len();
    let ghost fv = fields_view(fields@);
    let mut i: usize = 0;
    assert(fv.subrange(0, n as int) =~= fv);
    while i < n
        invariant
            n == fields@.len(),
            fv == fields_view(fields@),
            i <= n,
            field_type(fv, name@) == field_type(fv.subrange(i as int, n as int), name@),
        decreases n - i,
    {
        let ghost rest = fv.subrange(i as int, n as int);
        assert(rest.subrange(1, rest.len() as int) =~= fv.subrange(i + 1, n as int));
        assert(rest[0] == fv[i as int]);
        if str_eq(fields[i].0.as_str(), name) {
            return Some(&fields[i].1);
        }
        i = i + 1;
    }
    None
}

/// Whether one of the field values is for the field named `name`.
fn has_field_value_exec(fvs: &Vec<FieldValue>, name: &str) -> (r: bool)
    ensures
        r == has_field_value(fvs@, name@),
{
    let n = fvs.len();
    let mut i: usize = 0;
    while i < n
        invariant
            n == fvs@.len(),
            i <= n,
            forall|j: int| 0 <= j < i ==> #[trigger] fvs@[j].field_name.name@ != name@,
        decreases n - i,
    {
        if str_eq(fvs[i].field_name.name.as_str(), name) {
            return true;
        }
        i = i + 1;
    }
    false
}

/// Appending a type appends its view.
proof fn lemma_type_views_push(s: Seq<Type>, t: Type)
    ensures
        type_views(s.push(t)) == type_views(s).push(t@),
{
    lemma_type_views(s);
    lemma_type_views(s.push(t));
    assert(type_views(s.push(t)) =~= type_views(s).push(t@));
}

/// Whether one of the types equals `t`.
fn types_contain(v: &Vec<Type>, t: &Type) -> (r: bool)
    ensures
        r == type_views(v@).contains(t@),
{
    proof { lemma_type_views(v@); }
    let mut i: usize = 0;
    while i < v.len()
        invariant
            i <= v@.len(),
            type_views(v@).len() == v@.len(),
            forall|j: int| 0 <= j < v@.len() ==> #[trigger] type_views(v@)[j] == type_view(v@[j]),
            forall|j: int| 0 <= j < i ==> type_views(v@)[j] != t@,
        decreases v@.len() - i,
    {
        if v[i].equals(t) {
            assert(type_views(v@)[i as int] == t@);
            return true;
        }
        i = i + 1;
    }
    false
}

/// The types other than `t`, in order.
fn types_without(v: &Vec<Type>, t: &Type) -> (r: Vec<Type>)
    ensures
        type_views(r@) == without(type_views(v@), t@),
{
    let mut out: Vec<Type> = Vec::new();
    let mut i: usize = 0;
    proof {
        lemma_type_views(v@);
        assert(type_views(out@) =~= Seq::<TypeView>::empty());
        assert(without(type_views(v@).subrange(0, 0), t@) =~= Seq::<TypeView>::empty());
    }
    while i < v.len()
        invariant
            i <= v@.len(),
            type_views(v@).len() == v@.len(),
            forall|j: int| 0 <= j < v@.len() ==> #[trigger] type_views(v@)[j] == type_view(v@[j]),
            type_views(out@) == without(type_views(v@).subrange(0, i as int), t@),
        decreases v@.len() - i,
    {
        let ghost before = out@;
        let ghost pre = type_views(v@).subrange(0, i + 1);
        proof {
            reveal_with_fuel(Seq::<TypeView>::filter, 1);
            assert(pre.drop_last() =~= type_views(v@).subrange(0, i as int));
            assert(pre.last() == v@[i as int]@);
        }
        if !v[i].equals(t) {
            let d = v[i].duplicate();
            out.push(d);
            proof { lemma_type_views_push(before, d); }
        }
        i = i + 1;
    }
    assert(type_views(v@).subrange(0, v@.len() as int) =~= type_views(v@));
    out
}

/// The view of an optional symbol.
pub open spec fn opt_symbol_view(s: Option<Symbol>) -> Option<SymbolView> {
    match s {
        Some(x) => Some(x@),
        None => None,
    }
}

/// Semantic analyzer for AetherScript programs.
pub struct SemanticAnalyzer {
    symbol_table: SymbolTable,
    current_module: Option<String>,
    errors: Vec<SemanticError>,
    stats: AnalysisStats,
    analyzed_modules: Vec<ModuleExports>,
    current_exceptions: Vec<Type>,
    in_finally_block: bool,
}

impl SemanticAnalyzer {
    /// What typing depends on in the analyzer's current state.
    pub closed spec fn env(&self) -> Env {
        Env {
            scopes: self.symbol_table.scopes(),
            types: self.symbol_table.types(),
            module: name_view(self.current_module),
        }
    }

    /// The statistics so far.
    pub closed spec fn stats(&self) -> AnalysisStats {
        self.stats
    }

    /// The errors recorded by the last program analysis.
    pub closed spec fn errors(&self) -> Seq<SemanticError> {
        self.errors@
    }

    /// A fresh analyzer: one global scope, no types, no errors, all counts zero.
    pub fn new() -> (r: SemanticAnalyzer)
        ensures
            r.env().scopes == seq![Seq::<crate::semantic::symbols::SymbolView>::empty()],
            r.env().types == Seq::<crate::semantic::symbols::TypeEntryView>::empty(),
            r.env().module is None,
            r.errors() == Seq::<SemanticError>::empty(),
            r.stats() == zero_stats(),
            r.state().analyzed == Seq::<(Seq<char>, Seq<(ExportKind, Seq<char>)>)>::empty(),
            r.state().exceptions == Seq::<TypeView>::empty(),
            !r.state().in_finally,
    {
        SemanticAnalyzer {
            symbol_table: SymbolTable::new(),
            current_module: None,
            errors: Vec::new(),
            stats: AnalysisStats::zero(),
            analyzed_modules: Vec::new(),
            current_exceptions: Vec::new(),
            in_finally_block: false,
        }
    }

    /// The analyzer's state is made of its typing environment and its
    /// statistics, among other parts.
    pub proof fn lemma_state_parts(&self)
        ensures
            self.state().env == self.env(),
            self.state().stats == self.stats(),
    {
    }

    /// The analysis statistics.
    pub fn get_statistics(&self) -> (r: &AnalysisStats)
        ensures
            *r == self.stats(),
    {
        &self.stats
    }

    /// The errors recorded by the last program analysis.
    pub fn get_errors(&self) -> (r: &[SemanticError])
        ensures
            r@ == self.errors(),
    {
        self.errors.as_slice()
    }

    /// Whether the last program analysis recorded errors.
    pub fn has_errors(&self) -> (r: bool)
        ensures
            r == (self.errors().len() > 0),
    {
        self.errors.len() > 0
    }

    /// Declares a symbol in the innermost scope.
    pub fn add_symbol(&mut self, symbol: Symbol) -> (r: Result<(), SemanticError>)
        ensures
            match crate::semantic::symbols::add_symbol_spec(old(self).env().scopes, symbol@) {
                Ok(s) => r is Ok && final(self).env() == (Env { scopes: s, ..old(self).env() }),
                Err(f) => r matches Err(e) && fault_of(e) == f && final(self).env() == old(self).env(),
            },
            final(self).stats() == old(self).stats(),
            final(self).errors() == old(self).errors(),
    {
        self.symbol_table.add_symbol(symbol)
    }

    /// The symbol table, giving up the analyzer.
    pub fn get_symbol_table(self) -> (r: SymbolTable)
        ensures
            r.scopes() == self.env().scopes,
            r.types() == self.env().types,
    {
        self.symbol_table
    }

    /// The type a written annotation denotes.
    #[verifier::loop_isolation(false)]
    pub fn ast_type_to_type(&self, ts: &TypeSpecifier) -> (r: Result<Type, SemanticError>)
        ensures
            agrees(r, convert_type(self.env(), *ts)),
        decreases ts,
    {
        match ts {
            TypeSpecifier::Primitive { prim, .. } => Ok(Type::Primitive(*prim)),
            TypeSpecifier::Named { name, source_location } => {
                match self.symbol_table.lookup_type_definition(name.name.as_str()) {
                    Some(TypeInfo::Alias { target_type }) => Ok(target_type.duplicate()),
                    Some(_) => Ok(Type::Named {
                        name: name.name.clone(),
                        module: crate::semantic::types::copy_name_opt(&self.current_module),
                    }),
                    None => Err(SemanticError::UndefinedSymbol {
                        symbol: name.name.clone(),
                        location: source_location.duplicate(),
                    }),
                }
            },
            TypeSpecifier::Array { element_type, size, .. } => {
                let t = self.ast_type_to_type(element_type)?;
                Ok(Type::Array { element_type: Box::new(t), size: *size })
            },
            TypeSpecifier::Mapping { key_type, value_type, .. } => {
                let k = self.ast_type_to_type(key_type)?;
                let v = self.ast_type_to_type(value_type)?;
                Ok(Type::Mapping { key_type: Box::new(k), value_type: Box::new(v) })
            },
            TypeSpecifier::Pointer { target_type, is_mutable, .. } => {
                let t = self.ast_type_to_type(target_type)?;
                Ok(Type::Pointer { target_type: Box::new(t), is_mutable: *is_mutable })
            },
            TypeSpecifier::Function { parameter_types, return_type, .. } => {
                let ghost env = self.env();
                let n = parameter_types.len();
                let mut params: Vec<Type> = Vec::new();
                let mut i: usize = 0;
                proof {
                    assert(parameter_types@.subrange(0, n as int) =~= parameter_types@);
                    assert(type_views(params@) =~= Seq::<TypeView>::empty());
                    match convert_types(env, parameter_types@) {
                        Ok(x) => {
                            assert(Seq::<TypeView>::empty() + x =~= x);
                        },
                        Err(_) => {},
                    }
                }
                while i < n
                    invariant
                        n == parameter_types@.len(),
                        i <= n,
                        env == self.env(),
                        convert_types(env, parameter_types@) == prepend(
                            type_views(params@),
                            convert_types(env, parameter_types@.subrange(i as int, n as int)),
                        ),
                    decreases n - i,
                {
                    let ghost rest = parameter_types@.subrange(i as int, n as int);
                    assert(rest.subrange(1, rest.len() as int) =~= parameter_types@.subrange(i + 1, n as int));
                    assert(rest[0] == parameter_types@[i as int]);
                    proof {
                        assert(decreases_to!(*parameter_types => parameter_types[i as int]));
                    }
                    let t = self.ast_type_to_type(&parameter_types[i])?;
                    let ghost before = params@;
                    params.push(t);
                    proof {
                        lemma_type_views(before);
                        lemma_type_views(params@);
                        assert(type_views(params@) =~= type_views(before) + seq![t@]);
                        match convert_types(env, parameter_types@.subrange(i + 1, n as int)) {
                            Ok(x) => {
                                assert(type_views(before) + (seq![t@] + x) =~= type_views(params@) + x);
                            },
                            Err(_) => {},
                        }
                    }
                    i = i + 1;
                }
                proof {
                    assert(parameter_types@.subrange(n as int, n as int) =~= Seq::<Box<TypeSpecifier>>::empty());
                    assert(type_views(params@) + Seq::<TypeView>::empty() =~= type_views(params@));
                }
                let r = self.ast_type_to_type(return_type)?;
                Ok(Type::Function { parameter_types: params, return_type: Box::new(r) })
            },
            TypeSpecifier::TypeParameter { name, .. } => Ok(Type::Named { name: name.name.clone(), module: None }),
        }
    }
}


impl SemanticAnalyzer {
    /// The type of an expression, or the first error found while typing it.
    #[verifier::rlimit(30)]
    pub fn analyze_expression(&self, e: &Expression) -> (r: Result<Type, SemanticError>)
        ensures
            agrees(r, expr_type(self.env(), *e)),
            operation_detail(self.env(), *e, r),
            *e matches Expression::FunctionCall { call, source_location } ==> call_count_detail(
                self.env(),
                call,
                source_location,
                r,
            ),
        decreases e, 1int,
    {
        reveal(expr_type);
        match e {
            Expression::IntegerLiteral { .. } => Ok(Type::Primitive(PrimitiveType::Integer)),
            Expression::FloatLiteral { .. } => Ok(Type::Primitive(PrimitiveType::Float)),
            Expression::StringLiteral { .. } => Ok(Type::Primitive(PrimitiveType::String)),
            Expression::CharacterLiteral { .. } => Ok(Type::Primitive(PrimitiveType::Char)),
            Expression::BooleanLiteral { .. } => Ok(Type::Primitive(PrimitiveType::Boolean)),
            Expression::NullLiteral { .. } => {
                let void = Type::Primitive(PrimitiveType::Void);
                assert(void@ == TypeView::Primitive(PrimitiveType::Void));
                Ok(Type::Pointer { target_type: Box::new(void), is_mutable: false })
            },
            Expression::Variable { name, source_location } => {
                match self.symbol_table.lookup_symbol(name.name.as_str()) {
                    None => Err(SemanticError::UndefinedSymbol {
                        symbol: name.name.clone(),
                        location: source_location.duplicate(),
                    }),
                    Some(sym) => {
                        if !sym.is_initialized {
                            Err(SemanticError::UseBeforeInitialization {
                                variable: name.name.clone(),
                                location: source_location.duplicate(),
                            })
                        } else if sym.is_moved {
                            Err(SemanticError::UseAfterMove {
                                variable: name.name.clone(),
                                location: source_location.duplicate(),
                            })
                        } else {
                            let r = sym.symbol_type.duplicate();
                            assert(agrees(Ok(r), expr_type(self.env(), *e)));
                            Ok(r)
                        }
                    },
                }
            },
            Expression::Add { .. } | Expression::Subtract { .. } | Expression::Multiply { .. }
            | Expression::Divide { .. } | Expression::Equals { .. } | Expression::NotEquals { .. }
            | Expression::TypeCast { .. } | Expression::AddressOf { .. } | Expression::Dereference { .. }
            | Expression::PointerArithmetic { .. } => {
                let r = self.analyze_operator(e);
                assert(agrees(r, expr_type(self.env(), *e)));
                r
            },
            Expression::FunctionCall { call, source_location } => {
                let r = self.analyze_function_call(call, source_location);
                assert(expr_type(self.env(), *e) == call_type(self.env(), *call)) by {
                    reveal_with_fuel(expr_type, 1);
                }
                r
            },
            Expression::StringConcat { .. } | Expression::StringLength { .. } | Expression::StringCharAt { .. }
            | Expression::Substring { .. } | Expression::StringEquals { .. } | Expression::StringContains { .. } => {
                let r = self.analyze_string_operation(e);
                assert(agrees(r, expr_type(self.env(), *e)));
                r
            },
            Expression::ArrayLiteral { .. } | Expression::ArrayAccess { .. } | Expression::ArrayLength { .. }
            | Expression::MapLiteral { .. } | Expression::MapAccess { .. } => {
                let r = self.analyze_collection(e);
                assert(agrees(r, expr_type(self.env(), *e)));
                r
            },
            Expression::StructConstruct { .. } | Expression::FieldAccess { .. } | Expression::EnumVariant { .. } => {
                let r = self.analyze_user_type(e);
                assert(agrees(r, expr_type(self.env(), *e)));
                r
            },
            Expression::Match { .. } => {
                let r = self.analyze_match(e);
                assert(agrees(r, expr_type(self.env(), *e)));
                r
            },
            _ => {
                assert(expr_type(self.env(), *e) == Ok::<TypeView, Fault>(TypeView::Error));
                Ok(Type::Error)
            },
        }
    }

    /// An analyzer that types expressions as this one does, with a symbol
    /// table of its own that the cases of a `match` may extend.
    fn scratch(&self) -> (r: SemanticAnalyzer)
        ensures
            r.env() == self.env(),
    {
        SemanticAnalyzer {
            symbol_table: self.symbol_table.duplicate(),
            current_module: copy_name_opt(&self.current_module),
            errors: Vec::new(),
            stats: AnalysisStats {
                modules_analyzed: 0,
                functions_analyzed: 0,
                variables_declared: 0,
                types_defined: 0,
                external_functions_analyzed: 0,
                errors_found: 0,
            },
            analyzed_modules: Vec::new(),
            current_exceptions: Vec::new(),
            in_finally_block: false,
        }
    }

    /// Whether `t` names an enumeration.
    fn is_enum_type(&self, t: &Type) -> (r: bool)
        ensures
            r == is_enum(self.env(), t@),
    {
        match t {
            Type::Named { name, .. } => match self.symbol_table.lookup_type_definition(name.as_str()) {
                Some(TypeInfo::Enum { .. }) => true,
                _ => false,
            },
            _ => false,
        }
    }

    /// A `match`: the matched value must be an enumeration; each case runs
    /// in a scope of its own holding the bindings of its pattern, all cases
    /// have one type, which is the type of the match, and the cases together
    /// cover every variant.
    #[verifier::loop_isolation(false)]
    #[verifier::rlimit(30)]
    fn analyze_match(&self, e: &Expression) -> (r: Result<Type, SemanticError>)
        requires
            e is Match,
        ensures
            agrees(r, expr_type(self.env(), *e)),
        decreases e, 0int,
    {
        reveal(expr_type);
        match e {
            Expression::Match { value, cases, source_location } => {
                let vt = self.analyze_expression(value)?;
                if !self.is_enum_type(&vt) {
                    return Err(SemanticError::TypeMismatch {
                        expected: "enum type".to_owned(),
                        found: vt.display_name(),
                        location: source_location.duplicate(),
                    });
                }
                let ghost env = self.env();
                let mut scratch = self.scratch();
                let mut result: Option<Type> = None;
                let n = cases.len();
                let mut i: usize = 0;
                assert(cases@.subrange(0, n as int) =~= cases@);
                while i < n
                    invariant
                        n == cases@.len(),
                        i <= n,
                        env == self.env(),
                        scratch.env() == env,
                        cases_type(env, cases@, vt@, None)
                            == cases_type(env, cases@.subrange(i as int, n as int), vt@, opt_type_view(result)),
                    decreases n - i,
                {
                    let ghost rest = cases@.subrange(i as int, n as int);
                    assert(rest.subrange(1, rest.len() as int) =~= cases@.subrange(i + 1, n as int));
                    assert(rest[0] == cases@[i as int]);
                    let c = &cases[i];
                    let ghost entered = Env { scopes: env.scopes.push(Seq::empty()), ..env };
                    scratch.symbol_table.enter_scope();
                    assert(scratch.env() == entered);
                    match scratch.analyze_pattern(&c.pattern, &vt) {
                        Err(err) => {
                            assert(cases_type(env, rest, vt@, opt_type_view(result)) == Err::<Option<TypeView>, Fault>(
                                fault_of(err),
                            ));
                            return Err(err);
                        },
                        Ok(_) => {},
                    }
                    let ghost s = scratch.env().scopes;
                    proof {
                        lemma_pattern_scopes(entered, c.pattern, vt@);
                        assert(entered.scopes.drop_last() =~= env.scopes);
                        assert(decreases_to!(*cases => cases[i as int]));
                        assert(decreases_to!(cases[i as int] => *cases[i as int].body));
                    }
                    let ct = match scratch.analyze_expression(&c.body) {
                        Err(err) => {
                            assert(cases_type(env, rest, vt@, opt_type_view(result)) == Err::<Option<TypeView>, Fault>(
                                fault_of(err),
                            ));
                            return Err(err);
                        },
                        Ok(ct) => ct,
                    };
                    match scratch.symbol_table.exit_scope() {
                        Err(err) => {
                            assert(cases_type(env, rest, vt@, opt_type_view(result)) == Err::<Option<TypeView>, Fault>(
                                fault_of(err),
                            ));
                            return Err(err);
                        },
                        Ok(_) => {},
                    }
                    match &result {
                        Some(et) => {
                            if !et.equals(&ct) {
                                return Err(SemanticError::TypeMismatch {
                                    expected: et.display_name(),
                                    found: ct.display_name(),
                                    location: c.source_location.duplicate(),
                                });
                            }
                        },
                        None => {
                            result = Some(ct);
                        },
                    }
                    i = i + 1;
                }
                self.check_match_exhaustiveness(cases, &vt, source_location)?;
                match result {
                    Some(t) => Ok(t),
                    None => Err(SemanticError::MalformedConstruct {
                        construct: "match expression".to_owned(),
                        reason: "no cases provided".to_owned(),
                        location: source_location.duplicate(),
                    }),
                }
            },
            _ => Err(SemanticError::Internal { message: "not a match".to_owned() }),
        }
    }

    /// Checks a pattern against the type of the value it matches and adds
    /// its bindings to the innermost scope.
    fn analyze_pattern(&mut self, p: &Pattern, t: &Type) -> (r: Result<(), SemanticError>)
        ensures
            match pattern_scopes(old(self).env(), *p, t@) {
                Ok(s) => r is Ok && final(self).env() == (Env { scopes: s, ..old(self).env() }),
                Err(f) => r matches Err(e) && fault_of(e) == f,
            },
        decreases p,
    {
        match p {
            Pattern::EnumVariant { variant_name, binding, nested_pattern, source_location, .. } => {
                let enum_name = match t {
                    Type::Named { name, .. } => name,
                    _ => {
                        return Err(SemanticError::TypeMismatch {
                            expected: "enum type".to_owned(),
                            found: t.display_name(),
                            location: source_location.duplicate(),
                        });
                    },
                };
                let carried = match self.symbol_table.lookup_type_definition(enum_name.as_str()) {
                    None => {
                        return Err(SemanticError::UndefinedSymbol {
                            symbol: enum_name.clone(),
                            location: source_location.duplicate(),
                        });
                    },
                    Some(TypeInfo::Enum { variants }) => match variant_in(variants, variant_name.name.as_str()) {
                        None => {
                            let what = concat(concat("variant '", variant_name.name.as_str()).as_str(), "'");
                            return Err(SemanticError::UndefinedSymbol { symbol: what, location: source_location.duplicate() });
                        },
                        Some(v) => match &v.associated_type {
                            Some(at) => Some(at.duplicate()),
                            None => None,
                        },
                    },
                    Some(_) => {
                        return Err(SemanticError::TypeMismatch {
                            expected: "enum type".to_owned(),
                            found: enum_name.clone(),
                            location: source_location.duplicate(),
                        });
                    },
                };
                match nested_pattern {
                    Some(np) => match carried {
                        None => {
                            let why = concat(
                                concat("variant '", variant_name.name.as_str()).as_str(),
                                "' has no associated data",
                            );
                            Err(SemanticError::InvalidOperation {
                                operation: "nested pattern matching".to_owned(),
                                reason: why,
                                location: source_location.duplicate(),
                            })
                        },
                        Some(ct) => self.analyze_pattern(np, &ct),
                    },
                    None => match binding {
                        Some(b) => match carried {
                            Some(ct) => self.symbol_table.add_symbol(Symbol {
                                name: b.name.clone(),
                                symbol_type: ct,
                                kind: SymbolKind::Variable,
                                is_mutable: false,
                                is_initialized: true,
                                declaration_location: b.source_location.duplicate(),
                                is_moved: false,
                            }),
                            None => Ok(()),
                        },
                        None => Ok(()),
                    },
                }
            },
            Pattern::Wildcard { binding, .. } => match binding {
                Some(b) => self.symbol_table.add_symbol(Symbol {
                    name: b.name.clone(),
                    symbol_type: t.duplicate(),
                    kind: SymbolKind::Variable,
                    is_mutable: false,
                    is_initialized: true,
                    declaration_location: b.source_location.duplicate(),
                    is_moved: false,
                }),
                None => Ok(()),
            },
            Pattern::Literal { .. } => Ok(()),
        }
    }

    /// Whether a case names the variant `name`.
    fn case_names_variant(c: &MatchCase, name: &str) -> (r: bool)
        ensures
            r == names_variant(c.pattern, name@),
    {
        match &c.pattern {
            Pattern::EnumVariant { variant_name, .. } => str_eq(variant_name.name.as_str(), name),
            _ => false,
        }
    }

    /// Whether one of the cases names the variant `name`.
    fn cases_cover(cases: &Vec<MatchCase>, name: &str) -> (r: bool)
        ensures
            r == covers(cases@, name@),
    {
        let n = cases.len();
        let mut i: usize = 0;
        while i < n
            invariant
                n == cases@.len(),
                i <= n,
                forall|j: int| 0 <= j < i ==> !names_variant((#[trigger] cases@[j]).pattern, name@),
            decreases n - i,
        {
            if Self::case_names_variant(&cases[i], name) {
                assert(names_variant(cases@[i as int].pattern, name@));
                return true;
            }
            i = i + 1;
        }
        false
    }

    /// The exhaustiveness check of a `match` on a value of type `vt`.
    #[verifier::loop_isolation(false)]
    fn check_match_exhaustiveness(&self, cases: &Vec<MatchCase>, vt: &Type, location: &SourceLocation) -> (r: Result<(), SemanticError>)
        ensures
            agrees_unit(r, exhaustive(self.env(), cases@, vt@)),
            r matches Err(SemanticError::InvalidOperation { operation, reason, location: l }) ==> operation@
                == "match expression"@ && reason@ == exhaustiveness_reason(self.env(), cases@, vt@) && l == *location,
            r matches Err(SemanticError::UndefinedSymbol { location: l, .. }) ==> l == *location,
    {
        let enum_name = match vt {
            Type::Named { name, .. } => name,
            _ => {
                return Ok(());
            },
        };
        let variants = match self.symbol_table.lookup_type_definition(enum_name.as_str()) {
            None => {
                return Err(SemanticError::UndefinedSymbol { symbol: enum_name.clone(), location: location.duplicate() });
            },
            Some(TypeInfo::Enum { variants }) => variants,
            Some(_) => {
                return Ok(());
            },
        };
        let n = cases.len();
        let mut i: usize = 0;
        while i < n
            invariant
                n == cases@.len(),
                i <= n,
                forall|j: int| 0 <= j < i ==> !((#[trigger] cases@[j]).pattern is Wildcard),
            decreases n - i,
        {
            if let Pattern::Wildcard { .. } = &cases[i].pattern {
                assert(cases@[i as int].pattern is Wildcard);
                assert(has_wildcard(cases@));
                return Ok(());
            }
            i = i + 1;
        }
        let ghost vs = variants_view(variants@);
        let m = variants.len();
        let mut missing: Vec<char> = Vec::new();
        let mut any_missing = false;
        let mut k: usize = 0;
        while k < m
            invariant
                m == variants@.len(),
                vs == variants_view(variants@),
                vs.len() == m,
                k <= m,
                !any_missing <==> forall|j: int| 0 <= j < k ==> covers(cases@, (#[trigger] vs[j]).0),
                (any_missing, missing@) == missing_variants(cases@, vs, k as int),
            decreases m - k,
        {
            assert(vs[k as int].0 == variants@[k as int].name@);
            if !Self::cases_cover(cases, variants[k].name.as_str()) {
                if any_missing {
                    crate::text::push_str_chars(&mut missing, ", ");
                }
                crate::text::push_str_chars(&mut missing, variants[k].name.as_str());
                any_missing = true;
            }
            k = k + 1;
        }
        if any_missing {
            let listed = crate::text::string_from_chars(missing.as_slice());
            proof {
                reveal_strlit("match expression");
            }
            Err(SemanticError::InvalidOperation {
                operation: "match expression".to_owned(),
                reason: concat("non-exhaustive patterns: missing variants ", listed.as_str()),
                location: location.duplicate(),
            })
        } else {
            Ok(())
        }
    }

    /// Arithmetic, comparison for equality, casts and pointer operations.
    #[verifier::rlimit(30)]
    fn analyze_operator(&self, e: &Expression) -> (r: Result<Type, SemanticError>)
        requires
            e is Add || e is Subtract || e is Multiply || e is Divide || e is Equals || e is NotEquals
                || e is TypeCast || e is AddressOf || e is Dereference || e is PointerArithmetic,
        ensures
            agrees(r, expr_type(self.env(), *e)),
            operation_detail(self.env(), *e, r),
        decreases e, 0int,
    {
        reveal(expr_type);
        match e {
            Expression::Add { left, right, source_location } | Expression::Subtract { left, right, source_location }
            | Expression::Multiply { left, right, source_location }
            | Expression::Divide { left, right, source_location } => {
                let lt = self.analyze_expression(left)?;
                let rt = self.analyze_expression(right)?;
                if !lt.is_numeric() || !rt.is_numeric() {
                    let found = concat(concat(lt.display_name().as_str(), " and ").as_str(), rt.display_name().as_str());
                    return Err(mismatch_error("numeric type", found, source_location));
                }
                if lt.is_float() || rt.is_float() {
                    Ok(Type::Primitive(PrimitiveType::Float))
                } else {
                    Ok(Type::Primitive(PrimitiveType::Integer))
                }
            },
            Expression::Equals { left, right, source_location }
            | Expression::NotEquals { left, right, source_location } => {
                let lt = self.analyze_expression(left)?;
                let rt = self.analyze_expression(right)?;
                if !lt.equals(&rt) {
                    return Err(mismatch_error(lt.display_name().as_str(), rt.display_name(), source_location));
                }
                Ok(Type::Primitive(PrimitiveType::Boolean))
            },
            Expression::TypeCast { value, target_type, source_location, .. } => {
                let vt = self.analyze_expression(value)?;
                let tt = self.ast_type_to_type(target_type)?;
                let allowed = match (&vt, &tt) {
                    (Type::Primitive(from), Type::Primitive(to)) => cast_allowed_exec(*from, *to),
                    _ => false,
                };
                if allowed {
                    Ok(tt)
                } else {
                    let what = concat(
                        concat(concat("cast from ", vt.display_name().as_str()).as_str(), " to ").as_str(),
                        tt.display_name().as_str(),
                    );
                    Err(SemanticError::InvalidOperation {
                        operation: what,
                        reason: "invalid type conversion".to_owned(),
                        location: source_location.duplicate(),
                    })
                }
            },
            Expression::AddressOf { operand, .. } => {
                let t = self.analyze_expression(operand)?;
                Ok(Type::Pointer { target_type: Box::new(t), is_mutable: false })
            },
            Expression::Dereference { pointer, source_location } => {
                let pt = self.analyze_expression(pointer)?;
                match pt {
                    Type::Pointer { target_type, .. } => Ok(*target_type),
                    _ => Err(mismatch_error("pointer type", pt.display_name(), source_location)),
                }
            },
            Expression::PointerArithmetic { pointer, offset, source_location, .. } => {
                let pt = self.analyze_expression(pointer)?;
                let ot = self.analyze_expression(offset)?;
                match pt {
                    Type::Pointer { .. } => {
                        if !ot.is_primitive(PrimitiveType::Integer) {
                            return Err(mismatch_error("Integer", ot.display_name(), source_location));
                        }
                        Ok(pt)
                    },
                    _ => Err(mismatch_error("pointer type", pt.display_name(), source_location)),
                }
            },
            _ => unreached(),
        }
    }

    /// Operations on strings.
    #[verifier::loop_isolation(false)]
    #[verifier::rlimit(30)]
    fn analyze_string_operation(&self, e: &Expression) -> (r: Result<Type, SemanticError>)
        requires
            e is StringConcat || e is StringLength || e is StringCharAt || e is Substring || e is StringEquals
                || e is StringContains,
        ensures
            agrees(r, expr_type(self.env(), *e)),
            operation_detail(self.env(), *e, r),
        decreases e, 0int,
    {
        reveal(expr_type);
        let string_type = Type::Primitive(PrimitiveType::String);
        match e {
            Expression::StringConcat { operands, source_location } => {
                let ghost env = self.env();
                let ghost want = TypeView::Primitive(PrimitiveType::String);
                let n = operands.len();
                let mut i: usize = 0;
                assert(operands@.subrange(0, n as int) =~= operands@);
                while i < n
                    invariant
                        n == operands@.len(),
                        i <= n,
                        check_exprs(env, operands@, want, true)
                            == check_exprs(env, operands@.subrange(i as int, n as int), want, true),
                    decreases n - i,
                {
                    let ghost rest = operands@.subrange(i as int, n as int);
                    assert(rest.subrange(1, rest.len() as int) =~= operands@.subrange(i + 1, n as int));
                    assert(rest[0] == operands@[i as int]);
                    proof {
                        assert(decreases_to!(*operands => operands[i as int]));
                    }
                    let t = self.analyze_expression(&operands[i])?;
                    if !t.is_primitive(PrimitiveType::String) {
                        return Err(mismatch_error("String", t.display_name(), source_location));
                    }
                    i = i + 1;
                }
                Ok(string_type)
            },
            Expression::StringLength { string, source_location } => {
                let t = self.analyze_expression(string)?;
                if !t.is_primitive(PrimitiveType::String) {
                    return Err(mismatch_error("String", t.display_name(), source_location));
                }
                Ok(Type::Primitive(PrimitiveType::Integer))
            },
            Expression::StringCharAt { string, index, source_location } => {
                let st = self.analyze_expression(string)?;
                let it = self.analyze_expression(index)?;
                if !st.is_primitive(PrimitiveType::String) {
                    return Err(mismatch_error("String", st.display_name(), source_location));
                }
                if !it.is_primitive(PrimitiveType::Integer) {
                    return Err(mismatch_error("Integer", it.display_name(), source_location));
                }
                Ok(Type::Primitive(PrimitiveType::Char))
            },
            Expression::Substring { string, start_index, length, source_location } => {
                let st = self.analyze_expression(string)?;
                if !st.is_primitive(PrimitiveType::String) {
                    return Err(mismatch_error("String", st.display_name(), source_location));
                }
                let it = self.analyze_expression(start_index)?;
                if !it.is_primitive(PrimitiveType::Integer) {
                    return Err(mismatch_error("Integer", it.display_name(), source_location));
                }
                let lt = self.analyze_expression(length)?;
                if !lt.is_primitive(PrimitiveType::Integer) {
                    return Err(mismatch_error("Integer", lt.display_name(), source_location));
                }
                Ok(string_type)
            },
            Expression::StringEquals { left, right, source_location } => {
                let lt = self.analyze_expression(left)?;
                let rt = self.analyze_expression(right)?;
                if !lt.is_primitive(PrimitiveType::String) {
                    return Err(mismatch_error("String", lt.display_name(), source_location));
                }
                if !rt.is_primitive(PrimitiveType::String) {
                    return Err(mismatch_error("String", rt.display_name(), source_location));
                }
                Ok(Type::Primitive(PrimitiveType::Boolean))
            },
            Expression::StringContains { haystack, needle, source_location } => {
                let ht = self.analyze_expression(haystack)?;
                let nt = self.analyze_expression(needle)?;
                if !ht.is_primitive(PrimitiveType::String) {
                    return Err(mismatch_error("String", ht.display_name(), source_location));
                }
                if !nt.is_primitive(PrimitiveType::String) {
                    return Err(mismatch_error("String", nt.display_name(), source_location));
                }
                Ok(Type::Primitive(PrimitiveType::Boolean))
            },
            _ => unreached(),
        }
    }
}


impl SemanticAnalyzer {
    /// Array and map literals and accesses.
    #[verifier::loop_isolation(false)]
    #[verifier::rlimit(30)]
    fn analyze_collection(&self, e: &Expression) -> (r: Result<Type, SemanticError>)
        requires
            e is ArrayLiteral || e is ArrayAccess || e is ArrayLength || e is MapLiteral || e is MapAccess,
        ensures
            agrees(r, expr_type(self.env(), *e)),
            operation_detail(self.env(), *e, r),
        decreases e, 0int,
    {
        reveal(expr_type);
        match e {
            Expression::ArrayLiteral { element_type, elements, source_location } => {
                let et = self.ast_type_to_type(element_type)?;
                let ghost env = self.env();
                let n = elements.len();
                let mut i: usize = 0;
                assert(elements@.subrange(0, n as int) =~= elements@);
                while i < n
                    invariant
                        n == elements@.len(),
                        i <= n,
                        check_exprs(env, elements@, et@, false)
                            == check_exprs(env, elements@.subrange(i as int, n as int), et@, false),
                    decreases n - i,
                {
                    let ghost rest = elements@.subrange(i as int, n as int);
                    assert(rest.subrange(1, rest.len() as int) =~= elements@.subrange(i + 1, n as int));
                    assert(rest[0] == elements@[i as int]);
                    proof {
                        assert(decreases_to!(*elements => elements[i as int]));
                    }
                    let t = self.analyze_expression(&elements[i])?;
                    if !types_compatible(&et, &t) {
                        return Err(mismatch_error(et.display_name().as_str(), t.display_name(), source_location));
                    }
                    i = i + 1;
                }
                Ok(Type::Array { element_type: Box::new(et), size: Some(n as u64) })
            },
            Expression::ArrayAccess { array, index, source_location } => {
                let at = self.analyze_expression(array)?;
                match at {
                    Type::Array { element_type, .. } => {
                        let it = self.analyze_expression(index)?;
                        if !it.is_primitive(PrimitiveType::Integer) {
                            return Err(mismatch_error("Integer", it.display_name(), source_location));
                        }
                        Ok(*element_type)
                    },
                    _ => Err(mismatch_error("Array", at.display_name(), source_location)),
                }
            },
            Expression::ArrayLength { array, source_location } => {
                let at = self.analyze_expression(array)?;
                match at {
                    Type::Array { .. } => Ok(Type::Primitive(PrimitiveType::Integer)),
                    _ => Err(mismatch_error("Array", at.display_name(), source_location)),
                }
            },
            Expression::MapLiteral { key_type, value_type, entries, .. } => {
                let kt = self.ast_type_to_type(key_type)?;
                let vt = self.ast_type_to_type(value_type)?;
                let ghost env = self.env();
                let n = entries.len();
                let mut i: usize = 0;
                assert(entries@.subrange(0, n as int) =~= entries@);
                while i < n
                    invariant
                        n == entries@.len(),
                        i <= n,
                        check_entries(env, entries@, kt@, vt@)
                            == check_entries(env, entries@.subrange(i as int, n as int), kt@, vt@),
                    decreases n - i,
                {
                    let ghost rest = entries@.subrange(i as int, n as int);
                    assert(rest.subrange(1, rest.len() as int) =~= entries@.subrange(i + 1, n as int));
                    assert(rest[0] == entries@[i as int]);
                    let entry = &entries[i];
                    proof {
                        assert(decreases_to!(*entries => entries[i as int]));
                    }
                    let ek = self.analyze_expression(&entry.key)?;
                    let ev = self.analyze_expression(&entry.value)?;
                    if !types_compatible(&kt, &ek) {
                        return Err(mismatch_error(kt.display_name().as_str(), ek.display_name(), &entry.source_location));
                    }
                    if !types_compatible(&vt, &ev) {
                        return Err(mismatch_error(vt.display_name().as_str(), ev.display_name(), &entry.source_location));
                    }
                    i = i + 1;
                }
                Ok(Type::Mapping { key_type: Box::new(kt), value_type: Box::new(vt) })
            },
            Expression::MapAccess { map, key, source_location } => {
                let mt = self.analyze_expression(map)?;
                match mt {
                    Type::Mapping { key_type, value_type } => {
                        let kt = self.analyze_expression(key)?;
                        if !types_compatible(&key_type, &kt) {
                            return Err(mismatch_error(key_type.display_name().as_str(), kt.display_name(), source_location));
                        }
                        Ok(*value_type)
                    },
                    _ => Err(mismatch_error("Map", mt.display_name(), source_location)),
                }
            },
            _ => unreached(),
        }
    }

    /// Struct construction, field access and enum variants.
    #[verifier::loop_isolation(false)]
    #[verifier::rlimit(30)]
    fn analyze_user_type(&self, e: &Expression) -> (r: Result<Type, SemanticError>)
        requires
            e is StructConstruct || e is FieldAccess || e is EnumVariant,
        ensures
            agrees(r, expr_type(self.env(), *e)),
            operation_detail(self.env(), *e, r),
        decreases e, 0int,
    {
        reveal(expr_type);
        match e {
            Expression::StructConstruct { struct_name, field_values, source_location } => {
                let definition = match self.symbol_table.lookup_type_definition(struct_name.name.as_str()) {
                    None => {
                        return Err(SemanticError::UndefinedSymbol {
                            symbol: struct_name.name.clone(),
                            location: source_location.duplicate(),
                        });
                    },
                    Some(d) => d,
                };
                let fields = match definition {
                    TypeInfo::Struct { fields } => fields,
                    _ => {
                        return Err(mismatch_error("struct type", "non-struct type".to_owned(), source_location));
                    },
                };
                let ghost fv = fields_view(fields@);
                let n = fields.len();
                let mut i: usize = 0;
                assert(fv.subrange(0, n as int) =~= fv);
                while i < n
                    invariant
                        n == fields@.len(),
                        fv == fields_view(fields@),
                        i <= n,
                        first_missing_field(fv, field_values@)
                            == first_missing_field(fv.subrange(i as int, n as int), field_values@),
                    decreases n - i,
                {
                    let ghost rest = fv.subrange(i as int, n as int);
                    assert(rest.subrange(1, rest.len() as int) =~= fv.subrange(i + 1, n as int));
                    assert(rest[0] == fv[i as int]);
                    if !has_field_value_exec(field_values, fields[i].0.as_str()) {
                        return Err(SemanticError::MissingField {
                            struct_name: struct_name.name.clone(),
                            field_name: fields[i].0.clone(),
                            location: source_location.duplicate(),
                        });
                    }
                    i = i + 1;
                }
                assert(fv.subrange(n as int, n as int).len() == 0);
                let ghost env = self.env();
                let m = field_values.len();
                let mut j: usize = 0;
                assert(field_values@.subrange(0, m as int) =~= field_values@);
                while j < m
                    invariant
                        m == field_values@.len(),
                        j <= m,
                        check_field_values(env, field_values@, fv)
                            == check_field_values(env, field_values@.subrange(j as int, m as int), fv),
                    decreases m - j,
                {
                    let ghost rest = field_values@.subrange(j as int, m as int);
                    assert(rest.subrange(1, rest.len() as int) =~= field_values@.subrange(j + 1, m as int));
                    assert(rest[0] == field_values@[j as int]);
                    let fv = &field_values[j];
                    let expected = match find_field(fields, fv.field_name.name.as_str()) {
                        None => {
                            return Err(SemanticError::UnknownField {
                                struct_name: struct_name.name.clone(),
                                field_name: fv.field_name.name.clone(),
                                location: fv.source_location.duplicate(),
                            });
                        },
                        Some(t) => t,
                    };
                    proof {
                        assert(decreases_to!(*field_values => field_values[j as int]));
                    }
                    let t = self.analyze_expression(&fv.value)?;
                    if !types_compatible(expected, &t) {
                        return Err(mismatch_error(expected.display_name().as_str(), t.display_name(), &fv.source_location));
                    }
                    j = j + 1;
                }
                Ok(Type::Named { name: struct_name.name.clone(), module: copy_name_opt(&self.current_module) })
            },
            Expression::FieldAccess { instance, field_name, source_location } => {
                let it = self.analyze_expression(instance)?;
                match &it {
                    Type::Named { name, module } => {
                        match self.symbol_table.lookup_type_definition(name.as_str()) {
                            None => {
                                let full = match module {
                                    Some(m) => concat(concat(m.as_str(), "::").as_str(), name.as_str()),
                                    None => name.clone(),
                                };
                                Err(SemanticError::UndefinedSymbol { symbol: full, location: source_location.duplicate() })
                            },
                            Some(TypeInfo::Struct { fields }) => match find_field(fields, field_name.name.as_str()) {
                                Some(t) => Ok(t.duplicate()),
                                None => Err(SemanticError::UnknownField {
                                    struct_name: name.clone(),
                                    field_name: field_name.name.clone(),
                                    location: source_location.duplicate(),
                                }),
                            },
                            Some(_) => Err(mismatch_error("struct type", it.display_name(), source_location)),
                        }
                    },
                    _ => Err(mismatch_error("struct type", it.display_name(), source_location)),
                }
            },
            Expression::EnumVariant { variant_name, value, source_location, .. } => {
                let (enum_name, carried) = match self.symbol_table.find_enum_with_variant(variant_name.name.as_str()) {
                    None => {
                        let what = concat(concat("enum variant '", variant_name.name.as_str()).as_str(), "'");
                        return Err(SemanticError::UndefinedSymbol { symbol: what, location: source_location.duplicate() });
                    },
                    Some(found) => found,
                };
                match carried {
                    Some(expected) => match value {
                        Some(v) => {
                            let t = self.analyze_expression(v)?;
                            if !types_compatible(expected, &t) {
                                return Err(mismatch_error(expected.display_name().as_str(), t.display_name(), source_location));
                            }
                            Ok(Type::Named { name: enum_name.clone(), module: copy_name_opt(&self.current_module) })
                        },
                        None => Err(SemanticError::MissingEnumVariantValue {
                            variant: variant_name.name.clone(),
                            enum_name: enum_name.clone(),
                            location: source_location.duplicate(),
                        }),
                    },
                    None => {
                        if value.is_some() {
                            return Err(SemanticError::UnexpectedEnumVariantValue {
                                variant: variant_name.name.clone(),
                                enum_name: enum_name.clone(),
                                location: source_location.duplicate(),
                            });
                        }
                        Ok(Type::Named { name: enum_name.clone(), module: copy_name_opt(&self.current_module) })
                    },
                }
            },
            _ => unreached(),
        }
    }

    /// The type of a call: the callee's return type, once each argument has
    /// been checked against its parameter.
    #[verifier::loop_isolation(false)]
    #[verifier::rlimit(30)]
    #[verifier::spinoff_prover]
    fn analyze_function_call(&self, call: &FunctionCall, location: &SourceLocation) -> (r: Result<Type, SemanticError>)
        ensures
            agrees(r, crate::semantic::typing::call_type(self.env(), *call)),
            call_count_detail(self.env(), *call, *location, r),
        decreases call, 0int,
    {
        reveal(expr_type);
        let name = match &call.function_reference {
            FunctionReference::Local { name } => name,
            _ => {
                return Ok(Type::Error);
            },
        };
        if str_eq(name.name.as_str(), "printf") {
            return Ok(Type::Primitive(PrimitiveType::Integer));
        }
        let sym = match self.symbol_table.lookup_symbol(name.name.as_str()) {
            None => {
                return Err(SemanticError::UndefinedSymbol { symbol: name.name.clone(), location: location.duplicate() });
            },
            Some(s) => s,
        };
        let (params, ret) = match &sym.symbol_type {
            Type::Function { parameter_types, return_type } => (parameter_types, return_type),
            _ => {
                return Err(mismatch_error("function type", sym.symbol_type.display_name(), location));
            },
        };
        let ghost env = self.env();
        let ghost pv = type_views(params@);
        proof { lemma_type_views(params@); }
        let n = call.arguments.len();
        let k = params.len();
        if n > k || call.variadic_arguments.len() != k - n {
            return Err(SemanticError::ArgumentCountMismatch {
                function: name.name.clone(),
                expected: k,
                found: if n > usize::MAX - call.variadic_arguments.len() { usize::MAX } else { n + call.variadic_arguments.len() },
                location: location.duplicate(),
            });
        }
        let mut i: usize = 0;
        assert(call.arguments@.subrange(0, n as int) =~= call.arguments@);
        assert(pv.subrange(0, n as int).subrange(0, n as int) =~= pv.subrange(0, n as int));
        while i < n
            invariant
                n == call.arguments@.len(),
                n <= k,
                k == params@.len(),
                pv.len() == k,
                i <= n,
                check_named_args(env, call.arguments@, pv.subrange(0, n as int))
                    == check_named_args(env, call.arguments@.subrange(i as int, n as int), pv.subrange(i as int, n as int)),
            decreases n - i,
        {
            let ghost rest = call.arguments@.subrange(i as int, n as int);
            let ghost prest = pv.subrange(i as int, n as int);
            assert(rest.subrange(1, rest.len() as int) =~= call.arguments@.subrange(i + 1, n as int));
            assert(prest.subrange(1, prest.len() as int) =~= pv.subrange(i + 1, n as int));
            assert(rest[0] == call.arguments@[i as int]);
            assert(prest[0] == pv[i as int]);
            let arg = &call.arguments[i];
            proof {
                assert(decreases_to!(call.arguments => call.arguments[i as int]));
            }
            let t = self.analyze_expression(&arg.value)?;
            if !types_compatible(&params[i], &t) {
                return Err(mismatch_error(params[i].display_name().as_str(), t.display_name(), location));
            }
            i = i + 1;
        }
        let m = call.variadic_arguments.len();
        let mut j: usize = 0;
        assert(call.variadic_arguments@.subrange(0, m as int) =~= call.variadic_arguments@);
        assert(pv.subrange(n as int, k as int).subrange(0, m as int) =~= pv.subrange(n as int, k as int));
        while j < m
            invariant
                n == call.arguments@.len(),
                m == call.variadic_arguments@.len(),
                n + m == k,
                k == params@.len(),
                pv.len() == k,
                j <= m,
                check_call_args(env, call.variadic_arguments@, pv.subrange(n as int, k as int))
                    == check_call_args(
                    env,
                    call.variadic_arguments@.subrange(j as int, m as int),
                    pv.subrange(n + j, k as int),
                ),
            decreases m - j,
        {
            let ghost rest = call.variadic_arguments@.subrange(j as int, m as int);
            let ghost prest = pv.subrange(n + j, k as int);
            assert(rest.subrange(1, rest.len() as int) =~= call.variadic_arguments@.subrange(j + 1, m as int));
            assert(prest.subrange(1, prest.len() as int) =~= pv.subrange(n + j + 1, k as int));
            assert(rest[0] == call.variadic_arguments@[j as int]);
            assert(prest[0] == pv[n + j]);
            proof {
                assert(decreases_to!(call.variadic_arguments => call.variadic_arguments[j as int]));
            }
            let t = self.analyze_expression(&call.variadic_arguments[j])?;
            if !types_compatible(&params[n + j], &t) {
                return Err(mismatch_error(params[n + j].display_name().as_str(), t.display_name(), location));
            }
            j = j + 1;
        }
        Ok(ret.duplicate())
    }
}


impl SemanticAnalyzer {
    /// Where a walk through statements stands in this analyzer.
    pub closed spec fn walk(&self) -> Walk {
        Walk {
            env: self.env(),
            declared: self.stats.variables_declared,
            exceptions: type_views(self.current_exceptions@),
            in_finally: self.in_finally_block,
        }
    }

    /// What statements leave alone: the statistics other than the count of
    /// declared variables, the recorded errors, the analysed modules and the
    /// current module.
    pub closed spec fn frame(&self) -> (AnalysisStats, Seq<SemanticError>, Seq<ModuleExports>, Option<String>) {
        (
            AnalysisStats { variables_declared: 0, ..self.stats },
            self.errors@,
            self.analyzed_modules@,
            self.current_module,
        )
    }

    /// The check of a condition: boolean, or of the error type.
    fn check_condition_exec(&self, c: &Expression) -> (r: Result<(), SemanticError>)
        ensures
            agrees_unit(r, check_condition(self.env(), *c)),
            condition_detail(self.env(), *c, r),
    {
        let t = self.analyze_expression(c)?;
        if !t.is_primitive(PrimitiveType::Boolean) && !t.is_error() {
            return Err(mismatch_error("Boolean", t.display_name(), &SourceLocation::unknown()));
        }
        Ok(())
    }

    /// The check of a numeric loop bound.
    fn check_numeric_exec(&self, c: &Expression) -> (r: Result<(), SemanticError>)
        ensures
            agrees_unit(r, check_numeric(self.env(), *c)),
            numeric_detail(self.env(), *c, r),
    {
        let t = self.analyze_expression(c)?;
        if !t.is_numeric() {
            return Err(mismatch_error("numeric type", t.display_name(), &SourceLocation::unknown()));
        }
        Ok(())
    }

    /// Runs a body in a new scope that holds `binding`, if given.
    fn analyze_scoped_body(&mut self, binding: Option<Symbol>, body: &Block) -> (r: Result<(), SemanticError>)
        ensures
            ({
                let (w, res) = scoped_body(old(self).walk(), opt_symbol_view(binding), *body);
                final(self).walk() == w && agrees_unit(r, res)
            }),
            final(self).frame() == old(self).frame(),
        decreases body, 1int,
    {
        self.symbol_table.enter_scope();
        assert(self.walk() == entered(old(self).walk()));
        match binding {
            Some(b) => {
                self.symbol_table.add_symbol(b)?;
            },
            None => {},
        }
        self.analyze_block(body)?;
        self.symbol_table.exit_scope()
    }

    /// A block: its statements in a scope of their own, up to the first error.
    #[verifier::loop_isolation(false)]
    fn analyze_block(&mut self, b: &Block) -> (r: Result<(), SemanticError>)
        ensures
            ({
                let (w, res) = block_run(old(self).walk(), *b);
                final(self).walk() == w && agrees_unit(r, res)
            }),
            final(self).frame() == old(self).frame(),
        decreases b, 0int,
    {
        self.symbol_table.enter_scope();
        let ghost start = self.walk();
        assert(start == entered(old(self).walk()));
        let n = b.statements.len();
        let mut i: usize = 0;
        assert(b.statements@.subrange(0, n as int) =~= b.statements@);
        while i < n
            invariant
                n == b.statements@.len(),
                i <= n,
                self.frame() == old(self).frame(),
                stmts_run(start, b.statements@) == stmts_run(self.walk(), b.statements@.subrange(i as int, n as int)),
            decreases n - i,
        {
            let ghost rest = b.statements@.subrange(i as int, n as int);
            assert(rest.subrange(1, rest.len() as int) =~= b.statements@.subrange(i + 1, n as int));
            assert(rest[0] == b.statements@[i as int]);
            proof {
                assert(decreases_to!(b.statements => b.statements[i as int]));
            }
            self.analyze_statement(&b.statements[i])?;
            i = i + 1;
        }
        self.symbol_table.exit_scope()
    }

    /// The type a resource of the named kind is bound with.
    fn resolve_resource_type(&self, kind: &str) -> (r: Result<Type, SemanticError>)
        ensures
            r matches Ok(t) && t@ == resource_type_of(self.env().scopes, kind@),
    {
        if str_eq(kind, "file_handle") || str_eq(kind, "mutex") || str_eq(kind, "semaphore") {
            Ok(Type::Primitive(PrimitiveType::UIntPtrT))
        } else if str_eq(kind, "memory_buffer") {
            let inner = Type::Primitive(PrimitiveType::Integer);
            assert(inner@ == TypeView::Primitive(PrimitiveType::Integer));
            let t = Type::Pointer { target_type: Box::new(inner), is_mutable: true };
            assert(t@ == TypeView::Pointer(Box::new(TypeView::Primitive(PrimitiveType::Integer)), true));
            Ok(t)
        } else if str_eq(kind, "tcp_socket") || str_eq(kind, "udp_socket") {
            Ok(Type::Primitive(PrimitiveType::Integer32))
        } else {
            match self.symbol_table.lookup_symbol(kind) {
                Some(sym) => Ok(sym.symbol_type.duplicate()),
                None => {
                    let inner = Type::Primitive(PrimitiveType::Void);
                    assert(inner@ == TypeView::Primitive(PrimitiveType::Void));
                    let t = Type::Pointer { target_type: Box::new(inner), is_mutable: false };
                    assert(t@ == TypeView::Pointer(Box::new(TypeView::Primitive(PrimitiveType::Void)), false));
                    Ok(t)
                },
            }
        }
    }

    /// A resource scope: its resource lifecycle checked first, then its
    /// resources bound in a scope of their own for its body.
    #[verifier::loop_isolation(false)]
    fn analyze_resource_scope(&mut self, scope: &ResourceScope) -> (r: Result<(), SemanticError>)
        ensures
            ({
                let (w, res) = resource_scope_run(old(self).walk(), *scope);
                final(self).walk() == w && agrees_unit(r, res)
            }),
            final(self).frame() == old(self).frame(),
        decreases scope, 1int,
    {
        let mut checker = ResourceAnalyzer::new();
        checker.analyze_resource_scope(scope)?;
        let results = checker.get_results();
        if results.leaks.len() > 0 {
            let leak = &results.leaks[0];
            return Err(SemanticError::ResourceLeak {
                resource_type: leak.resource_type.clone(),
                binding: leak.binding.clone(),
                location: leak.acquisition_location.duplicate(),
            });
        }
        if results.double_releases.len() > 0 {
            let double = &results.double_releases[0];
            return Err(SemanticError::InvalidOperation {
                operation: "double release".to_owned(),
                reason: concat(concat("Resource '", double.binding.as_str()).as_str(), "' released twice"),
                location: double.second_release.duplicate(),
            });
        }
        if results.use_after_release.len() > 0 {
            let late = &results.use_after_release[0];
            return Err(SemanticError::InvalidOperation {
                operation: "use after release".to_owned(),
                reason: concat(concat("Resource '", late.binding.as_str()).as_str(), "' used after release"),
                location: late.use_location.duplicate(),
            });
        }
        let ghost w0 = self.walk();
        self.symbol_table.enter_scope();
        let ghost w1 = self.walk();
        assert(w1 == entered(w0));
        let ghost rs = scope.resources@;
        let n = scope.resources.len();
        let mut i: usize = 0;
        assert(rs.subrange(0, 0).len() == 0);
        while i < n
            invariant
                n == rs.len(),
                rs == scope.resources@,
                i <= n,
                w1 == entered(w0),
                bind_resources(w1.env.scopes, rs.subrange(0, i as int)) == (self.walk().env.scopes, Ok::<(), Fault>(())),
                self.walk() == with_scopes(w1, self.walk().env.scopes),
                self.frame() == old(self).frame(),
            decreases n - i,
        {
            assert(rs.subrange(0, i + 1).drop_last() =~= rs.subrange(0, i as int));
            assert(rs.subrange(0, i + 1).last() == rs[i as int]);
            let res = &scope.resources[i];
            let t = self.resolve_resource_type(res.resource_type.as_str())?;
            let sym = Symbol {
                name: res.binding.name.clone(),
                symbol_type: t,
                kind: SymbolKind::Variable,
                is_mutable: false,
                is_initialized: true,
                declaration_location: res.binding.source_location.duplicate(),
                is_moved: false,
            };
            match self.symbol_table.add_symbol(sym) {
                Err(e) => {
                    proof {
                        lemma_bind_resources_prefix_err(w1.env.scopes, rs, i + 1);
                    }
                    return Err(e);
                },
                Ok(_) => {},
            }
            i = i + 1;
        }
        assert(rs.subrange(0, n as int) =~= rs);
        self.analyze_block(&scope.body)?;
        let _ = self.symbol_table.exit_scope();
        Ok(())
    }

    /// A statement: how it changes the scopes and the count of declared
    /// variables, and the first error it meets.
    #[verifier::loop_isolation(false)]
    #[verifier::spinoff_prover]
    #[verifier::rlimit(40)]
    fn analyze_statement(&mut self, st: &Statement) -> (r: Result<(), SemanticError>)
        ensures
            ({
                let (w, res) = stmt_run(old(self).walk(), *st);
                final(self).walk() == w && agrees_unit(r, res)
            }),
            final(self).frame() == old(self).frame(),
            statement_detail(old(self).walk(), *st, r),
        decreases st, 0int,
    {
        match st {
            Statement::VariableDeclaration { name, type_spec, mutability, initial_value, source_location, .. } => {
                let dt = self.ast_type_to_type(type_spec)?;
                let mut initialized = false;
                match initial_value {
                    Some(v) => {
                        let t = self.analyze_expression(v)?;
                        if !types_compatible(&dt, &t) {
                            return Err(mismatch_error(dt.display_name().as_str(), t.display_name(), source_location));
                        }
                        initialized = true;
                    },
                    None => {},
                }
                let sym = Symbol {
                    name: name.name.clone(),
                    symbol_type: dt,
                    kind: SymbolKind::Variable,
                    is_mutable: *mutability == Mutability::Mutable,
                    is_initialized: initialized,
                    declaration_location: source_location.duplicate(),
                    is_moved: false,
                };
                self.symbol_table.add_symbol(sym)?;
                self.stats.variables_declared = bump_count(self.stats.variables_declared);
                Ok(())
            },
            Statement::Assignment { target, value, source_location } => {
                let vt = self.analyze_expression(value)?;
                match target {
                    AssignmentTarget::Variable { name } => {
                        match self.symbol_table.lookup_symbol(name.name.as_str()) {
                            None => {
                                return Err(SemanticError::UndefinedSymbol {
                                    symbol: name.name.clone(),
                                    location: source_location.duplicate(),
                                });
                            },
                            Some(sym) => {
                                if !sym.is_mutable {
                                    return Err(SemanticError::AssignToImmutable {
                                        variable: name.name.clone(),
                                        location: source_location.duplicate(),
                                    });
                                }
                                if !types_compatible(&sym.symbol_type, &vt) {
                                    return Err(mismatch_error(
                                        sym.symbol_type.display_name().as_str(),
                                        vt.display_name(),
                                        source_location,
                                    ));
                                }
                            },
                        }
                        self.symbol_table.mark_variable_initialized(name.name.as_str())
                    },
                    AssignmentTarget::MapValue { map, key } => {
                        let mt = self.analyze_expression(map)?;
                        match mt {
                            Type::Mapping { key_type, .. } => {
                                let kt = self.analyze_expression(key)?;
                                if !types_compatible(&key_type, &kt) {
                                    return Err(mismatch_error(
                                        key_type.display_name().as_str(),
                                        kt.display_name(),
                                        source_location,
                                    ));
                                }
                                Ok(())
                            },
                            _ => Err(mismatch_error("Map", mt.display_name(), source_location)),
                        }
                    },
                    _ => Ok(()),
                }
            },
            Statement::Return { value, .. } => {
                match value {
                    Some(v) => {
                        self.analyze_expression(v)?;
                    },
                    None => {},
                }
                Ok(())
            },
            Statement::FunctionCall { call, source_location } => {
                self.analyze_function_call(call, source_location)?;
                Ok(())
            },
            Statement::Expression { expr, .. } => {
                self.analyze_expression(expr)?;
                Ok(())
            },
            Statement::If { condition, then_block, else_ifs, else_block, .. } => {
                self.check_condition_exec(condition)?;
                self.analyze_block(then_block)?;
                let ghost start = self.walk();
                let n = else_ifs.len();
                let mut i: usize = 0;
                assert(else_ifs@.subrange(0, n as int) =~= else_ifs@);
                while i < n
                    invariant
                        n == else_ifs@.len(),
                        i <= n,
                        self.frame() == old(self).frame(),
                        else_ifs_run(start, else_ifs@) == else_ifs_run(self.walk(), else_ifs@.subrange(i as int, n as int)),
                    decreases n - i,
                {
                    let ghost rest = else_ifs@.subrange(i as int, n as int);
                    assert(rest.subrange(1, rest.len() as int) =~= else_ifs@.subrange(i + 1, n as int));
                    assert(rest[0] == else_ifs@[i as int]);
                    let branch = &else_ifs[i];
                    self.check_condition_exec(&branch.condition)?;
                    proof {
                        assert(decreases_to!(*else_ifs => else_ifs[i as int]));
                    }
                    self.analyze_block(&branch.block)?;
                    i = i + 1;
                }
                match else_block {
                    Some(b) => self.analyze_block(b),
                    None => Ok(()),
                }
            },
            Statement::WhileLoop { condition, body, .. } => {
                self.check_condition_exec(condition)?;
                self.analyze_scoped_body(None, body)
            },
            Statement::ForEachLoop { collection, element_binding, element_type, body, .. } => {
                let ct = self.analyze_expression(collection)?;
                let actual = match &ct {
                    Type::Array { element_type, .. } => element_type.duplicate(),
                    Type::Mapping { value_type, .. } => value_type.duplicate(),
                    _ => {
                        return Err(mismatch_error("Array or Map", ct.display_name(), &SourceLocation::unknown()));
                    },
                };
                let dt = self.ast_type_to_type(element_type)?;
                if !types_compatible(&dt, &actual) {
                    return Err(mismatch_error(
                        dt.display_name().as_str(),
                        actual.display_name(),
                        &element_binding.source_location,
                    ));
                }
                let binding = Symbol {
                    name: element_binding.name.clone(),
                    symbol_type: dt,
                    kind: SymbolKind::Variable,
                    is_mutable: false,
                    is_initialized: true,
                    declaration_location: element_binding.source_location.duplicate(),
                    is_moved: false,
                };
                self.analyze_scoped_body(Some(binding), body)
            },
            Statement::FixedIterationLoop { counter, from_value, to_value, step_value, body, .. } => {
                self.check_numeric_exec(from_value)?;
                self.check_numeric_exec(to_value)?;
                match step_value {
                    Some(s) => {
                        self.check_numeric_exec(s)?;
                    },
                    None => {},
                }
                let integer = Type::Primitive(PrimitiveType::Integer);
                assert(integer@ == TypeView::Primitive(PrimitiveType::Integer));
                let binding = Symbol {
                    name: counter.name.clone(),
                    symbol_type: integer,
                    kind: SymbolKind::Variable,
                    is_mutable: false,
                    is_initialized: true,
                    declaration_location: counter.source_location.duplicate(),
                    is_moved: false,
                };
                self.analyze_scoped_body(Some(binding), body)
            },
            Statement::Throw { exception, source_location } => {
                if self.in_finally_block {
                    return Err(SemanticError::InvalidOperation {
                        operation: "throw in finally block".to_owned(),
                        reason: "Finally blocks should not throw exceptions except for cleanup".to_owned(),
                        location: source_location.duplicate(),
                    });
                }
                let t = self.analyze_expression(exception)?;
                let can_throw = match &t {
                    Type::Named { .. } => true,
                    Type::Primitive(p) => *p == PrimitiveType::String,
                    _ => false,
                };
                if !can_throw {
                    return Err(SemanticError::InvalidType {
                        invalid_type: t.display_name(),
                        reason: "type is not throwable (must implement Exception trait)".to_owned(),
                        location: source_location.duplicate(),
                    });
                }
                if !types_contain(&self.current_exceptions, &t) {
                    let ghost before = self.current_exceptions@;
                    self.current_exceptions.push(t);
                    proof { lemma_type_views_push(before, self.current_exceptions@.last()); }
                    assert(self.current_exceptions@ == before.push(self.current_exceptions@.last()));
                }
                Ok(())
            },
            Statement::TryBlock { protected_block, catch_clauses, finally_block, .. } => {
                let saved = crate::semantic::types::duplicate_all(&self.current_exceptions);
                self.analyze_block(protected_block)?;
                self.analyze_catches(catch_clauses)?;
                match finally_block {
                    None => {
                        self.current_exceptions = saved;
                        Ok(())
                    },
                    Some(fb) => {
                        let was = self.in_finally_block;
                        self.in_finally_block = true;
                        let before_len = self.current_exceptions.len();
                        proof { lemma_type_views(self.current_exceptions@); }
                        self.analyze_block(fb)?;
                        proof { lemma_type_views(self.current_exceptions@); }
                        if self.current_exceptions.len() > before_len {
                            return Err(SemanticError::InvalidOperation {
                                operation: "throw in finally block".to_owned(),
                                reason: "Finally blocks should not throw new exceptions".to_owned(),
                                location: fb.source_location.duplicate(),
                            });
                        }
                        self.in_finally_block = was;
                        self.current_exceptions = saved;
                        Ok(())
                    },
                }
            },
            Statement::ResourceScope { scope, .. } => self.analyze_resource_scope(scope),
            Statement::Break { target_label, source_location } => {
                if target_label.is_some() {
                    return Err(SemanticError::UnsupportedFeature {
                        feature: "labeled break".to_owned(),
                        location: source_location.duplicate(),
                    });
                }
                Ok(())
            },
            Statement::Continue { target_label, source_location } => {
                if target_label.is_some() {
                    return Err(SemanticError::UnsupportedFeature {
                        feature: "labeled continue".to_owned(),
                        location: source_location.duplicate(),
                    });
                }
                Ok(())
            },
        }
    }
}


impl SemanticAnalyzer {
    /// The analyzer as a mathematical value.
    pub closed spec fn state(&self) -> AnalyzerView {
        AnalyzerView {
            env: self.env(),
            stats: self.stats,
            analyzed: self.analyzed_modules@.map_values(|m: ModuleExports| exports_view(m)),
            exceptions: type_views(self.current_exceptions@),
            in_finally: self.in_finally_block,
        }
    }

    /// The types of a parameter list.
    #[verifier::loop_isolation(false)]
    fn convert_param_types(&self, ps: &Vec<Parameter>) -> (r: Result<Vec<Type>, SemanticError>)
        ensures
            match param_types(self.env(), ps@) {
                Ok(v) => r matches Ok(x) && type_views(x@) == v,
                Err(f) => r matches Err(e) && fault_of(e) == f,
            },
    {
        let ghost env = self.env();
        let n = ps.len();
        let mut out: Vec<Type> = Vec::new();
        let mut i: usize = 0;
        proof {
            assert(ps@.subrange(0, n as int) =~= ps@);
            assert(type_views(out@) =~= Seq::<TypeView>::empty());
            match param_types(env, ps@) {
                Ok(x) => {
                    assert(Seq::<TypeView>::empty() + x =~= x);
                },
                Err(_) => {},
            }
        }
        while i < n
            invariant
                n == ps@.len(),
                i <= n,
                env == self.env(),
                param_types(env, ps@) == prepend(type_views(out@), param_types(env, ps@.subrange(i as int, n as int))),
            decreases n - i,
        {
            let ghost rest = ps@.subrange(i as int, n as int);
            assert(rest.subrange(1, rest.len() as int) =~= ps@.subrange(i + 1, n as int));
            assert(rest[0] == ps@[i as int]);
            let t = self.ast_type_to_type(&ps[i].param_type)?;
            let ghost before = out@;
            out.push(t);
            proof {
                lemma_type_views(before);
                lemma_type_views(out@);
                assert(type_views(out@) =~= type_views(before) + seq![t@]);
                match param_types(env, ps@.subrange(i + 1, n as int)) {
                    Ok(x) => {
                        assert(type_views(before) + (seq![t@] + x) =~= type_views(out@) + x);
                    },
                    Err(_) => {},
                }
            }
            i = i + 1;
        }
        proof {
            assert(ps@.subrange(n as int, n as int) =~= Seq::<Parameter>::empty());
            assert(type_views(out@) + Seq::<TypeView>::empty() =~= type_views(out@));
        }
        Ok(out)
    }

    /// The fields of a struct definition with their types.
    #[verifier::loop_isolation(false)]
    fn convert_struct_fields(&self, fs: &Vec<StructField>) -> (r: Result<Vec<(String, Type)>, SemanticError>)
        ensures
            match convert_fields(self.env(), fs@) {
                Ok(v) => r matches Ok(x) && fields_view(x@) == v,
                Err(f) => r matches Err(e) && fault_of(e) == f,
            },
    {
        let ghost env = self.env();
        let n = fs.len();
        let mut out: Vec<(String, Type)> = Vec::new();
        let mut i: usize = 0;
        proof {
            assert(fs@.subrange(0, n as int) =~= fs@);
            assert(fields_view(out@) =~= Seq::<(Seq<char>, TypeView)>::empty());
            match convert_fields(env, fs@) {
                Ok(x) => {
                    assert(Seq::<(Seq<char>, TypeView)>::empty() + x =~= x);
                },
                Err(_) => {},
            }
        }
        while i < n
            invariant
                n == fs@.len(),
                i <= n,
                env == self.env(),
                convert_fields(env, fs@) == prepend(fields_view(out@), convert_fields(env, fs@.subrange(i as int, n as int))),
            decreases n - i,
        {
            let ghost rest = fs@.subrange(i as int, n as int);
            assert(rest.subrange(1, rest.len() as int) =~= fs@.subrange(i + 1, n as int));
            assert(rest[0] == fs@[i as int]);
            let t = self.ast_type_to_type(&fs[i].field_type)?;
            let ghost before = out@;
            let ghost item = (fs@[i as int].name.name@, t@);
            out.push((fs[i].name.name.clone(), t));
            proof {
                assert(fields_view(out@) =~= fields_view(before) + seq![item]);
                match convert_fields(env, fs@.subrange(i + 1, n as int)) {
                    Ok(x) => {
                        assert(fields_view(before) + (seq![item] + x) =~= fields_view(out@) + x);
                    },
                    Err(_) => {},
                }
            }
            i = i + 1;
        }
        proof {
            assert(fs@.subrange(n as int, n as int) =~= Seq::<StructField>::empty());
            assert(fields_view(out@) + Seq::<(Seq<char>, TypeView)>::empty() =~= fields_view(out@));
        }
        Ok(out)
    }

    /// The variants of an enumeration with the types of the values they carry.
    #[verifier::loop_isolation(false)]
    fn convert_enum_variants(&self, vs: &Vec<EnumVariant>) -> (r: Result<Vec<VariantInfo>, SemanticError>)
        ensures
            match convert_variants(self.env(), vs@) {
                Ok(v) => r matches Ok(x) && variants_view(x@) == v,
                Err(f) => r matches Err(e) && fault_of(e) == f,
            },
    {
        let ghost env = self.env();
        let n = vs.len();
        let mut out: Vec<VariantInfo> = Vec::new();
        let mut i: usize = 0;
        proof {
            assert(vs@.subrange(0, n as int) =~= vs@);
            assert(variants_view(out@) =~= Seq::<(Seq<char>, Option<TypeView>)>::empty());
            match convert_variants(env, vs@) {
                Ok(x) => {
                    assert(Seq::<(Seq<char>, Option<TypeView>)>::empty() + x =~= x);
                },
                Err(_) => {},
            }
        }
        while i < n
            invariant
                n == vs@.len(),
                i <= n,
                env == self.env(),
                convert_variants(env, vs@) == prepend(variants_view(out@), convert_variants(env, vs@.subrange(i as int, n as int))),
            decreases n - i,
        {
            let ghost rest = vs@.subrange(i as int, n as int);
            assert(rest.subrange(1, rest.len() as int) =~= vs@.subrange(i + 1, n as int));
            assert(rest[0] == vs@[i as int]);
            let carried = match &vs[i].associated_type {
                None => None,
                Some(t) => Some(self.ast_type_to_type(t)?),
            };
            let ghost before = out@;
            let info = VariantInfo { name: vs[i].name.name.clone(), associated_type: carried };
            let ghost item = (vs@[i as int].name.name@, opt_type_view(info.associated_type));
            out.push(info);
            proof {
                assert(variants_view(out@) =~= variants_view(before) + seq![item]);
                match convert_variants(env, vs@.subrange(i + 1, n as int)) {
                    Ok(x) => {
                        assert(variants_view(before) + (seq![item] + x) =~= variants_view(out@) + x);
                    },
                    Err(_) => {},
                }
            }
            i = i + 1;
        }
        proof {
            assert(vs@.subrange(n as int, n as int) =~= Seq::<EnumVariant>::empty());
            assert(variants_view(out@) + Seq::<(Seq<char>, Option<TypeView>)>::empty() =~= variants_view(out@));
        }
        Ok(out)
    }

    /// A type definition: registered under its name, which must be new.
    fn analyze_type_definition(&mut self, td: &TypeDefinition) -> (r: Result<(), SemanticError>)
        ensures
            ({
                let (v, res) = typedef_run(old(self).state(), *td);
                final(self).state() == v && agrees_unit(r, res)
            }),
            final(self).errors() == old(self).errors(),
            final(self).current_module == old(self).current_module,
    {
        let (name, definition, location) = match td {
            TypeDefinition::Structured { name, fields, source_location } => {
                let fs = self.convert_struct_fields(fields)?;
                (name.name.clone(), TypeInfo::Struct { fields: fs }, source_location)
            },
            TypeDefinition::Enumeration { name, variants, source_location } => {
                let vs = self.convert_enum_variants(variants)?;
                (name.name.clone(), TypeInfo::Enum { variants: vs }, source_location)
            },
            TypeDefinition::Alias { new_name, original_type, source_location } => {
                let t = self.ast_type_to_type(original_type)?;
                (new_name.name.clone(), TypeInfo::Alias { target_type: t }, source_location)
            },
        };
        assert(definition_of(self.env(), *td) == Ok::<TypeInfoView, Fault>(info_view(definition)));
        self.symbol_table.add_type_definition(name, definition, location)?;
        self.stats.types_defined = bump_count(self.stats.types_defined);
        Ok(())
    }
}


impl SemanticAnalyzer {
    /// The exports recorded for the module named `name`.
    fn find_analyzed_exec(&self, name: &str) -> (r: Option<usize>)
        ensures
            match r {
                Some(i) => i < self.analyzed_modules@.len()
                    && find_analyzed(self.state().analyzed, name@) == Some(exports_view(self.analyzed_modules@[i as int]).1),
                None => find_analyzed(self.state().analyzed, name@) is None,
            },
    {
        let ghost a = self.state().analyzed;
        let n = self.analyzed_modules.len();
        let mut i: usize = 0;
        assert(a.subrange(0, n as int) =~= a);
        while i < n
            invariant
                n == self.analyzed_modules@.len(),
                a == self.state().analyzed,
                a.len() == n,
                i <= n,
                find_analyzed(a, name@) == find_analyzed(a.subrange(i as int, n as int), name@),
            decreases n - i,
        {
            let ghost rest = a.subrange(i as int, n as int);
            assert(rest.subrange(1, rest.len() as int) =~= a.subrange(i + 1, n as int));
            assert(rest[0] == a[i as int]);
            if str_eq(self.analyzed_modules[i].name.as_str(), name) {
                return Some(i);
            }
            i = i + 1;
        }
        None
    }

    /// An import: the module must have been analysed by this analyzer; its
    /// exports become visible as `alias.name`, or `module.name`.
    #[verifier::loop_isolation(false)]
    fn analyze_import(&mut self, imp: &ImportStatement) -> (r: Result<(), SemanticError>)
        ensures
            ({
                let (v, res) = import_run(old(self).state(), *imp);
                final(self).state() == v && agrees_unit(r, res)
            }),
            import_detail(old(self).state(), *imp, r),
            final(self).errors() == old(self).errors(),
            final(self).current_module == old(self).current_module,
    {
        let module = &imp.module_name.name;
        let k = match self.find_analyzed_exec(module.as_str()) {
            None => {
                return Err(SemanticError::ImportError {
                    module: module.clone(),
                    reason: "Failed to load module: it has not been analysed".to_owned(),
                    location: imp.source_location.duplicate(),
                });
            },
            Some(k) => k,
        };
        let prefix: &String = match &imp.alias {
            Some(a) => &a.name,
            None => module,
        };
        let ghost es = exports_view(self.analyzed_modules@[k as int]).1;
        let n = self.analyzed_modules[k].exports.len();
        let ghost start = self.state();
        let mut i: usize = 0;
        assert(es.subrange(0, n as int) =~= es);
        while i < n
            invariant
                k < self.analyzed_modules@.len(),
                n == self.analyzed_modules@[k as int].exports@.len(),
                es == exports_view(self.analyzed_modules@[k as int]).1,
                es.len() == n,
                i <= n,
                self.errors() == old(self).errors(),
                self.current_module == old(self).current_module,
                self.state() == set_scopes(start, self.state().env.scopes),
                ({
                    let (s0, r0) = add_imported(start.env.scopes, prefix@, module@, es);
                    let (s1, r1) = add_imported(self.state().env.scopes, prefix@, module@, es.subrange(i as int, n as int));
                    s0 == s1 && r0 == r1
                }),
            decreases n - i,
        {
            let ghost rest = es.subrange(i as int, n as int);
            assert(rest.subrange(1, rest.len() as int) =~= es.subrange(i + 1, n as int));
            assert(rest[0] == es[i as int]);
            let (kind, ename) = &self.analyzed_modules[k].exports[i];
            let q = concat(concat(prefix.as_str(), ".").as_str(), ename.as_str());
            let sym = match kind {
                ExportKind::Function => {
                    let params: Vec<Type> = Vec::new();
                    assert(type_views(params@) =~= Seq::<TypeView>::empty());
                    let void = Type::Primitive(PrimitiveType::Void);
                    assert(void@ == TypeView::Primitive(PrimitiveType::Void));
                    Symbol {
                        name: q,
                        symbol_type: Type::Function { parameter_types: params, return_type: Box::new(void) },
                        kind: SymbolKind::Function,
                        is_mutable: false,
                        is_initialized: true,
                        declaration_location: imp.source_location.duplicate(),
                        is_moved: false,
                    }
                },
                ExportKind::Type => Symbol {
                    name: q.clone(),
                    symbol_type: Type::Named { name: q, module: Some(module.clone()) },
                    kind: SymbolKind::Type,
                    is_mutable: false,
                    is_initialized: true,
                    declaration_location: imp.source_location.duplicate(),
                    is_moved: false,
                },
                ExportKind::Constant => Symbol {
                    name: q,
                    symbol_type: Type::Error,
                    kind: SymbolKind::Constant,
                    is_mutable: false,
                    is_initialized: true,
                    declaration_location: imp.source_location.duplicate(),
                    is_moved: false,
                },
            };
            assert(sym@ == imported_symbol(prefix@, module@, es[i as int]));
            self.symbol_table.add_symbol(sym)?;
            i = i + 1;
        }
        Ok(())
    }

    /// A constant: its value must fit its declared type.
    fn analyze_constant_declaration(&mut self, c: &ConstantDeclaration) -> (r: Result<(), SemanticError>)
        ensures
            ({
                let (v, res) = const_run(old(self).state(), *c);
                final(self).state() == v && agrees_unit(r, res)
            }),
            constant_detail(old(self).state(), *c, r),
            final(self).errors() == old(self).errors(),
            final(self).current_module == old(self).current_module,
    {
        let dt = self.ast_type_to_type(&c.type_spec)?;
        let vt = self.analyze_expression(&c.value)?;
        if !types_compatible(&dt, &vt) {
            return Err(mismatch_error(dt.display_name().as_str(), vt.display_name(), &c.source_location));
        }
        let sym = Symbol {
            name: c.name.name.clone(),
            symbol_type: dt,
            kind: SymbolKind::Constant,
            is_mutable: false,
            is_initialized: true,
            declaration_location: c.source_location.duplicate(),
            is_moved: false,
        };
        self.symbol_table.add_symbol(sym)?;
        self.stats.variables_declared = bump_count(self.stats.variables_declared);
        Ok(())
    }

    /// An external function: declared as a function, once.
    fn analyze_external_function(&mut self, f: &ExternalFunction) -> (r: Result<(), SemanticError>)
        ensures
            ({
                let (v, res) = external_run(old(self).state(), *f);
                final(self).state() == v && agrees_unit(r, res)
            }),
            final(self).errors() == old(self).errors(),
            final(self).current_module == old(self).current_module,
    {
        let params = self.convert_param_types(&f.parameters)?;
        let rt = self.ast_type_to_type(&f.return_type)?;
        let ft = Type::Function { parameter_types: params, return_type: Box::new(rt) };
        match self.symbol_table.lookup_symbol(f.name.name.as_str()) {
            Some(existing) => {
                if existing.kind == SymbolKind::Function {
                    if !types_compatible(&existing.symbol_type, &ft) {
                        return Err(mismatch_error(
                            existing.symbol_type.display_name().as_str(),
                            ft.display_name(),
                            &f.source_location,
                        ));
                    }
                    return Ok(());
                }
                return Err(SemanticError::DuplicateDefinition {
                    symbol: f.name.name.clone(),
                    location: f.source_location.duplicate(),
                    previous_location: existing.declaration_location.duplicate(),
                });
            },
            None => {},
        }
        let sym = Symbol {
            name: f.name.name.clone(),
            symbol_type: ft,
            kind: SymbolKind::Function,
            is_mutable: false,
            is_initialized: true,
            declaration_location: f.source_location.duplicate(),
            is_moved: false,
        };
        self.symbol_table.add_symbol(sym)?;
        self.stats.external_functions_analyzed = bump_count(self.stats.external_functions_analyzed);
        Ok(())
    }

    /// A function's signature: declared as a function.
    fn add_function_signature(&mut self, f: &Function) -> (r: Result<(), SemanticError>)
        ensures
            ({
                let (v, res) = signature_run(old(self).state(), *f);
                final(self).state() == v && agrees_unit(r, res)
            }),
            final(self).errors() == old(self).errors(),
            final(self).current_module == old(self).current_module,
    {
        let rt = self.ast_type_to_type(&f.return_type)?;
        let params = self.convert_param_types(&f.parameters)?;
        let sym = Symbol {
            name: f.name.name.clone(),
            symbol_type: Type::Function { parameter_types: params, return_type: Box::new(rt) },
            kind: SymbolKind::Function,
            is_mutable: false,
            is_initialized: true,
            declaration_location: f.source_location.duplicate(),
            is_moved: false,
        };
        self.symbol_table.add_symbol(sym)
    }

    /// A function's body, in a scope that holds its parameters.
    #[verifier::loop_isolation(false)]
    fn analyze_function_body(&mut self, f: &Function) -> (r: Result<(), SemanticError>)
        ensures
            ({
                let (v, res) = body_run(old(self).state(), *f);
                final(self).state() == v && agrees_unit(r, res)
            }),
            final(self).errors() == old(self).errors(),
            final(self).current_module == old(self).current_module,
    {
        self.symbol_table.enter_scope();
        let ghost v1 = self.state();
        assert(v1 == set_scopes(old(self).state(), old(self).state().env.scopes.push(Seq::empty())));
        let ps = &f.parameters;
        let n = ps.len();
        let mut i: usize = 0;
        assert(ps@.subrange(0, n as int) =~= ps@);
        while i < n
            invariant
                n == ps@.len(),
                i <= n,
                self.errors() == old(self).errors(),
                self.current_module == old(self).current_module,
                bind_params(v1, ps@) == bind_params(self.state(), ps@.subrange(i as int, n as int)),
            decreases n - i,
        {
            let ghost rest = ps@.subrange(i as int, n as int);
            assert(rest.subrange(1, rest.len() as int) =~= ps@.subrange(i + 1, n as int));
            assert(rest[0] == ps@[i as int]);
            let t = self.ast_type_to_type(&ps[i].param_type)?;
            let sym = Symbol {
                name: ps[i].name.name.clone(),
                symbol_type: t,
                kind: SymbolKind::Parameter,
                is_mutable: true,
                is_initialized: true,
                declaration_location: ps[i].source_location.duplicate(),
                is_moved: false,
            };
            self.symbol_table.add_symbol(sym)?;
            i = i + 1;
        }
        assert(ps@.subrange(n as int, n as int).len() == 0);
        let ghost v2 = self.state();
        assert(self.walk() == walk_of(v2));
        let body_result = self.analyze_block(&f.body);
        assert(self.state() == after_walk(v2, self.walk()));
        body_result?;
        self.symbol_table.exit_scope()?;
        self.stats.functions_analyzed = bump_count(self.stats.functions_analyzed);
        Ok(())
    }
}


impl Default for SemanticAnalyzer {
    fn default() -> (r: SemanticAnalyzer)
        ensures
            r.env().scopes == seq![Seq::<SymbolView>::empty()],
            r.env().types == Seq::<crate::semantic::symbols::TypeEntryView>::empty(),
            r.env().module is None,
            r.errors() == Seq::<SemanticError>::empty(),
            r.stats() == zero_stats(),
            r.state().analyzed == Seq::<(Seq<char>, Seq<(ExportKind, Seq<char>)>)>::empty(),
            r.state().exceptions == Seq::<TypeView>::empty(),
            !r.state().in_finally,
    {
        SemanticAnalyzer::new()
    }
}

/// The faults of a list of errors.
pub open spec fn faults(es: Seq<SemanticError>) -> Seq<Fault> {
    es.map_values(|e: SemanticError| fault_of(e))
}

impl SemanticAnalyzer {
    /// Runs `analyze_import` on each item in order, up to the first error.
    fn run_imports(&mut self, items: &Vec<ImportStatement>) -> (r: Result<(), SemanticError>)
        ensures
            ({
                let (v, res) = imports_run(old(self).state(), items@);
                final(self).state() == v && agrees_unit(r, res)
            }),
            final(self).errors() == old(self).errors(),
            final(self).current_module == old(self).current_module,
    {
        let ghost v0 = self.state();
        let n = items.len();
        let mut i: usize = 0;
        assert(items@.subrange(0, n as int) =~= items@);
        while i < n
            invariant
                n == items@.len(),
                i <= n,
                self.errors() == old(self).errors(),
                self.current_module == old(self).current_module,
                v0 == old(self).state(),
                imports_run(v0, items@) == imports_run(self.state(), items@.subrange(i as int, n as int)),
            decreases n - i,
        {
            let ghost rest = items@.subrange(i as int, n as int);
            assert(rest.subrange(1, rest.len() as int) =~= items@.subrange(i + 1, n as int));
            assert(rest[0] == items@[i as int]);
            self.analyze_import(&items[i])?;
            i = i + 1;
        }
        assert(items@.subrange(n as int, n as int).len() == 0);
        Ok(())
    }

    /// Runs `analyze_type_definition` on each item in order, up to the first error.
    fn run_type_definitions(&mut self, items: &Vec<TypeDefinition>) -> (r: Result<(), SemanticError>)
        ensures
            ({
                let (v, res) = typedefs_run(old(self).state(), items@);
                final(self).state() == v && agrees_unit(r, res)
            }),
            final(self).errors() == old(self).errors(),
            final(self).current_module == old(self).current_module,
    {
        let ghost v0 = self.state();
        let n = items.len();
        let mut i: usize = 0;
        assert(items@.subrange(0, n as int) =~= items@);
        while i < n
            invariant
                n == items@.len(),
                i <= n,
                self.errors() == old(self).errors(),
                self.current_module == old(self).current_module,
                v0 == old(self).state(),
                typedefs_run(v0, items@) == typedefs_run(self.state(), items@.subrange(i as int, n as int)),
            decreases n - i,
        {
            let ghost rest = items@.subrange(i as int, n as int);
            assert(rest.subrange(1, rest.len() as int) =~= items@.subrange(i + 1, n as int));
            assert(rest[0] == items@[i as int]);
            self.analyze_type_definition(&items[i])?;
            i = i + 1;
        }
        assert(items@.subrange(n as int, n as int).len() == 0);
        Ok(())
    }

    /// Runs `analyze_constant_declaration` on each item in order, up to the first error.
    fn run_constants(&mut self, items: &Vec<ConstantDeclaration>) -> (r: Result<(), SemanticError>)
        ensures
            ({
                let (v, res) = consts_run(old(self).state(), items@);
                final(self).state() == v && agrees_unit(r, res)
            }),
            final(self).errors() == old(self).errors(),
            final(self).current_module == old(self).current_module,
    {
        let ghost v0 = self.state();
        let n = items.len();
        let mut i: usize = 0;
        assert(items@.subrange(0, n as int) =~= items@);
        while i < n
            invariant
                n == items@.len(),
                i <= n,
                self.errors() == old(self).errors(),
                self.current_module == old(self).current_module,
                v0 == old(self).state(),
                consts_run(v0, items@) == consts_run(self.state(), items@.subrange(i as int, n as int)),
            decreases n - i,
        {
            let ghost rest = items@.subrange(i as int, n as int);
            assert(rest.subrange(1, rest.len() as int) =~= items@.subrange(i + 1, n as int));
            assert(rest[0] == items@[i as int]);
            self.analyze_constant_declaration(&items[i])?;
            i = i + 1;
        }
        assert(items@.subrange(n as int, n as int).len() == 0);
        Ok(())
    }

    /// Runs `analyze_external_function` on each item in order, up to the first error.
    fn run_external_functions(&mut self, items: &Vec<ExternalFunction>) -> (r: Result<(), SemanticError>)
        ensures
            ({
                let (v, res) = externals_run(old(self).state(), items@);
                final(self).state() == v && agrees_unit(r, res)
            }),
            final(self).errors() == old(self).errors(),
            final(self).current_module == old(self).current_module,
    {
        let ghost v0 = self.state();
        let n = items.len();
        let mut i: usize = 0;
        assert(items@.subrange(0, n as int) =~= items@);
        while i < n
            invariant
                n == items@.len(),
                i <= n,
                self.errors() == old(self).errors(),
                self.current_module == old(self).current_module,
                v0 == old(self).state(),
                externals_run(v0, items@) == externals_run(self.state(), items@.subrange(i as int, n as int)),
            decreases n - i,
        {
            let ghost rest = items@.subrange(i as int, n as int);
            assert(rest.subrange(1, rest.len() as int) =~= items@.subrange(i + 1, n as int));
            assert(rest[0] == items@[i as int]);
            self.analyze_external_function(&items[i])?;
            i = i + 1;
        }
        assert(items@.subrange(n as int, n as int).len() == 0);
        Ok(())
    }

    /// Runs `add_function_signature` on each item in order, up to the first error.
    fn run_signatures(&mut self, items: &Vec<Function>) -> (r: Result<(), SemanticError>)
        ensures
            ({
                let (v, res) = signatures_run(old(self).state(), items@);
                final(self).state() == v && agrees_unit(r, res)
            }),
            final(self).errors() == old(self).errors(),
            final(self).current_module == old(self).current_module,
    {
        let ghost v0 = self.state();
        let n = items.len();
        let mut i: usize = 0;
        assert(items@.subrange(0, n as int) =~= items@);
        while i < n
            invariant
                n == items@.len(),
                i <= n,
                self.errors() == old(self).errors(),
                self.current_module == old(self).current_module,
                v0 == old(self).state(),
                signatures_run(v0, items@) == signatures_run(self.state(), items@.subrange(i as int, n as int)),
            decreases n - i,
        {
            let ghost rest = items@.subrange(i as int, n as int);
            assert(rest.subrange(1, rest.len() as int) =~= items@.subrange(i + 1, n as int));
            assert(rest[0] == items@[i as int]);
            self.add_function_signature(&items[i])?;
            i = i + 1;
        }
        assert(items@.subrange(n as int, n as int).len() == 0);
        Ok(())
    }

    /// Runs `analyze_function_body` on each item in order, up to the first error.
    fn run_bodies(&mut self, items: &Vec<Function>) -> (r: Result<(), SemanticError>)
        ensures
            ({
                let (v, res) = bodies_run(old(self).state(), items@);
                final(self).state() == v && agrees_unit(r, res)
            }),
            final(self).errors() == old(self).errors(),
            final(self).current_module == old(self).current_module,
    {
        let ghost v0 = self.state();
        let n = items.len();
        let mut i: usize = 0;
        assert(items@.subrange(0, n as int) =~= items@);
        while i < n
            invariant
                n == items@.len(),
                i <= n,
                self.errors() == old(self).errors(),
                self.current_module == old(self).current_module,
                v0 == old(self).state(),
                bodies_run(v0, items@) == bodies_run(self.state(), items@.subrange(i as int, n as int)),
            decreases n - i,
        {
            let ghost rest = items@.subrange(i as int, n as int);
            assert(rest.subrange(1, rest.len() as int) =~= items@.subrange(i + 1, n as int));
            assert(rest[0] == items@[i as int]);
            self.analyze_function_body(&items[i])?;
            i = i + 1;
        }
        assert(items@.subrange(n as int, n as int).len() == 0);
        Ok(())
    }

    /// Checks that each exported name is visible.
    fn check_exports(&self, exports: &Vec<ExportStatement>) -> (r: Result<(), SemanticError>)
        ensures
            agrees_unit(r, exports_check(self.state().env.scopes, exports@)),
            r matches Err(SemanticError::UndefinedSymbol { symbol, location }) ==> exists|i: int|
                0 <= i < exports@.len() && symbol@ == export_name(#[trigger] exports@[i]) && location == export_location(
                exports@[i],
            ),
    {
        let ghost sc = self.state().env.scopes;
        let n = exports.len();
        let mut i: usize = 0;
        assert(exports@.subrange(0, n as int) =~= exports@);
        while i < n
            invariant
                n == exports@.len(),
                i <= n,
                sc == self.state().env.scopes,
                exports_check(sc, exports@) == exports_check(sc, exports@.subrange(i as int, n as int)),
            decreases n - i,
        {
            let ghost rest = exports@.subrange(i as int, n as int);
            assert(rest.subrange(1, rest.len() as int) =~= exports@.subrange(i + 1, n as int));
            assert(rest[0] == exports@[i as int]);
            let (name, location) = match &exports[i] {
                ExportStatement::Function { name, source_location } => (name, source_location),
                ExportStatement::Type { name, source_location } => (name, source_location),
                ExportStatement::Constant { name, source_location } => (name, source_location),
            };
            if self.symbol_table.lookup_symbol(name.name.as_str()).is_none() {
                assert(export_name(exports@[i as int]) == name.name@);
                assert(export_location(exports@[i as int]) == *location);
                return Err(SemanticError::UndefinedSymbol { symbol: name.name.clone(), location: location.duplicate() });
            }
            i = i + 1;
        }
        assert(exports@.subrange(n as int, n as int).len() == 0);
        Ok(())
    }

    /// What a module's export statements export, in order.
    fn exported_entries(exports: &Vec<ExportStatement>) -> (r: Vec<(ExportKind, String)>)
        ensures
            r@.map_values(|e: (ExportKind, String)| (e.0, e.1@))
                == exports@.map_values(|e: ExportStatement| export_entry(e)),
    {
        let n = exports.len();
        let mut recorded: Vec<(ExportKind, String)> = Vec::new();
        let mut i: usize = 0;
        while i < n
            invariant
                n == exports@.len(),
                i <= n,
                recorded@.map_values(|e: (ExportKind, String)| (e.0, e.1@))
                    == exports@.subrange(0, i as int).map_values(|e: ExportStatement| export_entry(e)),
            decreases n - i,
        {
            let entry = match &exports[i] {
                ExportStatement::Function { name, .. } => (ExportKind::Function, name.name.clone()),
                ExportStatement::Type { name, .. } => (ExportKind::Type, name.name.clone()),
                ExportStatement::Constant { name, .. } => (ExportKind::Constant, name.name.clone()),
            };
            let ghost before = recorded@;
            assert((entry.0, entry.1@) == export_entry(exports@[i as int]));
            recorded.push(entry);
            assert(recorded@.map_values(|e: (ExportKind, String)| (e.0, e.1@))
                =~= before.map_values(|e: (ExportKind, String)| (e.0, e.1@)).push(export_entry(exports@[i as int])));
            assert(exports@.subrange(0, i + 1).map_values(|e: ExportStatement| export_entry(e))
                =~= exports@.subrange(0, i as int).map_values(|e: ExportStatement| export_entry(e)).push(export_entry(exports@[i as int])));
            i = i + 1;
            assert(recorded@.map_values(|e: (ExportKind, String)| (e.0, e.1@))
                =~= exports@.subrange(0, i as int).map_values(|e: ExportStatement| export_entry(e)));
        }
        assert(exports@.subrange(0, n as int) =~= exports@);
        recorded
    }

    /// Analyzes a module: it becomes the current module, its imports, type
    /// definitions, constants, external functions, function signatures and
    /// bodies are analysed in a scope of their own, then its exports are
    /// checked and recorded for later imports. The first error ends the
    /// analysis of the module.
    pub fn analyze_module(&mut self, m: &Module) -> (r: Result<(), SemanticError>)
        ensures
            ({
                let (v, res) = module_run(old(self).state(), *m);
                final(self).state() == v && agrees_unit(r, res)
            }),
            final(self).errors() == old(self).errors(),
            final(self).env() == final(self).state().env,
            final(self).stats() == final(self).state().stats,
            r is Ok ==> final(self).stats().modules_analyzed == bump(old(self).stats().modules_analyzed),
            r is Ok ==> final(self).env().scopes.len() == old(self).env().scopes.len(),
            r is Ok ==> final(self).env().module == Some(m.name.name@),
            r is Ok ==> final(self).stats().types_defined == bumps(
                old(self).stats().types_defined,
                m.type_definitions@.len(),
            ),
            r is Ok ==> final(self).stats().functions_analyzed == bumps(
                old(self).stats().functions_analyzed,
                m.function_definitions@.len(),
            ),
    {
        reveal(module_run);
        self.current_module = Some(m.name.name.clone());
        self.symbol_table.enter_scope();
        self.run_imports(&m.imports)?;
        self.run_type_definitions(&m.type_definitions)?;
        self.run_constants(&m.constant_declarations)?;
        self.run_external_functions(&m.external_functions)?;
        self.run_signatures(&m.function_definitions)?;
        self.run_bodies(&m.function_definitions)?;
        self.check_exports(&m.exports)?;
        self.symbol_table.exit_scope()?;
        proof {
            law_module_success(old(self).state(), *m);
            law_module_counts(old(self).state(), *m);
        }
        self.stats.modules_analyzed = bump_count(self.stats.modules_analyzed);
        let recorded = Self::exported_entries(&m.exports);
        let record = ModuleExports { name: m.name.name.clone(), exports: recorded };
        let ghost before = self.analyzed_modules@;
        self.analyzed_modules.push(record);
        assert(self.analyzed_modules@.map_values(|x: ModuleExports| exports_view(x))
            =~= before.map_values(|x: ModuleExports| exports_view(x)).push(exports_view(record)));
        Ok(())
    }

    /// Analyzes the modules of a program in order. The errors recorded by an
    /// earlier analysis are cleared; each module that fails adds its error,
    /// and the analysis goes on with the next module. Succeeds when no module
    /// failed, else gives the errors.
    #[verifier::loop_isolation(false)]
    pub fn analyze_program(&mut self, program: &Program) -> (r: Result<(), Vec<SemanticError>>)
        ensures
            ({
                let (v, fs) = program_run(old(self).state(), program.modules@);
                &&& final(self).state() == v
                &&& faults(final(self).errors()) == fs
                &&& (r is Ok <==> fs.len() == 0)
            }),
            r matches Err(es) ==> es@ == final(self).errors(),
            final(self).env() == final(self).state().env,
            final(self).stats() == final(self).state().stats,
    {
        self.errors = Vec::new();
        let ghost start = self.state();
        let ms = &program.modules;
        let n = ms.len();
        let mut i: usize = 0;
        assert(ms@.subrange(0, n as int) =~= ms@);
        assert(faults(self.errors@) =~= Seq::<Fault>::empty());
        assert(Seq::<Fault>::empty() + program_run(start, ms@).1 =~= program_run(start, ms@).1);
        while i < n
            invariant
                n == ms@.len(),
                i <= n,
                ({
                    let (v_all, f_all) = program_run(start, ms@);
                    let (v_rest, f_rest) = program_run(self.state(), ms@.subrange(i as int, n as int));
                    v_all == v_rest && f_all == faults(self.errors@) + f_rest
                }),
            decreases n - i,
        {
            let ghost rest = ms@.subrange(i as int, n as int);
            assert(rest.subrange(1, rest.len() as int) =~= ms@.subrange(i + 1, n as int));
            assert(rest[0] == ms@[i as int]);
            let ghost before = self.errors@;
            match self.analyze_module(&ms[i]) {
                Err(e) => {
                    self.errors.push(e);
                    assert(faults(self.errors@) =~= faults(before) + seq![fault_of(e)]);
                    let ghost tail = program_run(self.state(), ms@.subrange(i + 1, n as int)).1;
                    assert(faults(before) + (seq![fault_of(e)] + tail) =~= faults(self.errors@) + tail);
                },
                Ok(_) => {},
            }
            i = i + 1;
        }
        assert(ms@.subrange(n as int, n as int).len() == 0);
        assert(faults(self.errors@) + Seq::<Fault>::empty() =~= faults(self.errors@));
        if self.errors.len() == 0 {
            Ok(())
        } else {
            let k = self.errors.len();
            let mut out: Vec<SemanticError> = Vec::new();
            let mut j: usize = 0;
            while j < k
                invariant
                    k == self.errors@.len(),
                    j <= k,
                    out@ == self.errors@.subrange(0, j as int),
                decreases k - j,
            {
                out.push(self.errors[j].duplicate());
                j = j + 1;
                assert(out@ =~= self.errors@.subrange(0, j as int));
            }
            assert(self.errors@.subrange(0, k as int) =~= self.errors@);
            Err(out)
        }
    }
}


impl SemanticAnalyzer {
    /// The handlers of a `try` block in order: each exception type new, each
    /// handler run in a scope holding its binding, with its type not among
    /// the exceptions that may be thrown, which are restored afterwards.
    #[verifier::loop_isolation(false)]
    fn analyze_catches(&mut self, cs: &Vec<CatchClause>) -> (r: Result<(), SemanticError>)
        ensures
            ({
                let (w, res) = catches_run(old(self).walk(), cs@, Seq::empty());
                final(self).walk() == w && agrees_unit(r, res)
            }),
            final(self).frame() == old(self).frame(),
        decreases cs, 1int,
    {
        let mut caught: Vec<Type> = Vec::new();
        let ghost start = self.walk();
        let n = cs.len();
        let mut i: usize = 0;
        assert(cs@.subrange(0, n as int) =~= cs@);
        assert(type_views(caught@) =~= Seq::<TypeView>::empty());
        while i < n
            invariant
                n == cs@.len(),
                i <= n,
                self.frame() == old(self).frame(),
                catches_run(start, cs@, Seq::empty())
                    == catches_run(self.walk(), cs@.subrange(i as int, n as int), type_views(caught@)),
            decreases n - i,
        {
            let ghost rest = cs@.subrange(i as int, n as int);
            assert(rest.subrange(1, rest.len() as int) =~= cs@.subrange(i + 1, n as int));
            assert(rest[0] == cs@[i as int]);
            let c = &cs[i];
            let t = self.ast_type_to_type(&c.exception_type)?;
            if types_contain(&caught, &t) {
                return Err(SemanticError::DuplicateCatchClause {
                    exception_type: t.display_name(),
                    location: c.handler_block.source_location.duplicate(),
                });
            }
            let ghost w0 = self.walk();
            self.symbol_table.enter_scope();
            assert(self.walk() == entered(w0));
            match &c.binding_variable {
                Some(b) => {
                    let sym = Symbol {
                        name: b.name.clone(),
                        symbol_type: t.duplicate(),
                        kind: SymbolKind::Variable,
                        is_mutable: false,
                        is_initialized: true,
                        declaration_location: b.source_location.duplicate(),
                        is_moved: false,
                    };
                    self.symbol_table.add_symbol(sym)?;
                },
                None => {},
            }
            let ghost w2 = self.walk();
            let saved = crate::semantic::types::duplicate_all(&self.current_exceptions);
            self.current_exceptions = types_without(&self.current_exceptions, &t);
            assert(self.walk() == with_exceptions(w2, without(w2.exceptions, t@)));
            proof {
                assert(decreases_to!(*cs => cs[i as int]));
            }
            self.analyze_block(&c.handler_block)?;
            self.current_exceptions = saved;
            self.symbol_table.exit_scope()?;
            let ghost before = caught@;
            caught.push(t);
            proof { lemma_type_views_push(before, caught@.last()); }
            i = i + 1;
        }
        Ok(())
    }
}

} // verus!
