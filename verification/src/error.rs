//! Errors reported by the analysis and release passes.

use vstd::prelude::*;
use crate::ast::SourceLocation;

verus! {

/// Errors produced while analysing a program or preparing a release.
#[derive(Debug)]
pub enum SemanticError {
    /// A symbol is referenced but not declared.
    UndefinedSymbol { symbol: String, location: SourceLocation },
    /// A symbol is declared twice in one scope.
    DuplicateDefinition { symbol: String, location: SourceLocation, previous_location: SourceLocation },
    /// The type of a value does not match the expected type.
    TypeMismatch { expected: String, found: String, location: SourceLocation },
    /// An immutable binding is assigned to.
    AssignToImmutable { variable: String, location: SourceLocation },
    /// A variable is read before it was given a value.
    UseBeforeInitialization { variable: String, location: SourceLocation },
    /// A variable is read after its value was moved away.
    UseAfterMove { variable: String, location: SourceLocation },
    /// A call passes a different number of arguments than the function takes.
    ArgumentCountMismatch { function: String, expected: usize, found: usize, location: SourceLocation },
    /// A struct construction leaves out a field.
    MissingField { struct_name: String, field_name: String, location: SourceLocation },
    /// A field that the struct does not declare.
    UnknownField { struct_name: String, field_name: String, location: SourceLocation },
    /// An enum variant that carries a value is constructed without one.
    MissingEnumVariantValue { variant: String, enum_name: String, location: SourceLocation },
    /// An enum variant without a value is constructed with one.
    UnexpectedEnumVariantValue { variant: String, enum_name: String, location: SourceLocation },
    /// An imported module could not be resolved.
    ImportError { module: String, reason: String, location: SourceLocation },
    /// A construct the analysis does not support.
    UnsupportedFeature { feature: String, location: SourceLocation },
    /// Two handlers of one `try` block catch the same exception type.
    DuplicateCatchClause { exception_type: String, location: SourceLocation },
    /// A type that cannot be used where it stands.
    InvalidType { invalid_type: String, reason: String, location: SourceLocation },
    /// An operation is not allowed in the current context.
    InvalidOperation { operation: String, reason: String, location: SourceLocation },
    /// A resource acquired in a scope is still held when the scope ends.
    ResourceLeak { resource_type: String, binding: String, location: SourceLocation },
    /// A construct whose parts do not fit together.
    MalformedConstruct { construct: String, reason: String, location: SourceLocation },
    /// An internal failure, with a message.
    Internal { message: String },
}

/// The kinds of `SemanticError`, without their details.
#[derive(Debug, Clone, Copy, PartialEq, Eq, Structural)]
pub enum ErrorKind {
    UndefinedSymbol,
    DuplicateDefinition,
    TypeMismatch,
    AssignToImmutable,
    UseBeforeInitialization,
    UseAfterMove,
    ArgumentCountMismatch,
    MissingField,
    UnknownField,
    MissingEnumVariantValue,
    UnexpectedEnumVariantValue,
    ImportError,
    UnsupportedFeature,
    DuplicateCatchClause,
    InvalidType,
    InvalidOperation,
    ResourceLeak,
    MalformedConstruct,
    Internal,
}

/// What an error is: its kind, and the name it is about (the symbol,
/// variable, function, field, variant, module or feature; empty for a type
/// mismatch, a duplicate handler, an invalid type or an invalid operation,
/// the message for an internal error).
pub open spec fn fault_of(e: SemanticError) -> (ErrorKind, Seq<char>) {
    match e {
        SemanticError::UndefinedSymbol { symbol, .. } => (ErrorKind::UndefinedSymbol, symbol@),
        SemanticError::DuplicateDefinition { symbol, .. } => (ErrorKind::DuplicateDefinition, symbol@),
        SemanticError::TypeMismatch { .. } => (ErrorKind::TypeMismatch, Seq::empty()),
        SemanticError::AssignToImmutable { variable, .. } => (ErrorKind::AssignToImmutable, variable@),
        SemanticError::UseBeforeInitialization { variable, .. } => (ErrorKind::UseBeforeInitialization, variable@),
        SemanticError::UseAfterMove { variable, .. } => (ErrorKind::UseAfterMove, variable@),
        SemanticError::ArgumentCountMismatch { function, .. } => (ErrorKind::ArgumentCountMismatch, function@),
        SemanticError::MissingField { field_name, .. } => (ErrorKind::MissingField, field_name@),
        SemanticError::UnknownField { field_name, .. } => (ErrorKind::UnknownField, field_name@),
        SemanticError::MissingEnumVariantValue { variant, .. } => (ErrorKind::MissingEnumVariantValue, variant@),
        SemanticError::UnexpectedEnumVariantValue { variant, .. } => (ErrorKind::UnexpectedEnumVariantValue, variant@),
        SemanticError::ImportError { module, .. } => (ErrorKind::ImportError, module@),
        SemanticError::UnsupportedFeature { feature, .. } => (ErrorKind::UnsupportedFeature, feature@),
        SemanticError::DuplicateCatchClause { .. } => (ErrorKind::DuplicateCatchClause, Seq::empty()),
        SemanticError::InvalidType { .. } => (ErrorKind::InvalidType, Seq::empty()),
        SemanticError::InvalidOperation { .. } => (ErrorKind::InvalidOperation, Seq::empty()),
        SemanticError::ResourceLeak { binding, .. } => (ErrorKind::ResourceLeak, binding@),
        SemanticError::MalformedConstruct { .. } => (ErrorKind::MalformedConstruct, Seq::empty()),
        SemanticError::Internal { message } => (ErrorKind::Internal, message@),
    }
}

impl SemanticError {
    /// The kind of this error.
    pub fn kind(&self) -> (k: ErrorKind)
        ensures
            k == fault_of(*self).0,
    {
        match self {
            SemanticError::UndefinedSymbol { .. } => ErrorKind::UndefinedSymbol,
            SemanticError::DuplicateDefinition { .. } => ErrorKind::DuplicateDefinition,
            SemanticError::TypeMismatch { .. } => ErrorKind::TypeMismatch,
            SemanticError::AssignToImmutable { .. } => ErrorKind::AssignToImmutable,
            SemanticError::UseBeforeInitialization { .. } => ErrorKind::UseBeforeInitialization,
            SemanticError::UseAfterMove { .. } => ErrorKind::UseAfterMove,
            SemanticError::ArgumentCountMismatch { .. } => ErrorKind::ArgumentCountMismatch,
            SemanticError::MissingField { .. } => ErrorKind::MissingField,
            SemanticError::UnknownField { .. } => ErrorKind::UnknownField,
            SemanticError::MissingEnumVariantValue { .. } => ErrorKind::MissingEnumVariantValue,
            SemanticError::UnexpectedEnumVariantValue { .. } => ErrorKind::UnexpectedEnumVariantValue,
            SemanticError::ImportError { .. } => ErrorKind::ImportError,
            SemanticError::UnsupportedFeature { .. } => ErrorKind::UnsupportedFeature,
            SemanticError::DuplicateCatchClause { .. } => ErrorKind::DuplicateCatchClause,
            SemanticError::InvalidType { .. } => ErrorKind::InvalidType,
            SemanticError::InvalidOperation { .. } => ErrorKind::InvalidOperation,
            SemanticError::ResourceLeak { .. } => ErrorKind::ResourceLeak,
            SemanticError::MalformedConstruct { .. } => ErrorKind::MalformedConstruct,
            SemanticError::Internal { .. } => ErrorKind::Internal,
        }
    }

    /// A copy of this error.
    pub fn duplicate(&self) -> (r: SemanticError)
        ensures
            r == *self,
    {
        match self {
            SemanticError::UndefinedSymbol { symbol, location } =>
                SemanticError::UndefinedSymbol { symbol: symbol.clone(), location: location.duplicate() },
            SemanticError::DuplicateDefinition { symbol, location, previous_location } =>
                SemanticError::DuplicateDefinition {
                    symbol: symbol.clone(),
                    location: location.duplicate(),
                    previous_location: previous_location.duplicate(),
                },
            SemanticError::TypeMismatch { expected, found, location } =>
                SemanticError::TypeMismatch { expected: expected.clone(), found: found.clone(), location: location.duplicate() },
            SemanticError::AssignToImmutable { variable, location } =>
                SemanticError::AssignToImmutable { variable: variable.clone(), location: location.duplicate() },
            SemanticError::UseBeforeInitialization { variable, location } =>
                SemanticError::UseBeforeInitialization { variable: variable.clone(), location: location.duplicate() },
            SemanticError::UseAfterMove { variable, location } =>
                SemanticError::UseAfterMove { variable: variable.clone(), location: location.duplicate() },
            SemanticError::ArgumentCountMismatch { function, expected, found, location } =>
                SemanticError::ArgumentCountMismatch {
                    function: function.clone(),
                    expected: *expected,
                    found: *found,
                    location: location.duplicate(),
                },
            SemanticError::MissingField { struct_name, field_name, location } =>
                SemanticError::MissingField {
                    struct_name: struct_name.clone(),
                    field_name: field_name.clone(),
                    location: location.duplicate(),
                },
            SemanticError::UnknownField { struct_name, field_name, location } =>
                SemanticError::UnknownField {
                    struct_name: struct_name.clone(),
                    field_name: field_name.clone(),
                    location: location.duplicate(),
                },
            SemanticError::MissingEnumVariantValue { variant, enum_name, location } =>
                SemanticError::MissingEnumVariantValue {
                    variant: variant.clone(),
                    enum_name: enum_name.clone(),
                    location: location.duplicate(),
                },
            SemanticError::UnexpectedEnumVariantValue { variant, enum_name, location } =>
                SemanticError::UnexpectedEnumVariantValue {
                    variant: variant.clone(),
                    enum_name: enum_name.clone(),
                    location: location.duplicate(),
                },
            SemanticError::ImportError { module, reason, location } =>
                SemanticError::ImportError { module: module.clone(), reason: reason.clone(), location: location.duplicate() },
            SemanticError::UnsupportedFeature { feature, location } =>
                SemanticError::UnsupportedFeature { feature: feature.clone(), location: location.duplicate() },
            SemanticError::DuplicateCatchClause { exception_type, location } =>
                SemanticError::DuplicateCatchClause { exception_type: exception_type.clone(), location: location.duplicate() },
            SemanticError::InvalidType { invalid_type, reason, location } =>
                SemanticError::InvalidType {
                    invalid_type: invalid_type.clone(),
                    reason: reason.clone(),
                    location: location.duplicate(),
                },
            SemanticError::InvalidOperation { operation, reason, location } =>
                SemanticError::InvalidOperation {
                    operation: operation.clone(),
                    reason: reason.clone(),
                    location: location.duplicate(),
                },
            SemanticError::ResourceLeak { resource_type, binding, location } =>
                SemanticError::ResourceLeak {
                    resource_type: resource_type.clone(),
                    binding: binding.clone(),
                    location: location.duplicate(),
                },
            SemanticError::MalformedConstruct { construct, reason, location } =>
                SemanticError::MalformedConstruct {
                    construct: construct.clone(),
                    reason: reason.clone(),
                    location: location.duplicate(),
                },
            SemanticError::Internal { message } => SemanticError::Internal { message: message.clone() },
        }
    }
}

} // verus!
