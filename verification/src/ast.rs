//! Abstract syntax of AetherScript modules, as far as the standard library
//! descriptions and the semantic checks need it.

use vstd::prelude::*;

verus! {

/// A position in a source file.
#[derive(Debug, Clone)]
pub struct SourceLocation {
    pub file: String,
    pub line: usize,
    pub column: usize,
    pub offset: usize,
}

impl SourceLocation {
    /// The location used for synthesized items that have no source.
    pub fn unknown() -> (r: SourceLocation)
        ensures
            unlocated(r),
            r.file@ == "<unknown>"@,
            r.line == 0,
            r.column == 0,
            r.offset == 0,
    {
        SourceLocation { file: "<unknown>".to_owned(), line: 0, column: 0, offset: 0 }
    }

    /// A copy of this location.
    pub fn duplicate(&self) -> (r: SourceLocation)
        ensures
            r == *self,
    {
        SourceLocation { file: self.file.clone(), line: self.line, column: self.column, offset: self.offset }
    }
}

/// A name together with where it was written.
#[derive(Debug, Clone)]
pub struct Identifier {
    pub name: String,
    pub source_location: SourceLocation,
}

impl Identifier {
    pub fn new(name: String, source_location: SourceLocation) -> (r: Identifier)
        ensures
            r.name == name,
            r.source_location == source_location,
    {
        Identifier { name, source_location }
    }
}

/// Built-in scalar types.
#[derive(Debug, Clone, Copy, PartialEq, Eq, Structural)]
pub enum PrimitiveType {
    Integer,
    Integer32,
    Integer64,
    Float,
    Float32,
    Float64,
    String,
    Char,
    Boolean,
    Void,
    SizeT,
    UIntPtrT,
}

/// Written type annotations.
#[derive(Debug)]
pub enum TypeSpecifier {
    Primitive { prim: PrimitiveType, source_location: SourceLocation },
    Named { name: Identifier, source_location: SourceLocation },
    Array { element_type: Box<TypeSpecifier>, size: Option<u64>, source_location: SourceLocation },
    Mapping { key_type: Box<TypeSpecifier>, value_type: Box<TypeSpecifier>, source_location: SourceLocation },
    Pointer { target_type: Box<TypeSpecifier>, is_mutable: bool, source_location: SourceLocation },
    Function {
        parameter_types: Vec<Box<TypeSpecifier>>,
        return_type: Box<TypeSpecifier>,
        source_location: SourceLocation,
    },
    TypeParameter { name: Identifier, constraints: Vec<Identifier>, source_location: SourceLocation },
}

/// Calling conventions of external functions.
#[derive(Debug, Clone, Copy, PartialEq, Eq, Structural)]
pub enum CallingConvention {
    C,
    StdCall,
    FastCall,
    System,
}

/// How an argument is handed to a function.
#[derive(Debug, Clone, Copy, PartialEq, Eq, Structural)]
pub enum PassingMode {
    ByValue,
    ByReference,
    ByMutableReference,
}

/// Mutability of a variable declaration.
#[derive(Debug, Clone, Copy, PartialEq, Eq, Structural)]
pub enum Mutability {
    Mutable,
    Immutable,
}

/// How a function is referred to in a call.
#[derive(Debug)]
pub enum FunctionReference {
    /// A function of the current module, or one in scope.
    Local { name: Identifier },
    /// A function of another module, `module.name`.
    Qualified { module: Identifier, name: Identifier },
    /// An external function called by its name.
    External { name: Identifier },
}

/// A named argument of a call.
#[derive(Debug)]
pub struct Argument {
    pub parameter_name: Identifier,
    pub value: Box<Expression>,
    pub source_location: SourceLocation,
}

/// A call of a function.
#[derive(Debug)]
pub struct FunctionCall {
    pub function_reference: FunctionReference,
    pub arguments: Vec<Argument>,
    pub variadic_arguments: Vec<Box<Expression>>,
}

/// The value given to one field in a struct construction.
#[derive(Debug)]
pub struct FieldValue {
    pub field_name: Identifier,
    pub value: Box<Expression>,
    pub source_location: SourceLocation,
}

/// One key and value of a map literal.
#[derive(Debug)]
pub struct MapEntry {
    pub key: Box<Expression>,
    pub value: Box<Expression>,
    pub source_location: SourceLocation,
}

/// What a failed conversion does at run time.
#[derive(Debug, Clone, Copy, PartialEq, Eq, Structural)]
pub enum FailureBehavior {
    ThrowException,
    ReturnDefault,
}

/// The direction of pointer arithmetic.
#[derive(Debug, Clone, Copy, PartialEq, Eq, Structural)]
pub enum PointerOp {
    Add,
    Subtract,
}

/// Expressions.
#[derive(Debug)]
pub enum Expression {
    IntegerLiteral { value: i64, source_location: SourceLocation },
    /// A floating point literal, held as the bit pattern of its `f64` value.
    FloatLiteral { bits: u64, source_location: SourceLocation },
    StringLiteral { value: String, source_location: SourceLocation },
    CharacterLiteral { value: char, source_location: SourceLocation },
    BooleanLiteral { value: bool, source_location: SourceLocation },
    NullLiteral { source_location: SourceLocation },
    Variable { name: Identifier, source_location: SourceLocation },
    Add { left: Box<Expression>, right: Box<Expression>, source_location: SourceLocation },
    Subtract { left: Box<Expression>, right: Box<Expression>, source_location: SourceLocation },
    Multiply { left: Box<Expression>, right: Box<Expression>, source_location: SourceLocation },
    Divide { left: Box<Expression>, right: Box<Expression>, source_location: SourceLocation },
    Modulo { left: Box<Expression>, right: Box<Expression>, source_location: SourceLocation },
    FunctionCall { call: FunctionCall, source_location: SourceLocation },
    StringConcat { operands: Vec<Box<Expression>>, source_location: SourceLocation },
    StringLength { string: Box<Expression>, source_location: SourceLocation },
    StringCharAt { string: Box<Expression>, index: Box<Expression>, source_location: SourceLocation },
    Substring {
        string: Box<Expression>,
        start_index: Box<Expression>,
        length: Box<Expression>,
        source_location: SourceLocation,
    },
    StringEquals { left: Box<Expression>, right: Box<Expression>, source_location: SourceLocation },
    StringContains { haystack: Box<Expression>, needle: Box<Expression>, source_location: SourceLocation },
    ArrayLiteral { element_type: Box<TypeSpecifier>, elements: Vec<Box<Expression>>, source_location: SourceLocation },
    ArrayAccess { array: Box<Expression>, index: Box<Expression>, source_location: SourceLocation },
    ArrayLength { array: Box<Expression>, source_location: SourceLocation },
    StructConstruct { struct_name: Identifier, field_values: Vec<FieldValue>, source_location: SourceLocation },
    FieldAccess { instance: Box<Expression>, field_name: Identifier, source_location: SourceLocation },
    Equals { left: Box<Expression>, right: Box<Expression>, source_location: SourceLocation },
    NotEquals { left: Box<Expression>, right: Box<Expression>, source_location: SourceLocation },
    LessThan { left: Box<Expression>, right: Box<Expression>, source_location: SourceLocation },
    GreaterThan { left: Box<Expression>, right: Box<Expression>, source_location: SourceLocation },
    LogicalAnd { left: Box<Expression>, right: Box<Expression>, source_location: SourceLocation },
    LogicalOr { left: Box<Expression>, right: Box<Expression>, source_location: SourceLocation },
    LogicalNot { operand: Box<Expression>, source_location: SourceLocation },
    EnumVariant {
        enum_name: Identifier,
        variant_name: Identifier,
        value: Option<Box<Expression>>,
        source_location: SourceLocation,
    },
    TypeCast {
        value: Box<Expression>,
        target_type: Box<TypeSpecifier>,
        failure_behavior: FailureBehavior,
        source_location: SourceLocation,
    },
    AddressOf { operand: Box<Expression>, source_location: SourceLocation },
    Dereference { pointer: Box<Expression>, source_location: SourceLocation },
    PointerArithmetic {
        pointer: Box<Expression>,
        offset: Box<Expression>,
        operation: PointerOp,
        source_location: SourceLocation,
    },
    MapLiteral {
        key_type: Box<TypeSpecifier>,
        value_type: Box<TypeSpecifier>,
        entries: Vec<MapEntry>,
        source_location: SourceLocation,
    },
    MapAccess { map: Box<Expression>, key: Box<Expression>, source_location: SourceLocation },
    Match { value: Box<Expression>, cases: Vec<MatchCase>, source_location: SourceLocation },
}

/// What a case of a `match` expression matches.
#[derive(Debug)]
pub enum Pattern {
    /// A variant of an enumeration, binding the value it carries or matching
    /// it against a nested pattern.
    EnumVariant {
        enum_name: Option<Identifier>,
        variant_name: Identifier,
        binding: Option<Identifier>,
        nested_pattern: Option<Box<Pattern>>,
        source_location: SourceLocation,
    },
    /// Any value, optionally bound to a name.
    Wildcard { binding: Option<Identifier>, source_location: SourceLocation },
    /// A literal value.
    Literal { value: Box<Expression>, source_location: SourceLocation },
}

/// A case of a `match` expression.
#[derive(Debug)]
pub struct MatchCase {
    pub pattern: Pattern,
    pub body: Box<Expression>,
    pub source_location: SourceLocation,
}

/// How an acquired resource is released when its scope ends.
#[derive(Debug)]
pub enum CleanupSpecification {
    /// A call of the named function, with the resource as its argument when
    /// `pass_resource` holds.
    Function { name: String, pass_resource: bool },
}

/// A resource acquired at the start of a resource scope and bound to a name.
#[derive(Debug)]
pub struct ResourceAcquisition {
    pub resource_type: String,
    pub binding: Identifier,
    pub acquisition: Expression,
    pub cleanup: CleanupSpecification,
    pub type_spec: Option<Box<TypeSpecifier>>,
    pub parameters: Vec<Argument>,
}

/// A scope whose resources are acquired on entry and released, in reverse
/// order, on exit.
#[derive(Debug)]
pub struct ResourceScope {
    pub scope_id: String,
    pub resources: Vec<ResourceAcquisition>,
    pub body: Block,
    pub source_location: SourceLocation,
}

/// A contract clause attached to a function.
#[derive(Debug)]
pub struct ContractAssertion {
    pub condition: Box<Expression>,
    pub message: Option<String>,
    pub source_location: SourceLocation,
}

/// Contract and behaviour annotations of a function.
#[derive(Debug)]
pub struct FunctionMetadata {
    pub preconditions: Vec<ContractAssertion>,
    pub postconditions: Vec<ContractAssertion>,
    pub invariants: Vec<ContractAssertion>,
    pub algorithm_hint: Option<String>,
    pub throws_exceptions: Vec<TypeSpecifier>,
    pub thread_safe: Option<bool>,
    pub may_block: Option<bool>,
}

/// The place an assignment writes to.
#[derive(Debug)]
pub enum AssignmentTarget {
    Variable { name: Identifier },
    MapValue { map: Box<Expression>, key: Box<Expression> },
    ArrayElement { array: Box<Expression>, index: Box<Expression> },
    StructField { instance: Box<Expression>, field_name: Identifier },
}

/// An `else if` branch.
#[derive(Debug)]
pub struct ElseIf {
    pub condition: Box<Expression>,
    pub block: Block,
    pub source_location: SourceLocation,
}

/// A handler of a `try` block for one exception type.
#[derive(Debug)]
pub struct CatchClause {
    pub exception_type: Box<TypeSpecifier>,
    pub binding_variable: Option<Identifier>,
    pub handler_block: Block,
    pub source_location: SourceLocation,
}

/// Statements.
#[derive(Debug)]
pub enum Statement {
    VariableDeclaration {
        name: Identifier,
        type_spec: Box<TypeSpecifier>,
        mutability: Mutability,
        initial_value: Option<Box<Expression>>,
        intent: Option<String>,
        source_location: SourceLocation,
    },
    Assignment { target: AssignmentTarget, value: Box<Expression>, source_location: SourceLocation },
    Return { value: Option<Box<Expression>>, source_location: SourceLocation },
    FunctionCall { call: FunctionCall, source_location: SourceLocation },
    If {
        condition: Box<Expression>,
        then_block: Block,
        else_ifs: Vec<ElseIf>,
        else_block: Option<Block>,
        source_location: SourceLocation,
    },
    WhileLoop {
        condition: Box<Expression>,
        body: Block,
        invariant: Option<String>,
        label: Option<Identifier>,
        source_location: SourceLocation,
    },
    ForEachLoop {
        collection: Box<Expression>,
        element_binding: Identifier,
        element_type: Box<TypeSpecifier>,
        index_binding: Option<Identifier>,
        body: Block,
        label: Option<Identifier>,
        source_location: SourceLocation,
    },
    FixedIterationLoop {
        counter: Identifier,
        from_value: Box<Expression>,
        to_value: Box<Expression>,
        step_value: Option<Box<Expression>>,
        inclusive: bool,
        body: Block,
        label: Option<Identifier>,
        source_location: SourceLocation,
    },
    TryBlock {
        protected_block: Block,
        catch_clauses: Vec<CatchClause>,
        finally_block: Option<Block>,
        source_location: SourceLocation,
    },
    Throw { exception: Box<Expression>, source_location: SourceLocation },
    ResourceScope { scope: ResourceScope, source_location: SourceLocation },
    Break { target_label: Option<Identifier>, source_location: SourceLocation },
    Continue { target_label: Option<Identifier>, source_location: SourceLocation },
    Expression { expr: Box<Expression>, source_location: SourceLocation },
}

/// A sequence of statements.
#[derive(Debug)]
pub struct Block {
    pub statements: Vec<Statement>,
    pub source_location: SourceLocation,
}

/// A function parameter.
#[derive(Debug)]
pub struct Parameter {
    pub name: Identifier,
    pub param_type: Box<TypeSpecifier>,
    pub intent: Option<String>,
    pub passing_mode: PassingMode,
    pub source_location: SourceLocation,
}

/// A function defined in AetherScript.
#[derive(Debug)]
pub struct Function {
    pub name: Identifier,
    pub intent: Option<String>,
    pub generic_parameters: Vec<Identifier>,
    pub parameters: Vec<Parameter>,
    pub return_type: Box<TypeSpecifier>,
    pub metadata: FunctionMetadata,
    pub body: Block,
    pub source_location: SourceLocation,
}

/// A function implemented outside AetherScript and bound by name.
#[derive(Debug)]
pub struct ExternalFunction {
    pub name: Identifier,
    pub library: String,
    pub symbol: Option<String>,
    pub parameters: Vec<Parameter>,
    pub return_type: Box<TypeSpecifier>,
    pub calling_convention: CallingConvention,
    pub thread_safe: bool,
    pub may_block: bool,
    pub variadic: bool,
    pub source_location: SourceLocation,
}

/// A named constant.
#[derive(Debug)]
pub struct ConstantDeclaration {
    pub name: Identifier,
    pub type_spec: Box<TypeSpecifier>,
    pub value: Box<Expression>,
    pub intent: Option<String>,
    pub source_location: SourceLocation,
}

/// A field of a structured type.
#[derive(Debug)]
pub struct StructField {
    pub name: Identifier,
    pub field_type: Box<TypeSpecifier>,
    pub source_location: SourceLocation,
}

/// A variant of an enumeration, with the type of the value it carries.
#[derive(Debug)]
pub struct EnumVariant {
    pub name: Identifier,
    pub associated_type: Option<Box<TypeSpecifier>>,
    pub source_location: SourceLocation,
}

/// User-defined types.
#[derive(Debug)]
pub enum TypeDefinition {
    Structured { name: Identifier, fields: Vec<StructField>, source_location: SourceLocation },
    Enumeration { name: Identifier, variants: Vec<EnumVariant>, source_location: SourceLocation },
    Alias { new_name: Identifier, original_type: Box<TypeSpecifier>, source_location: SourceLocation },
}

/// An import of another module.
#[derive(Debug)]
pub struct ImportStatement {
    pub module_name: Identifier,
    pub alias: Option<Identifier>,
    pub source_location: SourceLocation,
}

/// An item a module makes visible to its importers.
#[derive(Debug)]
pub enum ExportStatement {
    Function { name: Identifier, source_location: SourceLocation },
    Type { name: Identifier, source_location: SourceLocation },
    Constant { name: Identifier, source_location: SourceLocation },
}

/// A module.
#[derive(Debug)]
pub struct Module {
    pub name: Identifier,
    pub intent: Option<String>,
    pub imports: Vec<ImportStatement>,
    pub exports: Vec<ExportStatement>,
    pub type_definitions: Vec<TypeDefinition>,
    pub constant_declarations: Vec<ConstantDeclaration>,
    pub function_definitions: Vec<Function>,
    pub external_functions: Vec<ExternalFunction>,
    pub source_location: SourceLocation,
}

/// A whole program.
#[derive(Debug)]
pub struct Program {
    pub modules: Vec<Module>,
    pub source_location: SourceLocation,
}

/// The name an export statement refers to.
pub open spec fn export_name(e: ExportStatement) -> Seq<char> {
    match e {
        ExportStatement::Function { name, .. } => name.name@,
        ExportStatement::Type { name, .. } => name.name@,
        ExportStatement::Constant { name, .. } => name.name@,
    }
}

/// The primitive type a type annotation names, if it names one.
pub open spec fn primitive_of(t: TypeSpecifier) -> Option<PrimitiveType> {
    match t {
        TypeSpecifier::Primitive { prim, .. } => Some(prim),
        _ => None,
    }
}

/// A type annotation as a mathematical value, without source locations:
/// names are character sequences and lists are sequences.
pub enum SpecifierView {
    Primitive(PrimitiveType),
    Named(Seq<char>),
    Array(Box<SpecifierView>, Option<u64>),
    Mapping(Box<SpecifierView>, Box<SpecifierView>),
    Pointer(Box<SpecifierView>, bool),
    Function(Seq<SpecifierView>, Box<SpecifierView>),
    TypeParameter(Seq<char>, Seq<Seq<char>>),
}

/// The view of a type annotation.
pub open spec fn specifier_view(t: TypeSpecifier) -> SpecifierView
    decreases t,
{
    match t {
        TypeSpecifier::Primitive { prim, .. } => SpecifierView::Primitive(prim),
        TypeSpecifier::Named { name, .. } => SpecifierView::Named(name.name@),
        TypeSpecifier::Array { element_type, size, .. } =>
            SpecifierView::Array(Box::new(specifier_view(*element_type)), size),
        TypeSpecifier::Mapping { key_type, value_type, .. } =>
            SpecifierView::Mapping(Box::new(specifier_view(*key_type)), Box::new(specifier_view(*value_type))),
        TypeSpecifier::Pointer { target_type, is_mutable, .. } =>
            SpecifierView::Pointer(Box::new(specifier_view(*target_type)), is_mutable),
        TypeSpecifier::Function { parameter_types, return_type, .. } =>
            SpecifierView::Function(specifier_views(parameter_types@), Box::new(specifier_view(*return_type))),
        TypeSpecifier::TypeParameter { name, constraints, .. } =>
            SpecifierView::TypeParameter(name.name@, constraints@.map_values(|c: Identifier| c.name@)),
    }
}

/// The views of a list of type annotations.
pub open spec fn specifier_views(s: Seq<Box<TypeSpecifier>>) -> Seq<SpecifierView>
    decreases s,
{
    if s.len() == 0 {
        Seq::empty()
    } else {
        seq![specifier_view(*s[0])] + specifier_views(s.subrange(1, s.len() as int))
    }
}

/// The views of a list of type annotations, one by one.
pub proof fn lemma_specifier_views(s: Seq<Box<TypeSpecifier>>)
    ensures
        specifier_views(s) == s.map_values(|b: Box<TypeSpecifier>| specifier_view(*b)),
    decreases s.len(),
{
    if s.len() > 0 {
        lemma_specifier_views(s.subrange(1, s.len() as int));
        assert(specifier_views(s) =~= s.map_values(|b: Box<TypeSpecifier>| specifier_view(*b)));
    } else {
        assert(specifier_views(s) =~= s.map_values(|b: Box<TypeSpecifier>| specifier_view(*b)));
    }
}

/// Whether a location is the one given to synthesized items:
/// `<unknown>`, line, column and offset zero.
pub open spec fn unlocated(l: SourceLocation) -> bool {
    l.file@ == "<unknown>"@ && l.line == 0 && l.column == 0 && l.offset == 0
}

/// Whether a type annotation, and every annotation and name inside it,
/// carries the location of synthesized items.
pub open spec fn annotation_unlocated(t: TypeSpecifier) -> bool
    decreases t,
{
    match t {
        TypeSpecifier::Primitive { source_location, .. } => unlocated(source_location),
        TypeSpecifier::Named { name, source_location } => unlocated(name.source_location) && unlocated(source_location),
        TypeSpecifier::Array { element_type, source_location, .. } =>
            annotation_unlocated(*element_type) && unlocated(source_location),
        TypeSpecifier::Mapping { key_type, value_type, source_location } =>
            annotation_unlocated(*key_type) && annotation_unlocated(*value_type) && unlocated(source_location),
        TypeSpecifier::Pointer { target_type, source_location, .. } =>
            annotation_unlocated(*target_type) && unlocated(source_location),
        TypeSpecifier::Function { parameter_types, return_type, source_location } =>
            annotations_unlocated(parameter_types@) && annotation_unlocated(*return_type) && unlocated(source_location),
        TypeSpecifier::TypeParameter { name, constraints, source_location } => unlocated(name.source_location)
            && unlocated(source_location) && forall|i: int| 0 <= i < constraints@.len() ==> unlocated(
            #[trigger] constraints@[i].source_location,
        ),
    }
}

/// Whether each annotation of a list is `annotation_unlocated`.
pub open spec fn annotations_unlocated(s: Seq<Box<TypeSpecifier>>) -> bool
    decreases s,
{
    if s.len() == 0 {
        true
    } else {
        annotation_unlocated(*s[0]) && annotations_unlocated(s.subrange(1, s.len() as int))
    }
}

} // verus!
