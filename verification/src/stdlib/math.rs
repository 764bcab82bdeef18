//! `std.math`: mathematical functions and constants.

use vstd::prelude::*;
use crate::ast::unlocated;
use crate::ast::{CallingConvention, ConstantDeclaration, ExportStatement, Expression, ExternalFunction, Function, Identifier, Module, PrimitiveType, SourceLocation};
use super::{annot_prim, const_names, create_external_function_named, create_function_stub, export_constant, export_names, ext_names, ext_param_names, ext_param_types, ext_return_types, ext_symbols, fn_names, fn_param_names, fn_param_types, fn_return_types, param_names, param_types, plain_export, plain_external, primitive, stub_function};
use crate::ast::{annotation_unlocated, primitive_of, specifier_view, SpecifierView};

verus! {

/// A floating point constant of type `Float`, its value given by the bit
/// pattern of the `f64`.
fn float_constant(name: &str, bits: u64) -> (c: ConstantDeclaration)
    ensures
        c.name.name@ == name@,
        primitive_of(*c.type_spec) == Some(PrimitiveType::Float),
        specifier_view(*c.type_spec) == annot_prim(PrimitiveType::Float),
        *c.value matches Expression::FloatLiteral { bits: b, .. } && b == bits,
        c.intent.is_none(),
        plain_float_constant(c),
{
    ConstantDeclaration {
        name: Identifier::new(name.to_owned(), SourceLocation::unknown()),
        type_spec: Box::new(primitive(PrimitiveType::Float)),
        value: Box::new(Expression::FloatLiteral { bits, source_location: SourceLocation::unknown() }),
        intent: None,
        source_location: SourceLocation::unknown(),
    }
}

/// Whether a constant has no intent and carries the location of
/// synthesized items, in its name, its type annotation and its value too.
pub open spec fn plain_float_constant(c: ConstantDeclaration) -> bool {
    &&& c.intent.is_none()
    &&& unlocated(c.name.source_location)
    &&& unlocated(c.source_location)
    &&& annotation_unlocated(*c.type_spec)
    &&& *c.value matches Expression::FloatLiteral { source_location, .. } && unlocated(source_location)
}

/// The type annotations of the constants, in order of declaration.
pub open spec fn const_types(cs: Seq<ConstantDeclaration>) -> Seq<SpecifierView> {
    cs.map_values(|c: ConstantDeclaration| specifier_view(*c.type_spec))
}

/// The bit patterns of the constants, in order of declaration.
pub open spec fn const_bits(cs: Seq<ConstantDeclaration>) -> Seq<Option<u64>> {
    cs.map_values(|c: ConstantDeclaration| match *c.value {
        Expression::FloatLiteral { bits, .. } => Some(bits),
        _ => None,
    })
}

/// Whether `m` is the `std.math` module as the standard library describes it:
/// its name and intent, its external functions (names, runtime symbols,
/// parameters and return types), its function definitions, its constants
/// and its exports.
#[verifier::opaque]
pub open spec fn is_math_module(m: Module) -> bool {
    &&& unlocated(m.source_location)
    &&& unlocated(m.name.source_location)
    &&& forall|i: int| 0 <= i < m.exports@.len() ==> plain_export(#[trigger] m.exports@[i])
    &&& m.name.name@ == "std.math"@
    &&& m.intent matches Some(s) && s@ == "Provides mathematical functions and constants for numerical computations"@
    &&& m.imports@.len() == 0
    &&& m.type_definitions@.len() == 0
    &&& export_names(m.exports@) == seq!["PI"@]
    &&& m.exports@[0] is Constant
    &&& ext_names(m.external_functions@) == seq!["sqrt"@, "pow"@, "exp"@, "log"@, "log10"@, "log2"@, "sin"@, "cos"@, "tan"@, "asin"@, "acos"@, "atan"@, "atan2"@, "sinh"@, "cosh"@, "tanh"@, "floor"@, "ceil"@, "round"@, "fabs"@, "fmod"@]
    &&& ext_symbols(m.external_functions@) == seq![Some("aether_sqrt"@), Some("aether_pow"@), Some("aether_exp"@), Some("aether_log"@), Some("aether_log10"@), Some("aether_log2"@), Some("aether_sin"@), Some("aether_cos"@), Some("aether_tan"@), Some("aether_asin"@), Some("aether_acos"@), Some("aether_atan"@), Some("aether_atan2"@), Some("aether_sinh"@), Some("aether_cosh"@), Some("aether_tanh"@), Some("aether_floor"@), Some("aether_ceil"@), Some("aether_round"@), Some("aether_fabs"@), Some("aether_fmod"@)]
    &&& ext_param_names(m.external_functions@) == seq![seq!["x"@], seq!["base"@, "exponent"@], seq!["x"@], seq!["x"@], seq!["x"@], seq!["x"@], seq!["x"@], seq!["x"@], seq!["x"@], seq!["x"@], seq!["x"@], seq!["x"@], seq!["y"@, "x"@], seq!["x"@], seq!["x"@], seq!["x"@], seq!["x"@], seq!["x"@], seq!["x"@], seq!["x"@], seq!["x"@, "y"@]]
    &&& fn_names(m.function_definitions@) == seq!["abs"@, "min"@, "max"@, "clamp"@, "lerp"@, "radians"@, "degrees"@, "sign"@, "is_nan"@, "is_infinite"@, "is_finite"@, "gcd"@, "lcm"@, "factorial"@, "fibonacci"@]
    &&& fn_param_names(m.function_definitions@) == seq![seq!["x"@], seq!["a"@, "b"@], seq!["a"@, "b"@], seq!["value"@, "min_val"@, "max_val"@], seq!["a"@, "b"@, "t"@], seq!["degrees"@], seq!["radians"@], seq!["x"@], seq!["x"@], seq!["x"@], seq!["x"@], seq!["a"@, "b"@], seq!["a"@, "b"@], seq!["n"@], seq!["n"@]]
    &&& const_names(m.constant_declarations@) == seq!["PI"@, "E"@, "TAU"@, "SQRT_2"@, "LN_2"@, "LN_10"@]
    &&& const_bits(m.constant_declarations@) == seq![Some(0x400921fb54442d18u64), Some(0x4005bf0a8b145769u64), Some(0x401921fb54442d18u64), Some(0x3ff6a09e667f3bcdu64), Some(0x3fe62e42fefa39efu64), Some(0x40026bb1bbb55516u64)]
    &&& ext_param_types(m.external_functions@) == seq![seq![annot_prim(PrimitiveType::Float)], seq![annot_prim(PrimitiveType::Float), annot_prim(PrimitiveType::Float)], seq![annot_prim(PrimitiveType::Float)], seq![annot_prim(PrimitiveType::Float)], seq![annot_prim(PrimitiveType::Float)], seq![annot_prim(PrimitiveType::Float)], seq![annot_prim(PrimitiveType::Float)], seq![annot_prim(PrimitiveType::Float)], seq![annot_prim(PrimitiveType::Float)], seq![annot_prim(PrimitiveType::Float)], seq![annot_prim(PrimitiveType::Float)], seq![annot_prim(PrimitiveType::Float)], seq![annot_prim(PrimitiveType::Float), annot_prim(PrimitiveType::Float)], seq![annot_prim(PrimitiveType::Float)], seq![annot_prim(PrimitiveType::Float)], seq![annot_prim(PrimitiveType::Float)], seq![annot_prim(PrimitiveType::Float)], seq![annot_prim(PrimitiveType::Float)], seq![annot_prim(PrimitiveType::Float)], seq![annot_prim(PrimitiveType::Float)], seq![annot_prim(PrimitiveType::Float), annot_prim(PrimitiveType::Float)]]
    &&& ext_return_types(m.external_functions@) == seq![annot_prim(PrimitiveType::Float), annot_prim(PrimitiveType::Float), annot_prim(PrimitiveType::Float), annot_prim(PrimitiveType::Float), annot_prim(PrimitiveType::Float), annot_prim(PrimitiveType::Float), annot_prim(PrimitiveType::Float), annot_prim(PrimitiveType::Float), annot_prim(PrimitiveType::Float), annot_prim(PrimitiveType::Float), annot_prim(PrimitiveType::Float), annot_prim(PrimitiveType::Float), annot_prim(PrimitiveType::Float), annot_prim(PrimitiveType::Float), annot_prim(PrimitiveType::Float), annot_prim(PrimitiveType::Float), annot_prim(PrimitiveType::Float), annot_prim(PrimitiveType::Float), annot_prim(PrimitiveType::Float), annot_prim(PrimitiveType::Float), annot_prim(PrimitiveType::Float)]
    &&& fn_param_types(m.function_definitions@) == seq![seq![annot_prim(PrimitiveType::Float)], seq![annot_prim(PrimitiveType::Float), annot_prim(PrimitiveType::Float)], seq![annot_prim(PrimitiveType::Float), annot_prim(PrimitiveType::Float)], seq![annot_prim(PrimitiveType::Float), annot_prim(PrimitiveType::Float), annot_prim(PrimitiveType::Float)], seq![annot_prim(PrimitiveType::Float), annot_prim(PrimitiveType::Float), annot_prim(PrimitiveType::Float)], seq![annot_prim(PrimitiveType::Float)], seq![annot_prim(PrimitiveType::Float)], seq![annot_prim(PrimitiveType::Float)], seq![annot_prim(PrimitiveType::Float)], seq![annot_prim(PrimitiveType::Float)], seq![annot_prim(PrimitiveType::Float)], seq![annot_prim(PrimitiveType::Integer), annot_prim(PrimitiveType::Integer)], seq![annot_prim(PrimitiveType::Integer), annot_prim(PrimitiveType::Integer)], seq![annot_prim(PrimitiveType::Integer)], seq![annot_prim(PrimitiveType::Integer)]]
    &&& fn_return_types(m.function_definitions@) == seq![annot_prim(PrimitiveType::Float), annot_prim(PrimitiveType::Float), annot_prim(PrimitiveType::Float), annot_prim(PrimitiveType::Float), annot_prim(PrimitiveType::Float), annot_prim(PrimitiveType::Float), annot_prim(PrimitiveType::Float), annot_prim(PrimitiveType::Integer), annot_prim(PrimitiveType::Boolean), annot_prim(PrimitiveType::Boolean), annot_prim(PrimitiveType::Boolean), annot_prim(PrimitiveType::Integer), annot_prim(PrimitiveType::Integer), annot_prim(PrimitiveType::Integer), annot_prim(PrimitiveType::Integer)]
    &&& forall|i: int| 0 <= i < m.external_functions@.len() ==> plain_external(#[trigger] m.external_functions@[i])
    &&& forall|i: int| 0 <= i < m.function_definitions@.len() ==> stub_function(#[trigger] m.function_definitions@[i])
    &&& const_types(m.constant_declarations@) == seq![annot_prim(PrimitiveType::Float), annot_prim(PrimitiveType::Float), annot_prim(PrimitiveType::Float), annot_prim(PrimitiveType::Float), annot_prim(PrimitiveType::Float), annot_prim(PrimitiveType::Float)]
    &&& forall|i: int| 0 <= i < m.constant_declarations@.len() ==> plain_float_constant(#[trigger] m.constant_declarations@[i])
}

/// Describes the `std.math` module: its external functions, its function
/// definitions, its constants and its exports.
#[verifier::rlimit(50)]
pub fn create_math_module() -> (m: Module)
    ensures
        is_math_module(m),
        m.name.name@ == "std.math"@,
{
    let external_functions: Vec<ExternalFunction> = vec![
        create_external_function_named(
            "sqrt",
            "aether_sqrt",
            vec![("x", primitive(PrimitiveType::Float))],
            primitive(PrimitiveType::Float),
            CallingConvention::C,
        ),
        create_external_function_named(
            "pow",
            "aether_pow",
            vec![("base", primitive(PrimitiveType::Float)), ("exponent", primitive(PrimitiveType::Float))],
            primitive(PrimitiveType::Float),
            CallingConvention::C,
        ),
        create_external_function_named(
            "exp",
            "aether_exp",
            vec![("x", primitive(PrimitiveType::Float))],
            primitive(PrimitiveType::Float),
            CallingConvention::C,
        ),
        create_external_function_named(
            "log",
            "aether_log",
            vec![("x", primitive(PrimitiveType::Float))],
            primitive(PrimitiveType::Float),
            CallingConvention::C,
        ),
        create_external_function_named(
            "log10",
            "aether_log10",
            vec![("x", primitive(PrimitiveType::Float))],
            primitive(PrimitiveType::Float),
            CallingConvention::C,
        ),
        create_external_function_named(
            "log2",
            "aether_log2",
            vec![("x", primitive(PrimitiveType::Float))],
            primitive(PrimitiveType::Float),
            CallingConvention::C,
        ),
        create_external_function_named(
            "sin",
            "aether_sin",
            vec![("x", primitive(PrimitiveType::Float))],
            primitive(PrimitiveType::Float),
            CallingConvention::C,
        ),
        create_external_function_named(
            "cos",
            "aether_cos",
            vec![("x", primitive(PrimitiveType::Float))],
            primitive(PrimitiveType::Float),
            CallingConvention::C,
        ),
        create_external_function_named(
            "tan",
            "aether_tan",
            vec![("x", primitive(PrimitiveType::Float))],
            primitive(PrimitiveType::Float),
            CallingConvention::C,
        ),
        create_external_function_named(
            "asin",
            "aether_asin",
            vec![("x", primitive(PrimitiveType::Float))],
            primitive(PrimitiveType::Float),
            CallingConvention::C,
        ),
        create_external_function_named(
            "acos",
            "aether_acos",
            vec![("x", primitive(PrimitiveType::Float))],
            primitive(PrimitiveType::Float),
            CallingConvention::C,
        ),
        create_external_function_named(
            "atan",
            "aether_atan",
            vec![("x", primitive(PrimitiveType::Float))],
            primitive(PrimitiveType::Float),
            CallingConvention::C,
        ),
        create_external_function_named(
            "atan2",
            "aether_atan2",
            vec![("y", primitive(PrimitiveType::Float)), ("x", primitive(PrimitiveType::Float))],
            primitive(PrimitiveType::Float),
            CallingConvention::C,
        ),
        create_external_function_named(
            "sinh",
            "aether_sinh",
            vec![("x", primitive(PrimitiveType::Float))],
            primitive(PrimitiveType::Float),
            CallingConvention::C,
        ),
        create_external_function_named(
            "cosh",
            "aether_cosh",
            vec![("x", primitive(PrimitiveType::Float))],
            primitive(PrimitiveType::Float),
            CallingConvention::C,
        ),
        create_external_function_named(
            "tanh",
            "aether_tanh",
            vec![("x", primitive(PrimitiveType::Float))],
            primitive(PrimitiveType::Float),
            CallingConvention::C,
        ),
        create_external_function_named(
            "floor",
            "aether_floor",
            vec![("x", primitive(PrimitiveType::Float))],
            primitive(PrimitiveType::Float),
            CallingConvention::C,
        ),
        create_external_function_named(
            "ceil",
            "aether_ceil",
            vec![("x", primitive(PrimitiveType::Float))],
            primitive(PrimitiveType::Float),
            CallingConvention::C,
        ),
        create_external_function_named(
            "round",
            "aether_round",
            vec![("x", primitive(PrimitiveType::Float))],
            primitive(PrimitiveType::Float),
            CallingConvention::C,
        ),
        create_external_function_named(
            "fabs",
            "aether_fabs",
            vec![("x", primitive(PrimitiveType::Float))],
            primitive(PrimitiveType::Float),
            CallingConvention::C,
        ),
        create_external_function_named(
            "fmod",
            "aether_fmod",
            vec![("x", primitive(PrimitiveType::Float)), ("y", primitive(PrimitiveType::Float))],
            primitive(PrimitiveType::Float),
            CallingConvention::C,
        ),
    ];
    let function_definitions: Vec<Function> = vec![
        create_function_stub("abs", vec![("x", primitive(PrimitiveType::Float))], primitive(PrimitiveType::Float)),
        create_function_stub("min", vec![("a", primitive(PrimitiveType::Float)), ("b", primitive(PrimitiveType::Float))], primitive(PrimitiveType::Float)),
        create_function_stub("max", vec![("a", primitive(PrimitiveType::Float)), ("b", primitive(PrimitiveType::Float))], primitive(PrimitiveType::Float)),
        create_function_stub("clamp", vec![("value", primitive(PrimitiveType::Float)), ("min_val", primitive(PrimitiveType::Float)), ("max_val", primitive(PrimitiveType::Float))], primitive(PrimitiveType::Float)),
        create_function_stub("lerp", vec![("a", primitive(PrimitiveType::Float)), ("b", primitive(PrimitiveType::Float)), ("t", primitive(PrimitiveType::Float))], primitive(PrimitiveType::Float)),
        create_function_stub("radians", vec![("degrees", primitive(PrimitiveType::Float))], primitive(PrimitiveType::Float)),
        create_function_stub("degrees", vec![("radians", primitive(PrimitiveType::Float))], primitive(PrimitiveType::Float)),
        create_function_stub("sign", vec![("x", primitive(PrimitiveType::Float))], primitive(PrimitiveType::Integer)),
        create_function_stub("is_nan", vec![("x", primitive(PrimitiveType::Float))], primitive(PrimitiveType::Boolean)),
        create_function_stub("is_infinite", vec![("x", primitive(PrimitiveType::Float))], primitive(PrimitiveType::Boolean)),
        create_function_stub("is_finite", vec![("x", primitive(PrimitiveType::Float))], primitive(PrimitiveType::Boolean)),
        create_function_stub("gcd", vec![("a", primitive(PrimitiveType::Integer)), ("b", primitive(PrimitiveType::Integer))], primitive(PrimitiveType::Integer)),
        create_function_stub("lcm", vec![("a", primitive(PrimitiveType::Integer)), ("b", primitive(PrimitiveType::Integer))], primitive(PrimitiveType::Integer)),
        create_function_stub("factorial", vec![("n", primitive(PrimitiveType::Integer))], primitive(PrimitiveType::Integer)),
        create_function_stub("fibonacci", vec![("n", primitive(PrimitiveType::Integer))], primitive(PrimitiveType::Integer)),
    ];
    let constant_declarations: Vec<ConstantDeclaration> = vec![
        float_constant("PI", 0x400921fb54442d18u64),
        float_constant("E", 0x4005bf0a8b145769u64),
        float_constant("TAU", 0x401921fb54442d18u64),
        float_constant("SQRT_2", 0x3ff6a09e667f3bcdu64),
        float_constant("LN_2", 0x3fe62e42fefa39efu64),
        float_constant("LN_10", 0x40026bb1bbb55516u64),
    ];
    let exports: Vec<ExportStatement> = vec![
        export_constant("PI"),
    ];
    proof {
        assert(param_names(external_functions@[0].parameters@) =~= seq!["x"@]);
        assert(param_names(external_functions@[1].parameters@) =~= seq!["base"@, "exponent"@]);
        assert(param_names(external_functions@[2].parameters@) =~= seq!["x"@]);
        assert(param_names(external_functions@[3].parameters@) =~= seq!["x"@]);
        assert(param_names(external_functions@[4].parameters@) =~= seq!["x"@]);
        assert(param_names(external_functions@[5].parameters@) =~= seq!["x"@]);
        assert(param_names(external_functions@[6].parameters@) =~= seq!["x"@]);
        assert(param_names(external_functions@[7].parameters@) =~= seq!["x"@]);
        assert(param_names(external_functions@[8].parameters@) =~= seq!["x"@]);
        assert(param_names(external_functions@[9].parameters@) =~= seq!["x"@]);
        assert(param_names(external_functions@[10].parameters@) =~= seq!["x"@]);
        assert(param_names(external_functions@[11].parameters@) =~= seq!["x"@]);
        assert(param_names(external_functions@[12].parameters@) =~= seq!["y"@, "x"@]);
        assert(param_names(external_functions@[13].parameters@) =~= seq!["x"@]);
        assert(param_names(external_functions@[14].parameters@) =~= seq!["x"@]);
        assert(param_names(external_functions@[15].parameters@) =~= seq!["x"@]);
        assert(param_names(external_functions@[16].parameters@) =~= seq!["x"@]);
        assert(param_names(external_functions@[17].parameters@) =~= seq!["x"@]);
        assert(param_names(external_functions@[18].parameters@) =~= seq!["x"@]);
        assert(param_names(external_functions@[19].parameters@) =~= seq!["x"@]);
        assert(param_names(external_functions@[20].parameters@) =~= seq!["x"@, "y"@]);
        assert(param_names(function_definitions@[0].parameters@) =~= seq!["x"@]);
        assert(param_names(function_definitions@[1].parameters@) =~= seq!["a"@, "b"@]);
        assert(param_names(function_definitions@[2].parameters@) =~= seq!["a"@, "b"@]);
        assert(param_names(function_definitions@[3].parameters@) =~= seq!["value"@, "min_val"@, "max_val"@]);
        assert(param_names(function_definitions@[4].parameters@) =~= seq!["a"@, "b"@, "t"@]);
        assert(param_names(function_definitions@[5].parameters@) =~= seq!["degrees"@]);
        assert(param_names(function_definitions@[6].parameters@) =~= seq!["radians"@]);
        assert(param_names(function_definitions@[7].parameters@) =~= seq!["x"@]);
        assert(param_names(function_definitions@[8].parameters@) =~= seq!["x"@]);
        assert(param_names(function_definitions@[9].parameters@) =~= seq!["x"@]);
        assert(param_names(function_definitions@[10].parameters@) =~= seq!["x"@]);
        assert(param_names(function_definitions@[11].parameters@) =~= seq!["a"@, "b"@]);
        assert(param_names(function_definitions@[12].parameters@) =~= seq!["a"@, "b"@]);
        assert(param_names(function_definitions@[13].parameters@) =~= seq!["n"@]);
        assert(param_names(function_definitions@[14].parameters@) =~= seq!["n"@]);
        assert(ext_names(external_functions@) =~= seq!["sqrt"@, "pow"@, "exp"@, "log"@, "log10"@, "log2"@, "sin"@, "cos"@, "tan"@, "asin"@, "acos"@, "atan"@, "atan2"@, "sinh"@, "cosh"@, "tanh"@, "floor"@, "ceil"@, "round"@, "fabs"@, "fmod"@]);
        assert(ext_symbols(external_functions@) =~= seq![Some("aether_sqrt"@), Some("aether_pow"@), Some("aether_exp"@), Some("aether_log"@), Some("aether_log10"@), Some("aether_log2"@), Some("aether_sin"@), Some("aether_cos"@), Some("aether_tan"@), Some("aether_asin"@), Some("aether_acos"@), Some("aether_atan"@), Some("aether_atan2"@), Some("aether_sinh"@), Some("aether_cosh"@), Some("aether_tanh"@), Some("aether_floor"@), Some("aether_ceil"@), Some("aether_round"@), Some("aether_fabs"@), Some("aether_fmod"@)]);
        assert(ext_param_names(external_functions@) =~= seq![seq!["x"@], seq!["base"@, "exponent"@], seq!["x"@], seq!["x"@], seq!["x"@], seq!["x"@], seq!["x"@], seq!["x"@], seq!["x"@], seq!["x"@], seq!["x"@], seq!["x"@], seq!["y"@, "x"@], seq!["x"@], seq!["x"@], seq!["x"@], seq!["x"@], seq!["x"@], seq!["x"@], seq!["x"@], seq!["x"@, "y"@]]);
        assert(fn_names(function_definitions@) =~= seq!["abs"@, "min"@, "max"@, "clamp"@, "lerp"@, "radians"@, "degrees"@, "sign"@, "is_nan"@, "is_infinite"@, "is_finite"@, "gcd"@, "lcm"@, "factorial"@, "fibonacci"@]);
        assert(fn_param_names(function_definitions@) =~= seq![seq!["x"@], seq!["a"@, "b"@], seq!["a"@, "b"@], seq!["value"@, "min_val"@, "max_val"@], seq!["a"@, "b"@, "t"@], seq!["degrees"@], seq!["radians"@], seq!["x"@], seq!["x"@], seq!["x"@], seq!["x"@], seq!["a"@, "b"@], seq!["a"@, "b"@], seq!["n"@], seq!["n"@]]);
        assert(export_names(exports@) =~= seq!["PI"@]);
        assert(const_names(constant_declarations@) =~= seq!["PI"@, "E"@, "TAU"@, "SQRT_2"@, "LN_2"@, "LN_10"@]);
        assert(const_bits(constant_declarations@) =~= seq![Some(0x400921fb54442d18u64), Some(0x4005bf0a8b145769u64), Some(0x401921fb54442d18u64), Some(0x3ff6a09e667f3bcdu64), Some(0x3fe62e42fefa39efu64), Some(0x40026bb1bbb55516u64)]);
        assert(param_types(external_functions@[0].parameters@) =~= seq![annot_prim(PrimitiveType::Float)]);
        assert(param_types(external_functions@[1].parameters@) =~= seq![annot_prim(PrimitiveType::Float), annot_prim(PrimitiveType::Float)]);
        assert(param_types(external_functions@[2].parameters@) =~= seq![annot_prim(PrimitiveType::Float)]);
        assert(param_types(external_functions@[3].parameters@) =~= seq![annot_prim(PrimitiveType::Float)]);
        assert(param_types(external_functions@[4].parameters@) =~= seq![annot_prim(PrimitiveType::Float)]);
        assert(param_types(external_functions@[5].parameters@) =~= seq![annot_prim(PrimitiveType::Float)]);
        assert(param_types(external_functions@[6].parameters@) =~= seq![annot_prim(PrimitiveType::Float)]);
        assert(param_types(external_functions@[7].parameters@) =~= seq![annot_prim(PrimitiveType::Float)]);
        assert(param_types(external_functions@[8].parameters@) =~= seq![annot_prim(PrimitiveType::Float)]);
        assert(param_types(external_functions@[9].parameters@) =~= seq![annot_prim(PrimitiveType::Float)]);
        assert(param_types(external_functions@[10].parameters@) =~= seq![annot_prim(PrimitiveType::Float)]);
        assert(param_types(external_functions@[11].parameters@) =~= seq![annot_prim(PrimitiveType::Float)]);
        assert(param_types(external_functions@[12].parameters@) =~= seq![annot_prim(PrimitiveType::Float), annot_prim(PrimitiveType::Float)]);
        assert(param_types(external_functions@[13].parameters@) =~= seq![annot_prim(PrimitiveType::Float)]);
        assert(param_types(external_functions@[14].parameters@) =~= seq![annot_prim(PrimitiveType::Float)]);
        assert(param_types(external_functions@[15].parameters@) =~= seq![annot_prim(PrimitiveType::Float)]);
        assert(param_types(external_functions@[16].parameters@) =~= seq![annot_prim(PrimitiveType::Float)]);
        assert(param_types(external_functions@[17].parameters@) =~= seq![annot_prim(PrimitiveType::Float)]);
        assert(param_types(external_functions@[18].parameters@) =~= seq![annot_prim(PrimitiveType::Float)]);
        assert(param_types(external_functions@[19].parameters@) =~= seq![annot_prim(PrimitiveType::Float)]);
        assert(param_types(external_functions@[20].parameters@) =~= seq![annot_prim(PrimitiveType::Float), annot_prim(PrimitiveType::Float)]);
        assert(param_types(function_definitions@[0].parameters@) =~= seq![annot_prim(PrimitiveType::Float)]);
        assert(param_types(function_definitions@[1].parameters@) =~= seq![annot_prim(PrimitiveType::Float), annot_prim(PrimitiveType::Float)]);
        assert(param_types(function_definitions@[2].parameters@) =~= seq![annot_prim(PrimitiveType::Float), annot_prim(PrimitiveType::Float)]);
        assert(param_types(function_definitions@[3].parameters@) =~= seq![annot_prim(PrimitiveType::Float), annot_prim(PrimitiveType::Float), annot_prim(PrimitiveType::Float)]);
        assert(param_types(function_definitions@[4].parameters@) =~= seq![annot_prim(PrimitiveType::Float), annot_prim(PrimitiveType::Float), annot_prim(PrimitiveType::Float)]);
        assert(param_types(function_definitions@[5].parameters@) =~= seq![annot_prim(PrimitiveType::Float)]);
        assert(param_types(function_definitions@[6].parameters@) =~= seq![annot_prim(PrimitiveType::Float)]);
        assert(param_types(function_definitions@[7].parameters@) =~= seq![annot_prim(PrimitiveType::Float)]);
        assert(param_types(function_definitions@[8].parameters@) =~= seq![annot_prim(PrimitiveType::Float)]);
        assert(param_types(function_definitions@[9].parameters@) =~= seq![annot_prim(PrimitiveType::Float)]);
        assert(param_types(function_definitions@[10].parameters@) =~= seq![annot_prim(PrimitiveType::Float)]);
        assert(param_types(function_definitions@[11].parameters@) =~= seq![annot_prim(PrimitiveType::Integer), annot_prim(PrimitiveType::Integer)]);
        assert(param_types(function_definitions@[12].parameters@) =~= seq![annot_prim(PrimitiveType::Integer), annot_prim(PrimitiveType::Integer)]);
        assert(param_types(function_definitions@[13].parameters@) =~= seq![annot_prim(PrimitiveType::Integer)]);
        assert(param_types(function_definitions@[14].parameters@) =~= seq![annot_prim(PrimitiveType::Integer)]);
        assert(ext_param_types(external_functions@) =~= seq![seq![annot_prim(PrimitiveType::Float)], seq![annot_prim(PrimitiveType::Float), annot_prim(PrimitiveType::Float)], seq![annot_prim(PrimitiveType::Float)], seq![annot_prim(PrimitiveType::Float)], seq![annot_prim(PrimitiveType::Float)], seq![annot_prim(PrimitiveType::Float)], seq![annot_prim(PrimitiveType::Float)], seq![annot_prim(PrimitiveType::Float)], seq![annot_prim(PrimitiveType::Float)], seq![annot_prim(PrimitiveType::Float)], seq![annot_prim(PrimitiveType::Float)], seq![annot_prim(PrimitiveType::Float)], seq![annot_prim(PrimitiveType::Float), annot_prim(PrimitiveType::Float)], seq![annot_prim(PrimitiveType::Float)], seq![annot_prim(PrimitiveType::Float)], seq![annot_prim(PrimitiveType::Float)], seq![annot_prim(PrimitiveType::Float)], seq![annot_prim(PrimitiveType::Float)], seq![annot_prim(PrimitiveType::Float)], seq![annot_prim(PrimitiveType::Float)], seq![annot_prim(PrimitiveType::Float), annot_prim(PrimitiveType::Float)]]);
        assert(ext_return_types(external_functions@) =~= seq![annot_prim(PrimitiveType::Float), annot_prim(PrimitiveType::Float), annot_prim(PrimitiveType::Float), annot_prim(PrimitiveType::Float), annot_prim(PrimitiveType::Float), annot_prim(PrimitiveType::Float), annot_prim(PrimitiveType::Float), annot_prim(PrimitiveType::Float), annot_prim(PrimitiveType::Float), annot_prim(PrimitiveType::Float), annot_prim(PrimitiveType::Float), annot_prim(PrimitiveType::Float), annot_prim(PrimitiveType::Float), annot_prim(PrimitiveType::Float), annot_prim(PrimitiveType::Float), annot_prim(PrimitiveType::Float), annot_prim(PrimitiveType::Float), annot_prim(PrimitiveType::Float), annot_prim(PrimitiveType::Float), annot_prim(PrimitiveType::Float), annot_prim(PrimitiveType::Float)]);
        assert(fn_param_types(function_definitions@) =~= seq![seq![annot_prim(PrimitiveType::Float)], seq![annot_prim(PrimitiveType::Float), annot_prim(PrimitiveType::Float)], seq![annot_prim(PrimitiveType::Float), annot_prim(PrimitiveType::Float)], seq![annot_prim(PrimitiveType::Float), annot_prim(PrimitiveType::Float), annot_prim(PrimitiveType::Float)], seq![annot_prim(PrimitiveType::Float), annot_prim(PrimitiveType::Float), annot_prim(PrimitiveType::Float)], seq![annot_prim(PrimitiveType::Float)], seq![annot_prim(PrimitiveType::Float)], seq![annot_prim(PrimitiveType::Float)], seq![annot_prim(PrimitiveType::Float)], seq![annot_prim(PrimitiveType::Float)], seq![annot_prim(PrimitiveType::Float)], seq![annot_prim(PrimitiveType::Integer), annot_prim(PrimitiveType::Integer)], seq![annot_prim(PrimitiveType::Integer), annot_prim(PrimitiveType::Integer)], seq![annot_prim(PrimitiveType::Integer)], seq![annot_prim(PrimitiveType::Integer)]]);
        assert(fn_return_types(function_definitions@) =~= seq![annot_prim(PrimitiveType::Float), annot_prim(PrimitiveType::Float), annot_prim(PrimitiveType::Float), annot_prim(PrimitiveType::Float), annot_prim(PrimitiveType::Float), annot_prim(PrimitiveType::Float), annot_prim(PrimitiveType::Float), annot_prim(PrimitiveType::Integer), annot_prim(PrimitiveType::Boolean), annot_prim(PrimitiveType::Boolean), annot_prim(PrimitiveType::Boolean), annot_prim(PrimitiveType::Integer), annot_prim(PrimitiveType::Integer), annot_prim(PrimitiveType::Integer), annot_prim(PrimitiveType::Integer)]);
        assert(const_types(constant_declarations@) =~= seq![annot_prim(PrimitiveType::Float), annot_prim(PrimitiveType::Float), annot_prim(PrimitiveType::Float), annot_prim(PrimitiveType::Float), annot_prim(PrimitiveType::Float), annot_prim(PrimitiveType::Float)]);
        reveal(is_math_module);
    }
    Module {
        name: Identifier::new("std.math".to_owned(), SourceLocation::unknown()),
        intent: Some("Provides mathematical functions and constants for numerical computations".to_owned()),
        imports: Vec::new(),
        exports,
        type_definitions: Vec::new(),
        constant_declarations,
        function_definitions,
        external_functions,
        source_location: SourceLocation::unknown(),
    }
}

} // verus!
