//! `std.json`: JSON parsing and manipulation.

use vstd::prelude::*;
use crate::ast::unlocated;
use crate::ast::{CallingConvention, ExportStatement, ExternalFunction, Function, Identifier, Module, PrimitiveType, SourceLocation};
use super::{annot_prim, create_external_function_named, create_function_stub, export_function, export_names, ext_names, ext_param_names, ext_param_types, ext_return_types, ext_symbols, fn_names, fn_param_names, fn_param_types, fn_return_types, param_names, param_types, plain_export, plain_external, primitive, stub_function};

verus! {

/// Whether `m` is the `std.json` module as the standard library describes it:
/// its name and intent, its external functions (names, runtime symbols,
/// parameters and return types), its function definitions, its constants
/// and its exports.
#[verifier::opaque]
pub open spec fn is_json_module(m: Module) -> bool {
    &&& unlocated(m.source_location)
    &&& unlocated(m.name.source_location)
    &&& forall|i: int| 0 <= i < m.exports@.len() ==> plain_export(#[trigger] m.exports@[i])
    &&& m.name.name@ == "std.json"@
    &&& m.intent matches Some(s) && s@ == "Provides JSON parsing, serialization, and manipulation utilities"@
    &&& m.imports@.len() == 0
    &&& m.type_definitions@.len() == 0
    &&& export_names(m.exports@) == seq!["parse_json"@, "stringify_json"@, "create_object"@, "query"@]
    &&& m.exports@[0] is Function
    &&& m.exports@[1] is Function
    &&& m.exports@[2] is Function
    &&& m.exports@[3] is Function
    &&& ext_names(m.external_functions@) == seq!["parse_json"@, "stringify_json"@, "validate_json"@, "json_get_field"@, "json_set_field"@, "json_array_get"@, "json_array_push"@, "json_array_length"@, "json_is_null"@, "json_is_boolean"@, "json_is_number"@, "json_is_string"@, "json_is_array"@, "json_is_object"@]
    &&& ext_symbols(m.external_functions@) == seq![Some("aether_json_parse"@), Some("aether_json_stringify"@), Some("aether_json_validate"@), Some("aether_json_get_field"@), Some("aether_json_set_field"@), Some("aether_json_array_get"@), Some("aether_json_array_push"@), Some("aether_json_array_length"@), Some("aether_json_is_null"@), Some("aether_json_is_boolean"@), Some("aether_json_is_number"@), Some("aether_json_is_string"@), Some("aether_json_is_array"@), Some("aether_json_is_object"@)]
    &&& ext_param_names(m.external_functions@) == seq![seq!["json_string"@], seq!["value"@], seq!["json_string"@], seq!["json_value"@, "field_name"@], seq!["json_value"@, "field_name"@, "new_value"@], seq!["json_array"@, "index"@], seq!["json_array"@, "value"@], seq!["json_array"@], seq!["value"@], seq!["value"@], seq!["value"@], seq!["value"@], seq!["value"@], seq!["value"@]]
    &&& fn_names(m.function_definitions@) == seq!["create_object"@, "create_array"@, "from_string"@, "from_integer"@, "from_float"@, "from_boolean"@, "to_string"@, "to_integer"@, "to_float"@, "to_boolean"@, "query"@, "exists"@, "merge"@, "deep_merge"@, "clone"@, "pretty_print"@]
    &&& fn_param_names(m.function_definitions@) == seq![seq![], seq![], seq!["value"@], seq!["value"@], seq!["value"@], seq!["value"@], seq!["json_value"@], seq!["json_value"@], seq!["json_value"@], seq!["json_value"@], seq!["json_value"@, "path"@], seq!["json_value"@, "path"@], seq!["target"@, "source"@], seq!["target"@, "source"@], seq!["json_value"@], seq!["json_value"@, "indent"@]]
    &&& m.constant_declarations@.len() == 0
    &&& ext_param_types(m.external_functions@) == seq![seq![annot_prim(PrimitiveType::String)], seq![annot_prim(PrimitiveType::String)], seq![annot_prim(PrimitiveType::String)], seq![annot_prim(PrimitiveType::String), annot_prim(PrimitiveType::String)], seq![annot_prim(PrimitiveType::String), annot_prim(PrimitiveType::String), annot_prim(PrimitiveType::String)], seq![annot_prim(PrimitiveType::String), annot_prim(PrimitiveType::Integer)], seq![annot_prim(PrimitiveType::String), annot_prim(PrimitiveType::String)], seq![annot_prim(PrimitiveType::String)], seq![annot_prim(PrimitiveType::String)], seq![annot_prim(PrimitiveType::String)], seq![annot_prim(PrimitiveType::String)], seq![annot_prim(PrimitiveType::String)], seq![annot_prim(PrimitiveType::String)], seq![annot_prim(PrimitiveType::String)]]
    &&& ext_return_types(m.external_functions@) == seq![annot_prim(PrimitiveType::String), annot_prim(PrimitiveType::String), annot_prim(PrimitiveType::Boolean), annot_prim(PrimitiveType::String), annot_prim(PrimitiveType::String), annot_prim(PrimitiveType::String), annot_prim(PrimitiveType::String), annot_prim(PrimitiveType::Integer), annot_prim(PrimitiveType::Boolean), annot_prim(PrimitiveType::Boolean), annot_prim(PrimitiveType::Boolean), annot_prim(PrimitiveType::Boolean), annot_prim(PrimitiveType::Boolean), annot_prim(PrimitiveType::Boolean)]
    &&& fn_param_types(m.function_definitions@) == seq![seq![], seq![], seq![annot_prim(PrimitiveType::String)], seq![annot_prim(PrimitiveType::Integer)], seq![annot_prim(PrimitiveType::Float)], seq![annot_prim(PrimitiveType::Boolean)], seq![annot_prim(PrimitiveType::String)], seq![annot_prim(PrimitiveType::String)], seq![annot_prim(PrimitiveType::String)], seq![annot_prim(PrimitiveType::String)], seq![annot_prim(PrimitiveType::String), annot_prim(PrimitiveType::String)], seq![annot_prim(PrimitiveType::String), annot_prim(PrimitiveType::String)], seq![annot_prim(PrimitiveType::String), annot_prim(PrimitiveType::String)], seq![annot_prim(PrimitiveType::String), annot_prim(PrimitiveType::String)], seq![annot_prim(PrimitiveType::String)], seq![annot_prim(PrimitiveType::String), annot_prim(PrimitiveType::Integer)]]
    &&& fn_return_types(m.function_definitions@) == seq![annot_prim(PrimitiveType::String), annot_prim(PrimitiveType::String), annot_prim(PrimitiveType::String), annot_prim(PrimitiveType::String), annot_prim(PrimitiveType::String), annot_prim(PrimitiveType::String), annot_prim(PrimitiveType::String), annot_prim(PrimitiveType::Integer), annot_prim(PrimitiveType::Float), annot_prim(PrimitiveType::Boolean), annot_prim(PrimitiveType::String), annot_prim(PrimitiveType::Boolean), annot_prim(PrimitiveType::String), annot_prim(PrimitiveType::String), annot_prim(PrimitiveType::String), annot_prim(PrimitiveType::String)]
    &&& forall|i: int| 0 <= i < m.external_functions@.len() ==> plain_external(#[trigger] m.external_functions@[i])
    &&& forall|i: int| 0 <= i < m.function_definitions@.len() ==> stub_function(#[trigger] m.function_definitions@[i])
}

/// Describes the `std.json` module: its external functions, its function
/// definitions and its exports.
#[verifier::rlimit(50)]
pub fn create_json_module() -> (m: Module)
    ensures
        is_json_module(m),
        m.name.name@ == "std.json"@,
{
    let external_functions: Vec<ExternalFunction> = vec![
        create_external_function_named(
            "parse_json",
            "aether_json_parse",
            vec![("json_string", primitive(PrimitiveType::String))],
            primitive(PrimitiveType::String),
            CallingConvention::C,
        ),
        create_external_function_named(
            "stringify_json",
            "aether_json_stringify",
            vec![("value", primitive(PrimitiveType::String))],
            primitive(PrimitiveType::String),
            CallingConvention::C,
        ),
        create_external_function_named(
            "validate_json",
            "aether_json_validate",
            vec![("json_string", primitive(PrimitiveType::String))],
            primitive(PrimitiveType::Boolean),
            CallingConvention::C,
        ),
        create_external_function_named(
            "json_get_field",
            "aether_json_get_field",
            vec![("json_value", primitive(PrimitiveType::String)), ("field_name", primitive(PrimitiveType::String))],
            primitive(PrimitiveType::String),
            CallingConvention::C,
        ),
        create_external_function_named(
            "json_set_field",
            "aether_json_set_field",
            vec![("json_value", primitive(PrimitiveType::String)), ("field_name", primitive(PrimitiveType::String)), ("new_value", primitive(PrimitiveType::String))],
            primitive(PrimitiveType::String),
            CallingConvention::C,
        ),
        create_external_function_named(
            "json_array_get",
            "aether_json_array_get",
            vec![("json_array", primitive(PrimitiveType::String)), ("index", primitive(PrimitiveType::Integer))],
            primitive(PrimitiveType::String),
            CallingConvention::C,
        ),
        create_external_function_named(
            "json_array_push",
            "aether_json_array_push",
            vec![("json_array", primitive(PrimitiveType::String)), ("value", primitive(PrimitiveType::String))],
            primitive(PrimitiveType::String),
            CallingConvention::C,
        ),
        create_external_function_named(
            "json_array_length",
            "aether_json_array_length",
            vec![("json_array", primitive(PrimitiveType::String))],
            primitive(PrimitiveType::Integer),
            CallingConvention::C,
        ),
        create_external_function_named(
            "json_is_null",
            "aether_json_is_null",
            vec![("value", primitive(PrimitiveType::String))],
            primitive(PrimitiveType::Boolean),
            CallingConvention::C,
        ),
        create_external_function_named(
            "json_is_boolean",
            "aether_json_is_boolean",
            vec![("value", primitive(PrimitiveType::String))],
            primitive(PrimitiveType::Boolean),
            CallingConvention::C,
        ),
        create_external_function_named(
            "json_is_number",
            "aether_json_is_number",
            vec![("value", primitive(PrimitiveType::String))],
            primitive(PrimitiveType::Boolean),
            CallingConvention::C,
        ),
        create_external_function_named(
            "json_is_string",
            "aether_json_is_string",
            vec![("value", primitive(PrimitiveType::String))],
            primitive(PrimitiveType::Boolean),
            CallingConvention::C,
        ),
        create_external_function_named(
            "json_is_array",
            "aether_json_is_array",
            vec![("value", primitive(PrimitiveType::String))],
            primitive(PrimitiveType::Boolean),
            CallingConvention::C,
        ),
        create_external_function_named(
            "json_is_object",
            "aether_json_is_object",
            vec![("value", primitive(PrimitiveType::String))],
            primitive(PrimitiveType::Boolean),
            CallingConvention::C,
        ),
    ];
    let function_definitions: Vec<Function> = vec![
        create_function_stub("create_object", vec![], primitive(PrimitiveType::String)),
        create_function_stub("create_array", vec![], primitive(PrimitiveType::String)),
        create_function_stub("from_string", vec![("value", primitive(PrimitiveType::String))], primitive(PrimitiveType::String)),
        create_function_stub("from_integer", vec![("value", primitive(PrimitiveType::Integer))], primitive(PrimitiveType::String)),
        create_function_stub("from_float", vec![("value", primitive(PrimitiveType::Float))], primitive(PrimitiveType::String)),
        create_function_stub("from_boolean", vec![("value", primitive(PrimitiveType::Boolean))], primitive(PrimitiveType::String)),
        create_function_stub("to_string", vec![("json_value", primitive(PrimitiveType::String))], primitive(PrimitiveType::String)),
        create_function_stub("to_integer", vec![("json_value", primitive(PrimitiveType::String))], primitive(PrimitiveType::Integer)),
        create_function_stub("to_float", vec![("json_value", primitive(PrimitiveType::String))], primitive(PrimitiveType::Float)),
        create_function_stub("to_boolean", vec![("json_value", primitive(PrimitiveType::String))], primitive(PrimitiveType::Boolean)),
        create_function_stub("query", vec![("json_value", primitive(PrimitiveType::String)), ("path", primitive(PrimitiveType::String))], primitive(PrimitiveType::String)),
        create_function_stub("exists", vec![("json_value", primitive(PrimitiveType::String)), ("path", primitive(PrimitiveType::String))], primitive(PrimitiveType::Boolean)),
        create_function_stub("merge", vec![("target", primitive(PrimitiveType::String)), ("source", primitive(PrimitiveType::String))], primitive(PrimitiveType::String)),
        create_function_stub("deep_merge", vec![("target", primitive(PrimitiveType::String)), ("source", primitive(PrimitiveType::String))], primitive(PrimitiveType::String)),
        create_function_stub("clone", vec![("json_value", primitive(PrimitiveType::String))], primitive(PrimitiveType::String)),
        create_function_stub("pretty_print", vec![("json_value", primitive(PrimitiveType::String)), ("indent", primitive(PrimitiveType::Integer))], primitive(PrimitiveType::String)),
    ];
    let exports: Vec<ExportStatement> = vec![
        export_function("parse_json"),
        export_function("stringify_json"),
        export_function("create_object"),
        export_function("query"),
    ];
    proof {
        assert(param_names(external_functions@[0].parameters@) =~= seq!["json_string"@]);
        assert(param_names(external_functions@[1].parameters@) =~= seq!["value"@]);
        assert(param_names(external_functions@[2].parameters@) =~= seq!["json_string"@]);
        assert(param_names(external_functions@[3].parameters@) =~= seq!["json_value"@, "field_name"@]);
        assert(param_names(external_functions@[4].parameters@) =~= seq!["json_value"@, "field_name"@, "new_value"@]);
        assert(param_names(external_functions@[5].parameters@) =~= seq!["json_array"@, "index"@]);
        assert(param_names(external_functions@[6].parameters@) =~= seq!["json_array"@, "value"@]);
        assert(param_names(external_functions@[7].parameters@) =~= seq!["json_array"@]);
        assert(param_names(external_functions@[8].parameters@) =~= seq!["value"@]);
        assert(param_names(external_functions@[9].parameters@) =~= seq!["value"@]);
        assert(param_names(external_functions@[10].parameters@) =~= seq!["value"@]);
        assert(param_names(external_functions@[11].parameters@) =~= seq!["value"@]);
        assert(param_names(external_functions@[12].parameters@) =~= seq!["value"@]);
        assert(param_names(external_functions@[13].parameters@) =~= seq!["value"@]);
        assert(param_names(function_definitions@[0].parameters@) =~= seq![]);
        assert(param_names(function_definitions@[1].parameters@) =~= seq![]);
        assert(param_names(function_definitions@[2].parameters@) =~= seq!["value"@]);
        assert(param_names(function_definitions@[3].parameters@) =~= seq!["value"@]);
        assert(param_names(function_definitions@[4].parameters@) =~= seq!["value"@]);
        assert(param_names(function_definitions@[5].parameters@) =~= seq!["value"@]);
        assert(param_names(function_definitions@[6].parameters@) =~= seq!["json_value"@]);
        assert(param_names(function_definitions@[7].parameters@) =~= seq!["json_value"@]);
        assert(param_names(function_definitions@[8].parameters@) =~= seq!["json_value"@]);
        assert(param_names(function_definitions@[9].parameters@) =~= seq!["json_value"@]);
        assert(param_names(function_definitions@[10].parameters@) =~= seq!["json_value"@, "path"@]);
        assert(param_names(function_definitions@[11].parameters@) =~= seq!["json_value"@, "path"@]);
        assert(param_names(function_definitions@[12].parameters@) =~= seq!["target"@, "source"@]);
        assert(param_names(function_definitions@[13].parameters@) =~= seq!["target"@, "source"@]);
        assert(param_names(function_definitions@[14].parameters@) =~= seq!["json_value"@]);
        assert(param_names(function_definitions@[15].parameters@) =~= seq!["json_value"@, "indent"@]);
        assert(ext_names(external_functions@) =~= seq!["parse_json"@, "stringify_json"@, "validate_json"@, "json_get_field"@, "json_set_field"@, "json_array_get"@, "json_array_push"@, "json_array_length"@, "json_is_null"@, "json_is_boolean"@, "json_is_number"@, "json_is_string"@, "json_is_array"@, "json_is_object"@]);
        assert(ext_symbols(external_functions@) =~= seq![Some("aether_json_parse"@), Some("aether_json_stringify"@), Some("aether_json_validate"@), Some("aether_json_get_field"@), Some("aether_json_set_field"@), Some("aether_json_array_get"@), Some("aether_json_array_push"@), Some("aether_json_array_length"@), Some("aether_json_is_null"@), Some("aether_json_is_boolean"@), Some("aether_json_is_number"@), Some("aether_json_is_string"@), Some("aether_json_is_array"@), Some("aether_json_is_object"@)]);
        assert(ext_param_names(external_functions@) =~= seq![seq!["json_string"@], seq!["value"@], seq!["json_string"@], seq!["json_value"@, "field_name"@], seq!["json_value"@, "field_name"@, "new_value"@], seq!["json_array"@, "index"@], seq!["json_array"@, "value"@], seq!["json_array"@], seq!["value"@], seq!["value"@], seq!["value"@], seq!["value"@], seq!["value"@], seq!["value"@]]);
        assert(fn_names(function_definitions@) =~= seq!["create_object"@, "create_array"@, "from_string"@, "from_integer"@, "from_float"@, "from_boolean"@, "to_string"@, "to_integer"@, "to_float"@, "to_boolean"@, "query"@, "exists"@, "merge"@, "deep_merge"@, "clone"@, "pretty_print"@]);
        assert(fn_param_names(function_definitions@) =~= seq![seq![], seq![], seq!["value"@], seq!["value"@], seq!["value"@], seq!["value"@], seq!["json_value"@], seq!["json_value"@], seq!["json_value"@], seq!["json_value"@], seq!["json_value"@, "path"@], seq!["json_value"@, "path"@], seq!["target"@, "source"@], seq!["target"@, "source"@], seq!["json_value"@], seq!["json_value"@, "indent"@]]);
        assert(export_names(exports@) =~= seq!["parse_json"@, "stringify_json"@, "create_object"@, "query"@]);
        assert(param_types(external_functions@[0].parameters@) =~= seq![annot_prim(PrimitiveType::String)]);
        assert(param_types(external_functions@[1].parameters@) =~= seq![annot_prim(PrimitiveType::String)]);
        assert(param_types(external_functions@[2].parameters@) =~= seq![annot_prim(PrimitiveType::String)]);
        assert(param_types(external_functions@[3].parameters@) =~= seq![annot_prim(PrimitiveType::String), annot_prim(PrimitiveType::String)]);
        assert(param_types(external_functions@[4].parameters@) =~= seq![annot_prim(PrimitiveType::String), annot_prim(PrimitiveType::String), annot_prim(PrimitiveType::String)]);
        assert(param_types(external_functions@[5].parameters@) =~= seq![annot_prim(PrimitiveType::String), annot_prim(PrimitiveType::Integer)]);
        assert(param_types(external_functions@[6].parameters@) =~= seq![annot_prim(PrimitiveType::String), annot_prim(PrimitiveType::String)]);
        assert(param_types(external_functions@[7].parameters@) =~= seq![annot_prim(PrimitiveType::String)]);
        assert(param_types(external_functions@[8].parameters@) =~= seq![annot_prim(PrimitiveType::String)]);
        assert(param_types(external_functions@[9].parameters@) =~= seq![annot_prim(PrimitiveType::String)]);
        assert(param_types(external_functions@[10].parameters@) =~= seq![annot_prim(PrimitiveType::String)]);
        assert(param_types(external_functions@[11].parameters@) =~= seq![annot_prim(PrimitiveType::String)]);
        assert(param_types(external_functions@[12].parameters@) =~= seq![annot_prim(PrimitiveType::String)]);
        assert(param_types(external_functions@[13].parameters@) =~= seq![annot_prim(PrimitiveType::String)]);
        assert(param_types(function_definitions@[0].parameters@) =~= seq![]);
        assert(param_types(function_definitions@[1].parameters@) =~= seq![]);
        assert(param_types(function_definitions@[2].parameters@) =~= seq![annot_prim(PrimitiveType::String)]);
        assert(param_types(function_definitions@[3].parameters@) =~= seq![annot_prim(PrimitiveType::Integer)]);
        assert(param_types(function_definitions@[4].parameters@) =~= seq![annot_prim(PrimitiveType::Float)]);
        assert(param_types(function_definitions@[5].parameters@) =~= seq![annot_prim(PrimitiveType::Boolean)]);
        assert(param_types(function_definitions@[6].parameters@) =~= seq![annot_prim(PrimitiveType::String)]);
        assert(param_types(function_definitions@[7].parameters@) =~= seq![annot_prim(PrimitiveType::String)]);
        assert(param_types(function_definitions@[8].parameters@) =~= seq![annot_prim(PrimitiveType::String)]);
        assert(param_types(function_definitions@[9].parameters@) =~= seq![annot_prim(PrimitiveType::String)]);
        assert(param_types(function_definitions@[10].parameters@) =~= seq![annot_prim(PrimitiveType::String), annot_prim(PrimitiveType::String)]);
        assert(param_types(function_definitions@[11].parameters@) =~= seq![annot_prim(PrimitiveType::String), annot_prim(PrimitiveType::String)]);
        assert(param_types(function_definitions@[12].parameters@) =~= seq![annot_prim(PrimitiveType::String), annot_prim(PrimitiveType::String)]);
        assert(param_types(function_definitions@[13].parameters@) =~= seq![annot_prim(PrimitiveType::String), annot_prim(PrimitiveType::String)]);
        assert(param_types(function_definitions@[14].parameters@) =~= seq![annot_prim(PrimitiveType::String)]);
        assert(param_types(function_definitions@[15].parameters@) =~= seq![annot_prim(PrimitiveType::String), annot_prim(PrimitiveType::Integer)]);
        assert(ext_param_types(external_functions@) =~= seq![seq![annot_prim(PrimitiveType::String)], seq![annot_prim(PrimitiveType::String)], seq![annot_prim(PrimitiveType::String)], seq![annot_prim(PrimitiveType::String), annot_prim(PrimitiveType::String)], seq![annot_prim(PrimitiveType::String), annot_prim(PrimitiveType::String), annot_prim(PrimitiveType::String)], seq![annot_prim(PrimitiveType::String), annot_prim(PrimitiveType::Integer)], seq![annot_prim(PrimitiveType::String), annot_prim(PrimitiveType::String)], seq![annot_prim(PrimitiveType::String)], seq![annot_prim(PrimitiveType::String)], seq![annot_prim(PrimitiveType::String)], seq![annot_prim(PrimitiveType::String)], seq![annot_prim(PrimitiveType::String)], seq![annot_prim(PrimitiveType::String)], seq![annot_prim(PrimitiveType::String)]]);
        assert(ext_return_types(external_functions@) =~= seq![annot_prim(PrimitiveType::String), annot_prim(PrimitiveType::String), annot_prim(PrimitiveType::Boolean), annot_prim(PrimitiveType::String), annot_prim(PrimitiveType::String), annot_prim(PrimitiveType::String), annot_prim(PrimitiveType::String), annot_prim(PrimitiveType::Integer), annot_prim(PrimitiveType::Boolean), annot_prim(PrimitiveType::Boolean), annot_prim(PrimitiveType::Boolean), annot_prim(PrimitiveType::Boolean), annot_prim(PrimitiveType::Boolean), annot_prim(PrimitiveType::Boolean)]);
        assert(fn_param_types(function_definitions@) =~= seq![seq![], seq![], seq![annot_prim(PrimitiveType::String)], seq![annot_prim(PrimitiveType::Integer)], seq![annot_prim(PrimitiveType::Float)], seq![annot_prim(PrimitiveType::Boolean)], seq![annot_prim(PrimitiveType::String)], seq![annot_prim(PrimitiveType::String)], seq![annot_prim(PrimitiveType::String)], seq![annot_prim(PrimitiveType::String)], seq![annot_prim(PrimitiveType::String), annot_prim(PrimitiveType::String)], seq![annot_prim(PrimitiveType::String), annot_prim(PrimitiveType::String)], seq![annot_prim(PrimitiveType::String), annot_prim(PrimitiveType::String)], seq![annot_prim(PrimitiveType::String), annot_prim(PrimitiveType::String)], seq![annot_prim(PrimitiveType::String)], seq![annot_prim(PrimitiveType::String), annot_prim(PrimitiveType::Integer)]]);
        assert(fn_return_types(function_definitions@) =~= seq![annot_prim(PrimitiveType::String), annot_prim(PrimitiveType::String), annot_prim(PrimitiveType::String), annot_prim(PrimitiveType::String), annot_prim(PrimitiveType::String), annot_prim(PrimitiveType::String), annot_prim(PrimitiveType::String), annot_prim(PrimitiveType::Integer), annot_prim(PrimitiveType::Float), annot_prim(PrimitiveType::Boolean), annot_prim(PrimitiveType::String), annot_prim(PrimitiveType::Boolean), annot_prim(PrimitiveType::String), annot_prim(PrimitiveType::String), annot_prim(PrimitiveType::String), annot_prim(PrimitiveType::String)]);
        reveal(is_json_module);
    }
    Module {
        name: Identifier::new("std.json".to_owned(), SourceLocation::unknown()),
        intent: Some("Provides JSON parsing, serialization, and manipulation utilities".to_owned()),
        imports: Vec::new(),
        exports,
        type_definitions: Vec::new(),
        constant_declarations: Vec::new(),
        function_definitions,
        external_functions,
        source_location: SourceLocation::unknown(),
    }
}

} // verus!
