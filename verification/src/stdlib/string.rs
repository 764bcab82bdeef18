//! `std.string`: string manipulation.

use vstd::prelude::*;
use crate::ast::unlocated;
use crate::ast::{CallingConvention, ExportStatement, ExternalFunction, Function, Identifier, Module, PrimitiveType, SourceLocation};
use super::{annot_array, annot_prim, array_of, create_external_function_named, create_function_stub, export_function, export_names, ext_names, ext_param_names, ext_param_types, ext_return_types, ext_symbols, fn_names, fn_param_names, fn_param_types, fn_return_types, param_names, param_types, plain_export, plain_external, primitive, stub_function};

verus! {

/// Whether `m` is the `std.string` module as the standard library describes it:
/// its name and intent, its external functions (names, runtime symbols,
/// parameters and return types), its function definitions, its constants
/// and its exports.
#[verifier::opaque]
pub open spec fn is_string_module(m: Module) -> bool {
    &&& unlocated(m.source_location)
    &&& unlocated(m.name.source_location)
    &&& forall|i: int| 0 <= i < m.exports@.len() ==> plain_export(#[trigger] m.exports@[i])
    &&& m.name.name@ == "std.string"@
    &&& m.intent matches Some(s) && s@ == "Provides comprehensive string manipulation and utility functions"@
    &&& m.imports@.len() == 0
    &&& m.type_definitions@.len() == 0
    &&& export_names(m.exports@) == seq!["string_length"@, "starts_with"@, "to_int"@]
    &&& m.exports@[0] is Function
    &&& m.exports@[1] is Function
    &&& m.exports@[2] is Function
    &&& ext_names(m.external_functions@) == seq!["string_length"@, "string_concat"@, "string_compare"@, "string_copy"@, "string_substring"@, "string_find"@, "string_find_from"@, "string_replace"@, "string_to_lower"@, "string_to_upper"@, "string_trim"@, "string_trim_left"@, "string_trim_right"@, "string_split"@, "string_join"@, "string_char_at"@]
    &&& ext_symbols(m.external_functions@) == seq![Some("aether_string_length"@), Some("aether_string_concat"@), Some("aether_string_compare"@), Some("aether_string_copy"@), Some("aether_string_substring"@), Some("aether_string_find"@), Some("aether_string_find_from"@), Some("aether_string_replace"@), Some("aether_string_to_lower"@), Some("aether_string_to_upper"@), Some("aether_string_trim"@), Some("aether_string_trim_left"@), Some("aether_string_trim_right"@), Some("aether_string_split"@), Some("aether_string_join"@), Some("aether_string_char_at"@)]
    &&& ext_param_names(m.external_functions@) == seq![seq!["str"@], seq!["str1"@, "str2"@], seq!["str1"@, "str2"@], seq!["str"@], seq!["str"@, "start"@, "length"@], seq!["haystack"@, "needle"@], seq!["haystack"@, "needle"@, "start_index"@], seq!["str"@, "old_substr"@, "new_substr"@], seq!["str"@], seq!["str"@], seq!["str"@], seq!["str"@], seq!["str"@], seq!["str"@, "delimiter"@, "max_splits"@], seq!["strings"@, "separator"@], seq!["str"@, "index"@]]
    &&& fn_names(m.function_definitions@) == seq!["starts_with"@, "ends_with"@, "contains"@, "is_empty"@, "is_whitespace"@, "repeat"@, "reverse"@, "pad_left"@, "pad_right"@, "center"@, "is_numeric"@, "is_alphabetic"@, "is_alphanumeric"@, "is_ascii"@, "to_int"@, "to_float"@, "from_int"@, "from_float"@, "match_pattern"@, "extract_matches"@, "replace_pattern"@]
    &&& fn_param_names(m.function_definitions@) == seq![seq!["str"@, "prefix"@], seq!["str"@, "suffix"@], seq!["str"@, "substr"@], seq!["str"@], seq!["str"@], seq!["str"@, "count"@], seq!["str"@], seq!["str"@, "width"@, "pad_char"@], seq!["str"@, "width"@, "pad_char"@], seq!["str"@, "width"@, "pad_char"@], seq!["str"@], seq!["str"@], seq!["str"@], seq!["str"@], seq!["str"@], seq!["str"@], seq!["value"@], seq!["value"@], seq!["str"@, "pattern"@], seq!["str"@, "pattern"@], seq!["str"@, "pattern"@, "replacement"@]]
    &&& m.constant_declarations@.len() == 0
    &&& ext_param_types(m.external_functions@) == seq![seq![annot_prim(PrimitiveType::String)], seq![annot_prim(PrimitiveType::String), annot_prim(PrimitiveType::String)], seq![annot_prim(PrimitiveType::String), annot_prim(PrimitiveType::String)], seq![annot_prim(PrimitiveType::String)], seq![annot_prim(PrimitiveType::String), annot_prim(PrimitiveType::SizeT), annot_prim(PrimitiveType::SizeT)], seq![annot_prim(PrimitiveType::String), annot_prim(PrimitiveType::String)], seq![annot_prim(PrimitiveType::String), annot_prim(PrimitiveType::String), annot_prim(PrimitiveType::SizeT)], seq![annot_prim(PrimitiveType::String), annot_prim(PrimitiveType::String), annot_prim(PrimitiveType::String)], seq![annot_prim(PrimitiveType::String)], seq![annot_prim(PrimitiveType::String)], seq![annot_prim(PrimitiveType::String)], seq![annot_prim(PrimitiveType::String)], seq![annot_prim(PrimitiveType::String)], seq![annot_prim(PrimitiveType::String), annot_prim(PrimitiveType::String), annot_prim(PrimitiveType::Integer)], seq![annot_array(annot_prim(PrimitiveType::String)), annot_prim(PrimitiveType::String)], seq![annot_prim(PrimitiveType::String), annot_prim(PrimitiveType::SizeT)]]
    &&& ext_return_types(m.external_functions@) == seq![annot_prim(PrimitiveType::SizeT), annot_prim(PrimitiveType::String), annot_prim(PrimitiveType::Integer), annot_prim(PrimitiveType::String), annot_prim(PrimitiveType::String), annot_prim(PrimitiveType::Integer), annot_prim(PrimitiveType::Integer), annot_prim(PrimitiveType::String), annot_prim(PrimitiveType::String), annot_prim(PrimitiveType::String), annot_prim(PrimitiveType::String), annot_prim(PrimitiveType::String), annot_prim(PrimitiveType::String), annot_array(annot_prim(PrimitiveType::String)), annot_prim(PrimitiveType::String), annot_prim(PrimitiveType::Integer)]
    &&& fn_param_types(m.function_definitions@) == seq![seq![annot_prim(PrimitiveType::String), annot_prim(PrimitiveType::String)], seq![annot_prim(PrimitiveType::String), annot_prim(PrimitiveType::String)], seq![annot_prim(PrimitiveType::String), annot_prim(PrimitiveType::String)], seq![annot_prim(PrimitiveType::String)], seq![annot_prim(PrimitiveType::String)], seq![annot_prim(PrimitiveType::String), annot_prim(PrimitiveType::Integer)], seq![annot_prim(PrimitiveType::String)], seq![annot_prim(PrimitiveType::String), annot_prim(PrimitiveType::Integer), annot_prim(PrimitiveType::Integer)], seq![annot_prim(PrimitiveType::String), annot_prim(PrimitiveType::Integer), annot_prim(PrimitiveType::Integer)], seq![annot_prim(PrimitiveType::String), annot_prim(PrimitiveType::Integer), annot_prim(PrimitiveType::Integer)], seq![annot_prim(PrimitiveType::String)], seq![annot_prim(PrimitiveType::String)], seq![annot_prim(PrimitiveType::String)], seq![annot_prim(PrimitiveType::String)], seq![annot_prim(PrimitiveType::String)], seq![annot_prim(PrimitiveType::String)], seq![annot_prim(PrimitiveType::Integer)], seq![annot_prim(PrimitiveType::Float)], seq![annot_prim(PrimitiveType::String), annot_prim(PrimitiveType::String)], seq![annot_prim(PrimitiveType::String), annot_prim(PrimitiveType::String)], seq![annot_prim(PrimitiveType::String), annot_prim(PrimitiveType::String), annot_prim(PrimitiveType::String)]]
    &&& fn_return_types(m.function_definitions@) == seq![annot_prim(PrimitiveType::Boolean), annot_prim(PrimitiveType::Boolean), annot_prim(PrimitiveType::Boolean), annot_prim(PrimitiveType::Boolean), annot_prim(PrimitiveType::Boolean), annot_prim(PrimitiveType::String), annot_prim(PrimitiveType::String), annot_prim(PrimitiveType::String), annot_prim(PrimitiveType::String), annot_prim(PrimitiveType::String), annot_prim(PrimitiveType::Boolean), annot_prim(PrimitiveType::Boolean), annot_prim(PrimitiveType::Boolean), annot_prim(PrimitiveType::Boolean), annot_prim(PrimitiveType::Integer), annot_prim(PrimitiveType::Float), annot_prim(PrimitiveType::String), annot_prim(PrimitiveType::String), annot_prim(PrimitiveType::Boolean), annot_array(annot_prim(PrimitiveType::String)), annot_prim(PrimitiveType::String)]
    &&& forall|i: int| 0 <= i < m.external_functions@.len() ==> plain_external(#[trigger] m.external_functions@[i])
    &&& forall|i: int| 0 <= i < m.function_definitions@.len() ==> stub_function(#[trigger] m.function_definitions@[i])
}

/// Describes the `std.string` module: its external functions, its function
/// definitions and its exports.
#[verifier::rlimit(50)]
pub fn create_string_module() -> (m: Module)
    ensures
        is_string_module(m),
        m.name.name@ == "std.string"@,
{
    let external_functions: Vec<ExternalFunction> = vec![
        create_external_function_named(
            "string_length",
            "aether_string_length",
            vec![("str", primitive(PrimitiveType::String))],
            primitive(PrimitiveType::SizeT),
            CallingConvention::C,
        ),
        create_external_function_named(
            "string_concat",
            "aether_string_concat",
            vec![("str1", primitive(PrimitiveType::String)), ("str2", primitive(PrimitiveType::String))],
            primitive(PrimitiveType::String),
            CallingConvention::C,
        ),
        create_external_function_named(
            "string_compare",
            "aether_string_compare",
            vec![("str1", primitive(PrimitiveType::String)), ("str2", primitive(PrimitiveType::String))],
            primitive(PrimitiveType::Integer),
            CallingConvention::C,
        ),
        create_external_function_named(
            "string_copy",
            "aether_string_copy",
            vec![("str", primitive(PrimitiveType::String))],
            primitive(PrimitiveType::String),
            CallingConvention::C,
        ),
        create_external_function_named(
            "string_substring",
            "aether_string_substring",
            vec![("str", primitive(PrimitiveType::String)), ("start", primitive(PrimitiveType::SizeT)), ("length", primitive(PrimitiveType::SizeT))],
            primitive(PrimitiveType::String),
            CallingConvention::C,
        ),
        create_external_function_named(
            "string_find",
            "aether_string_find",
            vec![("haystack", primitive(PrimitiveType::String)), ("needle", primitive(PrimitiveType::String))],
            primitive(PrimitiveType::Integer),
            CallingConvention::C,
        ),
        create_external_function_named(
            "string_find_from",
            "aether_string_find_from",
            vec![("haystack", primitive(PrimitiveType::String)), ("needle", primitive(PrimitiveType::String)), ("start_index", primitive(PrimitiveType::SizeT))],
            primitive(PrimitiveType::Integer),
            CallingConvention::C,
        ),
        create_external_function_named(
            "string_replace",
            "aether_string_replace",
            vec![("str", primitive(PrimitiveType::String)), ("old_substr", primitive(PrimitiveType::String)), ("new_substr", primitive(PrimitiveType::String))],
            primitive(PrimitiveType::String),
            CallingConvention::C,
        ),
        create_external_function_named(
            "string_to_lower",
            "aether_string_to_lower",
            vec![("str", primitive(PrimitiveType::String))],
            primitive(PrimitiveType::String),
            CallingConvention::C,
        ),
        create_external_function_named(
            "string_to_upper",
            "aether_string_to_upper",
            vec![("str", primitive(PrimitiveType::String))],
            primitive(PrimitiveType::String),
            CallingConvention::C,
        ),
        create_external_function_named(
            "string_trim",
            "aether_string_trim",
            vec![("str", primitive(PrimitiveType::String))],
            primitive(PrimitiveType::String),
            CallingConvention::C,
        ),
        create_external_function_named(
            "string_trim_left",
            "aether_string_trim_left",
            vec![("str", primitive(PrimitiveType::String))],
            primitive(PrimitiveType::String),
            CallingConvention::C,
        ),
        create_external_function_named(
            "string_trim_right",
            "aether_string_trim_right",
            vec![("str", primitive(PrimitiveType::String))],
            primitive(PrimitiveType::String),
            CallingConvention::C,
        ),
        create_external_function_named(
            "string_split",
            "aether_string_split",
            vec![("str", primitive(PrimitiveType::String)), ("delimiter", primitive(PrimitiveType::String)), ("max_splits", primitive(PrimitiveType::Integer))],
            array_of(primitive(PrimitiveType::String)),
            CallingConvention::C,
        ),
        create_external_function_named(
            "string_join",
            "aether_string_join",
            vec![("strings", array_of(primitive(PrimitiveType::String))), ("separator", primitive(PrimitiveType::String))],
            primitive(PrimitiveType::String),
            CallingConvention::C,
        ),
        create_external_function_named(
            "string_char_at",
            "aether_string_char_at",
            vec![("str", primitive(PrimitiveType::String)), ("index", primitive(PrimitiveType::SizeT))],
            primitive(PrimitiveType::Integer),
            CallingConvention::C,
        ),
    ];
    let function_definitions: Vec<Function> = vec![
        create_function_stub("starts_with", vec![("str", primitive(PrimitiveType::String)), ("prefix", primitive(PrimitiveType::String))], primitive(PrimitiveType::Boolean)),
        create_function_stub("ends_with", vec![("str", primitive(PrimitiveType::String)), ("suffix", primitive(PrimitiveType::String))], primitive(PrimitiveType::Boolean)),
        create_function_stub("contains", vec![("str", primitive(PrimitiveType::String)), ("substr", primitive(PrimitiveType::String))], primitive(PrimitiveType::Boolean)),
        create_function_stub("is_empty", vec![("str", primitive(PrimitiveType::String))], primitive(PrimitiveType::Boolean)),
        create_function_stub("is_whitespace", vec![("str", primitive(PrimitiveType::String))], primitive(PrimitiveType::Boolean)),
        create_function_stub("repeat", vec![("str", primitive(PrimitiveType::String)), ("count", primitive(PrimitiveType::Integer))], primitive(PrimitiveType::String)),
        create_function_stub("reverse", vec![("str", primitive(PrimitiveType::String))], primitive(PrimitiveType::String)),
        create_function_stub("pad_left", vec![("str", primitive(PrimitiveType::String)), ("width", primitive(PrimitiveType::Integer)), ("pad_char", primitive(PrimitiveType::Integer))], primitive(PrimitiveType::String)),
        create_function_stub("pad_right", vec![("str", primitive(PrimitiveType::String)), ("width", primitive(PrimitiveType::Integer)), ("pad_char", primitive(PrimitiveType::Integer))], primitive(PrimitiveType::String)),
        create_function_stub("center", vec![("str", primitive(PrimitiveType::String)), ("width", primitive(PrimitiveType::Integer)), ("pad_char", primitive(PrimitiveType::Integer))], primitive(PrimitiveType::String)),
        create_function_stub("is_numeric", vec![("str", primitive(PrimitiveType::String))], primitive(PrimitiveType::Boolean)),
        create_function_stub("is_alphabetic", vec![("str", primitive(PrimitiveType::String))], primitive(PrimitiveType::Boolean)),
        create_function_stub("is_alphanumeric", vec![("str", primitive(PrimitiveType::String))], primitive(PrimitiveType::Boolean)),
        create_function_stub("is_ascii", vec![("str", primitive(PrimitiveType::String))], primitive(PrimitiveType::Boolean)),
        create_function_stub("to_int", vec![("str", primitive(PrimitiveType::String))], primitive(PrimitiveType::Integer)),
        create_function_stub("to_float", vec![("str", primitive(PrimitiveType::String))], primitive(PrimitiveType::Float)),
        create_function_stub("from_int", vec![("value", primitive(PrimitiveType::Integer))], primitive(PrimitiveType::String)),
        create_function_stub("from_float", vec![("value", primitive(PrimitiveType::Float))], primitive(PrimitiveType::String)),
        create_function_stub("match_pattern", vec![("str", primitive(PrimitiveType::String)), ("pattern", primitive(PrimitiveType::String))], primitive(PrimitiveType::Boolean)),
        create_function_stub("extract_matches", vec![("str", primitive(PrimitiveType::String)), ("pattern", primitive(PrimitiveType::String))], array_of(primitive(PrimitiveType::String))),
        create_function_stub("replace_pattern", vec![("str", primitive(PrimitiveType::String)), ("pattern", primitive(PrimitiveType::String)), ("replacement", primitive(PrimitiveType::String))], primitive(PrimitiveType::String)),
    ];
    let exports: Vec<ExportStatement> = vec![
        export_function("string_length"),
        export_function("starts_with"),
        export_function("to_int"),
    ];
    proof {
        assert(param_names(external_functions@[0].parameters@) =~= seq!["str"@]);
        assert(param_names(external_functions@[1].parameters@) =~= seq!["str1"@, "str2"@]);
        assert(param_names(external_functions@[2].parameters@) =~= seq!["str1"@, "str2"@]);
        assert(param_names(external_functions@[3].parameters@) =~= seq!["str"@]);
        assert(param_names(external_functions@[4].parameters@) =~= seq!["str"@, "start"@, "length"@]);
        assert(param_names(external_functions@[5].parameters@) =~= seq!["haystack"@, "needle"@]);
        assert(param_names(external_functions@[6].parameters@) =~= seq!["haystack"@, "needle"@, "start_index"@]);
        assert(param_names(external_functions@[7].parameters@) =~= seq!["str"@, "old_substr"@, "new_substr"@]);
        assert(param_names(external_functions@[8].parameters@) =~= seq!["str"@]);
        assert(param_names(external_functions@[9].parameters@) =~= seq!["str"@]);
        assert(param_names(external_functions@[10].parameters@) =~= seq!["str"@]);
        assert(param_names(external_functions@[11].parameters@) =~= seq!["str"@]);
        assert(param_names(external_functions@[12].parameters@) =~= seq!["str"@]);
        assert(param_names(external_functions@[13].parameters@) =~= seq!["str"@, "delimiter"@, "max_splits"@]);
        assert(param_names(external_functions@[14].parameters@) =~= seq!["strings"@, "separator"@]);
        assert(param_names(external_functions@[15].parameters@) =~= seq!["str"@, "index"@]);
        assert(param_names(function_definitions@[0].parameters@) =~= seq!["str"@, "prefix"@]);
        assert(param_names(function_definitions@[1].parameters@) =~= seq!["str"@, "suffix"@]);
        assert(param_names(function_definitions@[2].parameters@) =~= seq!["str"@, "substr"@]);
        assert(param_names(function_definitions@[3].parameters@) =~= seq!["str"@]);
        assert(param_names(function_definitions@[4].parameters@) =~= seq!["str"@]);
        assert(param_names(function_definitions@[5].parameters@) =~= seq!["str"@, "count"@]);
        assert(param_names(function_definitions@[6].parameters@) =~= seq!["str"@]);
        assert(param_names(function_definitions@[7].parameters@) =~= seq!["str"@, "width"@, "pad_char"@]);
        assert(param_names(function_definitions@[8].parameters@) =~= seq!["str"@, "width"@, "pad_char"@]);
        assert(param_names(function_definitions@[9].parameters@) =~= seq!["str"@, "width"@, "pad_char"@]);
        assert(param_names(function_definitions@[10].parameters@) =~= seq!["str"@]);
        assert(param_names(function_definitions@[11].parameters@) =~= seq!["str"@]);
        assert(param_names(function_definitions@[12].parameters@) =~= seq!["str"@]);
        assert(param_names(function_definitions@[13].parameters@) =~= seq!["str"@]);
        assert(param_names(function_definitions@[14].parameters@) =~= seq!["str"@]);
        assert(param_names(function_definitions@[15].parameters@) =~= seq!["str"@]);
        assert(param_names(function_definitions@[16].parameters@) =~= seq!["value"@]);
        assert(param_names(function_definitions@[17].parameters@) =~= seq!["value"@]);
        assert(param_names(function_definitions@[18].parameters@) =~= seq!["str"@, "pattern"@]);
        assert(param_names(function_definitions@[19].parameters@) =~= seq!["str"@, "pattern"@]);
        assert(param_names(function_definitions@[20].parameters@) =~= seq!["str"@, "pattern"@, "replacement"@]);
        assert(ext_names(external_functions@) =~= seq!["string_length"@, "string_concat"@, "string_compare"@, "string_copy"@, "string_substring"@, "string_find"@, "string_find_from"@, "string_replace"@, "string_to_lower"@, "string_to_upper"@, "string_trim"@, "string_trim_left"@, "string_trim_right"@, "string_split"@, "string_join"@, "string_char_at"@]);
        assert(ext_symbols(external_functions@) =~= seq![Some("aether_string_length"@), Some("aether_string_concat"@), Some("aether_string_compare"@), Some("aether_string_copy"@), Some("aether_string_substring"@), Some("aether_string_find"@), Some("aether_string_find_from"@), Some("aether_string_replace"@), Some("aether_string_to_lower"@), Some("aether_string_to_upper"@), Some("aether_string_trim"@), Some("aether_string_trim_left"@), Some("aether_string_trim_right"@), Some("aether_string_split"@), Some("aether_string_join"@), Some("aether_string_char_at"@)]);
        assert(ext_param_names(external_functions@) =~= seq![seq!["str"@], seq!["str1"@, "str2"@], seq!["str1"@, "str2"@], seq!["str"@], seq!["str"@, "start"@, "length"@], seq!["haystack"@, "needle"@], seq!["haystack"@, "needle"@, "start_index"@], seq!["str"@, "old_substr"@, "new_substr"@], seq!["str"@], seq!["str"@], seq!["str"@], seq!["str"@], seq!["str"@], seq!["str"@, "delimiter"@, "max_splits"@], seq!["strings"@, "separator"@], seq!["str"@, "index"@]]);
        assert(fn_names(function_definitions@) =~= seq!["starts_with"@, "ends_with"@, "contains"@, "is_empty"@, "is_whitespace"@, "repeat"@, "reverse"@, "pad_left"@, "pad_right"@, "center"@, "is_numeric"@, "is_alphabetic"@, "is_alphanumeric"@, "is_ascii"@, "to_int"@, "to_float"@, "from_int"@, "from_float"@, "match_pattern"@, "extract_matches"@, "replace_pattern"@]);
        assert(fn_param_names(function_definitions@) =~= seq![seq!["str"@, "prefix"@], seq!["str"@, "suffix"@], seq!["str"@, "substr"@], seq!["str"@], seq!["str"@], seq!["str"@, "count"@], seq!["str"@], seq!["str"@, "width"@, "pad_char"@], seq!["str"@, "width"@, "pad_char"@], seq!["str"@, "width"@, "pad_char"@], seq!["str"@], seq!["str"@], seq!["str"@], seq!["str"@], seq!["str"@], seq!["str"@], seq!["value"@], seq!["value"@], seq!["str"@, "pattern"@], seq!["str"@, "pattern"@], seq!["str"@, "pattern"@, "replacement"@]]);
        assert(export_names(exports@) =~= seq!["string_length"@, "starts_with"@, "to_int"@]);
        assert(param_types(external_functions@[0].parameters@) =~= seq![annot_prim(PrimitiveType::String)]);
        assert(param_types(external_functions@[1].parameters@) =~= seq![annot_prim(PrimitiveType::String), annot_prim(PrimitiveType::String)]);
        assert(param_types(external_functions@[2].parameters@) =~= seq![annot_prim(PrimitiveType::String), annot_prim(PrimitiveType::String)]);
        assert(param_types(external_functions@[3].parameters@) =~= seq![annot_prim(PrimitiveType::String)]);
        assert(param_types(external_functions@[4].parameters@) =~= seq![annot_prim(PrimitiveType::String), annot_prim(PrimitiveType::SizeT), annot_prim(PrimitiveType::SizeT)]);
        assert(param_types(external_functions@[5].parameters@) =~= seq![annot_prim(PrimitiveType::String), annot_prim(PrimitiveType::String)]);
        assert(param_types(external_functions@[6].parameters@) =~= seq![annot_prim(PrimitiveType::String), annot_prim(PrimitiveType::String), annot_prim(PrimitiveType::SizeT)]);
        assert(param_types(external_functions@[7].parameters@) =~= seq![annot_prim(PrimitiveType::String), annot_prim(PrimitiveType::String), annot_prim(PrimitiveType::String)]);
        assert(param_types(external_functions@[8].parameters@) =~= seq![annot_prim(PrimitiveType::String)]);
        assert(param_types(external_functions@[9].parameters@) =~= seq![annot_prim(PrimitiveType::String)]);
        assert(param_types(external_functions@[10].parameters@) =~= seq![annot_prim(PrimitiveType::String)]);
        assert(param_types(external_functions@[11].parameters@) =~= seq![annot_prim(PrimitiveType::String)]);
        assert(param_types(external_functions@[12].parameters@) =~= seq![annot_prim(PrimitiveType::String)]);
        assert(param_types(external_functions@[13].parameters@) =~= seq![annot_prim(PrimitiveType::String), annot_prim(PrimitiveType::String), annot_prim(PrimitiveType::Integer)]);
        assert(param_types(external_functions@[14].parameters@) =~= seq![annot_array(annot_prim(PrimitiveType::String)), annot_prim(PrimitiveType::String)]);
        assert(param_types(external_functions@[15].parameters@) =~= seq![annot_prim(PrimitiveType::String), annot_prim(PrimitiveType::SizeT)]);
        assert(param_types(function_definitions@[0].parameters@) =~= seq![annot_prim(PrimitiveType::String), annot_prim(PrimitiveType::String)]);
        assert(param_types(function_definitions@[1].parameters@) =~= seq![annot_prim(PrimitiveType::String), annot_prim(PrimitiveType::String)]);
        assert(param_types(function_definitions@[2].parameters@) =~= seq![annot_prim(PrimitiveType::String), annot_prim(PrimitiveType::String)]);
        assert(param_types(function_definitions@[3].parameters@) =~= seq![annot_prim(PrimitiveType::String)]);
        assert(param_types(function_definitions@[4].parameters@) =~= seq![annot_prim(PrimitiveType::String)]);
        assert(param_types(function_definitions@[5].parameters@) =~= seq![annot_prim(PrimitiveType::String), annot_prim(PrimitiveType::Integer)]);
        assert(param_types(function_definitions@[6].parameters@) =~= seq![annot_prim(PrimitiveType::String)]);
        assert(param_types(function_definitions@[7].parameters@) =~= seq![annot_prim(PrimitiveType::String), annot_prim(PrimitiveType::Integer), annot_prim(PrimitiveType::Integer)]);
        assert(param_types(function_definitions@[8].parameters@) =~= seq![annot_prim(PrimitiveType::String), annot_prim(PrimitiveType::Integer), annot_prim(PrimitiveType::Integer)]);
        assert(param_types(function_definitions@[9].parameters@) =~= seq![annot_prim(PrimitiveType::String), annot_prim(PrimitiveType::Integer), annot_prim(PrimitiveType::Integer)]);
        assert(param_types(function_definitions@[10].parameters@) =~= seq![annot_prim(PrimitiveType::String)]);
        assert(param_types(function_definitions@[11].parameters@) =~= seq![annot_prim(PrimitiveType::String)]);
        assert(param_types(function_definitions@[12].parameters@) =~= seq![annot_prim(PrimitiveType::String)]);
        assert(param_types(function_definitions@[13].parameters@) =~= seq![annot_prim(PrimitiveType::String)]);
        assert(param_types(function_definitions@[14].parameters@) =~= seq![annot_prim(PrimitiveType::String)]);
        assert(param_types(function_definitions@[15].parameters@) =~= seq![annot_prim(PrimitiveType::String)]);
        assert(param_types(function_definitions@[16].parameters@) =~= seq![annot_prim(PrimitiveType::Integer)]);
        assert(param_types(function_definitions@[17].parameters@) =~= seq![annot_prim(PrimitiveType::Float)]);
        assert(param_types(function_definitions@[18].parameters@) =~= seq![annot_prim(PrimitiveType::String), annot_prim(PrimitiveType::String)]);
        assert(param_types(function_definitions@[19].parameters@) =~= seq![annot_prim(PrimitiveType::String), annot_prim(PrimitiveType::String)]);
        assert(param_types(function_definitions@[20].parameters@) =~= seq![annot_prim(PrimitiveType::String), annot_prim(PrimitiveType::String), annot_prim(PrimitiveType::String)]);
        assert(ext_param_types(external_functions@) =~= seq![seq![annot_prim(PrimitiveType::String)], seq![annot_prim(PrimitiveType::String), annot_prim(PrimitiveType::String)], seq![annot_prim(PrimitiveType::String), annot_prim(PrimitiveType::String)], seq![annot_prim(PrimitiveType::String)], seq![annot_prim(PrimitiveType::String), annot_prim(PrimitiveType::SizeT), annot_prim(PrimitiveType::SizeT)], seq![annot_prim(PrimitiveType::String), annot_prim(PrimitiveType::String)], seq![annot_prim(PrimitiveType::String), annot_prim(PrimitiveType::String), annot_prim(PrimitiveType::SizeT)], seq![annot_prim(PrimitiveType::String), annot_prim(PrimitiveType::String), annot_prim(PrimitiveType::String)], seq![annot_prim(PrimitiveType::String)], seq![annot_prim(PrimitiveType::String)], seq![annot_prim(PrimitiveType::String)], seq![annot_prim(PrimitiveType::String)], seq![annot_prim(PrimitiveType::String)], seq![annot_prim(PrimitiveType::String), annot_prim(PrimitiveType::String), annot_prim(PrimitiveType::Integer)], seq![annot_array(annot_prim(PrimitiveType::String)), annot_prim(PrimitiveType::String)], seq![annot_prim(PrimitiveType::String), annot_prim(PrimitiveType::SizeT)]]);
        assert(ext_return_types(external_functions@) =~= seq![annot_prim(PrimitiveType::SizeT), annot_prim(PrimitiveType::String), annot_prim(PrimitiveType::Integer), annot_prim(PrimitiveType::String), annot_prim(PrimitiveType::String), annot_prim(PrimitiveType::Integer), annot_prim(PrimitiveType::Integer), annot_prim(PrimitiveType::String), annot_prim(PrimitiveType::String), annot_prim(PrimitiveType::String), annot_prim(PrimitiveType::String), annot_prim(PrimitiveType::String), annot_prim(PrimitiveType::String), annot_array(annot_prim(PrimitiveType::String)), annot_prim(PrimitiveType::String), annot_prim(PrimitiveType::Integer)]);
        assert(fn_param_types(function_definitions@) =~= seq![seq![annot_prim(PrimitiveType::String), annot_prim(PrimitiveType::String)], seq![annot_prim(PrimitiveType::String), annot_prim(PrimitiveType::String)], seq![annot_prim(PrimitiveType::String), annot_prim(PrimitiveType::String)], seq![annot_prim(PrimitiveType::String)], seq![annot_prim(PrimitiveType::String)], seq![annot_prim(PrimitiveType::String), annot_prim(PrimitiveType::Integer)], seq![annot_prim(PrimitiveType::String)], seq![annot_prim(PrimitiveType::String), annot_prim(PrimitiveType::Integer), annot_prim(PrimitiveType::Integer)], seq![annot_prim(PrimitiveType::String), annot_prim(PrimitiveType::Integer), annot_prim(PrimitiveType::Integer)], seq![annot_prim(PrimitiveType::String), annot_prim(PrimitiveType::Integer), annot_prim(PrimitiveType::Integer)], seq![annot_prim(PrimitiveType::String)], seq![annot_prim(PrimitiveType::String)], seq![annot_prim(PrimitiveType::String)], seq![annot_prim(PrimitiveType::String)], seq![annot_prim(PrimitiveType::String)], seq![annot_prim(PrimitiveType::String)], seq![annot_prim(PrimitiveType::Integer)], seq![annot_prim(PrimitiveType::Float)], seq![annot_prim(PrimitiveType::String), annot_prim(PrimitiveType::String)], seq![annot_prim(PrimitiveType::String), annot_prim(PrimitiveType::String)], seq![annot_prim(PrimitiveType::String), annot_prim(PrimitiveType::String), annot_prim(PrimitiveType::String)]]);
        assert(fn_return_types(function_definitions@) =~= seq![annot_prim(PrimitiveType::Boolean), annot_prim(PrimitiveType::Boolean), annot_prim(PrimitiveType::Boolean), annot_prim(PrimitiveType::Boolean), annot_prim(PrimitiveType::Boolean), annot_prim(PrimitiveType::String), annot_prim(PrimitiveType::String), annot_prim(PrimitiveType::String), annot_prim(PrimitiveType::String), annot_prim(PrimitiveType::String), annot_prim(PrimitiveType::Boolean), annot_prim(PrimitiveType::Boolean), annot_prim(PrimitiveType::Boolean), annot_prim(PrimitiveType::Boolean), annot_prim(PrimitiveType::Integer), annot_prim(PrimitiveType::Float), annot_prim(PrimitiveType::String), annot_prim(PrimitiveType::String), annot_prim(PrimitiveType::Boolean), annot_array(annot_prim(PrimitiveType::String)), annot_prim(PrimitiveType::String)]);
        reveal(is_string_module);
    }
    Module {
        name: Identifier::new("std.string".to_owned(), SourceLocation::unknown()),
        intent: Some("Provides comprehensive string manipulation and utility functions".to_owned()),
        imports: Vec::new(),
        exports,
        type_definitions: Vec::new(),
        constant_declarations: Vec::new(),
        function_definitions,
        external_functions,
        source_location: SourceLocation::unknown(),
    }
}

} // verus!
