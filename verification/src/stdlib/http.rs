//! `std.http`: HTTP parsing and responses.

use vstd::prelude::*;
use crate::ast::unlocated;
use crate::ast::{CallingConvention, ExportStatement, ExternalFunction, Function, Identifier, Module, PrimitiveType, SourceLocation};
use super::{annot_prim, create_external_function_named, create_function_stub, export_function, export_names, ext_names, ext_param_names, ext_param_types, ext_return_types, ext_symbols, fn_names, fn_param_names, fn_param_types, fn_return_types, param_names, param_types, plain_export, plain_external, primitive, stub_function};

verus! {

/// Whether `m` is the `std.http` module as the standard library describes it:
/// its name and intent, its external functions (names, runtime symbols,
/// parameters and return types), its function definitions, its constants
/// and its exports.
#[verifier::opaque]
pub open spec fn is_http_module(m: Module) -> bool {
    &&& unlocated(m.source_location)
    &&& unlocated(m.name.source_location)
    &&& forall|i: int| 0 <= i < m.exports@.len() ==> plain_export(#[trigger] m.exports@[i])
    &&& m.name.name@ == "std.http"@
    &&& m.intent matches Some(s) && s@ == "Provides HTTP protocol parsing and response generation utilities"@
    &&& m.imports@.len() == 0
    &&& m.type_definitions@.len() == 0
    &&& export_names(m.exports@) == seq!["parse_request"@, "create_response"@, "json_response"@, "redirect"@]
    &&& m.exports@[0] is Function
    &&& m.exports@[1] is Function
    &&& m.exports@[2] is Function
    &&& m.exports@[3] is Function
    &&& ext_names(m.external_functions@) == seq!["parse_request_line"@, "parse_headers"@, "parse_url"@, "parse_query_string"@, "url_encode"@, "url_decode"@, "format_response"@, "format_status_line"@]
    &&& ext_symbols(m.external_functions@) == seq![Some("aether_http_parse_request_line"@), Some("aether_http_parse_headers"@), Some("aether_http_parse_url"@), Some("aether_http_parse_query_string"@), Some("aether_http_url_encode"@), Some("aether_http_url_decode"@), Some("aether_http_format_response"@), Some("aether_http_format_status_line"@)]
    &&& ext_param_names(m.external_functions@) == seq![seq!["line"@], seq!["headers_text"@], seq!["url"@], seq!["query"@], seq!["text"@], seq!["encoded"@], seq!["status_code"@, "headers"@, "body"@], seq!["version"@, "status_code"@, "reason_phrase"@]]
    &&& fn_names(m.function_definitions@) == seq!["parse_request"@, "create_response"@, "add_header"@, "set_content_type"@, "set_content_length"@, "parse_cookies"@, "set_cookie"@, "is_get"@, "is_post"@, "is_put"@, "is_delete"@, "accepts"@, "prefers"@, "redirect"@, "not_found"@, "server_error"@, "json_response"@]
    &&& fn_param_names(m.function_definitions@) == seq![seq!["raw_request"@], seq!["status_code"@, "body"@], seq!["response"@, "name"@, "value"@], seq!["response"@, "content_type"@], seq!["response"@, "length"@], seq!["cookie_header"@], seq!["response"@, "name"@, "value"@, "options"@], seq!["request"@], seq!["request"@], seq!["request"@], seq!["request"@], seq!["request"@, "content_type"@], seq!["request"@, "types"@], seq!["location"@, "permanent"@], seq!["message"@], seq!["message"@], seq!["data"@, "status_code"@]]
    &&& m.constant_declarations@.len() == 0
    &&& ext_param_types(m.external_functions@) == seq![seq![annot_prim(PrimitiveType::String)], seq![annot_prim(PrimitiveType::String)], seq![annot_prim(PrimitiveType::String)], seq![annot_prim(PrimitiveType::String)], seq![annot_prim(PrimitiveType::String)], seq![annot_prim(PrimitiveType::String)], seq![annot_prim(PrimitiveType::Integer), annot_prim(PrimitiveType::String), annot_prim(PrimitiveType::String)], seq![annot_prim(PrimitiveType::String), annot_prim(PrimitiveType::Integer), annot_prim(PrimitiveType::String)]]
    &&& ext_return_types(m.external_functions@) == seq![annot_prim(PrimitiveType::String), annot_prim(PrimitiveType::String), annot_prim(PrimitiveType::String), annot_prim(PrimitiveType::String), annot_prim(PrimitiveType::String), annot_prim(PrimitiveType::String), annot_prim(PrimitiveType::String), annot_prim(PrimitiveType::String)]
    &&& fn_param_types(m.function_definitions@) == seq![seq![annot_prim(PrimitiveType::String)], seq![annot_prim(PrimitiveType::Integer), annot_prim(PrimitiveType::String)], seq![annot_prim(PrimitiveType::String), annot_prim(PrimitiveType::String), annot_prim(PrimitiveType::String)], seq![annot_prim(PrimitiveType::String), annot_prim(PrimitiveType::String)], seq![annot_prim(PrimitiveType::String), annot_prim(PrimitiveType::SizeT)], seq![annot_prim(PrimitiveType::String)], seq![annot_prim(PrimitiveType::String), annot_prim(PrimitiveType::String), annot_prim(PrimitiveType::String), annot_prim(PrimitiveType::String)], seq![annot_prim(PrimitiveType::String)], seq![annot_prim(PrimitiveType::String)], seq![annot_prim(PrimitiveType::String)], seq![annot_prim(PrimitiveType::String)], seq![annot_prim(PrimitiveType::String), annot_prim(PrimitiveType::String)], seq![annot_prim(PrimitiveType::String), annot_prim(PrimitiveType::String)], seq![annot_prim(PrimitiveType::String), annot_prim(PrimitiveType::Boolean)], seq![annot_prim(PrimitiveType::String)], seq![annot_prim(PrimitiveType::String)], seq![annot_prim(PrimitiveType::String), annot_prim(PrimitiveType::Integer)]]
    &&& fn_return_types(m.function_definitions@) == seq![annot_prim(PrimitiveType::String), annot_prim(PrimitiveType::String), annot_prim(PrimitiveType::String), annot_prim(PrimitiveType::String), annot_prim(PrimitiveType::String), annot_prim(PrimitiveType::String), annot_prim(PrimitiveType::String), annot_prim(PrimitiveType::Boolean), annot_prim(PrimitiveType::Boolean), annot_prim(PrimitiveType::Boolean), annot_prim(PrimitiveType::Boolean), annot_prim(PrimitiveType::Boolean), annot_prim(PrimitiveType::String), annot_prim(PrimitiveType::String), annot_prim(PrimitiveType::String), annot_prim(PrimitiveType::String), annot_prim(PrimitiveType::String)]
    &&& forall|i: int| 0 <= i < m.external_functions@.len() ==> plain_external(#[trigger] m.external_functions@[i])
    &&& forall|i: int| 0 <= i < m.function_definitions@.len() ==> stub_function(#[trigger] m.function_definitions@[i])
}

/// Describes the `std.http` module: its external functions, its function
/// definitions and its exports.
#[verifier::rlimit(50)]
pub fn create_http_module() -> (m: Module)
    ensures
        is_http_module(m),
        m.name.name@ == "std.http"@,
{
    let external_functions: Vec<ExternalFunction> = vec![
        create_external_function_named(
            "parse_request_line",
            "aether_http_parse_request_line",
            vec![("line", primitive(PrimitiveType::String))],
            primitive(PrimitiveType::String),
            CallingConvention::C,
        ),
        create_external_function_named(
            "parse_headers",
            "aether_http_parse_headers",
            vec![("headers_text", primitive(PrimitiveType::String))],
            primitive(PrimitiveType::String),
            CallingConvention::C,
        ),
        create_external_function_named(
            "parse_url",
            "aether_http_parse_url",
            vec![("url", primitive(PrimitiveType::String))],
            primitive(PrimitiveType::String),
            CallingConvention::C,
        ),
        create_external_function_named(
            "parse_query_string",
            "aether_http_parse_query_string",
            vec![("query", primitive(PrimitiveType::String))],
            primitive(PrimitiveType::String),
            CallingConvention::C,
        ),
        create_external_function_named(
            "url_encode",
            "aether_http_url_encode",
            vec![("text", primitive(PrimitiveType::String))],
            primitive(PrimitiveType::String),
            CallingConvention::C,
        ),
        create_external_function_named(
            "url_decode",
            "aether_http_url_decode",
            vec![("encoded", primitive(PrimitiveType::String))],
            primitive(PrimitiveType::String),
            CallingConvention::C,
        ),
        create_external_function_named(
            "format_response",
            "aether_http_format_response",
            vec![("status_code", primitive(PrimitiveType::Integer)), ("headers", primitive(PrimitiveType::String)), ("body", primitive(PrimitiveType::String))],
            primitive(PrimitiveType::String),
            CallingConvention::C,
        ),
        create_external_function_named(
            "format_status_line",
            "aether_http_format_status_line",
            vec![("version", primitive(PrimitiveType::String)), ("status_code", primitive(PrimitiveType::Integer)), ("reason_phrase", primitive(PrimitiveType::String))],
            primitive(PrimitiveType::String),
            CallingConvention::C,
        ),
    ];
    let function_definitions: Vec<Function> = vec![
        create_function_stub("parse_request", vec![("raw_request", primitive(PrimitiveType::String))], primitive(PrimitiveType::String)),
        create_function_stub("create_response", vec![("status_code", primitive(PrimitiveType::Integer)), ("body", primitive(PrimitiveType::String))], primitive(PrimitiveType::String)),
        create_function_stub("add_header", vec![("response", primitive(PrimitiveType::String)), ("name", primitive(PrimitiveType::String)), ("value", primitive(PrimitiveType::String))], primitive(PrimitiveType::String)),
        create_function_stub("set_content_type", vec![("response", primitive(PrimitiveType::String)), ("content_type", primitive(PrimitiveType::String))], primitive(PrimitiveType::String)),
        create_function_stub("set_content_length", vec![("response", primitive(PrimitiveType::String)), ("length", primitive(PrimitiveType::SizeT))], primitive(PrimitiveType::String)),
        create_function_stub("parse_cookies", vec![("cookie_header", primitive(PrimitiveType::String))], primitive(PrimitiveType::String)),
        create_function_stub("set_cookie", vec![("response", primitive(PrimitiveType::String)), ("name", primitive(PrimitiveType::String)), ("value", primitive(PrimitiveType::String)), ("options", primitive(PrimitiveType::String))], primitive(PrimitiveType::String)),
        create_function_stub("is_get", vec![("request", primitive(PrimitiveType::String))], primitive(PrimitiveType::Boolean)),
        create_function_stub("is_post", vec![("request", primitive(PrimitiveType::String))], primitive(PrimitiveType::Boolean)),
        create_function_stub("is_put", vec![("request", primitive(PrimitiveType::String))], primitive(PrimitiveType::Boolean)),
        create_function_stub("is_delete", vec![("request", primitive(PrimitiveType::String))], primitive(PrimitiveType::Boolean)),
        create_function_stub("accepts", vec![("request", primitive(PrimitiveType::String)), ("content_type", primitive(PrimitiveType::String))], primitive(PrimitiveType::Boolean)),
        create_function_stub("prefers", vec![("request", primitive(PrimitiveType::String)), ("types", primitive(PrimitiveType::String))], primitive(PrimitiveType::String)),
        create_function_stub("redirect", vec![("location", primitive(PrimitiveType::String)), ("permanent", primitive(PrimitiveType::Boolean))], primitive(PrimitiveType::String)),
        create_function_stub("not_found", vec![("message", primitive(PrimitiveType::String))], primitive(PrimitiveType::String)),
        create_function_stub("server_error", vec![("message", primitive(PrimitiveType::String))], primitive(PrimitiveType::String)),
        create_function_stub("json_response", vec![("data", primitive(PrimitiveType::String)), ("status_code", primitive(PrimitiveType::Integer))], primitive(PrimitiveType::String)),
    ];
    let exports: Vec<ExportStatement> = vec![
        export_function("parse_request"),
        export_function("create_response"),
        export_function("json_response"),
        export_function("redirect"),
    ];
    proof {
        assert(param_names(external_functions@[0].parameters@) =~= seq!["line"@]);
        assert(param_names(external_functions@[1].parameters@) =~= seq!["headers_text"@]);
        assert(param_names(external_functions@[2].parameters@) =~= seq!["url"@]);
        assert(param_names(external_functions@[3].parameters@) =~= seq!["query"@]);
        assert(param_names(external_functions@[4].parameters@) =~= seq!["text"@]);
        assert(param_names(external_functions@[5].parameters@) =~= seq!["encoded"@]);
        assert(param_names(external_functions@[6].parameters@) =~= seq!["status_code"@, "headers"@, "body"@]);
        assert(param_names(external_functions@[7].parameters@) =~= seq!["version"@, "status_code"@, "reason_phrase"@]);
        assert(param_names(function_definitions@[0].parameters@) =~= seq!["raw_request"@]);
        assert(param_names(function_definitions@[1].parameters@) =~= seq!["status_code"@, "body"@]);
        assert(param_names(function_definitions@[2].parameters@) =~= seq!["response"@, "name"@, "value"@]);
        assert(param_names(function_definitions@[3].parameters@) =~= seq!["response"@, "content_type"@]);
        assert(param_names(function_definitions@[4].parameters@) =~= seq!["response"@, "length"@]);
        assert(param_names(function_definitions@[5].parameters@) =~= seq!["cookie_header"@]);
        assert(param_names(function_definitions@[6].parameters@) =~= seq!["response"@, "name"@, "value"@, "options"@]);
        assert(param_names(function_definitions@[7].parameters@) =~= seq!["request"@]);
        assert(param_names(function_definitions@[8].parameters@) =~= seq!["request"@]);
        assert(param_names(function_definitions@[9].parameters@) =~= seq!["request"@]);
        assert(param_names(function_definitions@[10].parameters@) =~= seq!["request"@]);
        assert(param_names(function_definitions@[11].parameters@) =~= seq!["request"@, "content_type"@]);
        assert(param_names(function_definitions@[12].parameters@) =~= seq!["request"@, "types"@]);
        assert(param_names(function_definitions@[13].parameters@) =~= seq!["location"@, "permanent"@]);
        assert(param_names(function_definitions@[14].parameters@) =~= seq!["message"@]);
        assert(param_names(function_definitions@[15].parameters@) =~= seq!["message"@]);
        assert(param_names(function_definitions@[16].parameters@) =~= seq!["data"@, "status_code"@]);
        assert(ext_names(external_functions@) =~= seq!["parse_request_line"@, "parse_headers"@, "parse_url"@, "parse_query_string"@, "url_encode"@, "url_decode"@, "format_response"@, "format_status_line"@]);
        assert(ext_symbols(external_functions@) =~= seq![Some("aether_http_parse_request_line"@), Some("aether_http_parse_headers"@), Some("aether_http_parse_url"@), Some("aether_http_parse_query_string"@), Some("aether_http_url_encode"@), Some("aether_http_url_decode"@), Some("aether_http_format_response"@), Some("aether_http_format_status_line"@)]);
        assert(ext_param_names(external_functions@) =~= seq![seq!["line"@], seq!["headers_text"@], seq!["url"@], seq!["query"@], seq!["text"@], seq!["encoded"@], seq!["status_code"@, "headers"@, "body"@], seq!["version"@, "status_code"@, "reason_phrase"@]]);
        assert(fn_names(function_definitions@) =~= seq!["parse_request"@, "create_response"@, "add_header"@, "set_content_type"@, "set_content_length"@, "parse_cookies"@, "set_cookie"@, "is_get"@, "is_post"@, "is_put"@, "is_delete"@, "accepts"@, "prefers"@, "redirect"@, "not_found"@, "server_error"@, "json_response"@]);
        assert(fn_param_names(function_definitions@) =~= seq![seq!["raw_request"@], seq!["status_code"@, "body"@], seq!["response"@, "name"@, "value"@], seq!["response"@, "content_type"@], seq!["response"@, "length"@], seq!["cookie_header"@], seq!["response"@, "name"@, "value"@, "options"@], seq!["request"@], seq!["request"@], seq!["request"@], seq!["request"@], seq!["request"@, "content_type"@], seq!["request"@, "types"@], seq!["location"@, "permanent"@], seq!["message"@], seq!["message"@], seq!["data"@, "status_code"@]]);
        assert(export_names(exports@) =~= seq!["parse_request"@, "create_response"@, "json_response"@, "redirect"@]);
        assert(param_types(external_functions@[0].parameters@) =~= seq![annot_prim(PrimitiveType::String)]);
        assert(param_types(external_functions@[1].parameters@) =~= seq![annot_prim(PrimitiveType::String)]);
        assert(param_types(external_functions@[2].parameters@) =~= seq![annot_prim(PrimitiveType::String)]);
        assert(param_types(external_functions@[3].parameters@) =~= seq![annot_prim(PrimitiveType::String)]);
        assert(param_types(external_functions@[4].parameters@) =~= seq![annot_prim(PrimitiveType::String)]);
        assert(param_types(external_functions@[5].parameters@) =~= seq![annot_prim(PrimitiveType::String)]);
        assert(param_types(external_functions@[6].parameters@) =~= seq![annot_prim(PrimitiveType::Integer), annot_prim(PrimitiveType::String), annot_prim(PrimitiveType::String)]);
        assert(param_types(external_functions@[7].parameters@) =~= seq![annot_prim(PrimitiveType::String), annot_prim(PrimitiveType::Integer), annot_prim(PrimitiveType::String)]);
        assert(param_types(function_definitions@[0].parameters@) =~= seq![annot_prim(PrimitiveType::String)]);
        assert(param_types(function_definitions@[1].parameters@) =~= seq![annot_prim(PrimitiveType::Integer), annot_prim(PrimitiveType::String)]);
        assert(param_types(function_definitions@[2].parameters@) =~= seq![annot_prim(PrimitiveType::String), annot_prim(PrimitiveType::String), annot_prim(PrimitiveType::String)]);
        assert(param_types(function_definitions@[3].parameters@) =~= seq![annot_prim(PrimitiveType::String), annot_prim(PrimitiveType::String)]);
        assert(param_types(function_definitions@[4].parameters@) =~= seq![annot_prim(PrimitiveType::String), annot_prim(PrimitiveType::SizeT)]);
        assert(param_types(function_definitions@[5].parameters@) =~= seq![annot_prim(PrimitiveType::String)]);
        assert(param_types(function_definitions@[6].parameters@) =~= seq![annot_prim(PrimitiveType::String), annot_prim(PrimitiveType::String), annot_prim(PrimitiveType::String), annot_prim(PrimitiveType::String)]);
        assert(param_types(function_definitions@[7].parameters@) =~= seq![annot_prim(PrimitiveType::String)]);
        assert(param_types(function_definitions@[8].parameters@) =~= seq![annot_prim(PrimitiveType::String)]);
        assert(param_types(function_definitions@[9].parameters@) =~= seq![annot_prim(PrimitiveType::String)]);
        assert(param_types(function_definitions@[10].parameters@) =~= seq![annot_prim(PrimitiveType::String)]);
        assert(param_types(function_definitions@[11].parameters@) =~= seq![annot_prim(PrimitiveType::String), annot_prim(PrimitiveType::String)]);
        assert(param_types(function_definitions@[12].parameters@) =~= seq![annot_prim(PrimitiveType::String), annot_prim(PrimitiveType::String)]);
        assert(param_types(function_definitions@[13].parameters@) =~= seq![annot_prim(PrimitiveType::String), annot_prim(PrimitiveType::Boolean)]);
        assert(param_types(function_definitions@[14].parameters@) =~= seq![annot_prim(PrimitiveType::String)]);
        assert(param_types(function_definitions@[15].parameters@) =~= seq![annot_prim(PrimitiveType::String)]);
        assert(param_types(function_definitions@[16].parameters@) =~= seq![annot_prim(PrimitiveType::String), annot_prim(PrimitiveType::Integer)]);
        assert(ext_param_types(external_functions@) =~= seq![seq![annot_prim(PrimitiveType::String)], seq![annot_prim(PrimitiveType::String)], seq![annot_prim(PrimitiveType::String)], seq![annot_prim(PrimitiveType::String)], seq![annot_prim(PrimitiveType::String)], seq![annot_prim(PrimitiveType::String)], seq![annot_prim(PrimitiveType::Integer), annot_prim(PrimitiveType::String), annot_prim(PrimitiveType::String)], seq![annot_prim(PrimitiveType::String), annot_prim(PrimitiveType::Integer), annot_prim(PrimitiveType::String)]]);
        assert(ext_return_types(external_functions@) =~= seq![annot_prim(PrimitiveType::String), annot_prim(PrimitiveType::String), annot_prim(PrimitiveType::String), annot_prim(PrimitiveType::String), annot_prim(PrimitiveType::String), annot_prim(PrimitiveType::String), annot_prim(PrimitiveType::String), annot_prim(PrimitiveType::String)]);
        assert(fn_param_types(function_definitions@) =~= seq![seq![annot_prim(PrimitiveType::String)], seq![annot_prim(PrimitiveType::Integer), annot_prim(PrimitiveType::String)], seq![annot_prim(PrimitiveType::String), annot_prim(PrimitiveType::String), annot_prim(PrimitiveType::String)], seq![annot_prim(PrimitiveType::String), annot_prim(PrimitiveType::String)], seq![annot_prim(PrimitiveType::String), annot_prim(PrimitiveType::SizeT)], seq![annot_prim(PrimitiveType::String)], seq![annot_prim(PrimitiveType::String), annot_prim(PrimitiveType::String), annot_prim(PrimitiveType::String), annot_prim(PrimitiveType::String)], seq![annot_prim(PrimitiveType::String)], seq![annot_prim(PrimitiveType::String)], seq![annot_prim(PrimitiveType::String)], seq![annot_prim(PrimitiveType::String)], seq![annot_prim(PrimitiveType::String), annot_prim(PrimitiveType::String)], seq![annot_prim(PrimitiveType::String), annot_prim(PrimitiveType::String)], seq![annot_prim(PrimitiveType::String), annot_prim(PrimitiveType::Boolean)], seq![annot_prim(PrimitiveType::String)], seq![annot_prim(PrimitiveType::String)], seq![annot_prim(PrimitiveType::String), annot_prim(PrimitiveType::Integer)]]);
        assert(fn_return_types(function_definitions@) =~= seq![annot_prim(PrimitiveType::String), annot_prim(PrimitiveType::String), annot_prim(PrimitiveType::String), annot_prim(PrimitiveType::String), annot_prim(PrimitiveType::String), annot_prim(PrimitiveType::String), annot_prim(PrimitiveType::String), annot_prim(PrimitiveType::Boolean), annot_prim(PrimitiveType::Boolean), annot_prim(PrimitiveType::Boolean), annot_prim(PrimitiveType::Boolean), annot_prim(PrimitiveType::Boolean), annot_prim(PrimitiveType::String), annot_prim(PrimitiveType::String), annot_prim(PrimitiveType::String), annot_prim(PrimitiveType::String), annot_prim(PrimitiveType::String)]);
        reveal(is_http_module);
    }
    Module {
        name: Identifier::new("std.http".to_owned(), SourceLocation::unknown()),
        intent: Some("Provides HTTP protocol parsing and response generation utilities".to_owned()),
        imports: Vec::new(),
        exports,
        type_definitions: Vec::new(),
        constant_declarations: Vec::new(),
        function_definitions,
        external_functions,
        source_location: SourceLocation::unknown(),
    }
}

} // verus!
