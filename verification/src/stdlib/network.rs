//! `std.network`: sockets and HTTP helpers.

use vstd::prelude::*;
use crate::ast::unlocated;
use crate::ast::{CallingConvention, ExportStatement, ExternalFunction, Function, Identifier, Module, PrimitiveType, SourceLocation};
use super::{annot_prim, create_external_function_named, create_function_stub, export_function, export_names, ext_names, ext_param_names, ext_param_types, ext_return_types, ext_symbols, fn_names, fn_param_names, fn_param_types, fn_return_types, param_names, param_types, plain_export, plain_external, primitive, stub_function};

verus! {

/// Whether `m` is the `std.network` module as the standard library describes it:
/// its name and intent, its external functions (names, runtime symbols,
/// parameters and return types), its function definitions, its constants
/// and its exports.
#[verifier::opaque]
pub open spec fn is_network_module(m: Module) -> bool {
    &&& unlocated(m.source_location)
    &&& unlocated(m.name.source_location)
    &&& forall|i: int| 0 <= i < m.exports@.len() ==> plain_export(#[trigger] m.exports@[i])
    &&& m.name.name@ == "std.network"@
    &&& m.intent matches Some(s) && s@ == "Provides network socket operations and HTTP utilities for building network applications"@
    &&& m.imports@.len() == 0
    &&& m.type_definitions@.len() == 0
    &&& export_names(m.exports@) == seq!["socket_create"@, "tcp_server"@, "http_parse_request"@]
    &&& m.exports@[0] is Function
    &&& m.exports@[1] is Function
    &&& m.exports@[2] is Function
    &&& ext_names(m.external_functions@) == seq!["socket_create"@, "socket_bind"@, "socket_listen"@, "socket_accept"@, "socket_connect"@, "socket_send"@, "socket_receive"@, "socket_close"@, "socket_set_option"@]
    &&& ext_symbols(m.external_functions@) == seq![Some("aether_socket_create"@), Some("aether_socket_bind"@), Some("aether_socket_listen"@), Some("aether_socket_accept"@), Some("aether_socket_connect"@), Some("aether_socket_send"@), Some("aether_socket_receive"@), Some("aether_socket_close"@), Some("aether_socket_set_option"@)]
    &&& ext_param_names(m.external_functions@) == seq![seq!["domain"@, "type"@, "protocol"@], seq!["socket"@, "address"@, "port"@], seq!["socket"@, "backlog"@], seq!["socket"@], seq!["socket"@, "address"@, "port"@], seq!["socket"@, "data"@], seq!["socket"@, "buffer_size"@], seq!["socket"@], seq!["socket"@, "option"@, "value"@]]
    &&& fn_names(m.function_definitions@) == seq!["tcp_server"@, "tcp_client"@, "udp_socket"@, "http_parse_request"@, "http_create_response"@, "http_send_response"@, "websocket_handshake"@, "resolve_hostname"@, "get_local_ip"@, "is_port_available"@]
    &&& fn_param_names(m.function_definitions@) == seq![seq!["address"@, "port"@], seq!["address"@, "port"@], seq!["address"@, "port"@], seq!["raw_request"@], seq!["status_code"@, "headers"@, "body"@], seq!["socket"@, "response"@], seq!["socket"@, "request_headers"@], seq!["hostname"@], seq![], seq!["address"@, "port"@]]
    &&& m.constant_declarations@.len() == 0
    &&& ext_param_types(m.external_functions@) == seq![seq![annot_prim(PrimitiveType::Integer), annot_prim(PrimitiveType::Integer), annot_prim(PrimitiveType::Integer)], seq![annot_prim(PrimitiveType::Integer), annot_prim(PrimitiveType::String), annot_prim(PrimitiveType::Integer)], seq![annot_prim(PrimitiveType::Integer), annot_prim(PrimitiveType::Integer)], seq![annot_prim(PrimitiveType::Integer)], seq![annot_prim(PrimitiveType::Integer), annot_prim(PrimitiveType::String), annot_prim(PrimitiveType::Integer)], seq![annot_prim(PrimitiveType::Integer), annot_prim(PrimitiveType::String)], seq![annot_prim(PrimitiveType::Integer), annot_prim(PrimitiveType::Integer)], seq![annot_prim(PrimitiveType::Integer)], seq![annot_prim(PrimitiveType::Integer), annot_prim(PrimitiveType::Integer), annot_prim(PrimitiveType::Integer)]]
    &&& ext_return_types(m.external_functions@) == seq![annot_prim(PrimitiveType::Integer), annot_prim(PrimitiveType::Integer), annot_prim(PrimitiveType::Integer), annot_prim(PrimitiveType::Integer), annot_prim(PrimitiveType::Integer), annot_prim(PrimitiveType::Integer), annot_prim(PrimitiveType::String), annot_prim(PrimitiveType::Integer), annot_prim(PrimitiveType::Integer)]
    &&& fn_param_types(m.function_definitions@) == seq![seq![annot_prim(PrimitiveType::String), annot_prim(PrimitiveType::Integer)], seq![annot_prim(PrimitiveType::String), annot_prim(PrimitiveType::Integer)], seq![annot_prim(PrimitiveType::String), annot_prim(PrimitiveType::Integer)], seq![annot_prim(PrimitiveType::String)], seq![annot_prim(PrimitiveType::Integer), annot_prim(PrimitiveType::String), annot_prim(PrimitiveType::String)], seq![annot_prim(PrimitiveType::Integer), annot_prim(PrimitiveType::String)], seq![annot_prim(PrimitiveType::Integer), annot_prim(PrimitiveType::String)], seq![annot_prim(PrimitiveType::String)], seq![], seq![annot_prim(PrimitiveType::String), annot_prim(PrimitiveType::Integer)]]
    &&& fn_return_types(m.function_definitions@) == seq![annot_prim(PrimitiveType::Integer), annot_prim(PrimitiveType::Integer), annot_prim(PrimitiveType::Integer), annot_prim(PrimitiveType::String), annot_prim(PrimitiveType::String), annot_prim(PrimitiveType::Boolean), annot_prim(PrimitiveType::Boolean), annot_prim(PrimitiveType::String), annot_prim(PrimitiveType::String), annot_prim(PrimitiveType::Boolean)]
    &&& forall|i: int| 0 <= i < m.external_functions@.len() ==> plain_external(#[trigger] m.external_functions@[i])
    &&& forall|i: int| 0 <= i < m.function_definitions@.len() ==> stub_function(#[trigger] m.function_definitions@[i])
}

/// Describes the `std.network` module: its external functions, its function
/// definitions and its exports.
#[verifier::rlimit(50)]
pub fn create_network_module() -> (m: Module)
    ensures
        is_network_module(m),
        m.name.name@ == "std.network"@,
{
    let external_functions: Vec<ExternalFunction> = vec![
        create_external_function_named(
            "socket_create",
            "aether_socket_create",
            vec![("domain", primitive(PrimitiveType::Integer)), ("type", primitive(PrimitiveType::Integer)), ("protocol", primitive(PrimitiveType::Integer))],
            primitive(PrimitiveType::Integer),
            CallingConvention::C,
        ),
        create_external_function_named(
            "socket_bind",
            "aether_socket_bind",
            vec![("socket", primitive(PrimitiveType::Integer)), ("address", primitive(PrimitiveType::String)), ("port", primitive(PrimitiveType::Integer))],
            primitive(PrimitiveType::Integer),
            CallingConvention::C,
        ),
        create_external_function_named(
            "socket_listen",
            "aether_socket_listen",
            vec![("socket", primitive(PrimitiveType::Integer)), ("backlog", primitive(PrimitiveType::Integer))],
            primitive(PrimitiveType::Integer),
            CallingConvention::C,
        ),
        create_external_function_named(
            "socket_accept",
            "aether_socket_accept",
            vec![("socket", primitive(PrimitiveType::Integer))],
            primitive(PrimitiveType::Integer),
            CallingConvention::C,
        ),
        create_external_function_named(
            "socket_connect",
            "aether_socket_connect",
            vec![("socket", primitive(PrimitiveType::Integer)), ("address", primitive(PrimitiveType::String)), ("port", primitive(PrimitiveType::Integer))],
            primitive(PrimitiveType::Integer),
            CallingConvention::C,
        ),
        create_external_function_named(
            "socket_send",
            "aether_socket_send",
            vec![("socket", primitive(PrimitiveType::Integer)), ("data", primitive(PrimitiveType::String))],
            primitive(PrimitiveType::Integer),
            CallingConvention::C,
        ),
        create_external_function_named(
            "socket_receive",
            "aether_socket_receive",
            vec![("socket", primitive(PrimitiveType::Integer)), ("buffer_size", primitive(PrimitiveType::Integer))],
            primitive(PrimitiveType::String),
            CallingConvention::C,
        ),
        create_external_function_named(
            "socket_close",
            "aether_socket_close",
            vec![("socket", primitive(PrimitiveType::Integer))],
            primitive(PrimitiveType::Integer),
            CallingConvention::C,
        ),
        create_external_function_named(
            "socket_set_option",
            "aether_socket_set_option",
            vec![("socket", primitive(PrimitiveType::Integer)), ("option", primitive(PrimitiveType::Integer)), ("value", primitive(PrimitiveType::Integer))],
            primitive(PrimitiveType::Integer),
            CallingConvention::C,
        ),
    ];
    let function_definitions: Vec<Function> = vec![
        create_function_stub("tcp_server", vec![("address", primitive(PrimitiveType::String)), ("port", primitive(PrimitiveType::Integer))], primitive(PrimitiveType::Integer)),
        create_function_stub("tcp_client", vec![("address", primitive(PrimitiveType::String)), ("port", primitive(PrimitiveType::Integer))], primitive(PrimitiveType::Integer)),
        create_function_stub("udp_socket", vec![("address", primitive(PrimitiveType::String)), ("port", primitive(PrimitiveType::Integer))], primitive(PrimitiveType::Integer)),
        create_function_stub("http_parse_request", vec![("raw_request", primitive(PrimitiveType::String))], primitive(PrimitiveType::String)),
        create_function_stub("http_create_response", vec![("status_code", primitive(PrimitiveType::Integer)), ("headers", primitive(PrimitiveType::String)), ("body", primitive(PrimitiveType::String))], primitive(PrimitiveType::String)),
        create_function_stub("http_send_response", vec![("socket", primitive(PrimitiveType::Integer)), ("response", primitive(PrimitiveType::String))], primitive(PrimitiveType::Boolean)),
        create_function_stub("websocket_handshake", vec![("socket", primitive(PrimitiveType::Integer)), ("request_headers", primitive(PrimitiveType::String))], primitive(PrimitiveType::Boolean)),
        create_function_stub("resolve_hostname", vec![("hostname", primitive(PrimitiveType::String))], primitive(PrimitiveType::String)),
        create_function_stub("get_local_ip", vec![], primitive(PrimitiveType::String)),
        create_function_stub("is_port_available", vec![("address", primitive(PrimitiveType::String)), ("port", primitive(PrimitiveType::Integer))], primitive(PrimitiveType::Boolean)),
    ];
    let exports: Vec<ExportStatement> = vec![
        export_function("socket_create"),
        export_function("tcp_server"),
        export_function("http_parse_request"),
    ];
    proof {
        assert(param_names(external_functions@[0].parameters@) =~= seq!["domain"@, "type"@, "protocol"@]);
        assert(param_names(external_functions@[1].parameters@) =~= seq!["socket"@, "address"@, "port"@]);
        assert(param_names(external_functions@[2].parameters@) =~= seq!["socket"@, "backlog"@]);
        assert(param_names(external_functions@[3].parameters@) =~= seq!["socket"@]);
        assert(param_names(external_functions@[4].parameters@) =~= seq!["socket"@, "address"@, "port"@]);
        assert(param_names(external_functions@[5].parameters@) =~= seq!["socket"@, "data"@]);
        assert(param_names(external_functions@[6].parameters@) =~= seq!["socket"@, "buffer_size"@]);
        assert(param_names(external_functions@[7].parameters@) =~= seq!["socket"@]);
        assert(param_names(external_functions@[8].parameters@) =~= seq!["socket"@, "option"@, "value"@]);
        assert(param_names(function_definitions@[0].parameters@) =~= seq!["address"@, "port"@]);
        assert(param_names(function_definitions@[1].parameters@) =~= seq!["address"@, "port"@]);
        assert(param_names(function_definitions@[2].parameters@) =~= seq!["address"@, "port"@]);
        assert(param_names(function_definitions@[3].parameters@) =~= seq!["raw_request"@]);
        assert(param_names(function_definitions@[4].parameters@) =~= seq!["status_code"@, "headers"@, "body"@]);
        assert(param_names(function_definitions@[5].parameters@) =~= seq!["socket"@, "response"@]);
        assert(param_names(function_definitions@[6].parameters@) =~= seq!["socket"@, "request_headers"@]);
        assert(param_names(function_definitions@[7].parameters@) =~= seq!["hostname"@]);
        assert(param_names(function_definitions@[8].parameters@) =~= seq![]);
        assert(param_names(function_definitions@[9].parameters@) =~= seq!["address"@, "port"@]);
        assert(ext_names(external_functions@) =~= seq!["socket_create"@, "socket_bind"@, "socket_listen"@, "socket_accept"@, "socket_connect"@, "socket_send"@, "socket_receive"@, "socket_close"@, "socket_set_option"@]);
        assert(ext_symbols(external_functions@) =~= seq![Some("aether_socket_create"@), Some("aether_socket_bind"@), Some("aether_socket_listen"@), Some("aether_socket_accept"@), Some("aether_socket_connect"@), Some("aether_socket_send"@), Some("aether_socket_receive"@), Some("aether_socket_close"@), Some("aether_socket_set_option"@)]);
        assert(ext_param_names(external_functions@) =~= seq![seq!["domain"@, "type"@, "protocol"@], seq!["socket"@, "address"@, "port"@], seq!["socket"@, "backlog"@], seq!["socket"@], seq!["socket"@, "address"@, "port"@], seq!["socket"@, "data"@], seq!["socket"@, "buffer_size"@], seq!["socket"@], seq!["socket"@, "option"@, "value"@]]);
        assert(fn_names(function_definitions@) =~= seq!["tcp_server"@, "tcp_client"@, "udp_socket"@, "http_parse_request"@, "http_create_response"@, "http_send_response"@, "websocket_handshake"@, "resolve_hostname"@, "get_local_ip"@, "is_port_available"@]);
        assert(fn_param_names(function_definitions@) =~= seq![seq!["address"@, "port"@], seq!["address"@, "port"@], seq!["address"@, "port"@], seq!["raw_request"@], seq!["status_code"@, "headers"@, "body"@], seq!["socket"@, "response"@], seq!["socket"@, "request_headers"@], seq!["hostname"@], seq![], seq!["address"@, "port"@]]);
        assert(export_names(exports@) =~= seq!["socket_create"@, "tcp_server"@, "http_parse_request"@]);
        assert(param_types(external_functions@[0].parameters@) =~= seq![annot_prim(PrimitiveType::Integer), annot_prim(PrimitiveType::Integer), annot_prim(PrimitiveType::Integer)]);
        assert(param_types(external_functions@[1].parameters@) =~= seq![annot_prim(PrimitiveType::Integer), annot_prim(PrimitiveType::String), annot_prim(PrimitiveType::Integer)]);
        assert(param_types(external_functions@[2].parameters@) =~= seq![annot_prim(PrimitiveType::Integer), annot_prim(PrimitiveType::Integer)]);
        assert(param_types(external_functions@[3].parameters@) =~= seq![annot_prim(PrimitiveType::Integer)]);
        assert(param_types(external_functions@[4].parameters@) =~= seq![annot_prim(PrimitiveType::Integer), annot_prim(PrimitiveType::String), annot_prim(PrimitiveType::Integer)]);
        assert(param_types(external_functions@[5].parameters@) =~= seq![annot_prim(PrimitiveType::Integer), annot_prim(PrimitiveType::String)]);
        assert(param_types(external_functions@[6].parameters@) =~= seq![annot_prim(PrimitiveType::Integer), annot_prim(PrimitiveType::Integer)]);
        assert(param_types(external_functions@[7].parameters@) =~= seq![annot_prim(PrimitiveType::Integer)]);
        assert(param_types(external_functions@[8].parameters@) =~= seq![annot_prim(PrimitiveType::Integer), annot_prim(PrimitiveType::Integer), annot_prim(PrimitiveType::Integer)]);
        assert(param_types(function_definitions@[0].parameters@) =~= seq![annot_prim(PrimitiveType::String), annot_prim(PrimitiveType::Integer)]);
        assert(param_types(function_definitions@[1].parameters@) =~= seq![annot_prim(PrimitiveType::String), annot_prim(PrimitiveType::Integer)]);
        assert(param_types(function_definitions@[2].parameters@) =~= seq![annot_prim(PrimitiveType::String), annot_prim(PrimitiveType::Integer)]);
        assert(param_types(function_definitions@[3].parameters@) =~= seq![annot_prim(PrimitiveType::String)]);
        assert(param_types(function_definitions@[4].parameters@) =~= seq![annot_prim(PrimitiveType::Integer), annot_prim(PrimitiveType::String), annot_prim(PrimitiveType::String)]);
        assert(param_types(function_definitions@[5].parameters@) =~= seq![annot_prim(PrimitiveType::Integer), annot_prim(PrimitiveType::String)]);
        assert(param_types(function_definitions@[6].parameters@) =~= seq![annot_prim(PrimitiveType::Integer), annot_prim(PrimitiveType::String)]);
        assert(param_types(function_definitions@[7].parameters@) =~= seq![annot_prim(PrimitiveType::String)]);
        assert(param_types(function_definitions@[8].parameters@) =~= seq![]);
        assert(param_types(function_definitions@[9].parameters@) =~= seq![annot_prim(PrimitiveType::String), annot_prim(PrimitiveType::Integer)]);
        assert(ext_param_types(external_functions@) =~= seq![seq![annot_prim(PrimitiveType::Integer), annot_prim(PrimitiveType::Integer), annot_prim(PrimitiveType::Integer)], seq![annot_prim(PrimitiveType::Integer), annot_prim(PrimitiveType::String), annot_prim(PrimitiveType::Integer)], seq![annot_prim(PrimitiveType::Integer), annot_prim(PrimitiveType::Integer)], seq![annot_prim(PrimitiveType::Integer)], seq![annot_prim(PrimitiveType::Integer), annot_prim(PrimitiveType::String), annot_prim(PrimitiveType::Integer)], seq![annot_prim(PrimitiveType::Integer), annot_prim(PrimitiveType::String)], seq![annot_prim(PrimitiveType::Integer), annot_prim(PrimitiveType::Integer)], seq![annot_prim(PrimitiveType::Integer)], seq![annot_prim(PrimitiveType::Integer), annot_prim(PrimitiveType::Integer), annot_prim(PrimitiveType::Integer)]]);
        assert(ext_return_types(external_functions@) =~= seq![annot_prim(PrimitiveType::Integer), annot_prim(PrimitiveType::Integer), annot_prim(PrimitiveType::Integer), annot_prim(PrimitiveType::Integer), annot_prim(PrimitiveType::Integer), annot_prim(PrimitiveType::Integer), annot_prim(PrimitiveType::String), annot_prim(PrimitiveType::Integer), annot_prim(PrimitiveType::Integer)]);
        assert(fn_param_types(function_definitions@) =~= seq![seq![annot_prim(PrimitiveType::String), annot_prim(PrimitiveType::Integer)], seq![annot_prim(PrimitiveType::String), annot_prim(PrimitiveType::Integer)], seq![annot_prim(PrimitiveType::String), annot_prim(PrimitiveType::Integer)], seq![annot_prim(PrimitiveType::String)], seq![annot_prim(PrimitiveType::Integer), annot_prim(PrimitiveType::String), annot_prim(PrimitiveType::String)], seq![annot_prim(PrimitiveType::Integer), annot_prim(PrimitiveType::String)], seq![annot_prim(PrimitiveType::Integer), annot_prim(PrimitiveType::String)], seq![annot_prim(PrimitiveType::String)], seq![], seq![annot_prim(PrimitiveType::String), annot_prim(PrimitiveType::Integer)]]);
        assert(fn_return_types(function_definitions@) =~= seq![annot_prim(PrimitiveType::Integer), annot_prim(PrimitiveType::Integer), annot_prim(PrimitiveType::Integer), annot_prim(PrimitiveType::String), annot_prim(PrimitiveType::String), annot_prim(PrimitiveType::Boolean), annot_prim(PrimitiveType::Boolean), annot_prim(PrimitiveType::String), annot_prim(PrimitiveType::String), annot_prim(PrimitiveType::Boolean)]);
        reveal(is_network_module);
    }
    Module {
        name: Identifier::new("std.network".to_owned(), SourceLocation::unknown()),
        intent: Some("Provides network socket operations and HTTP utilities for building network applications".to_owned()),
        imports: Vec::new(),
        exports,
        type_definitions: Vec::new(),
        constant_declarations: Vec::new(),
        function_definitions,
        external_functions,
        source_location: SourceLocation::unknown(),
    }
}

} // verus!
