//! `std.io`: file and console I/O.

use vstd::prelude::*;
use crate::ast::unlocated;
use crate::ast::{CallingConvention, ExportStatement, ExternalFunction, Function, Identifier, Module, PrimitiveType, SourceLocation};
use super::{annot_prim, annot_ptr, create_external_function_named, create_function_stub, export_function, export_names, ext_names, ext_param_names, ext_param_types, ext_return_types, ext_symbols, fn_names, fn_param_names, fn_param_types, fn_return_types, param_names, param_types, plain_export, plain_external, pointer, primitive, stub_function};

verus! {

/// Whether `m` is the `std.io` module as the standard library describes it:
/// its name and intent, its external functions (names, runtime symbols,
/// parameters and return types), its function definitions, its constants
/// and its exports.
#[verifier::opaque]
pub open spec fn is_io_module(m: Module) -> bool {
    &&& unlocated(m.source_location)
    &&& unlocated(m.name.source_location)
    &&& forall|i: int| 0 <= i < m.exports@.len() ==> plain_export(#[trigger] m.exports@[i])
    &&& m.name.name@ == "std.io"@
    &&& m.intent matches Some(s) && s@ == "Provides file and I/O operations for AetherScript programs"@
    &&& m.imports@.len() == 0
    &&& m.type_definitions@.len() == 0
    &&& export_names(m.exports@) == seq!["open_file"@, "read_entire_file"@]
    &&& m.exports@[0] is Function
    &&& m.exports@[1] is Function
    &&& ext_names(m.external_functions@) == seq!["open_file"@, "close_file"@, "read_file"@, "write_file"@, "file_exists"@, "file_size"@, "create_directory"@, "remove_file"@]
    &&& ext_symbols(m.external_functions@) == seq![Some("aether_io_open_file"@), Some("aether_io_close_file"@), Some("aether_io_read_file"@), Some("aether_io_write_file"@), Some("aether_io_file_exists"@), Some("aether_io_file_size"@), Some("aether_io_create_directory"@), Some("aether_io_remove_file"@)]
    &&& ext_param_names(m.external_functions@) == seq![seq!["path"@, "mode"@], seq!["handle"@], seq!["handle"@, "buffer"@, "max_size"@], seq!["handle"@, "data"@], seq!["path"@], seq!["path"@], seq!["path"@], seq!["path"@]]
    &&& fn_names(m.function_definitions@) == seq!["read_entire_file"@, "write_entire_file"@, "append_to_file"@, "copy_file"@]
    &&& fn_param_names(m.function_definitions@) == seq![seq!["path"@], seq!["path"@, "content"@], seq!["path"@, "content"@], seq!["source"@, "destination"@]]
    &&& m.constant_declarations@.len() == 0
    &&& ext_param_types(m.external_functions@) == seq![seq![annot_prim(PrimitiveType::String), annot_prim(PrimitiveType::String)], seq![annot_ptr(annot_prim(PrimitiveType::Void), true)], seq![annot_ptr(annot_prim(PrimitiveType::Void), true), annot_ptr(annot_prim(PrimitiveType::String), true), annot_prim(PrimitiveType::SizeT)], seq![annot_ptr(annot_prim(PrimitiveType::Void), true), annot_prim(PrimitiveType::String)], seq![annot_prim(PrimitiveType::String)], seq![annot_prim(PrimitiveType::String)], seq![annot_prim(PrimitiveType::String)], seq![annot_prim(PrimitiveType::String)]]
    &&& ext_return_types(m.external_functions@) == seq![annot_ptr(annot_prim(PrimitiveType::Void), true), annot_prim(PrimitiveType::Void), annot_prim(PrimitiveType::Integer), annot_prim(PrimitiveType::Integer), annot_prim(PrimitiveType::Boolean), annot_prim(PrimitiveType::SizeT), annot_prim(PrimitiveType::Boolean), annot_prim(PrimitiveType::Boolean)]
    &&& fn_param_types(m.function_definitions@) == seq![seq![annot_prim(PrimitiveType::String)], seq![annot_prim(PrimitiveType::String), annot_prim(PrimitiveType::String)], seq![annot_prim(PrimitiveType::String), annot_prim(PrimitiveType::String)], seq![annot_prim(PrimitiveType::String), annot_prim(PrimitiveType::String)]]
    &&& fn_return_types(m.function_definitions@) == seq![annot_prim(PrimitiveType::String), annot_prim(PrimitiveType::Boolean), annot_prim(PrimitiveType::Boolean), annot_prim(PrimitiveType::Boolean)]
    &&& forall|i: int| 0 <= i < m.external_functions@.len() ==> plain_external(#[trigger] m.external_functions@[i])
    &&& forall|i: int| 0 <= i < m.function_definitions@.len() ==> stub_function(#[trigger] m.function_definitions@[i])
}

/// Describes the `std.io` module: its external functions, its function
/// definitions and its exports.
#[verifier::rlimit(50)]
pub fn create_io_module() -> (m: Module)
    ensures
        is_io_module(m),
        m.name.name@ == "std.io"@,
{
    let external_functions: Vec<ExternalFunction> = vec![
        create_external_function_named(
            "open_file",
            "aether_io_open_file",
            vec![("path", primitive(PrimitiveType::String)), ("mode", primitive(PrimitiveType::String))],
            pointer(primitive(PrimitiveType::Void), true),
            CallingConvention::C,
        ),
        create_external_function_named(
            "close_file",
            "aether_io_close_file",
            vec![("handle", pointer(primitive(PrimitiveType::Void), true))],
            primitive(PrimitiveType::Void),
            CallingConvention::C,
        ),
        create_external_function_named(
            "read_file",
            "aether_io_read_file",
            vec![("handle", pointer(primitive(PrimitiveType::Void), true)), ("buffer", pointer(primitive(PrimitiveType::String), true)), ("max_size", primitive(PrimitiveType::SizeT))],
            primitive(PrimitiveType::Integer),
            CallingConvention::C,
        ),
        create_external_function_named(
            "write_file",
            "aether_io_write_file",
            vec![("handle", pointer(primitive(PrimitiveType::Void), true)), ("data", primitive(PrimitiveType::String))],
            primitive(PrimitiveType::Integer),
            CallingConvention::C,
        ),
        create_external_function_named(
            "file_exists",
            "aether_io_file_exists",
            vec![("path", primitive(PrimitiveType::String))],
            primitive(PrimitiveType::Boolean),
            CallingConvention::C,
        ),
        create_external_function_named(
            "file_size",
            "aether_io_file_size",
            vec![("path", primitive(PrimitiveType::String))],
            primitive(PrimitiveType::SizeT),
            CallingConvention::C,
        ),
        create_external_function_named(
            "create_directory",
            "aether_io_create_directory",
            vec![("path", primitive(PrimitiveType::String))],
            primitive(PrimitiveType::Boolean),
            CallingConvention::C,
        ),
        create_external_function_named(
            "remove_file",
            "aether_io_remove_file",
            vec![("path", primitive(PrimitiveType::String))],
            primitive(PrimitiveType::Boolean),
            CallingConvention::C,
        ),
    ];
    let function_definitions: Vec<Function> = vec![
        create_function_stub("read_entire_file", vec![("path", primitive(PrimitiveType::String))], primitive(PrimitiveType::String)),
        create_function_stub("write_entire_file", vec![("path", primitive(PrimitiveType::String)), ("content", primitive(PrimitiveType::String))], primitive(PrimitiveType::Boolean)),
        create_function_stub("append_to_file", vec![("path", primitive(PrimitiveType::String)), ("content", primitive(PrimitiveType::String))], primitive(PrimitiveType::Boolean)),
        create_function_stub("copy_file", vec![("source", primitive(PrimitiveType::String)), ("destination", primitive(PrimitiveType::String))], primitive(PrimitiveType::Boolean)),
    ];
    let exports: Vec<ExportStatement> = vec![
        export_function("open_file"),
        export_function("read_entire_file"),
    ];
    proof {
        assert(param_names(external_functions@[0].parameters@) =~= seq!["path"@, "mode"@]);
        assert(param_names(external_functions@[1].parameters@) =~= seq!["handle"@]);
        assert(param_names(external_functions@[2].parameters@) =~= seq!["handle"@, "buffer"@, "max_size"@]);
        assert(param_names(external_functions@[3].parameters@) =~= seq!["handle"@, "data"@]);
        assert(param_names(external_functions@[4].parameters@) =~= seq!["path"@]);
        assert(param_names(external_functions@[5].parameters@) =~= seq!["path"@]);
        assert(param_names(external_functions@[6].parameters@) =~= seq!["path"@]);
        assert(param_names(external_functions@[7].parameters@) =~= seq!["path"@]);
        assert(param_names(function_definitions@[0].parameters@) =~= seq!["path"@]);
        assert(param_names(function_definitions@[1].parameters@) =~= seq!["path"@, "content"@]);
        assert(param_names(function_definitions@[2].parameters@) =~= seq!["path"@, "content"@]);
        assert(param_names(function_definitions@[3].parameters@) =~= seq!["source"@, "destination"@]);
        assert(ext_names(external_functions@) =~= seq!["open_file"@, "close_file"@, "read_file"@, "write_file"@, "file_exists"@, "file_size"@, "create_directory"@, "remove_file"@]);
        assert(ext_symbols(external_functions@) =~= seq![Some("aether_io_open_file"@), Some("aether_io_close_file"@), Some("aether_io_read_file"@), Some("aether_io_write_file"@), Some("aether_io_file_exists"@), Some("aether_io_file_size"@), Some("aether_io_create_directory"@), Some("aether_io_remove_file"@)]);
        assert(ext_param_names(external_functions@) =~= seq![seq!["path"@, "mode"@], seq!["handle"@], seq!["handle"@, "buffer"@, "max_size"@], seq!["handle"@, "data"@], seq!["path"@], seq!["path"@], seq!["path"@], seq!["path"@]]);
        assert(fn_names(function_definitions@) =~= seq!["read_entire_file"@, "write_entire_file"@, "append_to_file"@, "copy_file"@]);
        assert(fn_param_names(function_definitions@) =~= seq![seq!["path"@], seq!["path"@, "content"@], seq!["path"@, "content"@], seq!["source"@, "destination"@]]);
        assert(export_names(exports@) =~= seq!["open_file"@, "read_entire_file"@]);
        assert(param_types(external_functions@[0].parameters@) =~= seq![annot_prim(PrimitiveType::String), annot_prim(PrimitiveType::String)]);
        assert(param_types(external_functions@[1].parameters@) =~= seq![annot_ptr(annot_prim(PrimitiveType::Void), true)]);
        assert(param_types(external_functions@[2].parameters@) =~= seq![annot_ptr(annot_prim(PrimitiveType::Void), true), annot_ptr(annot_prim(PrimitiveType::String), true), annot_prim(PrimitiveType::SizeT)]);
        assert(param_types(external_functions@[3].parameters@) =~= seq![annot_ptr(annot_prim(PrimitiveType::Void), true), annot_prim(PrimitiveType::String)]);
        assert(param_types(external_functions@[4].parameters@) =~= seq![annot_prim(PrimitiveType::String)]);
        assert(param_types(external_functions@[5].parameters@) =~= seq![annot_prim(PrimitiveType::String)]);
        assert(param_types(external_functions@[6].parameters@) =~= seq![annot_prim(PrimitiveType::String)]);
        assert(param_types(external_functions@[7].parameters@) =~= seq![annot_prim(PrimitiveType::String)]);
        assert(param_types(function_definitions@[0].parameters@) =~= seq![annot_prim(PrimitiveType::String)]);
        assert(param_types(function_definitions@[1].parameters@) =~= seq![annot_prim(PrimitiveType::String), annot_prim(PrimitiveType::String)]);
        assert(param_types(function_definitions@[2].parameters@) =~= seq![annot_prim(PrimitiveType::String), annot_prim(PrimitiveType::String)]);
        assert(param_types(function_definitions@[3].parameters@) =~= seq![annot_prim(PrimitiveType::String), annot_prim(PrimitiveType::String)]);
        assert(ext_param_types(external_functions@) =~= seq![seq![annot_prim(PrimitiveType::String), annot_prim(PrimitiveType::String)], seq![annot_ptr(annot_prim(PrimitiveType::Void), true)], seq![annot_ptr(annot_prim(PrimitiveType::Void), true), annot_ptr(annot_prim(PrimitiveType::String), true), annot_prim(PrimitiveType::SizeT)], seq![annot_ptr(annot_prim(PrimitiveType::Void), true), annot_prim(PrimitiveType::String)], seq![annot_prim(PrimitiveType::String)], seq![annot_prim(PrimitiveType::String)], seq![annot_prim(PrimitiveType::String)], seq![annot_prim(PrimitiveType::String)]]);
        assert(ext_return_types(external_functions@) =~= seq![annot_ptr(annot_prim(PrimitiveType::Void), true), annot_prim(PrimitiveType::Void), annot_prim(PrimitiveType::Integer), annot_prim(PrimitiveType::Integer), annot_prim(PrimitiveType::Boolean), annot_prim(PrimitiveType::SizeT), annot_prim(PrimitiveType::Boolean), annot_prim(PrimitiveType::Boolean)]);
        assert(fn_param_types(function_definitions@) =~= seq![seq![annot_prim(PrimitiveType::String)], seq![annot_prim(PrimitiveType::String), annot_prim(PrimitiveType::String)], seq![annot_prim(PrimitiveType::String), annot_prim(PrimitiveType::String)], seq![annot_prim(PrimitiveType::String), annot_prim(PrimitiveType::String)]]);
        assert(fn_return_types(function_definitions@) =~= seq![annot_prim(PrimitiveType::String), annot_prim(PrimitiveType::Boolean), annot_prim(PrimitiveType::Boolean), annot_prim(PrimitiveType::Boolean)]);
        reveal(is_io_module);
    }
    Module {
        name: Identifier::new("std.io".to_owned(), SourceLocation::unknown()),
        intent: Some("Provides file and I/O operations for AetherScript programs".to_owned()),
        imports: Vec::new(),
        exports,
        type_definitions: Vec::new(),
        constant_declarations: Vec::new(),
        function_definitions,
        external_functions,
        source_location: SourceLocation::unknown(),
    }
}

} // verus!
