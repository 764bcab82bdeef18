//! `std.memory`: memory management.

use vstd::prelude::*;
use crate::ast::unlocated;
use crate::ast::{CallingConvention, ExportStatement, ExternalFunction, Function, Identifier, Module, PrimitiveType, SourceLocation};
use super::{annot_prim, annot_ptr, create_external_function_named, create_function_stub, export_function, export_names, ext_names, ext_param_names, ext_param_types, ext_return_types, ext_symbols, fn_names, fn_param_names, fn_param_types, fn_return_types, param_names, param_types, plain_export, plain_external, pointer, primitive, stub_function};

verus! {

/// Whether `m` is the `std.memory` module as the standard library describes it:
/// its name and intent, its external functions (names, runtime symbols,
/// parameters and return types), its function definitions, its constants
/// and its exports.
#[verifier::opaque]
pub open spec fn is_memory_module(m: Module) -> bool {
    &&& unlocated(m.source_location)
    &&& unlocated(m.name.source_location)
    &&& forall|i: int| 0 <= i < m.exports@.len() ==> plain_export(#[trigger] m.exports@[i])
    &&& m.name.name@ == "std.memory"@
    &&& m.intent matches Some(s) && s@ == "Provides low-level memory management operations and allocation utilities"@
    &&& m.imports@.len() == 0
    &&& m.type_definitions@.len() == 0
    &&& export_names(m.exports@) == seq!["allocate"@, "deallocate"@, "create_buffer"@, "create_memory_pool"@]
    &&& m.exports@[0] is Function
    &&& m.exports@[1] is Function
    &&& m.exports@[2] is Function
    &&& m.exports@[3] is Function
    &&& ext_names(m.external_functions@) == seq!["allocate"@, "allocate_zeroed"@, "reallocate"@, "deallocate"@, "copy_memory"@, "move_memory"@, "set_memory"@, "compare_memory"@, "allocate_aligned"@, "is_aligned"@, "get_allocation_size"@, "get_total_allocated"@, "get_peak_allocated"@]
    &&& ext_symbols(m.external_functions@) == seq![Some("aether_memory_allocate"@), Some("aether_memory_allocate_zeroed"@), Some("aether_memory_reallocate"@), Some("aether_memory_deallocate"@), Some("aether_memory_copy"@), Some("aether_memory_move"@), Some("aether_memory_set"@), Some("aether_memory_compare"@), Some("aether_memory_allocate_aligned"@), Some("aether_memory_is_aligned"@), Some("aether_memory_get_allocation_size"@), Some("aether_memory_get_total_allocated"@), Some("aether_memory_get_peak_allocated"@)]
    &&& ext_param_names(m.external_functions@) == seq![seq!["size"@], seq!["size"@], seq!["ptr"@, "new_size"@], seq!["ptr"@], seq!["dest"@, "src"@, "size"@], seq!["dest"@, "src"@, "size"@], seq!["ptr"@, "value"@, "size"@], seq!["ptr1"@, "ptr2"@, "size"@], seq!["size"@, "alignment"@], seq!["ptr"@, "alignment"@], seq!["ptr"@], seq![], seq![]]
    &&& fn_names(m.function_definitions@) == seq!["create_buffer"@, "resize_buffer"@, "destroy_buffer"@, "duplicate_buffer"@, "create_memory_pool"@, "pool_allocate"@, "pool_deallocate"@, "destroy_memory_pool"@]
    &&& fn_param_names(m.function_definitions@) == seq![seq!["size"@, "zero_init"@], seq!["buffer"@, "new_size"@], seq!["buffer"@], seq!["buffer"@, "size"@], seq!["block_size"@, "num_blocks"@], seq!["pool"@], seq!["pool"@, "ptr"@], seq!["pool"@]]
    &&& m.constant_declarations@.len() == 0
    &&& ext_param_types(m.external_functions@) == seq![seq![annot_prim(PrimitiveType::SizeT)], seq![annot_prim(PrimitiveType::SizeT)], seq![annot_ptr(annot_prim(PrimitiveType::Void), true), annot_prim(PrimitiveType::SizeT)], seq![annot_ptr(annot_prim(PrimitiveType::Void), true)], seq![annot_ptr(annot_prim(PrimitiveType::Void), true), annot_ptr(annot_prim(PrimitiveType::Void), true), annot_prim(PrimitiveType::SizeT)], seq![annot_ptr(annot_prim(PrimitiveType::Void), true), annot_ptr(annot_prim(PrimitiveType::Void), true), annot_prim(PrimitiveType::SizeT)], seq![annot_ptr(annot_prim(PrimitiveType::Void), true), annot_prim(PrimitiveType::Integer), annot_prim(PrimitiveType::SizeT)], seq![annot_ptr(annot_prim(PrimitiveType::Void), true), annot_ptr(annot_prim(PrimitiveType::Void), true), annot_prim(PrimitiveType::SizeT)], seq![annot_prim(PrimitiveType::SizeT), annot_prim(PrimitiveType::SizeT)], seq![annot_ptr(annot_prim(PrimitiveType::Void), true), annot_prim(PrimitiveType::SizeT)], seq![annot_ptr(annot_prim(PrimitiveType::Void), true)], seq![], seq![]]
    &&& ext_return_types(m.external_functions@) == seq![annot_ptr(annot_prim(PrimitiveType::Void), true), annot_ptr(annot_prim(PrimitiveType::Void), true), annot_ptr(annot_prim(PrimitiveType::Void), true), annot_prim(PrimitiveType::Void), annot_prim(PrimitiveType::Void), annot_prim(PrimitiveType::Void), annot_prim(PrimitiveType::Void), annot_prim(PrimitiveType::Integer), annot_ptr(annot_prim(PrimitiveType::Void), true), annot_prim(PrimitiveType::Boolean), annot_prim(PrimitiveType::SizeT), annot_prim(PrimitiveType::SizeT), annot_prim(PrimitiveType::SizeT)]
    &&& fn_param_types(m.function_definitions@) == seq![seq![annot_prim(PrimitiveType::SizeT), annot_prim(PrimitiveType::Boolean)], seq![annot_ptr(annot_prim(PrimitiveType::Void), true), annot_prim(PrimitiveType::SizeT)], seq![annot_ptr(annot_prim(PrimitiveType::Void), true)], seq![annot_ptr(annot_prim(PrimitiveType::Void), true), annot_prim(PrimitiveType::SizeT)], seq![annot_prim(PrimitiveType::SizeT), annot_prim(PrimitiveType::SizeT)], seq![annot_ptr(annot_prim(PrimitiveType::Void), true)], seq![annot_ptr(annot_prim(PrimitiveType::Void), true), annot_ptr(annot_prim(PrimitiveType::Void), true)], seq![annot_ptr(annot_prim(PrimitiveType::Void), true)]]
    &&& fn_return_types(m.function_definitions@) == seq![annot_ptr(annot_prim(PrimitiveType::Void), true), annot_ptr(annot_prim(PrimitiveType::Void), true), annot_prim(PrimitiveType::Void), annot_ptr(annot_prim(PrimitiveType::Void), true), annot_ptr(annot_prim(PrimitiveType::Void), true), annot_ptr(annot_prim(PrimitiveType::Void), true), annot_prim(PrimitiveType::Void), annot_prim(PrimitiveType::Void)]
    &&& forall|i: int| 0 <= i < m.external_functions@.len() ==> plain_external(#[trigger] m.external_functions@[i])
    &&& forall|i: int| 0 <= i < m.function_definitions@.len() ==> stub_function(#[trigger] m.function_definitions@[i])
}

/// Describes the `std.memory` module: its external functions, its function
/// definitions and its exports.
#[verifier::rlimit(50)]
pub fn create_memory_module() -> (m: Module)
    ensures
        is_memory_module(m),
        m.name.name@ == "std.memory"@,
{
    let external_functions: Vec<ExternalFunction> = vec![
        create_external_function_named(
            "allocate",
            "aether_memory_allocate",
            vec![("size", primitive(PrimitiveType::SizeT))],
            pointer(primitive(PrimitiveType::Void), true),
            CallingConvention::C,
        ),
        create_external_function_named(
            "allocate_zeroed",
            "aether_memory_allocate_zeroed",
            vec![("size", primitive(PrimitiveType::SizeT))],
            pointer(primitive(PrimitiveType::Void), true),
            CallingConvention::C,
        ),
        create_external_function_named(
            "reallocate",
            "aether_memory_reallocate",
            vec![("ptr", pointer(primitive(PrimitiveType::Void), true)), ("new_size", primitive(PrimitiveType::SizeT))],
            pointer(primitive(PrimitiveType::Void), true),
            CallingConvention::C,
        ),
        create_external_function_named(
            "deallocate",
            "aether_memory_deallocate",
            vec![("ptr", pointer(primitive(PrimitiveType::Void), true))],
            primitive(PrimitiveType::Void),
            CallingConvention::C,
        ),
        create_external_function_named(
            "copy_memory",
            "aether_memory_copy",
            vec![("dest", pointer(primitive(PrimitiveType::Void), true)), ("src", pointer(primitive(PrimitiveType::Void), true)), ("size", primitive(PrimitiveType::SizeT))],
            primitive(PrimitiveType::Void),
            CallingConvention::C,
        ),
        create_external_function_named(
            "move_memory",
            "aether_memory_move",
            vec![("dest", pointer(primitive(PrimitiveType::Void), true)), ("src", pointer(primitive(PrimitiveType::Void), true)), ("size", primitive(PrimitiveType::SizeT))],
            primitive(PrimitiveType::Void),
            CallingConvention::C,
        ),
        create_external_function_named(
            "set_memory",
            "aether_memory_set",
            vec![("ptr", pointer(primitive(PrimitiveType::Void), true)), ("value", primitive(PrimitiveType::Integer)), ("size", primitive(PrimitiveType::SizeT))],
            primitive(PrimitiveType::Void),
            CallingConvention::C,
        ),
        create_external_function_named(
            "compare_memory",
            "aether_memory_compare",
            vec![("ptr1", pointer(primitive(PrimitiveType::Void), true)), ("ptr2", pointer(primitive(PrimitiveType::Void), true)), ("size", primitive(PrimitiveType::SizeT))],
            primitive(PrimitiveType::Integer),
            CallingConvention::C,
        ),
        create_external_function_named(
            "allocate_aligned",
            "aether_memory_allocate_aligned",
            vec![("size", primitive(PrimitiveType::SizeT)), ("alignment", primitive(PrimitiveType::SizeT))],
            pointer(primitive(PrimitiveType::Void), true),
            CallingConvention::C,
        ),
        create_external_function_named(
            "is_aligned",
            "aether_memory_is_aligned",
            vec![("ptr", pointer(primitive(PrimitiveType::Void), true)), ("alignment", primitive(PrimitiveType::SizeT))],
            primitive(PrimitiveType::Boolean),
            CallingConvention::C,
        ),
        create_external_function_named(
            "get_allocation_size",
            "aether_memory_get_allocation_size",
            vec![("ptr", pointer(primitive(PrimitiveType::Void), true))],
            primitive(PrimitiveType::SizeT),
            CallingConvention::C,
        ),
        create_external_function_named(
            "get_total_allocated",
            "aether_memory_get_total_allocated",
            vec![],
            primitive(PrimitiveType::SizeT),
            CallingConvention::C,
        ),
        create_external_function_named(
            "get_peak_allocated",
            "aether_memory_get_peak_allocated",
            vec![],
            primitive(PrimitiveType::SizeT),
            CallingConvention::C,
        ),
    ];
    let function_definitions: Vec<Function> = vec![
        create_function_stub("create_buffer", vec![("size", primitive(PrimitiveType::SizeT)), ("zero_init", primitive(PrimitiveType::Boolean))], pointer(primitive(PrimitiveType::Void), true)),
        create_function_stub("resize_buffer", vec![("buffer", pointer(primitive(PrimitiveType::Void), true)), ("new_size", primitive(PrimitiveType::SizeT))], pointer(primitive(PrimitiveType::Void), true)),
        create_function_stub("destroy_buffer", vec![("buffer", pointer(primitive(PrimitiveType::Void), true))], primitive(PrimitiveType::Void)),
        create_function_stub("duplicate_buffer", vec![("buffer", pointer(primitive(PrimitiveType::Void), true)), ("size", primitive(PrimitiveType::SizeT))], pointer(primitive(PrimitiveType::Void), true)),
        create_function_stub("create_memory_pool", vec![("block_size", primitive(PrimitiveType::SizeT)), ("num_blocks", primitive(PrimitiveType::SizeT))], pointer(primitive(PrimitiveType::Void), true)),
        create_function_stub("pool_allocate", vec![("pool", pointer(primitive(PrimitiveType::Void), true))], pointer(primitive(PrimitiveType::Void), true)),
        create_function_stub("pool_deallocate", vec![("pool", pointer(primitive(PrimitiveType::Void), true)), ("ptr", pointer(primitive(PrimitiveType::Void), true))], primitive(PrimitiveType::Void)),
        create_function_stub("destroy_memory_pool", vec![("pool", pointer(primitive(PrimitiveType::Void), true))], primitive(PrimitiveType::Void)),
    ];
    let exports: Vec<ExportStatement> = vec![
        export_function("allocate"),
        export_function("deallocate"),
        export_function("create_buffer"),
        export_function("create_memory_pool"),
    ];
    proof {
        assert(param_names(external_functions@[0].parameters@) =~= seq!["size"@]);
        assert(param_names(external_functions@[1].parameters@) =~= seq!["size"@]);
        assert(param_names(external_functions@[2].parameters@) =~= seq!["ptr"@, "new_size"@]);
        assert(param_names(external_functions@[3].parameters@) =~= seq!["ptr"@]);
        assert(param_names(external_functions@[4].parameters@) =~= seq!["dest"@, "src"@, "size"@]);
        assert(param_names(external_functions@[5].parameters@) =~= seq!["dest"@, "src"@, "size"@]);
        assert(param_names(external_functions@[6].parameters@) =~= seq!["ptr"@, "value"@, "size"@]);
        assert(param_names(external_functions@[7].parameters@) =~= seq!["ptr1"@, "ptr2"@, "size"@]);
        assert(param_names(external_functions@[8].parameters@) =~= seq!["size"@, "alignment"@]);
        assert(param_names(external_functions@[9].parameters@) =~= seq!["ptr"@, "alignment"@]);
        assert(param_names(external_functions@[10].parameters@) =~= seq!["ptr"@]);
        assert(param_names(external_functions@[11].parameters@) =~= seq![]);
        assert(param_names(external_functions@[12].parameters@) =~= seq![]);
        assert(param_names(function_definitions@[0].parameters@) =~= seq!["size"@, "zero_init"@]);
        assert(param_names(function_definitions@[1].parameters@) =~= seq!["buffer"@, "new_size"@]);
        assert(param_names(function_definitions@[2].parameters@) =~= seq!["buffer"@]);
        assert(param_names(function_definitions@[3].parameters@) =~= seq!["buffer"@, "size"@]);
        assert(param_names(function_definitions@[4].parameters@) =~= seq!["block_size"@, "num_blocks"@]);
        assert(param_names(function_definitions@[5].parameters@) =~= seq!["pool"@]);
        assert(param_names(function_definitions@[6].parameters@) =~= seq!["pool"@, "ptr"@]);
        assert(param_names(function_definitions@[7].parameters@) =~= seq!["pool"@]);
        assert(ext_names(external_functions@) =~= seq!["allocate"@, "allocate_zeroed"@, "reallocate"@, "deallocate"@, "copy_memory"@, "move_memory"@, "set_memory"@, "compare_memory"@, "allocate_aligned"@, "is_aligned"@, "get_allocation_size"@, "get_total_allocated"@, "get_peak_allocated"@]);
        assert(ext_symbols(external_functions@) =~= seq![Some("aether_memory_allocate"@), Some("aether_memory_allocate_zeroed"@), Some("aether_memory_reallocate"@), Some("aether_memory_deallocate"@), Some("aether_memory_copy"@), Some("aether_memory_move"@), Some("aether_memory_set"@), Some("aether_memory_compare"@), Some("aether_memory_allocate_aligned"@), Some("aether_memory_is_aligned"@), Some("aether_memory_get_allocation_size"@), Some("aether_memory_get_total_allocated"@), Some("aether_memory_get_peak_allocated"@)]);
        assert(ext_param_names(external_functions@) =~= seq![seq!["size"@], seq!["size"@], seq!["ptr"@, "new_size"@], seq!["ptr"@], seq!["dest"@, "src"@, "size"@], seq!["dest"@, "src"@, "size"@], seq!["ptr"@, "value"@, "size"@], seq!["ptr1"@, "ptr2"@, "size"@], seq!["size"@, "alignment"@], seq!["ptr"@, "alignment"@], seq!["ptr"@], seq![], seq![]]);
        assert(fn_names(function_definitions@) =~= seq!["create_buffer"@, "resize_buffer"@, "destroy_buffer"@, "duplicate_buffer"@, "create_memory_pool"@, "pool_allocate"@, "pool_deallocate"@, "destroy_memory_pool"@]);
        assert(fn_param_names(function_definitions@) =~= seq![seq!["size"@, "zero_init"@], seq!["buffer"@, "new_size"@], seq!["buffer"@], seq!["buffer"@, "size"@], seq!["block_size"@, "num_blocks"@], seq!["pool"@], seq!["pool"@, "ptr"@], seq!["pool"@]]);
        assert(export_names(exports@) =~= seq!["allocate"@, "deallocate"@, "create_buffer"@, "create_memory_pool"@]);
        assert(param_types(external_functions@[0].parameters@) =~= seq![annot_prim(PrimitiveType::SizeT)]);
        assert(param_types(external_functions@[1].parameters@) =~= seq![annot_prim(PrimitiveType::SizeT)]);
        assert(param_types(external_functions@[2].parameters@) =~= seq![annot_ptr(annot_prim(PrimitiveType::Void), true), annot_prim(PrimitiveType::SizeT)]);
        assert(param_types(external_functions@[3].parameters@) =~= seq![annot_ptr(annot_prim(PrimitiveType::Void), true)]);
        assert(param_types(external_functions@[4].parameters@) =~= seq![annot_ptr(annot_prim(PrimitiveType::Void), true), annot_ptr(annot_prim(PrimitiveType::Void), true), annot_prim(PrimitiveType::SizeT)]);
        assert(param_types(external_functions@[5].parameters@) =~= seq![annot_ptr(annot_prim(PrimitiveType::Void), true), annot_ptr(annot_prim(PrimitiveType::Void), true), annot_prim(PrimitiveType::SizeT)]);
        assert(param_types(external_functions@[6].parameters@) =~= seq![annot_ptr(annot_prim(PrimitiveType::Void), true), annot_prim(PrimitiveType::Integer), annot_prim(PrimitiveType::SizeT)]);
        assert(param_types(external_functions@[7].parameters@) =~= seq![annot_ptr(annot_prim(PrimitiveType::Void), true), annot_ptr(annot_prim(PrimitiveType::Void), true), annot_prim(PrimitiveType::SizeT)]);
        assert(param_types(external_functions@[8].parameters@) =~= seq![annot_prim(PrimitiveType::SizeT), annot_prim(PrimitiveType::SizeT)]);
        assert(param_types(external_functions@[9].parameters@) =~= seq![annot_ptr(annot_prim(PrimitiveType::Void), true), annot_prim(PrimitiveType::SizeT)]);
        assert(param_types(external_functions@[10].parameters@) =~= seq![annot_ptr(annot_prim(PrimitiveType::Void), true)]);
        assert(param_types(external_functions@[11].parameters@) =~= seq![]);
        assert(param_types(external_functions@[12].parameters@) =~= seq![]);
        assert(param_types(function_definitions@[0].parameters@) =~= seq![annot_prim(PrimitiveType::SizeT), annot_prim(PrimitiveType::Boolean)]);
        assert(param_types(function_definitions@[1].parameters@) =~= seq![annot_ptr(annot_prim(PrimitiveType::Void), true), annot_prim(PrimitiveType::SizeT)]);
        assert(param_types(function_definitions@[2].parameters@) =~= seq![annot_ptr(annot_prim(PrimitiveType::Void), true)]);
        assert(param_types(function_definitions@[3].parameters@) =~= seq![annot_ptr(annot_prim(PrimitiveType::Void), true), annot_prim(PrimitiveType::SizeT)]);
        assert(param_types(function_definitions@[4].parameters@) =~= seq![annot_prim(PrimitiveType::SizeT), annot_prim(PrimitiveType::SizeT)]);
        assert(param_types(function_definitions@[5].parameters@) =~= seq![annot_ptr(annot_prim(PrimitiveType::Void), true)]);
        assert(param_types(function_definitions@[6].parameters@) =~= seq![annot_ptr(annot_prim(PrimitiveType::Void), true), annot_ptr(annot_prim(PrimitiveType::Void), true)]);
        assert(param_types(function_definitions@[7].parameters@) =~= seq![annot_ptr(annot_prim(PrimitiveType::Void), true)]);
        assert(ext_param_types(external_functions@) =~= seq![seq![annot_prim(PrimitiveType::SizeT)], seq![annot_prim(PrimitiveType::SizeT)], seq![annot_ptr(annot_prim(PrimitiveType::Void), true), annot_prim(PrimitiveType::SizeT)], seq![annot_ptr(annot_prim(PrimitiveType::Void), true)], seq![annot_ptr(annot_prim(PrimitiveType::Void), true), annot_ptr(annot_prim(PrimitiveType::Void), true), annot_prim(PrimitiveType::SizeT)], seq![annot_ptr(annot_prim(PrimitiveType::Void), true), annot_ptr(annot_prim(PrimitiveType::Void), true), annot_prim(PrimitiveType::SizeT)], seq![annot_ptr(annot_prim(PrimitiveType::Void), true), annot_prim(PrimitiveType::Integer), annot_prim(PrimitiveType::SizeT)], seq![annot_ptr(annot_prim(PrimitiveType::Void), true), annot_ptr(annot_prim(PrimitiveType::Void), true), annot_prim(PrimitiveType::SizeT)], seq![annot_prim(PrimitiveType::SizeT), annot_prim(PrimitiveType::SizeT)], seq![annot_ptr(annot_prim(PrimitiveType::Void), true), annot_prim(PrimitiveType::SizeT)], seq![annot_ptr(annot_prim(PrimitiveType::Void), true)], seq![], seq![]]);
        assert(ext_return_types(external_functions@) =~= seq![annot_ptr(annot_prim(PrimitiveType::Void), true), annot_ptr(annot_prim(PrimitiveType::Void), true), annot_ptr(annot_prim(PrimitiveType::Void), true), annot_prim(PrimitiveType::Void), annot_prim(PrimitiveType::Void), annot_prim(PrimitiveType::Void), annot_prim(PrimitiveType::Void), annot_prim(PrimitiveType::Integer), annot_ptr(annot_prim(PrimitiveType::Void), true), annot_prim(PrimitiveType::Boolean), annot_prim(PrimitiveType::SizeT), annot_prim(PrimitiveType::SizeT), annot_prim(PrimitiveType::SizeT)]);
        assert(fn_param_types(function_definitions@) =~= seq![seq![annot_prim(PrimitiveType::SizeT), annot_prim(PrimitiveType::Boolean)], seq![annot_ptr(annot_prim(PrimitiveType::Void), true), annot_prim(PrimitiveType::SizeT)], seq![annot_ptr(annot_prim(PrimitiveType::Void), true)], seq![annot_ptr(annot_prim(PrimitiveType::Void), true), annot_prim(PrimitiveType::SizeT)], seq![annot_prim(PrimitiveType::SizeT), annot_prim(PrimitiveType::SizeT)], seq![annot_ptr(annot_prim(PrimitiveType::Void), true)], seq![annot_ptr(annot_prim(PrimitiveType::Void), true), annot_ptr(annot_prim(PrimitiveType::Void), true)], seq![annot_ptr(annot_prim(PrimitiveType::Void), true)]]);
        assert(fn_return_types(function_definitions@) =~= seq![annot_ptr(annot_prim(PrimitiveType::Void), true), annot_ptr(annot_prim(PrimitiveType::Void), true), annot_prim(PrimitiveType::Void), annot_ptr(annot_prim(PrimitiveType::Void), true), annot_ptr(annot_prim(PrimitiveType::Void), true), annot_ptr(annot_prim(PrimitiveType::Void), true), annot_prim(PrimitiveType::Void), annot_prim(PrimitiveType::Void)]);
        reveal(is_memory_module);
    }
    Module {
        name: Identifier::new("std.memory".to_owned(), SourceLocation::unknown()),
        intent: Some("Provides low-level memory management operations and allocation utilities".to_owned()),
        imports: Vec::new(),
        exports,
        type_definitions: Vec::new(),
        constant_declarations: Vec::new(),
        function_definitions,
        external_functions,
        source_location: SourceLocation::unknown(),
    }
}

} // verus!
