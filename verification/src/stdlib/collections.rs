//! `std.collections`: arrays and maps.

use vstd::prelude::*;
use crate::ast::unlocated;
use crate::ast::{annotations_unlocated, specifier_view, SpecifierView, CallingConvention, ExportStatement, ExternalFunction, Function, Identifier, Module, PrimitiveType, SourceLocation};
use super::{annot_array, annot_fn, annot_map, annot_param, annot_prim, annot_ptr, array_of, create_external_function_named, create_function_stub, export_function, export_names, ext_names, ext_param_names, ext_param_types, ext_return_types, ext_symbols, fn_names, fn_param_names, fn_param_types, fn_return_types, function_of, map_of, param_names, param_types, plain_export, plain_external, pointer, primitive, stub_function, type_param};

verus! {

/// Whether `m` is the `std.collections` module as the standard library describes it:
/// its name and intent, its external functions (names, runtime symbols,
/// parameters and return types), its function definitions, its constants
/// and its exports.
#[verifier::opaque]
pub open spec fn is_collections_module(m: Module) -> bool {
    &&& unlocated(m.source_location)
    &&& unlocated(m.name.source_location)
    &&& forall|i: int| 0 <= i < m.exports@.len() ==> plain_export(#[trigger] m.exports@[i])
    &&& m.name.name@ == "std.collections"@
    &&& m.intent matches Some(s) && s@ == "Provides efficient array and map data structures with utility functions"@
    &&& m.imports@.len() == 0
    &&& m.type_definitions@.len() == 0
    &&& export_names(m.exports@) == seq!["array_create"@, "map_create"@, "array_sort"@]
    &&& m.exports@[0] is Function
    &&& m.exports@[1] is Function
    &&& m.exports@[2] is Function
    &&& ext_names(m.external_functions@) == seq!["array_create"@, "array_destroy"@, "array_length"@, "array_capacity"@, "array_push"@, "array_pop"@, "map_create"@, "map_destroy"@, "map_insert"@, "map_get"@, "map_contains"@, "map_remove"@, "map_size"@]
    &&& ext_symbols(m.external_functions@) == seq![Some("aether_collections_array_create"@), Some("aether_collections_array_destroy"@), Some("aether_collections_array_length"@), Some("aether_collections_array_capacity"@), Some("aether_collections_array_push"@), Some("aether_collections_array_pop"@), Some("aether_collections_map_create"@), Some("aether_collections_map_destroy"@), Some("aether_collections_map_insert"@), Some("aether_collections_map_get"@), Some("aether_collections_map_contains"@), Some("aether_collections_map_remove"@), Some("aether_collections_map_size"@)]
    &&& ext_param_names(m.external_functions@) == seq![seq!["initial_capacity"@, "element_size"@], seq!["array"@], seq!["array"@], seq!["array"@], seq!["array"@, "element"@], seq!["array"@, "result"@], seq!["key_size"@, "value_size"@], seq!["map"@], seq!["map"@, "key"@, "value"@], seq!["map"@, "key"@, "result"@], seq!["map"@, "key"@], seq!["map"@, "key"@], seq!["map"@]]
    &&& fn_names(m.function_definitions@) == seq!["array_sort"@, "array_reverse"@, "array_find"@, "array_filter"@, "array_map"@, "array_reduce"@, "map_keys"@, "map_values"@]
    &&& fn_param_names(m.function_definitions@) == seq![seq!["array"@], seq!["array"@], seq!["array"@, "element"@], seq!["array"@, "predicate"@], seq!["array"@, "transform"@], seq!["array"@, "initial"@, "reducer"@], seq!["map"@], seq!["map"@]]
    &&& m.constant_declarations@.len() == 0
    &&& ext_param_types(m.external_functions@) == seq![seq![annot_prim(PrimitiveType::SizeT), annot_prim(PrimitiveType::SizeT)], seq![annot_ptr(annot_prim(PrimitiveType::Void), true)], seq![annot_ptr(annot_prim(PrimitiveType::Void), false)], seq![annot_ptr(annot_prim(PrimitiveType::Void), false)], seq![annot_ptr(annot_prim(PrimitiveType::Void), true), annot_ptr(annot_prim(PrimitiveType::Void), false)], seq![annot_ptr(annot_prim(PrimitiveType::Void), true), annot_ptr(annot_prim(PrimitiveType::Void), true)], seq![annot_prim(PrimitiveType::SizeT), annot_prim(PrimitiveType::SizeT)], seq![annot_ptr(annot_prim(PrimitiveType::Void), true)], seq![annot_ptr(annot_prim(PrimitiveType::Void), true), annot_ptr(annot_prim(PrimitiveType::Void), false), annot_ptr(annot_prim(PrimitiveType::Void), false)], seq![annot_ptr(annot_prim(PrimitiveType::Void), false), annot_ptr(annot_prim(PrimitiveType::Void), false), annot_ptr(annot_prim(PrimitiveType::Void), true)], seq![annot_ptr(annot_prim(PrimitiveType::Void), false), annot_ptr(annot_prim(PrimitiveType::Void), false)], seq![annot_ptr(annot_prim(PrimitiveType::Void), true), annot_ptr(annot_prim(PrimitiveType::Void), false)], seq![annot_ptr(annot_prim(PrimitiveType::Void), false)]]
    &&& ext_return_types(m.external_functions@) == seq![annot_ptr(annot_prim(PrimitiveType::Void), true), annot_prim(PrimitiveType::Void), annot_prim(PrimitiveType::SizeT), annot_prim(PrimitiveType::SizeT), annot_prim(PrimitiveType::Boolean), annot_prim(PrimitiveType::Boolean), annot_ptr(annot_prim(PrimitiveType::Void), true), annot_prim(PrimitiveType::Void), annot_prim(PrimitiveType::Boolean), annot_prim(PrimitiveType::Boolean), annot_prim(PrimitiveType::Boolean), annot_prim(PrimitiveType::Boolean), annot_prim(PrimitiveType::SizeT)]
    &&& fn_param_types(m.function_definitions@) == seq![seq![annot_array(annot_param("T"@))], seq![annot_array(annot_param("T"@))], seq![annot_array(annot_param("T"@)), annot_param("T"@)], seq![annot_array(annot_param("T"@)), annot_fn(seq![annot_param("T"@)], annot_prim(PrimitiveType::Boolean))], seq![annot_array(annot_param("T"@)), annot_fn(seq![annot_param("T"@)], annot_param("U"@))], seq![annot_array(annot_param("T"@)), annot_param("U"@), annot_fn(seq![annot_param("U"@), annot_param("T"@)], annot_param("U"@))], seq![annot_map(annot_param("K"@), annot_param("V"@))], seq![annot_map(annot_param("K"@), annot_param("V"@))]]
    &&& fn_return_types(m.function_definitions@) == seq![annot_prim(PrimitiveType::Void), annot_prim(PrimitiveType::Void), annot_prim(PrimitiveType::Integer), annot_array(annot_param("T"@)), annot_array(annot_param("U"@)), annot_param("U"@), annot_array(annot_param("K"@)), annot_array(annot_param("V"@))]
    &&& forall|i: int| 0 <= i < m.external_functions@.len() ==> plain_external(#[trigger] m.external_functions@[i])
    &&& forall|i: int| 0 <= i < m.function_definitions@.len() ==> stub_function(#[trigger] m.function_definitions@[i])
}

/// Describes the `std.collections` module: its external functions, its function
/// definitions and its exports.
#[verifier::rlimit(50)]
pub fn create_collections_module() -> (m: Module)
    ensures
        is_collections_module(m),
        m.name.name@ == "std.collections"@,
{
    let external_functions: Vec<ExternalFunction> = vec![
        create_external_function_named(
            "array_create",
            "aether_collections_array_create",
            vec![("initial_capacity", primitive(PrimitiveType::SizeT)), ("element_size", primitive(PrimitiveType::SizeT))],
            pointer(primitive(PrimitiveType::Void), true),
            CallingConvention::C,
        ),
        create_external_function_named(
            "array_destroy",
            "aether_collections_array_destroy",
            vec![("array", pointer(primitive(PrimitiveType::Void), true))],
            primitive(PrimitiveType::Void),
            CallingConvention::C,
        ),
        create_external_function_named(
            "array_length",
            "aether_collections_array_length",
            vec![("array", pointer(primitive(PrimitiveType::Void), false))],
            primitive(PrimitiveType::SizeT),
            CallingConvention::C,
        ),
        create_external_function_named(
            "array_capacity",
            "aether_collections_array_capacity",
            vec![("array", pointer(primitive(PrimitiveType::Void), false))],
            primitive(PrimitiveType::SizeT),
            CallingConvention::C,
        ),
        create_external_function_named(
            "array_push",
            "aether_collections_array_push",
            vec![("array", pointer(primitive(PrimitiveType::Void), true)), ("element", pointer(primitive(PrimitiveType::Void), false))],
            primitive(PrimitiveType::Boolean),
            CallingConvention::C,
        ),
        create_external_function_named(
            "array_pop",
            "aether_collections_array_pop",
            vec![("array", pointer(primitive(PrimitiveType::Void), true)), ("result", pointer(primitive(PrimitiveType::Void), true))],
            primitive(PrimitiveType::Boolean),
            CallingConvention::C,
        ),
        create_external_function_named(
            "map_create",
            "aether_collections_map_create",
            vec![("key_size", primitive(PrimitiveType::SizeT)), ("value_size", primitive(PrimitiveType::SizeT))],
            pointer(primitive(PrimitiveType::Void), true),
            CallingConvention::C,
        ),
        create_external_function_named(
            "map_destroy",
            "aether_collections_map_destroy",
            vec![("map", pointer(primitive(PrimitiveType::Void), true))],
            primitive(PrimitiveType::Void),
            CallingConvention::C,
        ),
        create_external_function_named(
            "map_insert",
            "aether_collections_map_insert",
            vec![("map", pointer(primitive(PrimitiveType::Void), true)), ("key", pointer(primitive(PrimitiveType::Void), false)), ("value", pointer(primitive(PrimitiveType::Void), false))],
            primitive(PrimitiveType::Boolean),
            CallingConvention::C,
        ),
        create_external_function_named(
            "map_get",
            "aether_collections_map_get",
            vec![("map", pointer(primitive(PrimitiveType::Void), false)), ("key", pointer(primitive(PrimitiveType::Void), false)), ("result", pointer(primitive(PrimitiveType::Void), true))],
            primitive(PrimitiveType::Boolean),
            CallingConvention::C,
        ),
        create_external_function_named(
            "map_contains",
            "aether_collections_map_contains",
            vec![("map", pointer(primitive(PrimitiveType::Void), false)), ("key", pointer(primitive(PrimitiveType::Void), false))],
            primitive(PrimitiveType::Boolean),
            CallingConvention::C,
        ),
        create_external_function_named(
            "map_remove",
            "aether_collections_map_remove",
            vec![("map", pointer(primitive(PrimitiveType::Void), true)), ("key", pointer(primitive(PrimitiveType::Void), false))],
            primitive(PrimitiveType::Boolean),
            CallingConvention::C,
        ),
        create_external_function_named(
            "map_size",
            "aether_collections_map_size",
            vec![("map", pointer(primitive(PrimitiveType::Void), false))],
            primitive(PrimitiveType::SizeT),
            CallingConvention::C,
        ),
    ];
    let predicate_params = vec![Box::new(type_param("T"))];
    let transform_params = vec![Box::new(type_param("T"))];
    let reducer_params = vec![Box::new(type_param("U")), Box::new(type_param("T"))];
    proof {
        reveal_with_fuel(annotations_unlocated, 3);
        assert(annotations_unlocated(predicate_params@));
        assert(annotations_unlocated(transform_params@));
        assert(annotations_unlocated(reducer_params@));
    }
    let predicate = function_of(predicate_params, primitive(PrimitiveType::Boolean));
    let transform = function_of(transform_params, type_param("U"));
    let reducer = function_of(reducer_params, type_param("U"));
    proof {
        let t = seq![annot_param("T"@)];
        let ut = seq![annot_param("U"@), annot_param("T"@)];
        if let SpecifierView::Function(ps, _) = specifier_view(predicate) {
            assert(ps =~= t);
        }
        if let SpecifierView::Function(ps, _) = specifier_view(transform) {
            assert(ps =~= t);
        }
        if let SpecifierView::Function(ps, _) = specifier_view(reducer) {
            assert(ps =~= ut);
        }
        assert(specifier_view(predicate) == annot_fn(t, annot_prim(PrimitiveType::Boolean)));
        assert(specifier_view(transform) == annot_fn(t, annot_param("U"@)));
        assert(specifier_view(reducer) == annot_fn(ut, annot_param("U"@)));
    }
    let function_definitions: Vec<Function> = vec![
        create_function_stub("array_sort", vec![("array", array_of(type_param("T")))], primitive(PrimitiveType::Void)),
        create_function_stub("array_reverse", vec![("array", array_of(type_param("T")))], primitive(PrimitiveType::Void)),
        create_function_stub("array_find", vec![("array", array_of(type_param("T"))), ("element", type_param("T"))], primitive(PrimitiveType::Integer)),
        create_function_stub("array_filter", vec![("array", array_of(type_param("T"))), ("predicate", predicate)], array_of(type_param("T"))),
        create_function_stub("array_map", vec![("array", array_of(type_param("T"))), ("transform", transform)], array_of(type_param("U"))),
        create_function_stub("array_reduce", vec![("array", array_of(type_param("T"))), ("initial", type_param("U")), ("reducer", reducer)], type_param("U")),
        create_function_stub("map_keys", vec![("map", map_of(type_param("K"), type_param("V")))], array_of(type_param("K"))),
        create_function_stub("map_values", vec![("map", map_of(type_param("K"), type_param("V")))], array_of(type_param("V"))),
    ];
    let exports: Vec<ExportStatement> = vec![
        export_function("array_create"),
        export_function("map_create"),
        export_function("array_sort"),
    ];
    proof {
        assert(param_names(external_functions@[0].parameters@) =~= seq!["initial_capacity"@, "element_size"@]);
        assert(param_names(external_functions@[1].parameters@) =~= seq!["array"@]);
        assert(param_names(external_functions@[2].parameters@) =~= seq!["array"@]);
        assert(param_names(external_functions@[3].parameters@) =~= seq!["array"@]);
        assert(param_names(external_functions@[4].parameters@) =~= seq!["array"@, "element"@]);
        assert(param_names(external_functions@[5].parameters@) =~= seq!["array"@, "result"@]);
        assert(param_names(external_functions@[6].parameters@) =~= seq!["key_size"@, "value_size"@]);
        assert(param_names(external_functions@[7].parameters@) =~= seq!["map"@]);
        assert(param_names(external_functions@[8].parameters@) =~= seq!["map"@, "key"@, "value"@]);
        assert(param_names(external_functions@[9].parameters@) =~= seq!["map"@, "key"@, "result"@]);
        assert(param_names(external_functions@[10].parameters@) =~= seq!["map"@, "key"@]);
        assert(param_names(external_functions@[11].parameters@) =~= seq!["map"@, "key"@]);
        assert(param_names(external_functions@[12].parameters@) =~= seq!["map"@]);
        assert(param_names(function_definitions@[0].parameters@) =~= seq!["array"@]);
        assert(param_names(function_definitions@[1].parameters@) =~= seq!["array"@]);
        assert(param_names(function_definitions@[2].parameters@) =~= seq!["array"@, "element"@]);
        assert(param_names(function_definitions@[3].parameters@) =~= seq!["array"@, "predicate"@]);
        assert(param_names(function_definitions@[4].parameters@) =~= seq!["array"@, "transform"@]);
        assert(param_names(function_definitions@[5].parameters@) =~= seq!["array"@, "initial"@, "reducer"@]);
        assert(param_names(function_definitions@[6].parameters@) =~= seq!["map"@]);
        assert(param_names(function_definitions@[7].parameters@) =~= seq!["map"@]);
        assert(ext_names(external_functions@) =~= seq!["array_create"@, "array_destroy"@, "array_length"@, "array_capacity"@, "array_push"@, "array_pop"@, "map_create"@, "map_destroy"@, "map_insert"@, "map_get"@, "map_contains"@, "map_remove"@, "map_size"@]);
        assert(ext_symbols(external_functions@) =~= seq![Some("aether_collections_array_create"@), Some("aether_collections_array_destroy"@), Some("aether_collections_array_length"@), Some("aether_collections_array_capacity"@), Some("aether_collections_array_push"@), Some("aether_collections_array_pop"@), Some("aether_collections_map_create"@), Some("aether_collections_map_destroy"@), Some("aether_collections_map_insert"@), Some("aether_collections_map_get"@), Some("aether_collections_map_contains"@), Some("aether_collections_map_remove"@), Some("aether_collections_map_size"@)]);
        assert(ext_param_names(external_functions@) =~= seq![seq!["initial_capacity"@, "element_size"@], seq!["array"@], seq!["array"@], seq!["array"@], seq!["array"@, "element"@], seq!["array"@, "result"@], seq!["key_size"@, "value_size"@], seq!["map"@], seq!["map"@, "key"@, "value"@], seq!["map"@, "key"@, "result"@], seq!["map"@, "key"@], seq!["map"@, "key"@], seq!["map"@]]);
        assert(fn_names(function_definitions@) =~= seq!["array_sort"@, "array_reverse"@, "array_find"@, "array_filter"@, "array_map"@, "array_reduce"@, "map_keys"@, "map_values"@]);
        assert(fn_param_names(function_definitions@) =~= seq![seq!["array"@], seq!["array"@], seq!["array"@, "element"@], seq!["array"@, "predicate"@], seq!["array"@, "transform"@], seq!["array"@, "initial"@, "reducer"@], seq!["map"@], seq!["map"@]]);
        assert(export_names(exports@) =~= seq!["array_create"@, "map_create"@, "array_sort"@]);
        assert(param_types(external_functions@[0].parameters@) =~= seq![annot_prim(PrimitiveType::SizeT), annot_prim(PrimitiveType::SizeT)]);
        assert(param_types(external_functions@[1].parameters@) =~= seq![annot_ptr(annot_prim(PrimitiveType::Void), true)]);
        assert(param_types(external_functions@[2].parameters@) =~= seq![annot_ptr(annot_prim(PrimitiveType::Void), false)]);
        assert(param_types(external_functions@[3].parameters@) =~= seq![annot_ptr(annot_prim(PrimitiveType::Void), false)]);
        assert(param_types(external_functions@[4].parameters@) =~= seq![annot_ptr(annot_prim(PrimitiveType::Void), true), annot_ptr(annot_prim(PrimitiveType::Void), false)]);
        assert(param_types(external_functions@[5].parameters@) =~= seq![annot_ptr(annot_prim(PrimitiveType::Void), true), annot_ptr(annot_prim(PrimitiveType::Void), true)]);
        assert(param_types(external_functions@[6].parameters@) =~= seq![annot_prim(PrimitiveType::SizeT), annot_prim(PrimitiveType::SizeT)]);
        assert(param_types(external_functions@[7].parameters@) =~= seq![annot_ptr(annot_prim(PrimitiveType::Void), true)]);
        assert(param_types(external_functions@[8].parameters@) =~= seq![annot_ptr(annot_prim(PrimitiveType::Void), true), annot_ptr(annot_prim(PrimitiveType::Void), false), annot_ptr(annot_prim(PrimitiveType::Void), false)]);
        assert(param_types(external_functions@[9].parameters@) =~= seq![annot_ptr(annot_prim(PrimitiveType::Void), false), annot_ptr(annot_prim(PrimitiveType::Void), false), annot_ptr(annot_prim(PrimitiveType::Void), true)]);
        assert(param_types(external_functions@[10].parameters@) =~= seq![annot_ptr(annot_prim(PrimitiveType::Void), false), annot_ptr(annot_prim(PrimitiveType::Void), false)]);
        assert(param_types(external_functions@[11].parameters@) =~= seq![annot_ptr(annot_prim(PrimitiveType::Void), true), annot_ptr(annot_prim(PrimitiveType::Void), false)]);
        assert(param_types(external_functions@[12].parameters@) =~= seq![annot_ptr(annot_prim(PrimitiveType::Void), false)]);
        assert(param_types(function_definitions@[0].parameters@) =~= seq![annot_array(annot_param("T"@))]);
        assert(param_types(function_definitions@[1].parameters@) =~= seq![annot_array(annot_param("T"@))]);
        assert(param_types(function_definitions@[2].parameters@) =~= seq![annot_array(annot_param("T"@)), annot_param("T"@)]);
        assert(param_types(function_definitions@[3].parameters@) =~= seq![annot_array(annot_param("T"@)), annot_fn(seq![annot_param("T"@)], annot_prim(PrimitiveType::Boolean))]);
        assert(param_types(function_definitions@[4].parameters@) =~= seq![annot_array(annot_param("T"@)), annot_fn(seq![annot_param("T"@)], annot_param("U"@))]);
        assert(param_types(function_definitions@[5].parameters@) =~= seq![annot_array(annot_param("T"@)), annot_param("U"@), annot_fn(seq![annot_param("U"@), annot_param("T"@)], annot_param("U"@))]);
        assert(param_types(function_definitions@[6].parameters@) =~= seq![annot_map(annot_param("K"@), annot_param("V"@))]);
        assert(param_types(function_definitions@[7].parameters@) =~= seq![annot_map(annot_param("K"@), annot_param("V"@))]);
        assert(ext_param_types(external_functions@) =~= seq![seq![annot_prim(PrimitiveType::SizeT), annot_prim(PrimitiveType::SizeT)], seq![annot_ptr(annot_prim(PrimitiveType::Void), true)], seq![annot_ptr(annot_prim(PrimitiveType::Void), false)], seq![annot_ptr(annot_prim(PrimitiveType::Void), false)], seq![annot_ptr(annot_prim(PrimitiveType::Void), true), annot_ptr(annot_prim(PrimitiveType::Void), false)], seq![annot_ptr(annot_prim(PrimitiveType::Void), true), annot_ptr(annot_prim(PrimitiveType::Void), true)], seq![annot_prim(PrimitiveType::SizeT), annot_prim(PrimitiveType::SizeT)], seq![annot_ptr(annot_prim(PrimitiveType::Void), true)], seq![annot_ptr(annot_prim(PrimitiveType::Void), true), annot_ptr(annot_prim(PrimitiveType::Void), false), annot_ptr(annot_prim(PrimitiveType::Void), false)], seq![annot_ptr(annot_prim(PrimitiveType::Void), false), annot_ptr(annot_prim(PrimitiveType::Void), false), annot_ptr(annot_prim(PrimitiveType::Void), true)], seq![annot_ptr(annot_prim(PrimitiveType::Void), false), annot_ptr(annot_prim(PrimitiveType::Void), false)], seq![annot_ptr(annot_prim(PrimitiveType::Void), true), annot_ptr(annot_prim(PrimitiveType::Void), false)], seq![annot_ptr(annot_prim(PrimitiveType::Void), false)]]);
        assert(ext_return_types(external_functions@) =~= seq![annot_ptr(annot_prim(PrimitiveType::Void), true), annot_prim(PrimitiveType::Void), annot_prim(PrimitiveType::SizeT), annot_prim(PrimitiveType::SizeT), annot_prim(PrimitiveType::Boolean), annot_prim(PrimitiveType::Boolean), annot_ptr(annot_prim(PrimitiveType::Void), true), annot_prim(PrimitiveType::Void), annot_prim(PrimitiveType::Boolean), annot_prim(PrimitiveType::Boolean), annot_prim(PrimitiveType::Boolean), annot_prim(PrimitiveType::Boolean), annot_prim(PrimitiveType::SizeT)]);
        assert(fn_param_types(function_definitions@) =~= seq![seq![annot_array(annot_param("T"@))], seq![annot_array(annot_param("T"@))], seq![annot_array(annot_param("T"@)), annot_param("T"@)], seq![annot_array(annot_param("T"@)), annot_fn(seq![annot_param("T"@)], annot_prim(PrimitiveType::Boolean))], seq![annot_array(annot_param("T"@)), annot_fn(seq![annot_param("T"@)], annot_param("U"@))], seq![annot_array(annot_param("T"@)), annot_param("U"@), annot_fn(seq![annot_param("U"@), annot_param("T"@)], annot_param("U"@))], seq![annot_map(annot_param("K"@), annot_param("V"@))], seq![annot_map(annot_param("K"@), annot_param("V"@))]]);
        assert(fn_return_types(function_definitions@) =~= seq![annot_prim(PrimitiveType::Void), annot_prim(PrimitiveType::Void), annot_prim(PrimitiveType::Integer), annot_array(annot_param("T"@)), annot_array(annot_param("U"@)), annot_param("U"@), annot_array(annot_param("K"@)), annot_array(annot_param("V"@))]);
        reveal(is_collections_module);
    }
    Module {
        name: Identifier::new("std.collections".to_owned(), SourceLocation::unknown()),
        intent: Some("Provides efficient array and map data structures with utility functions".to_owned()),
        imports: Vec::new(),
        exports,
        type_definitions: Vec::new(),
        constant_declarations: Vec::new(),
        function_definitions,
        external_functions,
        source_location: SourceLocation::unknown(),
    }
}

} // verus!
