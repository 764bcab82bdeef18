//! `std.console`: console input, output and terminal control.

use vstd::prelude::*;
use crate::ast::unlocated;
use crate::ast::{CallingConvention, ExportStatement, ExternalFunction, Function, Identifier, Module, PrimitiveType, SourceLocation};
use super::{annot_prim, annot_ptr, create_external_function_named, create_function_stub, export_function, export_names, ext_names, ext_param_names, ext_param_types, ext_return_types, ext_symbols, fn_names, fn_param_names, fn_param_types, fn_return_types, param_names, param_types, plain_export, plain_external, pointer, primitive, stub_function};

verus! {

/// Whether `m` is the `std.console` module as the standard library describes it:
/// its name and intent, its external functions (names, runtime symbols,
/// parameters and return types), its function definitions, its constants
/// and its exports.
#[verifier::opaque]
pub open spec fn is_console_module(m: Module) -> bool {
    &&& unlocated(m.source_location)
    &&& unlocated(m.name.source_location)
    &&& forall|i: int| 0 <= i < m.exports@.len() ==> plain_export(#[trigger] m.exports@[i])
    &&& m.name.name@ == "std.console"@
    &&& m.intent matches Some(s) && s@ == "Provides console input/output operations and terminal control"@
    &&& m.imports@.len() == 0
    &&& m.type_definitions@.len() == 0
    &&& export_names(m.exports@) == seq!["print_string"@]
    &&& m.exports@[0] is Function
    &&& ext_names(m.external_functions@) == seq!["print_string"@, "print_int"@, "print_float"@, "print_bool"@, "print_newline"@, "read_line"@, "read_char"@, "read_int"@, "read_float"@, "clear_screen"@, "set_cursor_position"@, "get_cursor_position"@, "set_text_color"@, "set_background_color"@, "reset_colors"@, "key_available"@, "get_console_size"@]
    &&& ext_symbols(m.external_functions@) == seq![Some("aether_console_print_string"@), Some("aether_console_print_int"@), Some("aether_console_print_float"@), Some("aether_console_print_bool"@), Some("aether_console_print_newline"@), Some("aether_console_read_line"@), Some("aether_console_read_char"@), Some("aether_console_read_int"@), Some("aether_console_read_float"@), Some("aether_console_clear_screen"@), Some("aether_console_set_cursor_position"@), Some("aether_console_get_cursor_position"@), Some("aether_console_set_text_color"@), Some("aether_console_set_background_color"@), Some("aether_console_reset_colors"@), Some("aether_console_key_available"@), Some("aether_console_get_size"@)]
    &&& ext_param_names(m.external_functions@) == seq![seq!["text"@], seq!["value"@], seq!["value"@], seq!["value"@], seq![], seq![], seq![], seq![], seq![], seq![], seq!["row"@, "column"@], seq!["row"@, "column"@], seq!["color_code"@], seq!["color_code"@], seq![], seq![], seq!["width"@, "height"@]]
    &&& fn_names(m.function_definitions@) == seq!["println"@, "print"@, "printf"@, "input"@, "confirm"@, "pause"@, "black"@, "red"@, "green"@, "yellow"@, "blue"@, "magenta"@, "cyan"@, "white"@, "bold"@, "italic"@, "underline"@, "strikethrough"@, "progress_bar"@, "spinner"@, "error_message"@, "warning_message"@, "success_message"@, "info_message"@]
    &&& fn_param_names(m.function_definitions@) == seq![seq!["text"@], seq!["text"@], seq!["format"@], seq!["prompt"@], seq!["prompt"@], seq!["message"@], seq![], seq![], seq![], seq![], seq![], seq![], seq![], seq![], seq!["text"@], seq!["text"@], seq!["text"@], seq!["text"@], seq!["current"@, "total"@, "width"@], seq!["message"@], seq!["message"@], seq!["message"@], seq!["message"@], seq!["message"@]]
    &&& m.constant_declarations@.len() == 0
    &&& ext_param_types(m.external_functions@) == seq![seq![annot_prim(PrimitiveType::String)], seq![annot_prim(PrimitiveType::Integer)], seq![annot_prim(PrimitiveType::Float)], seq![annot_prim(PrimitiveType::Boolean)], seq![], seq![], seq![], seq![], seq![], seq![], seq![annot_prim(PrimitiveType::Integer), annot_prim(PrimitiveType::Integer)], seq![annot_ptr(annot_prim(PrimitiveType::Integer), true), annot_ptr(annot_prim(PrimitiveType::Integer), true)], seq![annot_prim(PrimitiveType::Integer)], seq![annot_prim(PrimitiveType::Integer)], seq![], seq![], seq![annot_ptr(annot_prim(PrimitiveType::Integer), true), annot_ptr(annot_prim(PrimitiveType::Integer), true)]]
    &&& ext_return_types(m.external_functions@) == seq![annot_prim(PrimitiveType::Void), annot_prim(PrimitiveType::Void), annot_prim(PrimitiveType::Void), annot_prim(PrimitiveType::Void), annot_prim(PrimitiveType::Void), annot_prim(PrimitiveType::String), annot_prim(PrimitiveType::Integer), annot_prim(PrimitiveType::Integer), annot_prim(PrimitiveType::Float), annot_prim(PrimitiveType::Void), annot_prim(PrimitiveType::Void), annot_prim(PrimitiveType::Void), annot_prim(PrimitiveType::Void), annot_prim(PrimitiveType::Void), annot_prim(PrimitiveType::Void), annot_prim(PrimitiveType::Boolean), annot_prim(PrimitiveType::Void)]
    &&& fn_param_types(m.function_definitions@) == seq![seq![annot_prim(PrimitiveType::String)], seq![annot_prim(PrimitiveType::String)], seq![annot_prim(PrimitiveType::String)], seq![annot_prim(PrimitiveType::String)], seq![annot_prim(PrimitiveType::String)], seq![annot_prim(PrimitiveType::String)], seq![], seq![], seq![], seq![], seq![], seq![], seq![], seq![], seq![annot_prim(PrimitiveType::String)], seq![annot_prim(PrimitiveType::String)], seq![annot_prim(PrimitiveType::String)], seq![annot_prim(PrimitiveType::String)], seq![annot_prim(PrimitiveType::Integer), annot_prim(PrimitiveType::Integer), annot_prim(PrimitiveType::Integer)], seq![annot_prim(PrimitiveType::String)], seq![annot_prim(PrimitiveType::String)], seq![annot_prim(PrimitiveType::String)], seq![annot_prim(PrimitiveType::String)], seq![annot_prim(PrimitiveType::String)]]
    &&& fn_return_types(m.function_definitions@) == seq![annot_prim(PrimitiveType::Void), annot_prim(PrimitiveType::Void), annot_prim(PrimitiveType::Void), annot_prim(PrimitiveType::String), annot_prim(PrimitiveType::Boolean), annot_prim(PrimitiveType::Void), annot_prim(PrimitiveType::Integer), annot_prim(PrimitiveType::Integer), annot_prim(PrimitiveType::Integer), annot_prim(PrimitiveType::Integer), annot_prim(PrimitiveType::Integer), annot_prim(PrimitiveType::Integer), annot_prim(PrimitiveType::Integer), annot_prim(PrimitiveType::Integer), annot_prim(PrimitiveType::String), annot_prim(PrimitiveType::String), annot_prim(PrimitiveType::String), annot_prim(PrimitiveType::String), annot_prim(PrimitiveType::Void), annot_prim(PrimitiveType::Void), annot_prim(PrimitiveType::Void), annot_prim(PrimitiveType::Void), annot_prim(PrimitiveType::Void), annot_prim(PrimitiveType::Void)]
    &&& forall|i: int| 0 <= i < m.external_functions@.len() ==> plain_external(#[trigger] m.external_functions@[i])
    &&& forall|i: int| 0 <= i < m.function_definitions@.len() ==> stub_function(#[trigger] m.function_definitions@[i])
}

/// Describes the `std.console` module: its external functions, its function
/// definitions and its exports.
#[verifier::rlimit(50)]
pub fn create_console_module() -> (m: Module)
    ensures
        is_console_module(m),
        m.name.name@ == "std.console"@,
{
    let external_functions: Vec<ExternalFunction> = vec![
        create_external_function_named(
            "print_string",
            "aether_console_print_string",
            vec![("text", primitive(PrimitiveType::String))],
            primitive(PrimitiveType::Void),
            CallingConvention::C,
        ),
        create_external_function_named(
            "print_int",
            "aether_console_print_int",
            vec![("value", primitive(PrimitiveType::Integer))],
            primitive(PrimitiveType::Void),
            CallingConvention::C,
        ),
        create_external_function_named(
            "print_float",
            "aether_console_print_float",
            vec![("value", primitive(PrimitiveType::Float))],
            primitive(PrimitiveType::Void),
            CallingConvention::C,
        ),
        create_external_function_named(
            "print_bool",
            "aether_console_print_bool",
            vec![("value", primitive(PrimitiveType::Boolean))],
            primitive(PrimitiveType::Void),
            CallingConvention::C,
        ),
        create_external_function_named(
            "print_newline",
            "aether_console_print_newline",
            vec![],
            primitive(PrimitiveType::Void),
            CallingConvention::C,
        ),
        create_external_function_named(
            "read_line",
            "aether_console_read_line",
            vec![],
            primitive(PrimitiveType::String),
            CallingConvention::C,
        ),
        create_external_function_named(
            "read_char",
            "aether_console_read_char",
            vec![],
            primitive(PrimitiveType::Integer),
            CallingConvention::C,
        ),
        create_external_function_named(
            "read_int",
            "aether_console_read_int",
            vec![],
            primitive(PrimitiveType::Integer),
            CallingConvention::C,
        ),
        create_external_function_named(
            "read_float",
            "aether_console_read_float",
            vec![],
            primitive(PrimitiveType::Float),
            CallingConvention::C,
        ),
        create_external_function_named(
            "clear_screen",
            "aether_console_clear_screen",
            vec![],
            primitive(PrimitiveType::Void),
            CallingConvention::C,
        ),
        create_external_function_named(
            "set_cursor_position",
            "aether_console_set_cursor_position",
            vec![("row", primitive(PrimitiveType::Integer)), ("column", primitive(PrimitiveType::Integer))],
            primitive(PrimitiveType::Void),
            CallingConvention::C,
        ),
        create_external_function_named(
            "get_cursor_position",
            "aether_console_get_cursor_position",
            vec![("row", pointer(primitive(PrimitiveType::Integer), true)), ("column", pointer(primitive(PrimitiveType::Integer), true))],
            primitive(PrimitiveType::Void),
            CallingConvention::C,
        ),
        create_external_function_named(
            "set_text_color",
            "aether_console_set_text_color",
            vec![("color_code", primitive(PrimitiveType::Integer))],
            primitive(PrimitiveType::Void),
            CallingConvention::C,
        ),
        create_external_function_named(
            "set_background_color",
            "aether_console_set_background_color",
            vec![("color_code", primitive(PrimitiveType::Integer))],
            primitive(PrimitiveType::Void),
            CallingConvention::C,
        ),
        create_external_function_named(
            "reset_colors",
            "aether_console_reset_colors",
            vec![],
            primitive(PrimitiveType::Void),
            CallingConvention::C,
        ),
        create_external_function_named(
            "key_available",
            "aether_console_key_available",
            vec![],
            primitive(PrimitiveType::Boolean),
            CallingConvention::C,
        ),
        create_external_function_named(
            "get_console_size",
            "aether_console_get_size",
            vec![("width", pointer(primitive(PrimitiveType::Integer), true)), ("height", pointer(primitive(PrimitiveType::Integer), true))],
            primitive(PrimitiveType::Void),
            CallingConvention::C,
        ),
    ];
    let function_definitions: Vec<Function> = vec![
        create_function_stub("println", vec![("text", primitive(PrimitiveType::String))], primitive(PrimitiveType::Void)),
        create_function_stub("print", vec![("text", primitive(PrimitiveType::String))], primitive(PrimitiveType::Void)),
        create_function_stub("printf", vec![("format", primitive(PrimitiveType::String))], primitive(PrimitiveType::Void)),
        create_function_stub("input", vec![("prompt", primitive(PrimitiveType::String))], primitive(PrimitiveType::String)),
        create_function_stub("confirm", vec![("prompt", primitive(PrimitiveType::String))], primitive(PrimitiveType::Boolean)),
        create_function_stub("pause", vec![("message", primitive(PrimitiveType::String))], primitive(PrimitiveType::Void)),
        create_function_stub("black", vec![], primitive(PrimitiveType::Integer)),
        create_function_stub("red", vec![], primitive(PrimitiveType::Integer)),
        create_function_stub("green", vec![], primitive(PrimitiveType::Integer)),
        create_function_stub("yellow", vec![], primitive(PrimitiveType::Integer)),
        create_function_stub("blue", vec![], primitive(PrimitiveType::Integer)),
        create_function_stub("magenta", vec![], primitive(PrimitiveType::Integer)),
        create_function_stub("cyan", vec![], primitive(PrimitiveType::Integer)),
        create_function_stub("white", vec![], primitive(PrimitiveType::Integer)),
        create_function_stub("bold", vec![("text", primitive(PrimitiveType::String))], primitive(PrimitiveType::String)),
        create_function_stub("italic", vec![("text", primitive(PrimitiveType::String))], primitive(PrimitiveType::String)),
        create_function_stub("underline", vec![("text", primitive(PrimitiveType::String))], primitive(PrimitiveType::String)),
        create_function_stub("strikethrough", vec![("text", primitive(PrimitiveType::String))], primitive(PrimitiveType::String)),
        create_function_stub("progress_bar", vec![("current", primitive(PrimitiveType::Integer)), ("total", primitive(PrimitiveType::Integer)), ("width", primitive(PrimitiveType::Integer))], primitive(PrimitiveType::Void)),
        create_function_stub("spinner", vec![("message", primitive(PrimitiveType::String))], primitive(PrimitiveType::Void)),
        create_function_stub("error_message", vec![("message", primitive(PrimitiveType::String))], primitive(PrimitiveType::Void)),
        create_function_stub("warning_message", vec![("message", primitive(PrimitiveType::String))], primitive(PrimitiveType::Void)),
        create_function_stub("success_message", vec![("message", primitive(PrimitiveType::String))], primitive(PrimitiveType::Void)),
        create_function_stub("info_message", vec![("message", primitive(PrimitiveType::String))], primitive(PrimitiveType::Void)),
    ];
    let exports: Vec<ExportStatement> = vec![
        export_function("print_string"),
    ];
    proof {
        assert(param_names(external_functions@[0].parameters@) =~= seq!["text"@]);
        assert(param_names(external_functions@[1].parameters@) =~= seq!["value"@]);
        assert(param_names(external_functions@[2].parameters@) =~= seq!["value"@]);
        assert(param_names(external_functions@[3].parameters@) =~= seq!["value"@]);
        assert(param_names(external_functions@[4].parameters@) =~= seq![]);
        assert(param_names(external_functions@[5].parameters@) =~= seq![]);
        assert(param_names(external_functions@[6].parameters@) =~= seq![]);
        assert(param_names(external_functions@[7].parameters@) =~= seq![]);
        assert(param_names(external_functions@[8].parameters@) =~= seq![]);
        assert(param_names(external_functions@[9].parameters@) =~= seq![]);
        assert(param_names(external_functions@[10].parameters@) =~= seq!["row"@, "column"@]);
        assert(param_names(external_functions@[11].parameters@) =~= seq!["row"@, "column"@]);
        assert(param_names(external_functions@[12].parameters@) =~= seq!["color_code"@]);
        assert(param_names(external_functions@[13].parameters@) =~= seq!["color_code"@]);
        assert(param_names(external_functions@[14].parameters@) =~= seq![]);
        assert(param_names(external_functions@[15].parameters@) =~= seq![]);
        assert(param_names(external_functions@[16].parameters@) =~= seq!["width"@, "height"@]);
        assert(param_names(function_definitions@[0].parameters@) =~= seq!["text"@]);
        assert(param_names(function_definitions@[1].parameters@) =~= seq!["text"@]);
        assert(param_names(function_definitions@[2].parameters@) =~= seq!["format"@]);
        assert(param_names(function_definitions@[3].parameters@) =~= seq!["prompt"@]);
        assert(param_names(function_definitions@[4].parameters@) =~= seq!["prompt"@]);
        assert(param_names(function_definitions@[5].parameters@) =~= seq!["message"@]);
        assert(param_names(function_definitions@[6].parameters@) =~= seq![]);
        assert(param_names(function_definitions@[7].parameters@) =~= seq![]);
        assert(param_names(function_definitions@[8].parameters@) =~= seq![]);
        assert(param_names(function_definitions@[9].parameters@) =~= seq![]);
        assert(param_names(function_definitions@[10].parameters@) =~= seq![]);
        assert(param_names(function_definitions@[11].parameters@) =~= seq![]);
        assert(param_names(function_definitions@[12].parameters@) =~= seq![]);
        assert(param_names(function_definitions@[13].parameters@) =~= seq![]);
        assert(param_names(function_definitions@[14].parameters@) =~= seq!["text"@]);
        assert(param_names(function_definitions@[15].parameters@) =~= seq!["text"@]);
        assert(param_names(function_definitions@[16].parameters@) =~= seq!["text"@]);
        assert(param_names(function_definitions@[17].parameters@) =~= seq!["text"@]);
        assert(param_names(function_definitions@[18].parameters@) =~= seq!["current"@, "total"@, "width"@]);
        assert(param_names(function_definitions@[19].parameters@) =~= seq!["message"@]);
        assert(param_names(function_definitions@[20].parameters@) =~= seq!["message"@]);
        assert(param_names(function_definitions@[21].parameters@) =~= seq!["message"@]);
        assert(param_names(function_definitions@[22].parameters@) =~= seq!["message"@]);
        assert(param_names(function_definitions@[23].parameters@) =~= seq!["message"@]);
        assert(ext_names(external_functions@) =~= seq!["print_string"@, "print_int"@, "print_float"@, "print_bool"@, "print_newline"@, "read_line"@, "read_char"@, "read_int"@, "read_float"@, "clear_screen"@, "set_cursor_position"@, "get_cursor_position"@, "set_text_color"@, "set_background_color"@, "reset_colors"@, "key_available"@, "get_console_size"@]);
        assert(ext_symbols(external_functions@) =~= seq![Some("aether_console_print_string"@), Some("aether_console_print_int"@), Some("aether_console_print_float"@), Some("aether_console_print_bool"@), Some("aether_console_print_newline"@), Some("aether_console_read_line"@), Some("aether_console_read_char"@), Some("aether_console_read_int"@), Some("aether_console_read_float"@), Some("aether_console_clear_screen"@), Some("aether_console_set_cursor_position"@), Some("aether_console_get_cursor_position"@), Some("aether_console_set_text_color"@), Some("aether_console_set_background_color"@), Some("aether_console_reset_colors"@), Some("aether_console_key_available"@), Some("aether_console_get_size"@)]);
        assert(ext_param_names(external_functions@) =~= seq![seq!["text"@], seq!["value"@], seq!["value"@], seq!["value"@], seq![], seq![], seq![], seq![], seq![], seq![], seq!["row"@, "column"@], seq!["row"@, "column"@], seq!["color_code"@], seq!["color_code"@], seq![], seq![], seq!["width"@, "height"@]]);
        assert(fn_names(function_definitions@) =~= seq!["println"@, "print"@, "printf"@, "input"@, "confirm"@, "pause"@, "black"@, "red"@, "green"@, "yellow"@, "blue"@, "magenta"@, "cyan"@, "white"@, "bold"@, "italic"@, "underline"@, "strikethrough"@, "progress_bar"@, "spinner"@, "error_message"@, "warning_message"@, "success_message"@, "info_message"@]);
        assert(fn_param_names(function_definitions@) =~= seq![seq!["text"@], seq!["text"@], seq!["format"@], seq!["prompt"@], seq!["prompt"@], seq!["message"@], seq![], seq![], seq![], seq![], seq![], seq![], seq![], seq![], seq!["text"@], seq!["text"@], seq!["text"@], seq!["text"@], seq!["current"@, "total"@, "width"@], seq!["message"@], seq!["message"@], seq!["message"@], seq!["message"@], seq!["message"@]]);
        assert(export_names(exports@) =~= seq!["print_string"@]);
        assert(param_types(external_functions@[0].parameters@) =~= seq![annot_prim(PrimitiveType::String)]);
        assert(param_types(external_functions@[1].parameters@) =~= seq![annot_prim(PrimitiveType::Integer)]);
        assert(param_types(external_functions@[2].parameters@) =~= seq![annot_prim(PrimitiveType::Float)]);
        assert(param_types(external_functions@[3].parameters@) =~= seq![annot_prim(PrimitiveType::Boolean)]);
        assert(param_types(external_functions@[4].parameters@) =~= seq![]);
        assert(param_types(external_functions@[5].parameters@) =~= seq![]);
        assert(param_types(external_functions@[6].parameters@) =~= seq![]);
        assert(param_types(external_functions@[7].parameters@) =~= seq![]);
        assert(param_types(external_functions@[8].parameters@) =~= seq![]);
        assert(param_types(external_functions@[9].parameters@) =~= seq![]);
        assert(param_types(external_functions@[10].parameters@) =~= seq![annot_prim(PrimitiveType::Integer), annot_prim(PrimitiveType::Integer)]);
        assert(param_types(external_functions@[11].parameters@) =~= seq![annot_ptr(annot_prim(PrimitiveType::Integer), true), annot_ptr(annot_prim(PrimitiveType::Integer), true)]);
        assert(param_types(external_functions@[12].parameters@) =~= seq![annot_prim(PrimitiveType::Integer)]);
        assert(param_types(external_functions@[13].parameters@) =~= seq![annot_prim(PrimitiveType::Integer)]);
        assert(param_types(external_functions@[14].parameters@) =~= seq![]);
        assert(param_types(external_functions@[15].parameters@) =~= seq![]);
        assert(param_types(external_functions@[16].parameters@) =~= seq![annot_ptr(annot_prim(PrimitiveType::Integer), true), annot_ptr(annot_prim(PrimitiveType::Integer), true)]);
        assert(param_types(function_definitions@[0].parameters@) =~= seq![annot_prim(PrimitiveType::String)]);
        assert(param_types(function_definitions@[1].parameters@) =~= seq![annot_prim(PrimitiveType::String)]);
        assert(param_types(function_definitions@[2].parameters@) =~= seq![annot_prim(PrimitiveType::String)]);
        assert(param_types(function_definitions@[3].parameters@) =~= seq![annot_prim(PrimitiveType::String)]);
        assert(param_types(function_definitions@[4].parameters@) =~= seq![annot_prim(PrimitiveType::String)]);
        assert(param_types(function_definitions@[5].parameters@) =~= seq![annot_prim(PrimitiveType::String)]);
        assert(param_types(function_definitions@[6].parameters@) =~= seq![]);
        assert(param_types(function_definitions@[7].parameters@) =~= seq![]);
        assert(param_types(function_definitions@[8].parameters@) =~= seq![]);
        assert(param_types(function_definitions@[9].parameters@) =~= seq![]);
        assert(param_types(function_definitions@[10].parameters@) =~= seq![]);
        assert(param_types(function_definitions@[11].parameters@) =~= seq![]);
        assert(param_types(function_definitions@[12].parameters@) =~= seq![]);
        assert(param_types(function_definitions@[13].parameters@) =~= seq![]);
        assert(param_types(function_definitions@[14].parameters@) =~= seq![annot_prim(PrimitiveType::String)]);
        assert(param_types(function_definitions@[15].parameters@) =~= seq![annot_prim(PrimitiveType::String)]);
        assert(param_types(function_definitions@[16].parameters@) =~= seq![annot_prim(PrimitiveType::String)]);
        assert(param_types(function_definitions@[17].parameters@) =~= seq![annot_prim(PrimitiveType::String)]);
        assert(param_types(function_definitions@[18].parameters@) =~= seq![annot_prim(PrimitiveType::Integer), annot_prim(PrimitiveType::Integer), annot_prim(PrimitiveType::Integer)]);
        assert(param_types(function_definitions@[19].parameters@) =~= seq![annot_prim(PrimitiveType::String)]);
        assert(param_types(function_definitions@[20].parameters@) =~= seq![annot_prim(PrimitiveType::String)]);
        assert(param_types(function_definitions@[21].parameters@) =~= seq![annot_prim(PrimitiveType::String)]);
        assert(param_types(function_definitions@[22].parameters@) =~= seq![annot_prim(PrimitiveType::String)]);
        assert(param_types(function_definitions@[23].parameters@) =~= seq![annot_prim(PrimitiveType::String)]);
        assert(ext_param_types(external_functions@) =~= seq![seq![annot_prim(PrimitiveType::String)], seq![annot_prim(PrimitiveType::Integer)], seq![annot_prim(PrimitiveType::Float)], seq![annot_prim(PrimitiveType::Boolean)], seq![], seq![], seq![], seq![], seq![], seq![], seq![annot_prim(PrimitiveType::Integer), annot_prim(PrimitiveType::Integer)], seq![annot_ptr(annot_prim(PrimitiveType::Integer), true), annot_ptr(annot_prim(PrimitiveType::Integer), true)], seq![annot_prim(PrimitiveType::Integer)], seq![annot_prim(PrimitiveType::Integer)], seq![], seq![], seq![annot_ptr(annot_prim(PrimitiveType::Integer), true), annot_ptr(annot_prim(PrimitiveType::Integer), true)]]);
        assert(ext_return_types(external_functions@) =~= seq![annot_prim(PrimitiveType::Void), annot_prim(PrimitiveType::Void), annot_prim(PrimitiveType::Void), annot_prim(PrimitiveType::Void), annot_prim(PrimitiveType::Void), annot_prim(PrimitiveType::String), annot_prim(PrimitiveType::Integer), annot_prim(PrimitiveType::Integer), annot_prim(PrimitiveType::Float), annot_prim(PrimitiveType::Void), annot_prim(PrimitiveType::Void), annot_prim(PrimitiveType::Void), annot_prim(PrimitiveType::Void), annot_prim(PrimitiveType::Void), annot_prim(PrimitiveType::Void), annot_prim(PrimitiveType::Boolean), annot_prim(PrimitiveType::Void)]);
        assert(fn_param_types(function_definitions@) =~= seq![seq![annot_prim(PrimitiveType::String)], seq![annot_prim(PrimitiveType::String)], seq![annot_prim(PrimitiveType::String)], seq![annot_prim(PrimitiveType::String)], seq![annot_prim(PrimitiveType::String)], seq![annot_prim(PrimitiveType::String)], seq![], seq![], seq![], seq![], seq![], seq![], seq![], seq![], seq![annot_prim(PrimitiveType::String)], seq![annot_prim(PrimitiveType::String)], seq![annot_prim(PrimitiveType::String)], seq![annot_prim(PrimitiveType::String)], seq![annot_prim(PrimitiveType::Integer), annot_prim(PrimitiveType::Integer), annot_prim(PrimitiveType::Integer)], seq![annot_prim(PrimitiveType::String)], seq![annot_prim(PrimitiveType::String)], seq![annot_prim(PrimitiveType::String)], seq![annot_prim(PrimitiveType::String)], seq![annot_prim(PrimitiveType::String)]]);
        assert(fn_return_types(function_definitions@) =~= seq![annot_prim(PrimitiveType::Void), annot_prim(PrimitiveType::Void), annot_prim(PrimitiveType::Void), annot_prim(PrimitiveType::String), annot_prim(PrimitiveType::Boolean), annot_prim(PrimitiveType::Void), annot_prim(PrimitiveType::Integer), annot_prim(PrimitiveType::Integer), annot_prim(PrimitiveType::Integer), annot_prim(PrimitiveType::Integer), annot_prim(PrimitiveType::Integer), annot_prim(PrimitiveType::Integer), annot_prim(PrimitiveType::Integer), annot_prim(PrimitiveType::Integer), annot_prim(PrimitiveType::String), annot_prim(PrimitiveType::String), annot_prim(PrimitiveType::String), annot_prim(PrimitiveType::String), annot_prim(PrimitiveType::Void), annot_prim(PrimitiveType::Void), annot_prim(PrimitiveType::Void), annot_prim(PrimitiveType::Void), annot_prim(PrimitiveType::Void), annot_prim(PrimitiveType::Void)]);
        reveal(is_console_module);
    }
    Module {
        name: Identifier::new("std.console".to_owned(), SourceLocation::unknown()),
        intent: Some("Provides console input/output operations and terminal control".to_owned()),
        imports: Vec::new(),
        exports,
        type_definitions: Vec::new(),
        constant_declarations: Vec::new(),
        function_definitions,
        external_functions,
        source_location: SourceLocation::unknown(),
    }
}

} // verus!
