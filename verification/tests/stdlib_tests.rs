//! Tests of the standard library module descriptions and registry.

use aetherscript::ast::{ExportStatement, Expression, PrimitiveType, TypeSpecifier};
use aetherscript::stdlib::StandardLibrary;
use aetherscript::stdlib::collections::create_collections_module;
use aetherscript::stdlib::console::create_console_module;
use aetherscript::stdlib::http::create_http_module;
use aetherscript::stdlib::io::create_io_module;
use aetherscript::stdlib::json::create_json_module;
use aetherscript::stdlib::math::create_math_module;
use aetherscript::stdlib::memory::create_memory_module;
use aetherscript::stdlib::network::create_network_module;
use aetherscript::stdlib::string::create_string_module;

#[test]
fn test_io_module_creation() {
    let module = create_io_module();
    
    assert_eq!(module.name.name, "std.io");
    assert!(module.intent.is_some());
    
    // Check that external functions are defined
    assert!(module.external_functions.iter().any(|f| f.name.name == "open_file"));
    assert!(module.external_functions.iter().any(|f| f.name.name == "close_file"));
    assert!(module.external_functions.iter().any(|f| f.name.name == "read_file"));
    assert!(module.external_functions.iter().any(|f| f.name.name == "write_file"));
    assert!(module.external_functions.iter().any(|f| f.name.name == "file_exists"));
    
    // Check that high-level functions are defined
    assert!(module.function_definitions.iter().any(|f| f.name.name == "read_entire_file"));
    assert!(module.function_definitions.iter().any(|f| f.name.name == "write_entire_file"));
    assert!(module.function_definitions.iter().any(|f| f.name.name == "copy_file"));
    
    // Check exports
    assert!(module.exports.iter().any(|e| matches!(e, ExportStatement::Function { name, .. } if name.name == "open_file")));
    assert!(module.exports.iter().any(|e| matches!(e, ExportStatement::Function { name, .. } if name.name == "read_entire_file")));
}

#[test]
fn test_external_function_signatures() {
    let module = create_io_module();
    
    // Test open_file function signature
    let open_file = module.external_functions.iter()
        .find(|f| f.name.name == "open_file")
        .expect("open_file function not found");
    assert_eq!(open_file.name.name, "open_file");
    assert_eq!(open_file.parameters.len(), 2);
    assert_eq!(open_file.parameters[0].name.name, "path");
    assert_eq!(open_file.parameters[1].name.name, "mode");
    
    // Test file_exists function signature
    let file_exists = module.external_functions.iter()
        .find(|f| f.name.name == "file_exists")
        .expect("file_exists function not found");
    assert_eq!(file_exists.parameters.len(), 1);
    assert_eq!(file_exists.parameters[0].name.name, "path");
    assert!(matches!(file_exists.return_type.as_ref(), TypeSpecifier::Primitive { prim: PrimitiveType::Boolean, .. }));
}

#[test]
fn test_collections_module_creation() {
    let module = create_collections_module();
    
    assert_eq!(module.name.name, "std.collections");
    assert!(module.intent.is_some());
    
    // Check array operations
    assert!(module.external_functions.iter().any(|f| f.name.name == "array_create"));
    assert!(module.external_functions.iter().any(|f| f.name.name == "array_push"));
    assert!(module.external_functions.iter().any(|f| f.name.name == "array_pop"));
    assert!(module.function_definitions.iter().any(|f| f.name.name == "array_sort"));
    assert!(module.function_definitions.iter().any(|f| f.name.name == "array_map"));
    
    // Check map operations
    assert!(module.external_functions.iter().any(|f| f.name.name == "map_create"));
    assert!(module.external_functions.iter().any(|f| f.name.name == "map_insert"));
    assert!(module.external_functions.iter().any(|f| f.name.name == "map_get"));
    assert!(module.function_definitions.iter().any(|f| f.name.name == "map_keys"));
    
    // Check exports
    assert!(module.exports.iter().any(|e| matches!(e, ExportStatement::Function { name, .. } if name.name == "array_create")));
    assert!(module.exports.iter().any(|e| matches!(e, ExportStatement::Function { name, .. } if name.name == "map_create")));
    assert!(module.exports.iter().any(|e| matches!(e, ExportStatement::Function { name, .. } if name.name == "array_sort")));
}

#[test]
fn test_array_function_signatures() {
    let module = create_collections_module();
    
    // Test array_create function
    let array_create = module.external_functions.iter()
        .find(|f| f.name.name == "array_create")
        .expect("array_create function not found");
    assert_eq!(array_create.name.name, "array_create");
    assert_eq!(array_create.parameters.len(), 2);
    
    // Test array_push function
    let array_push = module.external_functions.iter()
        .find(|f| f.name.name == "array_push")
        .expect("array_push function not found");
    assert_eq!(array_push.parameters.len(), 2);
    assert!(matches!(array_push.return_type.as_ref(), TypeSpecifier::Primitive { prim: PrimitiveType::Boolean, .. }));
}

#[test]
fn test_map_function_signatures() {
    let module = create_collections_module();
    
    // Test map_create function
    let map_create = module.external_functions.iter()
        .find(|f| f.name.name == "map_create")
        .expect("map_create function not found");
    assert_eq!(map_create.name.name, "map_create");
    assert_eq!(map_create.parameters.len(), 2);
    
    // Test map_insert function
    let map_insert = module.external_functions.iter()
        .find(|f| f.name.name == "map_insert")
        .expect("map_insert function not found");
    assert_eq!(map_insert.parameters.len(), 3);
    assert!(matches!(map_insert.return_type.as_ref(), TypeSpecifier::Primitive { prim: PrimitiveType::Boolean, .. }));
}

#[test]
fn test_math_module_creation() {
    let module = create_math_module();
    
    assert_eq!(module.name.name, "std.math");
    assert!(module.intent.is_some());
    
    // Check constants
    assert!(module.constant_declarations.iter().any(|c| c.name.name == "PI"));
    assert!(module.constant_declarations.iter().any(|c| c.name.name == "E"));
    assert!(module.constant_declarations.iter().any(|c| c.name.name == "TAU"));
    
    // Check external functions
    assert!(module.external_functions.iter().any(|f| f.name.name == "sqrt"));
    assert!(module.external_functions.iter().any(|f| f.name.name == "sin"));
    assert!(module.external_functions.iter().any(|f| f.name.name == "cos"));
    assert!(module.external_functions.iter().any(|f| f.name.name == "pow"));
    
    // Check high-level functions
    assert!(module.function_definitions.iter().any(|f| f.name.name == "abs"));
    assert!(module.function_definitions.iter().any(|f| f.name.name == "min"));
    assert!(module.function_definitions.iter().any(|f| f.name.name == "max"));
    assert!(module.function_definitions.iter().any(|f| f.name.name == "gcd"));
    
    // Check exports
    assert!(module.exports.len() > 0);
}

#[test]
fn test_math_constants() {
    let module = create_math_module();
    
    // Check PI constant
    let pi_const = module.constant_declarations.iter().find(|c| c.name.name == "PI").unwrap();
    assert_eq!(pi_const.name.name, "PI");
    if let Expression::FloatLiteral { bits, .. } = pi_const.value.as_ref() {
        assert!((f64::from_bits(*bits) - std::f64::consts::PI).abs() < f64::EPSILON);
    } else {
        panic!("PI constant should be a float literal");
    }
    
    // Check E constant
    let e_const = module.constant_declarations.iter().find(|c| c.name.name == "E").unwrap();
    assert_eq!(e_const.name.name, "E");
    if let Expression::FloatLiteral { bits, .. } = e_const.value.as_ref() {
        assert!((f64::from_bits(*bits) - std::f64::consts::E).abs() < f64::EPSILON);
    } else {
        panic!("E constant should be a float literal");
    }
}

#[test]
fn test_trigonometric_functions() {
    let module = create_math_module();
    
    // Test sin function
    let sin_func = module.external_functions.iter().find(|f| f.name.name == "sin").unwrap();
    assert_eq!(sin_func.name.name, "sin");
    assert_eq!(sin_func.parameters.len(), 1);
    assert_eq!(sin_func.parameters[0].name.name, "x");
    
    // Test atan2 function (two parameters)
    let atan2_func = module.external_functions.iter().find(|f| f.name.name == "atan2").unwrap();
    assert_eq!(atan2_func.parameters.len(), 2);
    assert_eq!(atan2_func.parameters[0].name.name, "y");
    assert_eq!(atan2_func.parameters[1].name.name, "x");
}

#[test]
fn test_utility_functions() {
    let module = create_math_module();
    
    // Test clamp function
    let clamp_func = module.function_definitions.iter().find(|f| f.name.name == "clamp").unwrap();
    assert_eq!(clamp_func.name.name, "clamp");
    assert_eq!(clamp_func.parameters.len(), 3);
    
    // Test gcd function
    let gcd_func = module.function_definitions.iter().find(|f| f.name.name == "gcd").unwrap();
    assert_eq!(gcd_func.parameters.len(), 2);
    assert!(matches!(gcd_func.return_type.as_ref(), TypeSpecifier::Primitive { prim: PrimitiveType::Integer, .. }));
}

#[test]
fn test_string_module_creation() {
    let module = create_string_module();
    
    assert_eq!(module.name.name, "std.string");
    assert!(module.intent.is_some());
    
    // Check basic string operations
    assert!(module.external_functions.iter().any(|f| f.name.name == "string_length"));
    assert!(module.external_functions.iter().any(|f| f.name.name == "string_concat"));
    assert!(module.external_functions.iter().any(|f| f.name.name == "string_compare"));
    assert!(module.external_functions.iter().any(|f| f.name.name == "string_substring"));
    
    // Check utility functions
    assert!(module.function_definitions.iter().any(|f| f.name.name == "starts_with"));
    assert!(module.function_definitions.iter().any(|f| f.name.name == "ends_with"));
    assert!(module.function_definitions.iter().any(|f| f.name.name == "contains"));
    assert!(module.function_definitions.iter().any(|f| f.name.name == "is_numeric"));
    
    // Check exports
    assert!(module.exports.iter().any(|e| matches!(e, ExportStatement::Function { name, .. } if name.name == "string_length")));
    // Check that exported functions are present
    let export_names: Vec<String> = module.exports.iter().map(|e| match e {
        ExportStatement::Function { name, .. } => name.name.clone(),
        _ => String::new(),
    }).collect();
    assert!(export_names.contains(&"starts_with".to_string()));
    assert!(export_names.contains(&"to_int".to_string()));
}

#[test]
fn test_string_function_signatures() {
    let module = create_string_module();
    
    // Test string_concat function
    let concat_func = module.external_functions.iter()
        .find(|f| f.name.name == "string_concat")
        .expect("string_concat function not found");
    assert_eq!(concat_func.name.name, "string_concat");
    assert_eq!(concat_func.parameters.len(), 2);
    assert_eq!(concat_func.parameters[0].name.name, "str1");
    assert_eq!(concat_func.parameters[1].name.name, "str2");
    
    // Test string_substring function
    let substring_func = module.external_functions.iter()
        .find(|f| f.name.name == "string_substring")
        .expect("string_substring function not found");
    assert_eq!(substring_func.parameters.len(), 3);
    assert_eq!(substring_func.parameters[1].name.name, "start");
    assert_eq!(substring_func.parameters[2].name.name, "length");
}

#[test]
fn test_string_validation_functions() {
    let module = create_string_module();
    
    // Test is_numeric function
    let is_numeric = module.function_definitions.iter()
        .find(|f| f.name.name == "is_numeric")
        .expect("is_numeric function not found");
    assert_eq!(is_numeric.parameters.len(), 1);
    assert!(matches!(*is_numeric.return_type, TypeSpecifier::Primitive { prim: PrimitiveType::Boolean, .. }));
    
    // Test conversion functions
    let to_int = module.function_definitions.iter()
        .find(|f| f.name.name == "to_int")
        .expect("to_int function not found");
    assert!(matches!(*to_int.return_type, TypeSpecifier::Primitive { prim: PrimitiveType::Integer, .. }));
    
    let to_float = module.function_definitions.iter()
        .find(|f| f.name.name == "to_float")
        .expect("to_float function not found");
    assert!(matches!(*to_float.return_type, TypeSpecifier::Primitive { prim: PrimitiveType::Float, .. }));
}

#[test]
fn test_string_manipulation_functions() {
    let module = create_string_module();
    
    // Test pad_left function
    let pad_left = module.function_definitions.iter()
        .find(|f| f.name.name == "pad_left")
        .expect("pad_left function not found");
    assert_eq!(pad_left.parameters.len(), 3);
    assert_eq!(pad_left.parameters[0].name.name, "str");
    assert_eq!(pad_left.parameters[1].name.name, "width");
    assert_eq!(pad_left.parameters[2].name.name, "pad_char");
    
    // Test repeat function
    let repeat = module.function_definitions.iter()
        .find(|f| f.name.name == "repeat")
        .expect("repeat function not found");
    assert_eq!(repeat.parameters.len(), 2);
    assert!(matches!(*repeat.return_type, TypeSpecifier::Primitive { prim: PrimitiveType::String, .. }));
}

#[test]
fn test_console_module_creation() {
    let module = create_console_module();
    
    assert_eq!(module.name.name, "std.console");
    assert!(module.intent.is_some());
    
    // Check basic output functions
    assert!(module.external_functions.iter().any(|f| f.name.name == "print_string"));
    assert!(module.external_functions.iter().any(|f| f.name.name == "print_int"));
    assert!(module.external_functions.iter().any(|f| f.name.name == "print_float"));
    assert!(module.external_functions.iter().any(|f| f.name.name == "print_bool"));
    
    // Check input functions
    assert!(module.external_functions.iter().any(|f| f.name.name == "read_line"));
    assert!(module.external_functions.iter().any(|f| f.name.name == "read_char"));
    assert!(module.external_functions.iter().any(|f| f.name.name == "read_int"));
    
    // Check high-level functions
    assert!(module.function_definitions.iter().any(|f| f.name.name == "println"));
    assert!(module.function_definitions.iter().any(|f| f.name.name == "input"));
    assert!(module.function_definitions.iter().any(|f| f.name.name == "confirm"));
    
    // Check exports
    assert!(module.exports.len() > 0);
}

#[test]
fn test_console_output_functions() {
    let module = create_console_module();
    
    // Test print_string function
    let print_string = module.external_functions.iter().find(|f| f.name.name == "print_string").unwrap();
    assert_eq!(print_string.name.name, "print_string");
    assert_eq!(print_string.parameters.len(), 1);
    assert_eq!(print_string.parameters[0].name.name, "text");
    
    // Test print_int function
    let print_int = module.external_functions.iter().find(|f| f.name.name == "print_int").unwrap();
    assert_eq!(print_int.parameters.len(), 1);
    assert_eq!(print_int.parameters[0].name.name, "value");
    assert!(matches!(print_int.return_type.as_ref(), TypeSpecifier::Primitive { prim: PrimitiveType::Void, .. }));
}

#[test]
fn test_console_input_functions() {
    let module = create_console_module();
    
    // Test read_line function
    let read_line = module.external_functions.iter().find(|f| f.name.name == "read_line").unwrap();
    assert_eq!(read_line.parameters.len(), 0);
    assert!(matches!(read_line.return_type.as_ref(), TypeSpecifier::Primitive { prim: PrimitiveType::String, .. }));
    
    // Test read_int function
    let read_int = module.external_functions.iter().find(|f| f.name.name == "read_int").unwrap();
    assert_eq!(read_int.parameters.len(), 0);
    assert!(matches!(read_int.return_type.as_ref(), TypeSpecifier::Primitive { prim: PrimitiveType::Integer, .. }));
}

#[test]
fn test_console_control_functions() {
    let module = create_console_module();
    
    // Test clear_screen function
    let clear_screen = module.external_functions.iter().find(|f| f.name.name == "clear_screen").unwrap();
    assert_eq!(clear_screen.parameters.len(), 0);
    
    // Test set_cursor_position function
    let set_cursor = module.external_functions.iter().find(|f| f.name.name == "set_cursor_position").unwrap();
    assert_eq!(set_cursor.parameters.len(), 2);
    assert_eq!(set_cursor.parameters[0].name.name, "row");
    assert_eq!(set_cursor.parameters[1].name.name, "column");
    
    // Test color functions
    assert!(module.external_functions.iter().any(|f| f.name.name == "set_text_color"));
    assert!(module.external_functions.iter().any(|f| f.name.name == "reset_colors"));
}

#[test]
fn test_high_level_functions() {
    let module = create_console_module();
    
    // Test input function
    let input_func = module.function_definitions.iter().find(|f| f.name.name == "input").unwrap();
    assert_eq!(input_func.parameters.len(), 1);
    assert_eq!(input_func.parameters[0].name.name, "prompt");
    assert!(matches!(input_func.return_type.as_ref(), TypeSpecifier::Primitive { prim: PrimitiveType::String, .. }));
    
    // Test confirm function
    let confirm_func = module.function_definitions.iter().find(|f| f.name.name == "confirm").unwrap();
    assert_eq!(confirm_func.parameters.len(), 1);
    assert!(matches!(confirm_func.return_type.as_ref(), TypeSpecifier::Primitive { prim: PrimitiveType::Boolean, .. }));
    
    // Test color functions
    assert!(module.function_definitions.iter().any(|f| f.name.name == "red"));
    assert!(module.function_definitions.iter().any(|f| f.name.name == "blue"));
    assert!(module.function_definitions.iter().any(|f| f.name.name == "green"));
}

#[test]
fn test_network_module_creation() {
    let module = create_network_module();
    
    assert_eq!(module.name.name, "std.network");
    assert!(module.intent.is_some());
    
    // Check basic socket operations
    assert!(module.external_functions.iter().any(|f| f.name.name == "socket_create"));
    assert!(module.external_functions.iter().any(|f| f.name.name == "socket_bind"));
    assert!(module.external_functions.iter().any(|f| f.name.name == "socket_listen"));
    assert!(module.external_functions.iter().any(|f| f.name.name == "socket_accept"));
    
    // Check high-level functions
    assert!(module.function_definitions.iter().any(|f| f.name.name == "tcp_server"));
    assert!(module.function_definitions.iter().any(|f| f.name.name == "http_parse_request"));
    assert!(module.function_definitions.iter().any(|f| f.name.name == "http_create_response"));
    
    // Check exports
    assert!(module.exports.iter().any(|e| matches!(e, ExportStatement::Function { name, .. } if name.name == "socket_create")));
}

#[test]
fn test_socket_function_signatures() {
    let module = create_network_module();
    
    // Test socket_create function
    let socket_create = module.external_functions.iter()
        .find(|f| f.name.name == "socket_create")
        .expect("socket_create function not found");
    assert_eq!(socket_create.parameters.len(), 3);
    assert_eq!(socket_create.parameters[0].name.name, "domain");
    assert_eq!(socket_create.parameters[1].name.name, "type");
    assert_eq!(socket_create.parameters[2].name.name, "protocol");
    
    // Test http_create_response function
    let http_response = module.function_definitions.iter()
        .find(|f| f.name.name == "http_create_response")
        .expect("http_create_response function not found");
    assert_eq!(http_response.parameters.len(), 3);
    assert_eq!(http_response.parameters[0].name.name, "status_code");
    assert_eq!(http_response.parameters[1].name.name, "headers");
    assert_eq!(http_response.parameters[2].name.name, "body");
}

#[test]
fn test_memory_module_creation() {
    let module = create_memory_module();
    
    assert_eq!(module.name.name, "std.memory");
    assert!(module.intent.is_some());
    
    // Check basic allocation operations
    assert!(module.external_functions.iter().any(|f| f.name.name == "allocate"));
    assert!(module.external_functions.iter().any(|f| f.name.name == "deallocate"));
    assert!(module.external_functions.iter().any(|f| f.name.name == "reallocate"));
    assert!(module.external_functions.iter().any(|f| f.name.name == "copy_memory"));
    
    // Check high-level functions
    assert!(module.function_definitions.iter().any(|f| f.name.name == "create_buffer"));
    assert!(module.function_definitions.iter().any(|f| f.name.name == "create_memory_pool"));
    
    // Check exports
    assert!(module.exports.iter().any(|e| matches!(e, ExportStatement::Function { name, .. } if name.name == "allocate")));
}

#[test]
fn test_memory_function_signatures() {
    let module = create_memory_module();
    
    // Test allocate function
    let allocate = module.external_functions.iter()
        .find(|f| f.name.name == "allocate")
        .expect("allocate function not found");
    assert_eq!(allocate.parameters.len(), 1);
    assert_eq!(allocate.parameters[0].name.name, "size");
    
    // Test copy_memory function
    let copy_memory = module.external_functions.iter()
        .find(|f| f.name.name == "copy_memory")
        .expect("copy_memory function not found");
    assert_eq!(copy_memory.parameters.len(), 3);
    assert_eq!(copy_memory.parameters[0].name.name, "dest");
    assert_eq!(copy_memory.parameters[1].name.name, "src");
    assert_eq!(copy_memory.parameters[2].name.name, "size");
}

#[test]
fn test_http_module_creation() {
    let module = create_http_module();
    
    assert_eq!(module.name.name, "std.http");
    assert!(module.intent.is_some());
    
    // Check parsing functions
    assert!(module.external_functions.iter().any(|f| f.name.name == "parse_request_line"));
    assert!(module.external_functions.iter().any(|f| f.name.name == "parse_headers"));
    assert!(module.external_functions.iter().any(|f| f.name.name == "url_encode"));
    
    // Check high-level functions
    assert!(module.function_definitions.iter().any(|f| f.name.name == "parse_request"));
    assert!(module.function_definitions.iter().any(|f| f.name.name == "create_response"));
    assert!(module.function_definitions.iter().any(|f| f.name.name == "json_response"));
    
    // Check exports
    assert!(module.exports.iter().any(|e| matches!(e, ExportStatement::Function { name, .. } if name.name == "parse_request")));
}

#[test]
fn test_http_function_signatures() {
    let module = create_http_module();
    
    // Test parse_request_line function
    let parse_line = module.external_functions.iter()
        .find(|f| f.name.name == "parse_request_line")
        .expect("parse_request_line function not found");
    assert_eq!(parse_line.parameters.len(), 1);
    assert_eq!(parse_line.parameters[0].name.name, "line");
    
    // Test create_response function
    let create_resp = module.function_definitions.iter()
        .find(|f| f.name.name == "create_response")
        .expect("create_response function not found");
    assert_eq!(create_resp.parameters.len(), 2);
    assert_eq!(create_resp.parameters[0].name.name, "status_code");
    assert_eq!(create_resp.parameters[1].name.name, "body");
}

#[test]
fn test_json_module_creation() {
    let module = create_json_module();
    
    assert_eq!(module.name.name, "std.json");
    assert!(module.intent.is_some());
    
    // Check parsing functions
    assert!(module.external_functions.iter().any(|f| f.name.name == "parse_json"));
    assert!(module.external_functions.iter().any(|f| f.name.name == "stringify_json"));
    assert!(module.external_functions.iter().any(|f| f.name.name == "validate_json"));
    
    // Check manipulation functions
    assert!(module.external_functions.iter().any(|f| f.name.name == "json_get_field"));
    assert!(module.external_functions.iter().any(|f| f.name.name == "json_array_push"));
    
    // Check high-level functions
    assert!(module.function_definitions.iter().any(|f| f.name.name == "create_object"));
    assert!(module.function_definitions.iter().any(|f| f.name.name == "query"));
    
    // Check exports
    assert!(module.exports.iter().any(|e| matches!(e, ExportStatement::Function { name, .. } if name.name == "parse_json")));
}

#[test]
fn test_json_function_signatures() {
    let module = create_json_module();
    
    // Test parse_json function
    let parse_json = module.external_functions.iter()
        .find(|f| f.name.name == "parse_json")
        .expect("parse_json function not found");
    assert_eq!(parse_json.parameters.len(), 1);
    assert_eq!(parse_json.parameters[0].name.name, "json_string");
    
    // Test json_get_field function
    let get_field = module.external_functions.iter()
        .find(|f| f.name.name == "json_get_field")
        .expect("json_get_field function not found");
    assert_eq!(get_field.parameters.len(), 2);
    assert_eq!(get_field.parameters[0].name.name, "json_value");
    assert_eq!(get_field.parameters[1].name.name, "field_name");
}

#[test]
fn test_stdlib_creation() {
    let stdlib = StandardLibrary::new();
    
    // Check that all expected modules are registered
    assert!(stdlib.is_stdlib_module("std.io"));
    assert!(stdlib.is_stdlib_module("std.collections"));
    assert!(stdlib.is_stdlib_module("std.math"));
    assert!(stdlib.is_stdlib_module("std.string"));
    assert!(stdlib.is_stdlib_module("std.console"));
    assert!(stdlib.is_stdlib_module("std.network"));
    assert!(stdlib.is_stdlib_module("std.memory"));
    assert!(stdlib.is_stdlib_module("std.http"));
    assert!(stdlib.is_stdlib_module("std.json"));
    
    // Check that non-existent modules return false
    assert!(!stdlib.is_stdlib_module("std.nonexistent"));
}

#[test]
fn test_module_listing() {
    let stdlib = StandardLibrary::new();
    let modules = stdlib.list_modules();
    
    assert_eq!(modules.len(), 9);
    assert!(modules.contains(&"std.io"));
    assert!(modules.contains(&"std.collections"));
    assert!(modules.contains(&"std.math"));
    assert!(modules.contains(&"std.string"));
    assert!(modules.contains(&"std.console"));
    assert!(modules.contains(&"std.network"));
    assert!(modules.contains(&"std.memory"));
    assert!(modules.contains(&"std.http"));
    assert!(modules.contains(&"std.json"));
}

#[test]
fn test_module_retrieval() {
    let stdlib = StandardLibrary::new();
    
    // Test retrieving existing modules
    assert!(stdlib.get_module("std.io").is_some());
    assert!(stdlib.get_module("std.math").is_some());
    
    // Test retrieving non-existent module
    assert!(stdlib.get_module("std.nonexistent").is_none());
}

#[test]
fn test_io_parameter_and_return_types() {
    let module = create_io_module();
    let open_file = module.external_functions.iter().find(|f| f.name.name == "open_file").unwrap();
    assert_eq!(open_file.parameters.len(), 2);
    for p in &open_file.parameters {
        assert!(matches!(*p.param_type, TypeSpecifier::Primitive { prim: PrimitiveType::String, .. }));
    }
    match &*open_file.return_type {
        TypeSpecifier::Pointer { target_type, is_mutable, .. } => {
            assert!(*is_mutable);
            assert!(matches!(**target_type, TypeSpecifier::Primitive { prim: PrimitiveType::Void, .. }));
        }
        _ => panic!("open_file should return a pointer"),
    }
    assert!(module.external_functions.iter().all(|f| !f.variadic && f.thread_safe && !f.may_block));
}

#[test]
fn test_math_constants_are_floats() {
    let module = create_math_module();
    assert_eq!(module.constant_declarations.len(), 6);
    for c in &module.constant_declarations {
        assert!(matches!(*c.type_spec, TypeSpecifier::Primitive { prim: PrimitiveType::Float, .. }));
    }
}

#[test]
fn test_registry_holds_described_modules() {
    let stdlib = StandardLibrary::new();
    assert_eq!(stdlib.modules().len(), 9);
    assert_eq!(stdlib.list_modules().len(), stdlib.modules().len());
    let io = stdlib.get_module("std.io").unwrap();
    assert_eq!(io.external_functions.len(), create_io_module().external_functions.len());
    assert_eq!(io.function_definitions.len(), create_io_module().function_definitions.len());
}

#[test]
fn test_module_items_have_synthesized_locations() {
    let module = create_collections_module();
    assert_eq!(module.source_location.file, "<unknown>");
    assert_eq!(module.name.source_location.line, 0);
    for f in &module.function_definitions {
        assert_eq!(f.source_location.file, "<unknown>");
        assert!(f.metadata.algorithm_hint.is_none());
        assert!(f.metadata.throws_exceptions.is_empty());
        for p in &f.parameters {
            assert_eq!(p.source_location.file, "<unknown>");
            assert_eq!(p.name.source_location.file, "<unknown>");
        }
    }
    for e in &module.exports {
        match e {
            ExportStatement::Function { name, source_location }
            | ExportStatement::Type { name, source_location }
            | ExportStatement::Constant { name, source_location } => {
                assert_eq!(name.source_location.file, "<unknown>");
                assert_eq!(source_location.file, "<unknown>");
            }
        }
    }
}
