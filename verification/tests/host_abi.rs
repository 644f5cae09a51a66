//! Tests for runtime values and the console and null host ABIs.

use tilt::ast::Type;
use tilt::host::{ConsoleHostABI, HostABI, IntoRuntimeValue, NullHostABI, RuntimeValue};

#[test]
fn test_runtime_value_types() {
    let val_i32 = RuntimeValue::I32(42);
    let val_i64 = RuntimeValue::I64(123);
    let val_void = RuntimeValue::Void;

    assert_eq!(val_i32.get_type(), Type::I32);
    assert_eq!(val_i64.get_type(), Type::I64);
    assert_eq!(val_void.get_type(), Type::Void);

    assert_eq!(val_i32.as_i32(), 42);
    assert_eq!(val_i64.as_i64(), 123);
}

#[test]
fn test_runtime_value_try_cast() {
    let val = RuntimeValue::I32(42);

    assert_eq!(val.try_as_i32(), Some(42));
    assert_eq!(val.try_as_i64(), None);
}

#[test]
fn test_console_host_abi_available_functions() {
    let abi = ConsoleHostABI::new();
    let functions = abi.available_functions();

    assert!(functions.contains(&"print_hello".to_string()));
    assert!(functions.contains(&"print_i32".to_string()));
    assert!(functions.contains(&"print_i64".to_string()));
    assert!(functions.contains(&"print_char".to_string()));
    assert!(functions.contains(&"println".to_string()));
    assert!(functions.contains(&"read_i32".to_string()));
}

#[test]
fn test_console_host_abi_print_i32() {
    let mut abi = ConsoleHostABI::new();
    let args = vec![RuntimeValue::I32(42)];

    let result = abi.call_host_function("print_i32", &args);
    assert!(result.is_ok());
    assert_eq!(result.unwrap(), RuntimeValue::Void);
}

#[test]
fn test_console_host_abi_print_char() {
    let mut abi = ConsoleHostABI::new();
    let args = vec![RuntimeValue::I32(65)]; // ASCII 'A'

    let result = abi.call_host_function("print_char", &args);
    assert!(result.is_ok());
    assert_eq!(result.unwrap(), RuntimeValue::Void);
}

#[test]
fn test_console_host_abi_wrong_args() {
    let mut abi = ConsoleHostABI::new();
    let args = vec![RuntimeValue::I32(42), RuntimeValue::I32(43)]; // too many args

    let result = abi.call_host_function("print_i32", &args);
    assert!(result.is_err());
}

#[test]
fn test_console_host_abi_unknown_function() {
    let mut abi = ConsoleHostABI::new();
    let args = vec![];

    let result = abi.call_host_function("unknown_function", &args);
    assert!(result.is_err());
}

#[test]
fn test_null_host_abi() {
    let mut abi = NullHostABI::new();
    let args = vec![RuntimeValue::I32(42)];

    let result = abi.call_host_function("print_i32", &args);
    assert!(result.is_err());

    assert_eq!(abi.available_functions().len(), 0);
}

#[test]
fn test_into_runtime_value() {
    assert_eq!(42i32.into_runtime_value(), RuntimeValue::I32(42));
    assert_eq!(123i64.into_runtime_value(), RuntimeValue::I64(123));
    assert_eq!(().into_runtime_value(), RuntimeValue::Void);
}
