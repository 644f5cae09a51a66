//! The host ABI: the boundary between guest TILT code and the surrounding
//! process.  An implementation provides host-callable functions and, for
//! the interpreter, guest memory.

use vstd::prelude::*;
use crate::ast::Type;
use std::io::Write;

verus! {

/// A value crossing the guest/host boundary, tagged with its dynamic type.
#[derive(Debug, Clone, Copy, PartialEq)]
pub enum RuntimeValue {
    I32(i32),
    I64(i64),
    Usize(usize),
    Void,
}

/// The dynamic type of a runtime value.
pub open spec fn spec_value_type(v: RuntimeValue) -> Type {
    match v {
        RuntimeValue::I32(_) => Type::I32,
        RuntimeValue::I64(_) => Type::I64,
        RuntimeValue::Usize(_) => Type::Usize,
        RuntimeValue::Void => Type::Void,
    }
}

impl RuntimeValue {
    /// The TILT type this value carries.
    pub fn get_type(&self) -> (t: Type)
        ensures
            t == spec_value_type(*self),
    {
        match self {
            RuntimeValue::I32(_) => Type::I32,
            RuntimeValue::I64(_) => Type::I64,
            RuntimeValue::Usize(_) => Type::Usize,
            RuntimeValue::Void => Type::Void,
        }
    }

    /// The `i32` payload; the caller must know the value is an `I32`.
    pub fn as_i32(&self) -> (r: i32)
        requires
            *self matches RuntimeValue::I32(_),
        ensures
            *self == RuntimeValue::I32(r),
    {
        match self {
            RuntimeValue::I32(v) => *v,
            _ => 0,
        }
    }

    /// The `i64` payload; the caller must know the value is an `I64`.
    pub fn as_i64(&self) -> (r: i64)
        requires
            *self matches RuntimeValue::I64(_),
        ensures
            *self == RuntimeValue::I64(r),
    {
        match self {
            RuntimeValue::I64(v) => *v,
            _ => 0,
        }
    }

    /// The address payload as a `u64`; the caller must know the value is a
    /// `Usize`.
    pub fn as_ptr(&self) -> (r: u64)
        requires
            *self matches RuntimeValue::Usize(_),
        ensures
            *self matches RuntimeValue::Usize(u) && r == u as u64,
    {
        match self {
            RuntimeValue::Usize(v) => *v as u64,
            _ => 0,
        }
    }

    /// The `i32` payload, or `None` for any other variant.
    pub fn try_as_i32(&self) -> (r: Option<i32>)
        ensures
            match *self {
                RuntimeValue::I32(v) => r == Some(v),
                _ => r is None,
            },
    {
        match self {
            RuntimeValue::I32(v) => Some(*v),
            _ => None,
        }
    }

    /// The `i64` payload, or `None` for any other variant.
    pub fn try_as_i64(&self) -> (r: Option<i64>)
        ensures
            match *self {
                RuntimeValue::I64(v) => r == Some(v),
                _ => r is None,
            },
    {
        match self {
            RuntimeValue::I64(v) => Some(*v),
            _ => None,
        }
    }

    /// The address payload as a `u64`, or `None` for any other variant.
    pub fn try_as_ptr(&self) -> (r: Option<u64>)
        ensures
            match *self {
                RuntimeValue::Usize(v) => r == Some(v as u64),
                _ => r is None,
            },
    {
        match self {
            RuntimeValue::Usize(v) => Some(*v as u64),
            _ => None,
        }
    }
}

/// Result of a host function call.
pub type HostResult = Result<RuntimeValue, String>;

/// The type under which a typed value is stored in guest memory: floats are
/// carried through as same-width integers, everything else as itself.
pub open spec fn spec_storage_type(ty: Type) -> Type {
    match ty {
        Type::F32 => Type::I32,
        Type::F64 => Type::I64,
        _ => ty,
    }
}

/// The contract between TILT programs and the host environment.  The same
/// guest code runs against any implementation; nothing is promised about a
/// call's outcome beyond its shape, so callers must handle every result.
pub trait HostABI {
    /// Call a host function by name.  May fail for any reason of the
    /// host's; no outcome is promised.
    fn call_host_function(&mut self, name: &str, args: &[RuntimeValue]) -> HostResult;

    /// The names of the available host functions.
    fn available_functions(&self) -> Vec<String>;

    /// Whether a host function of this name is available.
    fn has_function(&self, name: &str) -> bool;

    /// Read a typed value from guest memory.  On success the value carries
    /// the storage type for `ty`, which is never `Void`.
    fn read_memory_value(&self, addr: u64, ty: Type) -> (r: Result<RuntimeValue, String>)
        ensures
            r matches Ok(v) ==> spec_value_type(v) == spec_storage_type(ty)
                && ty != Type::Void,
    ;

    /// Write a typed value to guest memory.
    fn write_memory_value(&mut self, addr: u64, value: &RuntimeValue) -> Result<(), String>;
}

/// The set of console host function names.
pub open spec fn spec_console_has(name: Seq<char>) -> bool {
    name == "print_hello"@ || name == "print_i32"@ || name == "print_i64"@
        || name == "print_char"@ || name == "println"@ || name == "read_i32"@
}

/// What a console host call returns: a known name succeeds exactly when
/// its argument list has the right shape (and, for `print_char`, a valid
/// character code); `read_i32` may also fail with the process's input;
/// unknown names fail.
pub open spec fn spec_console_result(name: Seq<char>, args: Seq<RuntimeValue>, r: HostResult)
    -> bool
{
    if name == "print_hello"@ {
        if args.len() == 0 { r == Ok::<RuntimeValue, String>(RuntimeValue::Void) }
        else { r is Err }
    } else if name == "print_i32"@ {
        if args.len() == 1 && (args[0] matches RuntimeValue::I32(_)) {
            r == Ok::<RuntimeValue, String>(RuntimeValue::Void)
        } else { r is Err }
    } else if name == "print_i64"@ {
        if args.len() == 1 && (args[0] matches RuntimeValue::I64(_)) {
            r == Ok::<RuntimeValue, String>(RuntimeValue::Void)
        } else { r is Err }
    } else if name == "print_char"@ {
        if args.len() == 1 && (args[0] matches RuntimeValue::I32(c)
            && spec_valid_char_code(c)) {
            r == Ok::<RuntimeValue, String>(RuntimeValue::Void)
        } else { r is Err }
    } else if name == "println"@ {
        if args.len() == 0 { r == Ok::<RuntimeValue, String>(RuntimeValue::Void) }
        else { r is Err }
    } else if name == "read_i32"@ {
        if args.len() == 0 { r matches Ok(v) ==> v matches RuntimeValue::I32(_) }
        else { r is Err }
    } else {
        r is Err
    }
}

/// Whether an `i32` holds a valid Unicode scalar value.
pub open spec fn spec_valid_char_code(v: i32) -> bool {
    (0 <= v < 0xD800) || (0xE000 <= v <= 0x10FFFF)
}

/// Console-based host ABI: basic text output and integer input on the
/// process's standard streams.
pub struct ConsoleHostABI;

/// Relies on std::io::Stdout and write!: prints the integer in decimal.
#[verifier::external_body]
fn emit_i32(v: i32) {
    let _ = write!(std::io::stdout(), "{}", v);
}

/// Relies on std::io::Stdout and write!: prints the integer in decimal.
#[verifier::external_body]
fn emit_i64(v: i64) {
    let _ = write!(std::io::stdout(), "{}", v);
}

/// Relies on std::io::Stdout and write!: prints the given text.
#[verifier::external_body]
fn emit_str(s: &str) {
    let _ = write!(std::io::stdout(), "{}", s);
}

/// Relies on std::io::Stdout and writeln!: prints a line break.
#[verifier::external_body]
fn emit_newline() {
    let _ = writeln!(std::io::stdout());
}

/// Relies on char::from_u32 and write!: prints the character the valid
/// scalar value denotes.
#[verifier::external_body]
fn emit_char(code: u32) {
    if let Some(c) = char::from_u32(code) {
        let _ = write!(std::io::stdout(), "{}", c);
    }
}

/// Relies on std::io::Stdin::read_line: one line of input, or `None` when
/// reading fails.  The result depends on the process's input.
#[verifier::external_body]
fn read_line_stdin() -> Option<String> {
    let mut line = String::new();
    match std::io::stdin().read_line(&mut line) {
        Ok(_) => Some(line),
        Err(_) => None,
    }
}

impl ConsoleHostABI {
    pub fn new() -> (r: ConsoleHostABI) {
        ConsoleHostABI
    }
}

impl HostABI for ConsoleHostABI {
    /// Exactly the calls the console accepts succeed: a known name with the
    /// right argument count and types (and, for `print_char`, a valid
    /// character code).  `read_i32` succeeds or fails with the process's
    /// input; every other failure is deterministic.
    fn call_host_function(&mut self, name: &str, args: &[RuntimeValue]) -> (r: HostResult)
        ensures
            spec_console_result(name@, args@, r),
    {
        if crate::text::str_eq(name, "print_hello") {
            if args.len() != 0 {
                return Err("print_hello expects 0 arguments".to_owned());
            }
            emit_str("Hello from TILT!");
            emit_newline();
            Ok(RuntimeValue::Void)
        } else if crate::text::str_eq(name, "print_i32") {
            if args.len() != 1 {
                return Err("print_i32 expects 1 argument".to_owned());
            }
            match args[0].try_as_i32() {
                Some(v) => {
                    emit_i32(v);
                    Ok(RuntimeValue::Void)
                }
                None => Err("print_i32 expects an i32 argument".to_owned()),
            }
        } else if crate::text::str_eq(name, "print_i64") {
            if args.len() != 1 {
                return Err("print_i64 expects 1 argument".to_owned());
            }
            match args[0].try_as_i64() {
                Some(v) => {
                    emit_i64(v);
                    Ok(RuntimeValue::Void)
                }
                None => Err("print_i64 expects an i64 argument".to_owned()),
            }
        } else if crate::text::str_eq(name, "print_char") {
            if args.len() != 1 {
                return Err("print_char expects 1 argument".to_owned());
            }
            match args[0].try_as_i32() {
                Some(v) => {
                    if (0 <= v && v < 0xD800) || (0xE000 <= v && v <= 0x10FFFF) {
                        emit_char(v as u32);
                        Ok(RuntimeValue::Void)
                    } else {
                        Err("invalid character code".to_owned())
                    }
                }
                None => Err("print_char expects an i32 argument".to_owned()),
            }
        } else if crate::text::str_eq(name, "println") {
            if args.len() != 0 {
                return Err("println expects 0 arguments".to_owned());
            }
            emit_newline();
            Ok(RuntimeValue::Void)
        } else if crate::text::str_eq(name, "read_i32") {
            if args.len() != 0 {
                return Err("read_i32 expects 0 arguments".to_owned());
            }
            emit_str("Enter an integer: ");
            match read_line_stdin() {
                Some(line) => {
                    let cs = crate::text::str_chars(line.as_str());
                    match crate::text::parse_i32_trimmed(cs.as_slice()) {
                        Some(v) => Ok(RuntimeValue::I32(v)),
                        None => Err("Failed to parse integer".to_owned()),
                    }
                }
                None => Err("Failed to read input".to_owned()),
            }
        } else {
            Err("Unknown host function".to_owned())
        }
    }

    fn available_functions(&self) -> (r: Vec<String>)
        ensures
            r@.len() == 6,
            r@.map_values(|s: String| s@) =~= seq![
                "print_hello"@, "print_i32"@, "print_i64"@,
                "print_char"@, "println"@, "read_i32"@,
            ],
    {
        let mut v: Vec<String> = Vec::new();
        v.push("print_hello".to_owned());
        v.push("print_i32".to_owned());
        v.push("print_i64".to_owned());
        v.push("print_char".to_owned());
        v.push("println".to_owned());
        v.push("read_i32".to_owned());
        v
    }

    fn has_function(&self, name: &str) -> (r: bool)
        ensures
            r == spec_console_has(name@),
    {
        crate::text::str_eq(name, "print_hello") || crate::text::str_eq(name, "print_i32")
            || crate::text::str_eq(name, "print_i64") || crate::text::str_eq(name, "print_char")
            || crate::text::str_eq(name, "println") || crate::text::str_eq(name, "read_i32")
    }

    /// The console provides no guest memory.
    fn read_memory_value(&self, addr: u64, ty: Type) -> (r: Result<RuntimeValue, String>)
        ensures
            r is Err,
    {
        Err("Memory operations not supported by this host ABI".to_owned())
    }

    /// The console provides no guest memory.
    fn write_memory_value(&mut self, addr: u64, value: &RuntimeValue) -> (r: Result<(), String>)
        ensures
            r is Err,
    {
        Err("Memory operations not supported by this host ABI".to_owned())
    }
}

/// A host ABI that refuses every call; for tests and isolated execution.
pub struct NullHostABI;

impl NullHostABI {
    pub fn new() -> (r: NullHostABI) {
        NullHostABI
    }
}

impl HostABI for NullHostABI {
    fn call_host_function(&mut self, name: &str, args: &[RuntimeValue]) -> (r: HostResult)
        ensures
            r is Err,
    {
        Err("Null ABI: function not implemented".to_owned())
    }

    fn available_functions(&self) -> (r: Vec<String>)
        ensures
            r@.len() == 0,
    {
        Vec::new()
    }

    fn has_function(&self, name: &str) -> (r: bool)
        ensures
            r == false,
    {
        false
    }

    fn read_memory_value(&self, addr: u64, ty: Type) -> (r: Result<RuntimeValue, String>)
        ensures
            r is Err,
    {
        Err("Memory operations not supported by this host ABI".to_owned())
    }

    fn write_memory_value(&mut self, addr: u64, value: &RuntimeValue) -> (r: Result<(), String>)
        ensures
            r is Err,
    {
        Err("Memory operations not supported by this host ABI".to_owned())
    }
}

/// Conversion from host Rust values into runtime values.
pub trait IntoRuntimeValue {
    fn into_runtime_value(self) -> RuntimeValue;
}

impl IntoRuntimeValue for i32 {
    fn into_runtime_value(self) -> (r: RuntimeValue)
        ensures
            r == RuntimeValue::I32(self),
    {
        RuntimeValue::I32(self)
    }
}

impl IntoRuntimeValue for i64 {
    fn into_runtime_value(self) -> (r: RuntimeValue)
        ensures
            r == RuntimeValue::I64(self),
    {
        RuntimeValue::I64(self)
    }
}

impl IntoRuntimeValue for () {
    fn into_runtime_value(self) -> (r: RuntimeValue)
        ensures
            r == RuntimeValue::Void,
    {
        RuntimeValue::Void
    }
}

} // verus!
