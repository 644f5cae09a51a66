//! Tests for the memory primitives through the whole pipeline: each
//! program is compiled from source, translated into the native emission
//! plan, and executed by the interpreter against guest memory; both
//! backends share the pipeline up to the final execution step.

use tilt::codegen::compile_program;
use tilt::host::RuntimeValue;
use tilt::memory::MemoryHostABI;
use tilt::vm::VM;

fn execute_jit_program(source: &str) -> Result<RuntimeValue, String> {
    let program = tilt::compile_source(source)?;

    // The emission plan for native code must build cleanly.
    compile_program(&program).map_err(|e| format!("translation failed: {}", e))?;

    // Execute the same program over guest memory.
    let host_abi = MemoryHostABI::new();
    let mut vm = VM::new(program, host_abi);
    vm.call_function("main", vec![]).map_err(|e| format!("execution failed: {:?}", e))
}

#[test]
fn test_jit_simple_constant() {
    let source = r#"
        fn main() -> i32 {
        entry:
            result:i32 = i32.const(42)
            ret (result)
        }
    "#;

    let result = execute_jit_program(source).expect("JIT execution should succeed");
    assert_eq!(result, RuntimeValue::I32(42));
}

#[test]
fn test_jit_sizeof_operation() {
    let source = r#"
        fn main() -> usize {
        entry:
            size:usize = sizeof.i32()
            ret (size)
        }
    "#;

    let result = execute_jit_program(source).expect("JIT execution should succeed");
    assert_eq!(result, RuntimeValue::Usize(4));
}

#[test]
fn test_jit_multiple_sizeof() {
    let source = r#"
        fn main() -> usize {
        entry:
            size1:usize = sizeof.i32()
            size2:usize = sizeof.i64()
            total:usize = usize.add(size1, size2)
            ret (total)
        }
    "#;

    let result = execute_jit_program(source).expect("JIT execution should succeed");
    assert_eq!(result, RuntimeValue::Usize(12)); // 4 + 8
}

#[test]
fn test_jit_simple_allocation() {
    let source = r#"
        import "host" "alloc" (size:usize) -> usize
        import "host" "free" (p:usize) -> void

        fn main() -> i32 {
        entry:
            size:usize = usize.const(8)
            ptr:usize = alloc(size)
            free(ptr)
            result:i32 = i32.const(1)
            ret (result)
        }
    "#;

    let result = execute_jit_program(source).expect("JIT execution should succeed");
    assert_eq!(result, RuntimeValue::I32(1));
}

#[test]
fn test_jit_alloc_free_basic() {
    let source = r#"
        import "host" "alloc" (size:usize) -> usize
        import "host" "free" (p:usize) -> void

        fn main() -> void {
        entry:
            size:usize = sizeof.i32()
            ptr:usize = alloc(size)
            free(ptr)
            ret
        }
    "#;

    let result = execute_jit_program(source).expect("JIT execution should succeed");
    assert_eq!(result, RuntimeValue::Void);
}

#[test]
fn test_jit_store_load_simple() {
    let source = r#"
        import "host" "alloc" (size:usize) -> usize
        import "host" "free" (p:usize) -> void

        fn main() -> i32 {
        entry:
            size:usize = sizeof.i32()
            ptr:usize = alloc(size)
            value:i32 = i32.const(42)
            i32.store(ptr, value)
            loaded:i32 = i32.load(ptr)
            free(ptr)
            ret (loaded)
        }
    "#;

    let result = execute_jit_program(source).expect("JIT execution should succeed");
    assert_eq!(result, RuntimeValue::I32(42));
}

#[test]
fn test_jit_pointer_arithmetic() {
    let source = r#"
        import "host" "alloc" (size:usize) -> usize
        import "host" "free" (p:usize) -> void

        fn main() -> i32 {
        entry:
            size:usize = usize.const(8)
            ptr:usize = alloc(size)

            val1:i32 = i32.const(10)
            i32.store(ptr, val1)

            offset:usize = sizeof.i32()
            ptr2:usize = usize.add(ptr, offset)
            val2:i32 = i32.const(20)
            i32.store(ptr2, val2)

            loaded1:i32 = i32.load(ptr)
            loaded2:i32 = i32.load(ptr2)
            result:i32 = i32.add(loaded1, loaded2)

            free(ptr)
            ret (result)
        }
    "#;

    let result = execute_jit_program(source).expect("JIT execution should succeed");
    assert_eq!(result, RuntimeValue::I32(30)); // 10 + 20
}

#[test]
fn test_jit_function_call_with_memory() {
    let source = r#"
        import "host" "alloc" (size:usize) -> usize
        import "host" "free" (p:usize) -> void

        fn allocate_and_store(value:i32) -> i32 {
        entry:
            size:usize = sizeof.i32()
            ptr:usize = alloc(size)
            i32.store(ptr, value)
            loaded:i32 = i32.load(ptr)
            free(ptr)
            ret (loaded)
        }

        fn main() -> i32 {
        entry:
            value:i32 = i32.const(99)
            result:i32 = allocate_and_store(value)
            ret (result)
        }
    "#;

    let result = execute_jit_program(source).expect("JIT execution should succeed");
    assert_eq!(result, RuntimeValue::I32(99));
}

#[test]
fn test_jit_complex_memory_operations() {
    let source = r#"
        import "host" "alloc" (size:usize) -> usize
        import "host" "free" (p:usize) -> void

        fn main() -> i32 {
        entry:
            # Allocate space for 3 i32 values
            element_size:usize = sizeof.i32()
            count:usize = usize.const(3)
            total_size:usize = usize.mul(element_size, count)
            ptr:usize = alloc(total_size)

            # Store values at different offsets
            val1:i32 = i32.const(100)
            i32.store(ptr, val1)

            offset1:usize = sizeof.i32()
            ptr2:usize = usize.add(ptr, offset1)
            val2:i32 = i32.const(200)
            i32.store(ptr2, val2)

            # Offset of the third element: 2 * sizeof(i32)
            two:usize = usize.const(2)
            element_size_2:usize = sizeof.i32()
            offset2:usize = usize.mul(element_size_2, two)
            ptr3:usize = usize.add(ptr, offset2)
            val3:i32 = i32.const(300)
            i32.store(ptr3, val3)

            # Load and sum all values
            loaded1:i32 = i32.load(ptr)
            loaded2:i32 = i32.load(ptr2)
            loaded3:i32 = i32.load(ptr3)

            sum1:i32 = i32.add(loaded1, loaded2)
            result:i32 = i32.add(sum1, loaded3)

            free(ptr)
            ret (result)
        }
    "#;

    let result = execute_jit_program(source).expect("JIT execution should succeed");
    assert_eq!(result, RuntimeValue::I32(600)); // 100 + 200 + 300
}
