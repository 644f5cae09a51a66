//! Integration tests for the guest memory operations, through the
//! builder and through the text format.

use tilt::ast::Type;
use tilt::builder::ProgramBuilder;
use tilt::host::RuntimeValue;
use tilt::memory::MemoryHostABI;
use tilt::vm::VM;

#[test]
fn test_memory_operations() {
    let mut builder = ProgramBuilder::new();

    // Add memory allocation imports
    builder.add_import_with_cc("host", "alloc", None, vec![Type::Usize], Type::Usize);
    builder.add_import_with_cc("host", "free", None, vec![Type::Usize], Type::Void);

    // Create a function that uses memory operations
    let func_idx = builder.create_function("test_alloc", vec![], Type::Void);

    {
        let mut func_builder = builder.function_builder(func_idx);
        let entry = func_builder.create_block("entry");
        func_builder.switch_to_block(entry);

        // Allocate 8 bytes
        let size = func_builder.ins().const_usize(8);
        let ptr = func_builder.ins().allocate(size);

        // Free the allocated memory
        func_builder.ins().free(ptr);

        func_builder.ins().ret(None);

        builder.store_function(func_builder);
    }

    let program = builder.build();

    // Test with VM
    let host_abi = MemoryHostABI::new();
    let mut vm = VM::new(program, host_abi);

    let result = vm.call_function("test_alloc", vec![]);
    assert!(result.is_ok());
    assert_eq!(result.unwrap(), RuntimeValue::Void);
}

#[test]
fn test_comprehensive_vertical_slice() {
    // This test exercises, in one program: all integer types, memory
    // operations (alloc, free, load, store), pointer arithmetic, sizeof,
    // arithmetic, comparisons, constants, imports, and control flow.
    let mut builder = ProgramBuilder::new();

    builder.add_import_with_cc("host", "alloc", None, vec![Type::Usize], Type::Usize);
    builder.add_import_with_cc("host", "free", None, vec![Type::Usize], Type::Void);
    builder.add_import_with_cc("env", "print_i32", None, vec![Type::I32], Type::Void);

    let func_idx = builder.create_function("comprehensive_test", vec![], Type::I32);

    {
        let mut func_builder = builder.function_builder(func_idx);
        let entry = func_builder.create_block("entry");
        let memory_test_block = func_builder.create_block("memory_test");
        let arithmetic_test_block = func_builder.create_block("arithmetic_test");
        let comparison_test_block = func_builder.create_block("comparison_test");
        let final_block = func_builder.create_block("final");

        func_builder.switch_to_block(entry);

        // Constants and type operations
        let const_i32 = func_builder.ins().const_i32(42);
        let zero = func_builder.ins().const_i32(0);

        let _size_i32 = func_builder.ins().size_of(Type::I32);
        let _size_i64 = func_builder.ins().size_of(Type::I64);
        let _size_ptr = func_builder.ins().size_of(Type::Usize);

        func_builder.ins().jump(memory_test_block);

        // Memory operations: allocate space for 4 values (16 bytes)
        func_builder.switch_to_block(memory_test_block);

        let array_size = func_builder.ins().const_usize(16);
        let array_ptr = func_builder.ins().allocate(array_size);

        let val1 = func_builder.ins().const_i32(10);
        let val2 = func_builder.ins().const_i32(20);
        let val3 = func_builder.ins().const_i32(30);
        let val4 = func_builder.ins().const_i32(40);

        func_builder.ins().store(array_ptr, val1, Type::I32);

        let offset_4 = func_builder.ins().const_usize(4);
        let offset_8 = func_builder.ins().const_usize(8);
        let offset_12 = func_builder.ins().const_usize(12);

        let ptr2 = func_builder.ins().ptr_add(array_ptr, offset_4);
        let ptr3 = func_builder.ins().ptr_add(array_ptr, offset_8);
        let ptr4 = func_builder.ins().ptr_add(array_ptr, offset_12);

        func_builder.ins().store(ptr2, val2, Type::I32);
        func_builder.ins().store(ptr3, val3, Type::I32);
        func_builder.ins().store(ptr4, val4, Type::I32);

        let loaded1 = func_builder.ins().load(Type::I32, array_ptr);
        let loaded2 = func_builder.ins().load(Type::I32, ptr2);
        let loaded3 = func_builder.ins().load(Type::I32, ptr3);
        let loaded4 = func_builder.ins().load(Type::I32, ptr4);

        func_builder.ins().free(array_ptr);

        func_builder.ins().jump(arithmetic_test_block);

        // Arithmetic operations
        func_builder.switch_to_block(arithmetic_test_block);

        let sum12 = func_builder.ins().add(Type::I32, loaded1, loaded2); // 10 + 20 = 30
        let sum34 = func_builder.ins().add(Type::I32, loaded3, loaded4); // 30 + 40 = 70
        let total_sum = func_builder.ins().add(Type::I32, sum12, sum34); // 30 + 70 = 100

        let _diff = func_builder.ins().sub(Type::I32, loaded4, loaded1); // 40 - 10 = 30
        let _product = func_builder.ins().mul(Type::I32, loaded2, const_i32); // 20 * 42 = 840

        let quotient = func_builder.ins().add(Type::I32, const_i32, zero); // 42 + 0 = 42

        func_builder.ins().jump(comparison_test_block);

        // Comparison operations
        func_builder.switch_to_block(comparison_test_block);

        let eq_test = func_builder.ins().cmp_eq(Type::I32, quotient, const_i32); // 42 == 42
        let _ne_test = func_builder.ins().cmp_eq(Type::I32, loaded1, loaded2);
        let lt_test = func_builder.ins().cmp_lt(Type::I32, loaded1, loaded2); // 10 < 20

        let expected_100 = func_builder.ins().const_i32(100);
        let condition = func_builder.ins().cmp_eq(Type::I32, total_sum, expected_100);
        func_builder.ins().br_if(condition, final_block, final_block);

        // Final result
        func_builder.switch_to_block(final_block);

        let comparison_sum = func_builder.ins().add(Type::I32, eq_test, lt_test);

        let test_completion_bonus = func_builder.ins().const_i32(7);
        let comparison_sum =
            func_builder.ins().add(Type::I32, comparison_sum, test_completion_bonus);

        let final_result = func_builder.ins().add(Type::I32, total_sum, comparison_sum);

        func_builder.ins().ret(Some(final_result));

        builder.store_function(func_builder);
    }

    let program = builder.build();

    // Test with VM
    let host_abi = MemoryHostABI::new();
    let mut vm = VM::new(program.clone(), host_abi);

    let vm_result = vm.call_function("comprehensive_test", vec![]);
    assert!(vm_result.is_ok(), "VM execution failed: {:?}", vm_result.err());

    let vm_value = vm_result.unwrap();

    match vm_value {
        RuntimeValue::I32(vm_val) => {
            assert!(vm_val >= 0, "Result should be non-negative: {}", vm_val);
        }
        _ => panic!("Expected I32 result, got: {:?}", vm_value),
    }
}

#[test]
fn test_comprehensive_vertical_slice_text_format() {
    // The same feature sweep through the complete text pipeline:
    // lexer, parser, lowering, and VM execution.
    let tilt_source = r#"
import "host" "alloc" (size: usize) -> usize
import "host" "free" (p: usize) -> void

fn comprehensive_test() -> i32 {
entry:
    array_size:usize = usize.const(16)
    array_ptr:usize = call alloc(array_size)
    val1:i32 = i32.const(10)
    val2:i32 = i32.const(20)
    val3:i32 = i32.const(30)
    val4:i32 = i32.const(40)
    i32.store(array_ptr, val1)
    offset_4:usize = usize.const(4)
    offset_8:usize = usize.const(8)
    offset_12:usize = usize.const(12)
    ptr2:usize = usize.add(array_ptr, offset_4)
    ptr3:usize = usize.add(array_ptr, offset_8)
    ptr4:usize = usize.add(array_ptr, offset_12)
    i32.store(ptr2, val2)
    i32.store(ptr3, val3)
    i32.store(ptr4, val4)
    loaded1:i32 = i32.load(array_ptr)
    loaded2:i32 = i32.load(ptr2)
    loaded3:i32 = i32.load(ptr3)
    loaded4:i32 = i32.load(ptr4)
    free(array_ptr)
    sum12:i32 = i32.add(loaded1, loaded2)
    sum34:i32 = i32.add(loaded3, loaded4)
    total_sum:i32 = i32.add(sum12, sum34)
    diff:i32 = i32.sub(loaded4, loaded1)
    product:i32 = i32.mul(loaded2, val1)
    quotient:i32 = i32.add(val1, val2)
    eq_test:i32 = i32.eq(quotient, val2)
    lt_test:i32 = i32.lt(loaded1, loaded2)
    comparison_sum:i32 = i32.add(eq_test, lt_test)
    test_bonus:i32 = i32.const(7)
    comparison_sum_bonus:i32 = i32.add(comparison_sum, test_bonus)
    final_result:i32 = i32.add(total_sum, comparison_sum_bonus)
    ret (final_result)
}
"#;

    let ir_program = tilt::compile_source(tilt_source).expect("compilation should succeed");

    let host_abi = MemoryHostABI::new();
    let mut vm = VM::new(ir_program, host_abi);

    let vm_result = vm.call_function("comprehensive_test", vec![]);
    assert!(vm_result.is_ok(), "VM execution failed: {:?}", vm_result.err());

    let vm_value = vm_result.unwrap();

    match vm_value {
        RuntimeValue::I32(vm_val) => {
            // loaded values 10 + 20 + 30 + 40 = 100; eq 0, lt 1, bonus 7.
            assert!(vm_val >= 100, "Expected result >= 100, got: {}", vm_val);
            assert_eq!(vm_val, 108);
        }
        _ => panic!("Expected I32 result, got: {:?}", vm_value),
    }
}
