//! Tests for the interpreter's call interface.

use tilt::ast::Type;
use tilt::host::{ConsoleHostABI, RuntimeValue};
use tilt::ir::{
    BasicBlock, BinaryOperator, BlockId, Function, Instruction, Program, Terminator, ValueId,
};
use tilt::vm::{VMError, VM};

fn create_simple_add_program() -> Program {
    // A program with one function: fn add(a: i32, b: i32) -> i32.
    let mut program = Program { imports: vec![], functions: vec![] };

    let mut func = Function::new("add".to_string(), vec![Type::I32, Type::I32], Type::I32);

    let entry_block = BasicBlock::new(BlockId::new(0), "entry".to_string());
    func.blocks.push(entry_block);

    let param_a = ValueId::new(0);
    let param_b = ValueId::new(1);
    func.blocks[0].params.push((param_a, Type::I32));
    func.blocks[0].params.push((param_b, Type::I32));

    let result = ValueId::new(2);
    let add_instr = Instruction::BinaryOp {
        dest: result,
        op: BinaryOperator::Add,
        ty: Type::I32,
        lhs: param_a,
        rhs: param_b,
    };
    func.blocks[0].instructions.push(add_instr);

    func.blocks[0].terminator = Terminator::Ret { value: Some(result) };

    func.next_value_id = ValueId::new(3);

    program.functions.push(func);
    program
}

#[test]
fn test_simple_add_function() {
    let program = create_simple_add_program();
    let host_abi = ConsoleHostABI::new();
    let mut vm = VM::new(program, host_abi);

    let args = vec![RuntimeValue::I32(5), RuntimeValue::I32(3)];
    let result = vm.call_function("add", args).unwrap();

    assert_eq!(result, RuntimeValue::I32(8));
}

#[test]
fn test_function_not_found() {
    let program = create_simple_add_program();
    let host_abi = ConsoleHostABI::new();
    let mut vm = VM::new(program, host_abi);

    let args = vec![RuntimeValue::I32(5), RuntimeValue::I32(3)];
    let result = vm.call_function("nonexistent", args);

    assert!(matches!(result, Err(VMError::FunctionNotFound(_))));
}

#[test]
fn test_wrong_argument_count() {
    let program = create_simple_add_program();
    let host_abi = ConsoleHostABI::new();
    let mut vm = VM::new(program, host_abi);

    let args = vec![RuntimeValue::I32(5)]; // Missing one argument
    let result = vm.call_function("add", args);

    assert!(matches!(result, Err(VMError::InvalidInstruction(_))));
}

#[test]
fn test_host_function_call() {
    let mut program = Program { imports: vec![], functions: vec![] };

    // A function that calls the host function print_i32.
    let mut func = Function::new("test_print".to_string(), vec![Type::I32], Type::Void);

    let entry_block = BasicBlock::new(BlockId::new(0), "entry".to_string());
    func.blocks.push(entry_block);

    let param = ValueId::new(0);
    func.blocks[0].params.push((param, Type::I32));

    let call_instr = Instruction::CallVoid {
        function: "print_i32".to_string(),
        args: vec![param],
    };
    func.blocks[0].instructions.push(call_instr);

    func.blocks[0].terminator = Terminator::Ret { value: None };

    func.next_value_id = ValueId::new(1);
    program.functions.push(func);

    let host_abi = ConsoleHostABI::new();
    let mut vm = VM::new(program, host_abi);

    let args = vec![RuntimeValue::I32(42)];
    let result = vm.call_function("test_print", args).unwrap();

    assert_eq!(result, RuntimeValue::Void);
}
