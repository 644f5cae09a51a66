//! End-to-end scenarios and boundary behaviors: arithmetic, branching,
//! recursion, guarded division, memory round trips, block parameters as
//! phis, determinism, and one test per error variant.

use tilt::ast::Type;
use tilt::codegen::compile_program;
use tilt::host::{ConsoleHostABI, NullHostABI, RuntimeValue};
use tilt::ir::{
    BasicBlock, BinaryOperator, BlockId, Function, Instruction, Program, SemanticError,
    Terminator, ValueId,
};
use tilt::memory::MemoryHostABI;
use tilt::vm::{eval_binary_op, type_size, VMError, VM};

fn run_i32(source: &str, name: &str, args: Vec<i32>) -> Result<RuntimeValue, VMError> {
    let program = tilt::compile_source(source).expect("compilation should succeed");
    // The native emission plan must build for every runnable scenario,
    // so that both backends accept exactly the same programs.
    compile_program(&program).expect("translation should succeed");
    let mut vm = VM::new(program, NullHostABI::new());
    let vals = args.into_iter().map(RuntimeValue::I32).collect();
    vm.call_function(name, vals)
}

const ADD_MUL: &str = r#"
fn add_mul(a:i32, b:i32, c:i32) -> i32 {
entry:
    s:i32 = i32.add(a, b)
    r:i32 = i32.mul(s, c)
    ret (r)
}
"#;

#[test]
fn test_scenario_arithmetic() {
    let r = run_i32(ADD_MUL, "add_mul", vec![5, 3, 2]).unwrap();
    assert_eq!(r, RuntimeValue::I32(16));
}

const MAX_FN: &str = r#"
fn max(a:i32, b:i32) -> i32 {
entry:
    c:i32 = i32.lt(a, b)
    br_if c, second, first
second:
    ret (b)
first:
    ret (a)
}
"#;

#[test]
fn test_scenario_max_via_branches() {
    assert_eq!(run_i32(MAX_FN, "max", vec![10, 5]).unwrap(), RuntimeValue::I32(10));
    assert_eq!(run_i32(MAX_FN, "max", vec![3, 7]).unwrap(), RuntimeValue::I32(7));
    assert_eq!(run_i32(MAX_FN, "max", vec![5, 5]).unwrap(), RuntimeValue::I32(5));
}

const FACTORIAL: &str = r#"
fn factorial(n:i32) -> i32 {
entry:
    one:i32 = i32.const(1)
    c:i32 = i32.le(n, one)
    br_if c, base, recurse
base:
    ret (one)
recurse:
    m:i32 = i32.sub(n, one)
    f:i32 = call factorial(m)
    r:i32 = i32.mul(n, f)
    ret (r)
}
"#;

#[test]
fn test_scenario_recursive_factorial() {
    assert_eq!(run_i32(FACTORIAL, "factorial", vec![0]).unwrap(), RuntimeValue::I32(1));
    assert_eq!(run_i32(FACTORIAL, "factorial", vec![1]).unwrap(), RuntimeValue::I32(1));
    assert_eq!(run_i32(FACTORIAL, "factorial", vec![5]).unwrap(), RuntimeValue::I32(120));
}

const SAFE_DIVIDE: &str = r#"
fn safe_divide(a:i32, b:i32) -> i32 {
entry:
    zero:i32 = i32.const(0)
    c:i32 = i32.eq(b, zero)
    br_if c, when_zero, divide
when_zero:
    m:i32 = i32.const(-1)
    ret (m)
divide:
    r:i32 = i32.div(a, b)
    ret (r)
}
"#;

#[test]
fn test_scenario_safe_divide() {
    assert_eq!(run_i32(SAFE_DIVIDE, "safe_divide", vec![15, 3]).unwrap(), RuntimeValue::I32(5));
    assert_eq!(run_i32(SAFE_DIVIDE, "safe_divide", vec![10, 0]).unwrap(), RuntimeValue::I32(-1));
    assert_eq!(run_i32(SAFE_DIVIDE, "safe_divide", vec![-8, 2]).unwrap(), RuntimeValue::I32(-4));
}

const MEMORY_SUM: &str = r#"
import "host" "alloc" (size:usize) -> usize
import "host" "free" (p:usize) -> void

fn main() -> i32 {
entry:
    size:usize = usize.const(16)
    p:usize = alloc(size)
    v1:i32 = i32.const(10)
    v2:i32 = i32.const(20)
    v3:i32 = i32.const(30)
    v4:i32 = i32.const(40)
    o4:usize = usize.const(4)
    o8:usize = usize.const(8)
    o12:usize = usize.const(12)
    p2:usize = usize.add(p, o4)
    p3:usize = usize.add(p, o8)
    p4:usize = usize.add(p, o12)
    i32.store(p, v1)
    i32.store(p2, v2)
    i32.store(p3, v3)
    i32.store(p4, v4)
    l1:i32 = i32.load(p)
    l2:i32 = i32.load(p2)
    l3:i32 = i32.load(p3)
    l4:i32 = i32.load(p4)
    s1:i32 = i32.add(l1, l2)
    s2:i32 = i32.add(s1, l3)
    s3:i32 = i32.add(s2, l4)
    free(p)
    ret (s3)
}
"#;

#[test]
fn test_scenario_memory_round_trip() {
    let program = tilt::compile_source(MEMORY_SUM).expect("compilation should succeed");
    compile_program(&program).expect("translation should succeed");
    let mut vm = VM::new(program, MemoryHostABI::new());
    let r = vm.call_function("main", vec![]).unwrap();
    assert_eq!(r, RuntimeValue::I32(100));
}

const SUM_LOOP: &str = r#"
fn sum_to(n:i32) -> i32 {
entry:
    z:i32 = i32.const(0)
    br step(z, z)
step(i:i32, acc:i32):
    c:i32 = i32.lt(i, n)
    br_if c, body, done(acc)
body:
    one:i32 = i32.const(1)
    i2:i32 = i32.add(i, one)
    acc2:i32 = i32.add(acc, i)
    br step(i2, acc2)
done(result:i32):
    ret (result)
}
"#;

#[test]
fn test_scenario_block_parameters_as_phis() {
    assert_eq!(run_i32(SUM_LOOP, "sum_to", vec![10]).unwrap(), RuntimeValue::I32(45));
    assert_eq!(run_i32(SUM_LOOP, "sum_to", vec![0]).unwrap(), RuntimeValue::I32(0));
}

#[test]
fn test_determinism_two_runs_agree() {
    // The same program, arguments, and a deterministic host ABI give
    // identical results across runs.
    let a = run_i32(FACTORIAL, "factorial", vec![7]).unwrap();
    let b = run_i32(FACTORIAL, "factorial", vec![7]).unwrap();
    assert_eq!(a, b);

    let p1 = tilt::compile_source(MEMORY_SUM).unwrap();
    let p2 = tilt::compile_source(MEMORY_SUM).unwrap();
    let mut vm1 = VM::new(p1, MemoryHostABI::new());
    let mut vm2 = VM::new(p2, MemoryHostABI::new());
    assert_eq!(vm1.call_function("main", vec![]).unwrap(),
        vm2.call_function("main", vec![]).unwrap());
}

// ===============================
// BOUNDARY BEHAVIORS
// ===============================

#[test]
fn test_division_by_zero_surfaces_error() {
    let source = r#"
fn divide(a:i32, b:i32) -> i32 {
entry:
    r:i32 = i32.div(a, b)
    ret (r)
}
"#;
    let r = run_i32(source, "divide", vec![1, 0]);
    assert_eq!(r, Err(VMError::DivisionByZero));

    let source64 = r#"
fn remainder(a:i32, b:i32) -> i32 {
entry:
    r:i32 = i32.rem(a, b)
    ret (r)
}
"#;
    let r2 = run_i32(source64, "remainder", vec![5, 0]);
    assert_eq!(r2, Err(VMError::DivisionByZero));
}

#[test]
fn test_stack_overflow_surfaces_error() {
    let source = r#"
fn spin() -> i32 {
entry:
    r:i32 = call spin()
    ret (r)
}
"#;
    let program = tilt::compile_source(source).unwrap();
    let mut vm = VM::new(program, NullHostABI::new());
    let r = vm.call_function("spin", vec![]);
    assert_eq!(r, Err(VMError::StackOverflow));

    // A tighter cap overflows sooner but with the same error.
    let program2 = tilt::compile_source(source).unwrap();
    let mut vm2 = VM::new(program2, NullHostABI::new());
    vm2.set_max_stack_depth(5);
    assert_eq!(vm2.call_function("spin", vec![]), Err(VMError::StackOverflow));
}

#[test]
fn test_branch_arg_count_mismatch_at_lowering() {
    let source = r#"
fn bad() -> i32 {
entry:
    one:i32 = i32.const(1)
    br finish(one, one)
finish(x:i32):
    ret (x)
}
"#;
    let errors = tilt::compile_source_detailed(source).unwrap_err();
    assert!(errors.iter().any(|e| matches!(e, SemanticError::ArgumentMismatch { .. })));
}

#[test]
fn test_branch_arg_count_mismatch_in_vm() {
    // Programmatically built IR can carry a mismatched branch; the
    // interpreter rejects it at run time.
    let mut func = Function::new("bad".to_string(), vec![], Type::I32);
    let mut entry = BasicBlock::new(BlockId::new(0), "entry".to_string());
    let c = ValueId::new(0);
    entry.instructions.push(Instruction::Const { dest: c, value: 1, ty: Type::I32 });
    entry.terminator = Terminator::Br { target: BlockId::new(1), args: vec![c] };
    let mut finish = BasicBlock::new(BlockId::new(1), "finish".to_string());
    finish.terminator = Terminator::Ret { value: Some(c) };
    func.blocks.push(entry);
    func.blocks.push(finish);
    func.next_value_id = ValueId::new(1);
    let program = Program { imports: vec![], functions: vec![func] };

    let mut vm = VM::new(program, NullHostABI::new());
    let r = vm.call_function("bad", vec![]);
    assert!(matches!(r, Err(VMError::InvalidInstruction(_))));
}

#[test]
fn test_undefined_variable_error() {
    let source = r#"
fn bad() -> i32 {
entry:
    r:i32 = i32.add(x, y)
    ret (r)
}
"#;
    let errors = tilt::compile_source_detailed(source).unwrap_err();
    assert!(errors.iter().any(|e| matches!(e, SemanticError::UndefinedIdentifier { .. })));
}

#[test]
fn test_undefined_block_error_from_source() {
    let source = r#"
fn bad() -> void {
entry:
    br nowhere
}
"#;
    let errors = tilt::compile_source_detailed(source).unwrap_err();
    assert!(errors.iter().any(|e| matches!(e, SemanticError::UndefinedBlock { .. })));
}

#[test]
fn test_duplicate_definition_error_from_source() {
    let source = r#"
fn twice() -> void {
entry:
    ret
}
fn twice() -> void {
entry:
    ret
}
"#;
    let errors = tilt::compile_source_detailed(source).unwrap_err();
    assert!(errors.iter().any(|e| matches!(e, SemanticError::DuplicateDefinition { .. })));
}

#[test]
fn test_invalid_operation_error_from_source() {
    let source = r#"
fn bad() -> i32 {
entry:
    one:i32 = i32.const(1)
    r:i32 = i32.frobnicate(one)
    ret (r)
}
"#;
    let errors = tilt::compile_source_detailed(source).unwrap_err();
    assert!(errors.iter().any(|e| matches!(e, SemanticError::InvalidOperation { .. })));
}

#[test]
fn test_function_not_found_error_from_source() {
    let source = r#"
fn bad() -> i32 {
entry:
    r:i32 = call missing()
    ret (r)
}
"#;
    let errors = tilt::compile_source_detailed(source).unwrap_err();
    assert!(errors.iter().any(|e| matches!(e, SemanticError::FunctionNotFound { .. })));
}

#[test]
fn test_return_type_mismatch_from_source() {
    let source = r#"
fn bad() -> i32 {
entry:
    ret
}
"#;
    let errors = tilt::compile_source_detailed(source).unwrap_err();
    assert!(errors.iter().any(|e| matches!(e, SemanticError::TypeMismatch { .. })));
}

#[test]
fn test_vm_block_not_found_error() {
    let mut func = Function::new("bad".to_string(), vec![], Type::Void);
    let mut entry = BasicBlock::new(BlockId::new(0), "entry".to_string());
    entry.terminator = Terminator::Br { target: BlockId::new(9), args: vec![] };
    func.blocks.push(entry);
    let program = Program { imports: vec![], functions: vec![func] };
    let mut vm = VM::new(program, NullHostABI::new());
    let r = vm.call_function("bad", vec![]);
    assert!(matches!(r, Err(VMError::BlockNotFound(_))));
}

#[test]
fn test_vm_value_not_found_error() {
    let mut func = Function::new("bad".to_string(), vec![], Type::I32);
    let mut entry = BasicBlock::new(BlockId::new(0), "entry".to_string());
    entry.terminator = Terminator::Ret { value: Some(ValueId::new(7)) };
    func.blocks.push(entry);
    let program = Program { imports: vec![], functions: vec![func] };
    let mut vm = VM::new(program, NullHostABI::new());
    let r = vm.call_function("bad", vec![]);
    assert_eq!(r, Err(VMError::ValueNotFound(ValueId(7))));
}

#[test]
fn test_vm_argument_type_mismatch_error() {
    let mut func = Function::new("ident".to_string(), vec![Type::I32], Type::I32);
    let mut entry = BasicBlock::new(BlockId::new(0), "entry".to_string());
    entry.params.push((ValueId::new(0), Type::I32));
    entry.terminator = Terminator::Ret { value: Some(ValueId::new(0)) };
    func.blocks.push(entry);
    func.next_value_id = ValueId::new(1);
    let program = Program { imports: vec![], functions: vec![func] };
    let mut vm = VM::new(program, NullHostABI::new());
    let r = vm.call_function("ident", vec![RuntimeValue::I64(1)]);
    assert!(matches!(r, Err(VMError::TypeMismatch { .. })));
}

#[test]
fn test_vm_host_call_error() {
    let source = r#"
import "host" "alloc" (size:usize) -> usize

fn main() -> usize {
entry:
    size:usize = usize.const(8)
    p:usize = alloc(size)
    ret (p)
}
"#;
    // The null ABI has no allocator, so the allocation fails as a host
    // call error rather than a crash.
    let program = tilt::compile_source(source).unwrap();
    let mut vm = VM::new(program, NullHostABI::new());
    let r = vm.call_function("main", vec![]);
    assert!(matches!(r, Err(VMError::HostCallError(_))));
}

// ===============================
// EXACT FORMULAS AND UNITS
// ===============================

#[test]
fn test_sizeof_exact_widths() {
    assert_eq!(type_size(Type::I32), 4);
    assert_eq!(type_size(Type::I64), 8);
    assert_eq!(type_size(Type::F32), 4);
    assert_eq!(type_size(Type::F64), 8);
    assert_eq!(type_size(Type::Usize), std::mem::size_of::<usize>());
    assert_eq!(type_size(Type::Void), 0);
}

#[test]
fn test_arithmetic_wraps() {
    let r = eval_binary_op(
        BinaryOperator::Add,
        RuntimeValue::I32(i32::MAX),
        RuntimeValue::I32(1),
    );
    assert_eq!(r, Ok(RuntimeValue::I32(i32::MIN)));

    let r2 = eval_binary_op(
        BinaryOperator::Mul,
        RuntimeValue::I64(i64::MAX),
        RuntimeValue::I64(2),
    );
    assert_eq!(r2, Ok(RuntimeValue::I64(-2)));

    // Division truncates toward zero and wraps only at the minimum.
    let r3 = eval_binary_op(BinaryOperator::Div, RuntimeValue::I32(-7), RuntimeValue::I32(2));
    assert_eq!(r3, Ok(RuntimeValue::I32(-3)));
    let r4 = eval_binary_op(
        BinaryOperator::Div,
        RuntimeValue::I32(i32::MIN),
        RuntimeValue::I32(-1),
    );
    assert_eq!(r4, Ok(RuntimeValue::I32(i32::MIN)));
}

#[test]
fn test_comparisons_produce_i32() {
    let r = eval_binary_op(BinaryOperator::Lt, RuntimeValue::I64(3), RuntimeValue::I64(9));
    assert_eq!(r, Ok(RuntimeValue::I32(1)));
    let r2 = eval_binary_op(
        BinaryOperator::Ge,
        RuntimeValue::Usize(1),
        RuntimeValue::Usize(2),
    );
    assert_eq!(r2, Ok(RuntimeValue::I32(0)));
}

#[test]
fn test_pointer_arithmetic_associativity() {
    // ptr_add(ptr_add(p, a), b) == ptr_add(p, a + b), modulo wrapping.
    let cases: Vec<(usize, usize, usize)> = vec![
        (0x1000, 4, 8),
        (usize::MAX - 3, 10, 20),
        (7, usize::MAX, usize::MAX),
    ];
    for (p, a, b) in cases {
        let left = match eval_binary_op(
            BinaryOperator::Add,
            RuntimeValue::Usize(p),
            RuntimeValue::Usize(a),
        )
        .unwrap()
        {
            RuntimeValue::Usize(v) => eval_binary_op(
                BinaryOperator::Add,
                RuntimeValue::Usize(v),
                RuntimeValue::Usize(b),
            )
            .unwrap(),
            _ => panic!("expected usize"),
        };
        let ab = a.wrapping_add(b);
        let right = eval_binary_op(
            BinaryOperator::Add,
            RuntimeValue::Usize(p),
            RuntimeValue::Usize(ab),
        )
        .unwrap();
        assert_eq!(left, right);
    }
}

#[test]
fn test_memory_value_round_trip() {
    // Store a typed value and load it back at the same address.
    let source = r#"
import "host" "alloc" (size:usize) -> usize
import "host" "free" (p:usize) -> void

fn main() -> i32 {
entry:
    size:usize = usize.const(8)
    p:usize = alloc(size)
    v:i32 = i32.const(-123456)
    i32.store(p, v)
    l:i32 = i32.load(p)
    free(p)
    ret (l)
}
"#;
    let program = tilt::compile_source(source).unwrap();
    let mut vm = VM::new(program, MemoryHostABI::new());
    assert_eq!(vm.call_function("main", vec![]).unwrap(), RuntimeValue::I32(-123456));
}

#[test]
fn test_conversions_round_values() {
    let source = r#"
fn widen_narrow(a:i32) -> i32 {
entry:
    w:i64 = i32.to_i64(a)
    n:i32 = i64.to_i32(w)
    ret (n)
}
"#;
    assert_eq!(run_i32(source, "widen_narrow", vec![-5]).unwrap(), RuntimeValue::I32(-5));
}

#[test]
fn test_literal_bounds() {
    // The largest and smallest i32 literals parse; one past them fails.
    let big = vec![(0usize, tilt::Token::Number("2147483647".to_string()), 1usize)];
    assert_eq!(tilt::parser::parse_value(&big).unwrap(), tilt::ast::Value::Constant(i32::MAX));
    let small = vec![(0usize, tilt::Token::Number("-2147483648".to_string()), 1usize)];
    assert_eq!(tilt::parser::parse_value(&small).unwrap(), tilt::ast::Value::Constant(i32::MIN));
    let over = vec![(0usize, tilt::Token::Number("2147483648".to_string()), 1usize)];
    assert!(tilt::parser::parse_value(&over).is_err());
}

#[test]
fn test_sizeof_program_result() {
    let source = r#"
fn main() -> usize {
entry:
    s:usize = sizeof.usize()
    ret (s)
}
"#;
    let program = tilt::compile_source(source).unwrap();
    compile_program(&program).expect("translation should succeed");
    let mut vm = VM::new(program, ConsoleHostABI::new());
    assert_eq!(
        vm.call_function("main", vec![]).unwrap(),
        RuntimeValue::Usize(std::mem::size_of::<usize>())
    );
}

#[test]
fn test_unary_operations_evaluate() {
    let source = r#"
fn negate(a:i32) -> i32 {
entry:
    r:i32 = i32.neg(a)
    ret (r)
}
"#;
    assert_eq!(run_i32(source, "negate", vec![17]).unwrap(), RuntimeValue::I32(-17));
    assert_eq!(run_i32(source, "negate", vec![i32::MIN]).unwrap(), RuntimeValue::I32(i32::MIN));
}
