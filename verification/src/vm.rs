//! The interpreter: a stack machine that executes IR directly.
//!
//! Each guest call gets a frame holding its SSA values, indexed densely by
//! `ValueId`.  The dispatch loop runs the current block's instructions and
//! then its terminator; guest-to-guest calls recurse with a depth counter
//! capped by `max_stack_depth`.  The interpreter also counts instruction
//! steps against a practically unreachable budget so that every loop in it
//! provably terminates; a run that exhausts the budget fails with an error
//! instead of diverging.

use vstd::prelude::*;
use crate::ast::Type;
use crate::host::{spec_value_type, HostABI, RuntimeValue};
use crate::ir::{
    BasicBlock, BinaryOperator, BlockId, Function, Instruction, Program, Terminator,
    UnaryOperator, ValueId,
};

verus! {

/// Errors surfaced by the interpreter.  Tests match on the variant; the
/// strings are free-form diagnostics.
#[derive(Debug, Clone, PartialEq)]
pub enum VMError {
    FunctionNotFound(String),
    BlockNotFound(BlockId),
    ValueNotFound(ValueId),
    TypeMismatch { expected: Type, actual: Type, context: String },
    DivisionByZero,
    HostCallError(String),
    StackOverflow,
    InvalidInstruction(String),
}

/// Result type for VM operations.
pub type VMResult<T> = Result<T, VMError>;

/// One call frame: the executing function's values, the current block and
/// the instruction pointer within it.
pub(crate) struct StackFrame {
    pub(crate) values: Vec<Option<RuntimeValue>>,
    pub(crate) current_block: BlockId,
    pub(crate) instruction_pointer: usize,
}

/// The value a frame holds for an id.
pub open spec fn spec_frame_get(vals: Seq<Option<RuntimeValue>>, id: ValueId)
    -> Option<RuntimeValue>
{
    if id.0 < vals.len() {
        vals[id.0 as int]
    } else {
        None
    }
}

/// The frame contents after binding `id` to `v`, padding with unbound
/// slots if the id lies past the end.
pub open spec fn spec_frame_set(vals: Seq<Option<RuntimeValue>>, id: ValueId, v: RuntimeValue)
    -> Seq<Option<RuntimeValue>>
{
    let n = if id.0 + 1 > vals.len() { id.0 + 1 } else { vals.len() as int };
    Seq::new(n as nat, |j: int|
        if j == id.0 { Some(v) } else if j < vals.len() { vals[j] } else { None })
}

impl StackFrame {
    fn new(entry_block: BlockId) -> (f: StackFrame)
        ensures
            f.values@ =~= Seq::<Option<RuntimeValue>>::empty(),
            f.current_block == entry_block,
            f.instruction_pointer == 0,
    {
        StackFrame { values: Vec::new(), current_block: entry_block, instruction_pointer: 0 }
    }

    fn get_value(&self, id: ValueId) -> (r: VMResult<RuntimeValue>)
        ensures
            match spec_frame_get(self.values@, id) {
                Some(v) => r == Ok::<RuntimeValue, VMError>(v),
                None => r == Err::<RuntimeValue, VMError>(VMError::ValueNotFound(id)),
            },
    {
        if id.0 < self.values.len() {
            match self.values[id.0] {
                Some(v) => Ok(v),
                None => Err(VMError::ValueNotFound(id)),
            }
        } else {
            Err(VMError::ValueNotFound(id))
        }
    }

    fn set_value(&mut self, id: ValueId, v: RuntimeValue)
        requires
            id.0 < usize::MAX,
        ensures
            final(self).values@ =~= spec_frame_set(old(self).values@, id, v),
            final(self).current_block == old(self).current_block,
            final(self).instruction_pointer == old(self).instruction_pointer,
    {
        if self.values.len() < id.0 + 1 {
        while self.values.len() < id.0 + 1
            invariant
                id.0 < usize::MAX,
                self.values@.len() <= id.0 + 1,
                self.current_block == old(self).current_block,
                self.instruction_pointer == old(self).instruction_pointer,
                old(self).values@.len() <= self.values@.len(),
                forall|j: int| 0 <= j < old(self).values@.len()
                    ==> self.values@[j] == old(self).values@[j],
                forall|j: int| old(self).values@.len() <= j < self.values@.len()
                    ==> self.values@[j] is None,
            decreases id.0 + 1 - self.values@.len(),
        {
            self.values.push(None);
        }
        }
        self.values[id.0] = Some(v);
        proof {
            assert(self.values@ =~= spec_frame_set(old(self).values@, id, v));
        }
    }
}

/// The index of the first function with the given name.
pub open spec fn spec_find_function(fns: Seq<Function>, name: Seq<char>) -> Option<int>
    decreases fns.len(),
{
    if fns.len() == 0 {
        None
    } else if fns[0].name@ == name {
        Some(0)
    } else {
        match spec_find_function(fns.drop_first(), name) {
            Some(i) => Some(i + 1),
            None => None,
        }
    }
}

proof fn lemma_find_function_first(fns: Seq<Function>, name: Seq<char>, i: int)
    requires
        0 <= i <= fns.len(),
        forall|j: int| 0 <= j < i ==> fns[j].name@ != name,
    ensures
        i < fns.len() && fns[i].name@ == name ==> spec_find_function(fns, name) == Some(i),
        i == fns.len() ==> spec_find_function(fns, name) is None,
    decreases fns.len(),
{
    if fns.len() == 0 {
    } else if i == 0 {
    } else {
        let rest = fns.drop_first();
        assert(forall|j: int| 0 <= j < i - 1 ==> rest[j] == fns[j + 1]);
        lemma_find_function_first(rest, name, i - 1);
        if i < fns.len() && fns[i].name@ == name {
            assert(rest[i - 1] == fns[i]);
        }
    }
}

/// The index of the first block carrying the given id.
pub open spec fn spec_find_basic_block(blocks: Seq<BasicBlock>, id: BlockId) -> Option<int>
    decreases blocks.len(),
{
    if blocks.len() == 0 {
        None
    } else if blocks[0].id == id {
        Some(0)
    } else {
        match spec_find_basic_block(blocks.drop_first(), id) {
            Some(i) => Some(i + 1),
            None => None,
        }
    }
}

proof fn lemma_find_basic_block_first(blocks: Seq<BasicBlock>, id: BlockId, i: int)
    requires
        0 <= i <= blocks.len(),
        forall|j: int| 0 <= j < i ==> blocks[j].id != id,
    ensures
        i < blocks.len() && blocks[i].id == id
            ==> spec_find_basic_block(blocks, id) == Some(i),
        i == blocks.len() ==> spec_find_basic_block(blocks, id) is None,
    decreases blocks.len(),
{
    if blocks.len() == 0 {
    } else if i == 0 {
    } else {
        let rest = blocks.drop_first();
        assert(forall|j: int| 0 <= j < i - 1 ==> rest[j] == blocks[j + 1]);
        lemma_find_basic_block_first(rest, id, i - 1);
        if i < blocks.len() && blocks[i].id == id {
            assert(rest[i - 1] == blocks[i]);
        }
    }
}

/// A found block index is in bounds and carries the id.
pub proof fn lemma_find_basic_block_ok(blocks: Seq<BasicBlock>, id: BlockId)
    ensures
        spec_find_basic_block(blocks, id) matches Some(i)
            ==> 0 <= i < blocks.len() && blocks[i].id == id,
    decreases blocks.len(),
{
    if blocks.len() > 0 && blocks[0].id != id {
        lemma_find_basic_block_ok(blocks.drop_first(), id);
    }
}

pub open spec fn spec_bool_i32(b: bool) -> RuntimeValue {
    RuntimeValue::I32(if b { 1 } else { 0 })
}

/// Whether two operands are same-typed integers under a division or
/// remainder by zero: exactly these operations fail with
/// `DivisionByZero`.
pub open spec fn spec_binary_div_zero(op: BinaryOperator, a: RuntimeValue, b: RuntimeValue)
    -> bool
{
    (op == BinaryOperator::Div || op == BinaryOperator::Rem)
    && match (a, b) {
        (RuntimeValue::I32(_), RuntimeValue::I32(y)) => y == 0,
        (RuntimeValue::I64(_), RuntimeValue::I64(y)) => y == 0,
        (RuntimeValue::Usize(_), RuntimeValue::Usize(y)) => y == 0,
        _ => false,
    }
}

pub open spec fn spec_eval_binary_i32(op: BinaryOperator, x: i32, y: i32)
    -> Option<RuntimeValue>
{
    match op {
        BinaryOperator::Add => Some(RuntimeValue::I32(vstd::wrapping::i32_specs::wrapping_add(x, y))),
        BinaryOperator::Sub => Some(RuntimeValue::I32(vstd::wrapping::i32_specs::wrapping_sub(x, y))),
        BinaryOperator::Mul => Some(RuntimeValue::I32(vstd::wrapping::i32_specs::wrapping_mul(x, y))),
        BinaryOperator::Div => if y == 0 {
            None
        } else {
            match x.checked_div(y) {
                Some(q) => Some(RuntimeValue::I32(q)),
                None => Some(RuntimeValue::I32(i32::MIN)),
            }
        },
        BinaryOperator::Rem => if y == 0 {
            None
        } else {
            match x.checked_rem(y) {
                Some(m) => Some(RuntimeValue::I32(m)),
                None => Some(RuntimeValue::I32(0)),
            }
        },
        BinaryOperator::And => Some(RuntimeValue::I32(x & y)),
        BinaryOperator::Or => Some(RuntimeValue::I32(x | y)),
        BinaryOperator::Xor => Some(RuntimeValue::I32(x ^ y)),
        BinaryOperator::Shl => Some(RuntimeValue::I32(
            vstd::wrapping::i32_specs::wrapping_shl(x, y as u32))),
        BinaryOperator::Shr => Some(RuntimeValue::I32(
            vstd::wrapping::i32_specs::wrapping_shr(x, y as u32))),
        BinaryOperator::Eq => Some(spec_bool_i32(x == y)),
        BinaryOperator::Ne => Some(spec_bool_i32(x != y)),
        BinaryOperator::Lt => Some(spec_bool_i32(x < y)),
        BinaryOperator::Le => Some(spec_bool_i32(x <= y)),
        BinaryOperator::Gt => Some(spec_bool_i32(x > y)),
        BinaryOperator::Ge => Some(spec_bool_i32(x >= y)),
    }
}

pub open spec fn spec_eval_binary_i64(op: BinaryOperator, x: i64, y: i64)
    -> Option<RuntimeValue>
{
    match op {
        BinaryOperator::Add => Some(RuntimeValue::I64(vstd::wrapping::i64_specs::wrapping_add(x, y))),
        BinaryOperator::Sub => Some(RuntimeValue::I64(vstd::wrapping::i64_specs::wrapping_sub(x, y))),
        BinaryOperator::Mul => Some(RuntimeValue::I64(vstd::wrapping::i64_specs::wrapping_mul(x, y))),
        BinaryOperator::Div => if y == 0 {
            None
        } else {
            match x.checked_div(y) {
                Some(q) => Some(RuntimeValue::I64(q)),
                None => Some(RuntimeValue::I64(i64::MIN)),
            }
        },
        BinaryOperator::Rem => if y == 0 {
            None
        } else {
            match x.checked_rem(y) {
                Some(m) => Some(RuntimeValue::I64(m)),
                None => Some(RuntimeValue::I64(0)),
            }
        },
        BinaryOperator::And => Some(RuntimeValue::I64(x & y)),
        BinaryOperator::Or => Some(RuntimeValue::I64(x | y)),
        BinaryOperator::Xor => Some(RuntimeValue::I64(x ^ y)),
        BinaryOperator::Shl => Some(RuntimeValue::I64(
            vstd::wrapping::i64_specs::wrapping_shl(x, y as u32))),
        BinaryOperator::Shr => Some(RuntimeValue::I64(
            vstd::wrapping::i64_specs::wrapping_shr(x, y as u32))),
        BinaryOperator::Eq => Some(spec_bool_i32(x == y)),
        BinaryOperator::Ne => Some(spec_bool_i32(x != y)),
        BinaryOperator::Lt => Some(spec_bool_i32(x < y)),
        BinaryOperator::Le => Some(spec_bool_i32(x <= y)),
        BinaryOperator::Gt => Some(spec_bool_i32(x > y)),
        BinaryOperator::Ge => Some(spec_bool_i32(x >= y)),
    }
}

pub open spec fn spec_eval_binary_usize(op: BinaryOperator, x: usize, y: usize)
    -> Option<RuntimeValue>
{
    match op {
        BinaryOperator::Add => Some(RuntimeValue::Usize(vstd::wrapping::usize_specs::wrapping_add(x, y))),
        BinaryOperator::Sub => Some(RuntimeValue::Usize(vstd::wrapping::usize_specs::wrapping_sub(x, y))),
        BinaryOperator::Mul => Some(RuntimeValue::Usize(vstd::wrapping::usize_specs::wrapping_mul(x, y))),
        BinaryOperator::Div => if y == 0 {
            None
        } else {
            Some(RuntimeValue::Usize((x as int / y as int) as usize))
        },
        BinaryOperator::Rem => if y == 0 {
            None
        } else {
            Some(RuntimeValue::Usize((x as int % y as int) as usize))
        },
        BinaryOperator::And => Some(RuntimeValue::Usize(x & y)),
        BinaryOperator::Or => Some(RuntimeValue::Usize(x | y)),
        BinaryOperator::Xor => Some(RuntimeValue::Usize(x ^ y)),
        BinaryOperator::Shl => Some(RuntimeValue::Usize(
            vstd::wrapping::usize_specs::wrapping_shl(x, y as u32))),
        BinaryOperator::Shr => Some(RuntimeValue::Usize(
            vstd::wrapping::usize_specs::wrapping_shr(x, y as u32))),
        BinaryOperator::Eq => Some(spec_bool_i32(x == y)),
        BinaryOperator::Ne => Some(spec_bool_i32(x != y)),
        BinaryOperator::Lt => Some(spec_bool_i32(x < y)),
        BinaryOperator::Le => Some(spec_bool_i32(x <= y)),
        BinaryOperator::Gt => Some(spec_bool_i32(x > y)),
        BinaryOperator::Ge => Some(spec_bool_i32(x >= y)),
    }
}

/// What a binary operation yields on two operand values, or `None` when
/// it fails: integer arithmetic wraps at the operand width, division and
/// remainder by zero fail, comparisons yield `I32` zero or one, and the
/// operands must be two integers of the same type.
pub open spec fn spec_eval_binary(op: BinaryOperator, a: RuntimeValue, b: RuntimeValue)
    -> Option<RuntimeValue>
{
    match (a, b) {
        (RuntimeValue::I32(x), RuntimeValue::I32(y)) => spec_eval_binary_i32(op, x, y),
        (RuntimeValue::I64(x), RuntimeValue::I64(y)) => spec_eval_binary_i64(op, x, y),
        (RuntimeValue::Usize(x), RuntimeValue::Usize(y)) => spec_eval_binary_usize(op, x, y),
        _ => None,
    }
}

/// Evaluate one binary operation on two runtime values.  Division or
/// remainder by zero yields exactly `DivisionByZero`; operands that are
/// not two integers of one type yield a `TypeMismatch` naming both.
pub fn eval_binary_op(op: BinaryOperator, a: RuntimeValue, b: RuntimeValue)
    -> (r: Result<RuntimeValue, VMError>)
    ensures
        match spec_eval_binary(op, a, b) {
            Some(v) => r == Ok::<RuntimeValue, VMError>(v),
            None => if spec_binary_div_zero(op, a, b) {
                r == Err::<RuntimeValue, VMError>(VMError::DivisionByZero)
            } else {
                r matches Err(VMError::TypeMismatch { expected, actual, context: _ })
                    && expected == spec_value_type(a) && actual == spec_value_type(b)
            },
        },
{
    match (a, b) {
        (RuntimeValue::I32(x), RuntimeValue::I32(y)) => {
            match op {
                BinaryOperator::Add => Ok(RuntimeValue::I32(x.wrapping_add(y))),
                BinaryOperator::Sub => Ok(RuntimeValue::I32(x.wrapping_sub(y))),
                BinaryOperator::Mul => Ok(RuntimeValue::I32(x.wrapping_mul(y))),
                BinaryOperator::Div => if y == 0 {
                    Err(VMError::DivisionByZero)
                } else {
                    match x.checked_div(y) {
                        Some(q) => Ok(RuntimeValue::I32(q)),
                        None => Ok(RuntimeValue::I32(i32::MIN)),
                    }
                },
                BinaryOperator::Rem => if y == 0 {
                    Err(VMError::DivisionByZero)
                } else {
                    match x.checked_rem(y) {
                        Some(m) => Ok(RuntimeValue::I32(m)),
                        None => Ok(RuntimeValue::I32(0)),
                    }
                },
                BinaryOperator::And => Ok(RuntimeValue::I32(x & y)),
                BinaryOperator::Or => Ok(RuntimeValue::I32(x | y)),
                BinaryOperator::Xor => Ok(RuntimeValue::I32(x ^ y)),
                BinaryOperator::Shl => Ok(RuntimeValue::I32(
                    x.wrapping_shl(#[verifier::truncate] (y as u32)))),
                BinaryOperator::Shr => Ok(RuntimeValue::I32(
                    x.wrapping_shr(#[verifier::truncate] (y as u32)))),
                BinaryOperator::Eq => Ok(RuntimeValue::I32(if x == y { 1 } else { 0 })),
                BinaryOperator::Ne => Ok(RuntimeValue::I32(if x != y { 1 } else { 0 })),
                BinaryOperator::Lt => Ok(RuntimeValue::I32(if x < y { 1 } else { 0 })),
                BinaryOperator::Le => Ok(RuntimeValue::I32(if x <= y { 1 } else { 0 })),
                BinaryOperator::Gt => Ok(RuntimeValue::I32(if x > y { 1 } else { 0 })),
                BinaryOperator::Ge => Ok(RuntimeValue::I32(if x >= y { 1 } else { 0 })),
            }
        }
        (RuntimeValue::I64(x), RuntimeValue::I64(y)) => {
            match op {
                BinaryOperator::Add => Ok(RuntimeValue::I64(x.wrapping_add(y))),
                BinaryOperator::Sub => Ok(RuntimeValue::I64(x.wrapping_sub(y))),
                BinaryOperator::Mul => Ok(RuntimeValue::I64(x.wrapping_mul(y))),
                BinaryOperator::Div => if y == 0 {
                    Err(VMError::DivisionByZero)
                } else {
                    match x.checked_div(y) {
                        Some(q) => Ok(RuntimeValue::I64(q)),
                        None => Ok(RuntimeValue::I64(i64::MIN)),
                    }
                },
                BinaryOperator::Rem => if y == 0 {
                    Err(VMError::DivisionByZero)
                } else {
                    match x.checked_rem(y) {
                        Some(m) => Ok(RuntimeValue::I64(m)),
                        None => Ok(RuntimeValue::I64(0)),
                    }
                },
                BinaryOperator::And => Ok(RuntimeValue::I64(x & y)),
                BinaryOperator::Or => Ok(RuntimeValue::I64(x | y)),
                BinaryOperator::Xor => Ok(RuntimeValue::I64(x ^ y)),
                BinaryOperator::Shl => Ok(RuntimeValue::I64(
                    x.wrapping_shl(#[verifier::truncate] (y as u32)))),
                BinaryOperator::Shr => Ok(RuntimeValue::I64(
                    x.wrapping_shr(#[verifier::truncate] (y as u32)))),
                BinaryOperator::Eq => Ok(RuntimeValue::I32(if x == y { 1 } else { 0 })),
                BinaryOperator::Ne => Ok(RuntimeValue::I32(if x != y { 1 } else { 0 })),
                BinaryOperator::Lt => Ok(RuntimeValue::I32(if x < y { 1 } else { 0 })),
                BinaryOperator::Le => Ok(RuntimeValue::I32(if x <= y { 1 } else { 0 })),
                BinaryOperator::Gt => Ok(RuntimeValue::I32(if x > y { 1 } else { 0 })),
                BinaryOperator::Ge => Ok(RuntimeValue::I32(if x >= y { 1 } else { 0 })),
            }
        }
        (RuntimeValue::Usize(x), RuntimeValue::Usize(y)) => {
            match op {
                BinaryOperator::Add => Ok(RuntimeValue::Usize(x.wrapping_add(y))),
                BinaryOperator::Sub => Ok(RuntimeValue::Usize(x.wrapping_sub(y))),
                BinaryOperator::Mul => Ok(RuntimeValue::Usize(x.wrapping_mul(y))),
                BinaryOperator::Div => if y == 0 {
                    Err(VMError::DivisionByZero)
                } else {
                    Ok(RuntimeValue::Usize(x / y))
                },
                BinaryOperator::Rem => if y == 0 {
                    Err(VMError::DivisionByZero)
                } else {
                    Ok(RuntimeValue::Usize(x % y))
                },
                BinaryOperator::And => Ok(RuntimeValue::Usize(x & y)),
                BinaryOperator::Or => Ok(RuntimeValue::Usize(x | y)),
                BinaryOperator::Xor => Ok(RuntimeValue::Usize(x ^ y)),
                BinaryOperator::Shl => Ok(RuntimeValue::Usize(
                    x.wrapping_shl(#[verifier::truncate] (y as u32)))),
                BinaryOperator::Shr => Ok(RuntimeValue::Usize(
                    x.wrapping_shr(#[verifier::truncate] (y as u32)))),
                BinaryOperator::Eq => Ok(RuntimeValue::I32(if x == y { 1 } else { 0 })),
                BinaryOperator::Ne => Ok(RuntimeValue::I32(if x != y { 1 } else { 0 })),
                BinaryOperator::Lt => Ok(RuntimeValue::I32(if x < y { 1 } else { 0 })),
                BinaryOperator::Le => Ok(RuntimeValue::I32(if x <= y { 1 } else { 0 })),
                BinaryOperator::Gt => Ok(RuntimeValue::I32(if x > y { 1 } else { 0 })),
                BinaryOperator::Ge => Ok(RuntimeValue::I32(if x >= y { 1 } else { 0 })),
            }
        }
        _ => Err(VMError::TypeMismatch {
            expected: a.get_type(),
            actual: b.get_type(),
            context: "binary operation".to_owned(),
        }),
    }
}

/// What a unary operation yields, or `None` for a `Void` operand: `neg`
/// is wrapping negation, `not` is bitwise complement.
pub open spec fn spec_eval_unary(op: UnaryOperator, a: RuntimeValue) -> Option<RuntimeValue> {
    match a {
        RuntimeValue::I32(x) => Some(match op {
            UnaryOperator::Neg => RuntimeValue::I32(vstd::wrapping::i32_specs::wrapping_sub(0, x)),
            UnaryOperator::Not => RuntimeValue::I32(!x),
        }),
        RuntimeValue::I64(x) => Some(match op {
            UnaryOperator::Neg => RuntimeValue::I64(vstd::wrapping::i64_specs::wrapping_sub(0, x)),
            UnaryOperator::Not => RuntimeValue::I64(!x),
        }),
        RuntimeValue::Usize(x) => Some(match op {
            UnaryOperator::Neg => RuntimeValue::Usize(
                vstd::wrapping::usize_specs::wrapping_sub(0, x)),
            UnaryOperator::Not => RuntimeValue::Usize(!x),
        }),
        RuntimeValue::Void => None,
    }
}

/// Evaluate one unary operation; a `Void` operand is a type mismatch.
pub fn eval_unary_op(op: UnaryOperator, a: RuntimeValue) -> (r: Result<RuntimeValue, VMError>)
    ensures
        match spec_eval_unary(op, a) {
            Some(v) => r == Ok::<RuntimeValue, VMError>(v),
            None => r matches Err(VMError::TypeMismatch { .. }),
        },
{
    match a {
        RuntimeValue::I32(x) => match op {
            UnaryOperator::Neg => Ok(RuntimeValue::I32(0i32.wrapping_sub(x))),
            UnaryOperator::Not => Ok(RuntimeValue::I32(!x)),
        },
        RuntimeValue::I64(x) => match op {
            UnaryOperator::Neg => Ok(RuntimeValue::I64(0i64.wrapping_sub(x))),
            UnaryOperator::Not => Ok(RuntimeValue::I64(!x)),
        },
        RuntimeValue::Usize(x) => match op {
            UnaryOperator::Neg => Ok(RuntimeValue::Usize(0usize.wrapping_sub(x))),
            UnaryOperator::Not => Ok(RuntimeValue::Usize(!x)),
        },
        RuntimeValue::Void => Err(VMError::TypeMismatch {
            expected: Type::I32,
            actual: Type::Void,
            context: "unary operation".to_owned(),
        }),
    }
}

/// What a conversion yields, or `None` when it is not a conversion the
/// language supports: sign-extension when widening, truncation when
/// narrowing, among `i32`, `i64` and `usize`; the operand must carry the
/// declared source type.
pub open spec fn spec_eval_convert(from_ty: Type, to_ty: Type, v: RuntimeValue)
    -> Option<RuntimeValue>
{
    if spec_value_type(v) != from_ty {
        None
    } else {
        match (from_ty, to_ty, v) {
            (Type::I32, Type::I64, RuntimeValue::I32(x)) => Some(RuntimeValue::I64(x as i64)),
            (Type::I32, Type::Usize, RuntimeValue::I32(x)) => Some(RuntimeValue::Usize(x as usize)),
            (Type::I64, Type::I32, RuntimeValue::I64(x)) => Some(RuntimeValue::I32(x as i32)),
            (Type::I64, Type::Usize, RuntimeValue::I64(x)) => Some(RuntimeValue::Usize(x as usize)),
            (Type::Usize, Type::I32, RuntimeValue::Usize(x)) => Some(RuntimeValue::I32(x as i32)),
            (Type::Usize, Type::I64, RuntimeValue::Usize(x)) => Some(RuntimeValue::I64(x as i64)),
            _ => None,
        }
    }
}

/// Evaluate one type conversion.  A source value of the wrong type is a
/// `TypeMismatch` naming both types; an unsupported pair is an
/// `InvalidInstruction`.
pub fn eval_convert(from_ty: Type, to_ty: Type, v: RuntimeValue)
    -> (r: Result<RuntimeValue, VMError>)
    ensures
        match spec_eval_convert(from_ty, to_ty, v) {
            Some(v2) => r == Ok::<RuntimeValue, VMError>(v2),
            None => if spec_value_type(v) != from_ty {
                r matches Err(VMError::TypeMismatch { expected, actual, context: _ })
                    && expected == from_ty && actual == spec_value_type(v)
            } else {
                r matches Err(VMError::InvalidInstruction(_))
            },
        },
{
    if v.get_type() != from_ty {
        return Err(VMError::TypeMismatch {
            expected: from_ty,
            actual: v.get_type(),
            context: "convert instruction source type".to_owned(),
        });
    }
    match (from_ty, to_ty, v) {
        (Type::I32, Type::I64, RuntimeValue::I32(x)) => Ok(RuntimeValue::I64(x as i64)),
        (Type::I32, Type::Usize, RuntimeValue::I32(x)) => Ok(RuntimeValue::Usize(
            #[verifier::truncate] (x as usize))),
        (Type::I64, Type::I32, RuntimeValue::I64(x)) => Ok(RuntimeValue::I32(
            #[verifier::truncate] (x as i32))),
        (Type::I64, Type::Usize, RuntimeValue::I64(x)) => Ok(RuntimeValue::Usize(
            #[verifier::truncate] (x as usize))),
        (Type::Usize, Type::I32, RuntimeValue::Usize(x)) => Ok(RuntimeValue::I32(
            #[verifier::truncate] (x as i32))),
        (Type::Usize, Type::I64, RuntimeValue::Usize(x)) => Ok(RuntimeValue::I64(
            #[verifier::truncate] (x as i64))),
        _ => Err(VMError::InvalidInstruction("Unsupported type conversion".to_owned())),
    }
}

/// The platform pointer width in bytes: 4 when `usize` is 32 bits wide,
/// 8 when it is 64 bits wide.
pub open spec fn spec_usize_bytes() -> nat {
    if usize::MAX == u32::MAX as usize {
        4
    } else {
        8
    }
}

/// The platform pointer width in bytes.
pub fn usize_bytes() -> (n: usize)
    ensures
        n as nat == spec_usize_bytes(),
{
    if usize::MAX == u32::MAX as usize {
        4
    } else {
        8
    }
}

/// The width in bytes of each type: 4 for `I32` and `F32`, 8 for `I64`
/// and `F64`, the platform pointer width for `Usize`, 0 for `Void`.
pub open spec fn spec_type_size(ty: Type) -> nat {
    match ty {
        Type::I32 => 4,
        Type::I64 => 8,
        Type::F32 => 4,
        Type::F64 => 8,
        Type::Usize => spec_usize_bytes(),
        Type::Void => 0,
    }
}

/// The byte width `sizeof.<ty>` yields.
pub fn type_size(ty: Type) -> (n: usize)
    ensures
        n as nat == spec_type_size(ty),
{
    match ty {
        Type::I32 => 4,
        Type::I64 => 8,
        Type::F32 => 4,
        Type::F64 => 8,
        Type::Usize => usize_bytes(),
        Type::Void => 0,
    }
}

/// The runtime value a constant-table literal denotes, or `None` when the
/// type cannot hold one: the literal truncated to the declared width;
/// floats are unsupported, and a `usize` literal must fit the platform
/// word.
pub open spec fn spec_const_value(value: i64, ty: Type) -> Option<RuntimeValue> {
    match ty {
        Type::I32 => Some(RuntimeValue::I32(value as i32)),
        Type::I64 => Some(RuntimeValue::I64(value)),
        Type::Usize => if value as u64 <= usize::MAX as u64 {
            Some(RuntimeValue::Usize((value as u64) as usize))
        } else {
            None
        },
        Type::Void => Some(RuntimeValue::Void),
        Type::F32 | Type::F64 => None,
    }
}

/// Materialize a constant-table literal as a typed runtime value.
pub fn const_to_runtime(value: i64, ty: Type) -> (r: Result<RuntimeValue, VMError>)
    ensures
        match spec_const_value(value, ty) {
            Some(v) => r == Ok::<RuntimeValue, VMError>(v),
            None => r matches Err(VMError::InvalidInstruction(_)),
        },
{
    match ty {
        Type::I32 => Ok(RuntimeValue::I32(#[verifier::truncate] (value as i32))),
        Type::I64 => Ok(RuntimeValue::I64(value)),
        Type::Usize => {
            let u: u64 = #[verifier::truncate] (value as u64);
            if u <= usize::MAX as u64 {
                Ok(RuntimeValue::Usize(u as usize))
            } else {
                Err(VMError::InvalidInstruction("constant exceeds the platform word".to_owned()))
            }
        }
        Type::Void => Ok(RuntimeValue::Void),
        Type::F32 | Type::F64 => Err(VMError::InvalidInstruction(
            "Float types not yet supported".to_owned())),
    }
}

/// What one value-producing pure instruction does to a frame: when both
/// operands are bound and the operation evaluates, the destination is
/// bound to exactly the evaluated value; an unbound operand and a failed
/// evaluation fail, binding nothing.  Host-dependent instructions and
/// calls promise only that the frame changes at most at their
/// destination.
pub open spec fn spec_pure_step_ok(instr: Instruction, vals: Seq<Option<RuntimeValue>>,
    vals2: Seq<Option<RuntimeValue>>, r: VMResult<()>) -> bool
{
    match instr {
        Instruction::Const { dest, value, ty } => dest.0 < usize::MAX ==> (
            match spec_const_value(value, ty) {
                Some(v) => r is Ok && vals2 =~= spec_frame_set(vals, dest, v),
                None => r is Err && vals2 == vals,
            }),
        Instruction::BinaryOp { dest, op, ty: _, lhs, rhs } => dest.0 < usize::MAX ==> (
            match (spec_frame_get(vals, lhs), spec_frame_get(vals, rhs)) {
                (Some(a), Some(b)) => (match spec_eval_binary(op, a, b) {
                    Some(v) => r is Ok && vals2 =~= spec_frame_set(vals, dest, v),
                    None => r is Err && vals2 == vals,
                }),
                _ => r matches Err(VMError::ValueNotFound(_)) && vals2 == vals,
            }),
        Instruction::UnaryOp { dest, op, ty: _, operand } => dest.0 < usize::MAX ==> (
            match spec_frame_get(vals, operand) {
                Some(a) => (match spec_eval_unary(op, a) {
                    Some(v) => r is Ok && vals2 =~= spec_frame_set(vals, dest, v),
                    None => r is Err && vals2 == vals,
                }),
                None => r matches Err(VMError::ValueNotFound(_)) && vals2 == vals,
            }),
        Instruction::Convert { dest, src, from_ty, to_ty } => dest.0 < usize::MAX ==> (
            match spec_frame_get(vals, src) {
                Some(a) => (match spec_eval_convert(from_ty, to_ty, a) {
                    Some(v) => r is Ok && vals2 =~= spec_frame_set(vals, dest, v),
                    None => r is Err && vals2 == vals,
                }),
                None => r matches Err(VMError::ValueNotFound(_)) && vals2 == vals,
            }),
        Instruction::PtrAdd { dest, ptr, offset } => dest.0 < usize::MAX ==> (
            match (spec_frame_get(vals, ptr), spec_frame_get(vals, offset)) {
                (Some(a), Some(b)) => (match (a, b) {
                    (RuntimeValue::Usize(x), RuntimeValue::Usize(y)) => r is Ok
                        && vals2 =~= spec_frame_set(vals, dest, RuntimeValue::Usize(
                            vstd::wrapping::usize_specs::wrapping_add(x, y))),
                    _ => r matches Err(VMError::TypeMismatch { .. }) && vals2 == vals,
                }),
                _ => r matches Err(VMError::ValueNotFound(_)) && vals2 == vals,
            }),
        Instruction::SizeOf { dest, ty } => dest.0 < usize::MAX ==> (
            r is Ok && vals2 =~= spec_frame_set(vals, dest,
                RuntimeValue::Usize(spec_type_size(ty) as usize))),
        Instruction::Load { dest, ty, address } => dest.0 < usize::MAX ==> (
            match spec_frame_get(vals, address) {
                Some(RuntimeValue::Usize(_)) => r is Ok ==> exists|v: RuntimeValue|
                    #![auto]
                    spec_value_type(v) == crate::host::spec_storage_type(ty)
                        && vals2 =~= spec_frame_set(vals, dest, v),
                Some(_) => r matches Err(VMError::TypeMismatch { .. }) && vals2 == vals,
                None => r matches Err(VMError::ValueNotFound(_)) && vals2 == vals,
            }),
        Instruction::Store { .. } => vals2 == vals,
        Instruction::Free { .. } => vals2 == vals,
        Instruction::CallVoid { .. } => vals2 == vals,
        Instruction::Call { dest, .. } => dest.0 < usize::MAX ==> (r is Ok
            ==> exists|v: RuntimeValue| #![auto] vals2 =~= spec_frame_set(vals, dest, v)),
        Instruction::Alloc { dest, .. } => dest.0 < usize::MAX ==> (r is Ok
            ==> exists|v: RuntimeValue| #![auto] vals2 =~= spec_frame_set(vals, dest, v)),
    }
}

/// The first id in `ids` that is unbound in the frame, if any.
pub open spec fn spec_first_unbound(vals: Seq<Option<RuntimeValue>>, ids: Seq<ValueId>)
    -> Option<ValueId>
    decreases ids.len(),
{
    if ids.len() == 0 {
        None
    } else if spec_frame_get(vals, ids[0]) is None {
        Some(ids[0])
    } else {
        spec_first_unbound(vals, ids.drop_first())
    }
}

/// The values of a fully bound id list, in order.
pub open spec fn spec_resolve_ids(vals: Seq<Option<RuntimeValue>>, ids: Seq<ValueId>)
    -> Seq<RuntimeValue>
    decreases ids.len(),
{
    if ids.len() == 0 {
        Seq::empty()
    } else {
        seq![spec_frame_get(vals, ids[0])->0] + spec_resolve_ids(vals, ids.drop_first())
    }
}

/// The frame after binding a block's parameters, positionally and in
/// order, to the given argument values.
pub open spec fn spec_bind_params(vals: Seq<Option<RuntimeValue>>,
    params: Seq<(ValueId, Type)>, argv: Seq<RuntimeValue>)
    -> Seq<Option<RuntimeValue>>
    decreases params.len(),
{
    if params.len() == 0 || argv.len() == 0 {
        vals
    } else {
        spec_bind_params(spec_frame_set(vals, params[0].0, argv[0]),
            params.drop_first(), argv.drop_first())
    }
}

/// Whether every parameter id is representable in a frame.
pub open spec fn spec_params_in_range(params: Seq<(ValueId, Type)>) -> bool {
    forall|j: int| 0 <= j < params.len() ==> (#[trigger] params[j]).0.0 < usize::MAX
}

/// What one terminator does: finish the call, move to a block with a
/// rebound frame, or get stuck on an outcome the model leaves open (an
/// arity or type failure whose diagnostic carries free-form text).
pub enum TermStep {
    TsDone(VMResult<RuntimeValue>),
    TsGoto(Seq<Option<RuntimeValue>>, BlockId),
    TsStuck,
}

/// The branch a terminator attempts, with its arguments: a `Br`'s target,
/// or the `BrIf` arm its bound integer condition selects.
pub open spec fn spec_attempted_branch(term: Terminator, vals: Seq<Option<RuntimeValue>>)
    -> Option<(BlockId, Seq<ValueId>)>
{
    match term {
        Terminator::Ret { .. } => None,
        Terminator::Br { target, args } => Some((target, args@)),
        Terminator::BrIf { cond, true_target, true_args, false_target, false_args } => {
            match spec_frame_get(vals, cond) {
                Some(RuntimeValue::I32(x)) => if x != 0 {
                    Some((true_target, true_args@))
                } else {
                    Some((false_target, false_args@))
                },
                Some(RuntimeValue::I64(x)) => if x != 0 {
                    Some((true_target, true_args@))
                } else {
                    Some((false_target, false_args@))
                },
                _ => None,
            }
        }
    }
}

/// One branch edge: locate the target, check the argument count, resolve
/// the arguments and bind the target's parameters.
pub open spec fn spec_branch_step(f: Function, vals: Seq<Option<RuntimeValue>>,
    target: BlockId, args: Seq<ValueId>) -> TermStep
{
    match spec_find_basic_block(f.blocks@, target) {
        None => TermStep::TsDone(Err(VMError::BlockNotFound(target))),
        Some(ti) => {
            let params = f.blocks@[ti].params@;
            if args.len() != params.len() {
                TermStep::TsStuck
            } else {
                match spec_first_unbound(vals, args) {
                    Some(id) => TermStep::TsDone(Err(VMError::ValueNotFound(id))),
                    None => if spec_params_in_range(params) {
                        TermStep::TsGoto(
                            spec_bind_params(vals, params, spec_resolve_ids(vals, args)),
                            target)
                    } else {
                        TermStep::TsStuck
                    },
                }
            }
        }
    }
}

/// What the terminator of block `bi` does to a frame.
pub open spec fn spec_term_step(f: Function, bi: int, vals: Seq<Option<RuntimeValue>>)
    -> TermStep
    recommends 0 <= bi < f.blocks@.len(),
{
    match f.blocks@[bi].terminator {
        Terminator::Ret { value } => match value {
            Some(v) => match spec_frame_get(vals, v) {
                Some(rv) => TermStep::TsDone(Ok(rv)),
                None => TermStep::TsDone(Err(VMError::ValueNotFound(v))),
            },
            None => TermStep::TsDone(Ok(RuntimeValue::Void)),
        },
        Terminator::Br { target, args } => spec_branch_step(f, vals, target, args@),
        Terminator::BrIf { .. } => match spec_attempted_branch(
            f.blocks@[bi].terminator, vals) {
            Some(p) => spec_branch_step(f, vals, p.0, p.1),
            None => match f.blocks@[bi].terminator {
                Terminator::BrIf { cond, .. } => match spec_frame_get(vals, cond) {
                    None => TermStep::TsDone(Err(VMError::ValueNotFound(cond))),
                    Some(_) => TermStep::TsStuck,
                },
                _ => TermStep::TsStuck,
            },
        },
    }
}

/// What one instruction does: step to the next frame, fail the call, or
/// get stuck — on a host-dependent instruction (a call, a memory access)
/// or on a failure whose diagnostic carries free-form text.
pub enum InstrStep {
    IsNext(Seq<Option<RuntimeValue>>),
    IsFail(VMError),
    IsStuck,
}

/// What one instruction does to a frame.  Host-dependent instructions
/// (`Call`, `CallVoid`, `Load`, `Store`, `Alloc`, `Free`) are left open:
/// their outcome depends on the host ABI.
pub open spec fn spec_instr_step(instr: Instruction, vals: Seq<Option<RuntimeValue>>)
    -> InstrStep
{
    match instr {
        Instruction::Const { dest, value, ty } => if dest.0 == usize::MAX {
            InstrStep::IsStuck
        } else {
            match spec_const_value(value, ty) {
                Some(v) => InstrStep::IsNext(spec_frame_set(vals, dest, v)),
                None => InstrStep::IsStuck,
            }
        },
        Instruction::BinaryOp { dest, op, ty: _, lhs, rhs } => if dest.0 == usize::MAX {
            InstrStep::IsStuck
        } else {
            match spec_frame_get(vals, lhs) {
                None => InstrStep::IsFail(VMError::ValueNotFound(lhs)),
                Some(a) => match spec_frame_get(vals, rhs) {
                    None => InstrStep::IsFail(VMError::ValueNotFound(rhs)),
                    Some(b) => match spec_eval_binary(op, a, b) {
                        Some(v) => InstrStep::IsNext(spec_frame_set(vals, dest, v)),
                        None => if spec_binary_div_zero(op, a, b) {
                            InstrStep::IsFail(VMError::DivisionByZero)
                        } else {
                            InstrStep::IsStuck
                        },
                    },
                },
            }
        },
        Instruction::UnaryOp { dest, op, ty: _, operand } => if dest.0 == usize::MAX {
            InstrStep::IsStuck
        } else {
            match spec_frame_get(vals, operand) {
                None => InstrStep::IsFail(VMError::ValueNotFound(operand)),
                Some(a) => match spec_eval_unary(op, a) {
                    Some(v) => InstrStep::IsNext(spec_frame_set(vals, dest, v)),
                    None => InstrStep::IsStuck,
                },
            }
        },
        Instruction::Convert { dest, src, from_ty, to_ty } => if dest.0 == usize::MAX {
            InstrStep::IsStuck
        } else {
            match spec_frame_get(vals, src) {
                None => InstrStep::IsFail(VMError::ValueNotFound(src)),
                Some(a) => match spec_eval_convert(from_ty, to_ty, a) {
                    Some(v) => InstrStep::IsNext(spec_frame_set(vals, dest, v)),
                    None => InstrStep::IsStuck,
                },
            }
        },
        Instruction::PtrAdd { dest, ptr, offset } => if dest.0 == usize::MAX {
            InstrStep::IsStuck
        } else {
            match spec_frame_get(vals, ptr) {
                None => InstrStep::IsFail(VMError::ValueNotFound(ptr)),
                Some(a) => match spec_frame_get(vals, offset) {
                    None => InstrStep::IsFail(VMError::ValueNotFound(offset)),
                    Some(b) => match (a, b) {
                        (RuntimeValue::Usize(x), RuntimeValue::Usize(y)) =>
                            InstrStep::IsNext(spec_frame_set(vals, dest,
                                RuntimeValue::Usize(
                                    vstd::wrapping::usize_specs::wrapping_add(x, y)))),
                        _ => InstrStep::IsStuck,
                    },
                },
            }
        },
        Instruction::SizeOf { dest, ty } => if dest.0 == usize::MAX {
            InstrStep::IsStuck
        } else {
            InstrStep::IsNext(spec_frame_set(vals, dest,
                RuntimeValue::Usize(spec_type_size(ty) as usize)))
        },
        _ => InstrStep::IsStuck,
    }
}

/// A fuel-indexed dispatcher over one function's blocks: `Some(out)`
/// means the run's outcome is fully determined by the IR alone — it makes
/// no call and touches no memory — and is `out`; `None` leaves the
/// outcome open (out of fuel, a host-dependent instruction, or a
/// diagnostic the model does not carry).
pub open spec fn spec_run(f: Function, vals: Seq<Option<RuntimeValue>>, bid: BlockId,
    ip: int, fuel: nat) -> Option<VMResult<RuntimeValue>>
    decreases fuel,
{
    if fuel == 0 {
        None
    } else {
        match spec_find_basic_block(f.blocks@, bid) {
            None => Some(Err(VMError::BlockNotFound(bid))),
            Some(bi) => {
                if ip >= f.blocks@[bi].instructions@.len() {
                    match spec_term_step(f, bi, vals) {
                        TermStep::TsDone(out) => Some(out),
                        TermStep::TsGoto(v2, b2) => spec_run(f, v2, b2, 0, (fuel - 1) as nat),
                        TermStep::TsStuck => None,
                    }
                } else if ip < 0 {
                    None
                } else {
                    match spec_instr_step(f.blocks@[bi].instructions@[ip], vals) {
                        InstrStep::IsNext(v2) => spec_run(f, v2, bid, ip + 1,
                            (fuel - 1) as nat),
                        InstrStep::IsFail(e) => Some(Err(e)),
                        InstrStep::IsStuck => None,
                    }
                }
            }
        }
    }
}

/// A determined run stays determined, with the same outcome, under any
/// larger fuel.
pub proof fn lemma_spec_run_monotone(f: Function, vals: Seq<Option<RuntimeValue>>,
    bid: BlockId, ip: int, f1: nat, f2: nat)
    requires
        f1 <= f2,
        spec_run(f, vals, bid, ip, f1) is Some,
    ensures
        spec_run(f, vals, bid, ip, f2) == spec_run(f, vals, bid, ip, f1),
    decreases f1,
{
    match spec_find_basic_block(f.blocks@, bid) {
        None => {}
        Some(bi) => {
            if ip >= f.blocks@[bi].instructions@.len() {
                match spec_term_step(f, bi, vals) {
                    TermStep::TsGoto(v2, b2) => {
                        lemma_spec_run_monotone(f, v2, b2, 0, (f1 - 1) as nat,
                            (f2 - 1) as nat);
                    }
                    _ => {}
                }
            } else if ip >= 0 {
                match spec_instr_step(f.blocks@[bi].instructions@[ip], vals) {
                    InstrStep::IsNext(v2) => {
                        lemma_spec_run_monotone(f, v2, bid, ip + 1, (f1 - 1) as nat,
                            (f2 - 1) as nat);
                    }
                    _ => {}
                }
            }
        }
    }
}

/// The frame a call starts from: the arguments bound to the first value
/// ids, in order.
pub open spec fn spec_args_vals(args: Seq<RuntimeValue>) -> Seq<Option<RuntimeValue>> {
    Seq::new(args.len(), |j: int| Some(args[j]))
}

/// The frame after materializing a constants table, entry by entry;
/// `None` when an entry cannot be materialized.
pub open spec fn spec_init_consts(vals: Seq<Option<RuntimeValue>>,
    consts: Seq<(ValueId, i64, Type)>) -> Option<Seq<Option<RuntimeValue>>>
    decreases consts.len(),
{
    if consts.len() == 0 {
        Some(vals)
    } else if consts[0].0.0 == usize::MAX {
        None
    } else {
        match spec_const_value(consts[0].1, consts[0].2) {
            Some(rv) => spec_init_consts(spec_frame_set(vals, consts[0].0, rv),
                consts.drop_first()),
            None => None,
        }
    }
}

/// The determined outcome of calling a function by name, when there is
/// one: the entry checks pass, the initial frame binds the arguments and
/// the constants table, and the dispatcher determines the run.  An
/// exhausted depth cap is itself determined, as `StackOverflow`.
pub open spec fn spec_exec_call(p: Program, name: Seq<char>, args: Seq<RuntimeValue>,
    depth: int, max_depth: int, fuel: nat) -> Option<VMResult<RuntimeValue>>
{
    match spec_find_function(p.functions@, name) {
        None => None,
        Some(fi) => {
            let f = p.functions@[fi];
            if args.len() != f.params@.len() {
                None
            } else if depth >= max_depth {
                Some(Err(VMError::StackOverflow))
            } else if f.blocks@.len() == 0 {
                None
            } else if exists|j: int| 0 <= j < args.len()
                && spec_value_type(args[j]) != f.params@[j] {
                None
            } else {
                match spec_init_consts(spec_args_vals(args), f.constants@) {
                    None => None,
                    Some(v0) => spec_run(f, v0, f.blocks@[0].id, 0, fuel),
                }
            }
        }
    }
}

/// Simulation step: if the dispatcher's run from the initial state is
/// determined, and the state one step ago advances to the new state in
/// one dispatch step, the determination carries to the new state with
/// one unit of fuel consumed.
proof fn sim_step(f: Function, v0: Seq<Option<RuntimeValue>>, b0: BlockId, ip0: int,
    pv: Seq<Option<RuntimeValue>>, pb: BlockId, pip: int, c: int,
    nv: Seq<Option<RuntimeValue>>, nb: BlockId, nip: int)
    requires
        1 <= c,
        forall|sfuel: int| c - 1 <= sfuel
            && (#[trigger] spec_run(f, v0, b0, ip0, sfuel as nat)) is Some
            ==> spec_run(f, pv, pb, pip, (sfuel - (c - 1)) as nat)
                == spec_run(f, v0, b0, ip0, sfuel as nat),
        forall|sfuel: int| 0 <= sfuel < c - 1
            ==> !((#[trigger] spec_run(f, v0, b0, ip0, sfuel as nat)) is Some),
        forall|m: nat| m >= 1 ==> #[trigger] spec_run(f, pv, pb, pip, m)
            == spec_run(f, nv, nb, nip, (m - 1) as nat),
    ensures
        forall|sfuel: int| c <= sfuel
            && (#[trigger] spec_run(f, v0, b0, ip0, sfuel as nat)) is Some
            ==> spec_run(f, nv, nb, nip, (sfuel - c) as nat)
                == spec_run(f, v0, b0, ip0, sfuel as nat),
        forall|sfuel: int| 0 <= sfuel < c
            ==> !((#[trigger] spec_run(f, v0, b0, ip0, sfuel as nat)) is Some),
{
    assert forall|sfuel: int| c <= sfuel
        && (#[trigger] spec_run(f, v0, b0, ip0, sfuel as nat)) is Some
        implies spec_run(f, nv, nb, nip, (sfuel - c) as nat)
            == spec_run(f, v0, b0, ip0, sfuel as nat) by {
        let m = (sfuel - (c - 1)) as nat;
        assert(spec_run(f, pv, pb, pip, m) == spec_run(f, v0, b0, ip0, sfuel as nat));
        assert(m >= 1);
        assert(spec_run(f, pv, pb, pip, m) == spec_run(f, nv, nb, nip, (m - 1) as nat));
        assert((m - 1) as nat == (sfuel - c) as nat);
    }
    assert forall|sfuel: int| 0 <= sfuel < c
        implies !((#[trigger] spec_run(f, v0, b0, ip0, sfuel as nat)) is Some) by {
        if sfuel == c - 1 {
            if spec_run(f, v0, b0, ip0, sfuel as nat) is Some {
                assert(spec_run(f, pv, pb, pip, (sfuel - (c - 1)) as nat)
                    == spec_run(f, v0, b0, ip0, sfuel as nat));
                assert(spec_run(f, pv, pb, pip, 0) is None);
            }
        }
    }
}

/// Simulation across an undetermined step: when the state one step ago
/// is stuck for every fuel, no run from the initial state is determined
/// at or past the steps taken, so both simulation facts carry trivially.
proof fn sim_stuck(f: Function, v0: Seq<Option<RuntimeValue>>, b0: BlockId, ip0: int,
    pv: Seq<Option<RuntimeValue>>, pb: BlockId, pip: int, c: int,
    nv: Seq<Option<RuntimeValue>>, nb: BlockId, nip: int)
    requires
        1 <= c,
        forall|sfuel: int| c - 1 <= sfuel
            && (#[trigger] spec_run(f, v0, b0, ip0, sfuel as nat)) is Some
            ==> spec_run(f, pv, pb, pip, (sfuel - (c - 1)) as nat)
                == spec_run(f, v0, b0, ip0, sfuel as nat),
        forall|sfuel: int| 0 <= sfuel < c - 1
            ==> !((#[trigger] spec_run(f, v0, b0, ip0, sfuel as nat)) is Some),
        forall|m: nat| #[trigger] spec_run(f, pv, pb, pip, m) is None,
    ensures
        forall|sfuel: int| c <= sfuel
            && (#[trigger] spec_run(f, v0, b0, ip0, sfuel as nat)) is Some
            ==> spec_run(f, nv, nb, nip, (sfuel - c) as nat)
                == spec_run(f, v0, b0, ip0, sfuel as nat),
        forall|sfuel: int| 0 <= sfuel < c
            ==> !((#[trigger] spec_run(f, v0, b0, ip0, sfuel as nat)) is Some),
{
    assert forall|sfuel: int| c - 1 <= sfuel
        implies !((#[trigger] spec_run(f, v0, b0, ip0, sfuel as nat)) is Some) by {
        if spec_run(f, v0, b0, ip0, sfuel as nat) is Some {
            assert(spec_run(f, pv, pb, pip, (sfuel - (c - 1)) as nat)
                == spec_run(f, v0, b0, ip0, sfuel as nat));
            assert(spec_run(f, pv, pb, pip, (sfuel - (c - 1)) as nat) is None);
        }
    }
}

/// When the state one step ago is stuck for every fuel, no run from the
/// initial state is determined at all.
proof fn sim_vacuous(f: Function, v0: Seq<Option<RuntimeValue>>, b0: BlockId, ip0: int,
    pv: Seq<Option<RuntimeValue>>, pb: BlockId, pip: int, c: int)
    requires
        1 <= c,
        forall|sfuel: int| c - 1 <= sfuel
            && (#[trigger] spec_run(f, v0, b0, ip0, sfuel as nat)) is Some
            ==> spec_run(f, pv, pb, pip, (sfuel - (c - 1)) as nat)
                == spec_run(f, v0, b0, ip0, sfuel as nat),
        forall|sfuel: int| 0 <= sfuel < c - 1
            ==> !((#[trigger] spec_run(f, v0, b0, ip0, sfuel as nat)) is Some),
        forall|m: nat| #[trigger] spec_run(f, pv, pb, pip, m) is None,
    ensures
        forall|sfuel: int| 0 <= sfuel
            ==> !((#[trigger] spec_run(f, v0, b0, ip0, sfuel as nat)) is Some),
{
    assert forall|sfuel: int| 0 <= sfuel
        implies !((#[trigger] spec_run(f, v0, b0, ip0, sfuel as nat)) is Some) by {
        if c - 1 <= sfuel {
            if spec_run(f, v0, b0, ip0, sfuel as nat) is Some {
                assert(spec_run(f, pv, pb, pip, (sfuel - (c - 1)) as nat)
                    == spec_run(f, v0, b0, ip0, sfuel as nat));
                assert(spec_run(f, pv, pb, pip, (sfuel - (c - 1)) as nat) is None);
            }
        }
    }
}

/// When the state one step ago finishes with `out` at every positive
/// fuel, every determined run from the initial state has outcome `out`.
proof fn sim_return(f: Function, v0: Seq<Option<RuntimeValue>>, b0: BlockId, ip0: int,
    pv: Seq<Option<RuntimeValue>>, pb: BlockId, pip: int, c: int,
    out: VMResult<RuntimeValue>)
    requires
        1 <= c,
        forall|sfuel: int| c - 1 <= sfuel
            && (#[trigger] spec_run(f, v0, b0, ip0, sfuel as nat)) is Some
            ==> spec_run(f, pv, pb, pip, (sfuel - (c - 1)) as nat)
                == spec_run(f, v0, b0, ip0, sfuel as nat),
        forall|sfuel: int| 0 <= sfuel < c - 1
            ==> !((#[trigger] spec_run(f, v0, b0, ip0, sfuel as nat)) is Some),
        forall|m: nat| m >= 1 ==> #[trigger] spec_run(f, pv, pb, pip, m)
            == Some(out),
    ensures
        forall|sfuel: int| 0 <= sfuel
            && (#[trigger] spec_run(f, v0, b0, ip0, sfuel as nat)) is Some
            ==> spec_run(f, v0, b0, ip0, sfuel as nat) == Some(out),
{
    assert forall|sfuel: int| 0 <= sfuel
        && (#[trigger] spec_run(f, v0, b0, ip0, sfuel as nat)) is Some
        implies spec_run(f, v0, b0, ip0, sfuel as nat) == Some(out) by {
        assert(c - 1 <= sfuel);
        let m = (sfuel - (c - 1)) as nat;
        assert(spec_run(f, pv, pb, pip, m) == spec_run(f, v0, b0, ip0, sfuel as nat));
        if m == 0 {
            assert(spec_run(f, pv, pb, pip, 0) is None);
        } else {
            assert(spec_run(f, pv, pb, pip, m) == Some(out));
        }
    }
}

/// Copy a vector of value ids.
fn copy_ids(v: &Vec<ValueId>) -> (r: Vec<ValueId>)
    ensures
        r@ == v@,
{
    let n: usize = v.len();
    let mut r: Vec<ValueId> = Vec::new();
    let mut i: usize = 0;
    while i < n
        invariant
            n == v@.len(),
            i <= n,
            r@ =~= v@.subrange(0, i as int),
        decreases n - i,
    {
        r.push(v[i]);
        proof {
            assert(r@ =~= v@.subrange(0, i + 1));
        }
        i = i + 1;
    }
    proof {
        assert(v@.subrange(0, n as int) =~= v@);
    }
    r
}

/// The TILT virtual machine: a program, a host ABI, and the recursion and
/// step limits under which it runs.
pub struct VM<H: HostABI> {
    pub(crate) program: Program,
    pub(crate) host_abi: H,
    pub(crate) max_stack_depth: usize,
}

impl<H: HostABI> VM<H> {
    /// The program this interpreter executes; it never changes.
    pub closed spec fn spec_program(&self) -> Program {
        self.program
    }

    /// The configured call-depth cap.
    pub closed spec fn spec_max_depth(&self) -> int {
        self.max_stack_depth as int
    }

    /// A fresh interpreter over `program`, with the default depth cap of
    /// 1000 frames.
    pub fn new(program: Program, host_abi: H) -> (vm: VM<H>)
        ensures
            vm.spec_program() == program,
            vm.spec_max_depth() == 1000,
    {
        VM { program, host_abi, max_stack_depth: 1000 }
    }

    /// Set the maximum call-stack depth.
    pub fn set_max_stack_depth(&mut self, depth: usize)
        ensures
            final(self).spec_program() == old(self).spec_program(),
            final(self).spec_max_depth() == depth as int,
    {
        self.max_stack_depth = depth;
    }

    /// Execute a function by name.  A missing function, a wrong argument
    /// count, an exceeded depth cap, a function without blocks, and a
    /// wrongly typed argument surface, in that order, as
    /// `FunctionNotFound`, `InvalidInstruction`, `StackOverflow`,
    /// `InvalidInstruction` and `TypeMismatch`.  Whenever the spec-level
    /// dispatcher `spec_exec_call` determines the call's outcome — it
    /// does for every run that stays inside the IR, making no host call
    /// and touching no memory — the interpreter returns exactly that
    /// outcome.
    pub fn call_function(&mut self, name: &str, args: Vec<RuntimeValue>)
        -> (r: VMResult<RuntimeValue>)
        ensures
            final(self).spec_program() == old(self).spec_program(),
            final(self).spec_max_depth() == old(self).spec_max_depth(),
            spec_call_outcome(old(self).spec_program(), old(self).spec_max_depth(),
                0, name@, args@, r),
            forall|sfuel: int| 0 <= sfuel <= usize::MAX
                && (#[trigger] spec_exec_call(old(self).spec_program(), name@, args@,
                    0, old(self).spec_max_depth(), sfuel as nat)) is Some
                ==> r == spec_exec_call(old(self).spec_program(), name@, args@,
                    0, old(self).spec_max_depth(), sfuel as nat)->0,
    {
        self.call_at_depth(name, args, 0)
    }

    /// The error cases `call_function` pins down; when every check passes
    /// the outcome is whatever the program computes.
    fn call_at_depth(&mut self, name: &str, args: Vec<RuntimeValue>, depth: usize)
        -> (r: VMResult<RuntimeValue>)
        ensures
            final(self).program == old(self).program,
            final(self).max_stack_depth == old(self).max_stack_depth,
            spec_call_outcome(old(self).program, old(self).max_stack_depth as int,
                depth as int, name@, args@, r),
            forall|sfuel: int| 0 <= sfuel <= usize::MAX
                && (#[trigger] spec_exec_call(old(self).program, name@, args@,
                    depth as int, old(self).max_stack_depth as int, sfuel as nat)) is Some
                ==> r == spec_exec_call(old(self).program, name@, args@,
                    depth as int, old(self).max_stack_depth as int, sfuel as nat)->0,
        decreases self.max_stack_depth - depth, 1int,
    {
        proof {
            lemma_find_function_first(self.program.functions@, name@, 0);
        }
        let nfns: usize = self.program.functions.len();
        let mut fi: usize = 0;
        let mut found: bool = false;
        while fi < nfns && !found
            invariant
                nfns == self.program.functions@.len(),
                fi <= nfns,
                self.program == old(self).program,
                self.max_stack_depth == old(self).max_stack_depth,
                !found ==> forall|j: int| 0 <= j < fi
                    ==> self.program.functions@[j].name@ != name@,
                found ==> fi < nfns && self.program.functions@[fi as int].name@ == name@
                    && forall|j: int| 0 <= j < fi
                        ==> self.program.functions@[j].name@ != name@,
            decreases nfns - fi + (if found { 0int } else { 1int }),
        {
            if crate::text::str_eq(self.program.functions[fi].name.as_str(), name) {
                found = true;
            } else {
                fi = fi + 1;
            }
        }
        proof {
            lemma_find_function_first(self.program.functions@, name@, fi as int);
        }
        if !found {
            return Err(VMError::FunctionNotFound(name.to_owned()));
        }
        let nparams: usize = self.program.functions[fi].params.len();
        if args.len() != nparams {
            return Err(VMError::InvalidInstruction(
                "wrong number of arguments".to_owned()));
        }
        if depth >= self.max_stack_depth {
            return Err(VMError::StackOverflow);
        }
        if self.program.functions[fi].blocks.len() == 0 {
            return Err(VMError::InvalidInstruction("Function has no blocks".to_owned()));
        }
        let mut j: usize = 0;
        while j < nparams
            invariant
                fi < self.program.functions@.len(),
                nparams == self.program.functions@[fi as int].params@.len(),
                nparams == args@.len(),
                j <= nparams,
                self.program == old(self).program,
                self.max_stack_depth == old(self).max_stack_depth,
                spec_find_function(self.program.functions@, name@) == Some(fi as int),
                depth < self.max_stack_depth,
                self.program.functions@[fi as int].blocks@.len() > 0,
                forall|k: int| 0 <= k < j ==> spec_value_type(args@[k])
                    == self.program.functions@[fi as int].params@[k],
            decreases nparams - j,
        {
            let expected = self.program.functions[fi].params[j];
            let actual = args[j].get_type();
            if actual != expected {
                proof {
                    assert(spec_value_type(args@[j as int])
                        != self.program.functions@[fi as int].params@[j as int]);
                }
                return Err(VMError::TypeMismatch {
                    expected,
                    actual,
                    context: "function parameter".to_owned(),
                });
            }
            j = j + 1;
        }

        let entry = self.program.functions[fi].blocks[0].id;
        let mut frame = StackFrame::new(entry);

        let mut k: usize = 0;
        let nargs: usize = args.len();
        while k < nargs
            invariant
                nargs == args@.len(),
                k <= nargs,
                frame.current_block == entry,
                frame.instruction_pointer == 0,
                frame.values@ =~= Seq::new(k as nat, |j: int| Some(args@[j])),
            decreases nargs - k,
        {
            frame.set_value(ValueId(k), args[k]);
            proof {
                assert(frame.values@ =~= Seq::new(k as nat + 1,
                    |j: int| Some(args@[j])));
            }
            k = k + 1;
        }
        proof {
            assert(frame.values@ =~= spec_args_vals(args@));
        }

        let nconsts: usize = self.program.functions[fi].constants.len();
        let mut c: usize = 0;
        proof {
            assert(self.program.functions@[fi as int].constants@.skip(0)
                =~= self.program.functions@[fi as int].constants@);
        }
        while c < nconsts
            invariant
                fi < self.program.functions@.len(),
                nconsts == self.program.functions@[fi as int].constants@.len(),
                c <= nconsts,
                self.program == old(self).program,
                self.max_stack_depth == old(self).max_stack_depth,
                depth < self.max_stack_depth,
                spec_find_function(self.program.functions@, name@) == Some(fi as int),
                args@.len() == self.program.functions@[fi as int].params@.len(),
                self.program.functions@[fi as int].blocks@.len() > 0,
                forall|k: int| 0 <= k < args@.len() ==> spec_value_type(args@[k])
                    == self.program.functions@[fi as int].params@[k],
                frame.current_block == entry,
                frame.instruction_pointer == 0,
                entry == self.program.functions@[fi as int].blocks@[0].id,
                spec_init_consts(spec_args_vals(args@),
                    self.program.functions@[fi as int].constants@)
                    == spec_init_consts(frame.values@,
                        self.program.functions@[fi as int].constants@.skip(c as int)),
            decreases nconsts - c,
        {
            proof {
                let consts = self.program.functions@[fi as int].constants@;
                assert(consts.skip(c as int)[0] == consts[c as int]);
                assert(consts.skip(c as int).drop_first() =~= consts.skip(c + 1));
            }
            let (cid, cval, cty) = self.program.functions[fi].constants[c];
            if cid.0 == usize::MAX {
                proof {
                    assert(spec_init_consts(frame.values@,
                        self.program.functions@[fi as int].constants@.skip(c as int))
                        is None);
                }
                return Err(VMError::InvalidInstruction("value id out of range".to_owned()));
            }
            match const_to_runtime(cval, cty) {
                Ok(v) => {
                    frame.set_value(cid, v);
                }
                Err(e) => {
                    proof {
                        assert(spec_init_consts(frame.values@,
                            self.program.functions@[fi as int].constants@.skip(c as int))
                            is None);
                    }
                    return Err(e);
                }
            }
            c = c + 1;
        }

        let ghost v0 = frame.values@;
        proof {
            assert(self.program.functions@[fi as int].constants@.skip(nconsts as int)
                =~= Seq::<(ValueId, i64, Type)>::empty());
            assert(spec_init_consts(spec_args_vals(args@),
                self.program.functions@[fi as int].constants@) == Some(v0));
        }
        let r = self.execute_function(&mut frame, fi, depth);
        proof {
            assert forall|sfuel: int| 0 <= sfuel <= usize::MAX
                && (#[trigger] spec_exec_call(old(self).program, name@, args@,
                    depth as int, old(self).max_stack_depth as int, sfuel as nat)) is Some
                implies r == spec_exec_call(old(self).program, name@, args@,
                    depth as int, old(self).max_stack_depth as int, sfuel as nat)->0 by {
                assert(spec_exec_call(old(self).program, name@, args@, depth as int,
                    old(self).max_stack_depth as int, sfuel as nat)
                    == spec_run(old(self).program.functions@[fi as int], v0, entry, 0,
                        sfuel as nat));
            }
        }
        r
    }

    /// The dispatch loop: run the current block's instructions, then its
    /// terminator, until the function returns or fails.  Whenever the
    /// spec-level dispatcher determines the run's outcome within the
    /// step budget, the loop returns exactly that outcome.
    fn execute_function(&mut self, frame: &mut StackFrame, fi: usize, depth: usize)
        -> (r: VMResult<RuntimeValue>)
        requires
            fi < old(self).program.functions@.len(),
            depth < old(self).max_stack_depth,
        ensures
            final(self).program == old(self).program,
            final(self).max_stack_depth == old(self).max_stack_depth,
            forall|sfuel: int| 0 <= sfuel <= usize::MAX
                && (#[trigger] spec_run(old(self).program.functions@[fi as int],
                    old(frame).values@, old(frame).current_block,
                    old(frame).instruction_pointer as int, sfuel as nat)) is Some
                ==> r == spec_run(old(self).program.functions@[fi as int],
                    old(frame).values@, old(frame).current_block,
                    old(frame).instruction_pointer as int, sfuel as nat)->0,
        decreases self.max_stack_depth - depth, 0int,
    {
        let ghost func0 = self.program.functions@[fi as int];
        let ghost vals0 = frame.values@;
        let ghost bid0 = frame.current_block;
        let ghost ip0 = frame.instruction_pointer as int;
        let ghost mut c: int = 0;
        let mut fuel: usize = usize::MAX;
        loop
            invariant
                fi < self.program.functions@.len(),
                depth < self.max_stack_depth,
                self.program == old(self).program,
                self.max_stack_depth == old(self).max_stack_depth,
                func0 == self.program.functions@[fi as int],
                vals0 == old(frame).values@,
                bid0 == old(frame).current_block,
                ip0 == old(frame).instruction_pointer as int,
                c == usize::MAX - fuel,
                0 <= c,
                // A run the dispatcher determines with `sfuel` steps is,
                // after the `c` steps taken so far, determined from the
                // current frame with the remaining fuel, same outcome.
                forall|sfuel: int| c <= sfuel
                    && (#[trigger] spec_run(func0, vals0, bid0, ip0, sfuel as nat)) is Some
                    ==> spec_run(func0, frame.values@, frame.current_block,
                        frame.instruction_pointer as int, (sfuel - c) as nat)
                        == spec_run(func0, vals0, bid0, ip0, sfuel as nat),
                // And no run finishes in fewer steps than were taken.
                forall|sfuel: int| 0 <= sfuel < c
                    ==> !((#[trigger] spec_run(func0, vals0, bid0, ip0, sfuel as nat))
                        is Some),
            decreases fuel,
        {
            if fuel == 0 {
                proof {
                    assert forall|sfuel: int| 0 <= sfuel <= usize::MAX
                        && (#[trigger] spec_run(func0, vals0, bid0, ip0, sfuel as nat))
                            is Some
                        implies false by {
                        if sfuel < c {
                        } else {
                            assert(spec_run(func0, frame.values@, frame.current_block,
                                frame.instruction_pointer as int, (sfuel - c) as nat)
                                == spec_run(func0, vals0, bid0, ip0, sfuel as nat));
                        }
                    }
                }
                return Err(VMError::InvalidInstruction(
                    "instruction budget exhausted".to_owned()));
            }
            fuel = fuel - 1;
            proof {
                c = c + 1;
            }
            let ghost pv = frame.values@;
            let ghost pb = frame.current_block;
            let ghost pip = frame.instruction_pointer as int;

            // Locate the frame's current block within the function.
            let bid = frame.current_block;
            let nblocks: usize = self.program.functions[fi].blocks.len();
            let mut bi: usize = 0;
            let mut bfound: bool = false;
            while bi < nblocks && !bfound
                invariant
                    fi < self.program.functions@.len(),
                    nblocks == self.program.functions@[fi as int].blocks@.len(),
                    bi <= nblocks,
                    self.program == old(self).program,
                    forall|j: int| 0 <= j < bi
                        ==> self.program.functions@[fi as int].blocks@[j].id != bid,
                    bfound ==> bi < nblocks
                        && self.program.functions@[fi as int].blocks@[bi as int].id == bid,
                decreases nblocks - bi + (if bfound { 0int } else { 1int }),
            {
                if self.program.functions[fi].blocks[bi].id.0 == bid.0 {
                    bfound = true;
                } else {
                    bi = bi + 1;
                }
            }
            proof {
                lemma_find_basic_block_first(func0.blocks@, bid,
                    if bfound { bi as int } else { nblocks as int });
            }
            if !bfound {
                proof {
                    assert forall|m: nat| m >= 1 implies #[trigger] spec_run(func0, pv, pb,
                        pip, m) == Some(Err::<RuntimeValue, VMError>(VMError::BlockNotFound(bid))) by {}
                    sim_return(func0, vals0, bid0, ip0, pv, pb, pip, c,
                        Err(VMError::BlockNotFound(bid)));
                }
                return Err(VMError::BlockNotFound(bid));
            }

            let ip = frame.instruction_pointer;
            let ninstr: usize = self.program.functions[fi].blocks[bi].instructions.len();
            if ip >= ninstr {
                // Execute the terminator.
                let ghost tstep = spec_term_step(func0, bi as int, pv);
                match self.run_terminator(frame, fi, bi, depth) {
                    Ok(Some(result)) => {
                        proof {
                            match tstep {
                                TermStep::TsDone(out) => {
                                    assert(out == Ok::<RuntimeValue, VMError>(result));
                                    assert forall|m: nat| m >= 1 implies
                                        #[trigger] spec_run(func0, pv, pb, pip, m)
                                            == Some(Ok::<RuntimeValue, VMError>(result))
                                        by {}
                                    sim_return(func0, vals0, bid0, ip0, pv, pb, pip, c,
                                        Ok(result));
                                }
                                TermStep::TsGoto(v2, b2) => {
                                    assert(false);
                                }
                                TermStep::TsStuck => {
                                    assert forall|m: nat| #[trigger] spec_run(func0, pv,
                                        pb, pip, m) is None by {}
                                    sim_vacuous(func0, vals0, bid0, ip0, pv, pb, pip, c);
                                }
                            }
                        }
                        return Ok(result);
                    }
                    Ok(None) => {
                        // Branch taken; continue dispatching.
                        proof {
                            match tstep {
                                TermStep::TsGoto(v2, b2) => {
                                    assert forall|m: nat| m >= 1 implies
                                        #[trigger] spec_run(func0, pv, pb, pip, m)
                                            == spec_run(func0, v2, b2, 0,
                                                (m - 1) as nat) by {}
                                    sim_step(func0, vals0, bid0, ip0, pv, pb, pip, c,
                                        frame.values@, frame.current_block,
                                        frame.instruction_pointer as int);
                                }
                                TermStep::TsDone(out) => {
                                    assert(false);
                                }
                                TermStep::TsStuck => {
                                    assert forall|m: nat| #[trigger] spec_run(func0, pv,
                                        pb, pip, m) is None by {}
                                    sim_stuck(func0, vals0, bid0, ip0, pv, pb, pip, c,
                                        frame.values@, frame.current_block,
                                        frame.instruction_pointer as int);
                                }
                            }
                        }
                    }
                    Err(e) => {
                        proof {
                            match tstep {
                                TermStep::TsDone(out) => {
                                    assert(out == Err::<RuntimeValue, VMError>(e));
                                    assert forall|m: nat| m >= 1 implies
                                        #[trigger] spec_run(func0, pv, pb, pip, m)
                                            == Some(Err::<RuntimeValue, VMError>(e))
                                        by {}
                                    sim_return(func0, vals0, bid0, ip0, pv, pb, pip, c,
                                        Err(e));
                                }
                                TermStep::TsGoto(v2, b2) => {
                                    assert(false);
                                }
                                TermStep::TsStuck => {
                                    assert forall|m: nat| #[trigger] spec_run(func0, pv,
                                        pb, pip, m) is None by {}
                                    sim_vacuous(func0, vals0, bid0, ip0, pv, pb, pip, c);
                                }
                            }
                        }
                        return Err(e);
                    }
                }
            } else {
                let ghost istep = spec_instr_step(
                    func0.blocks@[bi as int].instructions@[ip as int], pv);
                match self.run_instruction(frame, fi, bi, ip, depth) {
                    Ok(()) => {
                        frame.instruction_pointer = ip + 1;
                        proof {
                            match istep {
                                InstrStep::IsNext(v2) => {
                                    assert forall|m: nat| m >= 1 implies
                                        #[trigger] spec_run(func0, pv, pb, pip, m)
                                            == spec_run(func0, v2, pb, pip + 1,
                                                (m - 1) as nat) by {}
                                    sim_step(func0, vals0, bid0, ip0, pv, pb, pip, c,
                                        frame.values@, frame.current_block,
                                        frame.instruction_pointer as int);
                                }
                                InstrStep::IsFail(e2) => {
                                    assert(false);
                                }
                                InstrStep::IsStuck => {
                                    assert forall|m: nat| #[trigger] spec_run(func0, pv,
                                        pb, pip, m) is None by {}
                                    sim_stuck(func0, vals0, bid0, ip0, pv, pb, pip, c,
                                        frame.values@, frame.current_block,
                                        frame.instruction_pointer as int);
                                }
                            }
                        }
                    }
                    Err(e) => {
                        proof {
                            match istep {
                                InstrStep::IsFail(e2) => {
                                    assert(e2 == e);
                                    assert forall|m: nat| m >= 1 implies
                                        #[trigger] spec_run(func0, pv, pb, pip, m)
                                            == Some(Err::<RuntimeValue, VMError>(e))
                                        by {}
                                    sim_return(func0, vals0, bid0, ip0, pv, pb, pip, c,
                                        Err(e));
                                }
                                InstrStep::IsNext(v2) => {
                                    assert(false);
                                }
                                InstrStep::IsStuck => {
                                    assert forall|m: nat| #[trigger] spec_run(func0, pv,
                                        pb, pip, m) is None by {}
                                    sim_vacuous(func0, vals0, bid0, ip0, pv, pb, pip, c);
                                }
                            }
                        }
                        return Err(e);
                    }
                }
            }
        }
    }

    /// Resolve a list of operand ids in the frame.
    fn resolve_args(frame: &StackFrame, ids: &Vec<ValueId>) -> (r: VMResult<Vec<RuntimeValue>>)
        ensures
            r matches Ok(vs) ==> vs@.len() == ids@.len()
                && forall|j: int| 0 <= j < ids@.len()
                    ==> spec_frame_get(frame.values@, ids@[j]) == Some(vs@[j]),
            match spec_first_unbound(frame.values@, ids@) {
                None => r matches Ok(vs) && vs@ == spec_resolve_ids(frame.values@, ids@),
                Some(id) => r == Err::<Vec<RuntimeValue>, VMError>(VMError::ValueNotFound(id)),
            },
    {
        let n: usize = ids.len();
        let mut vs: Vec<RuntimeValue> = Vec::new();
        let mut i: usize = 0;
        proof {
            assert(ids@.skip(0) =~= ids@);
        }
        while i < n
            invariant
                n == ids@.len(),
                i <= n,
                vs@.len() == i,
                forall|j: int| 0 <= j < i
                    ==> spec_frame_get(frame.values@, ids@[j]) == Some(vs@[j]),
                spec_first_unbound(frame.values@, ids@)
                    == spec_first_unbound(frame.values@, ids@.skip(i as int)),
                spec_first_unbound(frame.values@, ids@) is None
                    ==> spec_resolve_ids(frame.values@, ids@)
                        == vs@ + spec_resolve_ids(frame.values@, ids@.skip(i as int)),
            decreases n - i,
        {
            proof {
                assert(ids@.skip(i as int)[0] == ids@[i as int]);
                assert(ids@.skip(i as int).drop_first() =~= ids@.skip(i + 1));
            }
            match frame.get_value(ids[i]) {
                Ok(v) => {
                    vs.push(v);
                }
                Err(e) => {
                    return Err(e);
                }
            }
            i = i + 1;
        }
        proof {
            assert(ids@.skip(n as int) =~= Seq::<ValueId>::empty());
            if spec_first_unbound(frame.values@, ids@) is None {
                assert(vs@ + spec_resolve_ids(frame.values@, ids@.skip(n as int)) =~= vs@);
            }
        }
        Ok(vs)
    }

    /// Bind a target block's parameters to the resolved branch arguments,
    /// positionally, and move the frame to the target's start.  With
    /// distinct parameter ids — the well-formed case — every parameter
    /// ends up bound to its own argument.
    fn enter_block(frame: &mut StackFrame, params: &Vec<(ValueId, Type)>,
        vals: &Vec<RuntimeValue>, target: BlockId)
        -> (r: VMResult<()>)
        requires
            params@.len() == vals@.len(),
        ensures
            r is Ok ==> final(frame).current_block == target
                && final(frame).instruction_pointer == 0,
            (r is Ok && (forall|x: int, y: int| 0 <= x < y < params@.len()
                ==> params@[x].0 != params@[y].0))
                ==> forall|j: int| 0 <= j < params@.len()
                    ==> spec_frame_get(final(frame).values@, params@[j].0)
                        == Some(vals@[j]),
            spec_params_in_range(params@) ==> r is Ok
                && final(frame).values@ == spec_bind_params(old(frame).values@, params@, vals@),
    {
        let n: usize = params.len();
        let mut j: usize = 0;
        proof {
            assert(params@.skip(0) =~= params@);
            assert(vals@.skip(0) =~= vals@);
        }
        while j < n
            invariant
                n == params@.len(),
                n == vals@.len(),
                j <= n,
                (forall|x: int, y: int| 0 <= x < y < n
                    ==> params@[x].0 != params@[y].0)
                    ==> forall|k: int| 0 <= k < j
                        ==> spec_frame_get(frame.values@, params@[k].0) == Some(vals@[k]),
                spec_params_in_range(params@)
                    ==> spec_bind_params(old(frame).values@, params@, vals@)
                        == spec_bind_params(frame.values@, params@.skip(j as int),
                            vals@.skip(j as int)),
            decreases n - j,
        {
            proof {
                assert(params@.skip(j as int)[0] == params@[j as int]);
                assert(params@.skip(j as int).drop_first() =~= params@.skip(j + 1));
                assert(vals@.skip(j as int)[0] == vals@[j as int]);
                assert(vals@.skip(j as int).drop_first() =~= vals@.skip(j + 1));
            }
            let (pid, _pty) = params[j];
            if pid.0 == usize::MAX {
                return Err(VMError::InvalidInstruction("value id out of range".to_owned()));
            }
            frame.set_value(pid, vals[j]);
            j = j + 1;
        }
        proof {
            assert(params@.skip(n as int) =~= Seq::<(ValueId, Type)>::empty());
            if spec_params_in_range(params@) {
                assert(spec_bind_params(frame.values@, params@.skip(n as int),
                    vals@.skip(n as int)) == frame.values@);
            }
        }
        frame.current_block = target;
        frame.instruction_pointer = 0;
        Ok(())
    }

    /// Execute one terminator: `Ok(Some(v))` returns `v` from the
    /// function, `Ok(None)` means a branch was taken.
    fn run_terminator(&mut self, frame: &mut StackFrame, fi: usize, bi: usize, depth: usize)
        -> (r: VMResult<Option<RuntimeValue>>)
        requires
            fi < old(self).program.functions@.len(),
            bi < old(self).program.functions@[fi as int].blocks@.len(),
        ensures
            *final(self) == *old(self),
            old(self).program.functions@[fi as int].blocks@[bi as int].terminator
                matches Terminator::Ret { value } ==> (
                *final(frame) == *old(frame)
                && match value {
                    Some(v) => (match spec_frame_get(old(frame).values@, v) {
                        Some(rv) => r == Ok::<Option<RuntimeValue>, VMError>(Some(rv)),
                        None => r == Err::<Option<RuntimeValue>, VMError>(
                            VMError::ValueNotFound(v)),
                    }),
                    None => r == Ok::<Option<RuntimeValue>, VMError>(
                        Some(RuntimeValue::Void)),
                }),
            ({
                let f = old(self).program.functions@[fi as int];
                match spec_term_step(f, bi as int, old(frame).values@) {
                    TermStep::TsDone(out) => match out {
                        Ok(v) => r == Ok::<Option<RuntimeValue>, VMError>(Some(v)),
                        Err(e) => r == Err::<Option<RuntimeValue>, VMError>(e),
                    },
                    TermStep::TsGoto(v2, b2) => r == Ok::<Option<RuntimeValue>, VMError>(None)
                        && final(frame).values@ == v2
                        && final(frame).current_block == b2
                        && final(frame).instruction_pointer == 0,
                    TermStep::TsStuck => true,
                }
            }),
            ({
                let f = old(self).program.functions@[fi as int];
                match spec_attempted_branch(f.blocks@[bi as int].terminator,
                    old(frame).values@) {
                    Some(p) => match spec_find_basic_block(f.blocks@, p.0) {
                        Some(ti) => p.1.len() != f.blocks@[ti].params@.len()
                            ==> ((r matches Err(VMError::InvalidInstruction(_)))
                                && *final(frame) == *old(frame)),
                        None => true,
                    },
                    None => true,
                }
            }),
    {
        let nblocks: usize = self.program.functions[fi].blocks.len();
        match &self.program.functions[fi].blocks[bi].terminator {
            Terminator::Ret { value } => {
                match value {
                    Some(v) => {
                        match frame.get_value(*v) {
                            Ok(rv) => Ok(Some(rv)),
                            Err(e) => Err(e),
                        }
                    }
                    None => Ok(Some(RuntimeValue::Void)),
                }
            }
            Terminator::Br { target, args } => {
                let target = *target;
                // Locate the target block.
                let mut ti: usize = 0;
                let mut tfound: bool = false;
                while ti < nblocks && !tfound
                    invariant
                        fi < self.program.functions@.len(),
                        nblocks == self.program.functions@[fi as int].blocks@.len(),
                        ti <= nblocks,
                        forall|j: int| 0 <= j < ti
                            ==> self.program.functions@[fi as int].blocks@[j].id != target,
                        tfound ==> ti < nblocks
                            && self.program.functions@[fi as int].blocks@[ti as int].id
                                == target,
                    decreases nblocks - ti + (if tfound { 0int } else { 1int }),
                {
                    if self.program.functions[fi].blocks[ti].id.0 == target.0 {
                        tfound = true;
                    } else {
                        ti = ti + 1;
                    }
                }
                proof {
                    lemma_find_basic_block_first(
                        self.program.functions@[fi as int].blocks@, target,
                        if tfound { ti as int } else { nblocks as int });
                }
                if !tfound {
                    return Err(VMError::BlockNotFound(target));
                }
                if args.len() != self.program.functions[fi].blocks[ti].params.len() {
                    return Err(VMError::InvalidInstruction(
                        "Block parameter count mismatch".to_owned()));
                }
                match Self::resolve_args(frame, args) {
                    Ok(vals) => {
                        match Self::enter_block(frame,
                            &self.program.functions[fi].blocks[ti].params, &vals, target) {
                            Ok(()) => Ok(None),
                            Err(e) => Err(e),
                        }
                    }
                    Err(e) => Err(e),
                }
            }
            Terminator::BrIf { cond, true_target, true_args, false_target, false_args } => {
                let cond_val = match frame.get_value(*cond) {
                    Ok(v) => v,
                    Err(e) => {
                        return Err(e);
                    }
                };
                let is_true: bool = match cond_val {
                    RuntimeValue::I32(v) => v != 0,
                    RuntimeValue::I64(v) => v != 0,
                    _ => {
                        return Err(VMError::TypeMismatch {
                            expected: Type::I32,
                            actual: cond_val.get_type(),
                            context: "conditional branch condition".to_owned(),
                        });
                    }
                };
                let target = if is_true { *true_target } else { *false_target };
                let args = if is_true { true_args } else { false_args };
                let mut ti: usize = 0;
                let mut tfound: bool = false;
                while ti < nblocks && !tfound
                    invariant
                        fi < self.program.functions@.len(),
                        nblocks == self.program.functions@[fi as int].blocks@.len(),
                        ti <= nblocks,
                        forall|j: int| 0 <= j < ti
                            ==> self.program.functions@[fi as int].blocks@[j].id != target,
                        tfound ==> ti < nblocks
                            && self.program.functions@[fi as int].blocks@[ti as int].id
                                == target,
                    decreases nblocks - ti + (if tfound { 0int } else { 1int }),
                {
                    if self.program.functions[fi].blocks[ti].id.0 == target.0 {
                        tfound = true;
                    } else {
                        ti = ti + 1;
                    }
                }
                proof {
                    lemma_find_basic_block_first(
                        self.program.functions@[fi as int].blocks@, target,
                        if tfound { ti as int } else { nblocks as int });
                }
                if !tfound {
                    return Err(VMError::BlockNotFound(target));
                }
                if args.len() != self.program.functions[fi].blocks[ti].params.len() {
                    return Err(VMError::InvalidInstruction(
                        "Block parameter count mismatch".to_owned()));
                }
                match Self::resolve_args(frame, args) {
                    Ok(vals) => {
                        match Self::enter_block(frame,
                            &self.program.functions[fi].blocks[ti].params, &vals, target) {
                            Ok(()) => Ok(None),
                            Err(e) => Err(e),
                        }
                    }
                    Err(e) => Err(e),
                }
            }
        }
    }

    /// Execute the instruction at `ip` in the current block.
    fn run_instruction(&mut self, frame: &mut StackFrame, fi: usize, bi: usize, ip: usize,
        depth: usize)
        -> (r: VMResult<()>)
        requires
            fi < old(self).program.functions@.len(),
            bi < old(self).program.functions@[fi as int].blocks@.len(),
            ip < old(self).program.functions@[fi as int].blocks@[bi as int].instructions@.len(),
            depth < old(self).max_stack_depth,
        ensures
            final(self).program == old(self).program,
            final(self).max_stack_depth == old(self).max_stack_depth,
            spec_pure_step_ok(
                old(self).program.functions@[fi as int].blocks@[bi as int]
                    .instructions@[ip as int],
                old(frame).values@, final(frame).values@, r),
            ({
                let instr = old(self).program.functions@[fi as int].blocks@[bi as int]
                    .instructions@[ip as int];
                match spec_instr_step(instr, old(frame).values@) {
                    InstrStep::IsNext(v2) => r is Ok && final(frame).values@ == v2
                        && final(frame).current_block == old(frame).current_block
                        && final(frame).instruction_pointer
                            == old(frame).instruction_pointer,
                    InstrStep::IsFail(e) => r == Err::<(), VMError>(e),
                    InstrStep::IsStuck => true,
                }
            }),
        decreases self.max_stack_depth - depth, 0int, 0int,
    {
        match &self.program.functions[fi].blocks[bi].instructions[ip] {
            Instruction::Const { dest, value, ty } => {
                let dest = *dest;
                let value = *value;
                let ty = *ty;
                if dest.0 == usize::MAX {
                    return Err(VMError::InvalidInstruction("value id out of range".to_owned()));
                }
                match const_to_runtime(value, ty) {
                    Ok(v) => {
                        frame.set_value(dest, v);
                        Ok(())
                    }
                    Err(e) => Err(e),
                }
            }
            Instruction::BinaryOp { dest, op, ty: _, lhs, rhs } => {
                let dest = *dest;
                let op = *op;
                let lhs = *lhs;
                let rhs = *rhs;
                if dest.0 == usize::MAX {
                    return Err(VMError::InvalidInstruction("value id out of range".to_owned()));
                }
                let a = match frame.get_value(lhs) {
                    Ok(v) => v,
                    Err(e) => {
                        return Err(e);
                    }
                };
                let b = match frame.get_value(rhs) {
                    Ok(v) => v,
                    Err(e) => {
                        return Err(e);
                    }
                };
                match eval_binary_op(op, a, b) {
                    Ok(v) => {
                        frame.set_value(dest, v);
                        Ok(())
                    }
                    Err(e) => Err(e),
                }
            }
            Instruction::UnaryOp { dest, op, ty: _, operand } => {
                let dest = *dest;
                let op = *op;
                let operand = *operand;
                if dest.0 == usize::MAX {
                    return Err(VMError::InvalidInstruction("value id out of range".to_owned()));
                }
                let a = match frame.get_value(operand) {
                    Ok(v) => v,
                    Err(e) => {
                        return Err(e);
                    }
                };
                match eval_unary_op(op, a) {
                    Ok(v) => {
                        frame.set_value(dest, v);
                        Ok(())
                    }
                    Err(e) => Err(e),
                }
            }
            Instruction::Convert { dest, src, from_ty, to_ty } => {
                let dest = *dest;
                let src = *src;
                let from_ty = *from_ty;
                let to_ty = *to_ty;
                if dest.0 == usize::MAX {
                    return Err(VMError::InvalidInstruction("value id out of range".to_owned()));
                }
                let a = match frame.get_value(src) {
                    Ok(v) => v,
                    Err(e) => {
                        return Err(e);
                    }
                };
                match eval_convert(from_ty, to_ty, a) {
                    Ok(v) => {
                        frame.set_value(dest, v);
                        Ok(())
                    }
                    Err(e) => Err(e),
                }
            }
            Instruction::PtrAdd { dest, ptr, offset } => {
                let dest = *dest;
                let ptr = *ptr;
                let offset = *offset;
                if dest.0 == usize::MAX {
                    return Err(VMError::InvalidInstruction("value id out of range".to_owned()));
                }
                let a = match frame.get_value(ptr) {
                    Ok(v) => v,
                    Err(e) => {
                        return Err(e);
                    }
                };
                let b = match frame.get_value(offset) {
                    Ok(v) => v,
                    Err(e) => {
                        return Err(e);
                    }
                };
                match (a, b) {
                    (RuntimeValue::Usize(x), RuntimeValue::Usize(y)) => {
                        frame.set_value(dest, RuntimeValue::Usize(x.wrapping_add(y)));
                        Ok(())
                    }
                    _ => Err(VMError::TypeMismatch {
                        expected: Type::Usize,
                        actual: b.get_type(),
                        context: "pointer arithmetic".to_owned(),
                    }),
                }
            }
            Instruction::SizeOf { dest, ty } => {
                let dest = *dest;
                let ty = *ty;
                if dest.0 == usize::MAX {
                    return Err(VMError::InvalidInstruction("value id out of range".to_owned()));
                }
                let size = type_size(ty);
                frame.set_value(dest, RuntimeValue::Usize(size));
                Ok(())
            }
            Instruction::Load { dest, ty, address } => {
                let dest = *dest;
                let ty = *ty;
                let address = *address;
                if dest.0 == usize::MAX {
                    return Err(VMError::InvalidInstruction("value id out of range".to_owned()));
                }
                let addr_val = match frame.get_value(address) {
                    Ok(v) => v,
                    Err(e) => {
                        return Err(e);
                    }
                };
                let addr: u64 = match addr_val {
                    RuntimeValue::Usize(a) => a as u64,
                    _ => {
                        return Err(VMError::TypeMismatch {
                            expected: Type::Usize,
                            actual: addr_val.get_type(),
                            context: "load instruction address".to_owned(),
                        });
                    }
                };
                match self.host_abi.read_memory_value(addr, ty) {
                    Ok(v) => {
                        frame.set_value(dest, v);
                        Ok(())
                    }
                    Err(e) => Err(VMError::InvalidInstruction(e)),
                }
            }
            Instruction::Store { address, value, ty: _ } => {
                let address = *address;
                let value = *value;
                let addr_val = match frame.get_value(address) {
                    Ok(v) => v,
                    Err(e) => {
                        return Err(e);
                    }
                };
                let val = match frame.get_value(value) {
                    Ok(v) => v,
                    Err(e) => {
                        return Err(e);
                    }
                };
                let addr: u64 = match addr_val {
                    RuntimeValue::Usize(a) => a as u64,
                    _ => {
                        return Err(VMError::TypeMismatch {
                            expected: Type::Usize,
                            actual: addr_val.get_type(),
                            context: "store instruction address".to_owned(),
                        });
                    }
                };
                match self.host_abi.write_memory_value(addr, &val) {
                    Ok(()) => Ok(()),
                    Err(e) => Err(VMError::InvalidInstruction(e)),
                }
            }
            Instruction::Alloc { dest, size } => {
                let dest = *dest;
                let size = *size;
                if dest.0 == usize::MAX {
                    return Err(VMError::InvalidInstruction("value id out of range".to_owned()));
                }
                let size_val = match frame.get_value(size) {
                    Ok(v) => v,
                    Err(e) => {
                        return Err(e);
                    }
                };
                match size_val {
                    RuntimeValue::Usize(_) => {
                        let mut argv: Vec<RuntimeValue> = Vec::new();
                        argv.push(size_val);
                        match self.host_abi.call_host_function("alloc", argv.as_slice()) {
                            Ok(v) => {
                                frame.set_value(dest, v);
                                Ok(())
                            }
                            Err(e) => Err(VMError::HostCallError(e)),
                        }
                    }
                    _ => Err(VMError::TypeMismatch {
                        expected: Type::Usize,
                        actual: size_val.get_type(),
                        context: "alloc instruction size parameter".to_owned(),
                    }),
                }
            }
            Instruction::Free { ptr } => {
                let ptr = *ptr;
                let ptr_val = match frame.get_value(ptr) {
                    Ok(v) => v,
                    Err(e) => {
                        return Err(e);
                    }
                };
                match ptr_val {
                    RuntimeValue::Usize(_) => {
                        let mut argv: Vec<RuntimeValue> = Vec::new();
                        argv.push(ptr_val);
                        match self.host_abi.call_host_function("free", argv.as_slice()) {
                            Ok(_) => Ok(()),
                            Err(e) => Err(VMError::HostCallError(e)),
                        }
                    }
                    _ => Err(VMError::TypeMismatch {
                        expected: Type::Usize,
                        actual: ptr_val.get_type(),
                        context: "free instruction pointer parameter".to_owned(),
                    }),
                }
            }
            Instruction::Call { dest, function, args, return_type: _ } => {
                let dest = *dest;
                let fname: String = function.clone();
                let arg_ids = copy_ids(args);
                if dest.0 == usize::MAX {
                    return Err(VMError::InvalidInstruction("value id out of range".to_owned()));
                }
                let vals = match Self::resolve_args(frame, &arg_ids) {
                    Ok(vs) => vs,
                    Err(e) => {
                        return Err(e);
                    }
                };
                if self.host_abi.has_function(fname.as_str()) {
                    match self.host_abi.call_host_function(fname.as_str(), vals.as_slice()) {
                        Ok(v) => {
                            frame.set_value(dest, v);
                            Ok(())
                        }
                        Err(e) => Err(VMError::HostCallError(e)),
                    }
                } else {
                    match self.call_at_depth(fname.as_str(), vals, depth + 1) {
                        Ok(v) => {
                            frame.set_value(dest, v);
                            Ok(())
                        }
                        Err(e) => Err(e),
                    }
                }
            }
            Instruction::CallVoid { function, args } => {
                let fname: String = function.clone();
                let arg_ids = copy_ids(args);
                let vals = match Self::resolve_args(frame, &arg_ids) {
                    Ok(vs) => vs,
                    Err(e) => {
                        return Err(e);
                    }
                };
                if self.host_abi.has_function(fname.as_str()) {
                    match self.host_abi.call_host_function(fname.as_str(), vals.as_slice()) {
                        Ok(_) => Ok(()),
                        Err(e) => Err(VMError::HostCallError(e)),
                    }
                } else {
                    match self.call_at_depth(fname.as_str(), vals, depth + 1) {
                        Ok(_) => Ok(()),
                        Err(e) => Err(e),
                    }
                }
            }
        }
    }
}

/// The error cases a call pins down, in the order the interpreter checks
/// them: unknown name, wrong argument count, exhausted depth, a function
/// without blocks, a wrongly typed argument.  When every check passes the
/// outcome is whatever the program computes.
pub open spec fn spec_call_outcome(program: Program, max_depth: int, depth: int,
    name: Seq<char>, args: Seq<RuntimeValue>, r: VMResult<RuntimeValue>) -> bool
{
    match spec_find_function(program.functions@, name) {
        None => r matches Err(VMError::FunctionNotFound(n)) && n@ == name,
        Some(i) => {
            let f = program.functions@[i];
            if args.len() != f.params@.len() {
                r matches Err(VMError::InvalidInstruction(_))
            } else if depth >= max_depth {
                r == Err::<RuntimeValue, VMError>(VMError::StackOverflow)
            } else if f.blocks@.len() == 0 {
                r matches Err(VMError::InvalidInstruction(_))
            } else if exists|j: int| 0 <= j < args.len()
                && spec_value_type(args[j]) != f.params@[j] {
                r matches Err(VMError::TypeMismatch { .. })
            } else {
                true
            }
        }
    }
}

/// Type preservation for binary operations: whenever an operation
/// evaluates, the value it produces carries the static result type the
/// IR assigns it — `i32` for a comparison, the operand type otherwise.
pub proof fn lemma_binary_type_preservation(op: BinaryOperator, a: RuntimeValue, b: RuntimeValue)
    ensures
        spec_eval_binary(op, a, b) matches Some(v)
            ==> spec_value_type(v)
                == crate::ir::spec_binary_result_type(op, spec_value_type(a)),
{
}

/// Type preservation for unary operations: the produced value keeps the
/// operand's type.
pub proof fn lemma_unary_type_preservation(op: UnaryOperator, a: RuntimeValue)
    ensures
        spec_eval_unary(op, a) matches Some(v)
            ==> spec_value_type(v) == spec_value_type(a),
{
}

/// Type preservation for conversions: the produced value carries exactly
/// the declared target type.
pub proof fn lemma_convert_type_preservation(from_ty: Type, to_ty: Type, v: RuntimeValue)
    ensures
        spec_eval_convert(from_ty, to_ty, v) matches Some(v2)
            ==> spec_value_type(v2) == to_ty,
{
}

/// Comparisons always produce the `i32` values 0 or 1, whatever the
/// operand type.
pub proof fn lemma_comparison_yields_flag(op: BinaryOperator, a: RuntimeValue, b: RuntimeValue)
    requires
        crate::ir::spec_is_comparison(op),
    ensures
        spec_eval_binary(op, a, b) matches Some(v)
            ==> v == RuntimeValue::I32(0) || v == RuntimeValue::I32(1),
{
}

/// Pointer arithmetic associativity: offsetting a pointer twice equals
/// offsetting it once by the wrapped sum of the offsets.
pub proof fn lemma_ptr_add_associative(p: usize, a: usize, b: usize)
    ensures
        spec_eval_binary(
            BinaryOperator::Add,
            RuntimeValue::Usize(vstd::wrapping::usize_specs::wrapping_add(p, a)),
            RuntimeValue::Usize(b),
        ) == spec_eval_binary(
            BinaryOperator::Add,
            RuntimeValue::Usize(p),
            RuntimeValue::Usize(vstd::wrapping::usize_specs::wrapping_add(a, b)),
        ),
{
}

} // verus!
