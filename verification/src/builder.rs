//! A programmatic IR builder: a typed Rust API to construct IR directly,
//! without going through the parser.
//!
//! A `FunctionBuilder` owns the function under construction;
//! `ProgramBuilder::function_builder` hands the stored function out and
//! `store_function` puts the finished body back.

use vstd::prelude::*;
use crate::ast::Type;
use crate::ir::{
    BasicBlock, BinaryOperator, BlockId, Function, ImportDecl, Instruction, Program, Terminator,
    ValueId,
};

verus! {

/// Builder for one function's blocks and instructions.
pub struct FunctionBuilder {
    pub func: Function,
    pub current_block: Option<usize>,
    pub index: usize,
}

/// Whether the builder can append an instruction: a current block is
/// selected and the value counter has room.
pub open spec fn spec_can_build(b: FunctionBuilder) -> bool {
    (b.current_block matches Some(i) && i < b.func.blocks@.len())
        && b.func.next_value_id.0 < usize::MAX
}

impl FunctionBuilder {
    /// Start building into the given function.
    pub fn new(func: Function) -> (b: FunctionBuilder)
        ensures
            b.func == func,
            b.current_block is None,
    {
        FunctionBuilder { func, current_block: None, index: 0 }
    }

    /// Switch insertion to the given block.
    pub fn switch_to_block(&mut self, block: BlockId)
        requires
            block.0 < old(self).func.blocks@.len(),
        ensures
            final(self).func == old(self).func,
            final(self).current_block == Some(block.0),
            final(self).index == old(self).index,
    {
        self.current_block = Some(block.index());
    }

    /// The block currently being built, if any.
    pub fn current_block(&self) -> (r: Option<BlockId>)
        ensures
            match self.current_block {
                Some(i) => r == Some(BlockId(i)),
                None => r is None,
            },
    {
        match self.current_block {
            Some(i) => Some(BlockId::new(i)),
            None => None,
        }
    }

    /// Create a new block labelled `label`; its id is its index in the
    /// function's block list.
    pub fn create_block(&mut self, label: &str) -> (r: BlockId)
        ensures
            r.0 == old(self).func.blocks@.len(),
            final(self).func.blocks@.len() == old(self).func.blocks@.len() + 1,
            final(self).func.blocks@.last().id == r,
            final(self).func.blocks@.last().label@ == label@,
            final(self).func.next_value_id == old(self).func.next_value_id,
            final(self).current_block == old(self).current_block,
            final(self).index == old(self).index,
            forall|j: int| 0 <= j < old(self).func.blocks@.len()
                ==> final(self).func.blocks@[j] == old(self).func.blocks@[j],
    {
        let block_id = BlockId::new(self.func.blocks.len());
        let block = BasicBlock::new(block_id, label.to_owned());
        self.func.blocks.push(block);
        block_id
    }

    /// Append a typed parameter to the given block, returning its value
    /// id.
    pub fn add_block_param(&mut self, block: BlockId, ty: Type) -> (r: ValueId)
        requires
            old(self).func.next_value_id.0 < usize::MAX,
        ensures
            r == old(self).func.next_value_id,
            final(self).func.next_value_id.0 == old(self).func.next_value_id.0 + 1,
            block.0 < old(self).func.blocks@.len()
                ==> final(self).func.blocks@[block.0 as int].params@
                    == old(self).func.blocks@[block.0 as int].params@.push((r, ty)),
    {
        let value_id = self.func.next_value();
        let bi = block.index();
        if bi < self.func.blocks.len() {
            let mut b = BasicBlock::new(BlockId(0), String::new());
            vstd::pervasive::VecAdditionalExecFns::set_and_swap(
                &mut self.func.blocks, bi, &mut b);
            b.params.push((value_id, ty));
            vstd::pervasive::VecAdditionalExecFns::set_and_swap(
                &mut self.func.blocks, bi, &mut b);
            proof {
                assert(self.func.blocks@[bi as int].params@
                    =~= old(self).func.blocks@[bi as int].params@.push((value_id, ty)));
            }
        }
        value_id
    }

    /// Fluent access to the instruction-building methods.
    pub fn ins(&mut self) -> (r: InstructionBuilder<'_>)
        ensures
            *r == *old(self),
            *final(self) == *final(r),
    {
        self
    }

    /// Append an instruction to the current block.
    fn add_instruction(&mut self, instr: Instruction)
        requires
            old(self).current_block matches Some(i) && i < old(self).func.blocks@.len(),
        ensures
            final(self).current_block == old(self).current_block,
            final(self).index == old(self).index,
            final(self).func.next_value_id == old(self).func.next_value_id,
            final(self).func.constants == old(self).func.constants,
            final(self).func.blocks@.len() == old(self).func.blocks@.len(),
            (old(self).current_block matches Some(i)
                ==> final(self).func.blocks@[i as int].instructions@
                    == old(self).func.blocks@[i as int].instructions@.push(instr)),
    {
        let bi = match self.current_block {
            Some(i) => i,
            None => 0,
        };
        let mut b = BasicBlock::new(BlockId(0), String::new());
        vstd::pervasive::VecAdditionalExecFns::set_and_swap(&mut self.func.blocks, bi, &mut b);
        b.instructions.push(instr);
        vstd::pervasive::VecAdditionalExecFns::set_and_swap(&mut self.func.blocks, bi, &mut b);
        proof {
            assert(self.func.blocks@[bi as int].instructions@
                =~= old(self).func.blocks@[bi as int].instructions@.push(instr));
        }
    }

    /// Set the current block's terminator.
    pub fn set_terminator(&mut self, terminator: Terminator)
        requires
            old(self).current_block matches Some(i) && i < old(self).func.blocks@.len(),
        ensures
            final(self).current_block == old(self).current_block,
            (old(self).current_block matches Some(i)
                ==> final(self).func.blocks@[i as int].terminator == terminator),
    {
        let bi = match self.current_block {
            Some(i) => i,
            None => 0,
        };
        let mut b = BasicBlock::new(BlockId(0), String::new());
        vstd::pervasive::VecAdditionalExecFns::set_and_swap(&mut self.func.blocks, bi, &mut b);
        b.terminator = terminator;
        vstd::pervasive::VecAdditionalExecFns::set_and_swap(&mut self.func.blocks, bi, &mut b);
    }

    /// Append a call instruction; its destination is the next value id.
    pub fn call(&mut self, func_name: &str, args: Vec<ValueId>, return_type: Type)
        -> (r: ValueId)
        requires
            spec_can_build(*old(self)),
        ensures
            r == old(self).func.next_value_id,
            old(self).current_block matches Some(i) ==> (
                final(self).func.blocks@[i as int].instructions@.len()
                    == old(self).func.blocks@[i as int].instructions@.len() + 1
                && (final(self).func.blocks@[i as int].instructions@.last()
                    matches Instruction::Call { dest, function, args: a2, return_type: rt }
                    && dest == r && function@ == func_name@ && a2@ == args@
                    && rt == return_type)),
    {
        let dest = self.func.next_value();
        self.add_instruction(Instruction::Call {
            dest,
            function: func_name.to_owned(),
            args,
            return_type,
        });
        dest
    }

    /// Append a void call instruction.
    pub fn call_void(&mut self, func_name: &str, args: Vec<ValueId>)
        requires
            spec_can_build(*old(self)),
        ensures
            old(self).current_block matches Some(i) ==> (
                final(self).func.blocks@[i as int].instructions@.len()
                    == old(self).func.blocks@[i as int].instructions@.len() + 1
                && (final(self).func.blocks@[i as int].instructions@.last()
                    matches Instruction::CallVoid { function, args: a2 }
                    && function@ == func_name@ && a2@ == args@)),
    {
        self.add_instruction(Instruction::CallVoid { function: func_name.to_owned(), args });
    }

    /// Append an `i32` constant, recording it in the constants table.
    pub fn const_i32(&mut self, value: i32) -> (r: ValueId)
        requires
            spec_can_build(*old(self)),
        ensures
            r == old(self).func.next_value_id,
            old(self).current_block matches Some(i) ==> (
                final(self).func.blocks@[i as int].instructions@.len()
                    == old(self).func.blocks@[i as int].instructions@.len() + 1
                && (final(self).func.blocks@[i as int].instructions@.last()
                    == (Instruction::Const { dest: r, value: value as i64, ty: Type::I32 }))),
    {
        let dest = self.func.next_value();
        self.func.constants.push((dest, value as i64, Type::I32));
        self.add_instruction(Instruction::Const { dest, value: value as i64, ty: Type::I32 });
        dest
    }

    /// Append an `i64` constant, recording it in the constants table.
    pub fn const_i64(&mut self, value: i64) -> (r: ValueId)
        requires
            spec_can_build(*old(self)),
        ensures
            r == old(self).func.next_value_id,
            old(self).current_block matches Some(i) ==> (
                final(self).func.blocks@[i as int].instructions@.len()
                    == old(self).func.blocks@[i as int].instructions@.len() + 1
                && (final(self).func.blocks@[i as int].instructions@.last()
                    == (Instruction::Const { dest: r, value, ty: Type::I64 }))),
    {
        let dest = self.func.next_value();
        self.func.constants.push((dest, value, Type::I64));
        self.add_instruction(Instruction::Const { dest, value, ty: Type::I64 });
        dest
    }

    /// Append a `usize` constant, recording it in the constants table.
    pub fn const_usize(&mut self, value: usize) -> (r: ValueId)
        requires
            spec_can_build(*old(self)),
        ensures
            r == old(self).func.next_value_id,
            old(self).current_block matches Some(i) ==> (
                final(self).func.blocks@[i as int].instructions@.len()
                    == old(self).func.blocks@[i as int].instructions@.len() + 1
                && (final(self).func.blocks@[i as int].instructions@.last()
                    matches Instruction::Const { dest, value: _, ty } && dest == r
                    && ty == Type::Usize)),
    {
        let dest = self.func.next_value();
        let wide: i64 = #[verifier::truncate] (value as i64);
        self.func.constants.push((dest, wide, Type::Usize));
        self.add_instruction(Instruction::Const { dest, value: wide, ty: Type::Usize });
        dest
    }

    /// Append a binary operation.
    pub fn binary_op(&mut self, op: BinaryOperator, ty: Type, lhs: ValueId, rhs: ValueId)
        -> (r: ValueId)
        requires
            spec_can_build(*old(self)),
        ensures
            r == old(self).func.next_value_id,
            old(self).current_block matches Some(i) ==> (
                final(self).func.blocks@[i as int].instructions@.len()
                    == old(self).func.blocks@[i as int].instructions@.len() + 1
                && (final(self).func.blocks@[i as int].instructions@.last()
                    == (Instruction::BinaryOp { dest: r, op, ty, lhs, rhs }))),
    {
        let dest = self.func.next_value();
        self.add_instruction(Instruction::BinaryOp { dest, op, ty, lhs, rhs });
        dest
    }

    /// Append an addition.
    pub fn add(&mut self, ty: Type, lhs: ValueId, rhs: ValueId) -> (r: ValueId)
        requires
            spec_can_build(*old(self)),
        ensures
            r == old(self).func.next_value_id,
            old(self).current_block matches Some(i) ==> (
                final(self).func.blocks@[i as int].instructions@.last()
                    == (Instruction::BinaryOp { dest: r, op: BinaryOperator::Add, ty,
                        lhs, rhs })),
    {
        self.binary_op(BinaryOperator::Add, ty, lhs, rhs)
    }

    /// Append a subtraction.
    pub fn sub(&mut self, ty: Type, lhs: ValueId, rhs: ValueId) -> (r: ValueId)
        requires
            spec_can_build(*old(self)),
        ensures
            r == old(self).func.next_value_id,
            old(self).current_block matches Some(i) ==> (
                final(self).func.blocks@[i as int].instructions@.last()
                    == (Instruction::BinaryOp { dest: r, op: BinaryOperator::Sub, ty,
                        lhs, rhs })),
    {
        self.binary_op(BinaryOperator::Sub, ty, lhs, rhs)
    }

    /// Append a multiplication.
    pub fn mul(&mut self, ty: Type, lhs: ValueId, rhs: ValueId) -> (r: ValueId)
        requires
            spec_can_build(*old(self)),
        ensures
            r == old(self).func.next_value_id,
            old(self).current_block matches Some(i) ==> (
                final(self).func.blocks@[i as int].instructions@.last()
                    == (Instruction::BinaryOp { dest: r, op: BinaryOperator::Mul, ty,
                        lhs, rhs })),
    {
        self.binary_op(BinaryOperator::Mul, ty, lhs, rhs)
    }

    /// Append an equality comparison; it produces an `i32`.
    pub fn cmp_eq(&mut self, ty: Type, lhs: ValueId, rhs: ValueId) -> (r: ValueId)
        requires
            spec_can_build(*old(self)),
        ensures
            r == old(self).func.next_value_id,
            old(self).current_block matches Some(i) ==> (
                final(self).func.blocks@[i as int].instructions@.last()
                    == (Instruction::BinaryOp { dest: r, op: BinaryOperator::Eq, ty,
                        lhs, rhs })),
    {
        self.binary_op(BinaryOperator::Eq, ty, lhs, rhs)
    }

    /// Append a signed less-than comparison; it produces an `i32`.
    pub fn cmp_lt(&mut self, ty: Type, lhs: ValueId, rhs: ValueId) -> (r: ValueId)
        requires
            spec_can_build(*old(self)),
        ensures
            r == old(self).func.next_value_id,
            old(self).current_block matches Some(i) ==> (
                final(self).func.blocks@[i as int].instructions@.last()
                    == (Instruction::BinaryOp { dest: r, op: BinaryOperator::Lt, ty,
                        lhs, rhs })),
    {
        self.binary_op(BinaryOperator::Lt, ty, lhs, rhs)
    }

    /// Set a `ret` terminator.
    pub fn ret(&mut self, value: Option<ValueId>)
        requires
            old(self).current_block matches Some(i) && i < old(self).func.blocks@.len(),
        ensures
            old(self).current_block matches Some(i)
                ==> final(self).func.blocks@[i as int].terminator
                    == (Terminator::Ret { value }),
    {
        self.set_terminator(Terminator::Ret { value });
    }

    /// Set a conditional branch without block arguments.
    pub fn br_if(&mut self, condition: ValueId, then_block: BlockId, else_block: BlockId)
        requires
            old(self).current_block matches Some(i) && i < old(self).func.blocks@.len(),
        ensures
            old(self).current_block matches Some(i) ==> (
                final(self).func.blocks@[i as int].terminator
                    matches Terminator::BrIf { cond, true_target, true_args,
                        false_target, false_args }
                    && cond == condition && true_target == then_block
                    && false_target == else_block
                    && true_args@.len() == 0 && false_args@.len() == 0),
    {
        self.set_terminator(Terminator::BrIf {
            cond: condition,
            true_target: then_block,
            true_args: Vec::new(),
            false_target: else_block,
            false_args: Vec::new(),
        });
    }

    /// Set an unconditional jump without block arguments.
    pub fn jump(&mut self, target: BlockId)
        requires
            old(self).current_block matches Some(i) && i < old(self).func.blocks@.len(),
        ensures
            old(self).current_block matches Some(i) ==> (
                final(self).func.blocks@[i as int].terminator
                    matches Terminator::Br { target: t2, args }
                    && t2 == target && args@.len() == 0),
    {
        self.set_terminator(Terminator::Br { target, args: Vec::new() });
    }

    /// Append a pointer addition.
    pub fn ptr_add(&mut self, ptr: ValueId, offset: ValueId) -> (r: ValueId)
        requires
            spec_can_build(*old(self)),
        ensures
            r == old(self).func.next_value_id,
            old(self).current_block matches Some(i) ==> (
                final(self).func.blocks@[i as int].instructions@.len()
                    == old(self).func.blocks@[i as int].instructions@.len() + 1
                && (final(self).func.blocks@[i as int].instructions@.last()
                    == (Instruction::PtrAdd { dest: r, ptr, offset }))),
    {
        let dest = self.func.next_value();
        self.add_instruction(Instruction::PtrAdd { dest, ptr, offset });
        dest
    }

    /// Append a `sizeof` instruction.
    pub fn size_of(&mut self, ty: Type) -> (r: ValueId)
        requires
            spec_can_build(*old(self)),
        ensures
            r == old(self).func.next_value_id,
            old(self).current_block matches Some(i) ==> (
                final(self).func.blocks@[i as int].instructions@.len()
                    == old(self).func.blocks@[i as int].instructions@.len() + 1
                && (final(self).func.blocks@[i as int].instructions@.last()
                    == (Instruction::SizeOf { dest: r, ty }))),
    {
        let dest = self.func.next_value();
        self.add_instruction(Instruction::SizeOf { dest, ty });
        dest
    }

    /// Append an allocation.
    pub fn allocate(&mut self, size: ValueId) -> (r: ValueId)
        requires
            spec_can_build(*old(self)),
        ensures
            r == old(self).func.next_value_id,
            old(self).current_block matches Some(i) ==> (
                final(self).func.blocks@[i as int].instructions@.len()
                    == old(self).func.blocks@[i as int].instructions@.len() + 1
                && (final(self).func.blocks@[i as int].instructions@.last()
                    == (Instruction::Alloc { dest: r, size }))),
    {
        let dest = self.func.next_value();
        self.add_instruction(Instruction::Alloc { dest, size });
        dest
    }

    /// Append a deallocation.
    pub fn free(&mut self, ptr: ValueId)
        requires
            spec_can_build(*old(self)),
        ensures
            old(self).current_block matches Some(i) ==> (
                final(self).func.blocks@[i as int].instructions@.len()
                    == old(self).func.blocks@[i as int].instructions@.len() + 1
                && final(self).func.blocks@[i as int].instructions@.last()
                    == (Instruction::Free { ptr })),
    {
        self.add_instruction(Instruction::Free { ptr });
    }

    /// Append a load.
    pub fn load(&mut self, ty: Type, address: ValueId) -> (r: ValueId)
        requires
            spec_can_build(*old(self)),
        ensures
            r == old(self).func.next_value_id,
            old(self).current_block matches Some(i) ==> (
                final(self).func.blocks@[i as int].instructions@.len()
                    == old(self).func.blocks@[i as int].instructions@.len() + 1
                && (final(self).func.blocks@[i as int].instructions@.last()
                    == (Instruction::Load { dest: r, ty, address }))),
    {
        let dest = self.func.next_value();
        self.add_instruction(Instruction::Load { dest, ty, address });
        dest
    }

    /// Append a store.
    pub fn store(&mut self, address: ValueId, value: ValueId, ty: Type)
        requires
            spec_can_build(*old(self)),
        ensures
            old(self).current_block matches Some(i) ==> (
                final(self).func.blocks@[i as int].instructions@.len()
                    == old(self).func.blocks@[i as int].instructions@.len() + 1
                && final(self).func.blocks@[i as int].instructions@.last()
                    == (Instruction::Store { address, value, ty })),
    {
        self.add_instruction(Instruction::Store { address, value, ty });
    }
}

/// The fluent instruction-building view of a `FunctionBuilder`.
pub type InstructionBuilder<'a> = &'a mut FunctionBuilder;

/// Builder for a whole program: imports plus functions.
pub struct ProgramBuilder {
    pub program: Program,
}

impl ProgramBuilder {
    /// An empty program.
    pub fn new() -> (b: ProgramBuilder)
        ensures
            b.program.imports@.len() == 0,
            b.program.functions@.len() == 0,
    {
        ProgramBuilder { program: Program { imports: Vec::new(), functions: Vec::new() } }
    }

    /// Register an import with no calling-convention tag.
    pub fn add_import(&mut self, module: &str, name: &str, params: Vec<Type>, return_type: Type)
        ensures
            final(self).program.functions == old(self).program.functions,
            final(self).program.imports@.len() == old(self).program.imports@.len() + 1,
            final(self).program.imports@.last().name@ == name@,
            final(self).program.imports@.last().module@ == module@,
            final(self).program.imports@.last().return_type == return_type,
    {
        self.program.imports.push(ImportDecl {
            module: module.to_owned(),
            name: name.to_owned(),
            calling_convention: None,
            params,
            return_type,
        });
    }

    /// Register an import with an optional calling-convention tag.
    pub fn add_import_with_cc(&mut self, module: &str, name: &str,
        calling_convention: Option<String>, params: Vec<Type>, return_type: Type)
        ensures
            final(self).program.functions == old(self).program.functions,
            final(self).program.imports@.len() == old(self).program.imports@.len() + 1,
            final(self).program.imports@.last().name@ == name@,
    {
        self.program.imports.push(ImportDecl {
            module: module.to_owned(),
            name: name.to_owned(),
            calling_convention,
            params,
            return_type,
        });
    }

    /// Create an empty function and return its index for later use.
    pub fn create_function(&mut self, name: &str, params: Vec<Type>, return_type: Type)
        -> (r: usize)
        ensures
            r == old(self).program.functions@.len(),
            final(self).program.imports == old(self).program.imports,
            final(self).program.functions@.len() == old(self).program.functions@.len() + 1,
            final(self).program.functions@.last().name@ == name@,
            final(self).program.functions@.last().return_type == return_type,
    {
        let func = Function::new(name.to_owned(), params, return_type);
        let index = self.program.functions.len();
        self.program.functions.push(func);
        index
    }

    /// Take the function at `function_index` out for body-building; a
    /// placeholder stands in until `store_function` puts it back.
    pub fn function_builder(&mut self, function_index: usize) -> (fb: FunctionBuilder)
        requires
            function_index < old(self).program.functions@.len(),
        ensures
            fb.func == old(self).program.functions@[function_index as int],
            fb.index == function_index,
            fb.current_block is None,
            final(self).program.functions@.len() == old(self).program.functions@.len(),
            final(self).program.imports == old(self).program.imports,
    {
        let mut placeholder = Function::new(String::new(), Vec::new(), Type::Void);
        vstd::pervasive::VecAdditionalExecFns::set_and_swap(
            &mut self.program.functions, function_index, &mut placeholder);
        FunctionBuilder { func: placeholder, current_block: None, index: function_index }
    }

    /// Put a finished function body back where `function_builder` took it
    /// from.
    pub fn store_function(&mut self, fb: FunctionBuilder)
        requires
            fb.index < old(self).program.functions@.len(),
        ensures
            final(self).program.functions@ == old(self).program.functions@.update(
                fb.index as int, fb.func),
            final(self).program.imports == old(self).program.imports,
    {
        let FunctionBuilder { func, current_block: _, index } = fb;
        self.program.functions[index] = func;
    }

    /// Finalize and return the built program.
    pub fn build(self) -> (r: Program)
        ensures
            r == self.program,
    {
        self.program
    }
}

} // verus!
