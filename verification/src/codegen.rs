//! The native back end's front half: IR to a code-generator program.
//!
//! Every decision of native-code emission is made here: which
//! machine-level instruction each IR instruction becomes, how block
//! parameters and forward branches are wired, and how constants are
//! materialized anew in each use site.  The output is a linear emission
//! plan — declarations, blocks, and steps with symbolic value numbers in
//! emission order — which a thin embedder replays against the actual
//! code generator to obtain native code.

use vstd::prelude::*;
use crate::ast::Type;
use crate::ir::{
    spec_is_comparison, BinaryOperator, BlockId, Function, Instruction, Program, Terminator,
    UnaryOperator, ValueId,
};
use crate::vm::{spec_type_size, type_size};

verus! {

/// Machine value types of the code generator.
#[derive(Debug, Clone, Copy, PartialEq, Eq, Structural)]
pub enum CodegenType {
    I8,
    I32,
    I64,
    F32,
    F64,
}

/// A symbolic machine value: its index in emission order.
#[derive(Debug, Clone, Copy, PartialEq, Eq, Structural)]
pub struct CodegenValue(pub usize);

/// Signed integer comparison conditions.
#[derive(Debug, Clone, Copy, PartialEq, Eq, Structural)]
pub enum IntCondition {
    Equal,
    NotEqual,
    SignedLessThan,
    SignedLessThanOrEqual,
    SignedGreaterThan,
    SignedGreaterThanOrEqual,
}

/// One emission step.  Every step except `Store` and a resultless `Call`
/// produces exactly one new machine value, numbered in emission order
/// after all block parameters.
#[derive(Debug, Clone, PartialEq)]
pub enum CodegenStep {
    IConst { ty: CodegenType, value: i64 },
    IAdd { a: CodegenValue, b: CodegenValue },
    ISub { a: CodegenValue, b: CodegenValue },
    IMul { a: CodegenValue, b: CodegenValue },
    SDiv { a: CodegenValue, b: CodegenValue },
    SRem { a: CodegenValue, b: CodegenValue },
    BAnd { a: CodegenValue, b: CodegenValue },
    BOr { a: CodegenValue, b: CodegenValue },
    BXor { a: CodegenValue, b: CodegenValue },
    IShl { a: CodegenValue, b: CodegenValue },
    SShr { a: CodegenValue, b: CodegenValue },
    /// An integer comparison; its boolean result is widened by the
    /// following `UExtendI32` so that the value matches the IR rule that
    /// comparisons produce `i32`.
    ICmp { cc: IntCondition, a: CodegenValue, b: CodegenValue },
    UExtendI32 { a: CodegenValue },
    INeg { a: CodegenValue },
    BNot { a: CodegenValue },
    SExtendI64 { a: CodegenValue },
    IReduceI32 { a: CodegenValue },
    Load { ty: CodegenType, addr: CodegenValue },
    Store { value: CodegenValue, addr: CodegenValue },
    /// A direct call of the declaration at `callee`; produces a value
    /// exactly when `has_result`.
    CallFn { callee: usize, args: Vec<CodegenValue>, has_result: bool },
}

/// Whether a step produces a machine value.
pub open spec fn spec_step_has_result(s: CodegenStep) -> bool {
    match s {
        CodegenStep::Store { .. } => false,
        CodegenStep::CallFn { has_result, .. } => has_result,
        _ => true,
    }
}

/// A block terminator in the emission plan; targets are block indices.
#[derive(Debug, Clone, PartialEq)]
pub enum CodegenTerminator {
    Return { value: Option<CodegenValue> },
    Jump { target: usize, args: Vec<CodegenValue> },
    Branch {
        cond: CodegenValue,
        true_target: usize,
        true_args: Vec<CodegenValue>,
        false_target: usize,
        false_args: Vec<CodegenValue>,
    },
}

/// One code-generator block: its parameter types, its steps in order,
/// and its terminator.
#[derive(Debug, Clone, PartialEq)]
pub struct CodegenBlock {
    pub params: Vec<CodegenType>,
    pub steps: Vec<CodegenStep>,
    pub terminator: CodegenTerminator,
}

/// One declared function: name, signature, and whether it is an external
/// import (versus a local definition).
#[derive(Debug, Clone, PartialEq)]
pub struct CodegenDecl {
    pub name: String,
    pub params: Vec<CodegenType>,
    pub ret: Option<CodegenType>,
    pub imported: bool,
}

/// One translated function body: the declaration it defines, its blocks,
/// and the parameter types appended to the entry block when the IR's
/// entry carried none of its own (manually built IR may omit them).
#[derive(Debug, Clone, PartialEq)]
pub struct CodegenFunction {
    pub decl_index: usize,
    pub blocks: Vec<CodegenBlock>,
    pub entry_fixup_params: Vec<CodegenType>,
}

/// A whole emission plan: every import and local function declared, then
/// each local function's body.
#[derive(Debug, Clone, PartialEq)]
pub struct CodegenModule {
    pub decls: Vec<CodegenDecl>,
    pub functions: Vec<CodegenFunction>,
}

/// The machine type each IR type occupies: `usize` is the pointer-width
/// integer, and `void` gets a placeholder byte.
pub open spec fn spec_translate_type(ty: Type) -> CodegenType {
    match ty {
        Type::I32 => CodegenType::I32,
        Type::I64 => CodegenType::I64,
        Type::F32 => CodegenType::F32,
        Type::F64 => CodegenType::F64,
        Type::Usize => if crate::vm::spec_usize_bytes() == 8 {
            CodegenType::I64
        } else {
            CodegenType::I32
        },
        Type::Void => CodegenType::I8,
    }
}

/// Map an IR type to its machine type.
pub fn translate_type(ty: Type) -> (r: CodegenType)
    ensures
        r == spec_translate_type(ty),
{
    match ty {
        Type::I32 => CodegenType::I32,
        Type::I64 => CodegenType::I64,
        Type::F32 => CodegenType::F32,
        Type::F64 => CodegenType::F64,
        Type::Usize => {
            if crate::vm::usize_bytes() == 8 {
                CodegenType::I64
            } else {
                CodegenType::I32
            }
        }
        Type::Void => CodegenType::I8,
    }
}

/// Copy a vector of machine types.
fn copy_cg_types(v: &Vec<CodegenType>) -> (r: Vec<CodegenType>)
    ensures
        r@ == v@,
{
    let n: usize = v.len();
    let mut r: Vec<CodegenType> = Vec::new();
    let mut i: usize = 0;
    while i < n
        invariant
            n == v@.len(),
            i <= n,
            r@ =~= v@.subrange(0, i as int),
        decreases n - i,
    {
        r.push(v[i]);
        proof {
            assert(r@ =~= v@.subrange(0, i + 1));
        }
        i = i + 1;
    }
    proof {
        assert(v@.subrange(0, n as int) =~= v@);
    }
    r
}

/// The index of the first declaration with the given name.
pub open spec fn spec_find_decl(decls: Seq<CodegenDecl>, name: Seq<char>) -> Option<int>
    decreases decls.len(),
{
    if decls.len() == 0 {
        None
    } else if decls[0].name@ == name {
        Some(0)
    } else {
        match spec_find_decl(decls.drop_first(), name) {
            Some(i) => Some(i + 1),
            None => None,
        }
    }
}

proof fn lemma_find_decl_first(decls: Seq<CodegenDecl>, name: Seq<char>, i: int)
    requires
        0 <= i <= decls.len(),
        forall|j: int| 0 <= j < i ==> decls[j].name@ != name,
    ensures
        i < decls.len() && decls[i].name@ == name ==> spec_find_decl(decls, name) == Some(i),
        i == decls.len() ==> spec_find_decl(decls, name) is None,
    decreases decls.len(),
{
    if decls.len() == 0 {
    } else if i == 0 {
    } else {
        let rest = decls.drop_first();
        assert(forall|j: int| 0 <= j < i - 1 ==> rest[j] == decls[j + 1]);
        lemma_find_decl_first(rest, name, i - 1);
        if i < decls.len() && decls[i].name@ == name {
            assert(rest[i - 1] == decls[i]);
        }
    }
}

fn find_decl(decls: &Vec<CodegenDecl>, name: &str) -> (r: Option<usize>)
    ensures
        match r {
            Some(c) => spec_find_decl(decls@, name@) == Some(c as int)
                && c < decls@.len(),
            None => spec_find_decl(decls@, name@) is None,
        },
{
    let n: usize = decls.len();
    let mut i: usize = 0;
    while i < n
        invariant
            n == decls@.len(),
            i <= n,
            forall|j: int| 0 <= j < i ==> decls@[j].name@ != name@,
        decreases n - i,
    {
        if crate::text::str_eq(decls[i].name.as_str(), name) {
            proof {
                lemma_find_decl_first(decls@, name@, i as int);
            }
            return Some(i);
        }
        i = i + 1;
    }
    proof {
        lemma_find_decl_first(decls@, name@, n as int);
    }
    None
}

/// The first machine value bound to an IR id, if any.
pub open spec fn spec_vm_lookup(vm: Seq<(ValueId, usize)>, id: ValueId) -> Option<usize>
    decreases vm.len(),
{
    if vm.len() == 0 {
        None
    } else if vm[0].0 == id {
        Some(vm[0].1)
    } else {
        spec_vm_lookup(vm.drop_first(), id)
    }
}

proof fn lemma_vm_lookup_first(vm: Seq<(ValueId, usize)>, id: ValueId, i: int)
    requires
        0 <= i <= vm.len(),
        forall|j: int| 0 <= j < i ==> (#[trigger] vm[j]).0 != id,
    ensures
        i < vm.len() && vm[i].0 == id ==> spec_vm_lookup(vm, id) == Some(vm[i].1),
        i == vm.len() ==> spec_vm_lookup(vm, id) is None,
    decreases vm.len(),
{
    if vm.len() == 0 {
    } else if i == 0 {
    } else {
        let rest = vm.drop_first();
        assert(forall|j: int| 0 <= j < i - 1 ==> (#[trigger] rest[j]) == vm[j + 1]);
        lemma_vm_lookup_first(rest, id, i - 1);
        if i < vm.len() && vm[i].0 == id {
            assert(rest[i - 1] == vm[i]);
        }
    }
}

/// Whether an operand id can be resolved: bound in the value map, or
/// present in the constants table.
pub open spec fn spec_operand_known(t: Translator, f: Function, id: ValueId) -> bool {
    spec_vm_lookup(t.value_map@, id) is Some
        || crate::ir::spec_const_lookup(f.constants@, id) is Some
}

/// Whether translating the instruction is guaranteed to succeed: every
/// operand resolves, any callee is declared, the conversion pair is
/// supported, and the emission counter has room.
pub open spec fn spec_translate_ready(t: Translator, f: Function,
    decls: Seq<CodegenDecl>, instr: Instruction) -> bool
{
    match instr {
        Instruction::Const { .. } => t.next_value + 1 <= usize::MAX,
        Instruction::SizeOf { .. } => t.next_value + 1 <= usize::MAX,
        Instruction::BinaryOp { lhs, rhs, .. } => t.next_value + 4 <= usize::MAX
            && spec_operand_known(t, f, lhs) && spec_operand_known(t, f, rhs),
        Instruction::UnaryOp { operand, .. } => t.next_value + 2 <= usize::MAX
            && spec_operand_known(t, f, operand),
        Instruction::Load { address, .. } => t.next_value + 2 <= usize::MAX
            && spec_operand_known(t, f, address),
        Instruction::Store { address, value, .. } => t.next_value + 2 <= usize::MAX
            && spec_operand_known(t, f, address) && spec_operand_known(t, f, value),
        Instruction::PtrAdd { ptr, offset, .. } => t.next_value + 3 <= usize::MAX
            && spec_operand_known(t, f, ptr) && spec_operand_known(t, f, offset),
        Instruction::Alloc { size, .. } => t.next_value + 2 <= usize::MAX
            && spec_operand_known(t, f, size)
            && spec_find_decl(decls, "alloc"@) is Some,
        Instruction::Free { ptr } => t.next_value + 1 <= usize::MAX
            && spec_operand_known(t, f, ptr)
            && spec_find_decl(decls, "free"@) is Some,
        Instruction::Convert { src, from_ty, to_ty, .. } => t.next_value + 2 <= usize::MAX
            && spec_operand_known(t, f, src)
            && (match (from_ty, to_ty) {
                (Type::I32, Type::I64) | (Type::I32, Type::Usize)
                | (Type::I64, Type::I32) | (Type::I64, Type::Usize)
                | (Type::Usize, Type::I32) | (Type::Usize, Type::I64) => true,
                _ => false,
            }),
        Instruction::Call { function, args, .. } => t.next_value + args@.len() + 1
            <= usize::MAX && spec_find_decl(decls, function@) is Some
            && (forall|j: int| 0 <= j < args@.len()
                ==> spec_operand_known(t, f, #[trigger] args@[j])),
        Instruction::CallVoid { function, args } => t.next_value + args@.len() + 1
            <= usize::MAX && spec_find_decl(decls, function@) is Some
            && (forall|j: int| 0 <= j < args@.len()
                ==> spec_operand_known(t, f, #[trigger] args@[j])),
    }
}

/// The last step a successfully translated instruction emits, per the
/// lowering table: the machine opcode of its IR operation, carrying the
/// translated type where one applies.
pub open spec fn spec_emitted_tail(decls: Seq<CodegenDecl>, instr: Instruction,
    steps0: Seq<CodegenStep>, steps: Seq<CodegenStep>) -> bool
{
    match instr {
        Instruction::Const { dest: _, value, ty } => steps.len() > steps0.len()
            && steps.last() == (CodegenStep::IConst { ty: spec_translate_type(ty), value }),
        Instruction::BinaryOp { op, .. } => if spec_is_comparison(op) {
            steps.len() >= steps0.len() + 2
            && (steps[steps.len() - 2] matches CodegenStep::ICmp { cc, .. }
                && cc == spec_condition_of(op))
            && (steps.last() matches CodegenStep::UExtendI32 { .. })
        } else {
            steps.len() > steps0.len() && match op {
                BinaryOperator::Add => steps.last() matches CodegenStep::IAdd { .. },
                BinaryOperator::Sub => steps.last() matches CodegenStep::ISub { .. },
                BinaryOperator::Mul => steps.last() matches CodegenStep::IMul { .. },
                BinaryOperator::Div => steps.last() matches CodegenStep::SDiv { .. },
                BinaryOperator::Rem => steps.last() matches CodegenStep::SRem { .. },
                BinaryOperator::And => steps.last() matches CodegenStep::BAnd { .. },
                BinaryOperator::Or => steps.last() matches CodegenStep::BOr { .. },
                BinaryOperator::Xor => steps.last() matches CodegenStep::BXor { .. },
                BinaryOperator::Shl => steps.last() matches CodegenStep::IShl { .. },
                BinaryOperator::Shr => steps.last() matches CodegenStep::SShr { .. },
                _ => true,
            }
        },
        Instruction::UnaryOp { op, .. } => steps.len() > steps0.len() && match op {
            UnaryOperator::Neg => steps.last() matches CodegenStep::INeg { .. },
            UnaryOperator::Not => steps.last() matches CodegenStep::BNot { .. },
        },
        Instruction::Load { ty, .. } => steps.len() > steps0.len()
            && (steps.last() matches CodegenStep::Load { ty: lty, .. }
                && lty == spec_translate_type(ty)),
        Instruction::Store { .. } => steps.len() > steps0.len()
            && (steps.last() matches CodegenStep::Store { .. }),
        Instruction::PtrAdd { .. } => steps.len() > steps0.len()
            && (steps.last() matches CodegenStep::IAdd { .. }),
        Instruction::SizeOf { dest: _, ty } => steps.len() > steps0.len()
            && steps.last() == (CodegenStep::IConst {
                ty: spec_translate_type(Type::Usize),
                value: spec_type_size(ty) as i64,
            }),
        Instruction::Alloc { .. } => steps.len() > steps0.len()
            && (steps.last() matches CodegenStep::CallFn { callee, has_result, .. }
                && spec_find_decl(decls, "alloc"@) == Some(callee as int)
                && has_result),
        Instruction::Free { .. } => steps.len() > steps0.len()
            && (steps.last() matches CodegenStep::CallFn { callee, has_result, .. }
                && spec_find_decl(decls, "free"@) == Some(callee as int)
                && !has_result),
        Instruction::Convert { from_ty, to_ty, .. } => {
            if spec_translate_type(from_ty) == spec_translate_type(to_ty) {
                true
            } else if spec_translate_type(to_ty) == CodegenType::I64 {
                steps.len() > steps0.len()
                    && (steps.last() matches CodegenStep::SExtendI64 { .. })
            } else {
                steps.len() > steps0.len()
                    && (steps.last() matches CodegenStep::IReduceI32 { .. })
            }
        },
        Instruction::Call { function, .. } => steps.len() > steps0.len()
            && (steps.last() matches CodegenStep::CallFn { callee, has_result, .. }
                && spec_find_decl(decls, function@) == Some(callee as int)
                && has_result == (decls[callee as int].ret is Some)),
        Instruction::CallVoid { function, .. } => steps.len() > steps0.len()
            && (steps.last() matches CodegenStep::CallFn { callee, has_result, .. }
                && spec_find_decl(decls, function@) == Some(callee as int)
                && has_result == (decls[callee as int].ret is Some)),
    }
}

/// The comparison condition a comparison operator lowers to.
pub open spec fn spec_condition_of(op: BinaryOperator) -> IntCondition {
    match op {
        BinaryOperator::Eq => IntCondition::Equal,
        BinaryOperator::Ne => IntCondition::NotEqual,
        BinaryOperator::Lt => IntCondition::SignedLessThan,
        BinaryOperator::Le => IntCondition::SignedLessThanOrEqual,
        BinaryOperator::Gt => IntCondition::SignedGreaterThan,
        _ => IntCondition::SignedGreaterThanOrEqual,
    }
}

/// The translator's per-function state: the mapping from IR value ids to
/// machine value numbers, and the emission counter.
pub struct Translator {
    pub value_map: Vec<(ValueId, usize)>,
    pub next_value: usize,
}

impl Translator {
    fn new() -> (t: Translator)
        ensures
            t.value_map@.len() == 0,
            t.next_value == 0,
    {
        Translator { value_map: Vec::new(), next_value: 0 }
    }

    /// Assign the next machine value number.
    fn fresh(&mut self) -> (r: Result<usize, String>)
        ensures
            final(self).value_map == old(self).value_map,
            r matches Ok(v) ==> v == old(self).next_value
                && final(self).next_value == old(self).next_value + 1,
            r is Err ==> *final(self) == *old(self),
            old(self).next_value < usize::MAX ==> r is Ok,
    {
        if self.next_value == usize::MAX {
            return Err("too many machine values".to_owned());
        }
        let v = self.next_value;
        self.next_value = self.next_value + 1;
        Ok(v)
    }

    /// Record the machine value an IR id maps to.
    fn bind(&mut self, id: ValueId, v: usize)
        ensures
            final(self).value_map@ == old(self).value_map@.push((id, v)),
            final(self).next_value == old(self).next_value,
    {
        self.value_map.push((id, v));
    }

    /// The machine value an IR id maps to, if bound (first binding wins).
    fn lookup(&self, id: ValueId) -> (r: Option<usize>)
        ensures
            r == spec_vm_lookup(self.value_map@, id),
    {
        let n: usize = self.value_map.len();
        let mut i: usize = 0;
        while i < n
            invariant
                n == self.value_map@.len(),
                i <= n,
                forall|j: int| 0 <= j < i ==> (#[trigger] self.value_map@[j]).0 != id,
            decreases n - i,
        {
            if self.value_map[i].0.0 == id.0 {
                proof {
                    lemma_vm_lookup_first(self.value_map@, id, i as int);
                }
                return Some(self.value_map[i].1);
            }
            i = i + 1;
        }
        proof {
            lemma_vm_lookup_first(self.value_map@, id, n as int);
        }
        None
    }

    /// Resolve an operand: a bound value is used as is; an id in the
    /// constants table is materialized as a fresh constant at the current
    /// insertion point (anew in each use, respecting single definition);
    /// anything else is an error.
    fn resolve(&mut self, func: &Function, id: ValueId, steps: &mut Vec<CodegenStep>)
        -> (r: Result<CodegenValue, String>)
        ensures
            final(steps)@.len() >= old(steps)@.len(),
            r is Err ==> final(steps)@ == old(steps)@,
            final(self).value_map == old(self).value_map,
            final(self).next_value <= old(self).next_value + 1,
            (spec_operand_known(*old(self), *func, id)
                && old(self).next_value + 1 <= usize::MAX) ==> r is Ok,
    {
        match self.lookup(id) {
            Some(v) => Ok(CodegenValue(v)),
            None => {
                match func.const_lookup(id) {
                    Some((value, ty)) => {
                        let v = match self.fresh() {
                            Ok(v) => v,
                            Err(e) => {
                                return Err(e);
                            }
                        };
                        steps.push(CodegenStep::IConst { ty: translate_type(ty), value });
                        Ok(CodegenValue(v))
                    }
                    None => Err("value not found".to_owned()),
                }
            }
        }
    }

    /// Resolve a list of operands.
    fn resolve_all(&mut self, func: &Function, ids: &Vec<ValueId>, steps: &mut Vec<CodegenStep>)
        -> (r: Result<Vec<CodegenValue>, String>)
        ensures
            final(steps)@.len() >= old(steps)@.len(),
            r matches Ok(vs) ==> vs@.len() == ids@.len(),
            final(self).value_map == old(self).value_map,
            final(self).next_value <= old(self).next_value + ids@.len(),
            ((forall|j: int| 0 <= j < ids@.len()
                ==> spec_operand_known(*old(self), *func, #[trigger] ids@[j]))
                && old(self).next_value + ids@.len() <= usize::MAX) ==> r is Ok,
    {
        let n: usize = ids.len();
        let mut vs: Vec<CodegenValue> = Vec::new();
        let mut i: usize = 0;
        while i < n
            invariant
                n == ids@.len(),
                i <= n,
                vs@.len() == i,
                steps@.len() >= old(steps)@.len(),
                self.value_map == old(self).value_map,
                self.next_value <= old(self).next_value + i,
            decreases n - i,
        {
            match self.resolve(func, ids[i], steps) {
                Ok(v) => {
                    vs.push(v);
                }
                Err(e) => {
                    return Err(e);
                }
            }
            i = i + 1;
        }
        Ok(vs)
    }

    /// Translate one IR instruction into emission steps.  A comparison
    /// lowers to an `ICmp` immediately followed by a widening
    /// `UExtendI32`, so the produced value is an `i32` as the IR
    /// requires; every other binary operation is one arithmetic step.
    pub(crate) fn translate_instruction(&mut self, func: &Function,
        decls: &Vec<CodegenDecl>, instr: &Instruction, steps: &mut Vec<CodegenStep>)
        -> (r: Result<(), String>)
        ensures
            r is Ok ==> final(steps)@.len() >= old(steps)@.len(),
            r is Ok ==> spec_emitted_tail(decls@, *instr, old(steps)@, final(steps)@),
            spec_translate_ready(*old(self), *func, decls@, *instr) ==> r is Ok,
    {
        match instr {
            Instruction::Const { dest, value, ty } => {
                let v = match self.fresh() {
                    Ok(v) => v,
                    Err(e) => {
                        return Err(e);
                    }
                };
                steps.push(CodegenStep::IConst { ty: translate_type(*ty), value: *value });
                self.bind(*dest, v);
                Ok(())
            }
            Instruction::BinaryOp { dest, op, ty: _, lhs, rhs } => {
                let a = match self.resolve(func, *lhs, steps) {
                    Ok(v) => v,
                    Err(e) => {
                        return Err(e);
                    }
                };
                let b = match self.resolve(func, *rhs, steps) {
                    Ok(v) => v,
                    Err(e) => {
                        return Err(e);
                    }
                };
                let cc: Option<IntCondition> = match op {
                    BinaryOperator::Eq => Some(IntCondition::Equal),
                    BinaryOperator::Ne => Some(IntCondition::NotEqual),
                    BinaryOperator::Lt => Some(IntCondition::SignedLessThan),
                    BinaryOperator::Le => Some(IntCondition::SignedLessThanOrEqual),
                    BinaryOperator::Gt => Some(IntCondition::SignedGreaterThan),
                    BinaryOperator::Ge => Some(IntCondition::SignedGreaterThanOrEqual),
                    _ => None,
                };
                match cc {
                    Some(cc) => {
                        let cv = match self.fresh() {
                            Ok(v) => v,
                            Err(e) => {
                                return Err(e);
                            }
                        };
                        steps.push(CodegenStep::ICmp { cc, a, b });
                        let wv = match self.fresh() {
                            Ok(v) => v,
                            Err(e) => {
                                return Err(e);
                            }
                        };
                        steps.push(CodegenStep::UExtendI32 { a: CodegenValue(cv) });
                        self.bind(*dest, wv);
                        Ok(())
                    }
                    None => {
                        let step: CodegenStep = match op {
                            BinaryOperator::Add => CodegenStep::IAdd { a, b },
                            BinaryOperator::Sub => CodegenStep::ISub { a, b },
                            BinaryOperator::Mul => CodegenStep::IMul { a, b },
                            BinaryOperator::Div => CodegenStep::SDiv { a, b },
                            BinaryOperator::Rem => CodegenStep::SRem { a, b },
                            BinaryOperator::And => CodegenStep::BAnd { a, b },
                            BinaryOperator::Or => CodegenStep::BOr { a, b },
                            BinaryOperator::Xor => CodegenStep::BXor { a, b },
                            BinaryOperator::Shl => CodegenStep::IShl { a, b },
                            BinaryOperator::Shr => CodegenStep::SShr { a, b },
                            _ => CodegenStep::IAdd { a, b },
                        };
                        let v = match self.fresh() {
                            Ok(v) => v,
                            Err(e) => {
                                return Err(e);
                            }
                        };
                        steps.push(step);
                        self.bind(*dest, v);
                        Ok(())
                    }
                }
            }
            Instruction::UnaryOp { dest, op, ty: _, operand } => {
                let a = match self.resolve(func, *operand, steps) {
                    Ok(v) => v,
                    Err(e) => {
                        return Err(e);
                    }
                };
                let v = match self.fresh() {
                    Ok(v) => v,
                    Err(e) => {
                        return Err(e);
                    }
                };
                match op {
                    UnaryOperator::Neg => steps.push(CodegenStep::INeg { a }),
                    UnaryOperator::Not => steps.push(CodegenStep::BNot { a }),
                }
                self.bind(*dest, v);
                Ok(())
            }
            Instruction::Load { dest, ty, address } => {
                let addr = match self.resolve(func, *address, steps) {
                    Ok(v) => v,
                    Err(e) => {
                        return Err(e);
                    }
                };
                let v = match self.fresh() {
                    Ok(v) => v,
                    Err(e) => {
                        return Err(e);
                    }
                };
                steps.push(CodegenStep::Load { ty: translate_type(*ty), addr });
                self.bind(*dest, v);
                Ok(())
            }
            Instruction::Store { address, value, ty: _ } => {
                let addr = match self.resolve(func, *address, steps) {
                    Ok(v) => v,
                    Err(e) => {
                        return Err(e);
                    }
                };
                let val = match self.resolve(func, *value, steps) {
                    Ok(v) => v,
                    Err(e) => {
                        return Err(e);
                    }
                };
                steps.push(CodegenStep::Store { value: val, addr });
                Ok(())
            }
            Instruction::PtrAdd { dest, ptr, offset } => {
                let a = match self.resolve(func, *ptr, steps) {
                    Ok(v) => v,
                    Err(e) => {
                        return Err(e);
                    }
                };
                let b = match self.resolve(func, *offset, steps) {
                    Ok(v) => v,
                    Err(e) => {
                        return Err(e);
                    }
                };
                let v = match self.fresh() {
                    Ok(v) => v,
                    Err(e) => {
                        return Err(e);
                    }
                };
                steps.push(CodegenStep::IAdd { a, b });
                self.bind(*dest, v);
                Ok(())
            }
            Instruction::SizeOf { dest, ty } => {
                let size = type_size(*ty);
                let v = match self.fresh() {
                    Ok(v) => v,
                    Err(e) => {
                        return Err(e);
                    }
                };
                let wide: i64 = #[verifier::truncate] (size as i64);
                steps.push(CodegenStep::IConst {
                    ty: translate_type(Type::Usize),
                    value: wide,
                });
                self.bind(*dest, v);
                Ok(())
            }
            Instruction::Alloc { dest, size } => {
                let callee = match find_decl(decls, "alloc") {
                    Some(i) => i,
                    None => {
                        return Err("alloc function not found".to_owned());
                    }
                };
                let sz = match self.resolve(func, *size, steps) {
                    Ok(v) => v,
                    Err(e) => {
                        return Err(e);
                    }
                };
                let v = match self.fresh() {
                    Ok(v) => v,
                    Err(e) => {
                        return Err(e);
                    }
                };
                let mut args: Vec<CodegenValue> = Vec::new();
                args.push(sz);
                steps.push(CodegenStep::CallFn { callee, args, has_result: true });
                self.bind(*dest, v);
                Ok(())
            }
            Instruction::Free { ptr } => {
                let callee = match find_decl(decls, "free") {
                    Some(i) => i,
                    None => {
                        return Err("free function not found".to_owned());
                    }
                };
                let p = match self.resolve(func, *ptr, steps) {
                    Ok(v) => v,
                    Err(e) => {
                        return Err(e);
                    }
                };
                let mut args: Vec<CodegenValue> = Vec::new();
                args.push(p);
                steps.push(CodegenStep::CallFn { callee, args, has_result: false });
                Ok(())
            }
            Instruction::Convert { dest, src, from_ty, to_ty } => {
                let a = match self.resolve(func, *src, steps) {
                    Ok(v) => v,
                    Err(e) => {
                        return Err(e);
                    }
                };
                let from_cg = translate_type(*from_ty);
                let to_cg = translate_type(*to_ty);
                match (from_ty, to_ty) {
                    (Type::I32, Type::I64) | (Type::I32, Type::Usize)
                    | (Type::I64, Type::I32) | (Type::I64, Type::Usize)
                    | (Type::Usize, Type::I32) | (Type::Usize, Type::I64) => {
                        if from_cg == to_cg {
                            // Same machine width on this platform: the
                            // value passes through unchanged.
                            self.bind(*dest, a.0);
                            Ok(())
                        } else {
                            let v = match self.fresh() {
                                Ok(v) => v,
                                Err(e) => {
                                    return Err(e);
                                }
                            };
                            if to_cg == CodegenType::I64 {
                                steps.push(CodegenStep::SExtendI64 { a });
                            } else {
                                steps.push(CodegenStep::IReduceI32 { a });
                            }
                            self.bind(*dest, v);
                            Ok(())
                        }
                    }
                    _ => Err("unsupported type conversion".to_owned()),
                }
            }
            Instruction::Call { dest, function, args, return_type: _ } => {
                let callee = match find_decl(decls, function.as_str()) {
                    Some(i) => i,
                    None => {
                        return Err("function not declared".to_owned());
                    }
                };
                let has_result = decls[callee].ret.is_some();
                let vs = match self.resolve_all(func, args, steps) {
                    Ok(vs) => vs,
                    Err(e) => {
                        return Err(e);
                    }
                };
                if has_result {
                    let v = match self.fresh() {
                        Ok(v) => v,
                        Err(e) => {
                            return Err(e);
                        }
                    };
                    steps.push(CodegenStep::CallFn { callee, args: vs, has_result: true });
                    self.bind(*dest, v);
                } else {
                    steps.push(CodegenStep::CallFn { callee, args: vs, has_result: false });
                }
                Ok(())
            }
            Instruction::CallVoid { function, args } => {
                let callee = match find_decl(decls, function.as_str()) {
                    Some(i) => i,
                    None => {
                        return Err("function not declared".to_owned());
                    }
                };
                let has_result = decls[callee].ret.is_some();
                let vs = match self.resolve_all(func, args, steps) {
                    Ok(vs) => vs,
                    Err(e) => {
                        return Err(e);
                    }
                };
                if has_result {
                    match self.fresh() {
                        Ok(_) => {}
                        Err(e) => {
                            return Err(e);
                        }
                    }
                }
                steps.push(CodegenStep::CallFn { callee, args: vs, has_result });
                Ok(())
            }
        }
    }

    /// Find the index of the block with the given id.
    fn find_block_index(func: &Function, id: BlockId) -> (r: Option<usize>)
        ensures
            r matches Some(i) ==> i < func.blocks@.len()
                && func.blocks@[i as int].id == id,
    {
        let n: usize = func.blocks.len();
        let mut i: usize = 0;
        while i < n
            invariant
                n == func.blocks@.len(),
                i <= n,
            decreases n - i,
        {
            if func.blocks[i].id.0 == id.0 {
                return Some(i);
            }
            i = i + 1;
        }
        None
    }

    /// Translate one terminator.
    pub(crate) fn translate_terminator(&mut self, func: &Function, term: &Terminator,
        steps: &mut Vec<CodegenStep>)
        -> (r: Result<CodegenTerminator, String>)
        ensures
            *term matches Terminator::Ret { value } ==> (r matches Ok(t2) ==> (
                t2 matches CodegenTerminator::Return { value: rv }
                    && (rv is Some <==> value is Some))),
            *term matches Terminator::Br { target, args } ==> (r matches Ok(t2) ==> (
                t2 matches CodegenTerminator::Jump { target: ti, args: cas }
                    && ti < func.blocks@.len() && func.blocks@[ti as int].id == target
                    && cas@.len() == args@.len())),
            *term matches Terminator::BrIf { cond: _, true_target, true_args,
                false_target, false_args } ==> (r matches Ok(t2) ==> (
                t2 matches CodegenTerminator::Branch { cond: _, true_target: ti,
                    true_args: tas, false_target: fi2, false_args: fas }
                    && ti < func.blocks@.len() && func.blocks@[ti as int].id == true_target
                    && fi2 < func.blocks@.len()
                    && func.blocks@[fi2 as int].id == false_target
                    && tas@.len() == true_args@.len()
                    && fas@.len() == false_args@.len())),
    {
        match term {
            Terminator::Ret { value } => {
                match value {
                    Some(v) => {
                        let cv = match self.resolve(func, *v, steps) {
                            Ok(v) => v,
                            Err(e) => {
                                return Err(e);
                            }
                        };
                        Ok(CodegenTerminator::Return { value: Some(cv) })
                    }
                    None => Ok(CodegenTerminator::Return { value: None }),
                }
            }
            Terminator::Br { target, args } => {
                let ti = match Self::find_block_index(func, *target) {
                    Some(i) => i,
                    None => {
                        return Err("branch target not found".to_owned());
                    }
                };
                let vs = match self.resolve_all(func, args, steps) {
                    Ok(vs) => vs,
                    Err(e) => {
                        return Err(e);
                    }
                };
                Ok(CodegenTerminator::Jump { target: ti, args: vs })
            }
            Terminator::BrIf { cond, true_target, true_args, false_target, false_args } => {
                let cv = match self.resolve(func, *cond, steps) {
                    Ok(v) => v,
                    Err(e) => {
                        return Err(e);
                    }
                };
                let ti = match Self::find_block_index(func, *true_target) {
                    Some(i) => i,
                    None => {
                        return Err("true target not found".to_owned());
                    }
                };
                let fi = match Self::find_block_index(func, *false_target) {
                    Some(i) => i,
                    None => {
                        return Err("false target not found".to_owned());
                    }
                };
                let tvs = match self.resolve_all(func, true_args, steps) {
                    Ok(vs) => vs,
                    Err(e) => {
                        return Err(e);
                    }
                };
                let fvs = match self.resolve_all(func, false_args, steps) {
                    Ok(vs) => vs,
                    Err(e) => {
                        return Err(e);
                    }
                };
                Ok(CodegenTerminator::Branch {
                    cond: cv,
                    true_target: ti,
                    true_args: tvs,
                    false_target: fi,
                    false_args: fvs,
                })
            }
        }
    }

    /// Translate one function body.  Machine values are numbered in
    /// emission order: every block's parameters first (in block order),
    /// then the entry fixup parameters if the IR entry block carried
    /// none of its own, then each block's steps.
    pub(crate) fn translate(func: &Function, decls: &Vec<CodegenDecl>, decl_index: usize)
        -> (r: Result<CodegenFunction, String>)
        ensures
            r matches Ok(cgf) ==> cgf.blocks@.len() == func.blocks@.len()
                && cgf.decl_index == decl_index,
    {
        let mut t = Translator::new();
        let nblocks: usize = func.blocks.len();

        // Pre-create every block and bind its parameters, so that forward
        // branches can reference any block.
        let mut param_lists: Vec<Vec<CodegenType>> = Vec::new();
        let mut bi: usize = 0;
        while bi < nblocks
            invariant
                nblocks == func.blocks@.len(),
                bi <= nblocks,
                param_lists@.len() == bi,
            decreases nblocks - bi,
        {
            let nparams: usize = func.blocks[bi].params.len();
            let mut tys: Vec<CodegenType> = Vec::new();
            let mut pi: usize = 0;
            while pi < nparams
                invariant
                    bi < func.blocks@.len(),
                    nparams == func.blocks@[bi as int].params@.len(),
                    pi <= nparams,
                decreases nparams - pi,
            {
                let (vid, pty) = func.blocks[bi].params[pi];
                let v = match t.fresh() {
                    Ok(v) => v,
                    Err(e) => {
                        return Err(e);
                    }
                };
                t.bind(vid, v);
                tys.push(translate_type(pty));
                pi = pi + 1;
            }
            param_lists.push(tys);
            bi = bi + 1;
        }

        // If the entry block does not carry the function's parameters
        // (manually built IR may omit them), append them now, binding the
        // first N value ids.
        let mut entry_fixup: Vec<CodegenType> = Vec::new();
        if nblocks > 0 {
            let entry_param_count: usize = func.blocks[0].params.len();
            let nfparams: usize = func.params.len();
            if entry_param_count != nfparams {
                let mut pi: usize = 0;
                while pi < nfparams
                    invariant
                        nfparams == func.params@.len(),
                        pi <= nfparams,
                    decreases nfparams - pi,
                {
                    let v = match t.fresh() {
                        Ok(v) => v,
                        Err(e) => {
                            return Err(e);
                        }
                    };
                    t.bind(ValueId(pi), v);
                    entry_fixup.push(translate_type(func.params[pi]));
                    pi = pi + 1;
                }
            }
        }

        // Translate the contents of every block.
        let mut blocks: Vec<CodegenBlock> = Vec::new();
        let mut ci: usize = 0;
        while ci < nblocks
            invariant
                nblocks == func.blocks@.len(),
                ci <= nblocks,
                blocks@.len() == ci,
                param_lists@.len() == nblocks,
            decreases nblocks - ci,
        {
            let mut steps: Vec<CodegenStep> = Vec::new();
            let ninstr: usize = func.blocks[ci].instructions.len();
            let mut ii: usize = 0;
            while ii < ninstr
                invariant
                    ci < func.blocks@.len(),
                    ninstr == func.blocks@[ci as int].instructions@.len(),
                    ii <= ninstr,
                decreases ninstr - ii,
            {
                match t.translate_instruction(func, decls,
                    &func.blocks[ci].instructions[ii], &mut steps) {
                    Ok(()) => {}
                    Err(e) => {
                        return Err(e);
                    }
                }
                ii = ii + 1;
            }
            let terminator = match t.translate_terminator(func, &func.blocks[ci].terminator,
                &mut steps) {
                Ok(tm) => tm,
                Err(e) => {
                    return Err(e);
                }
            };
            let params = copy_cg_types(&param_lists[ci]);
            blocks.push(CodegenBlock { params, steps, terminator });
            ci = ci + 1;
        }

        Ok(CodegenFunction { decl_index, blocks, entry_fixup_params: entry_fixup })
    }
}

/// Whether a declaration carries an import's name and signature, with
/// external linkage: parameter types translated pointwise and a return
/// type exactly when the import's is not `void`.
pub open spec fn spec_decl_of_import(d: CodegenDecl, imp: crate::ir::ImportDecl) -> bool {
    &&& d.name@ == imp.name@
    &&& d.imported
    &&& d.params@.len() == imp.params@.len()
    &&& (forall|k: int| 0 <= k < imp.params@.len()
        ==> d.params@[k] == spec_translate_type(#[trigger] imp.params@[k]))
    &&& d.ret == (if imp.return_type == Type::Void {
        None
    } else {
        Some(spec_translate_type(imp.return_type))
    })
}

/// Whether a declaration carries a local function's name and signature,
/// with exported linkage.
pub open spec fn spec_decl_of_function(d: CodegenDecl, f: Function) -> bool {
    &&& d.name@ == f.name@
    &&& !d.imported
    &&& d.params@.len() == f.params@.len()
    &&& (forall|k: int| 0 <= k < f.params@.len()
        ==> d.params@[k] == spec_translate_type(#[trigger] f.params@[k]))
    &&& d.ret == (if f.return_type == Type::Void {
        None
    } else {
        Some(spec_translate_type(f.return_type))
    })
}

/// Build the whole emission plan for a program: declare every import
/// (external linkage) and every local function (exported linkage), then
/// translate each local body.
pub fn compile_program(program: &Program) -> (r: Result<CodegenModule, String>)
    ensures
        r matches Ok(m) ==> m.decls@.len()
            == program.imports@.len() + program.functions@.len()
            && m.functions@.len() == program.functions@.len(),
        r matches Ok(m) ==> forall|i: int| 0 <= i < program.imports@.len()
            ==> spec_decl_of_import(#[trigger] m.decls@[i], program.imports@[i]),
        r matches Ok(m) ==> forall|i: int| 0 <= i < program.functions@.len()
            ==> spec_decl_of_function(
                #[trigger] m.decls@[program.imports@.len() + i],
                program.functions@[i]),
{
    let mut decls: Vec<CodegenDecl> = Vec::new();
    let nimports: usize = program.imports.len();
    let mut i: usize = 0;
    while i < nimports
        invariant
            nimports == program.imports@.len(),
            i <= nimports,
            decls@.len() == i,
            forall|t: int| 0 <= t < i
                ==> spec_decl_of_import(#[trigger] decls@[t], program.imports@[t]),
        decreases nimports - i,
    {
        let imp = &program.imports[i];
        let mut ptys: Vec<CodegenType> = Vec::new();
        let np: usize = imp.params.len();
        let mut j: usize = 0;
        while j < np
            invariant
                np == imp.params@.len(),
                j <= np,
                ptys@.len() == j,
                forall|k: int| 0 <= k < j
                    ==> ptys@[k] == spec_translate_type(#[trigger] imp.params@[k]),
            decreases np - j,
        {
            ptys.push(translate_type(imp.params[j]));
            j = j + 1;
        }
        let ret: Option<CodegenType> = match imp.return_type {
            Type::Void => None,
            t => Some(translate_type(t)),
        };
        decls.push(CodegenDecl {
            name: imp.name.clone(),
            params: ptys,
            ret,
            imported: true,
        });
        i = i + 1;
    }
    let nfuncs: usize = program.functions.len();
    let mut k: usize = 0;
    while k < nfuncs
        invariant
            nfuncs == program.functions@.len(),
            nimports == program.imports@.len(),
            k <= nfuncs,
            decls@.len() == nimports + k,
            forall|t: int| 0 <= t < nimports
                ==> spec_decl_of_import(#[trigger] decls@[t], program.imports@[t]),
            forall|t: int| 0 <= t < k
                ==> spec_decl_of_function(#[trigger] decls@[nimports + t],
                    program.functions@[t]),
        decreases nfuncs - k,
    {
        let f = &program.functions[k];
        let mut ptys: Vec<CodegenType> = Vec::new();
        let np: usize = f.params.len();
        let mut j: usize = 0;
        while j < np
            invariant
                np == f.params@.len(),
                j <= np,
                ptys@.len() == j,
                forall|k2: int| 0 <= k2 < j
                    ==> ptys@[k2] == spec_translate_type(#[trigger] f.params@[k2]),
            decreases np - j,
        {
            ptys.push(translate_type(f.params[j]));
            j = j + 1;
        }
        let ret: Option<CodegenType> = match f.return_type {
            Type::Void => None,
            t => Some(translate_type(t)),
        };
        decls.push(CodegenDecl {
            name: f.name.clone(),
            params: ptys,
            ret,
            imported: false,
        });
        k = k + 1;
    }

    let mut functions: Vec<CodegenFunction> = Vec::new();
    let total: usize = decls.len();
    let mut m: usize = 0;
    while m < nfuncs
        invariant
            nfuncs == program.functions@.len(),
            nimports == program.imports@.len(),
            m <= nfuncs,
            functions@.len() == m,
            decls@.len() == nimports + nfuncs,
            total == decls@.len(),
            forall|t: int| 0 <= t < nimports
                ==> spec_decl_of_import(#[trigger] decls@[t], program.imports@[t]),
            forall|t: int| 0 <= t < nfuncs
                ==> spec_decl_of_function(#[trigger] decls@[nimports + t],
                    program.functions@[t]),
        decreases nfuncs - m,
    {
        if nimports + m < total {
            match Translator::translate(&program.functions[m], &decls, nimports + m) {
                Ok(cgf) => {
                    functions.push(cgf);
                }
                Err(e) => {
                    return Err(e);
                }
            }
        }
        m = m + 1;
    }
    Ok(CodegenModule { decls, functions })
}

} // verus!
