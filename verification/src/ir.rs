//! The typed SSA intermediate representation.
//!
//! An `ir::Program` holds resolved imports and functions.  Within a
//! function, `ValueId`s are dense indices assigned in order of definition;
//! `BlockId`s are dense indices into the function's block list.  Block
//! parameters stand in for phi nodes: every branch into a block carries one
//! argument per parameter.

use vstd::prelude::*;
use crate::ast::Type;

verus! {

/// Program-level IR containing all imports and functions.
#[derive(Debug, Clone, PartialEq)]
pub struct Program {
    pub imports: Vec<ImportDecl>,
    pub functions: Vec<Function>,
}

/// Import declaration with resolved parameter and return types.
#[derive(Debug, Clone, PartialEq)]
pub struct ImportDecl {
    pub module: String,
    pub name: String,
    pub calling_convention: Option<String>,
    pub params: Vec<Type>,
    pub return_type: Type,
}

/// Opaque identifier for a basic block, dense within its function.
#[derive(Debug, Clone, Copy, PartialEq, Eq, Hash, PartialOrd, Ord, Structural)]
pub struct BlockId(pub usize);

/// Opaque identifier for an SSA value, unique within its function.
#[derive(Debug, Clone, Copy, PartialEq, Eq, Hash, PartialOrd, Ord, Structural)]
pub struct ValueId(pub usize);

/// A function in IR form.
///
/// `constants` maps value ids that have no defining instruction to the
/// literal and type the lowerer materialized for them; both backends
/// consult it for any operand id they have not seen defined.
#[derive(Debug, Clone, PartialEq)]
pub struct Function {
    pub name: String,
    pub params: Vec<Type>,
    pub return_type: Type,
    pub blocks: Vec<BasicBlock>,
    pub entry_block: BlockId,
    pub next_value_id: ValueId,
    pub constants: Vec<(ValueId, i64, Type)>,
}

/// A basic block: parameters (phi inputs), instructions, one terminator.
#[derive(Debug, Clone, PartialEq)]
pub struct BasicBlock {
    pub id: BlockId,
    pub label: String,
    pub params: Vec<(ValueId, Type)>,
    pub instructions: Vec<Instruction>,
    pub terminator: Terminator,
}

/// Instructions; each produces at most one SSA value.
#[derive(Debug, Clone, PartialEq)]
pub enum Instruction {
    BinaryOp { dest: ValueId, op: BinaryOperator, ty: Type, lhs: ValueId, rhs: ValueId },
    UnaryOp { dest: ValueId, op: UnaryOperator, ty: Type, operand: ValueId },
    Call { dest: ValueId, function: String, args: Vec<ValueId>, return_type: Type },
    CallVoid { function: String, args: Vec<ValueId> },
    Load { dest: ValueId, ty: Type, address: ValueId },
    Store { address: ValueId, value: ValueId, ty: Type },
    Const { dest: ValueId, value: i64, ty: Type },
    PtrAdd { dest: ValueId, ptr: ValueId, offset: ValueId },
    SizeOf { dest: ValueId, ty: Type },
    Alloc { dest: ValueId, size: ValueId },
    Free { ptr: ValueId },
    Convert { dest: ValueId, src: ValueId, from_ty: Type, to_ty: Type },
}

/// Terminators; branch arguments bind positionally to the target block's
/// parameters.
#[derive(Debug, Clone, PartialEq)]
pub enum Terminator {
    Ret { value: Option<ValueId> },
    Br { target: BlockId, args: Vec<ValueId> },
    BrIf {
        cond: ValueId,
        true_target: BlockId,
        true_args: Vec<ValueId>,
        false_target: BlockId,
        false_args: Vec<ValueId>,
    },
}

#[derive(Debug, Clone, Copy, PartialEq, Eq, Structural)]
pub enum BinaryOperator {
    Add,
    Sub,
    Mul,
    Div,
    Rem,
    And,
    Or,
    Xor,
    Shl,
    Shr,
    Eq,
    Ne,
    Lt,
    Le,
    Gt,
    Ge,
}

#[derive(Debug, Clone, Copy, PartialEq, Eq, Structural)]
pub enum UnaryOperator {
    Neg,
    Not,
}

/// Errors from semantic analysis; the lowerer accumulates them and yields
/// the whole list.  Each carries a human-readable location string, which
/// diagnostics print but no contract constrains.
#[derive(Debug, Clone, PartialEq)]
pub enum SemanticError {
    UndefinedIdentifier { name: String, location: String },
    DuplicateDefinition { name: String, location: String },
    TypeMismatch { expected: Type, found: Type, location: String },
    InvalidOperation { operation: String, ty: Type, location: String },
    UndefinedBlock { label: String, location: String },
    MissingTerminator { block: String },
    InvalidPhiReference { block: String, referenced_block: String },
    FunctionNotFound { name: String, location: String },
    ArgumentMismatch { function: String, expected: usize, found: usize, location: String },
}

/// Whether a comparison operator: comparisons produce `I32` (0 or 1)
/// regardless of operand type; every other operator preserves it.
pub open spec fn spec_is_comparison(op: BinaryOperator) -> bool {
    op == BinaryOperator::Eq || op == BinaryOperator::Ne || op == BinaryOperator::Lt
        || op == BinaryOperator::Le || op == BinaryOperator::Gt || op == BinaryOperator::Ge
}

/// The type of the value a binary operation produces.
pub open spec fn spec_binary_result_type(op: BinaryOperator, operand_ty: Type) -> Type {
    if spec_is_comparison(op) {
        Type::I32
    } else {
        operand_ty
    }
}

impl BinaryOperator {
    pub fn is_comparison(self) -> (r: bool)
        ensures
            r == spec_is_comparison(self),
    {
        match self {
            BinaryOperator::Eq | BinaryOperator::Ne | BinaryOperator::Lt
                | BinaryOperator::Le | BinaryOperator::Gt | BinaryOperator::Ge => true,
            _ => false,
        }
    }
}

/// The operator a mnemonic suffix denotes, or `None` for an unknown one.
pub open spec fn spec_binary_operator(s: Seq<char>) -> Option<BinaryOperator> {
    if s == "add"@ {
        Some(BinaryOperator::Add)
    } else if s == "sub"@ {
        Some(BinaryOperator::Sub)
    } else if s == "mul"@ {
        Some(BinaryOperator::Mul)
    } else if s == "div"@ {
        Some(BinaryOperator::Div)
    } else if s == "rem"@ {
        Some(BinaryOperator::Rem)
    } else if s == "and"@ {
        Some(BinaryOperator::And)
    } else if s == "or"@ {
        Some(BinaryOperator::Or)
    } else if s == "xor"@ {
        Some(BinaryOperator::Xor)
    } else if s == "shl"@ {
        Some(BinaryOperator::Shl)
    } else if s == "shr"@ {
        Some(BinaryOperator::Shr)
    } else if s == "eq"@ {
        Some(BinaryOperator::Eq)
    } else if s == "ne"@ {
        Some(BinaryOperator::Ne)
    } else if s == "lt"@ {
        Some(BinaryOperator::Lt)
    } else if s == "le"@ {
        Some(BinaryOperator::Le)
    } else if s == "gt"@ {
        Some(BinaryOperator::Gt)
    } else if s == "ge"@ {
        Some(BinaryOperator::Ge)
    } else {
        None
    }
}

/// The unary operator a mnemonic suffix denotes.
pub open spec fn spec_unary_operator(s: Seq<char>) -> Option<UnaryOperator> {
    if s == "neg"@ {
        Some(UnaryOperator::Neg)
    } else if s == "not"@ {
        Some(UnaryOperator::Not)
    } else {
        None
    }
}

impl BinaryOperator {
    /// Parse an operator mnemonic suffix such as `add` or `lt`; the type is
    /// only recorded in the error on failure.
    pub fn from_str(s: &str, ty: Type) -> (r: Result<BinaryOperator, SemanticError>)
        ensures
            match spec_binary_operator(s@) {
                Some(op) => r == Ok::<BinaryOperator, SemanticError>(op),
                None => r matches Err(SemanticError::InvalidOperation {
                    operation, ty: ety, location: _ })
                    && operation@ == s@ && ety == ty,
            },
    {
        if crate::text::str_eq(s, "add") {
            Ok(BinaryOperator::Add)
        } else if crate::text::str_eq(s, "sub") {
            Ok(BinaryOperator::Sub)
        } else if crate::text::str_eq(s, "mul") {
            Ok(BinaryOperator::Mul)
        } else if crate::text::str_eq(s, "div") {
            Ok(BinaryOperator::Div)
        } else if crate::text::str_eq(s, "rem") {
            Ok(BinaryOperator::Rem)
        } else if crate::text::str_eq(s, "and") {
            Ok(BinaryOperator::And)
        } else if crate::text::str_eq(s, "or") {
            Ok(BinaryOperator::Or)
        } else if crate::text::str_eq(s, "xor") {
            Ok(BinaryOperator::Xor)
        } else if crate::text::str_eq(s, "shl") {
            Ok(BinaryOperator::Shl)
        } else if crate::text::str_eq(s, "shr") {
            Ok(BinaryOperator::Shr)
        } else if crate::text::str_eq(s, "eq") {
            Ok(BinaryOperator::Eq)
        } else if crate::text::str_eq(s, "ne") {
            Ok(BinaryOperator::Ne)
        } else if crate::text::str_eq(s, "lt") {
            Ok(BinaryOperator::Lt)
        } else if crate::text::str_eq(s, "le") {
            Ok(BinaryOperator::Le)
        } else if crate::text::str_eq(s, "gt") {
            Ok(BinaryOperator::Gt)
        } else if crate::text::str_eq(s, "ge") {
            Ok(BinaryOperator::Ge)
        } else {
            Err(SemanticError::InvalidOperation {
                operation: s.to_owned(),
                ty,
                location: "unknown".to_owned(),
            })
        }
    }
}

impl UnaryOperator {
    /// Parse a unary operator mnemonic suffix (`neg` or `not`).
    pub fn from_str(s: &str, ty: Type) -> (r: Result<UnaryOperator, SemanticError>)
        ensures
            match spec_unary_operator(s@) {
                Some(op) => r == Ok::<UnaryOperator, SemanticError>(op),
                None => r matches Err(SemanticError::InvalidOperation {
                    operation, ty: ety, location: _ })
                    && operation@ == s@ && ety == ty,
            },
    {
        if crate::text::str_eq(s, "neg") {
            Ok(UnaryOperator::Neg)
        } else if crate::text::str_eq(s, "not") {
            Ok(UnaryOperator::Not)
        } else {
            Err(SemanticError::InvalidOperation {
                operation: s.to_owned(),
                ty,
                location: "unknown".to_owned(),
            })
        }
    }
}

impl BlockId {
    pub fn new(id: usize) -> (r: BlockId)
        ensures
            r.0 == id,
    {
        BlockId(id)
    }

    pub fn index(self) -> (r: usize)
        ensures
            r == self.0,
    {
        self.0
    }
}

impl ValueId {
    pub fn new(id: usize) -> (r: ValueId)
        ensures
            r.0 == id,
    {
        ValueId(id)
    }

    pub fn index(self) -> (r: usize)
        ensures
            r == self.0,
    {
        self.0
    }
}

/// The first `(value, type)` entry in a constants table for a given id.
pub open spec fn spec_const_lookup(constants: Seq<(ValueId, i64, Type)>, id: ValueId)
    -> Option<(i64, Type)>
    decreases constants.len(),
{
    if constants.len() == 0 {
        None
    } else if constants[0].0 == id {
        Some((constants[0].1, constants[0].2))
    } else {
        spec_const_lookup(constants.drop_first(), id)
    }
}

impl Function {
    /// A fresh function with no blocks; the entry block is block 0 and the
    /// value counter starts at 0.
    pub fn new(name: String, params: Vec<Type>, return_type: Type) -> (f: Function)
        ensures
            f.name == name,
            f.params == params,
            f.return_type == return_type,
            f.blocks@ =~= Seq::<BasicBlock>::empty(),
            f.entry_block.0 == 0,
            f.next_value_id.0 == 0,
            f.constants@ =~= Seq::<(ValueId, i64, Type)>::empty(),
    {
        Function {
            name,
            params,
            return_type,
            blocks: Vec::new(),
            entry_block: BlockId(0),
            next_value_id: ValueId(0),
            constants: Vec::new(),
        }
    }

    /// Allocate the next unique value id.
    pub fn next_value(&mut self) -> (id: ValueId)
        requires
            old(self).next_value_id.0 < usize::MAX,
        ensures
            id == old(self).next_value_id,
            final(self).next_value_id.0 == old(self).next_value_id.0 + 1,
            final(self).name == old(self).name,
            final(self).params == old(self).params,
            final(self).return_type == old(self).return_type,
            final(self).blocks == old(self).blocks,
            final(self).entry_block == old(self).entry_block,
            final(self).constants == old(self).constants,
    {
        let id = self.next_value_id;
        self.next_value_id = ValueId(id.0 + 1);
        id
    }

    /// Look up a value id in the constants table.
    pub fn const_lookup(&self, id: ValueId) -> (r: Option<(i64, Type)>)
        ensures
            r == spec_const_lookup(self.constants@, id),
    {
        let n: usize = self.constants.len();
        let mut i: usize = 0;
        assert(self.constants@.skip(0) =~= self.constants@);
        while i < n
            invariant
                n == self.constants@.len(),
                i <= n,
                spec_const_lookup(self.constants@, id)
                    == spec_const_lookup(self.constants@.skip(i as int), id),
            decreases n - i,
        {
            let (cid, v, t) = self.constants[i];
            if cid.0 == id.0 {
                assert(self.constants@.skip(i as int)[0] == self.constants@[i as int]);
                assert(cid == id);
                return Some((v, t));
            }
            assert(self.constants@.skip(i as int).drop_first()
                =~= self.constants@.skip(i + 1));
            i = i + 1;
        }
        assert(self.constants@.skip(n as int) =~= Seq::<(ValueId, i64, Type)>::empty());
        None
    }
}

impl BasicBlock {
    /// A fresh block with the given id and label, no parameters or
    /// instructions, and a placeholder `ret` terminator.
    pub fn new(id: BlockId, label: String) -> (b: BasicBlock)
        ensures
            b.id == id,
            b.label == label,
            b.params@ =~= Seq::<(ValueId, Type)>::empty(),
            b.instructions@ =~= Seq::<Instruction>::empty(),
            b.terminator == (Terminator::Ret { value: None::<ValueId> }),
    {
        BasicBlock {
            id,
            label,
            params: Vec::new(),
            instructions: Vec::new(),
            terminator: Terminator::Ret { value: None },
        }
    }
}

} // verus!
