//! Syntax trees for TILT source programs.
//!
//! The parser produces these structures; the lowering pass consumes them
//! and emits the typed SSA representation in `crate::ir`.

use vstd::prelude::*;

verus! {

/// The closed set of TILT value types.
///
/// `Usize` is the platform-native unsigned integer whose width equals a
/// pointer; it is used for sizes, indices, and addresses.  `Void` is only
/// valid as a function return type: it is never the type of an SSA value.
#[derive(Debug, Clone, Copy, PartialEq, Eq, Hash, Structural)]
pub enum Type {
    I32,
    I64,
    F32,
    F64,
    Usize,
    Void,
}

/// A whole source program: an ordered sequence of top-level items.
#[derive(Debug, Clone, PartialEq)]
pub struct Program {
    pub items: Vec<TopLevelItem>,
}

#[derive(Debug, Clone, PartialEq)]
pub enum TopLevelItem {
    Import(ImportDecl),
    Function(FunctionDef),
}

/// `import "module" "name" (params) -> type`, with an optional calling
/// convention tag between the name and the parameter list.
#[derive(Debug, Clone, PartialEq)]
pub struct ImportDecl {
    pub module: String,
    pub name: String,
    pub calling_convention: Option<String>,
    pub params: Vec<TypedIdentifier>,
    pub return_type: Type,
}

/// `fn name(params) -> type { blocks }`; the first block is the entry.
#[derive(Debug, Clone, PartialEq)]
pub struct FunctionDef {
    pub name: String,
    pub params: Vec<TypedIdentifier>,
    pub return_type: Type,
    pub blocks: Vec<Block>,
}

/// A labelled basic block.  Block parameters play the role of phi nodes:
/// each branch into the block supplies one argument per parameter.
#[derive(Debug, Clone, PartialEq)]
pub struct Block {
    pub label: String,
    pub params: Vec<TypedIdentifier>,
    pub instructions: Vec<Instruction>,
    pub terminator: Terminator,
}

#[derive(Debug, Clone, PartialEq)]
pub enum Instruction {
    /// `dest:ty = expr`
    Assign { dest: TypedIdentifier, expr: Expression },
    /// An expression in statement position, e.g. `i32.store(p, v)` or a
    /// call of a void function.
    ExpressionStatement { expr: Expression },
}

#[derive(Debug, Clone, PartialEq)]
pub enum Expression {
    /// An operation mnemonic applied to arguments, e.g. `i32.add(a, b)`.
    /// A name that matches no mnemonic is tried as a user function call.
    Operation { op: String, args: Vec<Value> },
    /// An explicit call, e.g. `call f(a, b)`.
    Call { name: String, args: Vec<Value> },
    /// A bare integer literal in expression position.
    Constant(i32),
}

#[derive(Debug, Clone, PartialEq)]
pub enum Terminator {
    /// `ret` or `ret (v)`
    Ret(Option<Value>),
    /// `br label(args)`
    Br { label: String, args: Vec<Value> },
    /// `br_if cond, true_label(args), false_label(args)`
    BrIf {
        cond: Value,
        true_label: String,
        true_args: Vec<Value>,
        false_label: String,
        false_args: Vec<Value>,
    },
}

/// `name : ty`
#[derive(Debug, Clone, PartialEq)]
pub struct TypedIdentifier {
    pub name: String,
    pub ty: Type,
}

/// An operand: either a reference to a named SSA value or an integer
/// literal, which the lowerer materializes as a typed constant.
#[derive(Debug, Clone, PartialEq)]
pub enum Value {
    Variable(String),
    Constant(i32),
}

} // verus!
