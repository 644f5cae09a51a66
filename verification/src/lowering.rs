//! The one-pass semantic analyzer: checks an AST and lowers it to IR.
//!
//! Errors are accumulated, not fatal: lowering continues through a failing
//! construct to surface more diagnostics, and the program is yielded only
//! if the error list stays empty.

use vstd::prelude::*;
use crate::ast;
use crate::ast::Type;
use crate::ir::{
    spec_binary_result_type, spec_is_comparison, BasicBlock, BinaryOperator, BlockId, Function,
    ImportDecl, Instruction, Program, SemanticError, Terminator, UnaryOperator, ValueId,
};
use crate::text::{chars_eq_str, str_chars, str_eq};

verus! {

/// One registered signature: name, parameter types, return type.
pub(crate) struct FnSig {
    pub(crate) name: String,
    pub(crate) params: Vec<Type>,
    pub(crate) ret: Type,
}

/// One bound variable: name, value id, type.
pub(crate) struct VarBinding {
    pub(crate) name: String,
    pub(crate) id: ValueId,
    pub(crate) ty: Type,
}

/// One registered block label: name, block id, parameter types.
pub(crate) struct BlockBinding {
    pub(crate) name: String,
    pub(crate) id: BlockId,
    pub(crate) param_tys: Vec<Type>,
}

/// The index of the first signature with the given name.
pub(crate) open spec fn spec_find_sig(sigs: Seq<FnSig>, name: Seq<char>) -> Option<int>
    decreases sigs.len(),
{
    if sigs.len() == 0 {
        None
    } else if sigs[0].name@ == name {
        Some(0)
    } else {
        match spec_find_sig(sigs.drop_first(), name) {
            Some(i) => Some(i + 1),
            None => None,
        }
    }
}

proof fn lemma_find_sig_first(sigs: Seq<FnSig>, name: Seq<char>, i: int)
    requires
        0 <= i <= sigs.len(),
        forall|j: int| 0 <= j < i ==> sigs[j].name@ != name,
    ensures
        i < sigs.len() && sigs[i].name@ == name ==> spec_find_sig(sigs, name) == Some(i),
        i == sigs.len() ==> spec_find_sig(sigs, name) is None,
    decreases sigs.len(),
{
    if sigs.len() == 0 {
    } else if i == 0 {
    } else {
        let rest = sigs.drop_first();
        assert(forall|j: int| 0 <= j < i - 1 ==> rest[j] == sigs[j + 1]);
        lemma_find_sig_first(rest, name, i - 1);
        if i < sigs.len() && sigs[i].name@ == name {
            assert(rest[i - 1] == sigs[i]);
        }
    }
}

/// The index of the first variable binding with the given name.
pub(crate) open spec fn spec_find_var(vars: Seq<VarBinding>, name: Seq<char>) -> Option<int>
    decreases vars.len(),
{
    if vars.len() == 0 {
        None
    } else if vars[0].name@ == name {
        Some(0)
    } else {
        match spec_find_var(vars.drop_first(), name) {
            Some(i) => Some(i + 1),
            None => None,
        }
    }
}

proof fn lemma_find_var_first(vars: Seq<VarBinding>, name: Seq<char>, i: int)
    requires
        0 <= i <= vars.len(),
        forall|j: int| 0 <= j < i ==> vars[j].name@ != name,
    ensures
        i < vars.len() && vars[i].name@ == name ==> spec_find_var(vars, name) == Some(i),
        i == vars.len() ==> spec_find_var(vars, name) is None,
    decreases vars.len(),
{
    if vars.len() == 0 {
    } else if i == 0 {
    } else {
        let rest = vars.drop_first();
        assert(forall|j: int| 0 <= j < i - 1 ==> rest[j] == vars[j + 1]);
        lemma_find_var_first(rest, name, i - 1);
        if i < vars.len() && vars[i].name@ == name {
            assert(rest[i - 1] == vars[i]);
        }
    }
}

/// A found variable index is in bounds and carries the name.
proof fn lemma_find_var_ok(vars: Seq<VarBinding>, n: Seq<char>)
    ensures
        spec_find_var(vars, n) matches Some(i) ==> 0 <= i < vars.len()
            && vars[i].name@ == n,
    decreases vars.len(),
{
    if vars.len() > 0 && vars[0].name@ != n {
        lemma_find_var_ok(vars.drop_first(), n);
    }
}

/// Appending a binding does not disturb the first match of an already
/// bound name.
proof fn lemma_find_var_push(vars: Seq<VarBinding>, b: VarBinding, n: Seq<char>)
    ensures
        spec_find_var(vars, n) matches Some(i)
            ==> spec_find_var(vars.push(b), n) == Some(i)
                && vars.push(b)[i] == vars[i],
    decreases vars.len(),
{
    if vars.len() > 0 {
        if vars[0].name@ == n {
            assert(vars.push(b)[0] == vars[0]);
        } else {
            assert(vars.push(b).drop_first() =~= vars.drop_first().push(b));
            lemma_find_var_push(vars.drop_first(), b, n);
            lemma_find_var_ok(vars.drop_first(), n);
            if spec_find_var(vars, n) is Some {
                let i = spec_find_var(vars.drop_first(), n)->0;
                assert(vars.drop_first().push(b)[i] == vars.drop_first()[i]);
                assert(vars.push(b)[i + 1] == vars.push(b).drop_first()[i]);
                assert(vars[i + 1] == vars.drop_first()[i]);
            }
        }
    }
}

/// The index of the first block binding with the given label.
pub(crate) open spec fn spec_find_label(blocks: Seq<BlockBinding>, name: Seq<char>) -> Option<int>
    decreases blocks.len(),
{
    if blocks.len() == 0 {
        None
    } else if blocks[0].name@ == name {
        Some(0)
    } else {
        match spec_find_label(blocks.drop_first(), name) {
            Some(i) => Some(i + 1),
            None => None,
        }
    }
}

proof fn lemma_find_label_first(blocks: Seq<BlockBinding>, name: Seq<char>, i: int)
    requires
        0 <= i <= blocks.len(),
        forall|j: int| 0 <= j < i ==> blocks[j].name@ != name,
    ensures
        i < blocks.len() && blocks[i].name@ == name ==> spec_find_label(blocks, name) == Some(i),
        i == blocks.len() ==> spec_find_label(blocks, name) is None,
    decreases blocks.len(),
{
    if blocks.len() == 0 {
    } else if i == 0 {
    } else {
        let rest = blocks.drop_first();
        assert(forall|j: int| 0 <= j < i - 1 ==> rest[j] == blocks[j + 1]);
        lemma_find_label_first(rest, name, i - 1);
        if i < blocks.len() && blocks[i].name@ == name {
            assert(rest[i - 1] == blocks[i]);
        }
    }
}

/// Context for lowering: the signature table, the per-function scopes,
/// and the accumulated errors.
pub struct LoweringContext {
    pub(crate) functions: Vec<FnSig>,
    pub(crate) value_map: Vec<VarBinding>,
    pub(crate) block_map: Vec<BlockBinding>,
    pub(crate) errors: Vec<SemanticError>,
    pub(crate) next_block_id: usize,
    pub(crate) current_return: Option<Type>,
}

impl LoweringContext {
    /// The accumulated semantic errors.
    pub closed spec fn spec_errors(&self) -> Seq<SemanticError> {
        self.errors@
    }

    /// A fresh context: nothing registered, no errors.
    pub fn new() -> (ctx: LoweringContext)
        ensures
            ctx.spec_errors() =~= Seq::<SemanticError>::empty(),
    {
        Self::fresh()
    }

    fn fresh() -> (ctx: LoweringContext)
        ensures
            ctx.errors@ =~= Seq::<SemanticError>::empty(),
            ctx.functions@.len() == 0,
            ctx.value_map@.len() == 0,
            ctx.block_map@.len() == 0,
            ctx.next_block_id == 0,
    {
        LoweringContext {
            functions: Vec::new(),
            value_map: Vec::new(),
            block_map: Vec::new(),
            errors: Vec::new(),
            next_block_id: 0,
            current_return: None,
        }
    }

    /// Record one semantic error.
    fn error(&mut self, e: SemanticError)
        ensures
            final(self).errors@ =~= old(self).errors@.push(e),
            final(self).functions == old(self).functions,
            final(self).value_map == old(self).value_map,
            final(self).block_map == old(self).block_map,
            final(self).next_block_id == old(self).next_block_id,
            final(self).current_return == old(self).current_return,
    {
        self.errors.push(e);
    }

    /// Allocate the next dense block id for the current function, or fail
    /// (recording an error) if the id space is exhausted.
    fn next_block(&mut self) -> (r: Result<BlockId, ()>)
        ensures
            final(self).functions == old(self).functions,
            final(self).value_map == old(self).value_map,
            final(self).block_map == old(self).block_map,
            match r {
                Ok(id) => id.0 == old(self).next_block_id
                    && final(self).next_block_id == old(self).next_block_id + 1
                    && final(self).errors == old(self).errors,
                Err(()) => final(self).errors@.len() > old(self).errors@.len(),
            },
            forall|j: int| 0 <= j < old(self).errors@.len()
                ==> final(self).errors@[j] == old(self).errors@[j],
    {
        if self.next_block_id == usize::MAX {
            self.error(SemanticError::InvalidOperation {
                operation: "too many blocks".to_owned(),
                ty: Type::Void,
                location: "block allocation".to_owned(),
            });
            return Err(());
        }
        let id = BlockId(self.next_block_id);
        self.next_block_id = self.next_block_id + 1;
        Ok(id)
    }

    /// Register a function or import signature, diagnosing a duplicate
    /// name.
    fn register_function(&mut self, name: String, params: Vec<Type>, ret: Type)
        ensures
            final(self).value_map == old(self).value_map,
            final(self).block_map == old(self).block_map,
            final(self).next_block_id == old(self).next_block_id,
            forall|j: int| 0 <= j < old(self).errors@.len()
                ==> final(self).errors@[j] == old(self).errors@[j],
            match spec_find_sig(old(self).functions@, name@) {
                Some(_) => final(self).functions == old(self).functions
                    && final(self).errors@.len() == old(self).errors@.len() + 1
                    && final(self).errors@.last() matches
                        SemanticError::DuplicateDefinition { .. },
                None => final(self).errors == old(self).errors
                    && final(self).functions@.len() == old(self).functions@.len() + 1
                    && final(self).functions@.last().name@ == name@
                    && final(self).functions@.last().params == params
                    && final(self).functions@.last().ret == ret
                    && forall|j: int| 0 <= j < old(self).functions@.len()
                        ==> final(self).functions@[j] == old(self).functions@[j],
            },
    {
        let n: usize = self.functions.len();
        let mut i: usize = 0;
        while i < n
            invariant
                n == self.functions@.len(),
                i <= n,
                *self == *old(self),
                forall|j: int| 0 <= j < i ==> self.functions@[j].name@ != name@,
            decreases n - i,
        {
            if str_eq(self.functions[i].name.as_str(), name.as_str()) {
                proof {
                    lemma_find_sig_first(self.functions@, name@, i as int);
                }
                self.error(SemanticError::DuplicateDefinition {
                    name,
                    location: "function definition".to_owned(),
                });
                return;
            }
            i = i + 1;
        }
        proof {
            lemma_find_sig_first(self.functions@, name@, n as int);
        }
        self.functions.push(FnSig { name, params, ret });
    }

    /// Look up a signature, returning a copy of its parameter types and
    /// return type.
    fn lookup_function(&self, name: &str) -> (r: Option<(Vec<Type>, Type)>)
        ensures
            match spec_find_sig(self.functions@, name@) {
                Some(i) => r matches Some((ps, ret))
                    && ps@ == self.functions@[i].params@
                    && ret == self.functions@[i].ret,
                None => r is None,
            },
    {
        let n: usize = self.functions.len();
        let mut i: usize = 0;
        while i < n
            invariant
                n == self.functions@.len(),
                i <= n,
                forall|j: int| 0 <= j < i ==> self.functions@[j].name@ != name@,
            decreases n - i,
        {
            if str_eq(self.functions[i].name.as_str(), name) {
                proof {
                    lemma_find_sig_first(self.functions@, name@, i as int);
                }
                let ps = copy_types(&self.functions[i].params);
                return Some((ps, self.functions[i].ret));
            }
            i = i + 1;
        }
        proof {
            lemma_find_sig_first(self.functions@, name@, n as int);
        }
        None
    }

    /// Bind a variable name in the current scope, diagnosing a duplicate.
    fn register_variable(&mut self, name: String, id: ValueId, ty: Type)
        ensures
            final(self).functions == old(self).functions,
            final(self).block_map == old(self).block_map,
            final(self).next_block_id == old(self).next_block_id,
            final(self).current_return == old(self).current_return,
            forall|j: int| 0 <= j < old(self).errors@.len()
                ==> final(self).errors@[j] == old(self).errors@[j],
            match spec_find_var(old(self).value_map@, name@) {
                Some(_) => final(self).value_map == old(self).value_map
                    && final(self).errors@.len() == old(self).errors@.len() + 1
                    && final(self).errors@.last() matches
                        SemanticError::DuplicateDefinition { .. },
                None => final(self).errors == old(self).errors
                    && final(self).value_map@.len() == old(self).value_map@.len() + 1
                    && final(self).value_map@.last().name@ == name@
                    && final(self).value_map@.last().id == id
                    && final(self).value_map@.last().ty == ty
                    && forall|j: int| 0 <= j < old(self).value_map@.len()
                        ==> final(self).value_map@[j] == old(self).value_map@[j],
            },
    {
        let n: usize = self.value_map.len();
        let mut i: usize = 0;
        while i < n
            invariant
                n == self.value_map@.len(),
                i <= n,
                *self == *old(self),
                forall|j: int| 0 <= j < i ==> self.value_map@[j].name@ != name@,
            decreases n - i,
        {
            if str_eq(self.value_map[i].name.as_str(), name.as_str()) {
                proof {
                    lemma_find_var_first(self.value_map@, name@, i as int);
                }
                self.error(SemanticError::DuplicateDefinition {
                    name,
                    location: "variable definition".to_owned(),
                });
                return;
            }
            i = i + 1;
        }
        proof {
            lemma_find_var_first(self.value_map@, name@, n as int);
        }
        self.value_map.push(VarBinding { name, id, ty });
    }

    /// Look up a variable in the current scope.
    fn lookup_variable(&self, name: &str) -> (r: Option<(ValueId, Type)>)
        ensures
            match spec_find_var(self.value_map@, name@) {
                Some(i) => r == Some((self.value_map@[i].id, self.value_map@[i].ty)),
                None => r is None,
            },
    {
        let n: usize = self.value_map.len();
        let mut i: usize = 0;
        while i < n
            invariant
                n == self.value_map@.len(),
                i <= n,
                forall|j: int| 0 <= j < i ==> self.value_map@[j].name@ != name@,
            decreases n - i,
        {
            if str_eq(self.value_map[i].name.as_str(), name) {
                proof {
                    lemma_find_var_first(self.value_map@, name@, i as int);
                }
                return Some((self.value_map[i].id, self.value_map[i].ty));
            }
            i = i + 1;
        }
        proof {
            lemma_find_var_first(self.value_map@, name@, n as int);
        }
        None
    }

    /// Register a block label for the current function, diagnosing a
    /// duplicate.
    fn register_block(&mut self, name: String, id: BlockId, param_tys: Vec<Type>)
        ensures
            final(self).functions == old(self).functions,
            final(self).value_map == old(self).value_map,
            final(self).next_block_id == old(self).next_block_id,
            final(self).current_return == old(self).current_return,
            forall|j: int| 0 <= j < old(self).errors@.len()
                ==> final(self).errors@[j] == old(self).errors@[j],
            match spec_find_label(old(self).block_map@, name@) {
                Some(_) => final(self).block_map == old(self).block_map
                    && final(self).errors@.len() == old(self).errors@.len() + 1
                    && final(self).errors@.last() matches
                        SemanticError::DuplicateDefinition { .. },
                None => final(self).errors == old(self).errors
                    && final(self).block_map@.len() == old(self).block_map@.len() + 1
                    && final(self).block_map@.last().name@ == name@
                    && final(self).block_map@.last().id == id,
            },
    {
        let n: usize = self.block_map.len();
        let mut i: usize = 0;
        while i < n
            invariant
                n == self.block_map@.len(),
                i <= n,
                *self == *old(self),
                forall|j: int| 0 <= j < i ==> self.block_map@[j].name@ != name@,
            decreases n - i,
        {
            if str_eq(self.block_map[i].name.as_str(), name.as_str()) {
                proof {
                    lemma_find_label_first(self.block_map@, name@, i as int);
                }
                self.error(SemanticError::DuplicateDefinition {
                    name,
                    location: "block label".to_owned(),
                });
                return;
            }
            i = i + 1;
        }
        proof {
            lemma_find_label_first(self.block_map@, name@, n as int);
        }
        self.block_map.push(BlockBinding { name, id, param_tys });
    }

    /// Look up a block label, returning its id and a copy of its
    /// parameter types.
    fn lookup_block(&self, name: &str) -> (r: Option<(BlockId, Vec<Type>)>)
        ensures
            match spec_find_label(self.block_map@, name@) {
                Some(i) => r matches Some((id, tys)) && id == self.block_map@[i].id
                    && tys@ == self.block_map@[i].param_tys@,
                None => r is None,
            },
    {
        let n: usize = self.block_map.len();
        let mut i: usize = 0;
        while i < n
            invariant
                n == self.block_map@.len(),
                i <= n,
                forall|j: int| 0 <= j < i ==> self.block_map@[j].name@ != name@,
            decreases n - i,
        {
            if str_eq(self.block_map[i].name.as_str(), name) {
                proof {
                    lemma_find_label_first(self.block_map@, name@, i as int);
                }
                let tys = copy_types(&self.block_map[i].param_tys);
                return Some((self.block_map[i].id, tys));
            }
            i = i + 1;
        }
        proof {
            lemma_find_label_first(self.block_map@, name@, n as int);
        }
        None
    }

    /// Clear function-local state: the variable scope, the label table
    /// and the block counter.
    fn clear_function_scope(&mut self)
        ensures
            final(self).functions == old(self).functions,
            final(self).errors == old(self).errors,
            final(self).value_map@.len() == 0,
            final(self).block_map@.len() == 0,
            final(self).next_block_id == 0,
            final(self).current_return is None,
    {
        self.value_map = Vec::new();
        self.block_map = Vec::new();
        self.next_block_id = 0;
        self.current_return = None;
    }
}

/// Copy a vector of types.
fn copy_types(v: &Vec<Type>) -> (r: Vec<Type>)
    ensures
        r@ == v@,
{
    let n: usize = v.len();
    let mut r: Vec<Type> = Vec::new();
    let mut i: usize = 0;
    while i < n
        invariant
            n == v@.len(),
            i <= n,
            r@ =~= v@.subrange(0, i as int),
        decreases n - i,
    {
        r.push(v[i]);
        proof {
            assert(r@ =~= v@.subrange(0, i + 1));
        }
        i = i + 1;
    }
    proof {
        assert(v@.subrange(0, n as int) =~= v@);
    }
    r
}

/// Allocate a fresh value id, or record an error when the id space is
/// exhausted.
fn fresh_value(ctx: &mut LoweringContext, func: &mut Function) -> (r: Result<ValueId, ()>)
    ensures
        final(ctx).functions == old(ctx).functions,
        final(ctx).block_map == old(ctx).block_map,
        final(ctx).value_map == old(ctx).value_map,
        final(ctx).next_block_id == old(ctx).next_block_id,
        final(ctx).current_return == old(ctx).current_return,
        final(func).name == old(func).name,
        final(func).params == old(func).params,
        final(func).return_type == old(func).return_type,
        final(func).blocks == old(func).blocks,
        final(func).entry_block == old(func).entry_block,
        final(func).constants == old(func).constants,
        match r {
            Ok(id) => id == old(func).next_value_id
                && final(func).next_value_id.0 == old(func).next_value_id.0 + 1
                && final(ctx).errors == old(ctx).errors,
            Err(()) => final(ctx).errors@.len() > old(ctx).errors@.len()
                && *final(func) == *old(func),
        },
        forall|j: int| 0 <= j < old(ctx).errors@.len()
            ==> final(ctx).errors@[j] == old(ctx).errors@[j],
        old(func).next_value_id.0 < usize::MAX ==> r is Ok,
{
    if func.next_value_id.0 == usize::MAX {
        ctx.error(SemanticError::InvalidOperation {
            operation: "too many values".to_owned(),
            ty: Type::Void,
            location: "value allocation".to_owned(),
        });
        return Err(());
    }
    Ok(func.next_value())
}

/// Resolve an operand: a variable is looked up in the scope (an unknown
/// name records `UndefinedIdentifier`); an integer literal is
/// materialized as a fresh constant of the expected type.
fn lower_value_with_func(ctx: &mut LoweringContext, func: &mut Function, value: &ast::Value,
    expected_type: Type)
    -> (r: Result<(ValueId, Type), ()>)
    ensures
        final(ctx).functions == old(ctx).functions,
        final(ctx).block_map == old(ctx).block_map,
        final(ctx).value_map == old(ctx).value_map,
        final(ctx).next_block_id == old(ctx).next_block_id,
        final(ctx).current_return == old(ctx).current_return,
        func_frame_ok(*old(func), *final(func)),
        final(func).next_value_id.0 <= old(func).next_value_id.0 + 1,
        final(ctx).errors@.len() >= old(ctx).errors@.len(),
        forall|j: int| 0 <= j < old(ctx).errors@.len()
            ==> final(ctx).errors@[j] == old(ctx).errors@[j],
        r is Err ==> final(ctx).errors@.len() > old(ctx).errors@.len(),
        match *value {
            ast::Value::Variable(_) => *final(func) == *old(func),
            ast::Value::Constant(c) => r matches Ok((id, t)) ==> t == expected_type
                && final(func).constants@ == old(func).constants@.push(
                    (id, c as i64, expected_type)),
        },
        *value matches ast::Value::Variable(n) ==> (r matches Ok(p) ==> (
            spec_find_var(old(ctx).value_map@, n@) matches Some(i)
                && p.0 == old(ctx).value_map@[i].id && p.1 == old(ctx).value_map@[i].ty)),
        *value matches ast::Value::Variable(n) ==> (
            spec_find_var(old(ctx).value_map@, n@) is None ==> r is Err
                && final(ctx).errors@.last() matches
                    SemanticError::UndefinedIdentifier { .. }),
        *value matches ast::Value::Variable(n) ==> (
            spec_find_var(old(ctx).value_map@, n@) is Some ==> r is Ok),
        *value matches ast::Value::Constant(_) ==> (
            old(func).next_value_id.0 < usize::MAX ==> r is Ok),
{
    match value {
        ast::Value::Variable(name) => {
            match ctx.lookup_variable(name.as_str()) {
                Some((id, ty)) => Ok((id, ty)),
                None => {
                    ctx.error(SemanticError::UndefinedIdentifier {
                        name: name.clone(),
                        location: "variable reference".to_owned(),
                    });
                    Err(())
                }
            }
        }
        ast::Value::Constant(c) => {
            let id = match fresh_value(ctx, func) {
                Ok(id) => id,
                Err(()) => {
                    return Err(());
                }
            };
            self_push_const(func, id, *c as i64, expected_type);
            Ok((id, expected_type))
        }
    }
}

/// Append one constant-table entry.
fn self_push_const(func: &mut Function, id: ValueId, value: i64, ty: Type)
    ensures
        final(func).constants@ == old(func).constants@.push((id, value, ty)),
        final(func).name == old(func).name,
        final(func).params == old(func).params,
        final(func).return_type == old(func).return_type,
        final(func).blocks == old(func).blocks,
        final(func).entry_block == old(func).entry_block,
        final(func).next_value_id == old(func).next_value_id,
{
    func.constants.push((id, value, ty));
}

/// What lowering leaves untouched in the context: the signature table,
/// the label table, the block counter and the expected return type; and
/// errors only accumulate.
pub(crate) open spec fn ctx_frame_ok(o: LoweringContext, n: LoweringContext) -> bool {
    n.functions == o.functions && n.block_map == o.block_map
        && n.next_block_id == o.next_block_id && n.current_return == o.current_return
        && n.errors@.len() >= o.errors@.len()
        && (forall|j: int| 0 <= j < o.errors@.len()
            ==> n.errors@[j] == o.errors@[j])
}

/// What lowering an instruction leaves untouched in the function under
/// construction: everything but the value counter and the constants.
pub(crate) open spec fn func_frame_ok(o: Function, n: Function) -> bool {
    n.name == o.name && n.params == o.params && n.return_type == o.return_type
        && n.blocks == o.blocks && n.entry_block == o.entry_block
}

/// The type a mnemonic's type prefix denotes; `ptr` is an alias for
/// `usize`.
pub open spec fn spec_type_of_name(s: Seq<char>) -> Option<Type> {
    if s == "i32"@ {
        Some(Type::I32)
    } else if s == "i64"@ {
        Some(Type::I64)
    } else if s == "f32"@ {
        Some(Type::F32)
    } else if s == "f64"@ {
        Some(Type::F64)
    } else if s == "ptr"@ {
        Some(Type::Usize)
    } else if s == "usize"@ {
        Some(Type::Usize)
    } else if s == "void"@ {
        Some(Type::Void)
    } else {
        None
    }
}

/// Map a type-prefix spelling to its type.
fn type_from_chars(s: &[char]) -> (r: Option<Type>)
    ensures
        r == spec_type_of_name(s@),
{
    if chars_eq_str(s, "i32") {
        Some(Type::I32)
    } else if chars_eq_str(s, "i64") {
        Some(Type::I64)
    } else if chars_eq_str(s, "f32") {
        Some(Type::F32)
    } else if chars_eq_str(s, "f64") {
        Some(Type::F64)
    } else if chars_eq_str(s, "ptr") {
        Some(Type::Usize)
    } else if chars_eq_str(s, "usize") {
        Some(Type::Usize)
    } else if chars_eq_str(s, "void") {
        Some(Type::Void)
    } else {
        None
    }
}

/// The first-dot split of a mnemonic: the text before the first `.` and
/// the text after it.
pub open spec fn spec_dot_split(s: Seq<char>) -> Option<(Seq<char>, Seq<char>)>
    decreases s.len(),
{
    if s.len() == 0 {
        None
    } else if s[0] == '.' {
        Some((Seq::empty(), s.drop_first()))
    } else {
        match spec_dot_split(s.drop_first()) {
            Some(p) => Some((seq![s[0]] + p.0, p.1)),
            None => None,
        }
    }
}

/// The first-dot characterization: a dot at `d` with none before it
/// splits the mnemonic at `d`.
proof fn lemma_dot_split_at(s: Seq<char>, d: int)
    requires
        0 <= d < s.len(),
        s[d] == '.',
        forall|j: int| 0 <= j < d ==> s[j] != '.',
    ensures
        spec_dot_split(s) == Some((s.take(d), s.skip(d + 1))),
    decreases d,
{
    if d == 0 {
        assert(s.take(0) =~= Seq::<char>::empty());
        assert(s.skip(1) =~= s.drop_first());
    } else {
        let rest = s.drop_first();
        assert(forall|j: int| 0 <= j < d - 1 ==> rest[j] == s[j + 1]);
        assert(rest[d - 1] == s[d]);
        lemma_dot_split_at(rest, d - 1);
        assert(seq![s[0]] + rest.take(d - 1) =~= s.take(d));
        assert(rest.skip(d) =~= s.skip(d + 1));
    }
}

proof fn lemma_dot_split_none(s: Seq<char>)
    requires
        forall|j: int| 0 <= j < s.len() ==> s[j] != '.',
    ensures
        spec_dot_split(s) is None,
    decreases s.len(),
{
    if s.len() > 0 {
        let rest = s.drop_first();
        assert(forall|j: int| 0 <= j < rest.len() ==> rest[j] == s[j + 1]);
        lemma_dot_split_none(rest);
    }
}

/// The reserved operation suffixes are not binary-operator mnemonics.
proof fn lemma_not_binop_name(w: Seq<char>)
    requires
        w == "load"@ || w == "const"@ || w == "extend"@ || w == "trunc"@,
    ensures
        crate::ir::spec_binary_operator(w) is None,
{
    reveal_strlit("load");
    reveal_strlit("const");
    reveal_strlit("extend");
    reveal_strlit("trunc");
    reveal_strlit("add");
    reveal_strlit("sub");
    reveal_strlit("mul");
    reveal_strlit("div");
    reveal_strlit("rem");
    reveal_strlit("and");
    reveal_strlit("or");
    reveal_strlit("xor");
    reveal_strlit("shl");
    reveal_strlit("shr");
    reveal_strlit("eq");
    reveal_strlit("ne");
    reveal_strlit("lt");
    reveal_strlit("le");
    reveal_strlit("gt");
    reveal_strlit("ge");
    assert(w.len() >= 4);
}

/// A mnemonic with the `sizeof.` prefix splits at that dot, and its type
/// part is no type name.
proof fn lemma_sizeof_prefix_not_type(s: Seq<char>)
    requires
        s.len() >= 7,
        s.subrange(0, 7) == "sizeof."@,
    ensures
        match spec_dot_split(s) {
            Some(p) => spec_type_of_name(p.0) is None,
            None => true,
        },
{
    reveal_strlit("sizeof.");
    reveal_strlit("i32");
    reveal_strlit("i64");
    reveal_strlit("f32");
    reveal_strlit("f64");
    reveal_strlit("ptr");
    reveal_strlit("usize");
    reveal_strlit("void");
    assert(forall|j: int| 0 <= j < 7 ==> s[j] == "sizeof."@[j]);
    assert(s[6] == '.');
    assert(forall|j: int| 0 <= j < 6 ==> s[j] != '.');
    lemma_dot_split_at(s, 6);
    let tp = s.take(6);
    assert(tp.len() == 6);
}

/// The index of the first `.` in a mnemonic, if any.
fn find_dot(s: &[char]) -> (r: Option<usize>)
    ensures
        match r {
            Some(i) => i < s@.len() && s@[i as int] == '.'
                && forall|j: int| 0 <= j < i ==> s@[j] != '.',
            None => forall|j: int| 0 <= j < s@.len() ==> s@[j] != '.',
        },
{
    let n: usize = s.len();
    let mut i: usize = 0;
    while i < n
        invariant
            n == s@.len(),
            i <= n,
            forall|j: int| 0 <= j < i ==> s@[j] != '.',
        decreases n - i,
    {
        if s[i] == '.' {
            return Some(i);
        }
        i = i + 1;
    }
    None
}

/// Whether an operand surely resolves at the expected type: a variable
/// bound with exactly that type, or an integer literal with room in the
/// value counter to materialize it.
pub(crate) open spec fn spec_operand_accepts(ctx: LoweringContext, func: Function,
    v: ast::Value, expected: Type) -> bool
{
    match v {
        ast::Value::Variable(n) => spec_find_var(ctx.value_map@, n@) matches Some(i)
            && ctx.value_map@[i].ty == expected,
        ast::Value::Constant(_) => func.next_value_id.0 < usize::MAX,
    }
}

/// Resolve an operand against an expected type, recording a
/// `TypeMismatch` when a variable of another type is supplied.
fn lower_operand_typed(ctx: &mut LoweringContext, func: &mut Function, v: &ast::Value,
    expected: Type)
    -> (r: Result<ValueId, ()>)
    ensures
        ctx_frame_ok(*old(ctx), *final(ctx)),
        func_frame_ok(*old(func), *final(func)),
        final(ctx).value_map == old(ctx).value_map,
        final(func).next_value_id.0 <= old(func).next_value_id.0 + 1,
        r is Err ==> final(ctx).errors@.len() > old(ctx).errors@.len(),
        spec_operand_accepts(*old(ctx), *old(func), *v, expected) ==> r is Ok,
{
    match lower_value_with_func(ctx, func, v, expected) {
        Ok((id, ty)) => {
            if ty != expected {
                ctx.error(SemanticError::TypeMismatch {
                    expected,
                    found: ty,
                    location: "operand".to_owned(),
                });
                Err(())
            } else {
                Ok(id)
            }
        }
        Err(()) => Err(()),
    }
}

/// Lower a call's arguments against the callee's parameter types.
fn lower_call_args(ctx: &mut LoweringContext, func: &mut Function, args: &Vec<ast::Value>,
    param_types: &Vec<Type>)
    -> (r: Result<Vec<ValueId>, ()>)
    requires
        args@.len() == param_types@.len(),
    ensures
        ctx_frame_ok(*old(ctx), *final(ctx)),
        func_frame_ok(*old(func), *final(func)),
        final(ctx).value_map == old(ctx).value_map,
        r is Err ==> final(ctx).errors@.len() > old(ctx).errors@.len(),
        r matches Ok(ids) ==> ids@.len() == args@.len(),
{
    let n: usize = args.len();
    let mut ids: Vec<ValueId> = Vec::new();
    let mut i: usize = 0;
    while i < n
        invariant
            n == args@.len(),
            n == param_types@.len(),
            i <= n,
            ids@.len() == i,
            ctx_frame_ok(*old(ctx), *ctx),
            func_frame_ok(*old(func), *func),
            ctx.value_map == old(ctx).value_map,
        decreases n - i,
    {
        match lower_operand_typed(ctx, func, &args[i], param_types[i]) {
            Ok(id) => {
                ids.push(id);
            }
            Err(()) => {
                return Err(());
            }
        }
        i = i + 1;
    }
    Ok(ids)
}

/// Lower a call in assignment position: the callee must exist, take the
/// given arguments, and return the destination's type.
fn lower_call_assign(ctx: &mut LoweringContext, func: &mut Function, dest_ty: Type,
    dest_id: ValueId, name: &String, args: &Vec<ast::Value>)
    -> (r: Result<Instruction, ()>)
    ensures
        ctx_frame_ok(*old(ctx), *final(ctx)),
        func_frame_ok(*old(func), *final(func)),
        final(ctx).value_map == old(ctx).value_map,
        r is Err ==> final(ctx).errors@.len() > old(ctx).errors@.len(),
        r matches Ok(i2) ==> i2 matches Instruction::Call { dest, return_type, .. }
            && dest == dest_id && return_type == dest_ty,
{
    match ctx.lookup_function(name.as_str()) {
        Some((param_types, return_type)) => {
            if args.len() != param_types.len() {
                ctx.error(SemanticError::ArgumentMismatch {
                    function: name.clone(),
                    expected: param_types.len(),
                    found: args.len(),
                    location: "function call".to_owned(),
                });
                return Err(());
            }
            if return_type != dest_ty {
                ctx.error(SemanticError::TypeMismatch {
                    expected: dest_ty,
                    found: return_type,
                    location: "function call return type".to_owned(),
                });
                return Err(());
            }
            match lower_call_args(ctx, func, args, &param_types) {
                Ok(ids) => Ok(Instruction::Call {
                    dest: dest_id,
                    function: name.clone(),
                    args: ids,
                    return_type: dest_ty,
                }),
                Err(()) => Err(()),
            }
        }
        None => {
            ctx.error(SemanticError::FunctionNotFound {
                name: name.clone(),
                location: "function call".to_owned(),
            });
            Err(())
        }
    }
}

/// Lower a call in statement position: the callee must exist, return
/// `void`, and take the given arguments.
fn lower_call_void(ctx: &mut LoweringContext, func: &mut Function, name: &String,
    args: &Vec<ast::Value>)
    -> (r: Result<Instruction, ()>)
    ensures
        ctx_frame_ok(*old(ctx), *final(ctx)),
        func_frame_ok(*old(func), *final(func)),
        final(ctx).value_map == old(ctx).value_map,
        r is Err ==> final(ctx).errors@.len() > old(ctx).errors@.len(),
{
    match ctx.lookup_function(name.as_str()) {
        Some((param_types, return_type)) => {
            if return_type != Type::Void {
                ctx.error(SemanticError::TypeMismatch {
                    expected: Type::Void,
                    found: return_type,
                    location: "void function call".to_owned(),
                });
                return Err(());
            }
            if args.len() != param_types.len() {
                ctx.error(SemanticError::ArgumentMismatch {
                    function: name.clone(),
                    expected: param_types.len(),
                    found: args.len(),
                    location: "void function call".to_owned(),
                });
                return Err(());
            }
            match lower_call_args(ctx, func, args, &param_types) {
                Ok(ids) => Ok(Instruction::CallVoid { function: name.clone(), args: ids }),
                Err(()) => Err(()),
            }
        }
        None => {
            ctx.error(SemanticError::FunctionNotFound {
                name: name.clone(),
                location: "void function call".to_owned(),
            });
            Err(())
        }
    }
}

/// The conversion a `<src>.to_<dst>` mnemonic denotes: any ordered pair
/// of `i32`, `i64` and `usize`.
pub open spec fn spec_conversion_pair(type_part: Seq<char>, op_part: Seq<char>)
    -> Option<(Type, Type)>
{
    if type_part == "i32"@ && op_part == "to_i64"@ {
        Some((Type::I32, Type::I64))
    } else if type_part == "i32"@ && op_part == "to_usize"@ {
        Some((Type::I32, Type::Usize))
    } else if type_part == "i64"@ && op_part == "to_i32"@ {
        Some((Type::I64, Type::I32))
    } else if type_part == "i64"@ && op_part == "to_usize"@ {
        Some((Type::I64, Type::Usize))
    } else if type_part == "usize"@ && op_part == "to_i64"@ {
        Some((Type::Usize, Type::I64))
    } else if type_part == "usize"@ && op_part == "to_i32"@ {
        Some((Type::Usize, Type::I32))
    } else {
        None
    }
}

/// Lower a `<src>.to_<dst>` conversion mnemonic to a `Convert`
/// instruction, checking the pair, the destination and the operand type.
fn handle_conversion_operation(ctx: &mut LoweringContext, func: &mut Function,
    dest_ty: Type, dest_id: ValueId, type_part: &[char], op_part: &[char],
    args: &Vec<ast::Value>)
    -> (r: Result<Instruction, ()>)
    ensures
        ctx_frame_ok(*old(ctx), *final(ctx)),
        func_frame_ok(*old(func), *final(func)),
        final(ctx).value_map == old(ctx).value_map,
        r is Err ==> final(ctx).errors@.len() > old(ctx).errors@.len(),
        r matches Ok(i2) ==> i2 matches Instruction::Convert { dest, to_ty, .. }
            && dest == dest_id && to_ty == dest_ty,
        r matches Ok(i2) ==> (i2 matches Instruction::Convert {
            dest: _, src: _, from_ty, to_ty }
            && spec_conversion_pair(type_part@, op_part@) == Some((from_ty, to_ty))),
        ({
            match spec_conversion_pair(type_part@, op_part@) {
                Some(pair) => (dest_ty == pair.1 && args@.len() == 1
                    && spec_operand_accepts(*old(ctx), *old(func), args@[0], pair.0))
                    ==> r is Ok,
                None => r is Err,
            }
        }),
{
    proof {
        reveal_strlit("i32");
        reveal_strlit("i64");
        reveal_strlit("usize");
        reveal_strlit("to_i32");
        reveal_strlit("to_i64");
        reveal_strlit("to_usize");
    }
    if args.len() != 1 {
        ctx.error(SemanticError::InvalidOperation {
            operation: "conversion".to_owned(),
            ty: dest_ty,
            location: "conversion operation".to_owned(),
        });
        return Err(());
    }
    let pair: Option<(Type, Type)> = if chars_eq_str(type_part, "i32") {
        if chars_eq_str(op_part, "to_i64") {
            Some((Type::I32, Type::I64))
        } else if chars_eq_str(op_part, "to_usize") {
            Some((Type::I32, Type::Usize))
        } else {
            None
        }
    } else if chars_eq_str(type_part, "i64") {
        if chars_eq_str(op_part, "to_i32") {
            Some((Type::I64, Type::I32))
        } else if chars_eq_str(op_part, "to_usize") {
            Some((Type::I64, Type::Usize))
        } else {
            None
        }
    } else if chars_eq_str(type_part, "usize") {
        if chars_eq_str(op_part, "to_i64") {
            Some((Type::Usize, Type::I64))
        } else if chars_eq_str(op_part, "to_i32") {
            Some((Type::Usize, Type::I32))
        } else {
            None
        }
    } else {
        None
    };
    proof {
        reveal_strlit("i32");
        reveal_strlit("i64");
        reveal_strlit("usize");
        reveal_strlit("to_i32");
        reveal_strlit("to_i64");
        reveal_strlit("to_usize");
        assert("i32"@[1] == '3' && "i64"@[1] == '6');
        assert("to_i32"@[4] == '3' && "to_i64"@[4] == '6');
        assert("i32"@ != "i64"@ && "i32"@ != "usize"@ && "i64"@ != "usize"@);
        assert("to_i32"@ != "to_i64"@ && "to_i32"@ != "to_usize"@
            && "to_i64"@ != "to_usize"@);
        match pair {
            Some(pr) => {
                assert(spec_conversion_pair(type_part@, op_part@) == Some(pr));
            }
            None => {
                if type_part@ == "i32"@ {
                    assert(op_part@ != "to_i64"@ && op_part@ != "to_usize"@);
                }
                if type_part@ == "i64"@ {
                    assert(op_part@ != "to_i32"@ && op_part@ != "to_usize"@);
                }
                if type_part@ == "usize"@ {
                    assert(op_part@ != "to_i64"@ && op_part@ != "to_i32"@);
                }
                assert(spec_conversion_pair(type_part@, op_part@) is None);
            }
        }
    }
    match pair {
        Some((source_type, target_type)) => {
            if dest_ty != target_type {
                ctx.error(SemanticError::TypeMismatch {
                    expected: target_type,
                    found: dest_ty,
                    location: "conversion result".to_owned(),
                });
                return Err(());
            }
            match lower_operand_typed(ctx, func, &args[0], source_type) {
                Ok(operand_id) => Ok(Instruction::Convert {
                    dest: dest_id,
                    src: operand_id,
                    from_ty: source_type,
                    to_ty: target_type,
                }),
                Err(()) => Err(()),
            }
        }
        None => {
            ctx.error(SemanticError::InvalidOperation {
                operation: "unsupported conversion".to_owned(),
                ty: dest_ty,
                location: "conversion operation".to_owned(),
            });
            Err(())
        }
    }
}

/// Lower one instruction.  On success the produced instruction writes the
/// destination the assignment declared (when it produces a value), with
/// the dest-type agreements the IR invariants require: a comparison's
/// destination is `i32`, a conversion's is its target type, a load's is
/// its loaded type, a call's is the callee's return type.
pub(crate) fn lower_instruction(ctx: &mut LoweringContext, func: &mut Function,
    instruction: &ast::Instruction)
    -> (r: Result<Instruction, ()>)
    ensures
        ctx_frame_ok(*old(ctx), *final(ctx)),
        func_frame_ok(*old(func), *final(func)),
        r is Err ==> final(ctx).errors@.len() > old(ctx).errors@.len(),
        *instruction matches ast::Instruction::Assign { dest, expr: _ } ==> (
            r matches Ok(i2) ==> {
                &&& (i2 matches Instruction::BinaryOp { op, ty, .. }
                    ==> dest.ty == spec_binary_result_type(op, ty))
                &&& (i2 matches Instruction::UnaryOp { ty, .. } ==> dest.ty == ty)
                &&& (i2 matches Instruction::Convert { to_ty, .. } ==> dest.ty == to_ty)
                &&& (i2 matches Instruction::Load { ty, .. } ==> dest.ty == ty)
                &&& (i2 matches Instruction::Const { ty, .. } ==> dest.ty == ty)
                &&& (i2 matches Instruction::Call { return_type, .. }
                    ==> dest.ty == return_type)
                &&& (i2 matches Instruction::SizeOf { .. } ==> dest.ty == Type::Usize)
                &&& (i2 matches Instruction::Alloc { .. } ==> dest.ty == Type::Usize)
                &&& (i2 matches Instruction::PtrAdd { .. } ==> dest.ty == Type::Usize)
            }),
        // Acceptance: a well-formed `<t>.<op>` arithmetic or comparison
        // assignment with resolvable operands lowers to exactly that
        // binary operation.
        *instruction matches ast::Instruction::Assign { dest, expr } ==> (
            expr matches ast::Expression::Operation { op, args } ==> (
            match spec_dot_split(op@) {
                Some(p) => match (spec_type_of_name(p.0),
                    crate::ir::spec_binary_operator(p.1)) {
                    (Some(t), Some(bop)) => (
                        (t == Type::I32 || t == Type::I64 || t == Type::Usize)
                        && op@ != "usize.add"@
                        && !(p.1.len() >= 3 && p.1.subrange(0, 3) == "to_"@)
                        && dest.ty == spec_binary_result_type(bop, t)
                        && args@.len() == 2
                        && spec_operand_accepts(*old(ctx), *old(func), args@[0], t)
                        && spec_operand_accepts(*old(ctx), *old(func), args@[1], t)
                        && old(func).next_value_id.0 + 3 <= usize::MAX
                    ) ==> (r matches Ok(i2) && (i2 matches Instruction::BinaryOp {
                            op: bop2, ty: t2, .. } && bop2 == bop && t2 == t)),
                    _ => true,
                },
                None => true,
            })),
{
    let ghost ctx0 = *ctx;
    let ghost func0 = *func;
    match instruction {
        ast::Instruction::Assign { dest, expr } => {
            let dest_id = match fresh_value(ctx, func) {
                Ok(id) => id,
                Err(()) => {
                    return Err(());
                }
            };
            ctx.register_variable(dest.name.clone(), dest_id, dest.ty);
            let dest_ty = dest.ty;
            proof {
                assert forall|v: ast::Value, t: Type|
                    spec_operand_accepts(ctx0, func0, v, t)
                        && func0.next_value_id.0 + 3 <= usize::MAX
                    implies spec_operand_accepts(*ctx, *func, v, t) by {
                    match v {
                        ast::Value::Variable(n) => {
                            if ctx.value_map@ != ctx0.value_map@ {
                                lemma_find_var_push(ctx0.value_map@,
                                    ctx.value_map@.last(), n@);
                                assert(ctx.value_map@
                                    =~= ctx0.value_map@.push(ctx.value_map@.last()));
                            }
                        }
                        ast::Value::Constant(_) => {}
                    }
                }
            }
            match expr {
                ast::Expression::Call { name, args } => {
                    lower_call_assign(ctx, func, dest_ty, dest_id, name, args)
                }
                ast::Expression::Constant(c) => {
                    Ok(Instruction::Const { dest: dest_id, value: *c as i64, ty: dest_ty })
                }
                ast::Expression::Operation { op, args } => {
                    lower_operation_assign(ctx, func, dest_ty, dest_id, op, args)
                }
            }
        }
        ast::Instruction::ExpressionStatement { expr } => {
            match expr {
                ast::Expression::Call { name, args } => {
                    lower_call_void(ctx, func, name, args)
                }
                ast::Expression::Operation { op, args } => {
                    lower_operation_statement(ctx, func, op, args)
                }
                ast::Expression::Constant(_) => {
                    ctx.error(SemanticError::InvalidOperation {
                        operation: "bare constant".to_owned(),
                        ty: Type::Void,
                        location: "expression statement".to_owned(),
                    });
                    Err(())
                }
            }
        }
    }
}

/// Lower an operation mnemonic in assignment position.
fn lower_operation_assign(ctx: &mut LoweringContext, func: &mut Function, dest_ty: Type,
    dest_id: ValueId, op: &String, args: &Vec<ast::Value>)
    -> (r: Result<Instruction, ()>)
    ensures
        ctx_frame_ok(*old(ctx), *final(ctx)),
        func_frame_ok(*old(func), *final(func)),
        final(ctx).value_map == old(ctx).value_map,
        r is Err ==> final(ctx).errors@.len() > old(ctx).errors@.len(),
        r matches Ok(i2) ==> {
            &&& (i2 matches Instruction::BinaryOp { op: bop, ty, .. }
                ==> dest_ty == spec_binary_result_type(bop, ty))
            &&& (i2 matches Instruction::UnaryOp { ty, .. } ==> dest_ty == ty)
            &&& (i2 matches Instruction::Convert { to_ty, .. } ==> dest_ty == to_ty)
            &&& (i2 matches Instruction::Load { ty, .. } ==> dest_ty == ty)
            &&& (i2 matches Instruction::Const { ty, .. } ==> dest_ty == ty)
            &&& (i2 matches Instruction::Call { return_type, .. } ==> dest_ty == return_type)
            &&& (i2 matches Instruction::SizeOf { .. } ==> dest_ty == Type::Usize)
            &&& (i2 matches Instruction::Alloc { .. } ==> dest_ty == Type::Usize)
            &&& (i2 matches Instruction::PtrAdd { .. } ==> dest_ty == Type::Usize)
        },
        // Acceptance: a well-formed `<t>.<op>` arithmetic or comparison
        // assignment with resolvable operands lowers to exactly that
        // binary operation.
        ({
            match spec_dot_split(op@) {
                Some(p) => match (spec_type_of_name(p.0),
                    crate::ir::spec_binary_operator(p.1)) {
                    (Some(t), Some(bop)) => (
                        (t == Type::I32 || t == Type::I64 || t == Type::Usize)
                        && op@ != "usize.add"@
                        && !(p.1.len() >= 3 && p.1.subrange(0, 3) == "to_"@)
                        && dest_ty == spec_binary_result_type(bop, t)
                        && args@.len() == 2
                        && spec_operand_accepts(*old(ctx), *old(func), args@[0], t)
                        && spec_operand_accepts(*old(ctx), *old(func), args@[1], t)
                        && old(func).next_value_id.0 + 2 <= usize::MAX
                    ) ==> (r matches Ok(i2) && (i2 matches Instruction::BinaryOp {
                            dest, op: bop2, ty: t2, .. }
                            && dest == dest_id && bop2 == bop && t2 == t)),
                    _ => true,
                },
                None => true,
            }
        }),
{
    let opc = str_chars(op.as_str());
    let oplen: usize = opc.len();
    let dot = find_dot(opc.as_slice());

    // A dotless name that is not `alloc` or `free` is tried as a user
    // function call first.
    if dot.is_none() && !str_eq(op.as_str(), "alloc") && !str_eq(op.as_str(), "free") {
        proof {
            lemma_dot_split_none(op@);
        }
        match ctx.lookup_function(op.as_str()) {
            Some(_) => {
                return lower_call_assign(ctx, func, dest_ty, dest_id, op, args);
            }
            None => {
                ctx.error(SemanticError::InvalidOperation {
                    operation: op.clone(),
                    ty: dest_ty,
                    location: "operation".to_owned(),
                });
                return Err(());
            }
        }
    }

    if str_eq(op.as_str(), "usize.add") {
        if args.len() != 2 {
            ctx.error(SemanticError::InvalidOperation {
                operation: op.clone(),
                ty: dest_ty,
                location: "pointer addition".to_owned(),
            });
            return Err(());
        }
        if dest_ty != Type::Usize {
            ctx.error(SemanticError::TypeMismatch {
                expected: Type::Usize,
                found: dest_ty,
                location: "pointer addition result".to_owned(),
            });
            return Err(());
        }
        let ptr_id = match lower_operand_typed(ctx, func, &args[0], Type::Usize) {
            Ok(id) => id,
            Err(()) => {
                return Err(());
            }
        };
        let off_id = match lower_operand_typed(ctx, func, &args[1], Type::Usize) {
            Ok(id) => id,
            Err(()) => {
                return Err(());
            }
        };
        return Ok(Instruction::PtrAdd { dest: dest_id, ptr: ptr_id, offset: off_id });
    }

    // `sizeof.<type>`: arity 0, result usize.
    if oplen >= 7 && chars_eq_str(vstd::slice::slice_subrange(opc.as_slice(), 0, 7), "sizeof.") {
        proof {
            assert(op@.subrange(0, 7) == "sizeof."@);
            lemma_sizeof_prefix_not_type(op@);
        }
        if args.len() != 0 {
            ctx.error(SemanticError::InvalidOperation {
                operation: op.clone(),
                ty: dest_ty,
                location: "sizeof operation".to_owned(),
            });
            return Err(());
        }
        if dest_ty != Type::Usize {
            ctx.error(SemanticError::TypeMismatch {
                expected: Type::Usize,
                found: dest_ty,
                location: "sizeof result".to_owned(),
            });
            return Err(());
        }
        let type_part = vstd::slice::slice_subrange(opc.as_slice(), 7, oplen);
        match type_from_chars(type_part) {
            Some(target) => {
                return Ok(Instruction::SizeOf { dest: dest_id, ty: target });
            }
            None => {
                ctx.error(SemanticError::InvalidOperation {
                    operation: op.clone(),
                    ty: dest_ty,
                    location: "sizeof operation".to_owned(),
                });
                return Err(());
            }
        }
    }

    if str_eq(op.as_str(), "alloc") {
        proof {
            reveal_strlit("alloc");
            lemma_dot_split_none(op@);
        }
        if args.len() != 1 {
            ctx.error(SemanticError::InvalidOperation {
                operation: op.clone(),
                ty: dest_ty,
                location: "alloc operation".to_owned(),
            });
            return Err(());
        }
        if dest_ty != Type::Usize {
            ctx.error(SemanticError::TypeMismatch {
                expected: Type::Usize,
                found: dest_ty,
                location: "alloc result".to_owned(),
            });
            return Err(());
        }
        let size_id = match lower_operand_typed(ctx, func, &args[0], Type::Usize) {
            Ok(id) => id,
            Err(()) => {
                return Err(());
            }
        };
        return Ok(Instruction::Alloc { dest: dest_id, size: size_id });
    }

    // `<type>.<op>` forms.
    let dpos = match dot {
        Some(d) => d,
        None => {
            proof {
                lemma_dot_split_none(op@);
            }
            ctx.error(SemanticError::InvalidOperation {
                operation: op.clone(),
                ty: dest_ty,
                location: "operation".to_owned(),
            });
            return Err(());
        }
    };
    let type_part = vstd::slice::slice_subrange(opc.as_slice(), 0, dpos);
    let op_part = vstd::slice::slice_subrange(opc.as_slice(), dpos + 1, oplen);
    proof {
        lemma_dot_split_at(op@, dpos as int);
        assert(type_part@ =~= op@.take(dpos as int));
        assert(op_part@ =~= op@.skip(dpos + 1));
    }

    // Conversions `<src>.to_<dst>` do not follow the uniform type rule.
    if op_part.len() >= 3
        && chars_eq_str(vstd::slice::slice_subrange(op_part, 0, 3), "to_") {
        return handle_conversion_operation(ctx, func, dest_ty, dest_id, type_part, op_part,
            args);
    }

    // Float arithmetic is out of scope: the grammar admits `f32`/`f64`,
    // and operations on them are rejected here rather than at run time.
    let ty = match type_from_chars(type_part) {
        Some(Type::Void) | Some(Type::F32) | Some(Type::F64) | None => {
            ctx.error(SemanticError::InvalidOperation {
                operation: op.clone(),
                ty: dest_ty,
                location: "operation".to_owned(),
            });
            return Err(());
        }
        Some(t) => t,
    };

    if chars_eq_str(op_part, "load") {
        proof {
            lemma_not_binop_name(op_part@);
        }
        if args.len() != 1 {
            ctx.error(SemanticError::InvalidOperation {
                operation: op.clone(),
                ty: dest_ty,
                location: "load operation".to_owned(),
            });
            return Err(());
        }
        if ty != dest_ty {
            ctx.error(SemanticError::TypeMismatch {
                expected: dest_ty,
                found: ty,
                location: "load result".to_owned(),
            });
            return Err(());
        }
        let addr_id = match lower_operand_typed(ctx, func, &args[0], Type::Usize) {
            Ok(id) => id,
            Err(()) => {
                return Err(());
            }
        };
        return Ok(Instruction::Load { dest: dest_id, ty, address: addr_id });
    }

    if args.len() == 2 {
        // Binary operation: the destination carries the operand type,
        // except that a comparison always produces `i32`.
        let opstr = crate::text::chars_string(op_part);
        let binary_op = match BinaryOperator::from_str(opstr.as_str(), ty) {
            Ok(b) => b,
            Err(e) => {
                ctx.error(e);
                return Err(());
            }
        };
        let result_ty = if binary_op.is_comparison() { Type::I32 } else { ty };
        if result_ty != dest_ty {
            ctx.error(SemanticError::TypeMismatch {
                expected: result_ty,
                found: dest_ty,
                location: "operation result".to_owned(),
            });
            return Err(());
        }
        let lhs_id = match lower_operand_typed(ctx, func, &args[0], ty) {
            Ok(id) => id,
            Err(()) => {
                return Err(());
            }
        };
        let rhs_id = match lower_operand_typed(ctx, func, &args[1], ty) {
            Ok(id) => id,
            Err(()) => {
                return Err(());
            }
        };
        return Ok(Instruction::BinaryOp {
            dest: dest_id,
            op: binary_op,
            ty,
            lhs: lhs_id,
            rhs: rhs_id,
        });
    }

    if args.len() == 1 {
        if chars_eq_str(op_part, "const") {
            match &args[0] {
                ast::Value::Constant(c) => {
                    if ty != dest_ty {
                        ctx.error(SemanticError::TypeMismatch {
                            expected: dest_ty,
                            found: ty,
                            location: "constant operation".to_owned(),
                        });
                        return Err(());
                    }
                    return Ok(Instruction::Const { dest: dest_id, value: *c as i64, ty });
                }
                ast::Value::Variable(_) => {
                    ctx.error(SemanticError::InvalidOperation {
                        operation: op.clone(),
                        ty,
                        location: "constant operation".to_owned(),
                    });
                    return Err(());
                }
            }
        }
        // Legacy widening and narrowing spellings.
        if chars_eq_str(op_part, "extend") && ty == Type::I32 {
            if dest_ty != Type::I64 && dest_ty != Type::Usize {
                ctx.error(SemanticError::TypeMismatch {
                    expected: Type::I64,
                    found: dest_ty,
                    location: "extend result".to_owned(),
                });
                return Err(());
            }
            let src_id = match lower_operand_typed(ctx, func, &args[0], Type::I32) {
                Ok(id) => id,
                Err(()) => {
                    return Err(());
                }
            };
            return Ok(Instruction::Convert {
                dest: dest_id,
                src: src_id,
                from_ty: Type::I32,
                to_ty: dest_ty,
            });
        }
        if chars_eq_str(op_part, "extend") && ty == Type::Usize {
            if dest_ty != Type::I64 {
                ctx.error(SemanticError::TypeMismatch {
                    expected: Type::I64,
                    found: dest_ty,
                    location: "extend result".to_owned(),
                });
                return Err(());
            }
            let src_id = match lower_operand_typed(ctx, func, &args[0], Type::Usize) {
                Ok(id) => id,
                Err(()) => {
                    return Err(());
                }
            };
            return Ok(Instruction::Convert {
                dest: dest_id,
                src: src_id,
                from_ty: Type::Usize,
                to_ty: Type::I64,
            });
        }
        if chars_eq_str(op_part, "trunc") && ty == Type::I64 {
            if dest_ty != Type::I32 && dest_ty != Type::Usize {
                ctx.error(SemanticError::TypeMismatch {
                    expected: Type::I32,
                    found: dest_ty,
                    location: "trunc result".to_owned(),
                });
                return Err(());
            }
            let src_id = match lower_operand_typed(ctx, func, &args[0], Type::I64) {
                Ok(id) => id,
                Err(()) => {
                    return Err(());
                }
            };
            return Ok(Instruction::Convert {
                dest: dest_id,
                src: src_id,
                from_ty: Type::I64,
                to_ty: dest_ty,
            });
        }
        // Unary operation.
        let opstr = crate::text::chars_string(op_part);
        let unary_op = match UnaryOperator::from_str(opstr.as_str(), ty) {
            Ok(u) => u,
            Err(e) => {
                ctx.error(e);
                return Err(());
            }
        };
        if ty != dest_ty {
            ctx.error(SemanticError::TypeMismatch {
                expected: dest_ty,
                found: ty,
                location: "unary operation result".to_owned(),
            });
            return Err(());
        }
        let src_id = match lower_operand_typed(ctx, func, &args[0], ty) {
            Ok(id) => id,
            Err(()) => {
                return Err(());
            }
        };
        return Ok(Instruction::UnaryOp { dest: dest_id, op: unary_op, ty, operand: src_id });
    }

    ctx.error(SemanticError::InvalidOperation {
        operation: op.clone(),
        ty: dest_ty,
        location: "operation".to_owned(),
    });
    Err(())
}

/// Lower an operation mnemonic in statement position: a void user call,
/// a typed store, or `free`.
fn lower_operation_statement(ctx: &mut LoweringContext, func: &mut Function, op: &String,
    args: &Vec<ast::Value>)
    -> (r: Result<Instruction, ()>)
    ensures
        ctx_frame_ok(*old(ctx), *final(ctx)),
        func_frame_ok(*old(func), *final(func)),
        final(ctx).value_map == old(ctx).value_map,
        r is Err ==> final(ctx).errors@.len() > old(ctx).errors@.len(),
{
    // A name registered as a function is a void call, whatever it looks
    // like.
    let known = match ctx.lookup_function(op.as_str()) {
        Some(_) => true,
        None => false,
    };
    if known {
        return lower_call_void(ctx, func, op, args);
    }

    let opc = str_chars(op.as_str());
    let oplen: usize = opc.len();

    // `<type>.store`: address then value.
    if oplen >= 6 {
        let suffix = vstd::slice::slice_subrange(opc.as_slice(), oplen - 6, oplen);
        if chars_eq_str(suffix, ".store") {
            if args.len() != 2 {
                ctx.error(SemanticError::ArgumentMismatch {
                    function: op.clone(),
                    expected: 2,
                    found: args.len(),
                    location: "store operation".to_owned(),
                });
                return Err(());
            }
            let type_part = vstd::slice::slice_subrange(opc.as_slice(), 0, oplen - 6);
            let store_type = match type_from_chars(type_part) {
                Some(Type::Void) | Some(Type::F32) | Some(Type::F64) | None => {
                    ctx.error(SemanticError::InvalidOperation {
                        operation: op.clone(),
                        ty: Type::Void,
                        location: "store operation".to_owned(),
                    });
                    return Err(());
                }
                Some(t) => t,
            };
            let addr_id = match lower_operand_typed(ctx, func, &args[0], Type::Usize) {
                Ok(id) => id,
                Err(()) => {
                    return Err(());
                }
            };
            let value_id = match lower_operand_typed(ctx, func, &args[1], store_type) {
                Ok(id) => id,
                Err(()) => {
                    return Err(());
                }
            };
            return Ok(Instruction::Store { address: addr_id, value: value_id, ty: store_type });
        }
    }

    if str_eq(op.as_str(), "free") {
        if args.len() != 1 {
            ctx.error(SemanticError::ArgumentMismatch {
                function: op.clone(),
                expected: 1,
                found: args.len(),
                location: "free operation".to_owned(),
            });
            return Err(());
        }
        let ptr_id = match lower_operand_typed(ctx, func, &args[0], Type::Usize) {
            Ok(id) => id,
            Err(()) => {
                return Err(());
            }
        };
        return Ok(Instruction::Free { ptr: ptr_id });
    }

    ctx.error(SemanticError::InvalidOperation {
        operation: op.clone(),
        ty: Type::Void,
        location: "void operation".to_owned(),
    });
    Err(())
}

/// Lower a terminator.  Branch targets must exist, and branch arguments
/// must match the target block's parameters in number and type; a `ret`
/// value must carry the function's return type, and a bare `ret` demands
/// a `void` function.
pub(crate) fn lower_terminator(ctx: &mut LoweringContext, func: &mut Function,
    terminator: &ast::Terminator)
    -> (r: Result<Terminator, ()>)
    ensures
        ctx_frame_ok(*old(ctx), *final(ctx)),
        func_frame_ok(*old(func), *final(func)),
        final(ctx).value_map == old(ctx).value_map,
        r is Err ==> final(ctx).errors@.len() > old(ctx).errors@.len(),
        *terminator matches ast::Terminator::Br { label, args } ==> (
            spec_find_label(old(ctx).block_map@, label@) is None ==> r is Err
                && final(ctx).errors@.last() matches SemanticError::UndefinedBlock { .. }),
        *terminator matches ast::Terminator::Br { label, args } ==> (
            spec_find_label(old(ctx).block_map@, label@) matches Some(i) ==> (
                args@.len() != old(ctx).block_map@[i].param_tys@.len() ==> r is Err
                    && final(ctx).errors@.last() matches
                        SemanticError::ArgumentMismatch { .. })),
        *terminator matches ast::Terminator::Ret(v) ==> (r matches Ok(t2) ==> (
            t2 matches Terminator::Ret { value } && (value is Some <==> v is Some))),
        *terminator matches ast::Terminator::Br { label, args } ==> (r matches Ok(t2)
            ==> (t2 matches Terminator::Br { target, args: ir_args }
                && (spec_find_label(old(ctx).block_map@, label@) matches Some(i)
                    && target == old(ctx).block_map@[i].id
                    && ir_args@.len() == args@.len()
                    && args@.len() == old(ctx).block_map@[i].param_tys@.len()))),
        *terminator matches ast::Terminator::BrIf { cond: _, true_label, true_args,
            false_label, false_args } ==> (r matches Ok(t2)
            ==> (t2 matches Terminator::BrIf { cond: _, true_target, true_args: tas,
                    false_target, false_args: fas }
                && (spec_find_label(old(ctx).block_map@, true_label@) matches Some(i)
                    && true_target == old(ctx).block_map@[i].id
                    && tas@.len() == true_args@.len())
                && (spec_find_label(old(ctx).block_map@, false_label@) matches Some(i2)
                    && false_target == old(ctx).block_map@[i2].id
                    && fas@.len() == false_args@.len()))),
{
    match terminator {
        ast::Terminator::Ret(value_opt) => {
            let expected = match ctx.current_return {
                Some(t) => t,
                None => Type::I32,
            };
            match value_opt {
                Some(value) => {
                    match lower_value_with_func(ctx, func, value, expected) {
                        Ok((value_id, value_type)) => {
                            if value_type != expected {
                                ctx.error(SemanticError::TypeMismatch {
                                    expected,
                                    found: value_type,
                                    location: "return value".to_owned(),
                                });
                                return Err(());
                            }
                            Ok(Terminator::Ret { value: Some(value_id) })
                        }
                        Err(()) => Err(()),
                    }
                }
                None => {
                    if expected != Type::Void {
                        ctx.error(SemanticError::TypeMismatch {
                            expected,
                            found: Type::Void,
                            location: "void return".to_owned(),
                        });
                        return Err(());
                    }
                    Ok(Terminator::Ret { value: None })
                }
            }
        }
        ast::Terminator::Br { label, args } => {
            match ctx.lookup_block(label.as_str()) {
                Some((target, param_tys)) => {
                    if args.len() != param_tys.len() {
                        ctx.error(SemanticError::ArgumentMismatch {
                            function: label.clone(),
                            expected: param_tys.len(),
                            found: args.len(),
                            location: "branch arguments".to_owned(),
                        });
                        return Err(());
                    }
                    match lower_call_args(ctx, func, args, &param_tys) {
                        Ok(ids) => Ok(Terminator::Br { target, args: ids }),
                        Err(()) => Err(()),
                    }
                }
                None => {
                    ctx.error(SemanticError::UndefinedBlock {
                        label: label.clone(),
                        location: "branch target".to_owned(),
                    });
                    Err(())
                }
            }
        }
        ast::Terminator::BrIf { cond, true_label, true_args, false_label, false_args } => {
            let (cond_id, cond_type) = match lower_value_with_func(ctx, func, cond, Type::I32) {
                Ok(p) => p,
                Err(()) => {
                    return Err(());
                }
            };
            match cond_type {
                Type::I32 | Type::I64 => {}
                _ => {
                    ctx.error(SemanticError::TypeMismatch {
                        expected: Type::I32,
                        found: cond_type,
                        location: "branch condition".to_owned(),
                    });
                    return Err(());
                }
            }
            let (true_target, true_tys) = match ctx.lookup_block(true_label.as_str()) {
                Some(p) => p,
                None => {
                    ctx.error(SemanticError::UndefinedBlock {
                        label: true_label.clone(),
                        location: "true branch target".to_owned(),
                    });
                    return Err(());
                }
            };
            let (false_target, false_tys) = match ctx.lookup_block(false_label.as_str()) {
                Some(p) => p,
                None => {
                    ctx.error(SemanticError::UndefinedBlock {
                        label: false_label.clone(),
                        location: "false branch target".to_owned(),
                    });
                    return Err(());
                }
            };
            if true_args.len() != true_tys.len() {
                ctx.error(SemanticError::ArgumentMismatch {
                    function: true_label.clone(),
                    expected: true_tys.len(),
                    found: true_args.len(),
                    location: "true branch arguments".to_owned(),
                });
                return Err(());
            }
            if false_args.len() != false_tys.len() {
                ctx.error(SemanticError::ArgumentMismatch {
                    function: false_label.clone(),
                    expected: false_tys.len(),
                    found: false_args.len(),
                    location: "false branch arguments".to_owned(),
                });
                return Err(());
            }
            let t_ids = match lower_call_args(ctx, func, true_args, &true_tys) {
                Ok(ids) => ids,
                Err(()) => {
                    return Err(());
                }
            };
            let f_ids = match lower_call_args(ctx, func, false_args, &false_tys) {
                Ok(ids) => ids,
                Err(()) => {
                    return Err(());
                }
            };
            Ok(Terminator::BrIf {
                cond: cond_id,
                true_target,
                true_args: t_ids,
                false_target,
                false_args: f_ids,
            })
        }
    }
}

/// The declared types of a parameter list.
fn param_types(params: &Vec<ast::TypedIdentifier>) -> (r: Vec<Type>)
    ensures
        r@.len() == params@.len(),
        forall|j: int| 0 <= j < params@.len() ==> r@[j] == params@[j].ty,
{
    let n: usize = params.len();
    let mut r: Vec<Type> = Vec::new();
    let mut i: usize = 0;
    while i < n
        invariant
            n == params@.len(),
            i <= n,
            r@.len() == i,
            forall|j: int| 0 <= j < i ==> r@[j] == params@[j].ty,
        decreases n - i,
    {
        r.push(params[i].ty);
        i = i + 1;
    }
    r
}

/// Lower an import declaration; imports carry no body, so this is a
/// structural translation.
pub(crate) fn lower_import(import: &ast::ImportDecl) -> (r: ImportDecl)
    ensures
        r.module@ == import.module@,
        r.name@ == import.name@,
        r.return_type == import.return_type,
        r.params@.len() == import.params@.len(),
        forall|j: int| 0 <= j < import.params@.len() ==> r.params@[j] == import.params@[j].ty,
{
    let cc: Option<String> = match &import.calling_convention {
        Some(s) => Some(s.clone()),
        None => None,
    };
    ImportDecl {
        module: import.module.clone(),
        name: import.name.clone(),
        calling_convention: cc,
        params: param_types(&import.params),
        return_type: import.return_type,
    }
}

/// Lower one basic block: bind its parameters, lower its instructions,
/// then its terminator.  Failing constructs are recorded and skipped so
/// that more diagnostics surface.
pub(crate) fn lower_block(ctx: &mut LoweringContext, func: &mut Function, block: &ast::Block)
    -> (r: Result<BasicBlock, ()>)
    ensures
        final(ctx).functions == old(ctx).functions,
        final(ctx).block_map == old(ctx).block_map,
        final(ctx).next_block_id == old(ctx).next_block_id,
        final(ctx).current_return == old(ctx).current_return,
        final(ctx).errors@.len() >= old(ctx).errors@.len(),
        forall|j: int| 0 <= j < old(ctx).errors@.len()
            ==> final(ctx).errors@[j] == old(ctx).errors@[j],
        func_frame_ok(*old(func), *final(func)),
        r is Err ==> final(ctx).errors@.len() > old(ctx).errors@.len(),
        r matches Ok(b) ==> b.label@ == block.label@,
{
    let block_id = match ctx.lookup_block(block.label.as_str()) {
        Some((id, _)) => id,
        None => {
            ctx.error(SemanticError::UndefinedBlock {
                label: block.label.clone(),
                location: "block lowering".to_owned(),
            });
            return Err(());
        }
    };

    let mut ir_block = BasicBlock::new(block_id, block.label.clone());

    let nparams: usize = block.params.len();
    let mut i: usize = 0;
    while i < nparams
        invariant
            nparams == block.params@.len(),
            i <= nparams,
            ctx.functions == old(ctx).functions,
            ctx.block_map == old(ctx).block_map,
            ctx.next_block_id == old(ctx).next_block_id,
            ctx.current_return == old(ctx).current_return,
            ctx.errors@.len() >= old(ctx).errors@.len(),
            forall|j: int| 0 <= j < old(ctx).errors@.len()
                ==> ctx.errors@[j] == old(ctx).errors@[j],
            func_frame_ok(*old(func), *func),
            ir_block.label@ == block.label@,
        decreases nparams - i,
    {
        match fresh_value(ctx, func) {
            Ok(id) => {
                ir_block.params.push((id, block.params[i].ty));
                ctx.register_variable(block.params[i].name.clone(), id, block.params[i].ty);
            }
            Err(()) => {}
        }
        i = i + 1;
    }

    let ninstr: usize = block.instructions.len();
    let mut k: usize = 0;
    while k < ninstr
        invariant
            ninstr == block.instructions@.len(),
            k <= ninstr,
            ctx.functions == old(ctx).functions,
            ctx.block_map == old(ctx).block_map,
            ctx.next_block_id == old(ctx).next_block_id,
            ctx.current_return == old(ctx).current_return,
            ctx.errors@.len() >= old(ctx).errors@.len(),
            forall|j: int| 0 <= j < old(ctx).errors@.len()
                ==> ctx.errors@[j] == old(ctx).errors@[j],
            func_frame_ok(*old(func), *func),
            ir_block.label@ == block.label@,
        decreases ninstr - k,
    {
        match lower_instruction(ctx, func, &block.instructions[k]) {
            Ok(ins) => {
                ir_block.instructions.push(ins);
            }
            Err(()) => {}
        }
        k = k + 1;
    }

    match lower_terminator(ctx, func, &block.terminator) {
        Ok(term) => {
            ir_block.terminator = term;
        }
        Err(()) => {}
    }

    Ok(ir_block)
}

/// Lower one function definition: reset the per-function scope, bind
/// parameters as the first value ids, assign dense block ids to every
/// label, then lower each block.  The function is yielded only while the
/// whole error list stays empty.
pub(crate) fn lower_function(ctx: &mut LoweringContext, func_def: &ast::FunctionDef)
    -> (r: Result<Function, ()>)
    ensures
        final(ctx).functions == old(ctx).functions,
        final(ctx).errors@.len() >= old(ctx).errors@.len(),
        forall|j: int| 0 <= j < old(ctx).errors@.len()
            ==> final(ctx).errors@[j] == old(ctx).errors@[j],
        r is Err ==> final(ctx).errors@.len() > 0,
        r matches Ok(f) ==> f.name@ == func_def.name@
            && f.return_type == func_def.return_type
            && f.params@.len() == func_def.params@.len()
            && f.blocks@.len() == func_def.blocks@.len(),
{
    ctx.clear_function_scope();

    let mut ir_func = Function::new(
        func_def.name.clone(),
        param_types(&func_def.params),
        func_def.return_type,
    );
    ctx.current_return = Some(func_def.return_type);

    // Function parameters become value ids 0 .. N-1.
    let nparams: usize = func_def.params.len();
    let mut i: usize = 0;
    while i < nparams
        invariant
            nparams == func_def.params@.len(),
            i <= nparams,
            ctx.functions == old(ctx).functions,
            ctx.errors@.len() >= old(ctx).errors@.len(),
            forall|j: int| 0 <= j < old(ctx).errors@.len()
                ==> ctx.errors@[j] == old(ctx).errors@[j],
            ir_func.name@ == func_def.name@,
            ir_func.return_type == func_def.return_type,
            ir_func.params@.len() == func_def.params@.len(),
            ir_func.blocks@.len() == 0,
            ir_func.entry_block.0 == 0,
        decreases nparams - i,
    {
        match fresh_value(ctx, &mut ir_func) {
            Ok(id) => {
                ctx.register_variable(func_def.params[i].name.clone(), id,
                    func_def.params[i].ty);
            }
            Err(()) => {}
        }
        i = i + 1;
    }

    // First pass: assign a dense block id to every label, in order.
    let nblocks: usize = func_def.blocks.len();
    let mut b: usize = 0;
    while b < nblocks
        invariant
            nblocks == func_def.blocks@.len(),
            b <= nblocks,
            ctx.functions == old(ctx).functions,
            ctx.errors@.len() >= old(ctx).errors@.len(),
            forall|j: int| 0 <= j < old(ctx).errors@.len()
                ==> ctx.errors@[j] == old(ctx).errors@[j],
            ir_func.name@ == func_def.name@,
            ir_func.return_type == func_def.return_type,
            ir_func.params@.len() == func_def.params@.len(),
            ir_func.blocks@.len() == 0,
            ir_func.entry_block.0 == 0,
        decreases nblocks - b,
    {
        match ctx.next_block() {
            Ok(id) => {
                ctx.register_block(func_def.blocks[b].label.clone(), id,
                    param_types(&func_def.blocks[b].params));
            }
            Err(()) => {}
        }
        b = b + 1;
    }

    // Second pass: lower each block.
    let mut c: usize = 0;
    while c < nblocks
        invariant
            nblocks == func_def.blocks@.len(),
            c <= nblocks,
            ctx.functions == old(ctx).functions,
            ctx.errors@.len() >= old(ctx).errors@.len(),
            forall|j: int| 0 <= j < old(ctx).errors@.len()
                ==> ctx.errors@[j] == old(ctx).errors@[j],
            ir_func.name@ == func_def.name@,
            ir_func.return_type == func_def.return_type,
            ir_func.params@.len() == func_def.params@.len(),
            ir_func.entry_block.0 == 0,
            ir_func.blocks@.len() == c || ctx.errors@.len() > 0,
        decreases nblocks - c,
    {
        match lower_block(ctx, &mut ir_func, &func_def.blocks[c]) {
            Ok(ir_block) => {
                ir_func.blocks.push(ir_block);
            }
            Err(()) => {}
        }
        c = c + 1;
    }

    if ctx.errors.len() == 0 {
        Ok(ir_func)
    } else {
        Err(())
    }
}

/// The name a top-level item declares.
pub open spec fn spec_item_name(item: ast::TopLevelItem) -> Seq<char> {
    match item {
        ast::TopLevelItem::Import(i) => i.name@,
        ast::TopLevelItem::Function(f) => f.name@,
    }
}

/// Appending a signature keeps every found name found, and makes the
/// appended name found.
proof fn lemma_find_sig_push(sigs: Seq<FnSig>, b: FnSig, n: Seq<char>)
    ensures
        spec_find_sig(sigs, n) is Some ==> spec_find_sig(sigs.push(b), n) is Some,
        spec_find_sig(sigs.push(b), b.name@) is Some,
    decreases sigs.len(),
{
    if sigs.len() == 0 {
        assert(sigs.push(b)[0] == b);
        assert(sigs.push(b).len() == 1);
    } else {
        assert(sigs.push(b)[0] == sigs[0]);
        assert(sigs.push(b).drop_first() =~= sigs.drop_first().push(b));
        lemma_find_sig_push(sigs.drop_first(), b, n);
    }
}

/// The number of imports among a program's items.
pub open spec fn spec_count_imports(items: Seq<ast::TopLevelItem>) -> int
    decreases items.len(),
{
    if items.len() == 0 {
        0
    } else {
        (match items[0] {
            ast::TopLevelItem::Import(_) => 1int,
            ast::TopLevelItem::Function(_) => 0int,
        }) + spec_count_imports(items.drop_first())
    }
}

/// The number of function definitions among a program's items.
pub open spec fn spec_count_functions(items: Seq<ast::TopLevelItem>) -> int
    decreases items.len(),
{
    if items.len() == 0 {
        0
    } else {
        (match items[0] {
            ast::TopLevelItem::Import(_) => 0int,
            ast::TopLevelItem::Function(_) => 1int,
        }) + spec_count_functions(items.drop_first())
    }
}

proof fn lemma_count_step(items: Seq<ast::TopLevelItem>, i: int)
    requires
        0 <= i < items.len(),
    ensures
        spec_count_imports(items.take(i + 1)) == spec_count_imports(items.take(i))
            + (match items[i] {
                ast::TopLevelItem::Import(_) => 1int,
                ast::TopLevelItem::Function(_) => 0int,
            }),
        spec_count_functions(items.take(i + 1)) == spec_count_functions(items.take(i))
            + (match items[i] {
                ast::TopLevelItem::Import(_) => 0int,
                ast::TopLevelItem::Function(_) => 1int,
            }),
    decreases i,
{
    let a = items.take(i + 1);
    let b = items.take(i);
    if i == 0 {
        assert(a =~= seq![items[0]]);
        assert(b =~= Seq::<ast::TopLevelItem>::empty());
        assert(a.drop_first() =~= b);
    } else {
        lemma_count_step(items.drop_first(), i - 1);
        assert(a.drop_first() =~= items.drop_first().take(i));
        assert(b.drop_first() =~= items.drop_first().take(i - 1));
        assert(a[0] == items[0]);
        assert(b[0] == items[0]);
        assert(items.drop_first()[i - 1] == items[i]);
    }
}

/// Lower a whole program: first register every import and function
/// signature (diagnosing duplicate names), then lower each item.  The IR
/// program is yielded only when no error was recorded, and it then has
/// one import and one function per corresponding source item; otherwise
/// the non-empty error list is returned.
pub fn lower_program(ast_program: &ast::Program) -> (r: Result<Program, Vec<SemanticError>>)
    ensures
        match r {
            Ok(p) => p.imports@.len() == spec_count_imports(ast_program.items@)
                && p.functions@.len() == spec_count_functions(ast_program.items@),
            Err(errs) => errs@.len() > 0,
        },
        (exists|x: int, y: int| 0 <= x < y < ast_program.items@.len()
            && spec_item_name(ast_program.items@[x])
                == spec_item_name(ast_program.items@[y]))
            ==> (r matches Err(errs) && exists|t: int| 0 <= t < errs@.len()
                && (#[trigger] errs@[t]) matches SemanticError::DuplicateDefinition { .. }),
{
    let mut ctx = LoweringContext::fresh();

    let nitems: usize = ast_program.items.len();
    let mut i: usize = 0;
    while i < nitems
        invariant
            nitems == ast_program.items@.len(),
            i <= nitems,
            forall|x: int| 0 <= x < i ==> spec_find_sig(ctx.functions@,
                spec_item_name(#[trigger] ast_program.items@[x])) is Some,
            forall|t: int| 0 <= t < ctx.functions@.len()
                ==> exists|x: int| 0 <= x < i
                    && (#[trigger] ctx.functions@[t]).name@
                        == spec_item_name(ast_program.items@[x]),
            (exists|x: int, y: int| 0 <= x < y < i
                && spec_item_name(ast_program.items@[x])
                    == spec_item_name(ast_program.items@[y]))
                ==> exists|t: int| 0 <= t < ctx.errors@.len()
                    && (#[trigger] ctx.errors@[t])
                        matches SemanticError::DuplicateDefinition { .. },
        decreases nitems - i,
    {
        let ghost fns0 = ctx.functions@;
        let ghost errs0 = ctx.errors@;
        match &ast_program.items[i] {
            ast::TopLevelItem::Import(import) => {
                ctx.register_function(import.name.clone(), param_types(&import.params),
                    import.return_type);
            }
            ast::TopLevelItem::Function(func_def) => {
                ctx.register_function(func_def.name.clone(), param_types(&func_def.params),
                    func_def.return_type);
            }
        }
        proof {
            let nm = spec_item_name(ast_program.items@[i as int]);
            if spec_find_sig(fns0, nm) is Some {
                // A duplicate: the table is unchanged and the new error is
                // the diagnostic.
                assert(ctx.errors@.last() matches
                    SemanticError::DuplicateDefinition { .. });
                assert forall|x: int| 0 <= x < i + 1 implies spec_find_sig(ctx.functions@,
                    spec_item_name(#[trigger] ast_program.items@[x])) is Some by {}
            } else {
                // A fresh name: found names stay found, and no duplicate
                // pair involves this item.
                assert forall|x: int| 0 <= x < i + 1 implies spec_find_sig(ctx.functions@,
                    spec_item_name(#[trigger] ast_program.items@[x])) is Some by {
                    lemma_find_sig_push(fns0, ctx.functions@.last(),
                        spec_item_name(ast_program.items@[x]));
                    assert(ctx.functions@ =~= fns0.push(ctx.functions@.last()));
                }
                assert forall|x: int, y: int| 0 <= x < y < i + 1
                    && spec_item_name(ast_program.items@[x])
                        == spec_item_name(ast_program.items@[y])
                    implies y < i by {
                    if y == i {
                        assert(spec_find_sig(fns0, nm) is Some);
                    }
                }
            }
        }
        i = i + 1;
    }

    let mut ir_imports: Vec<ImportDecl> = Vec::new();
    let mut ir_functions: Vec<Function> = Vec::new();
    let mut k: usize = 0;
    while k < nitems
        invariant
            nitems == ast_program.items@.len(),
            k <= nitems,
            ir_imports@.len() == spec_count_imports(ast_program.items@.take(k as int))
                || ctx.errors@.len() > 0,
            ir_functions@.len() == spec_count_functions(ast_program.items@.take(k as int))
                || ctx.errors@.len() > 0,
            (exists|x: int, y: int| 0 <= x < y < nitems
                && spec_item_name(ast_program.items@[x])
                    == spec_item_name(ast_program.items@[y]))
                ==> exists|t: int| 0 <= t < ctx.errors@.len()
                    && (#[trigger] ctx.errors@[t])
                        matches SemanticError::DuplicateDefinition { .. },
        decreases nitems - k,
    {
        proof {
            lemma_count_step(ast_program.items@, k as int);
        }
        match &ast_program.items[k] {
            ast::TopLevelItem::Import(import) => {
                let ir_import = lower_import(import);
                ir_imports.push(ir_import);
            }
            ast::TopLevelItem::Function(func_def) => {
                match lower_function(&mut ctx, func_def) {
                    Ok(ir_func) => {
                        ir_functions.push(ir_func);
                    }
                    Err(()) => {}
                }
            }
        }
        k = k + 1;
    }

    if ctx.errors.len() == 0 {
        proof {
            assert(ast_program.items@.take(nitems as int) =~= ast_program.items@);
        }
        Ok(Program { imports: ir_imports, functions: ir_functions })
    } else {
        Err(ctx.errors)
    }
}

} // verus!
