//! TILT: a small, statically typed, SSA-based intermediate language.
//!
//! The pipeline runs source text through the lexer and parser to an AST,
//! lowers it with semantic checks to a typed SSA IR, and then either
//! interprets the IR directly (`vm`) or translates it into an emission
//! plan for a native code generator (`codegen`).  The host ABI modules
//! define the boundary to the surrounding process: console functions and
//! guest memory.

use vstd::prelude::*;

pub mod ast;
pub mod builder;
pub mod codegen;
pub mod host;
pub mod ir;
pub mod lexer;
pub mod lowering;
pub mod memory;
pub mod parser;
pub mod text;
pub mod vm;

pub use ast::Type;
pub use host::{HostABI, HostResult, RuntimeValue};
pub use lexer::Token;
pub use lowering::lower_program;
pub use memory::MemoryHostABI;
pub use vm::{VMError, VMResult, VM};

verus! {

/// Compile source text to IR: tokenize, parse, then lower; the first
/// failing stage reports.  On success the source tokenizes per the
/// lexical grammar, and the IR holds one import and one function per
/// item of some parsed program.
pub fn compile_source(source: &str) -> (r: Result<ir::Program, String>)
    ensures
        r is Ok ==> exists|toks: Seq<(usize, Token, usize)>|
            lexer::spec_tokens_cover(source@, toks),
        r matches Ok(p) ==> exists|a: ast::Program|
            p.imports@.len() == lowering::spec_count_imports(a.items@)
            && p.functions@.len() == lowering::spec_count_functions(a.items@),
{
    let toks = match lexer::tokenize(source) {
        Ok(ts) => ts,
        Err(_) => {
            return Err("lexing failed: invalid character".to_owned());
        }
    };
    let ast_program = match parser::parse_program(&toks) {
        Ok(p) => p,
        Err(e) => {
            return Err(e.message);
        }
    };
    match lowering::lower_program(&ast_program) {
        Ok(p) => {
            proof {
                assert(lexer::spec_tokens_cover(source@, toks@));
                assert(p.imports@.len()
                    == lowering::spec_count_imports(ast_program.items@)
                    && p.functions@.len()
                        == lowering::spec_count_functions(ast_program.items@));
            }
            Ok(p)
        }
        Err(_) => Err("semantic analysis failed".to_owned()),
    }
}

/// Compile source text to IR, keeping the semantic error list; lexing
/// and parsing failures yield an empty list.  A successful compilation
/// has one import and one function per item of some parsed program.
pub fn compile_source_detailed(source: &str)
    -> (r: Result<ir::Program, Vec<ir::SemanticError>>)
    ensures
        r matches Ok(p) ==> exists|a: ast::Program|
            p.imports@.len() == lowering::spec_count_imports(a.items@)
            && p.functions@.len() == lowering::spec_count_functions(a.items@),
{
    let toks = match lexer::tokenize(source) {
        Ok(ts) => ts,
        Err(_) => {
            return Err(Vec::new());
        }
    };
    let ast_program = match parser::parse_program(&toks) {
        Ok(p) => p,
        Err(_) => {
            return Err(Vec::new());
        }
    };
    lowering::lower_program(&ast_program)
}

} // verus!
