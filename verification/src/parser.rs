//! The parser: a positioned token stream to an AST.
//!
//! Recursive descent over the lexer's output, with one token of
//! lookahead.  The grammar is flat — no nested expressions — so every
//! production is a loop.  `ret v` and `ret (v)` are both accepted; a bare
//! identifier after `ret` is taken as the return value unless it opens
//! the next block.

use vstd::prelude::*;
use crate::ast::{
    Block, Expression, FunctionDef, ImportDecl, Instruction, Program, Terminator, TopLevelItem,
    Type, TypedIdentifier, Value,
};
use crate::lexer::Token;
use crate::text::parse_i32_chars;

verus! {

/// A parse failure: the index of the offending token and a message.
#[derive(Debug, Clone, PartialEq)]
pub struct ParseError {
    pub position: usize,
    pub message: String,
}

fn perr(position: usize, message: &str) -> (r: ParseError)
    ensures
        r.position == position,
{
    ParseError { position, message: message.to_owned() }
}

/// Parse a type name token.
fn p_type(toks: &Vec<(usize, Token, usize)>, pos: usize) -> (r: Result<(Type, usize), ParseError>)
    ensures
        r matches Ok(p) ==> pos < p.1 <= toks@.len(),
        match r {
            Ok(p) => p.1 == pos + 1 && pos < toks@.len() && match toks@[pos as int].1 {
                Token::TI32 => p.0 == Type::I32,
                Token::TI64 => p.0 == Type::I64,
                Token::TF32 => p.0 == Type::F32,
                Token::TF64 => p.0 == Type::F64,
                Token::TUsize => p.0 == Type::Usize,
                Token::TVoid => p.0 == Type::Void,
                _ => false,
            },
            Err(_) => pos >= toks@.len() || !(match toks@[pos as int].1 {
                Token::TI32 | Token::TI64 | Token::TF32 | Token::TF64
                | Token::TUsize | Token::TVoid => true,
                _ => false,
            }),
        },
{
    if pos >= toks.len() {
        return Err(perr(pos, "expected a type"));
    }
    match &toks[pos].1 {
        Token::TI32 => Ok((Type::I32, pos + 1)),
        Token::TI64 => Ok((Type::I64, pos + 1)),
        Token::TF32 => Ok((Type::F32, pos + 1)),
        Token::TF64 => Ok((Type::F64, pos + 1)),
        Token::TUsize => Ok((Type::Usize, pos + 1)),
        Token::TVoid => Ok((Type::Void, pos + 1)),
        _ => Err(perr(pos, "expected a type")),
    }
}

/// Parse an operand: a variable name or an integer literal.
fn p_value(toks: &Vec<(usize, Token, usize)>, pos: usize)
    -> (r: Result<(Value, usize), ParseError>)
    ensures
        r matches Ok(p) ==> pos < p.1 <= toks@.len(),
        match r {
            Ok(p) => p.1 == pos + 1 && pos < toks@.len() && match toks@[pos as int].1 {
                Token::Identifier(n) => (p.0 matches Value::Variable(s2) && s2@ == n@),
                Token::Number(t) => (crate::text::spec_parse_i32(t@) matches Some(v)
                    && p.0 == Value::Constant(v)),
                _ => false,
            },
            Err(_) => pos >= toks@.len() || !(match toks@[pos as int].1 {
                Token::Identifier(_) => true,
                Token::Number(t) => crate::text::spec_parse_i32(t@) is Some,
                _ => false,
            }),
        },
{
    if pos >= toks.len() {
        return Err(perr(pos, "expected a value"));
    }
    match &toks[pos].1 {
        Token::Identifier(name) => Ok((Value::Variable(name.clone()), pos + 1)),
        Token::Number(text) => {
            let cs = crate::text::str_chars(text.as_str());
            match parse_i32_chars(cs.as_slice()) {
                Some(v) => Ok((Value::Constant(v), pos + 1)),
                None => Err(perr(pos, "integer literal out of range")),
            }
        }
        _ => Err(perr(pos, "expected a value")),
    }
}

/// Parse a comma-separated value list up to the closing parenthesis; the
/// opening parenthesis has been consumed.
fn p_value_list(toks: &Vec<(usize, Token, usize)>, pos: usize)
    -> (r: Result<(Vec<Value>, usize), ParseError>)
    ensures
        r matches Ok(p) ==> pos < p.1 <= toks@.len(),
    decreases toks@.len() - pos,
{
    let n: usize = toks.len();
    if pos >= n {
        return Err(perr(pos, "unterminated argument list"));
    }
    let mut args: Vec<Value> = Vec::new();
    if matches!(&toks[pos].1, Token::RParen) {
        return Ok((args, pos + 1));
    }
    let mut cur: usize = pos;
    loop
        invariant
            pos <= cur <= n,
            n == toks@.len(),
        decreases n - cur,
    {
        let (v, next) = match p_value(toks, cur) {
            Ok(p) => p,
            Err(e) => {
                return Err(e);
            }
        };
        args.push(v);
        cur = next;
        if cur >= n {
            return Err(perr(cur, "unterminated argument list"));
        }
        if matches!(&toks[cur].1, Token::RParen) {
            return Ok((args, cur + 1));
        }
        if matches!(&toks[cur].1, Token::Comma) {
            cur = cur + 1;
        } else {
            return Err(perr(cur, "expected `,` or `)`"));
        }
    }
}

/// Parse a parenthesized list of `name : type` parameters; the opening
/// parenthesis has been consumed.
fn p_param_list(toks: &Vec<(usize, Token, usize)>, pos: usize)
    -> (r: Result<(Vec<TypedIdentifier>, usize), ParseError>)
    ensures
        r matches Ok(p) ==> pos < p.1 <= toks@.len(),
{
    let n: usize = toks.len();
    if pos >= n {
        return Err(perr(pos, "unterminated parameter list"));
    }
    let mut params: Vec<TypedIdentifier> = Vec::new();
    if matches!(&toks[pos].1, Token::RParen) {
        return Ok((params, pos + 1));
    }
    let mut cur: usize = pos;
    loop
        invariant
            pos <= cur <= n,
            n == toks@.len(),
        decreases n - cur,
    {
        if cur >= n {
            return Err(perr(cur, "unterminated parameter list"));
        }
        let name: String = match &toks[cur].1 {
            Token::Identifier(s) => s.clone(),
            _ => {
                return Err(perr(cur, "expected a parameter name"));
            }
        };
        if cur + 1 >= n || !matches!(&toks[cur + 1].1, Token::Colon) {
            return Err(perr(cur + 1, "expected `:` after the parameter name"));
        }
        let (ty, next) = match p_type(toks, cur + 2) {
            Ok(p) => p,
            Err(e) => {
                return Err(e);
            }
        };
        params.push(TypedIdentifier { name, ty });
        cur = next;
        if cur >= n {
            return Err(perr(cur, "unterminated parameter list"));
        }
        if matches!(&toks[cur].1, Token::RParen) {
            return Ok((params, cur + 1));
        }
        if matches!(&toks[cur].1, Token::Comma) {
            cur = cur + 1;
        } else {
            return Err(perr(cur, "expected `,` or `)`"));
        }
    }
}

/// Parse an expression: `call f(args)`, `op(args)`, or a bare literal.
fn p_expression(toks: &Vec<(usize, Token, usize)>, pos: usize)
    -> (r: Result<(Expression, usize), ParseError>)
    ensures
        r matches Ok(p) ==> pos < p.1 <= toks@.len(),
{
    let n: usize = toks.len();
    if pos >= n {
        return Err(perr(pos, "expected an expression"));
    }
    match &toks[pos].1 {
        Token::Call => {
            if pos + 1 >= n {
                return Err(perr(pos + 1, "expected a function name after `call`"));
            }
            let name: String = match &toks[pos + 1].1 {
                Token::Identifier(s) => s.clone(),
                _ => {
                    return Err(perr(pos + 1, "expected a function name after `call`"));
                }
            };
            if pos + 2 >= n || !matches!(&toks[pos + 2].1, Token::LParen) {
                return Err(perr(pos + 2, "expected `(` after the callee"));
            }
            let (args, next) = match p_value_list(toks, pos + 3) {
                Ok(p) => p,
                Err(e) => {
                    return Err(e);
                }
            };
            Ok((Expression::Call { name, args }, next))
        }
        Token::Identifier(opname) => {
            let op: String = opname.clone();
            if pos + 1 < n && matches!(&toks[pos + 1].1, Token::LParen) {
                let (args, next) = match p_value_list(toks, pos + 2) {
                    Ok(p) => p,
                    Err(e) => {
                        return Err(e);
                    }
                };
                Ok((Expression::Operation { op, args }, next))
            } else {
                Err(perr(pos + 1, "expected `(` after the operation name"))
            }
        }
        Token::Number(text) => {
            let cs = crate::text::str_chars(text.as_str());
            match parse_i32_chars(cs.as_slice()) {
                Some(v) => Ok((Expression::Constant(v), pos + 1)),
                None => Err(perr(pos, "integer literal out of range")),
            }
        }
        _ => Err(perr(pos, "expected an expression")),
    }
}

/// Parse an instruction: `name:type = expr` or an expression statement.
fn p_instruction(toks: &Vec<(usize, Token, usize)>, pos: usize)
    -> (r: Result<(Instruction, usize), ParseError>)
    ensures
        r matches Ok(p) ==> pos < p.1 <= toks@.len(),
{
    let n: usize = toks.len();
    if pos >= n {
        return Err(perr(pos, "expected an instruction"));
    }
    if pos + 1 < n {
        let is_assign: bool = match (&toks[pos].1, &toks[pos + 1].1) {
            (Token::Identifier(_), Token::Colon) => true,
            _ => false,
        };
        if is_assign {
            let name: String = match &toks[pos].1 {
                Token::Identifier(s) => s.clone(),
                _ => {
                    return Err(perr(pos, "expected a destination name"));
                }
            };
            let (ty, after_ty) = match p_type(toks, pos + 2) {
                Ok(p) => p,
                Err(e) => {
                    return Err(e);
                }
            };
            if after_ty >= n || !matches!(&toks[after_ty].1, Token::Equals) {
                return Err(perr(after_ty, "expected `=` after the destination"));
            }
            let (expr, next) = match p_expression(toks, after_ty + 1) {
                Ok(p) => p,
                Err(e) => {
                    return Err(e);
                }
            };
            return Ok((Instruction::Assign {
                dest: TypedIdentifier { name, ty },
                expr,
            }, next));
        }
    }
    let (expr, next) = match p_expression(toks, pos) {
        Ok(p) => p,
        Err(e) => {
            return Err(e);
        }
    };
    Ok((Instruction::ExpressionStatement { expr }, next))
}

/// Whether the parenthesis at `pos` opens a block parameter list — a
/// `name : type` follows — rather than a branch argument list.
fn opens_block_params(toks: &Vec<(usize, Token, usize)>, pos: usize) -> (r: bool) {
    let n: usize = toks.len();
    if pos >= n || n - pos <= 2 {
        return false;
    }
    matches!(&toks[pos + 1].1, Token::Identifier(_))
        && matches!(&toks[pos + 2].1, Token::Colon)
}

/// Whether the token at `pos` opens a block header: an identifier
/// followed by `:` or `(`.
fn starts_block(toks: &Vec<(usize, Token, usize)>, pos: usize) -> (r: bool) {
    if pos >= toks.len() {
        return false;
    }
    if !matches!(&toks[pos].1, Token::Identifier(_)) {
        return false;
    }
    if pos + 1 >= toks.len() {
        return false;
    }
    matches!(&toks[pos + 1].1, Token::Colon) || matches!(&toks[pos + 1].1, Token::LParen)
}

/// Parse a terminator: `ret`, `ret v`, `ret (v)`, `br label(args)` or
/// `br_if cond, tlabel(targs), flabel(fargs)`.
fn p_terminator(toks: &Vec<(usize, Token, usize)>, pos: usize)
    -> (r: Result<(Terminator, usize), ParseError>)
    ensures
        r matches Ok(p) ==> pos < p.1 <= toks@.len(),
{
    let n: usize = toks.len();
    if pos >= n {
        return Err(perr(pos, "expected a terminator"));
    }
    match &toks[pos].1 {
        Token::Ret => {
            if pos + 1 < n && matches!(&toks[pos + 1].1, Token::LParen) {
                let (v, after_v) = match p_value(toks, pos + 2) {
                    Ok(p) => p,
                    Err(e) => {
                        return Err(e);
                    }
                };
                if after_v >= n || !matches!(&toks[after_v].1, Token::RParen) {
                    return Err(perr(after_v, "expected `)` after the return value"));
                }
                return Ok((Terminator::Ret(Some(v)), after_v + 1));
            }
            if pos + 1 < n && matches!(&toks[pos + 1].1, Token::Number(_)) {
                let (v, next) = match p_value(toks, pos + 1) {
                    Ok(p) => p,
                    Err(e) => {
                        return Err(e);
                    }
                };
                return Ok((Terminator::Ret(Some(v)), next));
            }
            if pos + 1 < n && matches!(&toks[pos + 1].1, Token::Identifier(_))
                && !starts_block(toks, pos + 1) {
                let (v, next) = match p_value(toks, pos + 1) {
                    Ok(p) => p,
                    Err(e) => {
                        return Err(e);
                    }
                };
                return Ok((Terminator::Ret(Some(v)), next));
            }
            Ok((Terminator::Ret(None), pos + 1))
        }
        Token::Br => {
            if pos + 1 >= n {
                return Err(perr(pos + 1, "expected a branch target"));
            }
            let label: String = match &toks[pos + 1].1 {
                Token::Identifier(s) => s.clone(),
                _ => {
                    return Err(perr(pos + 1, "expected a branch target"));
                }
            };
            if pos + 2 < n && matches!(&toks[pos + 2].1, Token::LParen)
                && !opens_block_params(toks, pos + 2) {
                let (args, next) = match p_value_list(toks, pos + 3) {
                    Ok(p) => p,
                    Err(e) => {
                        return Err(e);
                    }
                };
                Ok((Terminator::Br { label, args }, next))
            } else {
                Ok((Terminator::Br { label, args: Vec::new() }, pos + 2))
            }
        }
        Token::BrIf => {
            let (cond, after_cond) = match p_value(toks, pos + 1) {
                Ok(p) => p,
                Err(e) => {
                    return Err(e);
                }
            };
            if after_cond >= n || !matches!(&toks[after_cond].1, Token::Comma) {
                return Err(perr(after_cond, "expected `,` after the branch condition"));
            }
            if after_cond + 1 >= n {
                return Err(perr(after_cond + 1, "expected the true branch target"));
            }
            let true_label: String = match &toks[after_cond + 1].1 {
                Token::Identifier(s) => s.clone(),
                _ => {
                    return Err(perr(after_cond + 1, "expected the true branch target"));
                }
            };
            let mut cur: usize = after_cond + 2;
            let mut true_args: Vec<Value> = Vec::new();
            if cur < n && matches!(&toks[cur].1, Token::LParen) {
                let (args, next) = match p_value_list(toks, cur + 1) {
                    Ok(p) => p,
                    Err(e) => {
                        return Err(e);
                    }
                };
                true_args = args;
                cur = next;
            }
            if cur >= n || !matches!(&toks[cur].1, Token::Comma) {
                return Err(perr(cur, "expected `,` before the false branch target"));
            }
            if cur + 1 >= n {
                return Err(perr(cur + 1, "expected the false branch target"));
            }
            let false_label: String = match &toks[cur + 1].1 {
                Token::Identifier(s) => s.clone(),
                _ => {
                    return Err(perr(cur + 1, "expected the false branch target"));
                }
            };
            let mut cur2: usize = cur + 2;
            let mut false_args: Vec<Value> = Vec::new();
            if cur2 < n && matches!(&toks[cur2].1, Token::LParen)
                && !opens_block_params(toks, cur2) {
                let (args, next) = match p_value_list(toks, cur2 + 1) {
                    Ok(p) => p,
                    Err(e) => {
                        return Err(e);
                    }
                };
                false_args = args;
                cur2 = next;
            }
            Ok((Terminator::BrIf { cond, true_label, true_args, false_label, false_args }, cur2))
        }
        _ => Err(perr(pos, "expected a terminator")),
    }
}

/// Parse one block: a label, optional parameters, `:`, instructions, and
/// exactly one terminator.
fn p_block(toks: &Vec<(usize, Token, usize)>, pos: usize)
    -> (r: Result<(Block, usize), ParseError>)
    ensures
        r matches Ok(p) ==> pos < p.1 <= toks@.len(),
        r matches Ok(p) ==> pos < toks@.len()
            && (toks@[pos as int].1 matches Token::Identifier(n) && p.0.label@ == n@),
{
    let n: usize = toks.len();
    if pos >= n {
        return Err(perr(pos, "expected a block"));
    }
    let label: String = match &toks[pos].1 {
        Token::Identifier(s) => s.clone(),
        _ => {
            return Err(perr(pos, "expected a block label"));
        }
    };
    let mut cur: usize = pos + 1;
    let mut params: Vec<TypedIdentifier> = Vec::new();
    if cur < n && matches!(&toks[cur].1, Token::LParen) {
        let (ps, next) = match p_param_list(toks, cur + 1) {
            Ok(p) => p,
            Err(e) => {
                return Err(e);
            }
        };
        params = ps;
        cur = next;
    }
    if cur >= n || !matches!(&toks[cur].1, Token::Colon) {
        return Err(perr(cur, "expected `:` after the block label"));
    }
    cur = cur + 1;
    let mut instructions: Vec<Instruction> = Vec::new();
    loop
        invariant
            pos < cur <= n,
            n == toks@.len(),
            (toks@[pos as int].1 matches Token::Identifier(n2) && label@ == n2@),
        decreases n - cur,
    {
        if cur >= n {
            return Err(perr(cur, "block is missing a terminator"));
        }
        let at_term: bool = matches!(&toks[cur].1, Token::Ret)
            || matches!(&toks[cur].1, Token::Br) || matches!(&toks[cur].1, Token::BrIf);
        if at_term {
            let (terminator, next) = match p_terminator(toks, cur) {
                Ok(p) => p,
                Err(e) => {
                    return Err(e);
                }
            };
            return Ok((Block { label, params, instructions, terminator }, next));
        }
        let (ins, next) = match p_instruction(toks, cur) {
            Ok(p) => p,
            Err(e) => {
                return Err(e);
            }
        };
        instructions.push(ins);
        cur = next;
    }
}

/// Parse an import declaration.
fn p_import(toks: &Vec<(usize, Token, usize)>, pos: usize)
    -> (r: Result<(ImportDecl, usize), ParseError>)
    ensures
        r matches Ok(p) ==> pos < p.1 <= toks@.len(),
        r matches Ok(p) ==> pos + 2 < toks@.len()
            && (toks@[pos as int].1 matches Token::Import)
            && (toks@[pos + 1].1 matches Token::Str(m) && p.0.module@ == m@)
            && (toks@[pos + 2].1 matches Token::Str(n) && p.0.name@ == n@),
{
    let n: usize = toks.len();
    if pos >= n || !matches!(&toks[pos].1, Token::Import) {
        return Err(perr(pos, "expected `import`"));
    }
    if pos + 1 >= n {
        return Err(perr(pos + 1, "expected the import module string"));
    }
    let module: String = match &toks[pos + 1].1 {
        Token::Str(s) => s.clone(),
        _ => {
            return Err(perr(pos + 1, "expected the import module string"));
        }
    };
    if pos + 2 >= n {
        return Err(perr(pos + 2, "expected the import name string"));
    }
    let name: String = match &toks[pos + 2].1 {
        Token::Str(s) => s.clone(),
        _ => {
            return Err(perr(pos + 2, "expected the import name string"));
        }
    };
    let mut cur: usize = pos + 3;
    let mut calling_convention: Option<String> = None;
    if cur < n {
        match &toks[cur].1 {
            Token::Str(s) => {
                calling_convention = Some(s.clone());
                cur = cur + 1;
            }
            _ => {}
        }
    }
    let mut params: Vec<TypedIdentifier> = Vec::new();
    if cur < n && matches!(&toks[cur].1, Token::LParen) {
        let (ps, next) = match p_param_list(toks, cur + 1) {
            Ok(p) => p,
            Err(e) => {
                return Err(e);
            }
        };
        params = ps;
        cur = next;
    }
    if cur >= n || !matches!(&toks[cur].1, Token::Arrow) {
        return Err(perr(cur, "expected `->` in the import declaration"));
    }
    let (return_type, next) = match p_type(toks, cur + 1) {
        Ok(p) => p,
        Err(e) => {
            return Err(e);
        }
    };
    Ok((ImportDecl { module, name, calling_convention, params, return_type }, next))
}

/// Parse one function definition.
fn p_function(toks: &Vec<(usize, Token, usize)>, pos: usize)
    -> (r: Result<(FunctionDef, usize), ParseError>)
    ensures
        r matches Ok(p) ==> pos < p.1 <= toks@.len(),
        r matches Ok(p) ==> pos + 1 < toks@.len()
            && (toks@[pos as int].1 matches Token::Fn)
            && (toks@[pos + 1].1 matches Token::Identifier(n) && p.0.name@ == n@)
            && p.0.blocks@.len() > 0,
{
    let n: usize = toks.len();
    if pos >= n || !matches!(&toks[pos].1, Token::Fn) {
        return Err(perr(pos, "expected `fn`"));
    }
    if pos + 1 >= n {
        return Err(perr(pos + 1, "expected the function name"));
    }
    let name: String = match &toks[pos + 1].1 {
        Token::Identifier(s) => s.clone(),
        _ => {
            return Err(perr(pos + 1, "expected the function name"));
        }
    };
    if pos + 2 >= n || !matches!(&toks[pos + 2].1, Token::LParen) {
        return Err(perr(pos + 2, "expected `(` after the function name"));
    }
    let (params, after_params) = match p_param_list(toks, pos + 3) {
        Ok(p) => p,
        Err(e) => {
            return Err(e);
        }
    };
    if after_params >= n || !matches!(&toks[after_params].1, Token::Arrow) {
        return Err(perr(after_params, "expected `->` after the parameter list"));
    }
    let (return_type, after_ty) = match p_type(toks, after_params + 1) {
        Ok(p) => p,
        Err(e) => {
            return Err(e);
        }
    };
    if after_ty >= n || !matches!(&toks[after_ty].1, Token::LBrace) {
        return Err(perr(after_ty, "expected `{` before the function body"));
    }
    let mut cur: usize = after_ty + 1;
    let mut blocks: Vec<Block> = Vec::new();
    loop
        invariant
            pos < cur <= n,
            n == toks@.len(),
            pos + 1 < n,
            (toks@[pos as int].1 matches Token::Fn),
            (toks@[pos + 1].1 matches Token::Identifier(n2) && name@ == n2@),
        decreases n - cur,
    {
        if cur >= n {
            return Err(perr(cur, "unterminated function body"));
        }
        if matches!(&toks[cur].1, Token::RBrace) {
            if blocks.len() == 0 {
                return Err(perr(cur, "a function needs at least one block"));
            }
            return Ok((FunctionDef { name, params, return_type, blocks }, cur + 1));
        }
        let (blk, next) = match p_block(toks, cur) {
            Ok(p) => p,
            Err(e) => {
                return Err(e);
            }
        };
        blocks.push(blk);
        cur = next;
    }
}

/// Parse a whole program and require that every token is consumed.
pub fn parse_program(toks: &Vec<(usize, Token, usize)>)
    -> (r: Result<Program, ParseError>)
    ensures
        toks@.len() == 0 ==> (r matches Ok(p) && p.items@.len() == 0),
        toks@.len() > 0 ==> (r matches Ok(p) ==> p.items@.len() > 0),
{
    let n: usize = toks.len();
    let mut items: Vec<TopLevelItem> = Vec::new();
    let mut cur: usize = 0;
    loop
        invariant
            cur <= n,
            n == toks@.len(),
            cur == 0 ==> items@.len() == 0,
            cur > 0 ==> items@.len() > 0,
        decreases n - cur,
    {
        if cur >= n {
            return Ok(Program { items });
        }
        if matches!(&toks[cur].1, Token::Import) {
            let (imp, next) = match p_import(toks, cur) {
                Ok(p) => p,
                Err(e) => {
                    return Err(e);
                }
            };
            items.push(TopLevelItem::Import(imp));
            cur = next;
        } else if matches!(&toks[cur].1, Token::Fn) {
            let (f, next) = match p_function(toks, cur) {
                Ok(p) => p,
                Err(e) => {
                    return Err(e);
                }
            };
            items.push(TopLevelItem::Function(f));
            cur = next;
        } else {
            return Err(perr(cur, "expected `import` or `fn`"));
        }
    }
}

/// Parse a single type, consuming all tokens.
pub fn parse_type(toks: &Vec<(usize, Token, usize)>) -> (r: Result<Type, ParseError>) {
    match p_type(toks, 0) {
        Ok((t, next)) => {
            if next == toks.len() {
                Ok(t)
            } else {
                Err(perr(next, "trailing tokens after the type"))
            }
        }
        Err(e) => Err(e),
    }
}

/// Parse a single value, consuming all tokens.
pub fn parse_value(toks: &Vec<(usize, Token, usize)>) -> (r: Result<Value, ParseError>) {
    match p_value(toks, 0) {
        Ok((v, next)) => {
            if next == toks.len() {
                Ok(v)
            } else {
                Err(perr(next, "trailing tokens after the value"))
            }
        }
        Err(e) => Err(e),
    }
}

/// Parse a single expression, consuming all tokens.
pub fn parse_expression(toks: &Vec<(usize, Token, usize)>)
    -> (r: Result<Expression, ParseError>)
{
    match p_expression(toks, 0) {
        Ok((v, next)) => {
            if next == toks.len() {
                Ok(v)
            } else {
                Err(perr(next, "trailing tokens after the expression"))
            }
        }
        Err(e) => Err(e),
    }
}

/// Parse a single instruction, consuming all tokens.
pub fn parse_instruction(toks: &Vec<(usize, Token, usize)>)
    -> (r: Result<Instruction, ParseError>)
{
    match p_instruction(toks, 0) {
        Ok((v, next)) => {
            if next == toks.len() {
                Ok(v)
            } else {
                Err(perr(next, "trailing tokens after the instruction"))
            }
        }
        Err(e) => Err(e),
    }
}

/// Parse a single terminator, consuming all tokens.
pub fn parse_terminator(toks: &Vec<(usize, Token, usize)>)
    -> (r: Result<Terminator, ParseError>)
{
    match p_terminator(toks, 0) {
        Ok((v, next)) => {
            if next == toks.len() {
                Ok(v)
            } else {
                Err(perr(next, "trailing tokens after the terminator"))
            }
        }
        Err(e) => Err(e),
    }
}

/// Parse a single block, consuming all tokens.
pub fn parse_block(toks: &Vec<(usize, Token, usize)>) -> (r: Result<Block, ParseError>) {
    match p_block(toks, 0) {
        Ok((v, next)) => {
            if next == toks.len() {
                Ok(v)
            } else {
                Err(perr(next, "trailing tokens after the block"))
            }
        }
        Err(e) => Err(e),
    }
}

/// Parse a single import declaration, consuming all tokens.
pub fn parse_import_decl(toks: &Vec<(usize, Token, usize)>)
    -> (r: Result<ImportDecl, ParseError>)
{
    match p_import(toks, 0) {
        Ok((v, next)) => {
            if next == toks.len() {
                Ok(v)
            } else {
                Err(perr(next, "trailing tokens after the import"))
            }
        }
        Err(e) => Err(e),
    }
}

/// Parse a single function definition, consuming all tokens.
pub fn parse_function_def(toks: &Vec<(usize, Token, usize)>)
    -> (r: Result<FunctionDef, ParseError>)
{
    match p_function(toks, 0) {
        Ok((v, next)) => {
            if next == toks.len() {
                Ok(v)
            } else {
                Err(perr(next, "trailing tokens after the function"))
            }
        }
        Err(e) => Err(e),
    }
}

} // verus!
