//! The lexer: source text to a positioned token stream.
//!
//! Whitespace and `#`-to-end-of-line comments are skipped.  Identifiers
//! may contain `.` so that an operation mnemonic like `i32.add` is a
//! single token.  Spans are character offsets into the source; scanning
//! stops at the first character no token can start with.

use vstd::prelude::*;
use crate::text::{chars_string, spec_is_space, str_chars};

verus! {

/// One token of TILT source.
#[derive(Debug, Clone, PartialEq)]
pub enum Token {
    Fn,
    Import,
    Ret,
    Br,
    BrIf,
    Phi,
    Call,
    TI32,
    TI64,
    TF32,
    TF64,
    TUsize,
    TVoid,
    LBrace,
    RBrace,
    LParen,
    RParen,
    LBracket,
    RBracket,
    Colon,
    Equals,
    Comma,
    Arrow,
    Str(String),
    Number(String),
    Identifier(String),
}

/// Characters an identifier may contain: letters, digits, `_` and `.`.
pub open spec fn spec_is_ident_char(c: char) -> bool {
    ('a' <= c && c <= 'z') || ('A' <= c && c <= 'Z') || ('0' <= c && c <= '9')
        || c == '_' || c == '.'
}

/// Characters an identifier may start with: letters, `_` and `.`.
pub open spec fn spec_is_ident_start(c: char) -> bool {
    ('a' <= c && c <= 'z') || ('A' <= c && c <= 'Z') || c == '_' || c == '.'
}

pub open spec fn spec_is_digit(c: char) -> bool {
    '0' <= c && c <= '9'
}

fn is_ident_char(c: char) -> (r: bool)
    ensures
        r == spec_is_ident_char(c),
{
    ('a' <= c && c <= 'z') || ('A' <= c && c <= 'Z') || ('0' <= c && c <= '9')
        || c == '_' || c == '.'
}

fn is_ident_start(c: char) -> (r: bool)
    ensures
        r == spec_is_ident_start(c),
{
    ('a' <= c && c <= 'z') || ('A' <= c && c <= 'Z') || c == '_' || c == '.'
}

fn is_digit(c: char) -> (r: bool)
    ensures
        r == spec_is_digit(c),
{
    '0' <= c && c <= '9'
}

/// The keyword or type-name token a word denotes, if any.
pub open spec fn spec_keyword(w: Seq<char>) -> Option<Token> {
    if w == "fn"@ {
        Some(Token::Fn)
    } else if w == "import"@ {
        Some(Token::Import)
    } else if w == "ret"@ {
        Some(Token::Ret)
    } else if w == "br"@ {
        Some(Token::Br)
    } else if w == "br_if"@ {
        Some(Token::BrIf)
    } else if w == "phi"@ {
        Some(Token::Phi)
    } else if w == "call"@ {
        Some(Token::Call)
    } else if w == "i32"@ {
        Some(Token::TI32)
    } else if w == "i64"@ {
        Some(Token::TI64)
    } else if w == "f32"@ {
        Some(Token::TF32)
    } else if w == "f64"@ {
        Some(Token::TF64)
    } else if w == "usize"@ {
        Some(Token::TUsize)
    } else if w == "void"@ {
        Some(Token::TVoid)
    } else {
        None
    }
}

fn keyword_of(w: &[char]) -> (r: Option<Token>)
    ensures
        match spec_keyword(w@) {
            Some(t) => r == Some(t),
            None => r is None,
        },
{
    if crate::text::chars_eq_str(w, "fn") {
        Some(Token::Fn)
    } else if crate::text::chars_eq_str(w, "import") {
        Some(Token::Import)
    } else if crate::text::chars_eq_str(w, "ret") {
        Some(Token::Ret)
    } else if crate::text::chars_eq_str(w, "br") {
        Some(Token::Br)
    } else if crate::text::chars_eq_str(w, "br_if") {
        Some(Token::BrIf)
    } else if crate::text::chars_eq_str(w, "phi") {
        Some(Token::Phi)
    } else if crate::text::chars_eq_str(w, "call") {
        Some(Token::Call)
    } else if crate::text::chars_eq_str(w, "i32") {
        Some(Token::TI32)
    } else if crate::text::chars_eq_str(w, "i64") {
        Some(Token::TI64)
    } else if crate::text::chars_eq_str(w, "f32") {
        Some(Token::TF32)
    } else if crate::text::chars_eq_str(w, "f64") {
        Some(Token::TF64)
    } else if crate::text::chars_eq_str(w, "usize") {
        Some(Token::TUsize)
    } else if crate::text::chars_eq_str(w, "void") {
        Some(Token::TVoid)
    } else {
        None
    }
}


/// The position reached from `i` after skipping whitespace and comments;
/// `in_comment` tracks scanning inside a `#`-to-end-of-line comment.
#[verifier::opaque]
pub open spec fn spec_skip_trivia(s: Seq<char>, i: int, in_comment: bool) -> int
    decreases s.len() - i,
{
    if i < 0 || i >= s.len() {
        if i < 0 { 0 } else { i }
    } else if in_comment {
        if s[i] == '\n' {
            spec_skip_trivia(s, i + 1, false)
        } else {
            spec_skip_trivia(s, i + 1, true)
        }
    } else if spec_is_space(s[i]) {
        spec_skip_trivia(s, i + 1, false)
    } else if s[i] == '#' {
        spec_skip_trivia(s, i + 1, true)
    } else {
        i
    }
}

/// The unescaped content of a string-literal body: a backslash takes the
/// following character verbatim; a bare quote cannot occur inside.
pub open spec fn spec_unescape(c: Seq<char>) -> Option<Seq<char>>
    decreases c.len(),
{
    if c.len() == 0 {
        Some(Seq::empty())
    } else if c[0] == '\\' {
        if c.len() >= 2 {
            match spec_unescape(c.skip(2)) {
                Some(u) => Some(seq![c[1]] + u),
                None => None,
            }
        } else {
            None
        }
    } else if c[0] == '"' {
        None
    } else {
        match spec_unescape(c.skip(1)) {
            Some(u) => Some(seq![c[0]] + u),
            None => None,
        }
    }
}

/// Unescaping distributes over concatenation when the first part
/// unescapes on its own (so it does not end inside an escape).
proof fn lemma_unescape_append(a: Seq<char>, b: Seq<char>, ua: Seq<char>)
    requires
        spec_unescape(a) == Some(ua),
    ensures
        spec_unescape(a + b) == match spec_unescape(b) {
            Some(ub) => Some(ua + ub),
            None => None::<Seq<char>>,
        },
    decreases a.len(),
{
    if a.len() == 0 {
        assert(a + b =~= b);
        match spec_unescape(b) {
            Some(ub) => {
                assert(ua + ub =~= ub);
            }
            None => {}
        }
    } else if a[0] == '\\' {
        let ua2 = spec_unescape(a.skip(2))->0;
        lemma_unescape_append(a.skip(2), b, ua2);
        assert((a + b).skip(2) =~= a.skip(2) + b);
        assert((a + b)[0] == a[0]);
        assert((a + b)[1] == a[1]);
        match spec_unescape(b) {
            Some(ub) => {
                assert(seq![a[1]] + (ua2 + ub) =~= ua + ub);
            }
            None => {}
        }
    } else {
        let ua2 = spec_unescape(a.skip(1))->0;
        lemma_unescape_append(a.skip(1), b, ua2);
        assert((a + b).skip(1) =~= a.skip(1) + b);
        assert((a + b)[0] == a[0]);
        match spec_unescape(b) {
            Some(ub) => {
                assert(seq![a[0]] + (ua2 + ub) =~= ua + ub);
            }
            None => {}
        }
    }
}

/// Whether the digits of a number literal stand at `[start, end)`: an
/// optional leading minus, then at least one digit, maximal to the right.
pub open spec fn spec_number_text(s: Seq<char>, start: int, end: int) -> bool {
    &&& start < end <= s.len()
    &&& (if s[start] == '-' {
        start + 1 < end && forall|k: int| start + 1 <= k < end ==> spec_is_digit(s[k])
    } else {
        forall|k: int| start <= k < end ==> spec_is_digit(s[k])
    })
    &&& (end == s.len() || !spec_is_digit(s[end]))
}

/// Whether an identifier-shaped word stands at `[start, end)`: a legal
/// start character, then identifier characters, maximal to the right.
pub open spec fn spec_word_text(s: Seq<char>, start: int, end: int) -> bool {
    &&& start < end <= s.len()
    &&& spec_is_ident_start(s[start])
    &&& (forall|k: int| start <= k < end ==> spec_is_ident_char(s[k]))
    &&& (end == s.len() || !spec_is_ident_char(s[end]))
}

/// Whether `tok` is exactly the token the source spells at `[start, end)`,
/// per the lexical grammar: keywords and type names are maximal words,
/// punctuation is literal, numbers and identifiers carry their own text,
/// and a string literal carries its unescaped content.
#[verifier::opaque]
pub open spec fn spec_token_at(s: Seq<char>, start: int, end: int, tok: Token) -> bool {
    let text = s.subrange(start, end);
    &&& 0 <= start < end <= s.len()
    &&& match tok {
        Token::Fn => text == "fn"@ && spec_word_text(s, start, end),
        Token::Import => text == "import"@ && spec_word_text(s, start, end),
        Token::Ret => text == "ret"@ && spec_word_text(s, start, end),
        Token::Br => text == "br"@ && spec_word_text(s, start, end),
        Token::BrIf => text == "br_if"@ && spec_word_text(s, start, end),
        Token::Phi => text == "phi"@ && spec_word_text(s, start, end),
        Token::Call => text == "call"@ && spec_word_text(s, start, end),
        Token::TI32 => text == "i32"@ && spec_word_text(s, start, end),
        Token::TI64 => text == "i64"@ && spec_word_text(s, start, end),
        Token::TF32 => text == "f32"@ && spec_word_text(s, start, end),
        Token::TF64 => text == "f64"@ && spec_word_text(s, start, end),
        Token::TUsize => text == "usize"@ && spec_word_text(s, start, end),
        Token::TVoid => text == "void"@ && spec_word_text(s, start, end),
        Token::LBrace => text == "{"@,
        Token::RBrace => text == "}"@,
        Token::LParen => text == "("@,
        Token::RParen => text == ")"@,
        Token::LBracket => text == "["@,
        Token::RBracket => text == "]"@,
        Token::Colon => text == ":"@,
        Token::Equals => text == "="@,
        Token::Comma => text == ","@,
        Token::Arrow => text == "->"@,
        Token::Number(t) => t@ == text && spec_number_text(s, start, end),
        Token::Identifier(t) => t@ == text && spec_word_text(s, start, end)
            && spec_keyword(text) is None,
        Token::Str(t) => s[start] == '"' && s[end - 1] == '"' && end >= start + 2
            && spec_unescape(s.subrange(start + 1, end - 1)) == Some(t@),
    }
}

/// Whether a token stream is exactly the tokenization of `s`: each token
/// stands where skipping trivia from the previous one leads, spells what
/// the source holds there, and only trivia follows the last one.
pub open spec fn spec_tokens_cover(s: Seq<char>, toks: Seq<(usize, Token, usize)>) -> bool {
    &&& (forall|j: int| 0 <= j < toks.len() ==> {
        &&& (#[trigger] toks[j]).0 < toks[j].2 && toks[j].2 <= s.len()
        &&& spec_token_at(s, toks[j].0 as int, toks[j].2 as int, toks[j].1)
        &&& toks[j].0 as int == spec_skip_trivia(s,
            if j == 0 { 0 } else { toks[j - 1].2 as int }, false)
    })
    &&& spec_skip_trivia(s, if toks.len() == 0 { 0 } else { toks.last().2 as int }, false)
        == s.len()
}


/// Emitting one token that stands exactly at the scan position extends
/// the lexer's invariant past it.
proof fn lex_emit(s: Seq<char>, toks0: Seq<(usize, Token, usize)>, start: usize,
    end: usize, tok: Token)
    requires
        spec_lex_prefix_ok(s, toks0, start as int),
        spec_skip_trivia(s, start as int, false) == start as int,
        spec_token_at(s, start as int, end as int, tok),
        start < end,
        end as int <= s.len(),
    ensures
        spec_lex_prefix_ok(s, toks0.push((start, tok, end)), end as int),
{
    let new = toks0.push((start, tok, end));
    assert forall|j: int| 0 <= j < new.len() implies {
        &&& (#[trigger] new[j]).0 < new[j].2 && new[j].2 <= s.len()
        &&& spec_token_at(s, new[j].0 as int, new[j].2 as int, new[j].1)
        &&& new[j].0 as int == spec_skip_trivia(s,
            if j == 0 { 0 } else { new[j - 1].2 as int }, false)
    } by {
        if j < toks0.len() {
            assert(new[j] == toks0[j]);
            if j > 0 {
                assert(new[j - 1] == toks0[j - 1]);
            }
        } else {
            assert(new[j] == (start, tok, end));
            if j > 0 {
                assert(new[j - 1] == toks0[j - 1]);
                assert(toks0.last() == toks0[j - 1]);
            }
        }
    }
    assert(new.last() == (start, tok, end));
}

/// The lexer's scan invariant: the tokens emitted so far are exactly the
/// tokenization of the source up to the scan position, which continues
/// the trivia run after the last of them.
pub open spec fn spec_lex_prefix_ok(s: Seq<char>, toks: Seq<(usize, Token, usize)>,
    i: int) -> bool
{
    &&& (forall|j: int| 0 <= j < toks.len() ==> {
        &&& (#[trigger] toks[j]).0 < toks[j].2 && toks[j].2 <= s.len()
        &&& spec_token_at(s, toks[j].0 as int, toks[j].2 as int, toks[j].1)
        &&& toks[j].0 as int == spec_skip_trivia(s,
            if j == 0 { 0 } else { toks[j - 1].2 as int }, false)
    })
    &&& spec_skip_trivia(s, if toks.len() == 0 { 0 } else { toks.last().2 as int }, false)
        == spec_skip_trivia(s, i, false)
}

/// Lex one single-character punctuation token at `i`.
#[verifier::rlimit(100)]
fn lex_punct(cs: &Vec<char>, toks: &mut Vec<(usize, Token, usize)>, i: usize, n: usize)
    -> (i2: usize)
    requires
        cs@.len() == n,
        i < n,
        spec_lex_prefix_ok(cs@, old(toks)@, i as int),
        cs@[i as int] == '{' || cs@[i as int] == '}' || cs@[i as int] == '('
            || cs@[i as int] == ')' || cs@[i as int] == '[' || cs@[i as int] == ']'
            || cs@[i as int] == ':' || cs@[i as int] == '=' || cs@[i as int] == ',',
    ensures
        i < i2 <= n,
        spec_lex_prefix_ok(cs@, final(toks)@, i2 as int),
{
    proof {
        reveal_strlit("{");
        reveal_strlit("}");
        reveal_strlit("(");
        reveal_strlit(")");
        reveal_strlit("[");
        reveal_strlit("]");
        reveal_strlit(":");
        reveal_strlit("=");
        reveal_strlit(",");
    }
    let ghost toks0 = toks@;
    let c = cs[i];
    let tok = match c {
        '{' => Token::LBrace,
        '}' => Token::RBrace,
        '(' => Token::LParen,
        ')' => Token::RParen,
        '[' => Token::LBracket,
        ']' => Token::RBracket,
        ':' => Token::Colon,
        '=' => Token::Equals,
        _ => Token::Comma,
    };
    proof {
        let text = cs@.subrange(i as int, i + 1);
        assert(text.len() == 1 && text[0] == c);
        if c == '{' { assert(text =~= "{"@); }
        if c == '}' { assert(text =~= "}"@); }
        if c == '(' { assert(text =~= "("@); }
        if c == ')' { assert(text =~= ")"@); }
        if c == '[' { assert(text =~= "["@); }
        if c == ']' { assert(text =~= "]"@); }
        if c == ':' { assert(text =~= ":"@); }
        if c == '=' { assert(text =~= "="@); }
        if c == ',' { assert(text =~= ","@); }
        reveal(spec_token_at);
        assert(spec_token_at(cs@, i as int, i + 1, tok));
        reveal(spec_skip_trivia);
        assert(spec_skip_trivia(cs@, i as int, false) == i as int);
    }
    toks.push((i, tok, i + 1));
    proof {
        lex_emit(cs@, toks0, i, (i + 1) as usize, tok);
    }
    i + 1
}

/// Lex a number literal whose digits start at `i` (or at `i + 1` after a
/// leading minus).
#[verifier::rlimit(100)]
fn lex_number(cs: &Vec<char>, toks: &mut Vec<(usize, Token, usize)>, i: usize, n: usize)
    -> (i2: usize)
    requires
        cs@.len() == n,
        i < n,
        spec_lex_prefix_ok(cs@, old(toks)@, i as int),
        if cs@[i as int] == '-' {
            i + 1 < n && spec_is_digit(cs@[i + 1])
        } else {
            spec_is_digit(cs@[i as int])
        },
    ensures
        i < i2 <= n,
        spec_lex_prefix_ok(cs@, final(toks)@, i2 as int),
{
    let ghost toks0 = toks@;
    let mut j: usize = i + 1;
    while j < n && is_digit(cs[j])
        invariant
            n == cs@.len(),
            i < j <= n,
            forall|k: int| i < k < j ==> spec_is_digit(cs@[k]),
        decreases n - j,
    {
        j = j + 1;
    }
    let text = chars_string(vstd::slice::slice_subrange(cs.as_slice(), i, j));
    proof {
        reveal(spec_token_at);
        assert(spec_number_text(cs@, i as int, j as int));
        assert(spec_token_at(cs@, i as int, j as int, Token::Number(text)));
        reveal(spec_skip_trivia);
        assert(spec_skip_trivia(cs@, i as int, false) == i as int);
    }
    toks.push((i, Token::Number(text), j));
    proof {
        lex_emit(cs@, toks0, i, j, Token::Number(text));
    }
    j
}

/// Lex a string literal opening at `i`; the payload is its unescaped
/// content.
#[verifier::rlimit(100)]
fn lex_string(cs: &Vec<char>, toks: &mut Vec<(usize, Token, usize)>, i: usize, n: usize)
    -> (r: Result<usize, usize>)
    requires
        cs@.len() == n,
        i < n,
        spec_lex_prefix_ok(cs@, old(toks)@, i as int),
        cs@[i as int] == '"',
    ensures
        r matches Ok(i2) ==> i < i2 <= n
            && spec_lex_prefix_ok(cs@, final(toks)@, i2 as int),
        r matches Err(e) ==> e < n,
{
    let ghost toks0 = toks@;
    let mut j: usize = i + 1;
    let mut content: Vec<char> = Vec::new();
    let mut closed: bool = false;
    proof {
        assert(cs@.subrange(i + 1, i + 1) =~= Seq::<char>::empty());
    }
    while j < n && !closed
        invariant
            n == cs@.len(),
            i < j <= n,
            i < n,
            cs@[i as int] == '"',
            !closed ==> spec_unescape(cs@.subrange(i + 1, j as int)) == Some(content@),
            closed ==> j >= i + 2 && cs@[j - 1] == '"'
                && spec_unescape(cs@.subrange(i + 1, j - 1)) == Some(content@),
        decreases n - j,
    {
        let d = cs[j];
        if d == '"' {
            closed = true;
            j = j + 1;
        } else if d == '\\' {
            if j + 1 < n {
                proof {
                    let a = cs@.subrange(i + 1, j as int);
                    let b = cs@.subrange(j as int, j + 2);
                    assert(b.len() == 2 && b[0] == '\\');
                    assert(b.skip(2) =~= Seq::<char>::empty());
                    assert(seq![b[1]] + Seq::<char>::empty() =~= seq![b[1]]);
                    assert(spec_unescape(Seq::<char>::empty())
                        == Some(Seq::<char>::empty()));
                    assert(spec_unescape(b) == Some(seq![b[1]]));
                    lemma_unescape_append(a, b, content@);
                    assert(a + b =~= cs@.subrange(i + 1, j + 2));
                    assert(content@ + seq![b[1]] =~= content@.push(cs@[j + 1]));
                }
                content.push(cs[j + 1]);
                j = j + 2;
            } else {
                return Err(i);
            }
        } else {
            proof {
                let a = cs@.subrange(i + 1, j as int);
                let b = cs@.subrange(j as int, j + 1);
                assert(b.len() == 1 && b[0] == cs@[j as int]);
                assert(b.skip(1) =~= Seq::<char>::empty());
                assert(seq![b[0]] + Seq::<char>::empty() =~= seq![b[0]]);
                assert(spec_unescape(Seq::<char>::empty())
                    == Some(Seq::<char>::empty()));
                assert(spec_unescape(b) == Some(seq![b[0]]));
                lemma_unescape_append(a, b, content@);
                assert(a + b =~= cs@.subrange(i + 1, j + 1));
                assert(content@ + seq![b[0]] =~= content@.push(cs@[j as int]));
            }
            content.push(d);
            j = j + 1;
        }
    }
    if !closed {
        return Err(i);
    }
    let text = chars_string(content.as_slice());
    proof {
        reveal(spec_token_at);
        assert(spec_token_at(cs@, i as int, j as int, Token::Str(text)));
        reveal(spec_skip_trivia);
        assert(spec_skip_trivia(cs@, i as int, false) == i as int);
    }
    toks.push((i, Token::Str(text), j));
    proof {
        lex_emit(cs@, toks0, i, j, Token::Str(text));
    }
    Ok(j)
}

/// Lex a keyword, type name, or identifier starting at `i`.
#[verifier::rlimit(100)]
fn lex_word(cs: &Vec<char>, toks: &mut Vec<(usize, Token, usize)>, i: usize, n: usize)
    -> (i2: usize)
    requires
        cs@.len() == n,
        i < n,
        spec_lex_prefix_ok(cs@, old(toks)@, i as int),
        spec_is_ident_start(cs@[i as int]),
    ensures
        i < i2 <= n,
        spec_lex_prefix_ok(cs@, final(toks)@, i2 as int),
{
    let ghost toks0 = toks@;
    let mut j: usize = i + 1;
    while j < n && is_ident_char(cs[j])
        invariant
            n == cs@.len(),
            i < j <= n,
            forall|k: int| i < k < j ==> spec_is_ident_char(cs@[k]),
        decreases n - j,
    {
        j = j + 1;
    }
    let word = vstd::slice::slice_subrange(cs.as_slice(), i, j);
    proof {
        assert(spec_word_text(cs@, i as int, j as int));
    }
    proof {
        reveal(spec_skip_trivia);
        assert(spec_skip_trivia(cs@, i as int, false) == i as int);
    }
    match keyword_of(word) {
        Some(t) => {
            proof {
                reveal(spec_token_at);
                assert(spec_token_at(cs@, i as int, j as int, t));
            }
            toks.push((i, t, j));
            proof {
                lex_emit(cs@, toks0, i, j, t);
            }
        }
        None => {
            let text = chars_string(word);
            proof {
                reveal(spec_token_at);
                assert(spec_token_at(cs@, i as int, j as int, Token::Identifier(text)));
            }
            toks.push((i, Token::Identifier(text), j));
            proof {
                lex_emit(cs@, toks0, i, j, Token::Identifier(text));
            }
        }
    }
    j
}

/// Scan one token (or one run of trivia) starting at `i`: returns the
/// position to continue from, or the offset of an invalid character.
fn lex_step(cs: &Vec<char>, toks: &mut Vec<(usize, Token, usize)>, i: usize, n: usize)
    -> (r: Result<usize, usize>)
    requires
        cs@.len() == n,
        i < n,
        spec_lex_prefix_ok(cs@, old(toks)@, i as int),
    ensures
        r matches Ok(i2) ==> i < i2 <= n
            && spec_lex_prefix_ok(cs@, final(toks)@, i2 as int),
        r matches Err(e) ==> e < n,
{
    proof {
        reveal_strlit("->");
    }
    let c = cs[i];
    if crate::text::is_space(c) {
        proof {
            reveal(spec_skip_trivia);
            assert(spec_skip_trivia(cs@, i as int, false)
                == spec_skip_trivia(cs@, i + 1, false));
        }
        Ok(i + 1)
    } else if c == '#' {
        // Comment to end of line.
        let mut j: usize = i + 1;
        proof {
            reveal(spec_skip_trivia);
            assert(spec_skip_trivia(cs@, i as int, false)
                == spec_skip_trivia(cs@, j as int, true));
        }
        while j < n && cs[j] != '\n'
            invariant
                n == cs@.len(),
                i < j <= n,
                spec_skip_trivia(cs@, i as int, false)
                    == spec_skip_trivia(cs@, j as int, true),
            decreases n - j,
        {
            proof {
                reveal(spec_skip_trivia);
            }
            j = j + 1;
        }
        proof {
            reveal(spec_skip_trivia);
            if j < n {
                assert(spec_skip_trivia(cs@, j as int, true)
                    == spec_skip_trivia(cs@, j + 1, false));
                assert(spec_skip_trivia(cs@, j as int, false)
                    == spec_skip_trivia(cs@, j + 1, false));
            }
        }
        Ok(j)
    } else if c == '{' || c == '}' || c == '(' || c == ')' || c == '['
        || c == ']' || c == ':' || c == '=' || c == ',' {
        Ok(lex_punct(cs, toks, i, n))
    } else if c == '-' {
        // Either `->` or a negative number literal.
        if i + 1 < n && cs[i + 1] == '>' {
            let ghost toks0 = toks@;
            proof {
                let text = cs@.subrange(i as int, i + 2);
                assert(text.len() == 2 && text[0] == '-' && text[1] == '>');
                assert(text =~= "->"@);
                reveal(spec_token_at);
                assert(spec_token_at(cs@, i as int, i + 2, Token::Arrow));
                reveal(spec_skip_trivia);
                assert(spec_skip_trivia(cs@, i as int, false) == i as int);
            }
            toks.push((i, Token::Arrow, i + 2));
            proof {
                lex_emit(cs@, toks0, i, (i + 2) as usize, Token::Arrow);
            }
            Ok(i + 2)
        } else if i + 1 < n && is_digit(cs[i + 1]) {
            Ok(lex_number(cs, toks, i, n))
        } else {
            Err(i)
        }
    } else if is_digit(c) {
        Ok(lex_number(cs, toks, i, n))
    } else if c == '"' {
        lex_string(cs, toks, i, n)
    } else if is_ident_start(c) {
        Ok(lex_word(cs, toks, i, n))
    } else {
        Err(i)
    }
}

/// Tokenize a source string.  On success the token stream is exactly the
/// tokenization of the source: each token stands where skipping
/// whitespace and comments from its predecessor leads, spells what the
/// source holds there (maximally), and only trivia follows the last one.
/// On failure the result is the character offset of the first character
/// no token can start with.
pub fn tokenize(source: &str) -> (r: Result<Vec<(usize, Token, usize)>, usize>)
    ensures
        r matches Ok(toks) ==> spec_tokens_cover(source@, toks@),
        r matches Ok(toks) ==> forall|j: int| 0 <= j < toks@.len()
            ==> #[trigger] toks@[j].0 < toks@[j].2 && toks@[j].2 <= source@.len(),
        r matches Err(e) ==> e < source@.len(),
{
    let cs = str_chars(source);
    let n: usize = cs.len();
    let mut toks: Vec<(usize, Token, usize)> = Vec::new();
    let mut i: usize = 0;
    while i < n
        invariant
            n == cs@.len(),
            cs@ == source@,
            i <= n,
            spec_lex_prefix_ok(source@, toks@, i as int),
        decreases n - i,
    {
        match lex_step(&cs, &mut toks, i, n) {
            Ok(i2) => {
                i = i2;
            }
            Err(e) => {
                return Err(e);
            }
        }
    }
    proof {
        reveal(spec_skip_trivia);
        assert(spec_skip_trivia(source@, i as int, false) == n);
    }
    Ok(toks)
}

} // verus!