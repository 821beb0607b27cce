use vstd::prelude::*;
use crate::ast::{Expr, Function, Ident, Statement, AST};
use crate::lexer::{is_alpha, is_space, scan_number, scan_word, skip_space, spells, text_of};
use crate::types::{ColorType, KeyType, OpType, Type};
use vstd::std_specs::iter::IteratorSpec;

verus! {

/// Where the source text stopped making sense, as a character offset.
#[derive(Debug, Clone, Copy, PartialEq, Eq, Structural)]
pub struct ParseError {
    pub position: usize,
}

/// A parse result: the value and the offset just past it.
pub type Parsed<T> = Result<(T, usize), ParseError>;

/// A successful parse consumed at least one character and stayed within the
/// text; a failure points into the text or at its end.
pub open spec fn progress<T>(r: Parsed<T>, pos: usize, len: nat) -> bool {
    match r {
        Ok((_, end)) => pos < end && end <= len,
        Err(e) => e.position <= len,
    }
}

fn fail<T>(position: usize) -> (r: Parsed<T>)
    ensures
        r == Err::<(T, usize), ParseError>(ParseError { position }),
{
    Err(ParseError { position })
}

/// Whether `c` stands at `pos`.
fn at(s: &Vec<char>, pos: usize, c: char) -> (r: bool)
    ensures
        r == (pos < s@.len() && s@[pos as int] == c),
        r ==> pos < s.len(),
{
    pos < s.len() && s[pos] == c
}

/// Skips whitespace, then expects `c`; the offset past it.
fn expect(s: &Vec<char>, pos: usize, c: char) -> (r: Result<usize, ParseError>)
    requires
        pos <= s@.len(),
    ensures
        match r {
            Ok(end) => pos < end <= s@.len() && s@[end - 1] == c,
            Err(e) => e.position <= s@.len(),
        },
{
    let p = skip_space(s, pos);
    if at(s, p, c) {
        Ok(p + 1)
    } else {
        Err(ParseError { position: p })
    }
}

/// Reads a type: `int`, `int<low, high>`, `color`, `key`, `string`, `bool`
/// or `list<element, length>`.
fn parse_type(s: &Vec<char>, pos: usize) -> (r: Parsed<Type>)
    requires
        pos <= s@.len(),
    ensures
        progress(r, pos, s@.len()),
    decreases s@.len() - pos,
{
    let w = scan_word(s, pos);
    if w == pos {
        return fail(pos);
    }
    if spells(s, pos, w, "int") {
        if !at(s, w, '<') {
            return Ok((Type::Int(0, u32::MAX), w));
        }
        let p = skip_space(s, w + 1);
        let (low, p) = match scan_number(s, p) {
            None => return fail(p),
            Some(n) => n,
        };
        let p = match expect(s, p, ',') {
            Err(e) => return Err(e),
            Ok(p) => p,
        };
        let p = skip_space(s, p);
        let (high, p) = match scan_number(s, p) {
            None => return fail(p),
            Some(n) => n,
        };
        let p = match expect(s, p, '>') {
            Err(e) => return Err(e),
            Ok(p) => p,
        };
        Ok((Type::Int(low, high), p))
    } else if spells(s, pos, w, "color") {
        Ok((Type::Color, w))
    } else if spells(s, pos, w, "key") {
        Ok((Type::Key, w))
    } else if spells(s, pos, w, "string") {
        Ok((Type::Printable, w))
    } else if spells(s, pos, w, "bool") {
        Ok((Type::Bool, w))
    } else if spells(s, pos, w, "list") {
        let p = match expect(s, w, '<') {
            Err(e) => return Err(e),
            Ok(p) => p,
        };
        let p = skip_space(s, p);
        let (elem, p) = match parse_type(s, p) {
            Err(e) => return Err(e),
            Ok(t) => t,
        };
        let p = match expect(s, p, ',') {
            Err(e) => return Err(e),
            Ok(p) => p,
        };
        let p = skip_space(s, p);
        let (len, p) = match scan_number(s, p) {
            None => return fail(p),
            Some(n) => n,
        };
        let p = match expect(s, p, '>') {
            Err(e) => return Err(e),
            Ok(p) => p,
        };
        Ok((Type::List(Box::new(elem), len), p))
    } else {
        fail(pos)
    }
}

/// Reads an expression: a term, optionally followed by a binary operator and
/// another expression (operators group to the right).
fn parse_expr(s: &Vec<char>, pos: usize) -> (r: Parsed<Expr>)
    requires
        pos <= s@.len(),
    ensures
        progress(r, pos, s@.len()),
    decreases s@.len() - pos, 2int,
{
    let p = skip_space(s, pos);
    let (left, end) = match parse_term(s, p) {
        Err(e) => return Err(e),
        Ok(t) => t,
    };
    let q = skip_space(s, end);
    if q < s.len() && (s[q] == '+' || s[q] == '-' || s[q] == '*') && !at(s, q + 1, s[q]) {
        let op = if s[q] == '+' {
            OpType::Plus
        } else if s[q] == '-' {
            OpType::Minus
        } else {
            OpType::Times
        };
        let (right, p) = match parse_expr(s, q + 1) {
            Err(e) => return Err(e),
            Ok(t) => t,
        };
        Ok((Expr::Binop(Box::new(left), op, Box::new(right)), p))
    } else {
        Ok((left, end))
    }
}

/// Reads the expressions of a list or an argument list, separated by commas,
/// up to and including `close`.
fn parse_expr_list(s: &Vec<char>, pos: usize, close: char) -> (r: Parsed<Vec<Expr>>)
    requires
        pos <= s@.len(),
    ensures
        progress(r, pos, s@.len()),
    decreases s@.len() - pos, 3int,
{
    let mut items: Vec<Expr> = Vec::new();
    let p = skip_space(s, pos);
    if at(s, p, close) {
        return Ok((items, p + 1));
    }
    let mut p = p;
    loop
        invariant
            pos <= p <= s@.len(),
        decreases s@.len() - p,
    {
        let (e, q) = match parse_expr(s, p) {
            Err(e) => return Err(e),
            Ok(t) => t,
        };
        items.push(e);
        let q = skip_space(s, q);
        if at(s, q, ',') {
            p = q + 1;
        } else if at(s, q, close) {
            return Ok((items, q + 1));
        } else {
            return fail(q);
        }
    }
}

/// Reads a string literal whose opening quote stands at `pos`.
fn parse_string(s: &Vec<char>, pos: usize) -> (r: Parsed<String>)
    requires
        pos < s.len(),
    ensures
        progress(r, pos, s@.len()),
{
    let mut q = pos + 1;
    while q < s.len() && s[q] != '"'
        invariant
            pos < q <= s@.len(),
        decreases s@.len() - q,
    {
        q = q + 1;
    }
    if q >= s.len() {
        return fail(q);
    }
    Ok((text_of(s, pos + 1, q), q + 1))
}

/// Reads a term: a literal, a call, `name++`, `name--`, a variable, a list
/// literal or a parenthesised expression, then any number of `[index]`.
fn parse_term(s: &Vec<char>, pos: usize) -> (r: Parsed<Expr>)
    requires
        pos <= s@.len(),
    ensures
        progress(r, pos, s@.len()),
    decreases s@.len() - pos, 1int,
{
    if pos >= s.len() {
        return fail(pos);
    }
    let c = s[pos];
    let (term, end): (Expr, usize) = if '0' <= c && c <= '9' {
        match scan_number(s, pos) {
            None => return fail(pos),
            Some((v, p)) => (Expr::ConstInt(v), p),
        }
    } else if c == '"' {
        match parse_string(s, pos) {
            Err(e) => return Err(e),
            Ok((text, p)) => (Expr::ConstString(text), p),
        }
    } else if c == '(' {
        let (inner, p) = match parse_expr(s, pos + 1) {
            Err(e) => return Err(e),
            Ok(t) => t,
        };
        match expect(s, p, ')') {
            Err(e) => return Err(e),
            Ok(p) => (inner, p),
        }
    } else if c == '[' {
        match parse_expr_list(s, pos + 1, ']') {
            Err(e) => return Err(e),
            Ok((items, p)) => (Expr::ConstList(items), p),
        }
    } else {
        let w = scan_word(s, pos);
        if w == pos {
            return fail(pos);
        }
        if spells(s, pos, w, "true") {
            (Expr::ConstBool(true), w)
        } else if spells(s, pos, w, "false") {
            (Expr::ConstBool(false), w)
        } else if spells(s, pos, w, "red") {
            (Expr::ConstColor(ColorType::Red), w)
        } else if spells(s, pos, w, "white") {
            (Expr::ConstColor(ColorType::White), w)
        } else if let Some(k) = key_word(s, pos, w) {
            (Expr::ConstKey(k), w)
        } else {
            let name: Ident = text_of(s, pos, w);
            let q = skip_space(s, w);
            if at(s, q, '(') {
                match parse_expr_list(s, q + 1, ')') {
                    Err(e) => return Err(e),
                    Ok((args, p)) => (Expr::Call(name, args), p),
                }
            } else if at(s, q, '+') && at(s, q + 1, '+') {
                (Expr::Unop(name, OpType::UPlus), q + 2)
            } else if at(s, q, '-') && at(s, q + 1, '-') {
                (Expr::Unop(name, OpType::UMinus), q + 2)
            } else {
                (Expr::Var(name), w)
            }
        }
    };
    let mut term = term;
    let mut end = end;
    loop
        invariant
            pos < end <= s@.len(),
        decreases s@.len() - end,
    {
        let q = skip_space(s, end);
        if !at(s, q, '[') {
            return Ok((term, end));
        }
        let (index, p) = match parse_expr(s, q + 1) {
            Err(e) => return Err(e),
            Ok(t) => t,
        };
        let p = match expect(s, p, ']') {
            Err(e) => return Err(e),
            Ok(p) => p,
        };
        term = Expr::Elem(Box::new(term), Box::new(index));
        end = p;
    }
}

/// The key that `s[start..end]` names, if it names one.
fn key_word(s: &Vec<char>, start: usize, end: usize) -> (r: Option<KeyType>)
    requires
        start <= end <= s@.len(),
    ensures
        match r {
            Some(KeyType::W) => s@.subrange(start as int, end as int) == "W"@,
            Some(KeyType::A) => s@.subrange(start as int, end as int) == "A"@,
            Some(KeyType::S) => s@.subrange(start as int, end as int) == "S"@,
            Some(KeyType::D) => s@.subrange(start as int, end as int) == "D"@,
            None => {
                let w = s@.subrange(start as int, end as int);
                w != "W"@ && w != "A"@ && w != "S"@ && w != "D"@
            },
        },
{
    if spells(s, start, end, "W") {
        Some(KeyType::W)
    } else if spells(s, start, end, "A") {
        Some(KeyType::A)
    } else if spells(s, start, end, "S") {
        Some(KeyType::S)
    } else if spells(s, start, end, "D") {
        Some(KeyType::D)
    } else {
        None
    }
}

/// Whether `s[start..end]` is a word that begins a type.
fn is_type_word(s: &Vec<char>, start: usize, end: usize) -> (r: bool)
    requires
        start <= end <= s@.len(),
    ensures
        r == ({
            let w = s@.subrange(start as int, end as int);
            w == "int"@ || w == "color"@ || w == "key"@ || w == "string"@ || w == "bool"@ || w
                == "list"@
        }),
{
    spells(s, start, end, "int") || spells(s, start, end, "color") || spells(s, start, end, "key")
        || spells(s, start, end, "string") || spells(s, start, end, "bool") || spells(
        s,
        start,
        end,
        "list",
    )
}

/// Reads `name = value` after a declared type, which ends at `pos`.
fn parse_binding(s: &Vec<char>, pos: usize) -> (r: Parsed<(Ident, Expr)>)
    requires
        pos <= s@.len(),
    ensures
        progress(r, pos, s@.len()),
{
    let p = skip_space(s, pos);
    let w = scan_word(s, p);
    if w == p {
        return fail(p);
    }
    let name = text_of(s, p, w);
    let q = match expect(s, w, '=') {
        Err(e) => return Err(e),
        Ok(q) => q,
    };
    match parse_expr(s, q) {
        Err(e) => Err(e),
        Ok((value, end)) => Ok(((name, value), end)),
    }
}

/// Reads a statement: a block, a loop, an input block, or a simple
/// statement (break, declaration, return, assignment, expression) and its
/// semicolon.
fn parse_statement(s: &Vec<char>, pos: usize) -> (r: Parsed<Statement>)
    requires
        pos <= s@.len(),
    ensures
        progress(r, pos, s@.len()),
    decreases s@.len() - pos, 4int,
{
    let p = skip_space(s, pos);
    if p >= s.len() {
        return fail(p);
    }
    if s[p] == '{' {
        return parse_block(s, p + 1);
    }
    let w = scan_word(s, p);
    if w > p && spells(s, p, w, "loop") {
        return match parse_statement(s, w) {
            Err(e) => Err(e),
            Ok((body, end)) => Ok((Statement::Loop(Box::new(body)), end)),
        };
    }
    if w > p && spells(s, p, w, "input") {
        return parse_input(s, w);
    }
    let (stmt, end): (Statement, usize) = if w > p && spells(s, p, w, "break") {
        (Statement::Break, w)
    } else if w > p && spells(s, p, w, "return") {
        match parse_expr(s, w) {
            Err(e) => return Err(e),
            Ok((e, end)) => (Statement::Return(e), end),
        }
    } else if w > p && spells(s, p, w, "mut") {
        let (t, q) = match parse_type(s, skip_space(s, w)) {
            Err(e) => return Err(e),
            Ok(t) => t,
        };
        match parse_binding(s, q) {
            Err(e) => return Err(e),
            Ok(((name, value), end)) => (Statement::Mutable(t, name, value), end),
        }
    } else {
        let declared = if w > p && is_type_word(s, p, w) {
            match parse_type(s, p) {
                Ok((t, q)) => {
                    let n = skip_space(s, q);
                    if n > q && n < s.len() && is_alpha_char(s[n]) {
                        Some((t, q))
                    } else {
                        None
                    }
                },
                Err(_) => None,
            }
        } else {
            None
        };
        match declared {
            Some((t, q)) => match parse_binding(s, q) {
                Err(e) => return Err(e),
                Ok(((name, value), end)) => (Statement::Const(t, name, value), end),
            },
            None => {
                let q = skip_space(s, w);
                if w > p && at(s, q, '=') && !at(s, q + 1, '=') && !at(s, q + 1, '>') {
                    let name = text_of(s, p, w);
                    match parse_expr(s, q + 1) {
                        Err(e) => return Err(e),
                        Ok((value, end)) => (Statement::Assign(name, value), end),
                    }
                } else {
                    match parse_expr(s, p) {
                        Err(e) => return Err(e),
                        Ok((e, end)) => (Statement::Expr(e), end),
                    }
                }
            },
        }
    };
    match expect(s, end, ';') {
        Err(e) => Err(e),
        Ok(end) => Ok((stmt, end)),
    }
}

fn is_alpha_char(c: char) -> (r: bool)
    ensures
        r == is_alpha(c),
{
    ('a' <= c && c <= 'z') || ('A' <= c && c <= 'Z')
}

/// Reads the statements of a block up to its closing brace; the opening
/// brace ends just before `pos`.
fn parse_block(s: &Vec<char>, pos: usize) -> (r: Parsed<Statement>)
    requires
        0 < pos <= s@.len(),
    ensures
        progress(r, (pos - 1) as usize, s@.len()),
    decreases s@.len() - pos, 5int,
{
    let mut stmts: Vec<Statement> = Vec::new();
    let mut p = pos;
    loop
        invariant
            0 < pos,
            pos <= p <= s@.len(),
        decreases s@.len() - p,
    {
        let q = skip_space(s, p);
        if at(s, q, '}') {
            return Ok((Statement::Block(stmts), q + 1));
        }
        let (stmt, end) = match parse_statement(s, q) {
            Err(e) => return Err(e),
            Ok(t) => t,
        };
        stmts.push(stmt);
        p = end;
    }
}

/// Reads the branches of an input block, `{ KEY => statement ... }`; the
/// word `input` ends at `pos`.
fn parse_input(s: &Vec<char>, pos: usize) -> (r: Parsed<Statement>)
    requires
        0 < pos <= s@.len(),
    ensures
        progress(r, (pos - 1) as usize, s@.len()),
    decreases s@.len() - pos, 5int,
{
    let mut p = match expect(s, pos, '{') {
        Err(e) => return Err(e),
        Ok(p) => p,
    };
    let mut branches: Vec<(KeyType, Statement)> = Vec::new();
    loop
        invariant
            0 < pos,
            pos < p <= s@.len(),
        decreases s@.len() - p,
    {
        let q = skip_space(s, p);
        if at(s, q, '}') && branches.len() > 0 {
            return Ok((Statement::Input(branches), q + 1));
        }
        let w = scan_word(s, q);
        let key = match key_word(s, q, w) {
            None => return fail(q),
            Some(k) => k,
        };
        let a = skip_space(s, w);
        if !(at(s, a, '=') && at(s, a + 1, '>')) {
            return fail(a);
        }
        let (arm, end) = match parse_statement(s, a + 2) {
            Err(e) => return Err(e),
            Ok(t) => t,
        };
        branches.push((key, arm));
        p = end;
    }
}

/// Reads the parameters of a function up to the closing parenthesis; the
/// opening one ends just before `pos`.
fn parse_params(s: &Vec<char>, pos: usize) -> (r: Parsed<Vec<(Type, Ident)>>)
    requires
        0 < pos <= s@.len(),
    ensures
        progress(r, (pos - 1) as usize, s@.len()),
{
    let mut params: Vec<(Type, Ident)> = Vec::new();
    let p = skip_space(s, pos);
    if at(s, p, ')') {
        return Ok((params, p + 1));
    }
    let mut p = p;
    loop
        invariant
            0 < pos,
            pos <= p <= s@.len(),
        decreases s@.len() - p,
    {
        let (t, q) = match parse_type(s, skip_space(s, p)) {
            Err(e) => return Err(e),
            Ok(t) => t,
        };
        let n = skip_space(s, q);
        let w = scan_word(s, n);
        if w == n {
            return fail(n);
        }
        params.push((t, text_of(s, n, w)));
        let q = skip_space(s, w);
        if at(s, q, ',') {
            p = q + 1;
        } else if at(s, q, ')') {
            return Ok((params, q + 1));
        } else {
            return fail(q);
        }
    }
}

/// Reads a function definition: an optional return type, the name, the
/// parameters and the body.
fn parse_function(s: &Vec<char>, pos: usize) -> (r: Parsed<Function>)
    requires
        pos <= s@.len(),
    ensures
        progress(r, pos, s@.len()),
{
    let p = skip_space(s, pos);
    let w = scan_word(s, p);
    let mut ret: Option<Type> = None;
    let mut start = p;
    if w > p && is_type_word(s, p, w) {
        match parse_type(s, p) {
            Ok((t, q)) => {
                let n = skip_space(s, q);
                if n > q && n < s.len() && is_alpha_char(s[n]) {
                    ret = Some(t);
                    start = n;
                }
            },
            Err(_) => {},
        }
    }
    let w = scan_word(s, start);
    if w == start {
        return fail(start);
    }
    let name = text_of(s, start, w);
    let q = match expect(s, w, '(') {
        Err(e) => return Err(e),
        Ok(q) => q,
    };
    let (args, q) = match parse_params(s, q) {
        Err(e) => return Err(e),
        Ok(t) => t,
    };
    match parse_statement(s, q) {
        Err(e) => Err(e),
        Ok((body, end)) => Ok((Function { ret, name, args, body }, end)),
    }
}

/// The characters of a string, in order.
fn chars_of(source: &String) -> (r: Vec<char>)
    ensures
        r@ == source@,
{
    broadcast use vstd::string::axiom_spec_iter, vstd::string::next_postcondition;

    let text: &str = source.as_str();
    let mut it = text.chars();
    let mut out: Vec<char> = Vec::new();
    loop
        invariant
            it.obeys_prophetic_iter_laws(),
            it.decrease() is Some,
            out@ + it.remaining() == source@,
        decreases it.decrease()->0,
    {
        match it.next() {
            Some(c) => {
                assert(out@.push(c) + it.remaining() =~= source@);
                out.push(c);
            },
            None => {
                assert(out@ =~= source@);
                return out;
            },
        }
    }
}

/// Reads a whole program: one or more function definitions and nothing
/// else but whitespace.
pub fn parse(source: String) -> (r: Result<AST, ParseError>)
    ensures
        match r {
            Ok(ast) => ast.0@.len() > 0,
            Err(e) => e.position <= source@.len(),
        },
        (forall|k: int| 0 <= k < source@.len() ==> is_space(#[trigger] source@[k])) ==> r
            == Err::<AST, ParseError>(ParseError { position: source@.len() as usize }),
{
    let s = chars_of(&source);
    let mut functions: Vec<Function> = Vec::new();
    let mut p: usize = 0;
    loop
        invariant
            p <= s@.len(),
            s@ == source@,
            (forall|k: int| 0 <= k < s@.len() ==> is_space(#[trigger] s@[k])) ==> p == 0
                && functions@.len() == 0,
        decreases s@.len() - p,
    {
        let q = skip_space(&s, p);
        if q == s.len() {
            if functions.len() == 0 {
                return Err(ParseError { position: q });
            }
            return Ok(AST(functions));
        }
        let (f, end) = match parse_function(&s, q) {
            Err(e) => return Err(e),
            Ok(t) => t,
        };
        functions.push(f);
        p = end;
    }
}

} // verus!
