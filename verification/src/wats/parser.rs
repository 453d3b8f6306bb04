use vstd::prelude::*;

use super::ast::{
    Type, Expression, Statement, Param, Function, TypeView, ExprView, StmtView, ParamView,
    FunctionView, params_view, stmts_view,
};
use super::lexer::{Token, TokenView, tokens_view};

verus! {

/// What a parser expected where it failed.
#[derive(Debug, Clone, Copy, PartialEq, Eq, Structural)]
pub enum ErrorKind {
    /// A specific token was expected.
    Tag,
    /// None of several alternatives matched.
    Alt,
}

/// A parse error: the offset (in tokens, from the start of the input) of the remaining
/// input where parsing failed, and what was expected there.
#[derive(Debug, Clone, Copy, PartialEq, Eq, Structural)]
pub struct ParseError {
    pub offset: usize,
    pub kind: ErrorKind,
}

/// The error at position `p`.
pub open spec fn err_at(p: int, kind: ErrorKind) -> ParseError {
    ParseError { offset: p as usize, kind }
}

/// The position after the token `k` at position `p`.
pub open spec fn expect(t: Seq<TokenView>, p: int, k: Token) -> Result<int, ParseError> {
    if 0 <= p < t.len() && t[p] == TokenView::Plain(k) {
        Ok(p + 1)
    } else {
        Err(err_at(p, ErrorKind::Tag))
    }
}

/// An identifier at position `p`.
pub open spec fn ident_at(t: Seq<TokenView>, p: int) -> Result<(int, Seq<char>), ParseError> {
    if 0 <= p < t.len() && t[p] is Identifier {
        Ok((p + 1, t[p]->Identifier_0))
    } else {
        Err(err_at(p, ErrorKind::Tag))
    }
}

/// A number at position `p`.
pub open spec fn number_at(t: Seq<TokenView>, p: int) -> Result<(int, u64), ParseError> {
    if 0 <= p < t.len() && t[p] is Number {
        Ok((p + 1, t[p]->Number_0))
    } else {
        Err(err_at(p, ErrorKind::Tag))
    }
}

/// A type at position `p`: `u32`, `string`, or a custom type name.
pub open spec fn type_at(t: Seq<TokenView>, p: int) -> Result<(int, TypeView), ParseError> {
    if 0 <= p < t.len() {
        match t[p] {
            TokenView::Plain(Token::TypeU32) => Ok((p + 1, TypeView::U32)),
            TokenView::Plain(Token::TypeString) => Ok((p + 1, TypeView::Str)),
            TokenView::Identifier(s) => Ok((p + 1, TypeView::Custom(s))),
            _ => Err(err_at(p, ErrorKind::Alt)),
        }
    } else {
        Err(err_at(p, ErrorKind::Alt))
    }
}

/// A parameter `name: type` at position `p`.
pub open spec fn param_at(t: Seq<TokenView>, p: int) -> Result<(int, ParamView), ParseError> {
    match ident_at(t, p) {
        Err(e) => Err(e),
        Ok((q, name)) => match expect(t, q, Token::Colon) {
            Err(e) => Err(e),
            Ok(r) => match type_at(t, r) {
                Err(e) => Err(e),
                Ok((s, ty)) => Ok((s, ParamView { name, ty })),
            },
        },
    }
}

/// Further comma-separated parameters after `acc`, from position `p`; a comma not
/// followed by a parameter is left unconsumed.
pub open spec fn params_more(t: Seq<TokenView>, p: int, acc: Seq<ParamView>) -> (int, Seq<ParamView>)
    decreases t.len() - p,
{
    match expect(t, p, Token::Comma) {
        Err(_) => (p, acc),
        Ok(q) => match param_at(t, q) {
            Err(_) => (p, acc),
            Ok((r, x)) => params_more(t, r, acc.push(x)),
        },
    }
}

/// A possibly empty comma-separated list of parameters from position `p`.
pub open spec fn params_list(t: Seq<TokenView>, p: int) -> (int, Seq<ParamView>) {
    match param_at(t, p) {
        Err(_) => (p, Seq::empty()),
        Ok((q, x)) => params_more(t, q, seq![x]),
    }
}

/// An expression at position `p`: a number or an identifier.
pub open spec fn expr_at(t: Seq<TokenView>, p: int) -> Result<(int, ExprView), ParseError> {
    match number_at(t, p) {
        Ok((q, n)) => Ok((q, ExprView::Number(n))),
        Err(_) => match ident_at(t, p) {
            Ok((q, s)) => Ok((q, ExprView::Identifier(s))),
            Err(e) => Err(e),
        },
    }
}

/// A `let name: type = expr;` statement at position `p`.
pub open spec fn let_at(t: Seq<TokenView>, p: int) -> Result<(int, StmtView), ParseError> {
    match expect(t, p, Token::KwLet) {
        Err(e) => Err(e),
        Ok(p1) => match ident_at(t, p1) {
            Err(e) => Err(e),
            Ok((p2, name)) => match expect(t, p2, Token::Colon) {
                Err(e) => Err(e),
                Ok(p3) => match type_at(t, p3) {
                    Err(e) => Err(e),
                    Ok((p4, ty)) => match expect(t, p4, Token::Equals) {
                        Err(e) => Err(e),
                        Ok(p5) => match expr_at(t, p5) {
                            Err(e) => Err(e),
                            Ok((p6, value)) => match expect(t, p6, Token::Semicolon) {
                                Err(e) => Err(e),
                                Ok(p7) => Ok((p7, StmtView::Let { name, ty, value })),
                            },
                        },
                    },
                },
            },
        },
    }
}

/// A `return expr;` statement at position `p`.
pub open spec fn return_at(t: Seq<TokenView>, p: int) -> Result<(int, StmtView), ParseError> {
    match expect(t, p, Token::KwReturn) {
        Err(e) => Err(e),
        Ok(p1) => match expr_at(t, p1) {
            Err(e) => Err(e),
            Ok((p2, e)) => match expect(t, p2, Token::Semicolon) {
                Err(err) => Err(err),
                Ok(p3) => Ok((p3, StmtView::Return(e))),
            },
        },
    }
}

/// A statement at position `p`: a `let`, else a `return` (whose error is reported if both fail).
pub open spec fn stmt_at(t: Seq<TokenView>, p: int) -> Result<(int, StmtView), ParseError> {
    match let_at(t, p) {
        Ok(r) => Ok(r),
        Err(_) => return_at(t, p),
    }
}

/// As many statements as follow position `p`.
pub open spec fn stmts_from(t: Seq<TokenView>, p: int) -> (int, Seq<StmtView>)
    decreases t.len() - p,
{
    match stmt_at(t, p) {
        Err(_) => (p, Seq::empty()),
        Ok((q, s)) => {
            let (r, rest) = stmts_from(t, q);
            (r, seq![s] + rest)
        },
    }
}

/// A function `func name(params) -> type { statements }` at position `p`.
pub open spec fn function_at(t: Seq<TokenView>, p: int) -> Result<(int, FunctionView), ParseError> {
    match expect(t, p, Token::KwFunc) {
        Err(e) => Err(e),
        Ok(p1) => match ident_at(t, p1) {
            Err(e) => Err(e),
            Ok((p2, name)) => match expect(t, p2, Token::LParen) {
                Err(e) => Err(e),
                Ok(p3) => {
                    let (p4, params) = params_list(t, p3);
                    match expect(t, p4, Token::RParen) {
                        Err(e) => Err(e),
                        Ok(p5) => match expect(t, p5, Token::Arrow) {
                            Err(e) => Err(e),
                            Ok(p6) => match type_at(t, p6) {
                                Err(e) => Err(e),
                                Ok((p7, ret_type)) => match expect(t, p7, Token::LBrace) {
                                    Err(e) => Err(e),
                                    Ok(p8) => {
                                        let (p9, body) = stmts_from(t, p8);
                                        match expect(t, p9, Token::RBrace) {
                                            Err(e) => Err(e),
                                            Ok(p10) => Ok(
                                                (p10, FunctionView { name, params, ret_type, body }),
                                            ),
                                        }
                                    },
                                },
                            },
                        },
                    }
                },
            },
        },
    }
}

/// Whether `a` is the data-free token `k`.
fn same_plain(a: &Token, k: &Token) -> (b: bool)
    requires
        k@ is Plain,
    ensures
        b == (a@ == k@),
{
    match (a, k) {
        (Token::KwFunc, Token::KwFunc) => true,
        (Token::KwLet, Token::KwLet) => true,
        (Token::KwIf, Token::KwIf) => true,
        (Token::KwElse, Token::KwElse) => true,
        (Token::KwReturn, Token::KwReturn) => true,
        (Token::KwExport, Token::KwExport) => true,
        (Token::KwImport, Token::KwImport) => true,
        (Token::KwWorld, Token::KwWorld) => true,
        (Token::KwInterface, Token::KwInterface) => true,
        (Token::Equals, Token::Equals) => true,
        (Token::Colon, Token::Colon) => true,
        (Token::Semicolon, Token::Semicolon) => true,
        (Token::Comma, Token::Comma) => true,
        (Token::Dot, Token::Dot) => true,
        (Token::LParen, Token::LParen) => true,
        (Token::RParen, Token::RParen) => true,
        (Token::LBrace, Token::LBrace) => true,
        (Token::RBrace, Token::RBrace) => true,
        (Token::Arrow, Token::Arrow) => true,
        (Token::Less, Token::Less) => true,
        (Token::Greater, Token::Greater) => true,
        (Token::Plus, Token::Plus) => true,
        (Token::Minus, Token::Minus) => true,
        (Token::Mul, Token::Mul) => true,
        (Token::Div, Token::Div) => true,
        (Token::TypeU32, Token::TypeU32) => true,
        (Token::TypeU64, Token::TypeU64) => true,
        (Token::TypeI32, Token::TypeI32) => true,
        (Token::TypeI64, Token::TypeI64) => true,
        (Token::TypeF32, Token::TypeF32) => true,
        (Token::TypeF64, Token::TypeF64) => true,
        (Token::TypeString, Token::TypeString) => true,
        (Token::TypeBool, Token::TypeBool) => true,
        (Token::_Comment, Token::_Comment) => true,
        _ => false,
    }
}

/// The view of a position result.
pub open spec fn pos_view(r: Result<usize, ParseError>) -> Result<int, ParseError> {
    match r {
        Ok(q) => Ok(q as int),
        Err(e) => Err(e),
    }
}

/// The view of a parse result carrying a string.
pub open spec fn text_view(r: Result<(usize, String), ParseError>) -> Result<(int, Seq<char>), ParseError> {
    match r {
        Ok((q, s)) => Ok((q as int, s@)),
        Err(e) => Err(e),
    }
}

/// The view of a parse result carrying a number.
pub open spec fn num_view(r: Result<(usize, u64), ParseError>) -> Result<(int, u64), ParseError> {
    match r {
        Ok((q, n)) => Ok((q as int, n)),
        Err(e) => Err(e),
    }
}

/// The view of a parse result carrying a type.
pub open spec fn type_view(r: Result<(usize, Type), ParseError>) -> Result<(int, TypeView), ParseError> {
    match r {
        Ok((q, x)) => Ok((q as int, x@)),
        Err(e) => Err(e),
    }
}

/// The view of a parse result carrying a parameter.
pub open spec fn param_view(r: Result<(usize, Param), ParseError>) -> Result<(int, ParamView), ParseError> {
    match r {
        Ok((q, x)) => Ok((q as int, x@)),
        Err(e) => Err(e),
    }
}

/// The view of a parse result carrying an expression.
pub open spec fn expr_view(r: Result<(usize, Expression), ParseError>) -> Result<(int, ExprView), ParseError> {
    match r {
        Ok((q, x)) => Ok((q as int, x@)),
        Err(e) => Err(e),
    }
}

/// The view of a parse result carrying a statement.
pub open spec fn stmt_view(r: Result<(usize, Statement), ParseError>) -> Result<(int, StmtView), ParseError> {
    match r {
        Ok((q, x)) => Ok((q as int, x@)),
        Err(e) => Err(e),
    }
}

/// The view of a parse result carrying a function.
pub open spec fn function_view(r: Result<(usize, Function), ParseError>) -> Result<(int, FunctionView), ParseError> {
    match r {
        Ok((q, x)) => Ok((q as int, x@)),
        Err(e) => Err(e),
    }
}

/// Matches the token `expected` at position `p`.
fn token(t: &[Token], p: usize, expected: Token) -> (r: Result<usize, ParseError>)
    requires
        expected@ is Plain,
    ensures
        pos_view(r) == expect(tokens_view(t@), p as int, expected),
{
    if p < t.len() && same_plain(&t[p], &expected) {
        Ok(p + 1)
    } else {
        Err(ParseError { offset: p, kind: ErrorKind::Tag })
    }
}

/// Extracts an identifier at position `p`.
fn identifier(t: &[Token], p: usize) -> (r: Result<(usize, String), ParseError>)
    ensures
        text_view(r) == ident_at(tokens_view(t@), p as int),
{
    if p < t.len() {
        if let Token::Identifier(name) = &t[p] {
            return Ok((p + 1, name.clone()));
        }
    }
    Err(ParseError { offset: p, kind: ErrorKind::Tag })
}

/// Extracts a number literal at position `p`.
fn number(t: &[Token], p: usize) -> (r: Result<(usize, u64), ParseError>)
    ensures
        num_view(r) == number_at(tokens_view(t@), p as int),
{
    if p < t.len() {
        if let Token::Number(n) = &t[p] {
            return Ok((p + 1, *n));
        }
    }
    Err(ParseError { offset: p, kind: ErrorKind::Tag })
}

/// Parses a type at position `p`.
fn type_at_pos(t: &[Token], p: usize) -> (r: Result<(usize, Type), ParseError>)
    ensures
        type_view(r) == type_at(tokens_view(t@), p as int),
{
    if p < t.len() {
        match &t[p] {
            Token::TypeU32 => {
                return Ok((p + 1, Type::U32));
            },
            Token::TypeString => {
                return Ok((p + 1, Type::String));
            },
            Token::Identifier(s) => {
                return Ok((p + 1, Type::Custom(s.clone())));
            },
            _ => {},
        }
    }
    Err(ParseError { offset: p, kind: ErrorKind::Alt })
}

/// Parses a parameter `name: type` at position `p`.
fn parse_param(t: &[Token], p: usize) -> (r: Result<(usize, Param), ParseError>)
    ensures
        param_view(r) == param_at(tokens_view(t@), p as int),
{
    let (q, name) = match identifier(t, p) {
        Ok(x) => x,
        Err(e) => {
            return Err(e);
        },
    };
    let r = match token(t, q, Token::Colon) {
        Ok(x) => x,
        Err(e) => {
            return Err(e);
        },
    };
    let (s, ty) = match type_at_pos(t, r) {
        Ok(x) => x,
        Err(e) => {
            return Err(e);
        },
    };
    Ok((s, Param { name, ty }))
}

/// Parses a possibly empty comma-separated list of parameters at position `p`.
fn parse_params(t: &[Token], p: usize) -> (r: (usize, Vec<Param>))
    ensures
        (r.0 as int, params_view(r.1@)) == params_list(tokens_view(t@), p as int),
{
    let ghost tv = tokens_view(t@);
    let (q, first) = match parse_param(t, p) {
        Ok(x) => x,
        Err(_) => {
            proof {
                assert(params_view(Seq::<Param>::empty()) =~= Seq::<ParamView>::empty());
            }
            return (p, Vec::new());
        },
    };
    let ghost fv = first@;
    let mut acc: Vec<Param> = Vec::new();
    acc.push(first);
    let mut pos = q;
    proof {
        assert(params_view(acc@) =~= seq![fv]);
    }
    loop
        invariant
            tv == tokens_view(t@),
            pos <= t@.len(),
            params_list(tv, p as int) == params_more(tv, pos as int, params_view(acc@)),
        ensures
            params_list(tv, p as int) == (pos as int, params_view(acc@)),
        decreases t@.len() - pos,
    {
        let q = match token(t, pos, Token::Comma) {
            Ok(x) => x,
            Err(_) => {
                break;
            },
        };
        let (r, x) = match parse_param(t, q) {
            Ok(y) => y,
            Err(_) => {
                break;
            },
        };
        let ghost xv = x@;
        let ghost before = params_view(acc@);
        acc.push(x);
        proof {
            assert(params_view(acc@) =~= before.push(xv));
        }
        pos = r;
    }
    (pos, acc)
}

/// Parses an expression at position `p`: a number, else an identifier.
fn parse_expression(t: &[Token], p: usize) -> (r: Result<(usize, Expression), ParseError>)
    ensures
        expr_view(r) == expr_at(tokens_view(t@), p as int),
{
    match number(t, p) {
        Ok((q, n)) => Ok((q, Expression::Number(n))),
        Err(_) => match identifier(t, p) {
            Ok((q, s)) => Ok((q, Expression::Identifier(s))),
            Err(e) => Err(e),
        },
    }
}

/// Parses `let name: type = expr;` at position `p`.
fn parse_let(t: &[Token], p: usize) -> (r: Result<(usize, Statement), ParseError>)
    ensures
        stmt_view(r) == let_at(tokens_view(t@), p as int),
{
    let p1 = match token(t, p, Token::KwLet) {
        Ok(x) => x,
        Err(e) => {
            return Err(e);
        },
    };
    let (p2, name) = match identifier(t, p1) {
        Ok(x) => x,
        Err(e) => {
            return Err(e);
        },
    };
    let p3 = match token(t, p2, Token::Colon) {
        Ok(x) => x,
        Err(e) => {
            return Err(e);
        },
    };
    let (p4, ty) = match type_at_pos(t, p3) {
        Ok(x) => x,
        Err(e) => {
            return Err(e);
        },
    };
    let p5 = match token(t, p4, Token::Equals) {
        Ok(x) => x,
        Err(e) => {
            return Err(e);
        },
    };
    let (p6, value) = match parse_expression(t, p5) {
        Ok(x) => x,
        Err(e) => {
            return Err(e);
        },
    };
    let p7 = match token(t, p6, Token::Semicolon) {
        Ok(x) => x,
        Err(e) => {
            return Err(e);
        },
    };
    Ok((p7, Statement::Let { name, ty, value }))
}

/// Parses `return expr;` at position `p`.
fn parse_return(t: &[Token], p: usize) -> (r: Result<(usize, Statement), ParseError>)
    ensures
        stmt_view(r) == return_at(tokens_view(t@), p as int),
{
    let p1 = match token(t, p, Token::KwReturn) {
        Ok(x) => x,
        Err(e) => {
            return Err(e);
        },
    };
    let (p2, e) = match parse_expression(t, p1) {
        Ok(x) => x,
        Err(err) => {
            return Err(err);
        },
    };
    let p3 = match token(t, p2, Token::Semicolon) {
        Ok(x) => x,
        Err(err) => {
            return Err(err);
        },
    };
    Ok((p3, Statement::Return(e)))
}

/// Parses a statement at position `p`: a `let`, else a `return`.
fn parse_statement(t: &[Token], p: usize) -> (r: Result<(usize, Statement), ParseError>)
    ensures
        stmt_view(r) == stmt_at(tokens_view(t@), p as int),
{
    match parse_let(t, p) {
        Ok(x) => Ok(x),
        Err(_) => parse_return(t, p),
    }
}

/// A statement, when one parses, ends after its start and within the tokens.
proof fn lemma_stmt_progress(tv: Seq<TokenView>, p: int)
    ensures
        stmt_at(tv, p) matches Ok((q, _)) ==> p < q <= tv.len(),
{
}

/// Parses as many statements as follow position `p`.
fn parse_statements(t: &[Token], p: usize) -> (r: (usize, Vec<Statement>))
    ensures
        (r.0 as int, stmts_view(r.1@)) == stmts_from(tokens_view(t@), p as int),
{
    let ghost tv = tokens_view(t@);
    let mut acc: Vec<Statement> = Vec::new();
    let mut pos = p;
    proof {
        assert(stmts_view(acc@) + stmts_from(tv, p as int).1 =~= stmts_from(tv, p as int).1);
    }
    loop
        invariant
            tv == tokens_view(t@),
            pos <= t@.len() || pos == p,
            stmts_from(tv, p as int).0 == stmts_from(tv, pos as int).0,
            stmts_from(tv, p as int).1 == stmts_view(acc@) + stmts_from(tv, pos as int).1,
        ensures
            stmts_from(tv, p as int) == (pos as int, stmts_view(acc@)),
        decreases t@.len() - pos,
    {
        proof {
            lemma_stmt_progress(tv, pos as int);
        }
        let (q, s) = match parse_statement(t, pos) {
            Ok(x) => x,
            Err(_) => {
                proof {
                    assert(stmts_view(acc@) + Seq::<StmtView>::empty() =~= stmts_view(acc@));
                }
                break;
            },
        };
        let ghost sv = s@;
        let ghost old_acc = acc@;
        let ghost before = stmts_view(acc@);
        acc.push(s);
        proof {
            assert(acc@.subrange(0, acc@.len() - 1) =~= old_acc);
            assert(stmts_view(acc@) == before.push(sv));
            assert(before + stmts_from(tv, pos as int).1 =~= before.push(sv) + stmts_from(
                tv,
                q as int,
            ).1);
        }
        pos = q;
    }
    (pos, acc)
}

/// Parses `func name(params) -> type { statements }` at position `p`.
fn parse_function_at(t: &[Token], p: usize) -> (r: Result<(usize, Function), ParseError>)
    ensures
        function_view(r) == function_at(tokens_view(t@), p as int),
{
    let p1 = match token(t, p, Token::KwFunc) {
        Ok(x) => x,
        Err(e) => {
            return Err(e);
        },
    };
    let (p2, name) = match identifier(t, p1) {
        Ok(x) => x,
        Err(e) => {
            return Err(e);
        },
    };
    let p3 = match token(t, p2, Token::LParen) {
        Ok(x) => x,
        Err(e) => {
            return Err(e);
        },
    };
    let (p4, params) = parse_params(t, p3);
    let p5 = match token(t, p4, Token::RParen) {
        Ok(x) => x,
        Err(e) => {
            return Err(e);
        },
    };
    let p6 = match token(t, p5, Token::Arrow) {
        Ok(x) => x,
        Err(e) => {
            return Err(e);
        },
    };
    let (p7, ret_type) = match type_at_pos(t, p6) {
        Ok(x) => x,
        Err(e) => {
            return Err(e);
        },
    };
    let p8 = match token(t, p7, Token::LBrace) {
        Ok(x) => x,
        Err(e) => {
            return Err(e);
        },
    };
    let (p9, body) = parse_statements(t, p8);
    let p10 = match token(t, p9, Token::RBrace) {
        Ok(x) => x,
        Err(e) => {
            return Err(e);
        },
    };
    Ok((p10, Function { name, params, ret_type, body }))
}

/// Parses a type at the start of `input`; returns the remaining tokens and the type.
pub fn parse_type(input: &[Token]) -> (res: Result<(&[Token], Type), ParseError>)
    ensures
        match res {
            Ok((rest, ty)) => type_at(tokens_view(input@), 0) matches Ok((n, v)) && v == ty@
                && rest@ == input@.subrange(n, input@.len() as int),
            Err(e) => type_at(tokens_view(input@), 0) == Err::<(int, TypeView), ParseError>(e),
        },
{
    match type_at_pos(input, 0) {
        Ok((n, ty)) => Ok((&input[n..input.len()], ty)),
        Err(e) => Err(e),
    }
}

/// Parses a function at the start of `input`; returns the remaining tokens and the function.
pub fn parse_function(input: &[Token]) -> (res: Result<(&[Token], Function), ParseError>)
    ensures
        match res {
            Ok((rest, f)) => function_at(tokens_view(input@), 0) matches Ok((n, v)) && v == f@
                && rest@ == input@.subrange(n, input@.len() as int),
            Err(e) => function_at(tokens_view(input@), 0) == Err::<(int, FunctionView), ParseError>(
                e,
            ),
        },
{
    match parse_function_at(input, 0) {
        Ok((n, f)) => Ok((&input[n..input.len()], f)),
        Err(e) => Err(e),
    }
}

} // verus!
