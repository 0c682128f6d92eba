//! The recursive-descent parser: one function for each rule of the grammar, each proved to
//! return what the rule of the same name in `grammar` says.

use vstd::prelude::*;
use vstd::string::*;
use crate::ast::{models, param_view, params_view, Args, Node, Type, AST};
use crate::error::{CompileError, Expected, Failure, ParseError};
use crate::grammar;
use crate::grammar::Parsed;
use crate::lexer::tok;
use crate::progress::{
    lemma_next_advances, lemma_parse_arg_advances, lemma_parse_atom_advances,
    lemma_parse_expr_advances, lemma_parse_fn_advances,
};
use crate::token::Token;

verus! {

/// `outcome` with `front` put before what it holds.
pub open spec fn prepend<A>(front: Seq<A>, outcome: Parsed<Seq<A>>) -> Parsed<Seq<A>> {
    match outcome {
        (Ok(more), rest) => (Ok(front + more), rest),
        (Err(e), rest) => (Err(e), rest),
    }
}

/// Putting nothing before an outcome leaves it as it is.
proof fn lemma_prepend_nothing<A>(outcome: Parsed<Seq<A>>)
    ensures
        prepend(Seq::empty(), outcome) == outcome,
{
    if outcome.0 is Ok {
        assert(Seq::<A>::empty() + outcome.0->Ok_0 =~= outcome.0->Ok_0);
    }
}

/// Putting `one` before an outcome and `front` before that is putting both before it.
proof fn lemma_prepend_one<A>(front: Seq<A>, one: A, outcome: Parsed<Seq<A>>)
    ensures
        prepend(front, prepend(seq![one], outcome)) == prepend(front + seq![one], outcome),
{
    if outcome.0 is Ok {
        assert(front + (seq![one] + outcome.0->Ok_0) =~= (front + seq![one]) + outcome.0->Ok_0);
    }
}

/// Whether `res` and the text `left` in the cursor are what `outcome` says, for a parser
/// that returns a syntax tree.
pub open spec fn is_node(
    res: Result<AST, CompileError>,
    left: Seq<char>,
    outcome: Parsed<Node>,
) -> bool {
    &&& left == outcome.1
    &&& match outcome.0 {
        Ok(node) => res matches Ok(ast) && ast@ == node,
        Err(e) => res matches Err(err) && err@ == e,
    }
}

/// The same for a parser that returns several syntax trees.
pub open spec fn is_nodes(
    res: Result<Vec<AST>, CompileError>,
    left: Seq<char>,
    outcome: Parsed<Seq<Node>>,
) -> bool {
    &&& left == outcome.1
    &&& match outcome.0 {
        Ok(nodes) => res matches Ok(asts) && models(asts@) == nodes,
        Err(e) => res matches Err(err) && err@ == e,
    }
}

/// Reads the next token and takes it from the cursor.
pub fn next(cur: &mut String) -> (res: Result<Token, CompileError>)
    ensures
        final(cur)@ == grammar::next(old(cur)@).1,
        match grammar::next(old(cur)@).0 {
            Ok(token) => res matches Ok(found) && found@ == token,
            Err(e) => res matches Err(err) && err@ == e,
        },
{
    match tok(cur, false) {
        Ok(token) => Ok(token),
        Err(e) => Err(CompileError::Lex(e)),
    }
}

/// Whether the next token is `token`. The cursor stays as it is.
pub fn peek_is(cur: &mut String, token: &Token) -> (same: bool)
    ensures
        final(cur)@ == old(cur)@,
        same == grammar::peek_is(old(cur)@, token@),
{
    match tok(cur, true) {
        Ok(found) => found == *token,
        Err(_) => false,
    }
}

/// The one token that meets an expectation.
fn wanted(expected: Expected) -> (token: Option<Token>)
    ensures
        match grammar::token_of(expected) {
            Some(t) => token matches Some(found) && found@ == t,
            None => token is None,
        },
{
    match expected {
        Expected::Function => Some(Token::Function),
        Expected::Then => Some(Token::Then),
        Expected::Else => Some(Token::Else),
        Expected::LParen => Some(Token::LParen),
        Expected::RParen => Some(Token::RParen),
        Expected::LBrace => Some(Token::LBrace),
        Expected::RBrace => Some(Token::RBrace),
        _ => None,
    }
}

/// The error for a token `found` that is not what the grammar asks for, read from `cur`.
fn unexpected(expected: Expected, found: Token, cur: &String) -> (err: CompileError)
    ensures
        err@ == Failure::Unexpected(expected, found@, cur@),
{
    CompileError::Parse(ParseError { expected, found, near: cur.clone() })
}

/// Reads the next token, which has to be the one that `expected` names.
pub fn expect(cur: &mut String, expected: Expected) -> (res: Result<(), CompileError>)
    ensures
        final(cur)@ == grammar::expect(old(cur)@, expected).1,
        match grammar::expect(old(cur)@, expected).0 {
            Ok(_) => res is Ok,
            Err(e) => res matches Err(err) && err@ == e,
        },
{
    let found = next(cur)?;
    let met = match wanted(expected) {
        Some(token) => found == token,
        None => false,
    };
    if met {
        Ok(())
    } else {
        Err(unexpected(expected, found, cur))
    }
}

/// The index of the first of `args` that is called `name`.
fn find_param(args: &Args, name: &String) -> (found: Option<usize>)
    ensures
        match grammar::position(params_view(args@), name@) {
            Some(i) => found == Some(i as usize) && i < args.len(),
            None => found is None,
        },
{
    let ghost params = params_view(args@);
    let mut i: usize = 0;
    assert(params.skip(0) =~= params);
    while i < args.len()
        invariant
            i <= args.len(),
            params == params_view(args@),
            grammar::position(params, name@) == match grammar::position(
                params.skip(i as int),
                name@,
            ) {
                Some(k) => Some((k + i) as nat),
                None => None,
            },
        decreases args.len() - i,
    {
        proof {
            let rest = params.skip(i as int);
            assert(rest[0] == param_view(args@[i as int]));
            assert(rest.drop_first() =~= params.skip(i + 1));
        }
        if args[i].0 == *name {
            return Some(i);
        }
        i += 1;
    }
    proof {
        assert(params.skip(i as int).len() == 0);
    }
    None
}

/// A call of the function `name` with the arguments `args`.
fn call(name: String, args: Vec<AST>) -> (node: AST)
    ensures
        node@ == Node::Call(name@, models(args@)),
{
    let node = AST::Call(name, args);
    assert(node@->Call_1 =~= models(args@));
    node
}

/// A reference to the parameter of index `i`.
fn local(args: &Args, i: usize) -> (node: AST)
    requires
        i < args.len(),
    ensures
        node@ == Node::Local(i as nat, params_view(args@)[i as int]),
{
    AST::Local(i, (args[i].0.clone(), args[i].1))
}

/// Reads the arguments of a call and the `)` behind them. The cursor stands behind the `(`.
pub fn parse_fn_args(cur: &mut String, args: &Args) -> (res: Result<Vec<AST>, CompileError>)
    ensures
        is_nodes(res, final(cur)@, grammar::parse_fn_args(old(cur)@, params_view(args@))),
    decreases old(cur)@.len(), 5nat,
{
    let ghost params = params_view(args@);
    let mut res: Vec<AST> = Vec::new();
    if peek_is(cur, &Token::RParen) {
        let _ = next(cur)?;
        assert(models(res@) =~= Seq::<Node>::empty());
        return Ok(res);
    }
    proof {
        assert(models(res@) =~= Seq::<Node>::empty());
        lemma_prepend_nothing(grammar::parse_arg_list(cur@, params));
    }
    loop
        invariant
            params == params_view(args@),
            cur@.len() <= old(cur)@.len(),
            grammar::parse_fn_args(old(cur)@, params) == prepend(
                models(res@),
                grammar::parse_arg_list(cur@, params),
            ),
        decreases cur@.len(),
    {
        let ghost before = cur@;
        let ghost front = models(res@);
        proof {
            lemma_parse_expr_advances(before, params);
        }
        let arg = parse_expr(cur, args)?;
        let ghost node = arg@;
        let ghost rest = cur@;
        res.push(arg);
        proof {
            lemma_next_advances(rest);
            assert(models(res@) =~= front + seq![node]);
        }
        match next(cur)? {
            Token::RParen => {
                return Ok(res);
            },
            Token::Comma => {
                proof {
                    lemma_prepend_one(front, node, grammar::parse_arg_list(cur@, params));
                }
            },
            other => {
                return Err(unexpected(Expected::RParen, other, cur));
            },
        }
    }
}

/// Reads an atom: a number, a call, or a parameter of the function, which `args` lists.
pub fn parse_atom(cur: &mut String, args: &Args) -> (res: Result<AST, CompileError>)
    ensures
        is_node(res, final(cur)@, grammar::parse_atom(old(cur)@, params_view(args@))),
    decreases old(cur)@.len(), 0nat,
{
    proof {
        lemma_next_advances(cur@);
    }
    let atom_tok = next(cur)?;
    match atom_tok {
        Token::Number(n) => Ok(AST::lit(n)),
        Token::ID(s) => {
            if peek_is(cur, &Token::LParen) {
                proof {
                    lemma_next_advances(cur@);
                }
                let _ = next(cur)?;
                let call_args = parse_fn_args(cur, args)?;
                Ok(call(s, call_args))
            } else {
                match find_param(args, &s) {
                    Some(i) => Ok(local(args, i)),
                    None => Err(unexpected(Expected::Parameter, Token::ID(s), cur)),
                }
            }
        },
        other => Err(unexpected(Expected::Atom, other, cur)),
    }
}

/// Reads an atom and, where an operator follows it, the expression behind the operator as
/// its right operand.
pub fn parse_maybe_arith(cur: &mut String, args: &Args) -> (res: Result<AST, CompileError>)
    ensures
        is_node(res, final(cur)@, grammar::parse_maybe_arith(old(cur)@, params_view(args@))),
    decreases old(cur)@.len(), 1nat,
{
    proof {
        lemma_parse_atom_advances(cur@, params_view(args@));
    }
    let a1 = parse_atom(cur, args)?;
    proof {
        lemma_next_advances(cur@);
    }
    let found = match tok(cur, true) {
        Ok(token) => token.op(),
        Err(e) => {
            return Err(CompileError::Lex(e));
        },
    };
    match found {
        Some(op) => {
            let _ = next(cur)?;
            let right = parse_expr(cur, args)?;
            Ok(AST::BinaryOp(op, Box::new(a1), Box::new(right)))
        },
        None => Ok(a1),
    }
}

/// Reads a conditional where the next token is `if`, and an atom with what follows it
/// otherwise.
pub fn parse_maybe_if(cur: &mut String, args: &Args) -> (res: Result<AST, CompileError>)
    ensures
        is_node(res, final(cur)@, grammar::parse_maybe_if(old(cur)@, params_view(args@))),
    decreases old(cur)@.len(), 2nat,
{
    let ghost params = params_view(args@);
    if peek_is(cur, &Token::If) {
        proof {
            lemma_next_advances(cur@);
        }
        let _ = next(cur)?;
        proof {
            lemma_parse_expr_advances(cur@, params);
        }
        let cnd = parse_expr(cur, args)?;
        proof {
            lemma_next_advances(cur@);
        }
        expect(cur, Expected::Then)?;
        proof {
            lemma_parse_expr_advances(cur@, params);
        }
        let true_path = parse_expr(cur, args)?;
        proof {
            lemma_next_advances(cur@);
        }
        expect(cur, Expected::Else)?;
        let false_path = parse_expr(cur, args)?;
        Ok(AST::If(Box::new(cnd), Box::new(true_path), Box::new(false_path)))
    } else {
        parse_maybe_arith(cur, args)
    }
}

/// Reads an expression. One in parentheses is returned as it is.
pub fn parse_expr(cur: &mut String, args: &Args) -> (res: Result<AST, CompileError>)
    ensures
        is_node(res, final(cur)@, grammar::parse_expr(old(cur)@, params_view(args@))),
    decreases old(cur)@.len(), 3nat,
{
    if peek_is(cur, &Token::LParen) {
        proof {
            lemma_next_advances(cur@);
        }
        let _ = next(cur)?;
        let r = parse_expr(cur, args)?;
        expect(cur, Expected::RParen)?;
        Ok(r)
    } else {
        parse_maybe_if(cur, args)
    }
}

/// Reads a name: that of a function, or that of a parameter in a function's head.
pub fn parse_arg(cur: &mut String) -> (res: Result<String, CompileError>)
    ensures
        final(cur)@ == grammar::parse_arg(old(cur)@).1,
        match grammar::parse_arg(old(cur)@).0 {
            Ok(name) => res matches Ok(found) && found@ == name,
            Err(e) => res matches Err(err) && err@ == e,
        },
{
    match next(cur)? {
        Token::ID(n) => Ok(n),
        other => Err(unexpected(Expected::Name, other, cur)),
    }
}

/// Reads the parameters of a function and the `)` behind them.
pub fn parse_args(cur: &mut String) -> (res: Result<Args, CompileError>)
    ensures
        final(cur)@ == grammar::parse_args(old(cur)@).1,
        match grammar::parse_args(old(cur)@).0 {
            Ok(params) => res matches Ok(args) && params_view(args@) == params,
            Err(e) => res matches Err(err) && err@ == e,
        },
{
    let mut args: Args = Vec::new();
    let named = match tok(cur, true) {
        Ok(Token::ID(_)) => true,
        _ => false,
    };
    if !named {
        expect(cur, Expected::RParen)?;
        assert(params_view(args@) =~= Seq::empty());
        return Ok(args);
    }
    proof {
        assert(params_view(args@) =~= Seq::empty());
        lemma_prepend_nothing(grammar::parse_names(cur@));
    }
    loop
        invariant
            grammar::parse_args(old(cur)@) == prepend(
                params_view(args@),
                grammar::parse_names(cur@),
            ),
        decreases cur@.len(),
    {
        let ghost front = params_view(args@);
        proof {
            lemma_parse_arg_advances(cur@);
        }
        let name = parse_arg(cur)?;
        let ghost param = (name@, Type::Int32);
        args.push((name, Type::Int32));
        proof {
            lemma_next_advances(cur@);
            assert(params_view(args@) =~= front + seq![param]);
        }
        match next(cur)? {
            Token::RParen => {
                return Ok(args);
            },
            Token::Comma => {
                proof {
                    lemma_prepend_one(front, param, grammar::parse_names(cur@));
                }
            },
            other => {
                return Err(unexpected(Expected::RParen, other, cur));
            },
        }
    }
}

/// A function with the declared type `Int32`.
fn function(name: String, args: Args, body: AST) -> (node: AST)
    ensures
        node@ == Node::Function(name@, params_view(args@), Type::Int32, Box::new(body@)),
{
    AST::Function(name, args, Type::Int32, Box::new(body))
}

/// Reads a function, behind its `fn`.
pub fn parse_fn(cur: &mut String) -> (res: Result<AST, CompileError>)
    ensures
        is_node(res, final(cur)@, grammar::parse_fn(old(cur)@)),
{
    let name = parse_arg(cur)?;
    expect(cur, Expected::LParen)?;
    let args = parse_args(cur)?;
    expect(cur, Expected::LBrace)?;
    let parsed_expr = parse_expr(cur, &args)?;
    let new_fn = function(name, args, parsed_expr);
    expect(cur, Expected::RBrace)?;
    Ok(new_fn)
}

/// Reads the functions of a program, in the order of the text.
pub fn parse_top(cur: &mut String) -> (res: Result<Vec<AST>, CompileError>)
    ensures
        is_nodes(res, final(cur)@, grammar::parse_top(old(cur)@)),
{
    let mut functions: Vec<AST> = Vec::new();
    proof {
        assert(models(functions@) =~= Seq::<Node>::empty());
        lemma_prepend_nothing(grammar::parse_top(cur@));
    }
    loop
        invariant
            grammar::parse_top(old(cur)@) == prepend(
                models(functions@),
                grammar::parse_top(cur@),
            ),
        decreases cur@.len(),
    {
        let ghost front = models(functions@);
        proof {
            lemma_next_advances(cur@);
        }
        expect(cur, Expected::Function)?;
        proof {
            lemma_parse_fn_advances(cur@);
        }
        let new_fn = parse_fn(cur)?;
        let ghost node = new_fn@;
        functions.push(new_fn);
        proof {
            assert(models(functions@) =~= front + seq![node]);
        }
        if !peek_is(cur, &Token::Function) {
            return Ok(functions);
        }
        proof {
            lemma_prepend_one(front, node, grammar::parse_top(cur@));
        }
    }
}

/// A scope of the functions `items`.
fn scope(items: Vec<AST>) -> (node: AST)
    ensures
        node@ == Node::Scope(models(items@)),
{
    let node = AST::Scope(items);
    assert(node@->Scope_0 =~= models(items@));
    node
}

/// Parses a program: one function or more, each behind the keyword `fn`. The cursor is left
/// with the text that was not read: what follows the last function, or, after an error, what
/// follows the place at which parsing stopped.
pub fn parse(cur: &mut String) -> (res: Result<AST, CompileError>)
    ensures
        is_node(res, final(cur)@, grammar::parse(old(cur)@)),
{
    let parsed = parse_top(cur)?;
    Ok(scope(parsed))
}

} // verus!
