//! The grammar, as functions from the text that is left to what is parsed and the text
//! behind it.
//!
//! ```text
//! Program   := ('fn' Function)+
//! Function  := ID '(' Params ')' '{' Expr '}'
//! Params    := (ID (',' ID)*)?
//! Expr      := '(' Expr ')'
//!            | 'if' Expr 'then' Expr 'else' Expr
//!            | Atom (BinOp Expr)?
//! Atom      := NUMBER | ID ('(' ArgList ')')?
//! ArgList   := (Expr (',' Expr)*)?
//! BinOp     := '+' | '-' | '*' | '/' | '%' | '>' | '<'
//! ```
//!
//! Every function here returns a pair: the outcome, and the text that is left. After a
//! failure that is the text at which parsing stopped.

use vstd::prelude::*;
use crate::ast::{Constant, Node, Type};
use crate::error::{Expected, Failure};
use crate::lexer::read;
use crate::token::{lemma_lex_shrinks, lex, operation, Lexeme};

verus! {

/// The parameters of a function, as names with their types.
pub type Params = Seq<(Seq<char>, Type)>;

/// What a parser returns: the outcome, and the text that is left.
pub type Parsed<T> = (Result<T, Failure>, Seq<char>);

/// Reads the next token and takes it from the text. Where there is none, the text stays as
/// it is.
pub open spec fn next(s: Seq<char>) -> Parsed<Lexeme> {
    read(s, false)
}

/// Whether a peek at `s` shows `token`. It does not where no token can be read.
pub open spec fn peek_is(s: Seq<char>, token: Lexeme) -> bool {
    read(s, true).0 == Ok::<Lexeme, Failure>(token)
}

/// The one token that meets an expectation, where it is met by a single token.
pub open spec fn token_of(expected: Expected) -> Option<Lexeme> {
    match expected {
        Expected::Function => Some(Lexeme::Function),
        Expected::Then => Some(Lexeme::Then),
        Expected::Else => Some(Lexeme::Else),
        Expected::LParen => Some(Lexeme::LParen),
        Expected::RParen => Some(Lexeme::RParen),
        Expected::LBrace => Some(Lexeme::LBrace),
        Expected::RBrace => Some(Lexeme::RBrace),
        _ => None,
    }
}

/// Reads the next token, which has to be the one that `expected` names.
pub open spec fn expect(s: Seq<char>, expected: Expected) -> Parsed<()> {
    match next(s) {
        (Err(e), rest) => (Err(e), rest),
        (Ok(token), rest) => if Some(token) == token_of(expected) {
            (Ok(()), rest)
        } else {
            (Err(Failure::Unexpected(expected, token, rest)), rest)
        },
    }
}

/// The index of the first parameter called `name`.
pub open spec fn position(params: Params, name: Seq<char>) -> Option<nat>
    decreases params.len(),
{
    if params.len() == 0 {
        None
    } else if params[0].0 == name {
        Some(0)
    } else {
        match position(params.drop_first(), name) {
            Some(i) => Some(i + 1),
            None => None,
        }
    }
}

/// The first of several parameters of one name wins: `position` gives the index of a
/// parameter called `name` before which there is no other, and nothing only where no
/// parameter has the name.
pub proof fn lemma_position(params: Params, name: Seq<char>)
    ensures
        match position(params, name) {
            Some(i) => {
                &&& i < params.len()
                &&& params[i as int].0 == name
                &&& forall|k: int| 0 <= k < i ==> (#[trigger] params[k]).0 != name
            },
            None => forall|k: int| 0 <= k < params.len() ==> (#[trigger] params[k]).0 != name,
        },
    decreases params.len(),
{
    if params.len() > 0 && params[0].0 != name {
        let rest = params.drop_first();
        lemma_position(rest, name);
        match position(rest, name) {
            Some(i) => {
                assert forall|k: int| 0 <= k < i + 1 implies (#[trigger] params[k]).0
                    != name by {
                    if k > 0 {
                        assert(params[k] == rest[k - 1]);
                    }
                }
            },
            None => {
                assert forall|k: int| 0 <= k < params.len() implies (#[trigger] params[k]).0
                    != name by {
                    if k > 0 {
                        assert(params[k] == rest[k - 1]);
                    }
                }
            },
        }
    }
}

/// `outcome`, which a parser returned for the text `s`, with the text that it leaves held to
/// the length of `s`. No parser here leaves more than it was given (`lemma_within`), so this
/// is always `outcome` itself; written out, it lets the recursion below be seen to end.
pub open spec fn within<T>(outcome: Parsed<T>, s: Seq<char>) -> Parsed<T> {
    if outcome.1.len() <= s.len() {
        outcome
    } else {
        (outcome.0, s)
    }
}

/// `Atom := NUMBER | ID ('(' ArgList ')')?`. A name that no `(` follows is a parameter, found
/// by its first occurrence in `params`.
pub open spec fn parse_atom(s: Seq<char>, params: Params) -> Parsed<Node>
    decreases s.len(), 0nat,
{
    match next(s) {
        (Err(e), rest) => (Err(e), rest),
        (Ok(Lexeme::Number(n)), rest) => (Ok(Node::Literal(Constant::Int32(n))), rest),
        (Ok(Lexeme::ID(name)), rest) => {
            if peek_is(rest, Lexeme::LParen) {
                proof {
                    lemma_lex_shrinks(s);
                    lemma_lex_shrinks(rest);
                }
                match parse_fn_args(next(rest).1, params) {
                    (Err(e), left) => (Err(e), left),
                    (Ok(args), left) => (Ok(Node::Call(name, args)), left),
                }
            } else {
                match position(params, name) {
                    Some(i) => (Ok(Node::Local(i, params[i as int])), rest),
                    None => (
                        Err(Failure::Unexpected(Expected::Parameter, Lexeme::ID(name), rest)),
                        rest,
                    ),
                }
            }
        },
        (Ok(token), rest) => (Err(Failure::Unexpected(Expected::Atom, token, rest)), rest),
    }
}

/// `Atom (BinOp Expr)?`. All of what follows the operator is its right operand, whatever
/// the operators are.
pub open spec fn parse_maybe_arith(s: Seq<char>, params: Params) -> Parsed<Node>
    decreases s.len(), 1nat,
{
    match within(parse_atom(s, params), s) {
        (Err(e), rest) => (Err(e), rest),
        (Ok(left), rest) => match next(rest) {
            (Err(e), behind) => (Err(e), behind),
            (Ok(token), behind) => match operation(token) {
                None => (Ok(left), rest),
                Some(op) => {
                    proof {
                        lemma_lex_shrinks(rest);
                    }
                    match parse_expr(behind, params) {
                        (Err(e), end) => (Err(e), end),
                        (Ok(right), end) => (
                            Ok(Node::BinaryOp(op, Box::new(left), Box::new(right))),
                            end,
                        ),
                    }
                },
            },
        },
    }
}

/// `'if' Expr 'then' Expr 'else' Expr`, or else `Atom (BinOp Expr)?`.
pub open spec fn parse_maybe_if(s: Seq<char>, params: Params) -> Parsed<Node>
    decreases s.len(), 2nat,
{
    if peek_is(s, Lexeme::If) {
        proof {
            lemma_lex_shrinks(s);
        }
        match within(parse_expr(next(s).1, params), next(s).1) {
            (Err(e), rest) => (Err(e), rest),
            (Ok(cnd), rest) => match expect(rest, Expected::Then) {
                (Err(e), rest) => (Err(e), rest),
                (Ok(_), rest) => {
                    proof {
                        lemma_lex_shrinks(within(parse_expr(next(s).1, params), next(s).1).1);
                    }
                    match within(parse_expr(rest, params), rest) {
                        (Err(e), rest) => (Err(e), rest),
                        (Ok(yes), rest2) => match expect(rest2, Expected::Else) {
                            (Err(e), rest) => (Err(e), rest),
                            (Ok(_), rest3) => {
                                proof {
                                    lemma_lex_shrinks(rest2);
                                }
                                match parse_expr(rest3, params) {
                                    (Err(e), end) => (Err(e), end),
                                    (Ok(no), end) => (
                                        Ok(Node::If(Box::new(cnd), Box::new(yes), Box::new(no))),
                                        end,
                                    ),
                                }
                            },
                        },
                    }
                },
            },
        }
    } else {
        parse_maybe_arith(s, params)
    }
}

/// `Expr`. Parentheses only group: they leave no node of their own.
pub open spec fn parse_expr(s: Seq<char>, params: Params) -> Parsed<Node>
    decreases s.len(), 3nat,
{
    if peek_is(s, Lexeme::LParen) {
        proof {
            lemma_lex_shrinks(s);
        }
        match parse_expr(next(s).1, params) {
            (Err(e), rest) => (Err(e), rest),
            (Ok(node), rest) => match expect(rest, Expected::RParen) {
                (Err(e), end) => (Err(e), end),
                (Ok(_), end) => (Ok(node), end),
            },
        }
    } else {
        parse_maybe_if(s, params)
    }
}

/// `Expr (',' Expr)* ')'`: the arguments of a call that has at least one.
pub open spec fn parse_arg_list(s: Seq<char>, params: Params) -> Parsed<Seq<Node>>
    decreases s.len(), 4nat,
{
    match within(parse_expr(s, params), s) {
        (Err(e), rest) => (Err(e), rest),
        (Ok(arg), rest) => match next(rest) {
            (Err(e), behind) => (Err(e), behind),
            (Ok(Lexeme::RParen), behind) => (Ok(seq![arg]), behind),
            (Ok(Lexeme::Comma), behind) => {
                proof {
                    lemma_lex_shrinks(rest);
                }
                match parse_arg_list(behind, params) {
                    (Err(e), end) => (Err(e), end),
                    (Ok(more), end) => (Ok(seq![arg] + more), end),
                }
            },
            (Ok(token), behind) => (
                Err(Failure::Unexpected(Expected::RParen, token, behind)),
                behind,
            ),
        },
    }
}

/// `ArgList ')'`: the arguments of a call, read behind its `(`.
pub open spec fn parse_fn_args(s: Seq<char>, params: Params) -> Parsed<Seq<Node>>
    decreases s.len(), 5nat,
{
    if peek_is(s, Lexeme::RParen) {
        (Ok(Seq::empty()), next(s).1)
    } else {
        parse_arg_list(s, params)
    }
}

/// A name: that of a function, or that of a parameter in a function's head.
pub open spec fn parse_arg(s: Seq<char>) -> Parsed<Seq<char>> {
    match next(s) {
        (Err(e), rest) => (Err(e), rest),
        (Ok(Lexeme::ID(name)), rest) => (Ok(name), rest),
        (Ok(token), rest) => (Err(Failure::Unexpected(Expected::Name, token, rest)), rest),
    }
}

/// `ID (',' ID)* ')'`: the parameters of a function that has at least one. Each has the
/// type `Int32`.
pub open spec fn parse_names(s: Seq<char>) -> Parsed<Params>
    decreases s.len(),
{
    match parse_arg(s) {
        (Err(e), rest) => (Err(e), rest),
        (Ok(name), rest) => match next(rest) {
            (Err(e), behind) => (Err(e), behind),
            (Ok(Lexeme::RParen), behind) => (Ok(seq![(name, Type::Int32)]), behind),
            (Ok(Lexeme::Comma), behind) => {
                proof {
                    lemma_lex_shrinks(s);
                    lemma_lex_shrinks(rest);
                }
                match parse_names(behind) {
                    (Err(e), end) => (Err(e), end),
                    (Ok(more), end) => (Ok(seq![(name, Type::Int32)] + more), end),
                }
            },
            (Ok(token), behind) => (
                Err(Failure::Unexpected(Expected::RParen, token, behind)),
                behind,
            ),
        },
    }
}

/// `Params ')'`: the parameters of a function, read behind the `(`. Where no name comes
/// first there are none, and the `)` has to follow at once.
pub open spec fn parse_args(s: Seq<char>) -> Parsed<Params> {
    if lex(s) matches Some((Lexeme::ID(_), _)) {
        parse_names(s)
    } else {
        match expect(s, Expected::RParen) {
            (Err(e), rest) => (Err(e), rest),
            (Ok(_), rest) => (Ok(Seq::empty()), rest),
        }
    }
}

/// `Function`, read behind its `fn`. The declared type of every function is `Int32`.
pub open spec fn parse_fn(s: Seq<char>) -> Parsed<Node> {
    match parse_arg(s) {
        (Err(e), rest) => (Err(e), rest),
        (Ok(name), rest) => match expect(rest, Expected::LParen) {
            (Err(e), rest) => (Err(e), rest),
            (Ok(_), rest) => match parse_args(rest) {
                (Err(e), rest) => (Err(e), rest),
                (Ok(params), rest) => match expect(rest, Expected::LBrace) {
                    (Err(e), rest) => (Err(e), rest),
                    (Ok(_), rest) => match parse_expr(rest, params) {
                        (Err(e), rest) => (Err(e), rest),
                        (Ok(body), rest) => match expect(rest, Expected::RBrace) {
                            (Err(e), rest) => (Err(e), rest),
                            (Ok(_), rest) => (
                                Ok(Node::Function(name, params, Type::Int32, Box::new(body))),
                                rest,
                            ),
                        },
                    },
                },
            },
        },
    }
}

/// `('fn' Function)+`: the functions in the order of the text. Another function is read as
/// long as the next token is `fn`; what follows the last one is left unread.
pub open spec fn parse_top(s: Seq<char>) -> Parsed<Seq<Node>>
    decreases s.len(),
{
    match expect(s, Expected::Function) {
        (Err(e), rest) => (Err(e), rest),
        (Ok(_), rest) => match within(parse_fn(rest), rest) {
            (Err(e), rest) => (Err(e), rest),
            (Ok(function), behind) => if peek_is(behind, Lexeme::Function) {
                proof {
                    lemma_lex_shrinks(s);
                }
                match parse_top(behind) {
                    (Err(e), end) => (Err(e), end),
                    (Ok(more), end) => (Ok(seq![function] + more), end),
                }
            } else {
                (Ok(seq![function]), behind)
            },
        },
    }
}

/// `Program`: the whole text as one scope.
pub open spec fn parse(s: Seq<char>) -> Parsed<Node> {
    match parse_top(s) {
        (Err(e), rest) => (Err(e), rest),
        (Ok(functions), rest) => (Ok(Node::Scope(functions)), rest),
    }
}

} // verus!
