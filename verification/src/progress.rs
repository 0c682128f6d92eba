//! Every parser moves forward: it leaves no more text than it was given, and less where it
//! succeeds.

use vstd::prelude::*;
use crate::grammar::{
    expect, next, parse, parse_arg, parse_arg_list, parse_args, parse_atom, parse_expr, parse_fn,
    parse_fn_args, parse_maybe_arith, parse_maybe_if, parse_names, parse_top, peek_is, within,
    Params, Parsed,
};
use crate::error::Expected;
use crate::token::{lemma_lex_shrinks, Lexeme};

verus! {

/// `outcome`, returned for the text `s`, leaves no more than `s`, and less after a success.
pub open spec fn advances<T>(outcome: Parsed<T>, s: Seq<char>) -> bool {
    &&& outcome.1.len() <= s.len()
    &&& outcome.0 is Ok ==> outcome.1.len() < s.len()
}

/// An outcome that advances is not changed by `within`.
pub proof fn lemma_within<T>(outcome: Parsed<T>, s: Seq<char>)
    requires
        advances(outcome, s),
    ensures
        within(outcome, s) == outcome,
{
}

/// `next` advances.
pub proof fn lemma_next_advances(s: Seq<char>)
    ensures
        advances(next(s), s),
{
    lemma_lex_shrinks(s);
}

/// `expect` advances.
pub proof fn lemma_expect_advances(s: Seq<char>, expected: Expected)
    ensures
        advances(expect(s, expected), s),
{
    lemma_lex_shrinks(s);
}

/// `parse_atom` advances.
pub proof fn lemma_parse_atom_advances(s: Seq<char>, params: Params)
    ensures
        advances(parse_atom(s, params), s),
    decreases s.len(), 0nat,
{
    lemma_lex_shrinks(s);
    match next(s) {
        (Ok(Lexeme::ID(name)), rest) => {
            if peek_is(rest, Lexeme::LParen) {
                lemma_lex_shrinks(rest);
                lemma_parse_fn_args_advances(next(rest).1, params);
            }
        },
        _ => {},
    }
}

/// `parse_maybe_arith` advances.
pub proof fn lemma_parse_maybe_arith_advances(s: Seq<char>, params: Params)
    ensures
        advances(parse_maybe_arith(s, params), s),
    decreases s.len(), 1nat,
{
    lemma_parse_atom_advances(s, params);
    match parse_atom(s, params) {
        (Ok(left), rest) => {
            lemma_lex_shrinks(rest);
            match next(rest) {
                (Ok(token), behind) => {
                    lemma_parse_expr_advances(behind, params);
                },
                _ => {},
            }
        },
        _ => {},
    }
}

/// `parse_maybe_if` advances.
pub proof fn lemma_parse_maybe_if_advances(s: Seq<char>, params: Params)
    ensures
        advances(parse_maybe_if(s, params), s),
    decreases s.len(), 2nat,
{
    if peek_is(s, Lexeme::If) {
        lemma_lex_shrinks(s);
        let s1 = next(s).1;
        lemma_parse_expr_advances(s1, params);
        match parse_expr(s1, params) {
            (Ok(cnd), s2) => {
                lemma_expect_advances(s2, Expected::Then);
                match expect(s2, Expected::Then) {
                    (Ok(_), s3) => {
                        lemma_parse_expr_advances(s3, params);
                        match parse_expr(s3, params) {
                            (Ok(yes), s4) => {
                                lemma_expect_advances(s4, Expected::Else);
                                match expect(s4, Expected::Else) {
                                    (Ok(_), s5) => {
                                        lemma_parse_expr_advances(s5, params);
                                    },
                                    _ => {},
                                }
                            },
                            _ => {},
                        }
                    },
                    _ => {},
                }
            },
            _ => {},
        }
    } else {
        lemma_parse_maybe_arith_advances(s, params);
    }
}

/// `parse_expr` advances.
pub proof fn lemma_parse_expr_advances(s: Seq<char>, params: Params)
    ensures
        advances(parse_expr(s, params), s),
    decreases s.len(), 3nat,
{
    if peek_is(s, Lexeme::LParen) {
        lemma_lex_shrinks(s);
        lemma_parse_expr_advances(next(s).1, params);
        match parse_expr(next(s).1, params) {
            (Ok(node), rest) => {
                lemma_expect_advances(rest, Expected::RParen);
            },
            _ => {},
        }
    } else {
        lemma_parse_maybe_if_advances(s, params);
    }
}

/// `parse_arg_list` advances.
pub proof fn lemma_parse_arg_list_advances(s: Seq<char>, params: Params)
    ensures
        advances(parse_arg_list(s, params), s),
    decreases s.len(), 4nat,
{
    lemma_parse_expr_advances(s, params);
    match parse_expr(s, params) {
        (Ok(arg), rest) => {
            lemma_lex_shrinks(rest);
            match next(rest) {
                (Ok(Lexeme::Comma), behind) => {
                    lemma_parse_arg_list_advances(behind, params);
                },
                _ => {},
            }
        },
        _ => {},
    }
}

/// `parse_fn_args` advances.
pub proof fn lemma_parse_fn_args_advances(s: Seq<char>, params: Params)
    ensures
        advances(parse_fn_args(s, params), s),
    decreases s.len(), 5nat,
{
    if peek_is(s, Lexeme::RParen) {
        lemma_lex_shrinks(s);
    } else {
        lemma_parse_arg_list_advances(s, params);
    }
}

/// `parse_arg` advances.
pub proof fn lemma_parse_arg_advances(s: Seq<char>)
    ensures
        advances(parse_arg(s), s),
{
    lemma_lex_shrinks(s);
}

/// `parse_names` advances.
pub proof fn lemma_parse_names_advances(s: Seq<char>)
    ensures
        advances(parse_names(s), s),
    decreases s.len(),
{
    lemma_lex_shrinks(s);
    match parse_arg(s) {
        (Ok(name), rest) => {
            lemma_lex_shrinks(rest);
            match next(rest) {
                (Ok(Lexeme::Comma), behind) => {
                    lemma_parse_names_advances(behind);
                },
                _ => {},
            }
        },
        _ => {},
    }
}

/// `parse_args` advances.
pub proof fn lemma_parse_args_advances(s: Seq<char>)
    ensures
        advances(parse_args(s), s),
{
    lemma_parse_names_advances(s);
    lemma_expect_advances(s, Expected::RParen);
}

/// `parse_fn` advances.
pub proof fn lemma_parse_fn_advances(s: Seq<char>)
    ensures
        advances(parse_fn(s), s),
{
    lemma_parse_arg_advances(s);
    match parse_arg(s) {
        (Ok(name), s1) => {
            lemma_expect_advances(s1, Expected::LParen);
            match expect(s1, Expected::LParen) {
                (Ok(_), s2) => {
                    lemma_parse_args_advances(s2);
                    match parse_args(s2) {
                        (Ok(params), s3) => {
                            lemma_expect_advances(s3, Expected::LBrace);
                            match expect(s3, Expected::LBrace) {
                                (Ok(_), s4) => {
                                    lemma_parse_expr_advances(s4, params);
                                    match parse_expr(s4, params) {
                                        (Ok(body), s5) => {
                                            lemma_expect_advances(s5, Expected::RBrace);
                                        },
                                        _ => {},
                                    }
                                },
                                _ => {},
                            }
                        },
                        _ => {},
                    }
                },
                _ => {},
            }
        },
        _ => {},
    }
}

/// `parse_top` advances.
pub proof fn lemma_parse_top_advances(s: Seq<char>)
    ensures
        advances(parse_top(s), s),
    decreases s.len(),
{
    lemma_expect_advances(s, Expected::Function);
    match expect(s, Expected::Function) {
        (Ok(_), rest) => {
            lemma_parse_fn_advances(rest);
            match parse_fn(rest) {
                (Ok(function), behind) => {
                    if peek_is(behind, Lexeme::Function) {
                        lemma_parse_top_advances(behind);
                    }
                },
                _ => {},
            }
        },
        _ => {},
    }
}

/// `parse` advances.
pub proof fn lemma_parse_advances(s: Seq<char>)
    ensures
        advances(parse(s), s),
{
    lemma_parse_top_advances(s);
}

} // verus!
